//! Class descriptors and the fluent class builder: methods with their
//! visibilities, class constants, default properties, and the optional
//! native object-override hook.

use vstd::prelude::*;

use crate::errors::BindingError;
use crate::function::{Callback, FunctionDescriptor, Visibility};
use crate::value::{has_nul, ValueCell};

verus! {

/// A named class constant.
#[derive(Debug)]
pub struct ClassConstant {
    pub name: Vec<u8>,
    pub value: ValueCell,
}

/// A default property value installed on every new instance.
#[derive(Debug)]
pub struct PropertyDefault {
    pub name: Vec<u8>,
    pub value: ValueCell,
}

/// A class descriptor: immutable once registered with a module.
#[derive(Debug)]
pub struct ClassDescriptor {
    pub name: Vec<u8>,
    pub parent: Option<Vec<u8>>,
    pub interfaces: Vec<Vec<u8>>,
    pub methods: Vec<FunctionDescriptor>,
    pub constants: Vec<ClassConstant>,
    pub properties: Vec<PropertyDefault>,
    /// The hook that associates a native default-constructible payload with
    /// instances of the class, when one was declared.
    pub object_override: Option<Callback>,
}

impl ClassDescriptor {
    /// Every declared method is well formed.
    pub open spec fn wf(self) -> bool {
        forall|i: int| 0 <= i < self.methods@.len() ==> (#[trigger] self.methods@[i]).wf()
    }
}

/// Fluent builder for a class descriptor.
#[derive(Debug)]
pub struct ClassBuilder {
    pub name: Vec<u8>,
    pub parent: Option<Vec<u8>>,
    pub interfaces: Vec<Vec<u8>>,
    pub methods: Vec<FunctionDescriptor>,
    pub constants: Vec<ClassConstant>,
    pub properties: Vec<PropertyDefault>,
    pub object_override: Option<Callback>,
}

impl ClassBuilder {
    /// Every accumulated method is well formed.
    pub open spec fn wf(self) -> bool {
        forall|i: int| 0 <= i < self.methods@.len() ==> (#[trigger] self.methods@[i]).wf()
    }

    /// Starts a class declaration with its name.
    pub fn new(name: Vec<u8>) -> (b: Self)
        ensures
            b.name == name,
            b.parent is None,
            b.interfaces@.len() == 0,
            b.methods@.len() == 0,
            b.constants@.len() == 0,
            b.properties@.len() == 0,
            b.object_override is None,
            b.wf(),
    {
        ClassBuilder {
            name,
            parent: None,
            interfaces: Vec::new(),
            methods: Vec::new(),
            constants: Vec::new(),
            properties: Vec::new(),
            object_override: None,
        }
    }

    /// Declares the parent class.
    pub fn extends(self, parent: Vec<u8>) -> (b: Self)
        ensures
            b == (ClassBuilder { parent: Some(parent), ..self }),
    {
        ClassBuilder { parent: Some(parent), ..self }
    }

    /// Declares one implemented interface.
    pub fn implements(self, interface: Vec<u8>) -> (b: Self)
        ensures
            b.interfaces@ == self.interfaces@.push(interface),
            b == (ClassBuilder { interfaces: b.interfaces, ..self }),
    {
        let mut b = self;
        b.interfaces.push(interface);
        b
    }

    /// Declares one method with its visibility.
    pub fn method(self, f: FunctionDescriptor, vis: Visibility) -> (b: Self)
        requires
            self.wf(),
            f.wf(),
        ensures
            b.methods@ == self.methods@.push(
                (FunctionDescriptor { visibility: vis, ..f }),
            ),
            b == (ClassBuilder { methods: b.methods, ..self }),
            b.wf(),
    {
        let mut b = self;
        let tagged = FunctionDescriptor { visibility: vis, ..f };
        b.methods.push(tagged);
        b
    }

    /// Declares one class constant.
    pub fn constant(self, name: Vec<u8>, value: ValueCell) -> (b: Self)
        ensures
            b.constants@.len() == self.constants@.len() + 1,
            b.constants@.last().name == name,
            b.constants@.last().value == value,
            b.constants@.subrange(0, self.constants@.len() as int) == self.constants@,
            b == (ClassBuilder { constants: b.constants, ..self }),
    {
        let mut b = self;
        b.constants.push(ClassConstant { name, value });
        proof {
            assert(b.constants@.subrange(0, self.constants@.len() as int) =~= self.constants@);
        }
        b
    }

    /// Declares one default property.
    pub fn property(self, name: Vec<u8>, value: ValueCell) -> (b: Self)
        ensures
            b.properties@.len() == self.properties@.len() + 1,
            b.properties@.last().name == name,
            b.properties@.last().value == value,
            b == (ClassBuilder { properties: b.properties, ..self }),
    {
        let mut b = self;
        b.properties.push(PropertyDefault { name, value });
        b
    }

    /// Declares the native object-override hook.
    pub fn object_override(self, hook: Callback) -> (b: Self)
        ensures
            b == (ClassBuilder { object_override: Some(hook), ..self }),
    {
        ClassBuilder { object_override: Some(hook), ..self }
    }

    /// Finishes the declaration. A class name with an embedded terminator
    /// byte is rejected with `InvalidName`.
    pub fn build(self) -> (r: Result<ClassDescriptor, BindingError>)
        requires
            self.wf(),
        ensures
            match r {
                Ok(c) => {
                    &&& !has_nul(self.name@)
                    &&& c.name == self.name
                    &&& c.parent == self.parent
                    &&& c.interfaces == self.interfaces
                    &&& c.methods == self.methods
                    &&& c.constants == self.constants
                    &&& c.properties == self.properties
                    &&& c.object_override == self.object_override
                    &&& c.wf()
                },
                Err(e) => has_nul(self.name@) && e == BindingError::InvalidName,
            },
    {
        let mut i: usize = 0;
        while i < self.name.len()
            invariant
                i <= self.name@.len(),
                forall|j: int| 0 <= j < i ==> self.name@[j] != 0u8,
            decreases self.name@.len() - i,
        {
            if self.name[i] == 0u8 {
                proof {
                    assert((i as int) < self.name@.len() && self.name@[i as int] == 0u8);
                }
                return Err(BindingError::InvalidName);
            }
            i = i + 1;
        }
        Ok(
            ClassDescriptor {
                name: self.name,
                parent: self.parent,
                interfaces: self.interfaces,
                methods: self.methods,
                constants: self.constants,
                properties: self.properties,
                object_override: self.object_override,
            },
        )
    }
}

} // verus!
