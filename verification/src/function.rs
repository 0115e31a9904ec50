//! Function descriptors, the fluent function builder, and the ABI-shaped
//! function-entry records the host loader scans.

use vstd::prelude::*;

use crate::args::ArgDescriptor;
use crate::convert::TypeSpec;
use crate::errors::BindingError;
use crate::value::{has_nul, to_host_str};

verus! {

/// An opaque token standing for a native entry point the host will invoke
/// (in the loaded extension this slot carries a C function pointer; the
/// descriptor logic only stores and compares it).
#[derive(Debug, Clone, Copy, PartialEq, Eq, Structural)]
pub struct Callback {
    pub id: u64,
}

/// Visibility of a method. Plain functions are public.
#[derive(Debug, Clone, Copy, PartialEq, Eq, Structural)]
pub enum Visibility {
    Public,
    Protected,
    Private,
}

/// Method-flag bit for public visibility.
pub const ACC_PUBLIC: u32 = 1;

/// Method-flag bit for protected visibility.
pub const ACC_PROTECTED: u32 = 2;

/// Method-flag bit for private visibility.
pub const ACC_PRIVATE: u32 = 4;

/// Method-flag bit for a static method.
pub const ACC_STATIC: u32 = 16;

/// The flag word of a function entry, as the host reads it.
pub open spec fn spec_flags(vis: Visibility, is_static: bool) -> u32 {
    (match vis {
        Visibility::Public => ACC_PUBLIC,
        Visibility::Protected => ACC_PROTECTED,
        Visibility::Private => ACC_PRIVATE,
    }) | (if is_static {
        ACC_STATIC
    } else {
        0u32
    })
}

/// How many leading descriptors of the list are required.
pub open spec fn count_required(s: Seq<ArgDescriptor>) -> int
    decreases s.len(),
{
    if s.len() == 0 {
        0
    } else {
        (if s[0].required {
            1int
        } else {
            0int
        }) + count_required(s.skip(1))
    }
}

/// All required descriptors precede all optional ones.
pub open spec fn args_ordered(s: Seq<ArgDescriptor>) -> bool {
    forall|i: int, j: int|
        #![trigger s[i], s[j]]
        0 <= i < j < s.len() ==> (s[j].required ==> s[i].required)
}

/// Whether some descriptor of the list is optional.
pub open spec fn some_optional(s: Seq<ArgDescriptor>) -> bool {
    exists|i: int| 0 <= i < s.len() && !(#[trigger] s[i]).required
}

/// Whether the list already declares the given name.
pub open spec fn name_declared(s: Seq<ArgDescriptor>, n: Seq<u8>) -> bool {
    exists|i: int| 0 <= i < s.len() && (#[trigger] s[i]).name@ == n
}

/// Argument names are unique within one function.
pub open spec fn names_unique(s: Seq<ArgDescriptor>) -> bool {
    forall|i: int, j: int|
        #![trigger s[i], s[j]]
        0 <= i < j < s.len() ==> s[i].name@ != s[j].name@
}

pub proof fn lemma_count_required_bounds(s: Seq<ArgDescriptor>)
    ensures
        0 <= count_required(s) <= s.len(),
    decreases s.len(),
{
    if s.len() > 0 {
        lemma_count_required_bounds(s.skip(1));
    }
}

proof fn lemma_count_required_none(s: Seq<ArgDescriptor>)
    requires
        forall|i: int| 0 <= i < s.len() ==> !(#[trigger] s[i]).required,
    ensures
        count_required(s) == 0,
    decreases s.len(),
{
    if s.len() > 0 {
        assert(forall|i: int| 0 <= i < s.skip(1).len() ==> !(#[trigger] s.skip(1)[i]).required);
        lemma_count_required_none(s.skip(1));
    }
}

/// In an ordered descriptor list, a slot is required exactly when its index
/// is below the required count.
pub proof fn lemma_required_iff(s: Seq<ArgDescriptor>, i: int)
    requires
        args_ordered(s),
        0 <= i < s.len(),
    ensures
        s[i].required <==> i < count_required(s),
    decreases s.len(),
{
    lemma_count_required_bounds(s.skip(1));
    if s[0].required {
        if i > 0 {
            assert(args_ordered(s.skip(1))) by {
                assert(forall|x: int, y: int|
                    #![trigger s.skip(1)[x], s.skip(1)[y]]
                    0 <= x < y < s.skip(1).len() ==> (s.skip(1)[y].required ==> s.skip(
                        1,
                    )[x].required));
            }
            lemma_required_iff(s.skip(1), i - 1);
            assert(s.skip(1)[i - 1] == s[i]);
        }
    } else {
        assert(forall|j: int| 0 <= j < s.len() ==> !(#[trigger] s[j]).required) by {
            assert forall|j: int| 0 <= j < s.len() implies !(#[trigger] s[j]).required by {
                if j > 0 {
                    assert(s[j].required ==> s[0].required);
                }
            }
        }
        lemma_count_required_none(s);
    }
}

/// A function descriptor: name, ordered argument descriptors, native entry
/// point, arity bounds, return classification, visibility and staticness.
#[derive(Debug)]
pub struct FunctionDescriptor {
    pub name: Vec<u8>,
    pub args: Vec<ArgDescriptor>,
    pub handler: Callback,
    pub ret: TypeSpec,
    pub visibility: Visibility,
    pub is_static: bool,
    /// Minimum arity: the count of required arguments.
    pub min: usize,
    /// Maximum arity: the total argument count.
    pub max: usize,
}

impl FunctionDescriptor {
    /// Well-formedness: required descriptors precede optional ones, each
    /// descriptor carries a default exactly when optional, names are unique,
    /// and the arity bounds agree with the descriptor list.
    pub open spec fn wf(self) -> bool {
        &&& args_ordered(self.args@)
        &&& names_unique(self.args@)
        &&& forall|i: int| 0 <= i < self.args@.len() ==> (#[trigger] self.args@[i]).wf()
        &&& self.min == count_required(self.args@)
        &&& self.max == self.args@.len()
    }
}

/// Fluent builder for a function descriptor. Declaring a required argument
/// after an optional one, or reusing an argument name, is rejected at
/// declaration time.
#[derive(Debug)]
pub struct FunctionBuilder {
    pub name: Vec<u8>,
    pub args: Vec<ArgDescriptor>,
    pub handler: Callback,
    pub ret: TypeSpec,
    pub visibility: Visibility,
    pub is_static: bool,
}

impl FunctionBuilder {
    /// The accumulated argument list is well formed.
    pub open spec fn wf(self) -> bool {
        &&& args_ordered(self.args@)
        &&& names_unique(self.args@)
        &&& forall|i: int| 0 <= i < self.args@.len() ==> (#[trigger] self.args@[i]).wf()
    }

    /// Starts a function declaration with its name and native entry point.
    /// The return shape defaults to "any"; visibility defaults to public.
    pub fn new(name: Vec<u8>, handler: Callback) -> (b: Self)
        ensures
            b.name == name,
            b.args@ =~= Seq::<ArgDescriptor>::empty(),
            b.handler == handler,
            b.ret == TypeSpec::Any,
            b.visibility == Visibility::Public,
            b.is_static == false,
            b.wf(),
    {
        FunctionBuilder {
            name,
            args: Vec::new(),
            handler,
            ret: TypeSpec::Any,
            visibility: Visibility::Public,
            is_static: false,
        }
    }

    /// Declares the return shape.
    pub fn returns_type(self, ret: TypeSpec) -> (b: Self)
        ensures
            b == (FunctionBuilder { ret, ..self }),
    {
        FunctionBuilder { ret, ..self }
    }

    /// Declares the visibility (meaningful for methods).
    pub fn visibility(self, vis: Visibility) -> (b: Self)
        ensures
            b == (FunctionBuilder { visibility: vis, ..self }),
    {
        FunctionBuilder { visibility: vis, ..self }
    }

    /// Marks the function static.
    pub fn static_flag(self, is_static: bool) -> (b: Self)
        ensures
            b == (FunctionBuilder { is_static, ..self }),
    {
        FunctionBuilder { is_static, ..self }
    }

    /// Appends one argument descriptor.
    ///
    /// A required descriptor declared after any optional one is rejected
    /// with `OrderingViolation`; a name already declared in this function is
    /// rejected with `InvalidName`.
    pub fn arg(self, a: ArgDescriptor) -> (r: Result<Self, BindingError>)
        requires
            self.wf(),
            a.wf(),
        ensures
            ({
                let has_opt = some_optional(self.args@);
                let dup = name_declared(self.args@, a.name@);
                &&& (a.required && has_opt) ==> (r matches Err(BindingError::OrderingViolation(m))
                    && m@ == "required arguments must precede optional ones"@)
                &&& (!(a.required && has_opt) && dup) ==> r == Err::<Self, _>(
                    BindingError::InvalidName,
                )
                &&& (!(a.required && has_opt) && !dup) ==> (r matches Ok(b) && b.name == self.name
                    && b.args@ == self.args@.push(a) && b.handler == self.handler && b.ret
                    == self.ret && b.visibility == self.visibility && b.is_static == self.is_static
                    && b.wf())
            }),
    {
        if a.required {
            let mut i: usize = 0;
            while i < self.args.len()
                invariant
                    i <= self.args@.len(),
                    a.required,
                    forall|j: int| 0 <= j < i ==> (#[trigger] self.args@[j]).required,
                decreases self.args@.len() - i,
            {
                if !self.args[i].required {
                    proof {
                        assert(some_optional(self.args@)) by {
                            assert((i as int) < self.args@.len() && !(#[trigger] self.args@[i as int]).required);
                        }
                    }
                    return Err(
                        BindingError::OrderingViolation(
                            "required arguments must precede optional ones".to_owned(),
                        ),
                    );
                }
                i = i + 1;
            }
        }
        proof {
            if a.required && some_optional(self.args@) {
                let k = choose|k: int|
                    0 <= k < self.args@.len() && !(#[trigger] self.args@[k]).required;
                assert(self.args@[k].required);
            }
        }
        let mut i: usize = 0;
        while i < self.args.len()
            invariant
                i <= self.args@.len(),
                !(a.required && some_optional(self.args@)),
                forall|j: int| 0 <= j < i ==> (#[trigger] self.args@[j]).name@ != a.name@,
            decreases self.args@.len() - i,
        {
            if crate::value::bytes_eq(&self.args[i].name, &a.name) {
                proof {
                    assert(name_declared(self.args@, a.name@)) by {
                        assert((i as int) < self.args@.len() && (#[trigger] self.args@[i as int]).name@
                            == a.name@);
                    }
                }
                return Err(BindingError::InvalidName);
            }
            i = i + 1;
        }
        let mut b = self;
        b.args.push(a);
        proof {
            let s = b.args@;
            assert forall|x: int, y: int|
                #![trigger s[x], s[y]]
                0 <= x < y < s.len() && s[y].required implies s[x].required by {
                if y < s.len() - 1 {
                } else {
                    // the new element is last; if it is required, no prior
                    // element is optional
                }
            }
        }
        Ok(b)
    }

    /// Finishes the declaration, computing the arity bounds.
    pub fn build(self) -> (f: FunctionDescriptor)
        requires
            self.wf(),
        ensures
            f.wf(),
            f.name == self.name,
            f.args == self.args,
            f.handler == self.handler,
            f.ret == self.ret,
            f.visibility == self.visibility,
            f.is_static == self.is_static,
            f.min == count_required(self.args@),
            f.max == self.args@.len(),
    {
        let mut i: usize = 0;
        while i < self.args.len() && self.args[i].required
            invariant
                i <= self.args@.len(),
                forall|j: int| 0 <= j < i ==> (#[trigger] self.args@[j]).required,
            decreases self.args@.len() - i,
        {
            i = i + 1;
        }
        let first_optional: usize = i;
        proof {
            lemma_count_required_bounds(self.args@);
            let c = count_required(self.args@);
            if (first_optional as int) > c {
                lemma_required_iff(self.args@, c);
                assert(self.args@[c].required);
                assert(false);
            }
            if (first_optional as int) < c {
                lemma_required_iff(self.args@, first_optional as int);
                assert(false);
            }
            assert(first_optional == c);
        }
        let max = self.args.len();
        FunctionDescriptor {
            name: self.name,
            args: self.args,
            handler: self.handler,
            ret: self.ret,
            visibility: self.visibility,
            is_static: self.is_static,
            min: first_optional,
            max,
        }
    }
}

/// One ABI-shaped record of a function table: the host-form name, the entry
/// point slot, the declared argument count and the flag word. The all-zero
/// record is the sentinel that terminates every table.
#[derive(Debug, PartialEq, Eq)]
pub struct FunctionEntry {
    pub name: Vec<u8>,
    pub handler: Option<Callback>,
    pub num_args: u32,
    pub flags: u32,
}

impl FunctionEntry {
    /// The all-zero sentinel record: empty name, no entry point, zero
    /// argument count, zero flags. The host scans a function table until it
    /// sees this record.
    pub open spec fn is_sentinel(self) -> bool {
        &&& self.name@.len() == 0
        &&& self.handler is None
        &&& self.num_args == 0
        &&& self.flags == 0
    }

    /// Builds the terminating sentinel record.
    pub fn end() -> (e: Self)
        ensures
            e.is_sentinel(),
    {
        FunctionEntry { name: Vec::new(), handler: None, num_args: 0, flags: 0 }
    }

    /// Materializes a declared function descriptor into its ABI record. The
    /// name is converted to host form; an embedded terminator is rejected
    /// with `InvalidName`.
    pub fn from_descriptor(f: &FunctionDescriptor) -> (r: Result<Self, BindingError>)
        requires
            f.args@.len() <= u32::MAX,
        ensures
            match r {
                Ok(e) => {
                    &&& !has_nul(f.name@)
                    &&& e.name@ == f.name@.push(0u8)
                    &&& e.handler == Some(f.handler)
                    &&& e.num_args == f.args@.len()
                    &&& e.flags == spec_flags(f.visibility, f.is_static)
                },
                Err(e) => has_nul(f.name@) && e == BindingError::InvalidName,
            },
    {
        let name = match to_host_str(&f.name) {
            Ok(n) => n,
            Err(e) => {
                return Err(e);
            },
        };
        let vis_bits = match f.visibility {
            Visibility::Public => ACC_PUBLIC,
            Visibility::Protected => ACC_PROTECTED,
            Visibility::Private => ACC_PRIVATE,
        };
        let flags = vis_bits | (if f.is_static {
            ACC_STATIC
        } else {
            0u32
        });
        Ok(
            FunctionEntry {
                name,
                handler: Some(f.handler),
                num_args: f.args.len() as u32,
                flags,
            },
        )
    }
}

} // verus!
