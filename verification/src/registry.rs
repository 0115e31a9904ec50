//! The registration sequencer: an explicit accumulation object for module
//! lifecycle declarations, enforcing the order
//! constants, then classes, then the startup callback, then the module
//! build, which consumes the accumulated state exactly once.

use vstd::prelude::*;

use crate::class::ClassDescriptor;
use crate::constant::Constant;
use crate::errors::BindingError;
use crate::function::Callback;

verus! {

/// The declarations accumulated before the module build, handed out by
/// [`Registry::consume`].
#[derive(Debug)]
pub struct RegistryParts {
    pub constants: Vec<Constant>,
    pub classes: Vec<ClassDescriptor>,
    pub startup: Option<Callback>,
}

/// Build-phase accumulation state. It starts empty, accepts declarations
/// in the mandated order, is consumed exactly once by the final
/// module-build step, and rejects everything afterwards.
#[derive(Debug)]
pub struct Registry {
    pub constants: Vec<Constant>,
    pub classes: Vec<ClassDescriptor>,
    pub startup: Option<Callback>,
    pub consumed: bool,
}

impl Registry {
    /// Creates the empty accumulation state.
    pub fn new() -> (r: Self)
        ensures
            r.constants@.len() == 0,
            r.classes@.len() == 0,
            r.startup is None,
            !r.consumed,
    {
        Registry { constants: Vec::new(), classes: Vec::new(), startup: None, consumed: false }
    }

    /// Declares one top-level constant.
    ///
    /// Rejected with `AlreadyBuilt` after the state was consumed, and with
    /// `OrderingViolation` once a startup callback has been declared:
    /// constants must precede startup.
    pub fn declare_constant(&mut self, c: Constant) -> (r: Result<(), BindingError>)
        ensures
            old(self).consumed ==> r == Err::<(), _>(BindingError::AlreadyBuilt) && *final(self) == *old(
                self,
            ),
            !old(self).consumed && old(self).startup is Some ==> (r matches Err(
                BindingError::OrderingViolation(m),
            ) && m@ == "constants must precede startup"@ && *final(self) == *old(self)),
            !old(self).consumed && old(self).startup is None ==> (r matches Ok(u)
                && final(self).constants@ == old(self).constants@.push(c) && final(self).classes == old(
                self,
            ).classes && final(self).startup == old(self).startup && final(self).consumed == old(self).consumed),
    {
        if self.consumed {
            return Err(BindingError::AlreadyBuilt);
        }
        if self.startup.is_some() {
            return Err(
                BindingError::OrderingViolation("constants must precede startup".to_owned()),
            );
        }
        self.constants.push(c);
        Ok(())
    }

    /// Declares one class.
    ///
    /// Rejected with `AlreadyBuilt` after the state was consumed, and with
    /// `OrderingViolation` once a startup callback has been declared:
    /// classes must precede startup.
    pub fn declare_class(&mut self, c: ClassDescriptor) -> (r: Result<(), BindingError>)
        ensures
            old(self).consumed ==> r == Err::<(), _>(BindingError::AlreadyBuilt) && *final(self) == *old(
                self,
            ),
            !old(self).consumed && old(self).startup is Some ==> (r matches Err(
                BindingError::OrderingViolation(m),
            ) && m@ == "classes must precede startup"@ && *final(self) == *old(self)),
            !old(self).consumed && old(self).startup is None ==> (r matches Ok(u)
                && final(self).classes@ == old(self).classes@.push(c) && final(self).constants == old(
                self,
            ).constants && final(self).startup == old(self).startup && final(self).consumed == old(
                self,
            ).consumed),
    {
        if self.consumed {
            return Err(BindingError::AlreadyBuilt);
        }
        if self.startup.is_some() {
            return Err(BindingError::OrderingViolation("classes must precede startup".to_owned()));
        }
        self.classes.push(c);
        Ok(())
    }

    /// Declares the startup callback. Declaring it again replaces it.
    /// Rejected with `AlreadyBuilt` after the state was consumed.
    pub fn declare_startup(&mut self, func: Callback) -> (r: Result<(), BindingError>)
        ensures
            old(self).consumed ==> r == Err::<(), _>(BindingError::AlreadyBuilt) && *final(self) == *old(
                self,
            ),
            !old(self).consumed ==> (r matches Ok(u) && final(self).startup == Some(func)
                && final(self).constants == old(self).constants && final(self).classes == old(self).classes
                && final(self).consumed == old(self).consumed),
    {
        if self.consumed {
            return Err(BindingError::AlreadyBuilt);
        }
        self.startup = Some(func);
        Ok(())
    }

    /// The final module-build step: consumes the accumulated declarations
    /// exactly once. A second consumption is rejected with `AlreadyBuilt`.
    pub fn consume(&mut self) -> (r: Result<RegistryParts, BindingError>)
        ensures
            old(self).consumed ==> r == Err::<RegistryParts, _>(BindingError::AlreadyBuilt)
                && *final(self) == *old(self),
            !old(self).consumed ==> (r matches Ok(p) && {
                &&& p.constants@ == old(self).constants@
                &&& p.classes@ == old(self).classes@
                &&& p.startup == old(self).startup
                &&& final(self).consumed
                &&& final(self).constants@.len() == 0
                &&& final(self).classes@.len() == 0
                &&& final(self).startup is None
            }),
    {
        if self.consumed {
            return Err(BindingError::AlreadyBuilt);
        }
        let constants = self.constants.split_off(0);
        let classes = self.classes.split_off(0);
        proof {
            assert(constants@ =~= old(self).constants@);
            assert(classes@ =~= old(self).classes@);
            assert(self.constants@ =~= Seq::<Constant>::empty());
            assert(self.classes@ =~= Seq::<ClassDescriptor>::empty());
        }
        let startup = self.startup;
        self.startup = None;
        self.consumed = true;
        Ok(RegistryParts { constants, classes, startup })
    }
}

} // verus!
