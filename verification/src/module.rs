//! Builder and record for the module entry: the one ABI table the host
//! loader consumes when the extension is loaded.

use vstd::prelude::*;

use crate::errors::BindingError;
use crate::function::{Callback, FunctionEntry};
use crate::value::{has_nul, to_host_str};

verus! {

/// The host's module ABI version number this build targets.
pub const ZEND_MODULE_API_NO: u32 = 20200930;

/// Whether the host was built with debug assertions.
pub const ZEND_DEBUG: u8 = 0;

/// Whether the host was built thread safe.
pub const USING_ZTS: u8 = 0;

/// A value moved into the host's ownership. Once a built table is handed
/// over, the native side must never free it; holding it in this handle
/// makes the handoff explicit, and nothing on the native side touches the
/// value again.
#[derive(Debug)]
pub struct ForeignOwned<T> {
    pub value: T,
}

/// The module entry record, in the host-defined field order. Pointer-valued
/// slots of the C layout are carried as opaque words or callback tokens and
/// default to the null/zero sentinel; `size` is filled in by the embedding
/// from the C layout when the record is handed to the host.
#[derive(Debug)]
pub struct ModuleEntry {
    pub size: u16,
    pub zend_api: u32,
    pub zend_debug: u8,
    pub zts: u8,
    pub ini_entry: u64,
    pub deps: u64,
    pub name: Vec<u8>,
    pub functions: Vec<FunctionEntry>,
    pub module_startup_func: Option<Callback>,
    pub module_shutdown_func: Option<Callback>,
    pub request_startup_func: Option<Callback>,
    pub request_shutdown_func: Option<Callback>,
    pub info_func: Option<Callback>,
    pub version: Vec<u8>,
    pub globals_size: u64,
    pub globals_ptr: u64,
    pub globals_ctor: Option<Callback>,
    pub globals_dtor: Option<Callback>,
    pub post_deactivate_func: Option<Callback>,
    pub module_started: u8,
    pub type_: u8,
    pub handle: u64,
    pub module_number: i32,
    pub build_id: Vec<u8>,
}

impl ModuleEntry {
    /// The function table ends with the all-zero sentinel the host scans
    /// for.
    pub open spec fn table_terminated(self) -> bool {
        &&& self.functions@.len() > 0
        &&& self.functions@.last().is_sentinel()
    }

    /// Releases the completed entry to the host: the host process becomes
    /// the owner, and the native side never frees or mutates it again.
    pub fn into_raw(self) -> (r: ForeignOwned<ModuleEntry>)
        ensures
            r.value == self,
    {
        ForeignOwned { value: self }
    }
}

/// Builds a module entry. Functions are accumulated and materialized into
/// the sentinel-terminated function table on `build()`, which is single
/// use: a second build, or adding a function after a successful build, is
/// rejected with `AlreadyBuilt`.
#[derive(Debug)]
pub struct ModuleBuilder {
    pub name: Vec<u8>,
    pub version: Vec<u8>,
    pub functions: Vec<FunctionEntry>,
    pub module_startup_func: Option<Callback>,
    pub module_shutdown_func: Option<Callback>,
    pub request_startup_func: Option<Callback>,
    pub request_shutdown_func: Option<Callback>,
    pub info_func: Option<Callback>,
    pub built: bool,
}

impl ModuleBuilder {
    /// Creates a new module builder with the extension's name and version.
    /// Every callback slot starts empty and the function table starts with
    /// no entries.
    pub fn new(name: Vec<u8>, version: Vec<u8>) -> (b: Self)
        ensures
            b.name == name,
            b.version == version,
            b.functions@.len() == 0,
            b.module_startup_func is None,
            b.module_shutdown_func is None,
            b.request_startup_func is None,
            b.request_shutdown_func is None,
            b.info_func is None,
            !b.built,
    {
        ModuleBuilder {
            name,
            version,
            functions: Vec::new(),
            module_startup_func: None,
            module_shutdown_func: None,
            request_startup_func: None,
            request_shutdown_func: None,
            info_func: None,
            built: false,
        }
    }

    /// Sets the module startup callback.
    pub fn startup_function(self, func: Callback) -> (b: Self)
        ensures
            b == (ModuleBuilder { module_startup_func: Some(func), ..self }),
    {
        ModuleBuilder { module_startup_func: Some(func), ..self }
    }

    /// Sets the module shutdown callback.
    pub fn shutdown_function(self, func: Callback) -> (b: Self)
        ensures
            b == (ModuleBuilder { module_shutdown_func: Some(func), ..self }),
    {
        ModuleBuilder { module_shutdown_func: Some(func), ..self }
    }

    /// Sets the request startup callback.
    pub fn request_startup_function(self, func: Callback) -> (b: Self)
        ensures
            b == (ModuleBuilder { request_startup_func: Some(func), ..self }),
    {
        ModuleBuilder { request_startup_func: Some(func), ..self }
    }

    /// Sets the request shutdown callback.
    pub fn request_shutdown_function(self, func: Callback) -> (b: Self)
        ensures
            b == (ModuleBuilder { request_shutdown_func: Some(func), ..self }),
    {
        ModuleBuilder { request_shutdown_func: Some(func), ..self }
    }

    /// Sets the information callback used for the host's diagnostics page.
    pub fn info_function(self, func: Callback) -> (b: Self)
        ensures
            b == (ModuleBuilder { info_func: Some(func), ..self }),
    {
        ModuleBuilder { info_func: Some(func), ..self }
    }

    /// Adds a function entry to the extension. Adding one after a
    /// successful build is rejected with `AlreadyBuilt`.
    pub fn function(self, func: FunctionEntry) -> (r: Result<Self, BindingError>)
        ensures
            self.built ==> r == Err::<Self, _>(BindingError::AlreadyBuilt),
            !self.built ==> (r matches Ok(b) && b.functions@ == self.functions@.push(func) && b
                == (ModuleBuilder { functions: b.functions, ..self })),
    {
        if self.built {
            return Err(BindingError::AlreadyBuilt);
        }
        let mut b = self;
        b.functions.push(func);
        Ok(b)
    }

    /// Builds the module entry.
    ///
    /// On success the accumulated functions, with the all-zero sentinel
    /// appended, become the entry's function table; name and version are
    /// converted to host form. A name or version with an embedded
    /// terminator byte is rejected with `InvalidName` (name checked first),
    /// and the builder is left unchanged. A second build is rejected with
    /// `AlreadyBuilt`.
    pub fn build(&mut self) -> (r: Result<ModuleEntry, BindingError>)
        ensures
            old(self).built ==> r == Err::<ModuleEntry, _>(BindingError::AlreadyBuilt) && *final(self)
                == *old(self),
            !old(self).built && has_nul(old(self).name@) ==> r == Err::<ModuleEntry, _>(
                BindingError::InvalidName,
            ) && *final(self) == *old(self),
            !old(self).built && !has_nul(old(self).name@) && has_nul(old(self).version@) ==> r
                == Err::<ModuleEntry, _>(BindingError::InvalidName) && *final(self) == *old(self),
            !old(self).built && !has_nul(old(self).name@) && !has_nul(old(self).version@) ==> (
            r matches Ok(m) && {
                &&& final(self).built
                &&& final(self).name == old(self).name
                &&& final(self).version == old(self).version
                &&& final(self).functions@.len() == 0
                &&& m.size == 0
                &&& m.zend_api == ZEND_MODULE_API_NO
                &&& m.zend_debug == ZEND_DEBUG
                &&& m.zts == USING_ZTS
                &&& m.ini_entry == 0
                &&& m.deps == 0
                &&& m.name@ == old(self).name@.push(0u8)
                &&& m.functions@.len() == old(self).functions@.len() + 1
                &&& m.functions@.subrange(0, old(self).functions@.len() as int) == old(
                    self,
                ).functions@
                &&& m.functions@.last().is_sentinel()
                &&& m.table_terminated()
                &&& m.module_startup_func == old(self).module_startup_func
                &&& m.module_shutdown_func == old(self).module_shutdown_func
                &&& m.request_startup_func == old(self).request_startup_func
                &&& m.request_shutdown_func == old(self).request_shutdown_func
                &&& m.info_func == old(self).info_func
                &&& m.version@ == old(self).version@.push(0u8)
                &&& m.globals_size == 0
                &&& m.globals_ptr == 0
                &&& m.globals_ctor is None
                &&& m.globals_dtor is None
                &&& m.post_deactivate_func is None
                &&& m.module_started == 0
                &&& m.type_ == 0
                &&& m.handle == 0
                &&& m.module_number == 0
                &&& m.build_id@.len() == 0
            }),
    {
        if self.built {
            return Err(BindingError::AlreadyBuilt);
        }
        let name = match to_host_str(&self.name) {
            Ok(n) => n,
            Err(e) => {
                return Err(e);
            },
        };
        let version = match to_host_str(&self.version) {
            Ok(v) => v,
            Err(e) => {
                return Err(e);
            },
        };
        let mut functions = self.functions.split_off(0);
        proof {
            assert(functions@ =~= old(self).functions@);
            assert(self.functions@ =~= Seq::<FunctionEntry>::empty());
        }
        functions.push(FunctionEntry::end());
        proof {
            assert(functions@.subrange(0, old(self).functions@.len() as int) =~= old(
                self,
            ).functions@);
        }
        self.built = true;
        Ok(
            ModuleEntry {
                size: 0,
                zend_api: ZEND_MODULE_API_NO,
                zend_debug: ZEND_DEBUG,
                zts: USING_ZTS,
                ini_entry: 0,
                deps: 0,
                name,
                functions,
                module_startup_func: self.module_startup_func,
                module_shutdown_func: self.module_shutdown_func,
                request_startup_func: self.request_startup_func,
                request_shutdown_func: self.request_shutdown_func,
                info_func: self.info_func,
                version,
                globals_size: 0,
                globals_ptr: 0,
                globals_ctor: None,
                globals_dtor: None,
                post_deactivate_func: None,
                module_started: 0,
                type_: 0,
                handle: 0,
                module_number: 0,
                build_id: Vec::new(),
            },
        )
    }
}

/// Initialization performed when a startup callback runs: every class the
/// binding itself defines is registered with the host here. This core
/// defines none, so the step is empty by construction.
pub fn ext_php_rs_startup() {
}

} // verus!
