//! A model of the host runtime's loading discipline: one slot that a
//! module can be loaded into and unloaded from, for any host version.

use vstd::prelude::*;
use crate::module::{InitError, Module, ModuleView};

verus! {

/// The abstract state of the host: its version and the module loaded
/// into the slot, if any.
#[verifier::ext_equal]
pub struct HostView {
    pub version: int,
    pub module: Option<ModuleView>,
}

/// What loading the module does to the host state: the slot holds a
/// freshly initialized module with the given name and no user-defined
/// attributes, whatever the slot held before and whatever the version.
pub open spec fn spec_load(h: HostView, name: Seq<char>) -> HostView {
    HostView {
        version: h.version,
        module: Some(ModuleView { name, attrs: Seq::empty() }),
    }
}

/// What unloading does to the host state: the slot is emptied.
pub open spec fn spec_unload(h: HostView) -> HostView {
    HostView { version: h.version, module: None }
}

/// A host runtime of some version, with one slot for the module.
pub struct Host {
    version: u32,
    module: Option<Module>,
}

impl View for Host {
    type V = HostView;

    closed spec fn view(&self) -> HostView {
        HostView {
            version: self.version as int,
            module: match self.module {
                Some(m) => Some(m@),
                None => None,
            },
        }
    }
}

impl Host {
    /// A host of the given version, with nothing loaded yet.
    pub fn new(version: u32) -> (h: Host)
        ensures
            h@.version == version,
            h@.module is None,
    {
        Host { version, module: None }
    }

    /// Load the module: create the container, run the initializer, and
    /// put the result into the slot. This succeeds for every host
    /// version and every prior state, and the loaded module defines no
    /// attributes.
    pub fn load(&mut self, name: String) -> (r: Result<(), InitError>)
        ensures
            r is Ok,
            final(self)@ == spec_load(old(self)@, name@),
            final(self)@.module matches Some(m) && m.attrs.len() == 0,
    {
        let mut module = Module::new(name);
        let outcome = module.init();
        self.module = Some(module);
        proof {
            assert(self@ =~~= spec_load(old(self)@, name@));
        }
        outcome
    }

    /// Unload the module, if one is loaded: the slot is emptied and the
    /// version is kept.
    pub fn unload(&mut self)
        ensures
            final(self)@ == spec_unload(old(self)@),
    {
        self.module = None;
    }

    /// Whether the slot holds a module.
    pub fn is_loaded(&self) -> (r: bool)
        ensures
            r == (self@.module is Some),
    {
        self.module.is_some()
    }

    /// The host's version.
    pub fn version(&self) -> (r: u32)
        ensures
            r == self@.version,
    {
        self.version
    }

    /// The module in the slot, if any.
    pub fn module(&self) -> (r: Option<&Module>)
        ensures
            r is Some <==> self@.module is Some,
            r matches Some(m) ==> self@.module == Some(m@),
    {
        self.module.as_ref()
    }
}

/// Repeated load/unload cycles are idempotent: unloading and loading
/// again leaves the host exactly as the first load did, whatever the
/// starting state and whatever the host version.
pub proof fn lemma_reload_idempotent(h: HostView, name: Seq<char>)
    ensures
        spec_load(spec_unload(spec_load(h, name)), name) == spec_load(h, name),
{
    assert(spec_load(spec_unload(spec_load(h, name)), name) =~~= spec_load(h, name));
}

/// A loaded module exposes no user-defined attribute: resolving any
/// name on it can only fall through to the host's own mechanism.
pub proof fn lemma_loaded_module_defines_nothing(h: HostView, name: Seq<char>, attr: Seq<char>)
    ensures
        !spec_load(h, name).module.unwrap().attrs.contains(attr),
{
}

} // verus!
