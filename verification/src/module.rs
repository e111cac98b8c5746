//! The extension module itself: a named container of user-defined
//! attributes, together with the initializer the host runtime calls.

use vstd::prelude::*;

verus! {

/// The abstract state of a module: the metadata name the host injects,
/// and the names of the attributes that the module's own code defined.
#[verifier::ext_equal]
pub struct ModuleView {
    pub name: Seq<char>,
    pub attrs: Seq<Seq<char>>,
}

/// Error raised when an attribute is resolved on a module that does not
/// define it. It comes from the host's attribute-resolution mechanism,
/// never from the module's own code.
#[derive(Clone, Copy, Debug, PartialEq, Eq, Structural)]
pub enum AttrError {
    NotFound,
}

/// Error type of the initializer. The initializer is defined to always
/// succeed, so no value of this type is ever produced.
#[derive(Clone, Copy, Debug, PartialEq, Eq, Structural)]
pub struct InitError;

/// A loadable extension module. The host creates it with its metadata
/// name; the module's own code never adds an attribute.
pub struct Module {
    name: String,
    attrs: Vec<String>,
}

impl View for Module {
    type V = ModuleView;

    closed spec fn view(&self) -> ModuleView {
        ModuleView { name: self.name@, attrs: self.attrs.deep_view() }
    }
}

impl Module {
    /// A module defines no attributes of its own; the name is host
    /// metadata, not a callable.
    pub open spec fn wf(&self) -> bool {
        self@.attrs.len() == 0
    }

    /// The container the host runtime hands to the initializer: it
    /// carries the host-injected name and no user-defined attributes.
    pub fn new(name: String) -> (m: Module)
        ensures
            m@.name == name@,
            m@.attrs.len() == 0,
            m.wf(),
    {
        Module { name, attrs: Vec::new() }
    }

    /// The module initializer. It performs no computation, changes
    /// nothing, and succeeds unconditionally.
    pub fn init(&mut self) -> (r: Result<(), InitError>)
        ensures
            r is Ok,
            *final(self) == *old(self),
    {
        Ok(())
    }

    /// The host-injected metadata name.
    pub fn name(&self) -> (r: &String)
        ensures
            r@ == self@.name,
    {
        &self.name
    }

    /// How many attributes the module's own code defined.
    pub fn attr_count(&self) -> (r: usize)
        ensures
            r == self@.attrs.len(),
    {
        self.attrs.len()
    }

    /// Whether the module's own code defined an attribute of this name.
    pub fn has_attr(&self, name: &String) -> (r: bool)
        ensures
            r == self@.attrs.contains(name@),
    {
        let mut i: usize = 0;
        while i < self.attrs.len()
            invariant
                i <= self.attrs.len(),
                forall|j: int| 0 <= j < i ==> self@.attrs[j] != name@,
            decreases self.attrs.len() - i,
        {
            if self.attrs[i] == *name {
                assert(self@.attrs.contains(name@)) by {
                    assert(self@.attrs[i as int] == name@);
                }
                return true;
            }
            i += 1;
        }
        false
    }

    /// The host's attribute resolution: the index of the attribute if
    /// the module defines it, and a not-found error otherwise.
    pub fn lookup_attr(&self, name: &String) -> (r: Result<usize, AttrError>)
        ensures
            r is Ok <==> self@.attrs.contains(name@),
            r matches Ok(i) ==> i < self@.attrs.len() && self@.attrs[i as int] == name@,
            !self@.attrs.contains(name@) ==> r == Err::<usize, AttrError>(AttrError::NotFound),
    {
        let mut i: usize = 0;
        while i < self.attrs.len()
            invariant
                i <= self.attrs.len(),
                forall|j: int| 0 <= j < i ==> self@.attrs[j] != name@,
            decreases self.attrs.len() - i,
        {
            if self.attrs[i] == *name {
                assert(self@.attrs.contains(name@)) by {
                    assert(self@.attrs[i as int] == name@);
                }
                return Ok(i);
            }
            i += 1;
        }
        Err(AttrError::NotFound)
    }
}

} // verus!
