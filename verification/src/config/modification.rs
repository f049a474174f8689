//! Configuration-level references to installable modifications.

use vstd::prelude::*;

verus! {

/// The recorded content of a modification reference, as seen by
/// specifications: the numeric identifier and the optional display name.
pub struct ModificationView {
    pub id: u32,
    pub name: Option<Seq<char>>,
}

/// One installable modification: a mandatory numeric identifier and an
/// optional human-readable name used only for display. Immutable after
/// construction; duplicate identifiers within one server's list are legal
/// and preserved.
#[derive(Clone, Debug)]
pub struct Modification {
    pub id: u32,
    pub name: Option<String>,
}

impl View for Modification {
    type V = ModificationView;

    open spec fn view(&self) -> ModificationView {
        ModificationView { id: self.id, name: self.name.deep_view() }
    }
}

impl DeepView for Modification {
    type V = ModificationView;

    open spec fn deep_view(&self) -> ModificationView {
        self.view()
    }
}

impl Modification {
    /// A modification with the given identifier and optional display name.
    pub fn new(id: u32, name: Option<String>) -> (r: Self)
        ensures
            r@ == (ModificationView { id, name: name.deep_view() }),
    {
        Modification { id, name }
    }

    /// The numeric identifier.
    pub fn id(&self) -> (r: u32)
        ensures
            r == self@.id,
    {
        self.id
    }

    /// The optional display name.
    pub fn name(&self) -> (r: Option<&String>)
        ensures
            r.deep_view() == self@.name,
    {
        self.name.as_ref()
    }
}

impl From<u32> for Modification {
    fn from(id: u32) -> (r: Self) {
        Modification { id, name: None }
    }
}

impl vstd::std_specs::convert::FromSpecImpl<u32> for Modification {
    open spec fn obeys_from_spec() -> bool {
        true
    }

    open spec fn from_spec(v: u32) -> Modification {
        Modification { id: v, name: None }
    }
}

impl From<Modification> for u32 {
    fn from(m: Modification) -> (r: u32) {
        m.id
    }
}

impl vstd::std_specs::convert::FromSpecImpl<Modification> for u32 {
    open spec fn obeys_from_spec() -> bool {
        true
    }

    open spec fn from_spec(v: Modification) -> u32 {
        v.id
    }
}

} // verus!
