//! Numeric application identifiers.

use crate::steamcmd::workshop_item::WorkshopItem;
use vstd::prelude::*;

verus! {

/// Numeric identifier of an installable application understood by the
/// external tool. A distinct wrapper type, so that an app id and a workshop
/// item id cannot be confused at compile time.
#[derive(Clone, Copy, Debug, PartialEq, Eq, PartialOrd, Ord, Hash, Structural)]
pub struct App(pub u32);

impl View for App {
    type V = u32;

    open spec fn view(&self) -> u32 {
        self.0
    }
}

impl App {
    /// Wrap a bare numeric application identifier.
    pub fn new(app_id: u32) -> (r: Self)
        ensures
            r@ == app_id,
    {
        App(app_id)
    }

    /// The bare numeric identifier.
    pub fn app_id(self) -> (r: u32)
        ensures
            r == self@,
    {
        self.0
    }

    /// A workshop item with the given content identifier.
    pub fn workshop_item(self, item_id: u32) -> (r: WorkshopItem)
        ensures
            r@ == item_id,
    {
        WorkshopItem::new(item_id)
    }
}

impl From<u32> for App {
    fn from(app_id: u32) -> (r: Self) {
        App(app_id)
    }
}

impl vstd::std_specs::convert::FromSpecImpl<u32> for App {
    open spec fn obeys_from_spec() -> bool {
        true
    }

    open spec fn from_spec(v: u32) -> App {
        App(v)
    }
}

impl From<App> for u32 {
    fn from(app: App) -> (r: u32) {
        app.0
    }
}

impl vstd::std_specs::convert::FromSpecImpl<App> for u32 {
    open spec fn obeys_from_spec() -> bool {
        true
    }

    open spec fn from_spec(v: App) -> u32 {
        v.0
    }
}

} // verus!
