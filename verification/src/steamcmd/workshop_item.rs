//! Numeric workshop-content identifiers.

use crate::decimal::decimal_digits;
use crate::decimal::push_decimal;
use vstd::prelude::*;

verus! {

/// Fixed prefix of the public web page of a workshop item.
pub open spec fn url_prefix() -> Seq<char> {
    "https://steamcommunity.com/sharedfiles/filedetails/?id="@
}

/// Numeric identifier of a piece of user-generated workshop content.
/// A distinct wrapper type, so that a workshop item id and an app id
/// cannot be confused at compile time.
#[derive(Clone, Copy, Debug, PartialEq, Eq, PartialOrd, Ord, Hash, Structural)]
pub struct WorkshopItem(pub u32);

impl View for WorkshopItem {
    type V = u32;

    open spec fn view(&self) -> u32 {
        self.0
    }
}

impl WorkshopItem {
    /// Wrap a bare numeric content identifier.
    pub fn new(id: u32) -> (r: Self)
        ensures
            r@ == id,
    {
        WorkshopItem(id)
    }

    /// The bare numeric identifier.
    pub fn id(self) -> (r: u32)
        ensures
            r == self@,
    {
        self.0
    }

    /// The canonical web URL of the item's workshop page, for human display.
    pub fn url(self) -> (r: String)
        ensures
            r@ == url_prefix() + decimal_digits(self@ as nat),
    {
        let mut s = "https://steamcommunity.com/sharedfiles/filedetails/?id=".to_owned();
        push_decimal(&mut s, self.0);
        s
    }
}

impl From<u32> for WorkshopItem {
    fn from(item_id: u32) -> (r: Self) {
        WorkshopItem(item_id)
    }
}

impl vstd::std_specs::convert::FromSpecImpl<u32> for WorkshopItem {
    open spec fn obeys_from_spec() -> bool {
        true
    }

    open spec fn from_spec(v: u32) -> WorkshopItem {
        WorkshopItem(v)
    }
}

impl From<WorkshopItem> for u32 {
    fn from(item: WorkshopItem) -> (r: u32) {
        item.0
    }
}

impl vstd::std_specs::convert::FromSpecImpl<WorkshopItem> for u32 {
    open spec fn obeys_from_spec() -> bool {
        true
    }

    open spec fn from_spec(v: WorkshopItem) -> u32 {
        v.0
    }
}

} // verus!
