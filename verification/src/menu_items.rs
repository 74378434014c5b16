//! Menu items: named entries of a menu, each tied to the named asset that
//! renders it.

use vstd::prelude::*;

verus! {

/// One navigable entry of a menu: its own name, and the name of the image
/// or text box that draws it. A pure value, immutable once constructed.
#[derive(Debug, Clone)]
pub struct MenuItem {
    pub item_name: String,
    pub asset_name: String,
}

impl MenuItem {
    /// Builds an item from its two names.
    pub fn new(item_name: &str, asset_name: &str) -> (result: Self)
        ensures
            result.item_name@ == item_name@,
            result.asset_name@ == asset_name@,
    {
        Self { item_name: item_name.to_owned(), asset_name: asset_name.to_owned() }
    }

    /// The name of this menu item.
    pub fn item_name(&self) -> (result: &str)
        ensures
            result@ == self.item_name@,
    {
        self.item_name.as_str()
    }

    /// The name of the asset that renders this menu item.
    pub fn asset_name(&self) -> (result: &str)
        ensures
            result@ == self.asset_name@,
    {
        self.asset_name.as_str()
    }
}

impl PartialEq for MenuItem {
    fn eq(&self, other: &MenuItem) -> (result: bool) {
        crate::asset_registry::str_equal(self.item_name.as_str(), other.item_name.as_str())
            && crate::asset_registry::str_equal(
            self.asset_name.as_str(),
            other.asset_name.as_str(),
        )
    }
}

impl vstd::std_specs::cmp::PartialEqSpecImpl for MenuItem {
    open spec fn obeys_eq_spec() -> bool {
        true
    }

    open spec fn eq_spec(&self, other: &MenuItem) -> bool {
        self.item_name@ == other.item_name@ && self.asset_name@ == other.asset_name@
    }
}

} // verus!
