//! The builder: an optional menu and an optional tooltip, updated functionally.
use vstd::prelude::*;

use crate::menu::Menu;

verus! {

/// The configuration of a tray icon: its menu and its tooltip, both optional.
#[derive(Debug, PartialEq, Eq)]
pub struct TrayIconBuilder<T> {
    pub menu: Option<Menu<T>>,
    pub tooltip: Option<String>,
}

impl<T> TrayIconBuilder<T> {
    /// A configuration with no menu and no tooltip.
    pub fn new() -> (r: Self)
        ensures
            r.menu is None,
            r.tooltip is None,
    {
        TrayIconBuilder { menu: None, tooltip: None }
    }

    /// The same configuration with its menu replaced by `menu`.
    pub fn with_menu(self, menu: Menu<T>) -> (r: Self)
        ensures
            r.menu == Some(menu),
            r.tooltip == self.tooltip,
    {
        TrayIconBuilder { menu: Some(menu), tooltip: self.tooltip }
    }

    /// The same configuration with its tooltip replaced by `tooltip`.
    pub fn with_tooltip(self, tooltip: &str) -> (r: Self)
        ensures
            r.menu == self.menu,
            r.tooltip matches Some(t) && t@ == tooltip@,
    {
        TrayIconBuilder { menu: self.menu, tooltip: Some(tooltip.to_string()) }
    }
}

} // verus!
