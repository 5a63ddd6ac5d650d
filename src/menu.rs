use vstd::prelude::*;
use crate::mouse::KeyModifiers;

verus! {

/// A keyboard shortcut offered with a menu item.
#[derive(Clone, Debug)]
pub struct HotKey {
    pub mods: KeyModifiers,
    pub key: String,
}

/// A menu. This backend has no native menus, so a menu records nothing and
/// every operation on it succeeds without effect.
#[derive(Clone, Copy, Debug, PartialEq, Eq, Structural)]
pub struct Menu;

impl Menu {
    pub fn new() -> (r: Menu)
        ensures
            r == Menu,
    {
        Menu
    }

    /// A new empty context menu; the same as any other menu here.
    pub fn new_for_popup() -> (r: Menu)
        ensures
            r == Menu,
    {
        Menu
    }

    /// Accepts a submenu and discards it.
    pub fn add_dropdown(&mut self, menu: Menu, text: &str, enabled: bool)
        ensures
            *final(self) == *old(self),
    {
    }

    /// Accepts an item and discards it.
    pub fn add_item(
        &mut self,
        id: u32,
        text: &str,
        key: Option<&HotKey>,
        enabled: bool,
        selected: bool,
    )
        ensures
            *final(self) == *old(self),
    {
    }

    /// Accepts a separator and discards it.
    pub fn add_separator(&mut self)
        ensures
            *final(self) == *old(self),
    {
    }
}

} // verus!
