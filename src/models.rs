//! The request's data: menu entries, nested to any depth, and the options of
//! one popup.

use vstd::prelude::*;

verus! {

/// One entry of a menu. An entry whose `sub_items` holds entries opens a
/// submenu; its own `enabled` and `selected` still apply to the entry itself.
#[derive(Debug, PartialEq, Eq)]
pub struct MenuItem {
    /// Chosen by the caller, unique within its own list; opaque here.
    pub id: String,
    /// The text shown to the user.
    pub label: String,
    /// Absent means enabled.
    pub enabled: Option<bool>,
    /// Absent means the entry carries no selection state at all.
    pub selected: Option<bool>,
    /// The entries of the submenu, in display order.
    pub sub_items: Option<Vec<MenuItem>>,
}

/// Where the menu opens.
#[derive(Debug, PartialEq, Eq)]
pub enum Anchor {
    /// At the current pointer position, the platform's default.
    Cursor,
    /// At the given point; each coordinate is the IEEE-754 bit pattern of an `f64`.
    Point { x: u64, y: u64 },
}

/// One popup request: the entries in display order and, optionally, where to
/// open. A coordinate is held as the IEEE-754 bit pattern of its `f64` value
/// (`f64::to_bits`), so that it passes through unchanged.
#[derive(Debug, PartialEq, Eq)]
pub struct ContextMenuOptions {
    pub items: Vec<MenuItem>,
    pub x: Option<u64>,
    pub y: Option<u64>,
}

impl MenuItem {
    /// Whether the entry can be chosen: `enabled`, or true when it is absent.
    pub open spec fn spec_is_enabled(&self) -> bool {
        match self.enabled {
            Some(b) => b,
            None => true,
        }
    }

    /// Whether the entry shows a selection indicator (checked or not).
    pub open spec fn spec_has_selection_state(&self) -> bool {
        self.selected is Some
    }

    /// Whether the indicator shows the entry as selected.
    pub open spec fn spec_is_selected(&self) -> bool {
        self.selected == Some(true)
    }

    /// Whether the entry opens a submenu: it has at least one sub-entry.
    pub open spec fn spec_is_submenu(&self) -> bool {
        match self.sub_items {
            Some(v) => v@.len() > 0,
            None => false,
        }
    }

    /// The sub-entries in display order; none for a leaf.
    pub open spec fn spec_children(&self) -> Seq<MenuItem> {
        match self.sub_items {
            Some(v) => v@,
            None => Seq::empty(),
        }
    }

    pub fn is_enabled(&self) -> (r: bool)
        ensures
            r == self.spec_is_enabled(),
            self.enabled is None ==> r,
    {
        match self.enabled {
            Some(b) => b,
            None => true,
        }
    }

    pub fn has_selection_state(&self) -> (r: bool)
        ensures
            r == self.spec_has_selection_state(),
            self.selected is None ==> !r,
    {
        self.selected.is_some()
    }

    pub fn is_selected(&self) -> (r: bool)
        ensures
            r == self.spec_is_selected(),
            r ==> self.spec_has_selection_state(),
    {
        match self.selected {
            Some(b) => b,
            None => false,
        }
    }

    pub fn is_submenu(&self) -> (r: bool)
        ensures
            r == self.spec_is_submenu(),
            r == (self.spec_children().len() > 0),
    {
        match &self.sub_items {
            Some(v) => v.len() > 0,
            None => false,
        }
    }

    /// The sub-entries, in display order; an empty slice for a leaf.
    pub fn children(&self) -> (r: &[MenuItem])
        ensures
            r@ == self.spec_children(),
    {
        match &self.sub_items {
            Some(v) => v.as_slice(),
            None => &[],
        }
    }
}

impl ContextMenuOptions {
    /// Where the menu opens: at the given point when both coordinates are
    /// present, else at the pointer.
    pub open spec fn spec_anchor(&self) -> Anchor {
        match (self.x, self.y) {
            (Some(x), Some(y)) => Anchor::Point { x, y },
            _ => Anchor::Cursor,
        }
    }

    pub fn anchor(&self) -> (r: Anchor)
        ensures
            r == self.spec_anchor(),
            self.x is None && self.y is None ==> r == Anchor::Cursor,
    {
        match (self.x, self.y) {
            (Some(x), Some(y)) => Anchor::Point { x, y },
            _ => Anchor::Cursor,
        }
    }
}

} // verus!
