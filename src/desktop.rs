//! The gateway to the native menu layer.

use vstd::prelude::*;

use crate::models::ContextMenuOptions;
use crate::Result;

verus! {

/// Access to the context-menu operations.
pub struct ContextMenu {}

/// Sets the gateway up; it needs nothing and cannot fail.
pub fn init() -> (r: Result<ContextMenu>)
    ensures
        r is Ok,
{
    Ok(ContextMenu {})
}

impl ContextMenu {
    /// Hands a request to the native menu layer. No native call is made yet:
    /// every request, empty or nested to any depth, is accepted.
    pub fn popup(&self, payload: ContextMenuOptions) -> (r: Result<()>)
        ensures
            r == Ok::<(), crate::Error>(()),
    {
        Ok(())
    }
}

} // verus!
