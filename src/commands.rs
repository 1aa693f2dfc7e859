//! The entry point that the frontend calls.

use vstd::prelude::*;

use crate::desktop::ContextMenu;
use crate::models::ContextMenuOptions;
use crate::{Error, Result};

verus! {

/// Shows the menu that a decoded request describes.
pub fn ping(menu: &ContextMenu, payload: ContextMenuOptions) -> (r: Result<()>)
    ensures
        r == Ok::<(), Error>(()),
{
    menu.popup(payload)
}

/// Takes the outcome of decoding a request: a payload that did not decode
/// fails with `Error::Deserialization` carrying the decoder's message, and
/// never reaches the menu layer; one that did is shown.
pub fn ping_decoded(menu: &ContextMenu, decoded: std::result::Result<ContextMenuOptions, String>) -> (r: Result<()>)
    ensures
        match decoded {
            Ok(_) => r == Ok::<(), Error>(()),
            Err(m) => r == Err::<(), Error>(Error::Deserialization(m)),
        },
{
    match decoded {
        Ok(payload) => ping(menu, payload),
        Err(m) => Err(Error::Deserialization(m)),
    }
}

} // verus!
