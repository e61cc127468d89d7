//! The command that the overlay receives.

use vstd::prelude::*;
use crate::canvas::CanvasMode;

verus! {

/// One command: an optional token that comes back with the result, an
/// optional emotion for the avatar, an optional text for the dialogue box,
/// and an optional widget to show.
#[derive(Debug, Clone, PartialEq, Eq)]
pub struct Message {
    pub id: Option<String>,
    pub avatar_emotion: Option<String>,
    pub textbox_text: Option<String>,
    pub canvas_mode: Option<CanvasMode>,
}

} // verus!
