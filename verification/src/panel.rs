//! When a floating panel, a dropdown or a modal, asks to be closed.

use vstd::prelude::*;
use crate::text::{compare_text, Rank};

verus! {

/// Something that happened while a floating panel was open.
#[derive(Debug)]
pub enum PanelEvent {
    /// A pointer was pressed, inside the panel or outside of it.
    PointerDown { inside: bool },
    /// A key was pressed; the text is the key's name.
    KeyDown { key: String },
}

/// Whether `event` makes an open panel ask to be closed.
pub open spec fn closes_panel(event: PanelEvent) -> bool {
    match event {
        PanelEvent::PointerDown { inside } => !inside,
        PanelEvent::KeyDown { key } => key@ == "Escape"@,
    }
}

/// Whether `key` names the Escape key.
pub fn is_escape(key: &str) -> (r: bool)
    ensures
        r == (key@ == "Escape"@),
{
    compare_text(key, "Escape") == Rank::Same
}

/// Decides whether an open panel asks its owner to close it: on a pointer
/// pressed outside of it, and on the Escape key. The panel does not close
/// itself.
pub fn requests_close(event: &PanelEvent) -> (r: bool)
    ensures
        r == closes_panel(*event),
{
    match event {
        PanelEvent::PointerDown { inside } => !*inside,
        PanelEvent::KeyDown { key } => is_escape(key.as_str()),
    }
}

} // verus!
