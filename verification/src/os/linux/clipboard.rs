//! The system clipboard's contents as the window layer hands them out.

use vstd::prelude::*;

verus! {

/// Which clipboard a transfer uses.
#[derive(Debug, Clone, Copy, PartialEq, Eq, Structural)]
pub enum Clipboard {
    Clipboard,
    PrimarySelection,
}

/// The selection that the system clipboard library calls each clipboard.
#[derive(Debug, Clone, Copy, PartialEq, Eq, Structural)]
pub enum LinuxClipboardKind {
    Clipboard,
    Primary,
}

/// What a clipboard holds.
#[derive(Debug, PartialEq, Eq)]
pub enum ClipboardData {
    Text(String),
    Files(Vec<String>),
}

/// The system clipboard selection used for a clipboard.
pub fn kind(clipboard: Clipboard) -> (k: LinuxClipboardKind)
    ensures
        k == match clipboard {
            Clipboard::Clipboard => LinuxClipboardKind::Clipboard,
            Clipboard::PrimarySelection => LinuxClipboardKind::Primary,
        },
{
    match clipboard {
        Clipboard::Clipboard => LinuxClipboardKind::Clipboard,
        Clipboard::PrimarySelection => LinuxClipboardKind::Primary,
    }
}

/// The clipboard contents for the text that a read returned; `None` (the read
/// failed) reads as empty text.
pub fn get(read: Option<String>) -> (d: ClipboardData)
    ensures
        match d {
            ClipboardData::Text(t) => match read {
                Some(s) => t@ == s@,
                None => t@ == Seq::<char>::empty(),
            },
            ClipboardData::Files(_) => false,
        },
{
    match read {
        Some(text) => ClipboardData::Text(text),
        None => ClipboardData::Text(String::new()),
    }
}

/// The text of clipboard contents: files read as empty text.
pub fn clipboard_text(data: ClipboardData) -> (t: String)
    ensures
        t@ == match data {
            ClipboardData::Text(s) => s@,
            ClipboardData::Files(_) => Seq::<char>::empty(),
        },
{
    match data {
        ClipboardData::Text(text) => text,
        ClipboardData::Files(_) => String::new(),
    }
}

} // verus!
