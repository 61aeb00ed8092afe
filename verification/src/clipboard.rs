//! What the hotkey flow keeps of the clipboard.
use vstd::prelude::*;
use vstd::string::*;

verus! {

/// The text to read aloud, given what the clipboard held after copying the
/// selection (nothing when it could not be read): only non-empty text is
/// kept.
pub fn selected_text(read: Option<String>) -> (r: Option<String>)
    ensures
        match read {
            Some(t) => if t@.len() > 0 {
                r == Some(t)
            } else {
                r is None
            },
            None => r is None,
        },
{
    match read {
        Some(t) => {
            if t.as_str().unicode_len() > 0 {
                Some(t)
            } else {
                None
            }
        },
        None => None,
    }
}

} // verus!
