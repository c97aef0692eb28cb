//! Clipboard backend state handed to the host UI: it remembers the text
//! most recently placed on the clipboard through it. The process-wide
//! clipboard service lives outside the crate; the integration layer
//! forwards these values to it and falls back to this store when no
//! service is available.

use vstd::prelude::*;

verus! {

/// The clipboard text as this process last saw it.
pub struct ClipboardSupport {
    pub contents: Option<String>,
}

/// Set up clipboard support, with nothing on the clipboard yet.
pub fn init() -> (r: Option<ClipboardSupport>)
    ensures
        r is Some,
        r matches Some(c) ==> c.contents is None,
{
    Some(ClipboardSupport { contents: None })
}

impl ClipboardSupport {
    /// Remember `text` as the current clipboard contents.
    pub fn set(&mut self, text: &str)
        ensures
            final(self).contents matches Some(s) && s@ == text@,
    {
        self.contents = Some(text.to_owned());
    }

    /// The most recently remembered text, if any.
    pub fn get(&self) -> (r: Option<&String>)
        ensures
            r is Some <==> self.contents is Some,
            r matches Some(s) ==> self.contents matches Some(c) && s@ == c@,
    {
        match &self.contents {
            Some(s) => Some(s),
            None => None,
        }
    }
}

} // verus!
