use vstd::prelude::*;

verus! {

/// The name of a clipboard data format, such as a MIME type.
pub type FormatId = &'static str;

/// Data in one format, to be put on the clipboard.
#[derive(Clone, Debug)]
pub struct ClipboardFormat {
    pub identifier: FormatId,
    pub data: Vec<u8>,
}

/// The system clipboard. This backend has no clipboard integration: what is
/// put is discarded and nothing is ever available.
#[derive(Clone, Copy, Debug, PartialEq, Eq, Structural)]
pub struct Clipboard;

impl Clipboard {
    /// Accepts a string and discards it.
    pub fn put_string(&mut self, s: &str)
        ensures
            *final(self) == *old(self),
    {
    }

    /// Accepts data in several formats and discards it.
    pub fn put_formats(&mut self, formats: &[ClipboardFormat])
        ensures
            *final(self) == *old(self),
    {
    }

    /// No string is ever available.
    pub fn get_string(&self) -> (r: Option<String>)
        ensures
            r.is_none(),
    {
        None
    }

    /// No format is ever supported.
    pub fn preferred_format(&self, formats: &[FormatId]) -> (r: Option<FormatId>)
        ensures
            r.is_none(),
    {
        None
    }

    /// No data is ever available.
    pub fn get_format(&self, fmt: FormatId) -> (r: Option<Vec<u8>>)
        ensures
            r.is_none(),
    {
        None
    }

    /// The clipboard holds no types.
    pub fn available_type_names(&self) -> (r: Vec<String>)
        ensures
            r@.len() == 0,
    {
        Vec::new()
    }
}

} // verus!
