//! Text on its way to the clipboard.

use vstd::prelude::*;

verus! {

/// The text that `String::from_utf8_lossy` reads in `bytes`.
pub uninterp spec fn utf8_lossy_text(bytes: Seq<u8>) -> Seq<char>;

/// Calls `String::from_utf8_lossy` and takes the text it gives as a `String` of its own.
/// Not proved: that the text is [`utf8_lossy_text`] of the bytes, which names it.
#[verifier::external_body]
fn utf8_lossy(bytes: &[u8]) -> (text: String)
    ensures
        text@ == utf8_lossy_text(bytes@),
{
    String::from_utf8_lossy(bytes).into_owned()
}

/// Gathers what is written to it, so that all of it goes to the clipboard at once.
pub struct ClipWriter {
    contents: Vec<u8>,
}

impl View for ClipWriter {
    type V = Seq<u8>;

    /// The bytes written so far.
    closed spec fn view(&self) -> Seq<u8> {
        self.contents@
    }
}

impl ClipWriter {
    /// A writer to which nothing has been written.
    pub fn new() -> (writer: Self)
        ensures
            writer@ == Seq::<u8>::empty(),
    {
        Self { contents: Vec::with_capacity(1024) }
    }

    /// Takes all of `buf`, after what it has, and says how many bytes it took.
    pub fn write(&mut self, buf: &[u8]) -> (written: usize)
        ensures
            written == buf@.len(),
            final(self)@ == old(self)@ + buf@,
    {
        self.contents.extend_from_slice(buf);
        buf.len()
    }

    /// Does nothing: what was written is kept until it is asked for.
    pub fn flush(&mut self)
        ensures
            final(self)@ == old(self)@,
    {
    }

    /// The bytes written so far.
    pub fn contents(&self) -> (bytes: &[u8])
        ensures
            bytes@ == self@,
    {
        self.contents.as_slice()
    }

    /// What was written, as text; bytes that are no text in UTF-8 are replaced.
    pub fn text(&self) -> (text: String)
        ensures
            text@ == utf8_lossy_text(self@),
    {
        utf8_lossy(self.contents.as_slice())
    }
}

} // verus!
