//! The output sink of the renderer: text that grows at its end.

use vstd::prelude::*;
use vstd::string::*;

verus! {

/// Collects generated source text. The renderer writes pieces of a line and
/// ends each line explicitly; whoever owns the writer decides where the text
/// goes afterwards.
#[derive(Debug, PartialEq, Eq)]
pub struct SourceWriter {
    text: String,
}

impl View for SourceWriter {
    type V = Seq<char>;

    closed spec fn view(&self) -> Seq<char> {
        self.text@
    }
}

impl SourceWriter {
    /// A writer that holds no text yet.
    pub fn new() -> (out: SourceWriter)
        ensures
            out@ == Seq::<char>::empty(),
    {
        SourceWriter { text: String::new() }
    }

    /// Appends `text` to the current line.
    pub fn write(&mut self, text: &str)
        ensures
            final(self)@ == old(self)@ + text@,
    {
        self.text.append(text);
    }

    /// Ends the current line.
    pub fn new_line(&mut self)
        ensures
            final(self)@ == old(self)@.push('\n'),
    {
        proof {
            reveal_strlit("\n");
        }
        self.text.append("\n");
        assert(self.text@ =~= old(self).text@.push('\n'));
    }

    /// Everything written so far.
    pub fn as_str(&self) -> (text: &str)
        ensures
            text@ == self@,
    {
        self.text.as_str()
    }

    /// Hands out everything written so far.
    pub fn into_string(self) -> (text: String)
        ensures
            text@ == self@,
    {
        self.text
    }
}

} // verus!
