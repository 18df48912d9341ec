//! Text stored as source.

use vstd::prelude::*;

verus! {

/// A piece of text, stored as its source so that renderers typeset it lazily.
#[derive(Debug, Clone, Default, PartialEq, Eq)]
pub struct Text {
    /// The source text. With the LaTeX interpreter, segments delimited by `$…$`
    /// are typeset as mathematics and the remainder as plain text.
    pub content: String,
    /// How the source text is interpreted.
    pub interpreter: Interpreter,
}

/// How the source of a [`Text`] is interpreted.
#[derive(Debug, Clone, Copy, Default, PartialEq, Eq, Hash, Structural)]
pub enum Interpreter {
    /// Mixed plain text and `$…$` LaTeX mathematics.
    #[default]
    Latex,
    /// Plain text, rendered literally, including any dollar signs.
    Plain,
}

/// Returns an owned copy of a string.
pub fn owned(s: &str) -> (r: String)
    ensures
        r@ == s@,
{
    let mut r = String::new();
    r.append(s);
    r
}

impl Text {
    /// Creates text with the default (LaTeX) interpreter.
    pub fn new(content: &str) -> (r: Self)
        ensures
            r.content@ == content@,
            r.interpreter == Interpreter::Latex,
    {
        Text { content: owned(content), interpreter: Interpreter::Latex }
    }

    /// Creates text that is rendered literally, without interpreting mathematics.
    pub fn plain(content: &str) -> (r: Self)
        ensures
            r.content@ == content@,
            r.interpreter == Interpreter::Plain,
    {
        Text { content: owned(content), interpreter: Interpreter::Plain }
    }
}

} // verus!
