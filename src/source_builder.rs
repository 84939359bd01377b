//! An indentation-aware text accumulator.

use vstd::prelude::*;
use crate::text::{nl, push_char, push_reindented, push_str, reindent};

verus! {

/// Accumulates source text; remembers the unit of one indentation level.
pub struct SourceBuilder {
    indent: String,
    code: String,
}

impl View for SourceBuilder {
    /// The indentation unit and the text gathered so far.
    type V = (Seq<char>, Seq<char>);

    closed spec fn view(&self) -> (Seq<char>, Seq<char>) {
        (self.indent@, self.code@)
    }
}

/// The indentation unit of a builder made by `default`.
pub open spec fn default_indent() -> Seq<char> {
    seq![' ', ' ']
}

impl Default for SourceBuilder {
    fn default() -> (r: SourceBuilder)
        ensures
            r@ == (default_indent(), Seq::<char>::empty()),
    {
        let mut indent = String::new();
        push_char(&mut indent, ' ');
        push_char(&mut indent, ' ');
        proof {
            assert(indent@ =~= default_indent());
        }
        SourceBuilder::new(indent)
    }
}

impl SourceBuilder {
    /// A builder holding a placeholder comment that names `value`.
    pub fn todo(value: &str) -> (r: Self)
        ensures
            r@ == (default_indent(), "(* TODO: "@ + value@ + " *)"@),
    {
        let mut def = SourceBuilder::default();
        def.push("(* TODO: ");
        def.push(value);
        def.push(" *)");
        def
    }

    /// A builder holding `value` followed by a marker comment.
    pub fn simple(value: &str) -> (r: Self)
        ensures
            r@ == (default_indent(), value@ + "(* simple *)"@),
    {
        let mut def = SourceBuilder::default();
        def.push(value);
        def.push("(* simple *)");
        def
    }

    /// An empty builder whose indentation unit is `indent`.
    pub fn new(indent: String) -> (r: Self)
        ensures
            r@ == (indent@, Seq::<char>::empty()),
    {
        SourceBuilder { indent, code: String::new() }
    }

    /// An empty builder with the same indentation unit as `self`.
    pub fn new_with_same_settings(&self) -> (r: Self)
        ensures
            r@ == (self@.0, Seq::<char>::empty()),
    {
        SourceBuilder { code: String::new(), indent: self.indent.clone() }
    }

    /// Appends `s`.
    pub fn push(&mut self, s: &str)
        ensures
            final(self)@ == (old(self)@.0, old(self)@.1 + s@),
    {
        push_str(&mut self.code, s);
    }

    /// Appends a line break, then `s`.
    pub fn ln_push(&mut self, s: &str)
        ensures
            final(self)@ == (old(self)@.0, old(self)@.1 + nl() + s@),
    {
        push_char(&mut self.code, '\n');
        push_str(&mut self.code, s);
        proof {
            assert(self.code@ =~= old(self)@.1 + nl() + s@);
        }
    }

    /// Appends a line break, one indentation unit, then `s`.
    pub fn ln_push_1(&mut self, s: &str)
        ensures
            final(self)@ == (old(self)@.0, old(self)@.1 + nl() + old(self)@.0 + s@),
    {
        push_char(&mut self.code, '\n');
        push_str(&mut self.code, self.indent.as_str());
        push_str(&mut self.code, s);
        proof {
            assert(self.code@ =~= old(self)@.1 + nl() + old(self)@.0 + s@);
        }
    }

    /// Appends the text of `other` as it stands.
    pub fn push_source(&mut self, other: Self)
        ensures
            final(self)@ == (old(self)@.0, old(self)@.1 + other@.1),
    {
        let text = other.finish();
        push_str(&mut self.code, text.as_str());
    }

    /// Appends the text of `other`, each of its line breaks indented one level.
    pub fn push_source_1(&mut self, other: Self)
        ensures
            final(self)@ == (old(self)@.0, old(self)@.1 + reindent(other@.1, old(self)@.0)),
    {
        let text = other.finish();
        push_reindented(&mut self.code, text.as_str(), self.indent.as_str());
    }

    /// Appends the text of `other`, each of its line breaks indented two levels.
    pub fn push_source_2(&mut self, other: Self)
        ensures
            final(self)@ == (
                old(self)@.0,
                old(self)@.1 + reindent(other@.1, old(self)@.0 + old(self)@.0),
            ),
    {
        let text = other.finish();
        let mut twice = self.indent.clone();
        push_str(&mut twice, self.indent.as_str());
        push_reindented(&mut self.code, text.as_str(), twice.as_str());
    }

    /// The text gathered; consumes the builder.
    pub fn finish(self) -> (r: String)
        ensures
            r@ == self@.1,
    {
        self.code
    }
}

} // verus!
