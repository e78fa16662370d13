use vstd::prelude::*;

use crate::declaration::{declaration_text, Declaration};
use crate::identifier::Identifier;
use crate::text::push_char;

verus! {

/// How an included path is delimited.
#[derive(Debug)]
pub enum IncludeMethod {
    Quote,
    Bracket,
}

/// One preprocessor inclusion of `path`.
#[derive(Debug)]
pub struct Include {
    pub method: IncludeMethod,
    pub path: String,
}

/// The inclusion directive, without a line end.
pub open spec fn include_text(i: Include) -> Seq<char> {
    match i.method {
        IncludeMethod::Quote => "#include "@ + seq!['"'] + i.path@ + seq!['"'],
        IncludeMethod::Bracket => "#include "@ + seq!['<'] + i.path@ + seq!['>'],
    }
}

/// Each inclusion on a line of its own.
pub open spec fn includes_text(s: Seq<Include>) -> Seq<char>
    decreases s.len(),
{
    if s.len() == 0 {
        Seq::empty()
    } else {
        includes_text(s.drop_last()) + include_text(s.last()) + seq!['\n']
    }
}

/// Each declaration on a line of its own.
pub open spec fn declarations_text(s: Seq<Declaration>) -> Seq<char>
    decreases s.len(),
{
    if s.len() == 0 {
        Seq::empty()
    } else {
        declarations_text(s.drop_last()) + declaration_text(s.last()) + seq!['\n']
    }
}

impl Include {
    /// The inclusion directive.
    pub fn to_string(&self) -> (r: String)
        ensures
            r@ == include_text(*self),
    {
        let mut out = String::from_str("#include ");
        match self.method {
            IncludeMethod::Quote => {
                push_char(&mut out, '"');
                out.append(self.path.as_str());
                push_char(&mut out, '"');
            },
            IncludeMethod::Bracket => {
                push_char(&mut out, '<');
                out.append(self.path.as_str());
                push_char(&mut out, '>');
            },
        }
        assert(out@ =~= include_text(*self));
        out
    }
}

fn push_includes(out: &mut String, includes: &Vec<Include>)
    ensures
        final(out)@ == old(out)@ + includes_text(includes@),
{
    let mut i: usize = 0;
    while i < includes.len()
        invariant
            0 <= i <= includes@.len(),
            out@ == old(out)@ + includes_text(includes@.subrange(0, i as int)),
        decreases includes@.len() - i,
    {
        let line = includes[i].to_string();
        out.append(line.as_str());
        push_char(out, '\n');
        proof {
            assert(includes@.subrange(0, i + 1).drop_last() =~= includes@.subrange(0, i as int));
        }
        i += 1;
        assert(out@ =~= old(out)@ + includes_text(includes@.subrange(0, i as int)));
    }
    assert(includes@.subrange(0, includes@.len() as int) =~= includes@);
}

fn push_declarations(out: &mut String, declarations: &Vec<Declaration>)
    ensures
        final(out)@ == old(out)@ + declarations_text(declarations@),
{
    let mut i: usize = 0;
    while i < declarations.len()
        invariant
            0 <= i <= declarations@.len(),
            out@ == old(out)@ + declarations_text(declarations@.subrange(0, i as int)),
        decreases declarations@.len() - i,
    {
        let line = declarations[i].to_string();
        out.append(line.as_str());
        push_char(out, '\n');
        proof {
            assert(declarations@.subrange(0, i + 1).drop_last() =~= declarations@.subrange(0, i as int));
        }
        i += 1;
        assert(out@ =~= old(out)@ + declarations_text(declarations@.subrange(0, i as int)));
    }
    assert(declarations@.subrange(0, declarations@.len() as int) =~= declarations@);
}

/// A header: inclusions, then declarations, inside an optional guard.
#[derive(Debug)]
pub struct Header {
    pub guard: Option<Identifier>,
    pub includes: Vec<Include>,
    pub declarations: Vec<Declaration>,
}

/// The header's text; with a guard `G`, the body stands between
/// `#ifndef G`, `#define G` and `#endif // G`, each on its own line.
pub open spec fn header_text(h: Header) -> Seq<char> {
    let body = includes_text(h.includes@) + declarations_text(h.declarations@);
    match h.guard {
        Some(g) => "#ifndef "@ + g@ + seq!['\n'] + "#define "@ + g@ + seq!['\n'] + body + "#endif // "@ + g@
            + seq!['\n'],
        None => body,
    }
}

impl Header {
    /// The header's text.
    pub fn to_string(&self) -> (r: String)
        ensures
            r@ == header_text(*self),
    {
        let mut out = String::new();
        if let Some(g) = &self.guard {
            out.append("#ifndef ");
            out.append(g.as_str());
            push_char(&mut out, '\n');
            out.append("#define ");
            out.append(g.as_str());
            push_char(&mut out, '\n');
        }
        push_includes(&mut out, &self.includes);
        push_declarations(&mut out, &self.declarations);
        if let Some(g) = &self.guard {
            out.append("#endif // ");
            out.append(g.as_str());
            push_char(&mut out, '\n');
        }
        assert(out@ =~= header_text(*self));
        out
    }
}

/// A source file: inclusions, then declarations.
#[derive(Debug)]
pub struct TranslationUnit {
    pub includes: Vec<Include>,
    pub declarations: Vec<Declaration>,
}

/// Each inclusion, then each declaration, on lines of their own.
pub open spec fn translation_unit_text(u: TranslationUnit) -> Seq<char> {
    includes_text(u.includes@) + declarations_text(u.declarations@)
}

impl TranslationUnit {
    /// The file's text.
    pub fn to_string(&self) -> (r: String)
        ensures
            r@ == translation_unit_text(*self),
    {
        let mut out = String::new();
        push_includes(&mut out, &self.includes);
        push_declarations(&mut out, &self.declarations);
        assert(out@ =~= translation_unit_text(*self));
        out
    }
}

} // verus!
