use vstd::prelude::*;

use crate::error::Error;

verus! {

/// A character that may open an identifier: an ASCII letter or `_`.
pub open spec fn is_ident_start(c: char) -> bool {
    ('a' <= c && c <= 'z') || ('A' <= c && c <= 'Z') || c == '_'
}

/// A character that may appear anywhere in an identifier.
pub open spec fn is_ident_char(c: char) -> bool {
    is_ident_start(c) || ('0' <= c && c <= '9')
}

/// Non-empty, opened by a letter or `_`, and made of letters, digits and `_`.
pub open spec fn is_identifier(s: Seq<char>) -> bool {
    &&& s.len() > 0
    &&& is_ident_start(s[0])
    &&& forall|i: int| 0 <= i < s.len() ==> #[trigger] is_ident_char(s[i])
}

fn ident_start(c: char) -> (r: bool)
    ensures
        r == is_ident_start(c),
{
    ('a' <= c && c <= 'z') || ('A' <= c && c <= 'Z') || c == '_'
}

fn ident_char(c: char) -> (r: bool)
    ensures
        r == is_ident_char(c),
{
    ident_start(c) || ('0' <= c && c <= '9')
}

/// A validated C name, rendered verbatim.
#[derive(Debug)]
pub struct Identifier {
    name: String,
}

impl View for Identifier {
    type V = Seq<char>;

    closed spec fn view(&self) -> Seq<char> {
        self.name@
    }
}

impl Identifier {
    #[verifier::type_invariant]
    spec fn valid(self) -> bool {
        is_identifier(self.name@)
    }

    /// Accepts `name` exactly when it is a C identifier.
    pub fn new(name: &str) -> (r: Result<Identifier, Error>)
        ensures
            is_identifier(name@) <==> r is Ok,
            r matches Ok(id) ==> id@ == name@,
            r matches Err(Error::BadIdentifier(s)) ==> s@ == name@,
    {
        let n = name.unicode_len();
        if n == 0 || !ident_start(name.get_char(0)) {
            return Err(Error::BadIdentifier(String::from_str(name)));
        }
        let mut i: usize = 0;
        while i < n
            invariant
                0 <= i <= n,
                n == name@.len(),
                forall|j: int| 0 <= j < i ==> #[trigger] is_ident_char(name@[j]),
            decreases n - i,
        {
            if !ident_char(name.get_char(i)) {
                return Err(Error::BadIdentifier(String::from_str(name)));
            }
            i += 1;
        }
        Ok(Identifier { name: String::from_str(name) })
    }

    /// The name as text.
    pub fn as_str(&self) -> (r: &str)
        ensures
            r@ == self@,
            is_identifier(r@),
    {
        proof {
            use_type_invariant(self);
        }
        self.name.as_str()
    }

    /// The name as an owned string.
    pub fn to_string(&self) -> (r: String)
        ensures
            r@ == self@,
            is_identifier(r@),
    {
        proof {
            use_type_invariant(self);
        }
        self.name.clone()
    }
}

} // verus!
