//! Identifiers, and the casing of registry names.

use proc_macro2::Span;
use vstd::prelude::*;
use vstd::string::StrSliceExecFns;

verus! {

/// Whether `c` may start an identifier: an ASCII letter or an underscore.
pub open spec fn is_ident_start(c: char) -> bool {
    ('a' <= c && c <= 'z') || ('A' <= c && c <= 'Z') || c == '_'
}

/// Whether `c` may stand inside an identifier: an ASCII letter, a digit or an
/// underscore.
pub open spec fn is_ident_continue(c: char) -> bool {
    is_ident_start(c) || ('0' <= c && c <= '9')
}

/// Whether `text` is an identifier: it is not empty, starts with a letter or
/// an underscore and goes on with letters, digits and underscores.
///
/// Names outside of ASCII are left out. Whether a token stream takes such a
/// name, and in which normal form it then holds it, is up to whoever builds
/// the stream: inside a procedural macro that is the compiler.
pub open spec fn is_ident_text(text: Seq<char>) -> bool {
    &&& text.len() > 0
    &&& is_ident_start(text[0])
    &&& forall|i: int| 0 <= i < text.len() ==> is_ident_continue(#[trigger] text[i])
}

/// The name in capitalized-word casing: `transfer_funds` becomes
/// `TransferFunds`. It stands for what `heck::CamelCase::to_camel_case`
/// returns.
pub uninterp spec fn camel_case(name: Seq<char>) -> Seq<char>;

/// `heck::CamelCase::to_camel_case` on a string slice: the result is a
/// function of the text alone.
#[verifier::external_body]
fn to_camel_case(name: &str) -> (cased: String)
    ensures
        cased@ == camel_case(name@),
{
    heck::CamelCase::to_camel_case(name)
}

fn ident_start(c: char) -> (b: bool)
    ensures
        b == is_ident_start(c),
{
    ('a' <= c && c <= 'z') || ('A' <= c && c <= 'Z') || c == '_'
}

fn ident_continue(c: char) -> (b: bool)
    ensures
        b == is_ident_continue(c),
{
    ident_start(c) || ('0' <= c && c <= '9')
}

/// Whether `text` is an identifier.
pub fn is_ident(text: &str) -> (b: bool)
    ensures
        b == is_ident_text(text@),
{
    let n = text.unicode_len();
    if n == 0 {
        return false;
    }
    if !ident_start(text.get_char(0)) {
        return false;
    }
    let mut i: usize = 1;
    while i < n
        invariant
            1 <= i <= n,
            n == text@.len(),
            is_ident_start(text@[0]),
            forall|j: int| 0 <= j < i ==> is_ident_continue(#[trigger] text@[j]),
        decreases n - i,
    {
        if !ident_continue(text.get_char(i)) {
            return false;
        }
        i += 1;
    }
    true
}

/// An identifier: the name of a state type, of a handler, or of a registry
/// entry, with the place in the source where it was written.
#[derive(Debug)]
pub struct Ident {
    text: String,
    span: Span,
}

impl View for Ident {
    type V = Seq<char>;

    closed spec fn view(&self) -> Seq<char> {
        self.text@
    }
}

impl Ident {
    #[verifier::type_invariant]
    spec fn well_formed(self) -> bool {
        is_ident_text(self.text@)
    }

    /// The place in the source where the identifier was written.
    pub closed spec fn place(&self) -> Span {
        self.span
    }

    /// The identifier with the given text at the given place, if the text
    /// is one.
    pub fn new(text: &str, span: Span) -> (ident: Option<Ident>)
        ensures
            ident is Some <==> is_ident_text(text@),
            ident matches Some(id) ==> id@ == text@ && id.place() == span,
    {
        if is_ident(text) {
            Some(Ident { text: text.to_owned(), span })
        } else {
            None
        }
    }

    /// The place where the identifier was written.
    pub fn span(&self) -> (span: Span)
        ensures
            span == self.place(),
    {
        self.span
    }

    /// The text of the identifier.
    pub fn as_str(&self) -> (text: &str)
        ensures
            text@ == self@,
            is_ident_text(text@),
    {
        proof {
            use_type_invariant(self);
        }
        self.text.as_str()
    }

    /// The identifier in capitalized-word casing, at the same place, if the
    /// cased text is an identifier. The casing leaves nothing of `_`, and of
    /// `_1` only a digit: such names have no cased form.
    pub fn to_camel_case(&self) -> (cased: Option<Ident>)
        ensures
            cased is Some <==> is_ident_text(camel_case(self@)),
            cased matches Some(id) ==> id@ == camel_case(self@) && id.place() == self.place(),
    {
        let cased = to_camel_case(self.text.as_str());
        Ident::new(cased.as_str(), self.span)
    }
}

/// What a list of identifiers holds.
pub open spec fn idents_view(idents: Seq<Ident>) -> Seq<Seq<char>> {
    Seq::new(idents.len(), |i: int| idents[i]@)
}

impl PartialEq for Ident {
    fn eq(&self, other: &Self) -> (equal: bool) {
        self.text == other.text
    }
}

impl vstd::std_specs::cmp::PartialEqSpecImpl for Ident {
    open spec fn obeys_eq_spec() -> bool {
        true
    }

    /// Two identifiers are equal if their texts are, wherever they were
    /// written.
    open spec fn eq_spec(&self, other: &Self) -> bool {
        self@ == other@
    }
}

impl Clone for Ident {
    fn clone(&self) -> (copy: Self)
        ensures
            copy == *self,
    {
        proof {
            use_type_invariant(self);
        }
        Ident { text: self.text.clone(), span: self.span }
    }
}

} // verus!
