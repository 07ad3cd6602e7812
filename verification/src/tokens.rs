//! Token streams and the mathematical model of what they hold.
//!
//! A [`TokenStream`] is opaque to the verifier. Its contents are spoken of
//! through [`stream_tokens`], the sequence of [`Token`]s that it holds. The
//! few constructors that the compiler needs are declared here with what each
//! does to that sequence; everything else is built from them and proved.

use proc_macro2::{Span, TokenStream};
use vstd::prelude::*;

use crate::ident::{is_ident_text, Ident};

verus! {

/// How a group of tokens is delimited.
#[derive(Clone, Copy, Debug, PartialEq, Eq, Structural)]
pub enum Delim {
    /// `( ... )`
    Parenthesis,
    /// `{ ... }`
    Brace,
    /// `[ ... ]`
    Bracket,
    /// An invisible delimiter, as around a macro variable.
    Invisible,
}

/// Whether a punctuation character is glued to the punctuation that follows.
#[derive(Clone, Copy, Debug, PartialEq, Eq, Structural)]
pub enum Spacing {
    /// Followed by another kind of token, or by white space.
    Alone,
    /// Immediately followed by another punctuation character, as the `=` of `=>`.
    Joint,
}

/// One token tree, without its span.
pub enum Token {
    /// A word: a keyword or a name.
    Ident(Seq<char>),
    /// A single punctuation character.
    Punct(char, Spacing),
    /// An integer literal without a suffix, by its value.
    Integer(nat),
    /// Any other literal, by its text.
    Literal(Seq<char>),
    /// A delimited sequence of tokens.
    Group(Delim, Seq<Token>),
}

/// The punctuation characters of the language.
pub open spec fn is_punct_char(c: char) -> bool {
    c == '=' || c == '<' || c == '>' || c == '!' || c == '~' || c == '+' || c == '-' || c == '*'
        || c == '/' || c == '%' || c == '^' || c == '&' || c == '|' || c == '@' || c == '.'
        || c == ',' || c == ';' || c == ':' || c == '#' || c == '$' || c == '?' || c == '\''
}

/// `proc_macro2::TokenStream`: a sequence of token trees. It is opaque here;
/// [`stream_tokens`] stands for what it holds.
#[verifier::external_type_specification]
#[verifier::external_body]
pub struct ExTokenStream(proc_macro2::TokenStream);

/// `proc_macro2::Span`: a place in the source. It is opaque here, and only
/// handed on.
#[verifier::external_type_specification]
#[verifier::external_body]
pub struct ExSpan(proc_macro2::Span);

/// The token trees that a stream holds, in order, without their spans.
///
/// It has no definition: what is known of it is what the declarations below
/// say of the constructors of token streams. They are believed, not proved.
pub uninterp spec fn stream_tokens(stream: TokenStream) -> Seq<Token>;

/// `Span::call_site`: the place where the compiler was called. Nothing is
/// stated of it.
#[verifier::external_body]
pub(crate) fn call_site() -> Span {
    Span::call_site()
}

/// `TokenStream::new`: the result holds no token.
#[verifier::external_body]
pub(crate) fn stream_new() -> (stream: TokenStream)
    ensures
        stream_tokens(stream) == Seq::<Token>::empty(),
{
    TokenStream::new()
}

/// `TokenStream::clone`: the copy holds the same tokens.
#[verifier::external_body]
pub(crate) fn stream_clone(stream: &TokenStream) -> (copy: TokenStream)
    ensures
        stream_tokens(copy) == stream_tokens(*stream),
{
    stream.clone()
}

/// `TokenStream::extend` with one stream: the tokens of `more` are appended,
/// in their order, behind those already there.
#[verifier::external_body]
pub(crate) fn stream_extend(stream: &mut TokenStream, more: TokenStream)
    ensures
        stream_tokens(*final(stream)) == stream_tokens(*old(stream)) + stream_tokens(more),
{
    stream.extend(Some(more));
}

/// `Ident::new`: a stream of one word with the given text, at the given
/// span. `Ident::new` panics on a text that is no identifier, so such texts
/// are left out.
#[verifier::external_body]
pub(crate) fn ident_stream(text: &str, span: Span) -> (stream: TokenStream)
    requires
        is_ident_text(text@),
    ensures
        stream_tokens(stream) == seq![Token::Ident(text@)],
{
    let ident = proc_macro2::Ident::new(text, span);
    std::iter::once(proc_macro2::TokenTree::Ident(ident)).collect()
}

/// `Punct::new`: a stream of one punctuation character with the given
/// spacing. `Punct::new` may panic on a character that is no punctuation of
/// the language, so such characters are left out.
#[verifier::external_body]
pub(crate) fn punct_stream(c: char, spacing: Spacing) -> (stream: TokenStream)
    requires
        is_punct_char(c),
    ensures
        stream_tokens(stream) == seq![Token::Punct(c, spacing)],
{
    let spacing = match spacing {
        Spacing::Alone => proc_macro2::Spacing::Alone,
        Spacing::Joint => proc_macro2::Spacing::Joint,
    };
    let punct = proc_macro2::Punct::new(c, spacing);
    std::iter::once(proc_macro2::TokenTree::Punct(punct)).collect()
}

/// `LitInt::new` without a suffix: a stream of one integer literal of the
/// given value, at the given span.
#[verifier::external_body]
pub(crate) fn lit_int_stream(value: u64, span: Span) -> (stream: TokenStream)
    ensures
        stream_tokens(stream) == seq![Token::Integer(value as nat)],
{
    let lit = syn::LitInt::new(value, syn::IntSuffix::None, span);
    quote::ToTokens::into_token_stream(lit)
}

/// `Group::new`: a stream of one group that holds the tokens of `inner`
/// between the given delimiters.
#[verifier::external_body]
pub(crate) fn group_stream(delim: Delim, inner: TokenStream) -> (stream: TokenStream)
    ensures
        stream_tokens(stream) == seq![Token::Group(delim, stream_tokens(inner))],
{
    let delimiter = match delim {
        Delim::Parenthesis => proc_macro2::Delimiter::Parenthesis,
        Delim::Brace => proc_macro2::Delimiter::Brace,
        Delim::Bracket => proc_macro2::Delimiter::Bracket,
        Delim::Invisible => proc_macro2::Delimiter::None,
    };
    let group = proc_macro2::Group::new(delimiter, inner);
    std::iter::once(proc_macro2::TokenTree::Group(group)).collect()
}

/// The token sequences of a list of streams.
pub open spec fn streams_view(streams: Seq<TokenStream>) -> Seq<Seq<Token>> {
    Seq::new(streams.len(), |i: int| stream_tokens(streams[i]))
}

/// The first `n` of `parts`, one behind the other.
pub open spec fn concat_upto(parts: Seq<Seq<Token>>, n: nat) -> Seq<Token>
    decreases n,
{
    if n == 0 {
        Seq::empty()
    } else {
        concat_upto(parts, (n - 1) as nat) + parts[n - 1]
    }
}

/// All of `parts`, one behind the other.
pub open spec fn concat(parts: Seq<Seq<Token>>) -> Seq<Token> {
    concat_upto(parts, parts.len())
}

/// The word `text`.
pub open spec fn word(text: Seq<char>) -> Token {
    Token::Ident(text)
}

/// The punctuation `c`, followed by something else than punctuation.
pub open spec fn alone(c: char) -> Token {
    Token::Punct(c, Spacing::Alone)
}

/// The punctuation `c`, glued to the punctuation that follows.
pub open spec fn joint(c: char) -> Token {
    Token::Punct(c, Spacing::Joint)
}

/// The path separator `::`.
pub open spec fn path_sep() -> Seq<Token> {
    seq![joint(':'), alone(':')]
}

/// The arrow `=>`.
pub open spec fn fat_arrow() -> Seq<Token> {
    seq![joint('='), alone('>')]
}

/// The arrow `->`.
pub open spec fn thin_arrow() -> Seq<Token> {
    seq![joint('-'), alone('>')]
}

/// Appends the word `text`, at the call site.
pub(crate) fn push_word(tokens: &mut TokenStream, text: &str)
    requires
        is_ident_text(text@),
    ensures
        stream_tokens(*final(tokens)) == stream_tokens(*old(tokens)).push(word(text@)),
{
    let one = ident_stream(text, call_site());
    stream_extend(tokens, one);
}

/// Appends the name `ident`, at its own span.
pub(crate) fn push_ident(tokens: &mut TokenStream, ident: &Ident)
    ensures
        stream_tokens(*final(tokens)) == stream_tokens(*old(tokens)).push(word(ident@)),
{
    let one = ident_stream(ident.as_str(), ident.span());
    stream_extend(tokens, one);
}

/// Appends the punctuation `c`, spaced alone.
pub(crate) fn push_alone(tokens: &mut TokenStream, c: char)
    requires
        is_punct_char(c),
    ensures
        stream_tokens(*final(tokens)) == stream_tokens(*old(tokens)).push(alone(c)),
{
    let one = punct_stream(c, Spacing::Alone);
    stream_extend(tokens, one);
}

/// Appends the two-character punctuation `first` `second`.
pub(crate) fn push_pair(tokens: &mut TokenStream, first: char, second: char)
    requires
        is_punct_char(first),
        is_punct_char(second),
    ensures
        stream_tokens(*final(tokens)) == stream_tokens(*old(tokens)) + seq![
            joint(first),
            alone(second),
        ],
{
    let one = punct_stream(first, Spacing::Joint);
    stream_extend(tokens, one);
    let two = punct_stream(second, Spacing::Alone);
    stream_extend(tokens, two);
}

/// Appends the integer literal `value`, at the call site.
pub(crate) fn push_integer(tokens: &mut TokenStream, value: u64)
    ensures
        stream_tokens(*final(tokens)) == stream_tokens(*old(tokens)).push(
            Token::Integer(value as nat),
        ),
{
    let one = lit_int_stream(value, call_site());
    stream_extend(tokens, one);
}

/// Appends a group that holds `inner`.
pub(crate) fn push_group(tokens: &mut TokenStream, delim: Delim, inner: TokenStream)
    ensures
        stream_tokens(*final(tokens)) == stream_tokens(*old(tokens)).push(
            Token::Group(delim, stream_tokens(inner)),
        ),
{
    let one = group_stream(delim, inner);
    stream_extend(tokens, one);
}

/// Appends a copy of the tokens of `more`.
pub(crate) fn push_stream(tokens: &mut TokenStream, more: &TokenStream)
    ensures
        stream_tokens(*final(tokens)) == stream_tokens(*old(tokens)) + stream_tokens(*more),
{
    let copy = stream_clone(more);
    stream_extend(tokens, copy);
}

/// Appends a copy of each of `streams`, in order.
pub(crate) fn push_streams(tokens: &mut TokenStream, streams: &Vec<TokenStream>)
    ensures
        stream_tokens(*final(tokens)) == stream_tokens(*old(tokens)) + concat(
            streams_view(streams@),
        ),
{
    let mut i: usize = 0;
    while i < streams.len()
        invariant
            i <= streams.len(),
            stream_tokens(*tokens) == stream_tokens(*old(tokens)) + concat_upto(
                streams_view(streams@),
                i as nat,
            ),
        decreases streams.len() - i,
    {
        push_stream(tokens, &streams[i]);
        i += 1;
    }
}

/// A copy of each of `streams`, in order.
pub(crate) fn clone_streams(streams: &Vec<TokenStream>) -> (copy: Vec<TokenStream>)
    ensures
        streams_view(copy@) == streams_view(streams@),
{
    let mut copy: Vec<TokenStream> = Vec::new();
    let mut i: usize = 0;
    while i < streams.len()
        invariant
            i <= streams.len(),
            copy@.len() == i,
            forall|j: int| 0 <= j < i ==> stream_tokens(copy@[j]) == stream_tokens(streams@[j]),
        decreases streams.len() - i,
    {
        copy.push(stream_clone(&streams[i]));
        i += 1;
    }
    copy
}

} // verus!
