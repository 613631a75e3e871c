//! Token streams: the form in which generated source is assembled.
//!
//! Generated source is held as `proc_macro2::TokenStream` values. Verified
//! code never looks inside one; it reasons about the sequence of token trees
//! that the stream holds, `stream_of`, which the small functions at the top of
//! this file relate to the calls that build streams.

use proc_macro2::TokenStream;
use vstd::prelude::*;

verus! {

/// The bracket kind of a delimited group.
#[derive(Clone, Copy, Debug, PartialEq, Eq, Structural)]
pub enum Delimiter {
    /// `( ... )`
    Parenthesis,
    /// `{ ... }`
    Brace,
    /// `[ ... ]`
    Bracket,
}

/// The mathematical model of one token tree.
pub enum Tok {
    /// An identifier or keyword, by its text.
    Ident(Seq<char>),
    /// One punctuation character; `joint` when it is immediately followed by
    /// another punctuation character that belongs to the same operator.
    Punct { ch: char, joint: bool },
    /// A string literal, by the text it denotes.
    Str(Seq<char>),
    /// An integer literal of type `usize`, written with or without its suffix.
    Int { value: usize, suffixed: bool },
    /// A delimited group and the token trees inside it.
    Group { delimiter: Delimiter, inner: Seq<Tok> },
    /// Any other literal, by its source text.
    Literal(Seq<char>),
}

/// `proc_macro2::TokenStream`, carried through verified code as an opaque
/// value: nothing is known of one but what `stream_of` says it holds.
#[verifier::external_type_specification]
#[verifier::external_body]
pub struct ExTokenStream(proc_macro2::TokenStream);

/// The token trees that a stream holds, in order.
pub uninterp spec fn stream_of(ts: proc_macro2::TokenStream) -> Seq<Tok>;

/// What lexing a text as source yields: its token trees, or `None` where the
/// text is not lexically valid.
pub uninterp spec fn lexed(text: Seq<char>) -> Option<Seq<Tok>>;

/// The text that a sequence of token trees prints as.
pub uninterp spec fn printed(tokens: Seq<Tok>) -> Seq<char>;

/// Whether `c` may start an identifier: an ASCII letter or `_`.
pub open spec fn is_ident_start(c: char) -> bool {
    c == '_' || ('a' <= c && c <= 'z') || ('A' <= c && c <= 'Z')
}

/// Whether `c` may continue an identifier: an ASCII letter, digit or `_`.
pub open spec fn is_ident_continue(c: char) -> bool {
    is_ident_start(c) || ('0' <= c && c <= '9')
}

/// Whether `s` is an identifier that this library emits: non-empty, made of
/// ASCII letters, digits and `_`, and not starting with a digit.
pub open spec fn is_ident(s: Seq<char>) -> bool {
    &&& s.len() > 0
    &&& is_ident_start(s[0])
    &&& forall|i: int| 0 <= i < s.len() ==> is_ident_continue(#[trigger] s[i])
}

/// Whether `c` is a punctuation character of the language.
pub open spec fn is_punct_char(c: char) -> bool {
    c == '!' || c == '#' || c == '$' || c == '%' || c == '&' || c == '\'' || c == '*' || c == '+'
        || c == ',' || c == '-' || c == '.' || c == '/' || c == ':' || c == ';' || c == '<'
        || c == '=' || c == '>' || c == '?' || c == '@' || c == '^' || c == '|' || c == '~'
}

/// `TokenStream::new`: a stream that holds no token tree.
#[verifier::external_body]
pub(crate) fn empty_stream() -> (ts: TokenStream)
    ensures
        stream_of(ts) == Seq::<Tok>::empty(),
{
    TokenStream::new()
}

/// `Ident::new`, as a stream of that one identifier. The call panics on an
/// empty text, on digits only and on characters outside Unicode's identifier
/// classes; ASCII identifiers, which `requires` asks for, are among those it
/// accepts.
#[verifier::external_body]
pub(crate) fn ident_stream(name: &str) -> (ts: TokenStream)
    requires
        is_ident(name@),
    ensures
        stream_of(ts) == seq![Tok::Ident(name@)],
{
    let ident = proc_macro2::Ident::new(name, proc_macro2::Span::call_site());
    TokenStream::from(proc_macro2::TokenTree::Ident(ident))
}

/// `Punct::new`, as a stream of that one character, with `Spacing::Joint`
/// where `joint` is set and `Spacing::Alone` otherwise. The call panics on a
/// character outside the language's punctuation.
#[verifier::external_body]
pub(crate) fn punct_stream(ch: char, joint: bool) -> (ts: TokenStream)
    requires
        is_punct_char(ch),
    ensures
        stream_of(ts) == seq![Tok::Punct { ch, joint }],
{
    let spacing = if joint {
        proc_macro2::Spacing::Joint
    } else {
        proc_macro2::Spacing::Alone
    };
    TokenStream::from(proc_macro2::TokenTree::Punct(proc_macro2::Punct::new(ch, spacing)))
}

/// `Literal::string`: a stream of the one string literal that denotes `text`.
#[verifier::external_body]
pub(crate) fn string_stream(text: &str) -> (ts: TokenStream)
    ensures
        stream_of(ts) == seq![Tok::Str(text@)],
{
    TokenStream::from(proc_macro2::TokenTree::Literal(proc_macro2::Literal::string(text)))
}

/// `Literal::usize_suffixed`: a stream of the one integer literal `value`
/// with the suffix `usize`.
#[verifier::external_body]
pub(crate) fn usize_suffixed_stream(value: usize) -> (ts: TokenStream)
    ensures
        stream_of(ts) == seq![Tok::Int { value, suffixed: true }],
{
    TokenStream::from(proc_macro2::TokenTree::Literal(proc_macro2::Literal::usize_suffixed(value)))
}

/// `Literal::usize_unsuffixed`: a stream of the one integer literal `value`
/// without a suffix.
#[verifier::external_body]
pub(crate) fn usize_unsuffixed_stream(value: usize) -> (ts: TokenStream)
    ensures
        stream_of(ts) == seq![Tok::Int { value, suffixed: false }],
{
    TokenStream::from(
        proc_macro2::TokenTree::Literal(proc_macro2::Literal::usize_unsuffixed(value)),
    )
}

/// `Group::new`: a stream of the one group that holds `inner` between the
/// brackets of `delimiter`.
#[verifier::external_body]
pub(crate) fn group_stream(delimiter: Delimiter, inner: TokenStream) -> (ts: TokenStream)
    ensures
        stream_of(ts) == seq![Tok::Group { delimiter, inner: stream_of(inner) }],
{
    let d = match delimiter {
        Delimiter::Parenthesis => proc_macro2::Delimiter::Parenthesis,
        Delimiter::Brace => proc_macro2::Delimiter::Brace,
        Delimiter::Bracket => proc_macro2::Delimiter::Bracket,
    };
    TokenStream::from(proc_macro2::TokenTree::Group(proc_macro2::Group::new(d, inner)))
}

/// `Extend<TokenStream>::extend`: the token trees of `more` are added after
/// those that `ts` already holds.
#[verifier::external_body]
pub(crate) fn extend_stream(ts: &mut TokenStream, more: TokenStream)
    ensures
        stream_of(*final(ts)) == stream_of(*old(ts)) + stream_of(more),
{
    ts.extend(core::iter::once(more));
}

/// `TokenStream::clone`: a stream that holds the same token trees.
#[verifier::external_body]
pub(crate) fn clone_stream(ts: &TokenStream) -> (copy: TokenStream)
    ensures
        stream_of(copy) == stream_of(*ts),
{
    ts.clone()
}

/// `TokenStream::from_str`: the stream that the text lexes to, `None` where
/// the lexer rejects the text.
#[verifier::external_body]
pub(crate) fn lex_stream(text: &str) -> (r: Option<TokenStream>)
    ensures
        match lexed(text@) {
            Some(tokens) => r matches Some(ts) && stream_of(ts) == tokens,
            None => r is None,
        },
{
    text.parse::<TokenStream>().ok()
}

/// `TokenStream::to_string`: the text that the stream prints as.
#[verifier::external_body]
pub(crate) fn print_stream(ts: &TokenStream) -> (text: String)
    ensures
        text@ == printed(stream_of(*ts)),
{
    ts.to_string()
}

/// The stream of one identifier.
pub open spec fn ident_tokens(name: Seq<char>) -> Seq<Tok> {
    seq![Tok::Ident(name)]
}

/// The stream of one punctuation character that stands alone.
pub open spec fn punct_tokens(ch: char) -> Seq<Tok> {
    seq![Tok::Punct { ch, joint: false }]
}

/// The stream of one punctuation character joined to the next.
pub open spec fn joint_tokens(ch: char) -> Seq<Tok> {
    seq![Tok::Punct { ch, joint: true }]
}

/// The stream of one string literal.
pub open spec fn string_tokens(text: Seq<char>) -> Seq<Tok> {
    seq![Tok::Str(text)]
}

/// The stream of one integer literal.
pub open spec fn int_tokens(value: usize, suffixed: bool) -> Seq<Tok> {
    seq![Tok::Int { value, suffixed }]
}

/// The stream of one group.
pub open spec fn group_tokens(delimiter: Delimiter, inner: Seq<Tok>) -> Seq<Tok> {
    seq![Tok::Group { delimiter, inner }]
}

/// `( inner )`
pub open spec fn paren_tokens(inner: Seq<Tok>) -> Seq<Tok> {
    group_tokens(Delimiter::Parenthesis, inner)
}

/// `{ inner }`
pub open spec fn brace_tokens(inner: Seq<Tok>) -> Seq<Tok> {
    group_tokens(Delimiter::Brace, inner)
}

/// `[ inner ]`
pub open spec fn bracket_tokens(inner: Seq<Tok>) -> Seq<Tok> {
    group_tokens(Delimiter::Bracket, inner)
}

/// `::`
pub open spec fn path_sep_tokens() -> Seq<Tok> {
    joint_tokens(':') + punct_tokens(':')
}

/// `->`
pub open spec fn arrow_tokens() -> Seq<Tok> {
    joint_tokens('-') + punct_tokens('>')
}

/// `==`
pub open spec fn eq_eq_tokens() -> Seq<Tok> {
    joint_tokens('=') + punct_tokens('=')
}

/// A lifetime: `'name`.
pub open spec fn lifetime_tokens(name: Seq<char>) -> Seq<Tok> {
    joint_tokens('\'') + ident_tokens(name)
}

/// The parts one after another.
pub open spec fn concat_tokens(parts: Seq<Seq<Tok>>) -> Seq<Tok>
    decreases parts.len(),
{
    if parts.len() == 0 {
        Seq::empty()
    } else {
        concat_tokens(parts.drop_last()) + parts.last()
    }
}

/// The parts one after another with `sep` between each two.
pub open spec fn separated_tokens(parts: Seq<Seq<Tok>>, sep: Seq<Tok>) -> Seq<Tok>
    decreases parts.len(),
{
    if parts.len() == 0 {
        Seq::empty()
    } else if parts.len() == 1 {
        parts[0]
    } else {
        separated_tokens(parts.drop_last(), sep) + sep + parts.last()
    }
}

/// The token trees of each stream of `streams`, in order.
pub open spec fn streams_of(streams: Seq<TokenStream>) -> Seq<Seq<Tok>> {
    Seq::new(streams.len(), |i: int| stream_of(streams[i]))
}

/// Whether `c` is an ASCII letter or `_`.
pub fn char_is_ident_start(c: char) -> (b: bool)
    ensures
        b == is_ident_start(c),
{
    c == '_' || ('a' <= c && c <= 'z') || ('A' <= c && c <= 'Z')
}

/// Whether `c` is an ASCII letter, digit or `_`.
pub fn char_is_ident_continue(c: char) -> (b: bool)
    ensures
        b == is_ident_continue(c),
{
    char_is_ident_start(c) || ('0' <= c && c <= '9')
}

/// Whether `name` can be emitted as an identifier.
pub fn is_identifier(name: &str) -> (b: bool)
    ensures
        b == is_ident(name@),
{
    let n = name.unicode_len();
    if n == 0 {
        return false;
    }
    if !char_is_ident_start(name.get_char(0)) {
        return false;
    }
    let mut i: usize = 0;
    while i < n
        invariant
            n == name@.len(),
            i <= n,
            forall|j: int| 0 <= j < i ==> is_ident_continue(#[trigger] name@[j]),
        decreases n - i,
    {
        if !char_is_ident_continue(name.get_char(i)) {
            return false;
        }
        i += 1;
    }
    true
}

/// The stream of the one identifier `name`; `None` where `name` is not an
/// identifier.
pub fn ident(name: &str) -> (r: Option<TokenStream>)
    ensures
        is_ident(name@) ==> (r matches Some(ts) && stream_of(ts) == ident_tokens(name@)),
        !is_ident(name@) ==> r is None,
{
    if is_identifier(name) {
        Some(ident_stream(name))
    } else {
        None
    }
}

/// The stream of one punctuation character that stands alone.
pub fn punct(ch: char) -> (ts: TokenStream)
    requires
        is_punct_char(ch),
    ensures
        stream_of(ts) == punct_tokens(ch),
{
    punct_stream(ch, false)
}

/// The stream of one punctuation character joined to the next.
pub fn joint(ch: char) -> (ts: TokenStream)
    requires
        is_punct_char(ch),
    ensures
        stream_of(ts) == joint_tokens(ch),
{
    punct_stream(ch, true)
}

/// The stream of the one string literal that denotes `text`.
pub fn string_literal(text: &str) -> (ts: TokenStream)
    ensures
        stream_of(ts) == string_tokens(text@),
{
    string_stream(text)
}

/// The stream of the one integer literal `value`, with the suffix `usize`
/// where `suffixed` is set.
pub fn int_literal(value: usize, suffixed: bool) -> (ts: TokenStream)
    ensures
        stream_of(ts) == int_tokens(value, suffixed),
{
    if suffixed {
        usize_suffixed_stream(value)
    } else {
        usize_unsuffixed_stream(value)
    }
}

/// The stream that `text` lexes to; `None` where `text` is not lexically
/// valid source.
pub fn lex(text: &str) -> (r: Option<TokenStream>)
    ensures
        match lexed(text@) {
            Some(tokens) => r matches Some(ts) && stream_of(ts) == tokens,
            None => r is None,
        },
{
    lex_stream(text)
}

/// The text that the stream prints as.
pub fn stream_text(ts: &TokenStream) -> (text: String)
    ensures
        text@ == printed(stream_of(*ts)),
{
    print_stream(ts)
}

/// A stream that holds the same token trees as `ts`.
pub fn duplicate(ts: &TokenStream) -> (copy: TokenStream)
    ensures
        stream_of(copy) == stream_of(*ts),
{
    clone_stream(ts)
}

/// The results of `f` at `0`, `1`, ... up to `n`, or the first error among
/// them.
pub open spec fn collect_upto<E>(f: spec_fn(int) -> Result<Seq<Tok>, E>, n: nat) -> Result<
    Seq<Seq<Tok>>,
    E,
>
    decreases n,
{
    if n == 0 {
        Ok(Seq::empty())
    } else {
        match collect_upto(f, (n - 1) as nat) {
            Err(e) => Err(e),
            Ok(collected) => match f(n - 1) {
                Err(e) => Err(e),
                Ok(tokens) => Ok(collected.push(tokens)),
            },
        }
    }
}

/// An error among the first `n` results is the error of any longer prefix.
pub proof fn lemma_collect_error<E>(f: spec_fn(int) -> Result<Seq<Tok>, E>, n: nat, m: nat)
    requires
        n <= m,
        collect_upto(f, n) is Err,
    ensures
        collect_upto(f, m) == collect_upto(f, n),
    decreases m,
{
    if n < m {
        lemma_collect_error(f, n, (m - 1) as nat);
    }
}

/// Where all of the first `n` results are there, they are `n`, each the
/// result of `f` at its place.
pub proof fn lemma_collect_ok<E>(f: spec_fn(int) -> Result<Seq<Tok>, E>, n: nat)
    ensures
        collect_upto(f, n) matches Ok(collected) ==> collected.len() == n && forall|i: int|
            0 <= i < n ==> f(i) == Ok::<Seq<Tok>, E>(#[trigger] collected[i]),
    decreases n,
{
    if n > 0 {
        lemma_collect_ok(f, (n - 1) as nat);
    }
}

/// Adds `more` after what `out` holds.
pub fn append(out: &mut TokenStream, more: TokenStream)
    ensures
        stream_of(*final(out)) == stream_of(*old(out)) + stream_of(more),
{
    extend_stream(out, more);
}

/// `first` followed by `second`.
pub fn concat(first: TokenStream, second: TokenStream) -> (ts: TokenStream)
    ensures
        stream_of(ts) == stream_of(first) + stream_of(second),
{
    let mut out = first;
    extend_stream(&mut out, second);
    out
}

/// `( inner )`
pub fn paren(inner: TokenStream) -> (ts: TokenStream)
    ensures
        stream_of(ts) == paren_tokens(stream_of(inner)),
{
    group_stream(Delimiter::Parenthesis, inner)
}

/// `{ inner }`
pub fn brace(inner: TokenStream) -> (ts: TokenStream)
    ensures
        stream_of(ts) == brace_tokens(stream_of(inner)),
{
    group_stream(Delimiter::Brace, inner)
}

/// `[ inner ]`
pub fn bracket(inner: TokenStream) -> (ts: TokenStream)
    ensures
        stream_of(ts) == bracket_tokens(stream_of(inner)),
{
    group_stream(Delimiter::Bracket, inner)
}

/// `::`
pub fn path_sep() -> (ts: TokenStream)
    ensures
        stream_of(ts) == path_sep_tokens(),
{
    concat(joint(':'), punct(':'))
}

/// `->`
pub fn arrow() -> (ts: TokenStream)
    ensures
        stream_of(ts) == arrow_tokens(),
{
    concat(joint('-'), punct('>'))
}

/// `==`
pub fn eq_eq() -> (ts: TokenStream)
    ensures
        stream_of(ts) == eq_eq_tokens(),
{
    concat(joint('='), punct('='))
}

/// The streams one after another.
pub fn concat_all(parts: &Vec<TokenStream>) -> (ts: TokenStream)
    ensures
        stream_of(ts) == concat_tokens(streams_of(parts@)),
{
    let mut out = empty_stream();
    let mut i: usize = 0;
    while i < parts.len()
        invariant
            i <= parts.len(),
            stream_of(out) == concat_tokens(streams_of(parts@.take(i as int))),
        decreases parts.len() - i,
    {
        proof {
            let next = parts@.take(i as int + 1);
            assert(streams_of(next).drop_last() =~= streams_of(parts@.take(i as int)));
        }
        extend_stream(&mut out, clone_stream(&parts[i]));
        i += 1;
    }
    proof {
        assert(parts@.take(parts.len() as int) =~= parts@);
    }
    out
}

/// The streams one after another with a `,` between each two.
pub fn comma_separated(parts: &Vec<TokenStream>) -> (ts: TokenStream)
    ensures
        stream_of(ts) == separated_tokens(streams_of(parts@), punct_tokens(',')),
{
    let mut out = empty_stream();
    let mut i: usize = 0;
    while i < parts.len()
        invariant
            i <= parts.len(),
            stream_of(out) == separated_tokens(
                streams_of(parts@.take(i as int)),
                punct_tokens(','),
            ),
        decreases parts.len() - i,
    {
        proof {
            let next = parts@.take(i as int + 1);
            assert(streams_of(next).drop_last() =~= streams_of(parts@.take(i as int)));
        }
        if i == 0 {
            out = clone_stream(&parts[i]);
        } else {
            extend_stream(&mut out, punct(','));
            extend_stream(&mut out, clone_stream(&parts[i]));
        }
        i += 1;
    }
    proof {
        assert(parts@.take(parts.len() as int) =~= parts@);
    }
    out
}

} // verus!
