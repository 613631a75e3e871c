//! The boundary adapters on the source side: for each function that cannot
//! be called at its own symbol, a function with C linkage that calls it; and
//! for each record, the assertions on its layout.

use crate::emit::{
    blank_line, blank_line_tokens, cxx_function_name, format_unsupported, placeholder_name,
    unsupported_tokens,
};
use crate::error::{tokens_are, BindingError, ErrorKind, ErrorModel};
use crate::ir::{
    AccessSpecifier, CcType, Field, Func, HeaderName, Item, Record, UnqualifiedIdentifier, IR,
};
use crate::rs_api::{make_ident, make_ident_tokens, streams_are, thunk_ident, thunk_name};
use crate::signature::{can_skip_cc_thunk, spec_can_skip_cc_thunk};
use crate::strings::{split_words, str_eq, texts_of, words_of};
use crate::tokens::{
    append, arrow, arrow_tokens, brace, brace_tokens, collect_upto, comma_separated, duplicate,
    empty_stream, eq_eq, eq_eq_tokens, int_literal, int_tokens, lemma_collect_error,
    lemma_collect_ok, paren, paren_tokens, path_sep, path_sep_tokens, punct, punct_tokens,
    separated_tokens, stream_of, streams_of, string_literal, string_tokens, Tok,
};
use crate::words::{word, word_tokens, Word};
use proc_macro2::TokenStream;
use vstd::prelude::*;

verus! {

/// `const` for a constant type, nothing for any other.
pub open spec fn cc_const_tokens(is_const: bool) -> Seq<Tok> {
    if is_const {
        word_tokens(Word::Const)
    } else {
        Seq::empty()
    }
}

/// The error for a pointer without exactly one type argument.
pub open spec fn invalid_pointer_error() -> ErrorModel {
    ErrorModel::root(
        ErrorKind::MissingTypeArgument,
        "Invalid pointer type (need exactly 1 type argument)"@,
    )
}

/// The error for a reference without exactly one type argument.
pub open spec fn invalid_reference_error() -> ErrorModel {
    ErrorModel::root(
        ErrorKind::MissingTypeArgument,
        "Invalid reference type (need exactly 1 type argument)"@,
    )
}

/// The error for a named type with type arguments.
pub open spec fn cc_type_args_error() -> ErrorModel {
    ErrorModel::root(ErrorKind::UnsupportedTypeArguments, "Type not yet supported"@)
}

/// The error for a type that refers to a declaration that defines no type.
pub open spec fn cc_not_a_type_error() -> ErrorModel {
    ErrorModel::root(ErrorKind::NotAType, "Item does not define a type"@)
}

/// The name by which the source refers to the type that `item` declares:
/// `class Ident` for a record, `Ident` for a type alias.
pub open spec fn cc_item_name_tokens(item: &Item) -> Result<Seq<Tok>, ErrorModel> {
    match item {
        Item::Record(record) => match make_ident_tokens(record.identifier.identifier@) {
            Err(e) => Err(e),
            Ok(ident) => Ok(word_tokens(Word::Class) + ident),
        },
        Item::TypeAlias(type_alias) => make_ident_tokens(type_alias.identifier.identifier@),
        _ => Err(cc_not_a_type_error()),
    }
}

/// The first `n` of `words` as identifiers, one after another.
pub open spec fn cc_words_tokens(words: Seq<Seq<char>>, n: nat) -> Result<Seq<Tok>, ErrorModel>
    decreases n,
{
    if n == 0 || n > words.len() {
        Ok(Seq::empty())
    } else {
        match cc_words_tokens(words, (n - 1) as nat) {
            Err(e) => Err(e),
            Ok(tokens) => match make_ident_tokens(words[n - 1]) {
                Err(e) => Err(e),
                Ok(ident) => Ok(tokens + ident),
            },
        }
    }
}

/// The type node `ty` as the source writes it.
///
/// A pointer is `T * const` or `T *`; a reference `T &`; any other named
/// type the words of its name, followed by `const` where it is constant; a
/// type that refers to a declaration `const class Ident` or `const Ident`.
pub open spec fn cc_type_tokens(ty: &CcType, ir: &IR) -> Result<Seq<Tok>, ErrorModel>
    decreases ty,
{
    match ty.name {
        Some(name) => {
            if name@ == "*"@ {
                if ty.type_args@.len() != 1 {
                    Err(invalid_pointer_error())
                } else {
                    match cc_type_tokens(&ty.type_args@[0], ir) {
                        Err(e) => Err(e),
                        Ok(nested) => Ok(nested + punct_tokens('*') + cc_const_tokens(ty.is_const)),
                    }
                }
            } else if name@ == "&"@ {
                if ty.type_args@.len() != 1 {
                    Err(invalid_reference_error())
                } else {
                    match cc_type_tokens(&ty.type_args@[0], ir) {
                        Err(e) => Err(e),
                        Ok(nested) => Ok(nested + punct_tokens('&')),
                    }
                }
            } else if ty.type_args@.len() != 0 {
                Err(cc_type_args_error())
            } else {
                match cc_words_tokens(words_of(name@), words_of(name@).len()) {
                    Err(e) => Err(e),
                    Ok(idents) => Ok(idents + cc_const_tokens(ty.is_const)),
                }
            }
        },
        None => match ir.spec_item_for_type(ty.decl_id) {
            Err(e) => Err(e),
            Ok(item) => match cc_item_name_tokens(&item) {
                Err(e) => Err(e),
                Ok(item_name) => Ok(cc_const_tokens(ty.is_const) + item_name),
            },
        },
    }
}

/// `const` for a constant type, nothing for any other.
pub fn format_cc_const(is_const: bool) -> (ts: TokenStream)
    ensures
        stream_of(ts) == cc_const_tokens(is_const),
{
    if is_const {
        word(Word::Const)
    } else {
        empty_stream()
    }
}

/// The name by which the source refers to the type that `item` declares; an
/// error where `item` declares no type or its name is no identifier.
pub fn cc_type_name_for_item(item: &Item) -> (r: Result<TokenStream, BindingError>)
    ensures
        tokens_are(r, cc_item_name_tokens(item)),
{
    match item {
        Item::Record(record) => match make_ident(record.identifier.identifier.as_str()) {
            Err(e) => Err(e),
            Ok(ident) => {
                let mut out = word(Word::Class);
                append(&mut out, ident);
                Ok(out)
            },
        },
        Item::TypeAlias(type_alias) => make_ident(type_alias.identifier.identifier.as_str()),
        _ => Err(BindingError::from_str(ErrorKind::NotAType, "Item does not define a type")),
    }
}

proof fn lemma_cc_words_error(words: Seq<Seq<char>>, n: nat, m: nat)
    requires
        n <= m <= words.len(),
        cc_words_tokens(words, n) is Err,
    ensures
        cc_words_tokens(words, m) == cc_words_tokens(words, n),
    decreases m,
{
    if n < m {
        lemma_cc_words_error(words, n, (m - 1) as nat);
    }
}

/// The words of `name` as identifiers, one after another; the error of the
/// first that is no identifier.
pub fn format_cc_words(name: &str) -> (r: Result<TokenStream, BindingError>)
    ensures
        tokens_are(r, cc_words_tokens(words_of(name@), words_of(name@).len())),
{
    let words = split_words(name);
    let ghost texts = words_of(name@);
    let mut out = empty_stream();
    let mut i: usize = 0;
    while i < words.len()
        invariant
            i <= words.len(),
            texts == texts_of(words@),
            texts == words_of(name@),
            cc_words_tokens(texts, i as nat) == Ok::<Seq<Tok>, ErrorModel>(stream_of(out)),
        decreases words.len() - i,
    {
        match make_ident(words[i].as_str()) {
            Err(e) => {
                proof {
                    lemma_cc_words_error(texts, i as nat + 1, texts.len());
                }
                return Err(e);
            },
            Ok(ident) => {
                append(&mut out, ident);
            },
        }
        i += 1;
    }
    Ok(out)
}

/// The type node `ty` as the source writes it; an error where a pointer or
/// reference has not exactly one type argument, another named type has type
/// arguments, a word of a name is no identifier, or the declaration that the
/// type refers to is missing or declares no type.
pub fn format_cc_type(ty: &CcType, ir: &IR) -> (r: Result<TokenStream, BindingError>)
    ensures
        tokens_are(r, cc_type_tokens(ty, ir)),
    decreases ty,
{
    match &ty.name {
        Some(name) => {
            let name = name.as_str();
            if str_eq(name, "*") {
                if ty.type_args.len() != 1 {
                    return Err(
                        BindingError::from_str(
                            ErrorKind::MissingTypeArgument,
                            "Invalid pointer type (need exactly 1 type argument)",
                        ),
                    );
                }
                proof {
                    assert(decreases_to!(ty => ty.type_args));
                    assert(decreases_to!(ty.type_args => ty.type_args@));
                    assert(decreases_to!(ty.type_args@ => ty.type_args@[0]));
                }
                match format_cc_type(&ty.type_args[0], ir) {
                    Err(e) => Err(e),
                    Ok(nested) => {
                        let mut out = nested;
                        append(&mut out, punct('*'));
                        append(&mut out, format_cc_const(ty.is_const));
                        Ok(out)
                    },
                }
            } else if str_eq(name, "&") {
                if ty.type_args.len() != 1 {
                    return Err(
                        BindingError::from_str(
                            ErrorKind::MissingTypeArgument,
                            "Invalid reference type (need exactly 1 type argument)",
                        ),
                    );
                }
                proof {
                    assert(decreases_to!(ty => ty.type_args));
                    assert(decreases_to!(ty.type_args => ty.type_args@));
                    assert(decreases_to!(ty.type_args@ => ty.type_args@[0]));
                }
                match format_cc_type(&ty.type_args[0], ir) {
                    Err(e) => Err(e),
                    Ok(nested) => {
                        let mut out = nested;
                        append(&mut out, punct('&'));
                        Ok(out)
                    },
                }
            } else if ty.type_args.len() != 0 {
                Err(
                    BindingError::from_str(
                        ErrorKind::UnsupportedTypeArguments,
                        "Type not yet supported",
                    ),
                )
            } else {
                match format_cc_words(name) {
                    Err(e) => Err(e),
                    Ok(idents) => {
                        let mut out = idents;
                        append(&mut out, format_cc_const(ty.is_const));
                        Ok(out)
                    },
                }
            }
        },
        None => match ir.item_for_type(ty.decl_id) {
            Err(e) => Err(e),
            Ok(item) => match cc_type_name_for_item(item) {
                Err(e) => Err(e),
                Ok(item_name) => {
                    let mut out = format_cc_const(ty.is_const);
                    append(&mut out, item_name);
                    Ok(out)
                },
            },
        },
    }
}

/// `static_assert ( condition ) ;`
pub open spec fn static_assert_tokens(condition: Seq<Tok>) -> Seq<Tok> {
    word_tokens(Word::StaticAssert) + paren_tokens(condition) + punct_tokens(';')
}

/// `query ( class Ident ) == value`
pub open spec fn cc_query_tokens(query: Word, ident: Seq<Tok>, value: usize) -> Seq<Tok> {
    word_tokens(query) + paren_tokens(word_tokens(Word::Class) + ident) + eq_eq_tokens()
        + int_tokens(value, false)
}

/// The assertion that a field of the record stands `offset` bits into it:
/// `static_assert ( offsetof ( class Ident , field ) * 8 == offset ) ;`
pub open spec fn cc_offset_assertion_tokens(
    ident: Seq<Tok>,
    field_ident: Seq<Tok>,
    offset: usize,
) -> Seq<Tok> {
    static_assert_tokens(
        word_tokens(Word::Offsetof) + paren_tokens(
            word_tokens(Word::Class) + ident + punct_tokens(',') + field_ident,
        ) + punct_tokens('*') + int_tokens(8, false) + eq_eq_tokens() + int_tokens(offset, false),
    )
}

/// The offset assertions of the public fields among the first `n` of
/// `fields`, in order.
pub open spec fn cc_field_assertions(fields: Seq<Field>, ident: Seq<Tok>, n: nat) -> Result<
    Seq<Tok>,
    ErrorModel,
>
    decreases n,
{
    if n == 0 || n > fields.len() {
        Ok(Seq::empty())
    } else {
        match cc_field_assertions(fields, ident, (n - 1) as nat) {
            Err(e) => Err(e),
            Ok(tokens) => if fields[n - 1].access != AccessSpecifier::Public {
                Ok(tokens)
            } else {
                match make_ident_tokens(fields[n - 1].identifier.identifier@) {
                    Err(e) => Err(e),
                    Ok(field_ident) => Ok(
                        tokens + cc_offset_assertion_tokens(
                            ident,
                            field_ident,
                            fields[n - 1].offset,
                        ),
                    ),
                }
            },
        }
    }
}

/// The assertions on the layout of `record` on the source side: its size,
/// its alignment, and the offset of each public field; nothing for a record
/// of another unit.
pub open spec fn cc_layout_tokens(record: &Record, ir: &IR) -> Result<Seq<Tok>, ErrorModel> {
    if !ir.spec_is_bound_here(record.owning_target) {
        Ok(Seq::empty())
    } else {
        match make_ident_tokens(record.identifier.identifier@) {
            Err(e) => Err(e),
            Ok(ident) => match cc_field_assertions(record.fields@, ident, record.fields@.len()) {
                Err(e) => Err(e),
                Ok(fields) => Ok(
                    static_assert_tokens(cc_query_tokens(Word::Sizeof, ident, record.size))
                        + static_assert_tokens(
                        cc_query_tokens(Word::Alignof, ident, record.alignment),
                    ) + fields,
                ),
            },
        }
    }
}

/// `static_assert ( condition ) ;`
pub fn static_assert(condition: TokenStream) -> (ts: TokenStream)
    ensures
        stream_of(ts) == static_assert_tokens(stream_of(condition)),
{
    let mut out = word(Word::StaticAssert);
    append(&mut out, paren(condition));
    append(&mut out, punct(';'));
    out
}

/// `query ( class Ident ) == value`
pub fn cc_query(query: Word, ident: &TokenStream, value: usize) -> (ts: TokenStream)
    ensures
        stream_of(ts) == cc_query_tokens(query, stream_of(*ident), value),
{
    let mut class = word(Word::Class);
    append(&mut class, duplicate(ident));
    let mut out = word(query);
    append(&mut out, paren(class));
    append(&mut out, eq_eq());
    append(&mut out, int_literal(value, false));
    out
}

proof fn lemma_cc_field_assertions_error(fields: Seq<Field>, ident: Seq<Tok>, n: nat, m: nat)
    requires
        n <= m <= fields.len(),
        cc_field_assertions(fields, ident, n) is Err,
    ensures
        cc_field_assertions(fields, ident, m) == cc_field_assertions(fields, ident, n),
    decreases m,
{
    if n < m {
        lemma_cc_field_assertions_error(fields, ident, n, (m - 1) as nat);
    }
}

/// The assertions on the layout of `record` on the source side; an error
/// where the name of the record or of a public field is no identifier.
pub fn cc_struct_layout_assertion(record: &Record, ir: &IR) -> (r: Result<
    TokenStream,
    BindingError,
>)
    ensures
        tokens_are(r, cc_layout_tokens(record, ir)),
{
    if !ir.is_bound_here(&record.owning_target) {
        return Ok(empty_stream());
    }
    let ident = match make_ident(record.identifier.identifier.as_str()) {
        Err(e) => {
            return Err(e);
        },
        Ok(ident) => ident,
    };
    let mut fields = empty_stream();
    let mut i: usize = 0;
    while i < record.fields.len()
        invariant
            i <= record.fields.len(),
            ir.spec_is_bound_here(record.owning_target),
            make_ident_tokens(record.identifier.identifier@) == Ok::<Seq<Tok>, ErrorModel>(
                stream_of(ident),
            ),
            cc_field_assertions(record.fields@, stream_of(ident), i as nat) == Ok::<
                Seq<Tok>,
                ErrorModel,
            >(stream_of(fields)),
        decreases record.fields.len() - i,
    {
        let field = &record.fields[i];
        match field.access {
            AccessSpecifier::Public => {
                match make_ident(field.identifier.identifier.as_str()) {
                    Err(e) => {
                        proof {
                            lemma_cc_field_assertions_error(
                                record.fields@,
                                stream_of(ident),
                                i as nat + 1,
                                record.fields@.len(),
                            );
                        }
                        return Err(e);
                    },
                    Ok(field_ident) => {
                        let mut args = word(Word::Class);
                        append(&mut args, duplicate(&ident));
                        append(&mut args, punct(','));
                        append(&mut args, field_ident);
                        let mut condition = word(Word::Offsetof);
                        append(&mut condition, paren(args));
                        append(&mut condition, punct('*'));
                        append(&mut condition, int_literal(8, false));
                        append(&mut condition, eq_eq());
                        append(&mut condition, int_literal(field.offset, false));
                        append(&mut fields, static_assert(condition));
                    },
                }
            },
            _ => {},
        }
        i += 1;
    }
    let mut out = static_assert(cc_query(Word::Sizeof, &ident, record.size));
    append(&mut out, static_assert(cc_query(Word::Alignof, &ident, record.alignment)));
    append(&mut out, fields);
    Ok(out)
}

/// The function that the adapter of `func` calls: `name` for a free
/// function or an instance method, `Record :: name` for a static method, and
/// the functions that construct and destroy in place for the special
/// members.
pub open spec fn cc_callee_tokens(func: &Func, ir: &IR) -> Result<Seq<Tok>, ErrorModel> {
    match func.name {
        UnqualifiedIdentifier::Identifier(id) => match make_ident_tokens(id.identifier@) {
            Err(e) => Err(e),
            Ok(fn_ident) => match func.member_func_metadata {
                Some(meta) => if meta.instance_method_metadata is None {
                    match meta.spec_find_record(ir) {
                        Err(e) => Err(e),
                        Ok(record) => match make_ident_tokens(record.identifier.identifier@) {
                            Err(e) => Err(e),
                            Ok(record_ident) => Ok(record_ident + path_sep_tokens() + fn_ident),
                        },
                    }
                } else {
                    Ok(fn_ident)
                },
                None => Ok(fn_ident),
            },
        },
        UnqualifiedIdentifier::Constructor => Ok(
            word_tokens(Word::RsApiImplSupport) + path_sep_tokens() + word_tokens(
                Word::ConstructAt,
            ),
        ),
        UnqualifiedIdentifier::Destructor => Ok(
            word_tokens(Word::Std) + path_sep_tokens() + word_tokens(Word::DestroyAt),
        ),
    }
}

/// Whether the adapter of `func` calls it on its first argument: whether
/// `func` is a named instance method.
pub open spec fn cc_needs_this_deref(func: &Func) -> bool {
    func.member_func_metadata matches Some(meta) && func.name is Identifier
        && meta.instance_method_metadata is Some
}

/// The identifier of the parameter of `func` at `i`.
pub open spec fn cc_param_ident(func: &Func, i: int) -> Result<Seq<Tok>, ErrorModel> {
    make_ident_tokens(func.params@[i].identifier.identifier@)
}

/// The type of the parameter of `func` at `i`, as the source writes it.
pub open spec fn cc_param_type(func: &Func, ir: &IR, i: int) -> Result<Seq<Tok>, ErrorModel> {
    cc_type_tokens(&func.params@[i].type_.cc_type, ir)
}

/// The error for an instance method without its `__this` parameter.
pub open spec fn no_this_error() -> ErrorModel {
    ErrorModel::root(ErrorKind::MissingParameter, "Instance methods must have `__this` param."@)
}

/// The parameters of the adapter: `type ident` of each.
pub open spec fn cc_params(types: Seq<Seq<Tok>>, idents: Seq<Seq<Tok>>) -> Seq<Seq<Tok>> {
    Seq::new(idents.len(), |i: int| types[i] + idents[i])
}

/// The adapter made of its pieces:
/// `extern "C" T thunk ( params ) { return callee ( args ) ; }`, where an
/// instance method is called on the first argument, `this -> callee`, with
/// the others, and `return` is left out where nothing is returned.
pub open spec fn cc_thunk_of(
    func: &Func,
    thunk_ident: Seq<Tok>,
    callee: Seq<Tok>,
    return_type: Seq<Tok>,
    idents: Seq<Seq<Tok>>,
    types: Seq<Seq<Tok>>,
) -> Seq<Tok> {
    word_tokens(Word::Extern) + string_tokens("C"@) + return_type + thunk_ident + paren_tokens(
        separated_tokens(cc_params(types, idents), punct_tokens(',')),
    ) + brace_tokens(
        (if func.return_type.cc_type.spec_is_void() {
            Seq::empty()
        } else {
            word_tokens(Word::Return)
        }) + (if cc_needs_this_deref(func) {
            idents[0] + arrow_tokens() + callee
        } else {
            callee
        }) + paren_tokens(
            separated_tokens(
                if cc_needs_this_deref(func) {
                    idents.skip(1)
                } else {
                    idents
                },
                punct_tokens(','),
            ),
        ) + punct_tokens(';'),
    )
}

/// The adapter of `func` on the source side, or the first error in making
/// it: of its name, of the function it calls, of the return type, of the
/// names of the parameters, of their types.
pub open spec fn cc_thunk_tokens(func: &Func, ir: &IR) -> Result<Seq<Tok>, ErrorModel> {
    match make_ident_tokens(thunk_name(func.mangled_name@)) {
        Err(e) => Err(e),
        Ok(thunk_ident) => match cc_callee_tokens(func, ir) {
            Err(e) => Err(e),
            Ok(callee) => match cc_type_tokens(&func.return_type.cc_type, ir) {
                Err(e) => Err(e),
                Ok(return_type) => match collect_upto(
                    |i: int| cc_param_ident(func, i),
                    func.params@.len(),
                ) {
                    Err(e) => Err(e),
                    Ok(idents) => match collect_upto(
                        |i: int| cc_param_type(func, ir, i),
                        func.params@.len(),
                    ) {
                        Err(e) => Err(e),
                        Ok(types) => if cc_needs_this_deref(func) && func.params@.len() == 0 {
                            Err(no_this_error())
                        } else {
                            Ok(cc_thunk_of(func, thunk_ident, callee, return_type, idents, types))
                        },
                    },
                },
            },
        },
    }
}

/// The function that the adapter of `func` calls.
pub fn format_cc_callee(func: &Func, ir: &IR) -> (r: Result<TokenStream, BindingError>)
    ensures
        tokens_are(r, cc_callee_tokens(func, ir)),
{
    match &func.name {
        UnqualifiedIdentifier::Identifier(id) => {
            let fn_ident = match make_ident(id.identifier.as_str()) {
                Err(e) => {
                    return Err(e);
                },
                Ok(fn_ident) => fn_ident,
            };
            match &func.member_func_metadata {
                Some(meta) => {
                    if meta.instance_method_metadata.is_none() {
                        match meta.find_record(ir) {
                            Err(e) => Err(e),
                            Ok(record) => match make_ident(record.identifier.identifier.as_str()) {
                                Err(e) => Err(e),
                                Ok(record_ident) => {
                                    let mut out = record_ident;
                                    append(&mut out, path_sep());
                                    append(&mut out, fn_ident);
                                    Ok(out)
                                },
                            },
                        }
                    } else {
                        Ok(fn_ident)
                    }
                },
                None => Ok(fn_ident),
            }
        },
        UnqualifiedIdentifier::Constructor => {
            let mut out = word(Word::RsApiImplSupport);
            append(&mut out, path_sep());
            append(&mut out, word(Word::ConstructAt));
            Ok(out)
        },
        UnqualifiedIdentifier::Destructor => {
            let mut out = word(Word::Std);
            append(&mut out, path_sep());
            append(&mut out, word(Word::DestroyAt));
            Ok(out)
        },
    }
}

/// The identifiers of the parameters of `func`, in order.
pub fn format_cc_param_idents(func: &Func) -> (r: Result<Vec<TokenStream>, BindingError>)
    ensures
        streams_are(r, collect_upto(|i: int| cc_param_ident(func, i), func.params@.len())),
{
    let ghost f = |i: int| cc_param_ident(func, i);
    let mut idents: Vec<TokenStream> = Vec::new();
    let mut i: usize = 0;
    assert(streams_of(idents@) =~= Seq::empty());
    while i < func.params.len()
        invariant
            i <= func.params.len(),
            f == (|i: int| cc_param_ident(func, i)),
            collect_upto(f, i as nat) == Ok::<Seq<Seq<Tok>>, ErrorModel>(streams_of(idents@)),
        decreases func.params.len() - i,
    {
        match make_ident(func.params[i].identifier.identifier.as_str()) {
            Err(e) => {
                proof {
                    assert(f(i as int) is Err);
                    lemma_collect_error(f, i as nat + 1, func.params@.len());
                }
                return Err(e);
            },
            Ok(ident) => {
                let ghost before = streams_of(idents@);
                idents.push(ident);
                assert(streams_of(idents@) =~= before.push(stream_of(ident)));
            },
        }
        i += 1;
    }
    Ok(idents)
}

/// The types of the parameters of `func`, in order, as the source writes
/// them.
pub fn format_cc_param_types(func: &Func, ir: &IR) -> (r: Result<Vec<TokenStream>, BindingError>)
    ensures
        streams_are(r, collect_upto(|i: int| cc_param_type(func, ir, i), func.params@.len())),
{
    let ghost f = |i: int| cc_param_type(func, ir, i);
    let mut types: Vec<TokenStream> = Vec::new();
    let mut i: usize = 0;
    assert(streams_of(types@) =~= Seq::empty());
    while i < func.params.len()
        invariant
            i <= func.params.len(),
            f == (|i: int| cc_param_type(func, ir, i)),
            collect_upto(f, i as nat) == Ok::<Seq<Seq<Tok>>, ErrorModel>(streams_of(types@)),
        decreases func.params.len() - i,
    {
        match format_cc_type(&func.params[i].type_.cc_type, ir) {
            Err(e) => {
                proof {
                    assert(f(i as int) is Err);
                    lemma_collect_error(f, i as nat + 1, func.params@.len());
                }
                return Err(e);
            },
            Ok(tokens) => {
                let ghost before = streams_of(types@);
                types.push(tokens);
                assert(streams_of(types@) =~= before.push(stream_of(tokens)));
            },
        }
        i += 1;
    }
    Ok(types)
}

/// The adapter made of its pieces.
fn assemble_cc_thunk(
    func: &Func,
    thunk_ident: TokenStream,
    callee: TokenStream,
    return_type: TokenStream,
    idents: &Vec<TokenStream>,
    types: &Vec<TokenStream>,
) -> (ts: TokenStream)
    requires
        idents@.len() == types@.len(),
        cc_needs_this_deref(func) ==> idents@.len() > 0,
    ensures
        stream_of(ts) == cc_thunk_of(
            func,
            stream_of(thunk_ident),
            stream_of(callee),
            stream_of(return_type),
            streams_of(idents@),
            streams_of(types@),
        ),
{
    let n = idents.len();
    let mut params: Vec<TokenStream> = Vec::new();
    let mut i: usize = 0;
    while i < n
        invariant
            i <= n,
            n == idents@.len(),
            n == types@.len(),
            params@.len() == i,
            forall|k: int|
                0 <= k < i ==> stream_of(#[trigger] params@[k]) == stream_of(types@[k])
                    + stream_of(idents@[k]),
        decreases n - i,
    {
        let mut param = duplicate(&types[i]);
        append(&mut param, duplicate(&idents[i]));
        params.push(param);
        i += 1;
    }
    assert(streams_of(params@) =~= cc_params(streams_of(types@), streams_of(idents@)));
    let needs_this_deref = match &func.member_func_metadata {
        None => false,
        Some(meta) => match func.name {
            UnqualifiedIdentifier::Identifier(_) => meta.instance_method_metadata.is_some(),
            _ => false,
        },
    };
    let first: usize = if needs_this_deref {
        1
    } else {
        0
    };
    let mut args: Vec<TokenStream> = Vec::new();
    let mut j: usize = first;
    while j < n
        invariant
            first <= j <= n,
            n == idents@.len(),
            args@.len() == j - first,
            forall|k: int|
                0 <= k < j - first ==> stream_of(#[trigger] args@[k]) == stream_of(
                    idents@[k + first],
                ),
        decreases n - j,
    {
        args.push(duplicate(&idents[j]));
        j += 1;
    }
    assert(streams_of(args@) =~= if cc_needs_this_deref(func) {
        streams_of(idents@).skip(1)
    } else {
        streams_of(idents@)
    });
    let mut body = if func.return_type.cc_type.is_void() {
        empty_stream()
    } else {
        word(Word::Return)
    };
    if needs_this_deref {
        let mut target = duplicate(&idents[0]);
        append(&mut target, arrow());
        append(&mut target, callee);
        append(&mut body, target);
    } else {
        append(&mut body, callee);
    }
    append(&mut body, paren(comma_separated(&args)));
    append(&mut body, punct(';'));
    let mut out = word(Word::Extern);
    append(&mut out, string_literal("C"));
    append(&mut out, return_type);
    append(&mut out, thunk_ident);
    append(&mut out, paren(comma_separated(&params)));
    append(&mut out, brace(body));
    out
}

/// The adapter of `func` on the source side; the first error in making it
/// otherwise.
pub fn generate_cc_thunk(func: &Func, ir: &IR) -> (r: Result<TokenStream, BindingError>)
    ensures
        tokens_are(r, cc_thunk_tokens(func, ir)),
{
    let thunk_ident = match thunk_ident(func) {
        Err(e) => {
            return Err(e);
        },
        Ok(thunk_ident) => thunk_ident,
    };
    let callee = match format_cc_callee(func, ir) {
        Err(e) => {
            return Err(e);
        },
        Ok(callee) => callee,
    };
    let return_type = match format_cc_type(&func.return_type.cc_type, ir) {
        Err(e) => {
            return Err(e);
        },
        Ok(return_type) => return_type,
    };
    let idents = match format_cc_param_idents(func) {
        Err(e) => {
            return Err(e);
        },
        Ok(idents) => idents,
    };
    let types = match format_cc_param_types(func, ir) {
        Err(e) => {
            return Err(e);
        },
        Ok(types) => types,
    };
    proof {
        lemma_collect_ok(|i: int| cc_param_ident(func, i), func.params@.len());
        lemma_collect_ok(|i: int| cc_param_type(func, ir, i), func.params@.len());
    }
    let needs_this_deref = match &func.member_func_metadata {
        None => false,
        Some(meta) => match func.name {
            UnqualifiedIdentifier::Identifier(_) => meta.instance_method_metadata.is_some(),
            _ => false,
        },
    };
    if needs_this_deref && func.params.len() == 0 {
        return Err(
            BindingError::from_str(
                ErrorKind::MissingParameter,
                "Instance methods must have `__this` param.",
            ),
        );
    }
    Ok(assemble_cc_thunk(func, thunk_ident, callee, return_type, &idents, &types))
}

/// What the function `func` adds to the adapters: its adapter where it
/// needs one, a placeholder where that cannot be made, nothing where it is
/// called at its own symbol.
pub open spec fn cc_func_output(func: &Func, ir: &IR) -> Seq<Tok> {
    if spec_can_skip_cc_thunk(func) {
        Seq::empty()
    } else {
        match cc_thunk_tokens(func, ir) {
            Ok(tokens) => tokens,
            Err(error) => unsupported_tokens(
                placeholder_name(func, ir),
                error.text(),
                &func.source_loc,
            ),
        }
    }
}

/// What the record `record` adds to the assertions: those on its layout, or
/// a placeholder where they cannot be made, followed by a blank line.
pub open spec fn cc_record_output(record: &Record, ir: &IR) -> Seq<Tok> {
    (match cc_layout_tokens(record, ir) {
        Ok(tokens) => tokens,
        Err(error) => unsupported_tokens(
            record.identifier.identifier@,
            error.text(),
            &record.source_loc,
        ),
    }) + blank_line_tokens()
}

/// What the first `n` declarations add to the adapters.
pub open spec fn cc_thunks_upto(ir: &IR, n: nat) -> Seq<Tok>
    decreases n,
{
    if n == 0 {
        Seq::empty()
    } else {
        cc_thunks_upto(ir, (n - 1) as nat) + (match ir.items@[n - 1] {
            Item::Func(func) => cc_func_output(&func, ir),
            _ => Seq::empty(),
        })
    }
}

/// What the first `n` declarations add to the assertions.
pub open spec fn cc_layouts_upto(ir: &IR, n: nat) -> Seq<Tok>
    decreases n,
{
    if n == 0 {
        Seq::empty()
    } else {
        cc_layouts_upto(ir, (n - 1) as nat) + (match ir.items@[n - 1] {
            Item::Record(record) => cc_record_output(&record, ir),
            _ => Seq::empty(),
        })
    }
}

/// Whether one of the first `n` declarations is a record.
pub open spec fn has_record_upto(ir: &IR, n: nat) -> bool
    decreases n,
{
    if n == 0 {
        false
    } else {
        has_record_upto(ir, (n - 1) as nat) || ir.items@[n - 1] is Record
    }
}

/// `__HASH_TOKEN__ include < header > __NEWLINE__`
pub open spec fn std_include_tokens(header: Word) -> Seq<Tok> {
    word_tokens(Word::HashToken) + word_tokens(Word::Include) + punct_tokens('<') + word_tokens(
        header,
    ) + punct_tokens('>') + word_tokens(Word::Newline)
}

/// `__HASH_TOKEN__ include "header" __NEWLINE__`
pub open spec fn include_tokens(header: Seq<char>) -> Seq<Tok> {
    word_tokens(Word::HashToken) + word_tokens(Word::Include) + string_tokens(header)
        + word_tokens(Word::Newline)
}

/// The include lines of the first `n` of `headers`.
pub open spec fn includes_upto(headers: Seq<HeaderName>, n: nat) -> Seq<Tok>
    decreases n,
{
    if n == 0 || n > headers.len() {
        Seq::empty()
    } else {
        includes_upto(headers, (n - 1) as nat) + include_tokens(headers[n - 1].name@)
    }
}

/// The header with what the adapters rely on.
pub open spec fn support_header() -> Seq<char> {
    "rs_bindings_from_cc/support/cxx20_backports.h"@
}

/// The adapters of the unit `ir`: the includes, then the adapter of every
/// function that needs one, in source order, then the layout assertions of
/// every record, in source order.
pub open spec fn rs_api_impl_tokens(ir: &IR) -> Seq<Tok> {
    (if has_record_upto(ir, ir.items@.len()) {
        std_include_tokens(Word::Cstddef)
    } else {
        Seq::empty()
    }) + std_include_tokens(Word::Memory) + include_tokens(support_header()) + includes_upto(
        ir.used_headers@,
        ir.used_headers@.len(),
    ) + word_tokens(Word::Newline) + cc_thunks_upto(ir, ir.items@.len()) + blank_line_tokens()
        + cc_layouts_upto(ir, ir.items@.len()) + word_tokens(Word::Newline)
}

/// `__HASH_TOKEN__ include < header > __NEWLINE__`
pub fn std_include(header: Word) -> (ts: TokenStream)
    ensures
        stream_of(ts) == std_include_tokens(header),
{
    let mut out = word(Word::HashToken);
    append(&mut out, word(Word::Include));
    append(&mut out, punct('<'));
    append(&mut out, word(header));
    append(&mut out, punct('>'));
    append(&mut out, word(Word::Newline));
    out
}

/// `__HASH_TOKEN__ include "header" __NEWLINE__`
pub fn header_line(header: &str) -> (ts: TokenStream)
    ensures
        stream_of(ts) == include_tokens(header@),
{
    let mut out = word(Word::HashToken);
    append(&mut out, word(Word::Include));
    append(&mut out, string_literal(header));
    append(&mut out, word(Word::Newline));
    out
}

/// What the function `func` adds to the adapters.
pub fn emit_cc_func(func: &Func, ir: &IR) -> (ts: TokenStream)
    ensures
        stream_of(ts) == cc_func_output(func, ir),
{
    if can_skip_cc_thunk(func) {
        return empty_stream();
    }
    match generate_cc_thunk(func, ir) {
        Ok(tokens) => tokens,
        Err(error) => {
            let name = match cxx_function_name(func, ir) {
                Ok(name) => name,
                Err(_) => func.mangled_name.clone(),
            };
            let message = error.message();
            format_unsupported(name.as_str(), message.as_str(), &func.source_loc)
        },
    }
}

/// What the record `record` adds to the assertions.
pub fn emit_cc_record(record: &Record, ir: &IR) -> (ts: TokenStream)
    ensures
        stream_of(ts) == cc_record_output(record, ir),
{
    let mut out = match cc_struct_layout_assertion(record, ir) {
        Ok(tokens) => tokens,
        Err(error) => {
            let message = error.message();
            format_unsupported(
                record.identifier.identifier.as_str(),
                message.as_str(),
                &record.source_loc,
            )
        },
    };
    append(&mut out, blank_line());
    out
}

/// Emits the boundary adapters of a unit.
///
/// Every function that cannot be called at its own symbol gets its adapter,
/// in source order, and every record its layout assertions; a placeholder
/// stands for each that cannot be made, and the others are emitted all the
/// same.
pub fn generate_rs_api_impl(ir: &IR) -> (ts: TokenStream)
    ensures
        stream_of(ts) == rs_api_impl_tokens(ir),
{
    let mut thunks = empty_stream();
    let mut layouts = empty_stream();
    let mut has_record = false;
    let mut i: usize = 0;
    while i < ir.items.len()
        invariant
            i <= ir.items.len(),
            stream_of(thunks) == cc_thunks_upto(ir, i as nat),
            stream_of(layouts) == cc_layouts_upto(ir, i as nat),
            has_record == has_record_upto(ir, i as nat),
        decreases ir.items.len() - i,
    {
        match &ir.items[i] {
            Item::Func(func) => {
                append(&mut thunks, emit_cc_func(func, ir));
                append(&mut layouts, empty_stream());
            },
            Item::Record(record) => {
                append(&mut thunks, empty_stream());
                append(&mut layouts, emit_cc_record(record, ir));
                has_record = true;
            },
            _ => {
                append(&mut thunks, empty_stream());
                append(&mut layouts, empty_stream());
            },
        }
        i += 1;
    }
    let mut includes = empty_stream();
    let mut j: usize = 0;
    while j < ir.used_headers.len()
        invariant
            j <= ir.used_headers.len(),
            stream_of(includes) == includes_upto(ir.used_headers@, j as nat),
        decreases ir.used_headers.len() - j,
    {
        append(&mut includes, header_line(ir.used_headers[j].name.as_str()));
        j += 1;
    }
    let mut out = if has_record {
        std_include(Word::Cstddef)
    } else {
        empty_stream()
    };
    append(&mut out, std_include(Word::Memory));
    append(&mut out, header_line("rs_bindings_from_cc/support/cxx20_backports.h"));
    append(&mut out, includes);
    append(&mut out, word(Word::Newline));
    append(&mut out, thunks);
    append(&mut out, blank_line());
    append(&mut out, layouts);
    append(&mut out, word(Word::Newline));
    out
}

/// Emission is a function of the unit: two sets of adapters emitted for one
/// unit hold the same token trees and print as the same text.
pub proof fn lemma_adapters_are_deterministic(ir: &IR, first: TokenStream, second: TokenStream)
    requires
        stream_of(first) == rs_api_impl_tokens(ir),
        stream_of(second) == rs_api_impl_tokens(ir),
    ensures
        stream_of(first) == stream_of(second),
        crate::tokens::printed(stream_of(first)) == crate::tokens::printed(stream_of(second)),
{
}

} // verus!
