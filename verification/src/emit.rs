//! The declaration-set emitter: the public surface of a whole unit, with
//! every declaration in source order and an explanation in place of every
//! declaration that gets no binding.

use crate::error::{in_context, tokens_are, with_context, BindingError, ErrorKind, ErrorModel};
use crate::features::RustFeatures;
use crate::ir::{
    Comment, Func, Item, LifetimeName, Record, SourceLoc, TypeAlias, UnqualifiedIdentifier,
    UnsupportedItem, IR,
};
use crate::rs_api::{
    const_assert, const_assert_tokens, format_rs_type, format_rs_type_tokens, generate_record,
    make_ident, make_ident_tokens, mem_query, mem_query_tokens, record_binding,
};
use crate::signature::{func_binding, func_record, generate_func, FunctionId, FunctionIdModel};
use crate::strings::{decimal, decimal_string};
use crate::tokens::{
    append, brace, brace_tokens, bracket, bracket_tokens, duplicate, empty_stream, eq_eq,
    eq_eq_tokens, joint, joint_tokens, paren, paren_tokens, path_sep, path_sep_tokens, punct,
    punct_tokens, stream_of, string_literal, string_tokens, Tok,
};
use crate::words::{word, word_tokens, Word};
use proc_macro2::TokenStream;
use vstd::prelude::*;

verus! {

/// What the formatting of the underlying type of an alias is attempted for.
pub open spec fn alias_context(type_alias: &TypeAlias) -> Seq<char> {
    "Failed to format underlying type for `"@ + type_alias.identifier.identifier@ + "`"@
}

/// The declaration generated for a type alias: `pub type Ident = T ;`
pub open spec fn type_alias_tokens(type_alias: &TypeAlias, ir: &IR) -> Result<Seq<Tok>, ErrorModel> {
    match make_ident_tokens(type_alias.identifier.identifier@) {
        Err(e) => Err(e),
        Ok(ident) => match in_context(
            format_rs_type_tokens(&type_alias.underlying_type.rs_type, ir, Seq::empty()),
            alias_context(type_alias),
        ) {
            Err(e) => Err(e),
            Ok(underlying_type) => Ok(
                word_tokens(Word::Pub) + word_tokens(Word::Type) + ident + punct_tokens('=')
                    + underlying_type + punct_tokens(';'),
            ),
        },
    }
}

/// The declaration generated for a type alias, `pub type Ident = T ;`; an
/// error where its name is no identifier or its underlying type cannot be
/// written.
pub fn generate_type_alias(type_alias: &TypeAlias, ir: &IR) -> (r: Result<
    TokenStream,
    BindingError,
>)
    ensures
        tokens_are(r, type_alias_tokens(type_alias, ir)),
{
    let ident = match make_ident(type_alias.identifier.identifier.as_str()) {
        Err(e) => {
            return Err(e);
        },
        Ok(ident) => ident,
    };
    let no_lifetimes: Vec<LifetimeName> = Vec::new();
    let mut context = String::from_str("Failed to format underlying type for `");
    context.append(type_alias.identifier.identifier.as_str());
    context.append("`");
    match with_context(
        format_rs_type(&type_alias.underlying_type.rs_type, ir, &no_lifetimes),
        context,
    ) {
        Err(e) => Err(e),
        Ok(underlying_type) => {
            let mut out = word(Word::Pub);
            append(&mut out, word(Word::Type));
            append(&mut out, ident);
            append(&mut out, punct('='));
            append(&mut out, underlying_type);
            append(&mut out, punct(';'));
            Ok(out)
        },
    }
}

/// Where a declaration stands, as it is written in a placeholder: the file
/// and line, or a note that it is not known.
pub open spec fn location_text(source_loc: &SourceLoc) -> Seq<char> {
    if source_loc.filename@.len() == 0 {
        "<unknown location>"@
    } else {
        "google3/"@ + source_loc.filename@ + ";l="@ + decimal(source_loc.line as nat)
    }
}

/// The text of the placeholder for a declaration that gets no binding: where
/// it stands, which declaration it is, and why it gets none.
pub open spec fn unsupported_text(name: Seq<char>, message: Seq<char>, source_loc: &SourceLoc) -> Seq<
    char,
> {
    location_text(source_loc) + "\nError while generating bindings for item '"@ + name + "':\n"@
        + message
}

/// A comment in generated source: `__COMMENT__ "text"`
pub open spec fn comment_tokens(text: Seq<char>) -> Seq<Tok> {
    word_tokens(Word::Comment) + string_tokens(text)
}

/// The placeholder for a declaration that gets no binding.
pub open spec fn unsupported_tokens(name: Seq<char>, message: Seq<char>, source_loc: &SourceLoc) -> Seq<
    Tok,
> {
    comment_tokens(unsupported_text(name, message, source_loc))
}

/// A comment in generated source.
pub fn format_comment(text: &str) -> (ts: TokenStream)
    ensures
        stream_of(ts) == comment_tokens(text@),
{
    let mut out = word(Word::Comment);
    append(&mut out, string_literal(text));
    out
}

/// The placeholder for the declaration `name` at `source_loc`, which gets
/// no binding because of `message`.
pub fn format_unsupported(name: &str, message: &str, source_loc: &SourceLoc) -> (ts: TokenStream)
    ensures
        stream_of(ts) == unsupported_tokens(name@, message@, source_loc),
{
    let mut text = if source_loc.filename.as_str().unicode_len() == 0 {
        String::from_str("<unknown location>")
    } else {
        let mut location = String::from_str("google3/");
        location.append(source_loc.filename.as_str());
        location.append(";l=");
        location.append(decimal_string(source_loc.line).as_str());
        location
    };
    text.append("\nError while generating bindings for item '");
    text.append(name);
    text.append("':\n");
    text.append(message);
    format_comment(text.as_str())
}

/// The placeholder for a declaration that is known to get no binding.
pub fn generate_unsupported(item: &UnsupportedItem) -> (ts: TokenStream)
    ensures
        stream_of(ts) == unsupported_tokens(item.name@, item.message@, &item.source_loc),
{
    format_unsupported(item.name.as_str(), item.message.as_str(), &item.source_loc)
}

/// A free-standing comment.
pub fn generate_comment(comment: &Comment) -> (ts: TokenStream)
    ensures
        stream_of(ts) == comment_tokens(comment.text@),
{
    format_comment(comment.text.as_str())
}

/// The error for a special member without a record.
pub open spec fn special_member_error() -> ErrorModel {
    ErrorModel::root(
        ErrorKind::MissingRecord,
        "Special member functions must be associated with a record"@,
    )
}

/// The name of `func` as the source spells it: the name of a free function,
/// `Record::name` of a member, and `Record::~Record` of a special member.
pub open spec fn cxx_name(func: &Func, ir: &IR) -> Result<Seq<char>, ErrorModel> {
    match func_record(func, ir) {
        Err(e) => Err(e),
        Ok(record) => match func.name {
            UnqualifiedIdentifier::Identifier(id) => match record {
                Some(record) => Ok(record.identifier.identifier@ + "::"@ + id.identifier@),
                None => Ok(id.identifier@),
            },
            _ => match record {
                Some(record) => Ok(
                    record.identifier.identifier@ + "::"@ + ("~"@ + record.identifier.identifier@),
                ),
                None => Err(special_member_error()),
            },
        },
    }
}

/// The name of `func` as the source spells it; an error where its record
/// is not in the unit, or a special member has none.
pub fn cxx_function_name(func: &Func, ir: &IR) -> (r: Result<String, BindingError>)
    ensures
        match cxx_name(func, ir) {
            Ok(name) => r matches Ok(text) && text@ == name,
            Err(error) => r matches Err(e) && e@ == error,
        },
{
    let record: Option<&Record> = match &func.member_func_metadata {
        None => None,
        Some(meta) => match meta.find_record(ir) {
            Err(e) => {
                return Err(e);
            },
            Ok(record) => Some(record),
        },
    };
    match &func.name {
        UnqualifiedIdentifier::Identifier(id) => match record {
            Some(record) => {
                let mut name = record.identifier.identifier.clone();
                name.append("::");
                name.append(id.identifier.as_str());
                Ok(name)
            },
            None => Ok(id.identifier.clone()),
        },
        _ => match record {
            Some(record) => {
                let mut func_name = String::from_str("~");
                func_name.append(record.identifier.identifier.as_str());
                let mut name = record.identifier.identifier.clone();
                name.append("::");
                name.append(func_name.as_str());
                Ok(name)
            },
            None => Err(
                BindingError::from_str(
                    ErrorKind::MissingRecord,
                    "Special member functions must be associated with a record",
                ),
            ),
        },
    }
}

/// The name under which a placeholder speaks of `func`: its name as the
/// source spells it, or its linkage name where that cannot be made.
pub open spec fn placeholder_name(func: &Func, ir: &IR) -> Seq<char> {
    match cxx_name(func, ir) {
        Ok(name) => name,
        Err(_) => func.mangled_name@,
    }
}

/// The key of the function generated for the declaration at `i`, `None`
/// where that declaration is no function or lowers to none.
pub open spec fn func_key(ir: &IR, i: int) -> Option<FunctionIdModel> {
    match ir.items@[i] {
        Item::Func(func) => match func_binding(&func, ir) {
            Ok(Some(binding)) => Some(binding.function_id),
            _ => None,
        },
        _ => None,
    }
}

/// Whether the function generated for the declaration at `i` collides with
/// that of another declaration of the unit.
pub open spec fn is_overloaded(ir: &IR, i: int) -> bool {
    func_key(ir, i) is Some && exists|j: int|
        0 <= j < ir.items@.len() && j != i && #[trigger] func_key(ir, j) == func_key(ir, i)
}

/// Why colliding functions get no binding.
pub open spec fn overloaded_message() -> Seq<char> {
    "Cannot generate bindings for overloaded function"@
}

/// What one declaration adds to the public surface: to the declarations, to
/// the adapters, to the assertions, and to the features that the surface
/// needs.
pub struct ItemOutput {
    pub item: Seq<Tok>,
    pub thunk: Seq<Tok>,
    pub has_thunk: bool,
    pub assertion: Seq<Tok>,
    pub features: RustFeatures,
    pub has_record: bool,
}

/// `__NEWLINE__ __NEWLINE__`
pub open spec fn blank_line_tokens() -> Seq<Tok> {
    word_tokens(Word::Newline) + word_tokens(Word::Newline)
}

/// The output of a declaration that adds nothing.
pub open spec fn no_output() -> ItemOutput {
    ItemOutput {
        item: Seq::empty(),
        thunk: Seq::empty(),
        has_thunk: false,
        assertion: Seq::empty(),
        features: RustFeatures::spec_empty(),
        has_record: false,
    }
}

/// The output of a declaration that adds `tokens` to the declarations and
/// nothing else.
pub open spec fn item_output_of(tokens: Seq<Tok>) -> ItemOutput {
    ItemOutput {
        item: tokens + blank_line_tokens(),
        thunk: Seq::empty(),
        has_thunk: false,
        assertion: Seq::empty(),
        features: RustFeatures::spec_empty(),
        has_record: false,
    }
}

/// What a function adds: its declaration and its adapter; a placeholder in
/// place of both where it collides with another function or cannot be
/// lowered; nothing where it gets no binding.
pub open spec fn func_output(func: &Func, ir: &IR, overloaded: bool) -> ItemOutput {
    match func_binding(func, ir) {
        Ok(None) => no_output(),
        Ok(Some(binding)) => if overloaded {
            item_output_of(
                unsupported_tokens(
                    placeholder_name(func, ir),
                    overloaded_message(),
                    &func.source_loc,
                ),
            )
        } else {
            ItemOutput {
                item: binding.api_func.tokens + blank_line_tokens(),
                thunk: binding.thunk.tokens,
                has_thunk: true,
                assertion: Seq::empty(),
                features: binding.api_func.features.spec_union(binding.thunk.features),
                has_record: false,
            }
        },
        Err(error) => item_output_of(
            unsupported_tokens(placeholder_name(func, ir), error.text(), &func.source_loc),
        ),
    }
}

/// What a record adds: its type and the assertions on its layout; a
/// placeholder where they cannot be made; nothing for a record of another
/// unit.
pub open spec fn record_output(record: &Record, ir: &IR) -> ItemOutput {
    if !ir.spec_is_bound_here(record.owning_target) {
        no_output()
    } else {
        match record_binding(record, ir) {
            Ok(binding) => ItemOutput {
                item: binding.0.tokens + blank_line_tokens(),
                thunk: Seq::empty(),
                has_thunk: false,
                assertion: binding.1.tokens + blank_line_tokens(),
                features: binding.0.features.spec_union(binding.1.features),
                has_record: true,
            },
            Err(error) => item_output_of(
                unsupported_tokens(
                    record.identifier.identifier@,
                    error.text(),
                    &record.source_loc,
                ),
            ),
        }
    }
}

/// What a type alias adds: its declaration; a placeholder where it cannot be
/// made; nothing for an alias of another unit.
pub open spec fn alias_output(type_alias: &TypeAlias, ir: &IR) -> ItemOutput {
    if !ir.spec_is_bound_here(type_alias.owning_target) {
        no_output()
    } else {
        match type_alias_tokens(type_alias, ir) {
            Ok(tokens) => item_output_of(tokens),
            Err(error) => item_output_of(
                unsupported_tokens(
                    type_alias.identifier.identifier@,
                    error.text(),
                    &type_alias.source_loc,
                ),
            ),
        }
    }
}

/// What the declaration at `i` adds to the public surface.
pub open spec fn item_output(ir: &IR, i: int) -> ItemOutput {
    match ir.items@[i] {
        Item::Func(func) => func_output(&func, ir, is_overloaded(ir, i)),
        Item::Record(record) => record_output(&record, ir),
        Item::TypeAlias(type_alias) => alias_output(&type_alias, ir),
        Item::UnsupportedItem(item) => item_output_of(
            unsupported_tokens(item.name@, item.message@, &item.source_loc),
        ),
        Item::Comment(comment) => item_output_of(comment_tokens(comment.text@)),
        _ => no_output(),
    }
}

/// `& i32`
pub open spec fn i32_ref_tokens() -> Seq<Tok> {
    punct_tokens('&') + word_tokens(Word::I32)
}

/// The assertion that an optional reference is as large as a reference.
pub open spec fn option_size_assertion_tokens() -> Seq<Tok> {
    const_assert_tokens(
        mem_query_tokens(
            Word::SizeOf,
            word_tokens(Word::OptionType) + punct_tokens('<') + i32_ref_tokens() + punct_tokens(
                '>',
            ),
        ) + eq_eq_tokens() + mem_query_tokens(Word::SizeOf, i32_ref_tokens()),
    )
}

/// What the first `n` declarations of the unit add to the public surface,
/// together with what every surface holds.
pub open spec fn emitted_upto(ir: &IR, n: nat) -> ItemOutput
    decreases n,
{
    if n == 0 {
        ItemOutput {
            item: Seq::empty(),
            thunk: Seq::empty(),
            has_thunk: false,
            assertion: option_size_assertion_tokens() + blank_line_tokens(),
            features: RustFeatures {
                arbitrary_self_types: false,
                const_ptr_offset_from: false,
                custom_inner_attributes: true,
                negative_impls: false,
            },
            has_record: false,
        }
    } else {
        combined_output(emitted_upto(ir, (n - 1) as nat), item_output(ir, n - 1))
    }
}

/// `# ! [ name ( inner ) ]`
pub open spec fn inner_attribute_tokens(name: Word, inner: Seq<Tok>) -> Seq<Tok> {
    joint_tokens('#') + punct_tokens('!') + bracket_tokens(
        word_tokens(name) + paren_tokens(inner),
    )
}

/// `# ! [ feature ( a , b ) ]`, and nothing where no feature is needed.
pub open spec fn feature_attribute_tokens(features: RustFeatures) -> Seq<Tok> {
    if features.spec_is_empty() {
        Seq::empty()
    } else {
        inner_attribute_tokens(Word::Feature, features.list_tokens())
    }
}

/// `use memoffset_unstable_const :: offset_of ;` where a record is bound;
/// nothing otherwise.
pub open spec fn imports_tokens(has_record: bool) -> Seq<Tok> {
    if has_record {
        word_tokens(Word::Use) + word_tokens(Word::MemoffsetUnstableConst) + path_sep_tokens()
            + word_tokens(Word::OffsetOf) + punct_tokens(';')
    } else {
        Seq::empty()
    }
}

/// The module of the adapters,
/// `mod detail { # [ allow ( unused_imports ) ] use super :: * ; extern "C" { thunks } }`,
/// and nothing where no function has an adapter.
pub open spec fn mod_detail_tokens(has_thunk: bool, thunks: Seq<Tok>) -> Seq<Tok> {
    if !has_thunk {
        Seq::empty()
    } else {
        word_tokens(Word::Mod) + word_tokens(Word::Detail) + brace_tokens(
            punct_tokens('#') + bracket_tokens(
                word_tokens(Word::Allow) + paren_tokens(word_tokens(Word::UnusedImports)),
            ) + word_tokens(Word::Use) + word_tokens(Word::Super) + path_sep_tokens()
                + punct_tokens('*') + punct_tokens(';') + word_tokens(Word::Extern)
                + string_tokens("C"@) + brace_tokens(thunks),
        )
    }
}

/// What stands in the public surface before the declarations: the features,
/// the lints that are allowed, and the imports.
pub open spec fn preamble_tokens(emitted: ItemOutput) -> Seq<Tok> {
    feature_attribute_tokens(emitted.features) + word_tokens(Word::Newline)
        + inner_attribute_tokens(Word::Allow, word_tokens(Word::NonCamelCaseTypes))
        + word_tokens(Word::Newline) + inner_attribute_tokens(
        Word::Allow,
        word_tokens(Word::NonSnakeCase),
    ) + blank_line_tokens() + imports_tokens(emitted.has_record) + blank_line_tokens()
}

/// The public surface made of what the declarations add: the preamble, the
/// declarations in source order, the module of the adapters, and the
/// assertions.
pub open spec fn surface_tokens(emitted: ItemOutput) -> Seq<Tok> {
    preamble_tokens(emitted) + emitted.item + mod_detail_tokens(
        emitted.has_thunk,
        emitted.thunk,
    ) + blank_line_tokens() + emitted.assertion
}

/// The public surface of the unit `ir`.
pub open spec fn rs_api_tokens(ir: &IR) -> Seq<Tok> {
    surface_tokens(emitted_upto(ir, ir.items@.len()))
}

/// What one declaration adds to the public surface, as streams.
pub struct ItemStreams {
    pub item: TokenStream,
    pub thunk: TokenStream,
    pub has_thunk: bool,
    pub assertion: TokenStream,
    pub features: RustFeatures,
    pub has_record: bool,
}

impl View for ItemStreams {
    type V = ItemOutput;

    open spec fn view(&self) -> ItemOutput {
        ItemOutput {
            item: stream_of(self.item),
            thunk: stream_of(self.thunk),
            has_thunk: self.has_thunk,
            assertion: stream_of(self.assertion),
            features: self.features,
            has_record: self.has_record,
        }
    }
}

/// `__NEWLINE__ __NEWLINE__`
pub fn blank_line() -> (ts: TokenStream)
    ensures
        stream_of(ts) == blank_line_tokens(),
{
    let mut out = word(Word::Newline);
    append(&mut out, word(Word::Newline));
    out
}

fn no_streams() -> (out: ItemStreams)
    ensures
        out@ == no_output(),
{
    ItemStreams {
        item: empty_stream(),
        thunk: empty_stream(),
        has_thunk: false,
        assertion: empty_stream(),
        features: RustFeatures::empty(),
        has_record: false,
    }
}

fn item_streams_of(tokens: TokenStream) -> (out: ItemStreams)
    ensures
        out@ == item_output_of(stream_of(tokens)),
{
    let mut item = tokens;
    append(&mut item, blank_line());
    ItemStreams {
        item,
        thunk: empty_stream(),
        has_thunk: false,
        assertion: empty_stream(),
        features: RustFeatures::empty(),
        has_record: false,
    }
}

fn placeholder_name_of(func: &Func, ir: &IR) -> (name: String)
    ensures
        name@ == placeholder_name(func, ir),
{
    match cxx_function_name(func, ir) {
        Ok(name) => name,
        Err(_) => func.mangled_name.clone(),
    }
}

/// What the function `func` adds to the public surface, given whether it
/// collides with another function of the unit.
pub fn emit_func(func: &Func, ir: &IR, overloaded: bool) -> (out: ItemStreams)
    ensures
        out@ == func_output(func, ir, overloaded),
{
    match generate_func(func, ir) {
        Ok(None) => no_streams(),
        Ok(Some((api_func, thunk, _function_id))) => {
            if overloaded {
                let name = placeholder_name_of(func, ir);
                item_streams_of(
                    format_unsupported(
                        name.as_str(),
                        "Cannot generate bindings for overloaded function",
                        &func.source_loc,
                    ),
                )
            } else {
                let mut item = api_func.tokens;
                append(&mut item, blank_line());
                ItemStreams {
                    item,
                    thunk: thunk.tokens,
                    has_thunk: true,
                    assertion: empty_stream(),
                    features: api_func.features.union(thunk.features),
                    has_record: false,
                }
            }
        },
        Err(error) => {
            let name = placeholder_name_of(func, ir);
            let message = error.message();
            item_streams_of(format_unsupported(name.as_str(), message.as_str(), &func.source_loc))
        },
    }
}

/// What the record `record` adds to the public surface.
pub fn emit_record(record: &Record, ir: &IR) -> (out: ItemStreams)
    ensures
        out@ == record_output(record, ir),
{
    if !ir.is_bound_here(&record.owning_target) {
        return no_streams();
    }
    match generate_record(record, ir) {
        Ok((snippet, assertions)) => {
            let mut item = snippet.tokens;
            append(&mut item, blank_line());
            let mut assertion = assertions.tokens;
            append(&mut assertion, blank_line());
            ItemStreams {
                item,
                thunk: empty_stream(),
                has_thunk: false,
                assertion,
                features: snippet.features.union(assertions.features),
                has_record: true,
            }
        },
        Err(error) => {
            let message = error.message();
            item_streams_of(
                format_unsupported(
                    record.identifier.identifier.as_str(),
                    message.as_str(),
                    &record.source_loc,
                ),
            )
        },
    }
}

/// What the type alias `type_alias` adds to the public surface.
pub fn emit_alias(type_alias: &TypeAlias, ir: &IR) -> (out: ItemStreams)
    ensures
        out@ == alias_output(type_alias, ir),
{
    if !ir.is_bound_here(&type_alias.owning_target) {
        return no_streams();
    }
    match generate_type_alias(type_alias, ir) {
        Ok(tokens) => item_streams_of(tokens),
        Err(error) => {
            let message = error.message();
            item_streams_of(
                format_unsupported(
                    type_alias.identifier.identifier.as_str(),
                    message.as_str(),
                    &type_alias.source_loc,
                ),
            )
        },
    }
}

/// The key that an optional `FunctionId` stands for.
pub open spec fn opt_key(key: Option<FunctionId>) -> Option<FunctionIdModel> {
    match key {
        Some(id) => Some(id@),
        None => None,
    }
}

/// The key of the function generated for each declaration of the unit, in
/// order; `None` for a declaration that is no function or lowers to none.
pub fn function_keys(ir: &IR) -> (keys: Vec<Option<FunctionId>>)
    ensures
        keys@.len() == ir.items@.len(),
        forall|i: int| 0 <= i < keys@.len() ==> opt_key(#[trigger] keys@[i]) == func_key(ir, i),
{
    let mut keys: Vec<Option<FunctionId>> = Vec::new();
    let mut i: usize = 0;
    while i < ir.items.len()
        invariant
            i <= ir.items.len(),
            keys@.len() == i,
            forall|k: int| 0 <= k < i ==> opt_key(#[trigger] keys@[k]) == func_key(ir, k),
        decreases ir.items.len() - i,
    {
        let key = match &ir.items[i] {
            Item::Func(func) => match generate_func(func, ir) {
                Ok(Some((_api_func, _thunk, function_id))) => Some(function_id),
                _ => None,
            },
            _ => None,
        };
        keys.push(key);
        i += 1;
    }
    keys
}

/// Whether the function generated for the declaration at `i` collides with
/// that of another declaration of the unit.
fn collides(ir: &IR, keys: &Vec<Option<FunctionId>>, i: usize) -> (overloaded: bool)
    requires
        i < keys@.len(),
        keys@.len() == ir.items@.len(),
        forall|k: int| 0 <= k < keys@.len() ==> opt_key(#[trigger] keys@[k]) == func_key(ir, k),
    ensures
        overloaded == is_overloaded(ir, i as int),
{
    match &keys[i] {
        None => false,
        Some(key) => {
            let mut j: usize = 0;
            while j < keys.len()
                invariant
                    j <= keys.len(),
                    i < keys@.len(),
                    keys@.len() == ir.items@.len(),
                    keys@[i as int] == Some(*key),
                    forall|k: int|
                        0 <= k < keys@.len() ==> opt_key(#[trigger] keys@[k]) == func_key(ir, k),
                    forall|k: int|
                        0 <= k < j && k != i ==> #[trigger] func_key(ir, k) != func_key(
                            ir,
                            i as int,
                        ),
                decreases keys.len() - j,
            {
                if j != i {
                    match &keys[j] {
                        Some(other) => {
                            if key.same_as(other) {
                                assert(func_key(ir, j as int) == func_key(ir, i as int));
                                return true;
                            }
                        },
                        None => {},
                    }
                }
                j += 1;
            }
            false
        },
    }
}

/// What the declaration at `i` adds to the public surface.
fn emit_item(ir: &IR, keys: &Vec<Option<FunctionId>>, i: usize) -> (out: ItemStreams)
    requires
        i < ir.items@.len(),
        keys@.len() == ir.items@.len(),
        forall|k: int| 0 <= k < keys@.len() ==> opt_key(#[trigger] keys@[k]) == func_key(ir, k),
    ensures
        out@ == item_output(ir, i as int),
{
    match &ir.items[i] {
        Item::Func(func) => {
            let overloaded = collides(ir, keys, i);
            emit_func(func, ir, overloaded)
        },
        Item::Record(record) => emit_record(record, ir),
        Item::TypeAlias(type_alias) => emit_alias(type_alias, ir),
        Item::UnsupportedItem(item) => item_streams_of(generate_unsupported(item)),
        Item::Comment(comment) => item_streams_of(generate_comment(comment)),
        _ => no_streams(),
    }
}

/// `# ! [ name ( inner ) ]`
pub fn inner_attribute(name: Word, inner: TokenStream) -> (ts: TokenStream)
    ensures
        stream_of(ts) == inner_attribute_tokens(name, stream_of(inner)),
{
    let mut attr = word(name);
    append(&mut attr, paren(inner));
    let mut out = joint('#');
    append(&mut out, punct('!'));
    append(&mut out, bracket(attr));
    out
}

/// The assertion that an optional reference is as large as a reference.
pub fn option_size_assertion() -> (ts: TokenStream)
    ensures
        stream_of(ts) == option_size_assertion_tokens(),
{
    let mut reference = punct('&');
    append(&mut reference, word(Word::I32));
    let mut option = word(Word::OptionType);
    append(&mut option, punct('<'));
    append(&mut option, duplicate(&reference));
    append(&mut option, punct('>'));
    let mut condition = mem_query(Word::SizeOf, &option);
    append(&mut condition, eq_eq());
    append(&mut condition, mem_query(Word::SizeOf, &reference));
    const_assert(condition)
}

/// The module of the adapters; nothing where no function has one.
pub fn mod_detail(has_thunk: bool, thunks: TokenStream) -> (ts: TokenStream)
    ensures
        stream_of(ts) == mod_detail_tokens(has_thunk, stream_of(thunks)),
{
    if !has_thunk {
        return empty_stream();
    }
    let mut allow = word(Word::Allow);
    append(&mut allow, paren(word(Word::UnusedImports)));
    let mut body = punct('#');
    append(&mut body, bracket(allow));
    append(&mut body, word(Word::Use));
    append(&mut body, word(Word::Super));
    append(&mut body, path_sep());
    append(&mut body, punct('*'));
    append(&mut body, punct(';'));
    append(&mut body, word(Word::Extern));
    append(&mut body, string_literal("C"));
    append(&mut body, brace(thunks));
    let mut out = word(Word::Mod);
    append(&mut out, word(Word::Detail));
    append(&mut out, brace(body));
    out
}

/// What all declarations of the unit add to the public surface, together
/// with what every surface holds.
pub fn emit_items(ir: &IR) -> (emitted: ItemStreams)
    ensures
        emitted@ == emitted_upto(ir, ir.items@.len()),
{
    let keys = function_keys(ir);
    let mut assertions = option_size_assertion();
    append(&mut assertions, blank_line());
    let mut emitted = ItemStreams {
        item: empty_stream(),
        thunk: empty_stream(),
        has_thunk: false,
        assertion: assertions,
        features: RustFeatures {
            arbitrary_self_types: false,
            const_ptr_offset_from: false,
            custom_inner_attributes: true,
            negative_impls: false,
        },
        has_record: false,
    };
    let mut i: usize = 0;
    while i < ir.items.len()
        invariant
            i <= ir.items.len(),
            keys@.len() == ir.items@.len(),
            forall|k: int|
                0 <= k < keys@.len() ==> opt_key(#[trigger] keys@[k]) == func_key(ir, k),
            emitted@ == emitted_upto(ir, i as nat),
        decreases ir.items.len() - i,
    {
        let added = emit_item(ir, &keys, i);
        emitted = add_output(emitted, added);
        i += 1;
    }
    emitted
}

/// What `before` and `added` add together.
pub open spec fn combined_output(before: ItemOutput, added: ItemOutput) -> ItemOutput {
    ItemOutput {
        item: before.item + added.item,
        thunk: before.thunk + added.thunk,
        has_thunk: before.has_thunk || added.has_thunk,
        assertion: before.assertion + added.assertion,
        features: before.features.spec_union(added.features),
        has_record: before.has_record || added.has_record,
    }
}

fn add_output(before: ItemStreams, added: ItemStreams) -> (out: ItemStreams)
    ensures
        out@ == combined_output(before@, added@),
{
    let mut item = before.item;
    append(&mut item, added.item);
    let mut thunk = before.thunk;
    append(&mut thunk, added.thunk);
    let mut assertion = before.assertion;
    append(&mut assertion, added.assertion);
    ItemStreams {
        item,
        thunk,
        has_thunk: before.has_thunk || added.has_thunk,
        assertion,
        features: before.features.union(added.features),
        has_record: before.has_record || added.has_record,
    }
}

/// The public surface made of what the declarations add.
pub fn assemble_surface(emitted: ItemStreams) -> (ts: TokenStream)
    ensures
        stream_of(ts) == surface_tokens(emitted@),
{
    let mut out = if emitted.features.is_empty() {
        empty_stream()
    } else {
        inner_attribute(Word::Feature, emitted.features.list())
    };
    append(&mut out, word(Word::Newline));
    append(&mut out, inner_attribute(Word::Allow, word(Word::NonCamelCaseTypes)));
    append(&mut out, word(Word::Newline));
    append(&mut out, inner_attribute(Word::Allow, word(Word::NonSnakeCase)));
    append(&mut out, blank_line());
    if emitted.has_record {
        let mut imports = word(Word::Use);
        append(&mut imports, word(Word::MemoffsetUnstableConst));
        append(&mut imports, path_sep());
        append(&mut imports, word(Word::OffsetOf));
        append(&mut imports, punct(';'));
        append(&mut out, imports);
    } else {
        append(&mut out, empty_stream());
    }
    append(&mut out, blank_line());
    append(&mut out, emitted.item);
    append(&mut out, mod_detail(emitted.has_thunk, emitted.thunk));
    append(&mut out, blank_line());
    append(&mut out, emitted.assertion);
    out
}

/// Emits the public surface of a unit.
///
/// Every declaration of the current unit and of the standard library adds
/// its binding in source order; two functions that lower to the same
/// generated function are both replaced by a placeholder, as is every
/// declaration that cannot be lowered; declarations of other units add
/// nothing. No declaration keeps the others from being emitted.
pub fn generate_rs_api(ir: &IR) -> (ts: TokenStream)
    ensures
        stream_of(ts) == rs_api_tokens(ir),
{
    assemble_surface(emit_items(ir))
}

/// Emission is a function of the unit: two surfaces emitted for one unit
/// hold the same token trees and print as the same text.
pub proof fn lemma_emission_is_deterministic(ir: &IR, first: TokenStream, second: TokenStream)
    requires
        stream_of(first) == rs_api_tokens(ir),
        stream_of(second) == rs_api_tokens(ir),
    ensures
        stream_of(first) == stream_of(second),
        crate::tokens::printed(stream_of(first)) == crate::tokens::printed(stream_of(second)),
{
}

/// Where the output of the declaration at `i` starts among the declarations
/// of the public surface.
pub open spec fn item_offset(ir: &IR, i: nat) -> nat {
    emitted_upto(ir, i).item.len()
}

/// What the first `n` declarations add stays where it is when more
/// declarations follow.
pub proof fn lemma_items_prefix(ir: &IR, n: nat, m: nat)
    requires
        n <= m,
    ensures
        item_offset(ir, n) <= item_offset(ir, m),
        emitted_upto(ir, m).item.subrange(0, item_offset(ir, n) as int) == emitted_upto(
            ir,
            n,
        ).item,
    decreases m,
{
    if n < m {
        lemma_items_prefix(ir, n, (m - 1) as nat);
        let before = emitted_upto(ir, (m - 1) as nat).item;
        let all = emitted_upto(ir, m).item;
        assert(all == before + item_output(ir, m - 1).item);
        assert(all.subrange(0, item_offset(ir, n) as int) =~= before.subrange(
            0,
            item_offset(ir, n) as int,
        ));
    } else {
        assert(emitted_upto(ir, m).item.subrange(0, item_offset(ir, n) as int) =~= emitted_upto(
            ir,
            n,
        ).item);
    }
}

/// The output of the declaration at `i` stands among the declarations of
/// the public surface, from `item_offset(ir, i)` on.
pub proof fn lemma_item_is_emitted(ir: &IR, i: nat)
    requires
        i < ir.items@.len(),
    ensures
        item_offset(ir, i) + item_output(ir, i as int).item.len() == item_offset(ir, i + 1),
        item_offset(ir, i + 1) <= item_offset(ir, ir.items@.len()),
        emitted_upto(ir, ir.items@.len()).item.subrange(
            item_offset(ir, i) as int,
            item_offset(ir, i + 1) as int,
        ) == item_output(ir, i as int).item,
{
    let all = emitted_upto(ir, ir.items@.len()).item;
    let upto = emitted_upto(ir, i + 1).item;
    lemma_items_prefix(ir, i + 1, ir.items@.len());
    assert(upto == emitted_upto(ir, i).item + item_output(ir, i as int).item);
    assert(all.subrange(item_offset(ir, i) as int, item_offset(ir, i + 1) as int)
        =~= all.subrange(0, item_offset(ir, i + 1) as int).subrange(
        item_offset(ir, i) as int,
        item_offset(ir, i + 1) as int,
    ));
    assert(upto.subrange(item_offset(ir, i) as int, item_offset(ir, i + 1) as int)
        =~= item_output(ir, i as int).item);
}

/// Where the output of the declaration at `i` starts in the public surface.
pub open spec fn surface_offset(ir: &IR, i: nat) -> nat {
    preamble_tokens(emitted_upto(ir, ir.items@.len())).len() + item_offset(ir, i)
}

/// The output of the declaration at `i` stands whole in the public surface,
/// from `surface_offset(ir, i)` up to where the next declaration starts.
pub proof fn lemma_item_stands_in_the_surface(ir: &IR, i: nat)
    requires
        i < ir.items@.len(),
    ensures
        surface_offset(ir, i) + item_output(ir, i as int).item.len() == surface_offset(ir, i + 1),
        surface_offset(ir, i + 1) <= rs_api_tokens(ir).len(),
        rs_api_tokens(ir).subrange(surface_offset(ir, i) as int, surface_offset(ir, i + 1) as int)
            == item_output(ir, i as int).item,
{
    let emitted = emitted_upto(ir, ir.items@.len());
    let start = preamble_tokens(emitted).len();
    lemma_item_is_emitted(ir, i);
    assert(rs_api_tokens(ir).subrange(start as int, (start + emitted.item.len()) as int)
        =~= emitted.item);
    assert(rs_api_tokens(ir).subrange(
        surface_offset(ir, i) as int,
        surface_offset(ir, i + 1) as int,
    ) =~= emitted.item.subrange(item_offset(ir, i) as int, item_offset(ir, i + 1) as int));
}

/// Source order is kept: each of two declarations stands whole in the public
/// surface, and the output of the earlier one ends before the output of the
/// later one starts.
pub proof fn lemma_order_is_preserved(ir: &IR, i: nat, j: nat)
    requires
        i < j < ir.items@.len(),
    ensures
        surface_offset(ir, i) + item_output(ir, i as int).item.len() <= surface_offset(ir, j),
        rs_api_tokens(ir).subrange(surface_offset(ir, i) as int, surface_offset(ir, i + 1) as int)
            == item_output(ir, i as int).item,
        rs_api_tokens(ir).subrange(surface_offset(ir, j) as int, surface_offset(ir, j + 1) as int)
            == item_output(ir, j as int).item,
{
    lemma_item_stands_in_the_surface(ir, i);
    lemma_item_stands_in_the_surface(ir, j);
    lemma_items_prefix(ir, i + 1, j);
}

/// Collisions are symmetric: where two declarations lower to the same
/// generated function, each of the two is replaced by a placeholder that
/// says so, whichever comes first.
pub proof fn lemma_overloads_are_both_unsupported(ir: &IR, i: int, j: int)
    requires
        0 <= i < ir.items@.len(),
        0 <= j < ir.items@.len(),
        i != j,
        func_key(ir, i) is Some,
        func_key(ir, i) == func_key(ir, j),
    ensures
        is_overloaded(ir, i),
        is_overloaded(ir, j),
        ir.items@[i] matches Item::Func(func) && item_output(ir, i) == item_output_of(
            unsupported_tokens(placeholder_name(&func, ir), overloaded_message(), &func.source_loc),
        ),
        ir.items@[j] matches Item::Func(func) && item_output(ir, j) == item_output_of(
            unsupported_tokens(placeholder_name(&func, ir), overloaded_message(), &func.source_loc),
        ),
{
    assert(func_key(ir, j) == func_key(ir, i));
    assert(func_key(ir, i) == func_key(ir, j));
}

/// A function whose key no other declaration has is emitted as it was
/// lowered.
pub proof fn lemma_unique_function_is_emitted(ir: &IR, i: int)
    requires
        0 <= i < ir.items@.len(),
        func_key(ir, i) is Some,
        forall|j: int| 0 <= j < ir.items@.len() && j != i ==> func_key(ir, j) != func_key(ir, i),
    ensures
        !is_overloaded(ir, i),
        ir.items@[i] matches Item::Func(func) && func_binding(&func, ir) matches Ok(Some(binding))
            && item_output(ir, i).item == binding.api_func.tokens + blank_line_tokens()
            && item_output(ir, i).thunk == binding.thunk.tokens,
{
}

} // verus!
