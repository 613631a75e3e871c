//! Signature lowering: from one callable declaration to the function that
//! exposes it, the declaration of its boundary adapter, and the key by which
//! colliding declarations are found.

use crate::error::{in_context, tokens_are, with_context, BindingError, ErrorKind, ErrorModel};
use crate::ir::{Func, FuncParam, Record, UnqualifiedIdentifier, IR};
use crate::lifetimes::{check_elision, elision_error, elision_is_valid};
use crate::rs_api::{
    doc_comment_tokens, format_generic_params, format_rs_type, format_rs_type_tokens,
    generate_doc_comment, generic_params_tokens, ident_error, make_ident, make_ident_tokens,
    maybe_uninit_path, maybe_uninit_path_tokens, resolve, streams_are, thunk_ident, thunk_name,
    RsTypeKind,
};
use crate::rs_snippet::{
    should_derive_clone, should_implement_drop, spec_should_derive_clone,
    spec_should_implement_drop, RsSnippet, SnippetModel,
};
use crate::tokens::{
    append, arrow, arrow_tokens, brace, brace_tokens, bracket, bracket_tokens, collect_upto,
    comma_separated, concat_tokens, duplicate, empty_stream, is_ident, joint, lemma_collect_error,
    lemma_collect_ok, lifetime_tokens, paren, paren_tokens, path_sep, path_sep_tokens, printed,
    punct, punct_tokens, separated_tokens, stream_of, stream_text, streams_of, string_literal,
    string_tokens, Tok,
};
use crate::words::{word, word_text, word_tokens, Word};
use proc_macro2::TokenStream;
use vstd::prelude::*;

verus! {

/// Whether the function can be called at its own symbol, without a boundary
/// adapter on the other side: an inline function may have no symbol, and a
/// virtual method must be dispatched, so both need the adapter.
pub open spec fn spec_can_skip_cc_thunk(func: &Func) -> bool {
    &&& !func.is_inline
    &&& !(func.member_func_metadata matches Some(meta) && meta.instance_method_metadata matches Some(
        instance,
    ) && instance.is_virtual)
}

/// Whether the function can be called at its own symbol, without a boundary
/// adapter on the other side.
pub fn can_skip_cc_thunk(func: &Func) -> (b: bool)
    ensures
        b == spec_can_skip_cc_thunk(func),
{
    if func.is_inline {
        return false;
    }
    match &func.member_func_metadata {
        Some(meta) => match &meta.instance_method_metadata {
            Some(instance) => {
                if instance.is_virtual {
                    return false;
                }
            },
            None => {},
        },
        None => {},
    }
    true
}

/// Identifies a generated function: the type that a trait is implemented
/// for, where the function is one of a trait, and the path of the function.
#[derive(Debug)]
pub struct FunctionId {
    pub self_type: Option<String>,
    pub function_path: String,
}

/// The mathematical model of a `FunctionId`.
pub struct FunctionIdModel {
    pub self_type: Option<Seq<char>>,
    pub function_path: Seq<char>,
}

impl View for FunctionId {
    type V = FunctionIdModel;

    open spec fn view(&self) -> FunctionIdModel {
        FunctionIdModel {
            self_type: match self.self_type {
                Some(name) => Some(name@),
                None => None,
            },
            function_path: self.function_path@,
        }
    }
}

impl FunctionId {
    /// Whether two keys identify the same generated function.
    pub fn same_as(&self, other: &FunctionId) -> (same: bool)
        ensures
            same == (self@ == other@),
    {
        let same_type = match (&self.self_type, &other.self_type) {
            (Some(a), Some(b)) => *a == *b,
            (None, None) => true,
            _ => false,
        };
        same_type && self.function_path == other.function_path
    }
}

/// What the formatting of the return type is attempted for.
pub open spec fn return_context(func: &Func) -> Seq<char> {
    "Failed to format return type for `"@ + func.mangled_name@ + "`"@
}

/// What the formatting of a parameter's type is attempted for.
pub open spec fn param_context(func: &Func, param: &FuncParam) -> Seq<char> {
    "Failed to format type for parameter `"@ + param.identifier.identifier@ + "` on `"@
        + func.mangled_name@ + "`"@
}

/// What the formatting of the receiver is attempted for.
pub open spec fn self_context(param: &FuncParam) -> Seq<char> {
    "Failed to format as `self` param: `"@ + param.identifier.identifier@ + "`"@
}

/// What the formatting of the `__this` parameter of an adapter is attempted
/// for.
pub open spec fn this_context(param: &FuncParam) -> Seq<char> {
    "Failed to format `__this` param for a thunk: `"@ + param.identifier.identifier@ + "`"@
}

/// `-> T` for the return type `T` of `func`; nothing for the unit type.
pub open spec fn return_fragment(func: &Func, ir: &IR) -> Result<Seq<Tok>, ErrorModel> {
    if func.return_type.rs_type.spec_is_unit_type() {
        Ok(Seq::empty())
    } else {
        match in_context(
            format_rs_type_tokens(&func.return_type.rs_type, ir, func.lifetime_params@),
            return_context(func),
        ) {
            Err(e) => Err(e),
            Ok(return_type) => Ok(arrow_tokens() + return_type),
        }
    }
}

/// The identifier of the parameter of `func` at `i`.
pub open spec fn param_ident(func: &Func, i: int) -> Result<Seq<Tok>, ErrorModel> {
    make_ident_tokens(func.params@[i].identifier.identifier@)
}

/// The type of the parameter of `func` at `i`.
pub open spec fn param_type(func: &Func, ir: &IR, i: int) -> Result<Seq<Tok>, ErrorModel> {
    in_context(
        format_rs_type_tokens(&func.params@[i].type_.rs_type, ir, func.lifetime_params@),
        param_context(func, &func.params@[i]),
    )
}

/// The lifetime parameter of `func` at `i`, as it is written.
pub open spec fn lifetime_param(func: &Func, i: int) -> Result<Seq<Tok>, ErrorModel> {
    if is_ident(func.lifetime_params@[i].name@) {
        Ok(lifetime_tokens(func.lifetime_params@[i].name@))
    } else {
        Err(ident_error(func.lifetime_params@[i].name@))
    }
}

/// The record that `func` is a member of; `None` for a free function.
pub open spec fn func_record(func: &Func, ir: &IR) -> Result<Option<Record>, ErrorModel> {
    match func.member_func_metadata {
        None => Ok(None),
        Some(meta) => match meta.spec_find_record(ir) {
            Err(e) => Err(e),
            Ok(record) => Ok(Some(record)),
        },
    }
}

/// The pieces of a function that every lowering needs.
pub struct FuncParts {
    pub thunk_ident: Seq<Tok>,
    pub doc_comment: Seq<Tok>,
    pub return_fragment: Seq<Tok>,
    pub param_idents: Seq<Seq<Tok>>,
    pub param_types: Seq<Seq<Tok>>,
    pub generic_params: Seq<Tok>,
    pub record: Option<Record>,
}

/// The pieces of `func`, or the first error in making them, in this order:
/// the name of the adapter, the return type, the names of the parameters,
/// their types, the lifetime parameters, the record.
pub open spec fn func_parts(func: &Func, ir: &IR) -> Result<FuncParts, ErrorModel> {
    match make_ident_tokens(thunk_name(func.mangled_name@)) {
        Err(e) => Err(e),
        Ok(thunk_ident) => match return_fragment(func, ir) {
            Err(e) => Err(e),
            Ok(return_fragment) => match collect_upto(
                |i: int| param_ident(func, i),
                func.params@.len(),
            ) {
                Err(e) => Err(e),
                Ok(param_idents) => match collect_upto(
                    |i: int| param_type(func, ir, i),
                    func.params@.len(),
                ) {
                    Err(e) => Err(e),
                    Ok(param_types) => match collect_upto(
                        |i: int| lifetime_param(func, i),
                        func.lifetime_params@.len(),
                    ) {
                        Err(e) => Err(e),
                        Ok(lifetimes) => match func_record(func, ir) {
                            Err(e) => Err(e),
                            Ok(record) => Ok(
                                FuncParts {
                                    thunk_ident,
                                    doc_comment: doc_comment_tokens(func.doc_comment),
                                    return_fragment,
                                    param_idents,
                                    param_types,
                                    generic_params: generic_params_tokens(lifetimes),
                                    record,
                                },
                            ),
                        },
                    },
                },
            },
        },
    }
}

/// The pieces of a function that every lowering needs, as streams.
pub struct FuncStreams<'ir> {
    pub thunk_ident: TokenStream,
    pub doc_comment: TokenStream,
    pub return_fragment: TokenStream,
    pub param_idents: Vec<TokenStream>,
    pub param_types: Vec<TokenStream>,
    pub generic_params: TokenStream,
    pub record: Option<&'ir Record>,
}

impl<'ir> View for FuncStreams<'ir> {
    type V = FuncParts;

    open spec fn view(&self) -> FuncParts {
        FuncParts {
            thunk_ident: stream_of(self.thunk_ident),
            doc_comment: stream_of(self.doc_comment),
            return_fragment: stream_of(self.return_fragment),
            param_idents: streams_of(self.param_idents@),
            param_types: streams_of(self.param_types@),
            generic_params: stream_of(self.generic_params),
            record: match self.record {
                Some(record) => Some(*record),
                None => None,
            },
        }
    }
}

/// `-> T` for the return type `T` of `func`; nothing for the unit type.
pub fn format_return_fragment(func: &Func, ir: &IR) -> (r: Result<TokenStream, BindingError>)
    ensures
        tokens_are(r, return_fragment(func, ir)),
{
    if func.return_type.rs_type.is_unit_type() {
        Ok(empty_stream())
    } else {
        let mut context = String::from_str("Failed to format return type for `");
        context.append(func.mangled_name.as_str());
        context.append("`");
        match with_context(
            format_rs_type(&func.return_type.rs_type, ir, &func.lifetime_params),
            context,
        ) {
            Err(e) => Err(e),
            Ok(return_type) => {
                let mut out = arrow();
                append(&mut out, return_type);
                Ok(out)
            },
        }
    }
}

/// The identifiers of the parameters of `func`, in order.
pub fn format_param_idents(func: &Func) -> (r: Result<Vec<TokenStream>, BindingError>)
    ensures
        streams_are(r, collect_upto(|i: int| param_ident(func, i), func.params@.len())),
{
    let ghost f = |i: int| param_ident(func, i);
    let mut idents: Vec<TokenStream> = Vec::new();
    let mut i: usize = 0;
    assert(streams_of(idents@) =~= Seq::empty());
    while i < func.params.len()
        invariant
            i <= func.params.len(),
            f == (|i: int| param_ident(func, i)),
            collect_upto(f, i as nat) == Ok::<Seq<Seq<Tok>>, ErrorModel>(streams_of(idents@)),
        decreases func.params.len() - i,
    {
        match make_ident(func.params[i].identifier.identifier.as_str()) {
            Err(e) => {
                proof {
                    assert(f(i as int) is Err);
                    lemma_collect_error(f, i as nat + 1, func.params@.len());
                }
                return Err(e);
            },
            Ok(ident) => {
                let ghost before = streams_of(idents@);
                idents.push(ident);
                assert(streams_of(idents@) =~= before.push(stream_of(ident)));
            },
        }
        i += 1;
    }
    Ok(idents)
}

/// The types of the parameters of `func`, in order.
pub fn format_param_types(func: &Func, ir: &IR) -> (r: Result<Vec<TokenStream>, BindingError>)
    ensures
        streams_are(r, collect_upto(|i: int| param_type(func, ir, i), func.params@.len())),
{
    let ghost f = |i: int| param_type(func, ir, i);
    let mut types: Vec<TokenStream> = Vec::new();
    let mut i: usize = 0;
    assert(streams_of(types@) =~= Seq::empty());
    while i < func.params.len()
        invariant
            i <= func.params.len(),
            f == (|i: int| param_type(func, ir, i)),
            collect_upto(f, i as nat) == Ok::<Seq<Seq<Tok>>, ErrorModel>(streams_of(types@)),
        decreases func.params.len() - i,
    {
        let param = &func.params[i];
        let mut context = String::from_str("Failed to format type for parameter `");
        context.append(param.identifier.identifier.as_str());
        context.append("` on `");
        context.append(func.mangled_name.as_str());
        context.append("`");
        match with_context(format_rs_type(&param.type_.rs_type, ir, &func.lifetime_params), context) {
            Err(e) => {
                proof {
                    assert(f(i as int) is Err);
                    lemma_collect_error(f, i as nat + 1, func.params@.len());
                }
                return Err(e);
            },
            Ok(tokens) => {
                let ghost before = streams_of(types@);
                types.push(tokens);
                assert(streams_of(types@) =~= before.push(stream_of(tokens)));
            },
        }
        i += 1;
    }
    Ok(types)
}

/// The lifetime parameters of `func`, in order, as they are written.
pub fn format_lifetime_params(func: &Func) -> (r: Result<Vec<TokenStream>, BindingError>)
    ensures
        streams_are(
            r,
            collect_upto(|i: int| lifetime_param(func, i), func.lifetime_params@.len()),
        ),
{
    let ghost f = |i: int| lifetime_param(func, i);
    let mut lifetimes: Vec<TokenStream> = Vec::new();
    let mut i: usize = 0;
    assert(streams_of(lifetimes@) =~= Seq::empty());
    while i < func.lifetime_params.len()
        invariant
            i <= func.lifetime_params.len(),
            f == (|i: int| lifetime_param(func, i)),
            collect_upto(f, i as nat) == Ok::<Seq<Seq<Tok>>, ErrorModel>(streams_of(lifetimes@)),
        decreases func.lifetime_params.len() - i,
    {
        match make_ident(func.lifetime_params[i].name.as_str()) {
            Err(e) => {
                proof {
                    assert(f(i as int) is Err);
                    lemma_collect_error(f, i as nat + 1, func.lifetime_params@.len());
                }
                return Err(e);
            },
            Ok(name) => {
                let ghost before = streams_of(lifetimes@);
                let mut lifetime = joint('\'');
                append(&mut lifetime, name);
                lifetimes.push(lifetime);
                assert(streams_of(lifetimes@) =~= before.push(stream_of(lifetime)));
            },
        }
        i += 1;
    }
    Ok(lifetimes)
}

/// Whether `r` holds the pieces or the error that `expected` describes.
pub open spec fn parts_are(
    r: Result<FuncStreams, BindingError>,
    expected: Result<FuncParts, ErrorModel>,
) -> bool {
    match expected {
        Ok(parts) => r matches Ok(streams) && streams@ == parts,
        Err(error) => r matches Err(e) && e@ == error,
    }
}

/// The pieces of `func` that every lowering needs; the first error in
/// making them otherwise.
pub fn format_func_parts<'ir>(func: &Func, ir: &'ir IR) -> (r: Result<
    FuncStreams<'ir>,
    BindingError,
>)
    ensures
        parts_are(r, func_parts(func, ir)),
{
    let thunk_ident = match thunk_ident(func) {
        Err(e) => {
            return Err(e);
        },
        Ok(thunk_ident) => thunk_ident,
    };
    let doc_comment = generate_doc_comment(&func.doc_comment);
    let return_fragment = match format_return_fragment(func, ir) {
        Err(e) => {
            return Err(e);
        },
        Ok(return_fragment) => return_fragment,
    };
    let param_idents = match format_param_idents(func) {
        Err(e) => {
            return Err(e);
        },
        Ok(param_idents) => param_idents,
    };
    let param_types = match format_param_types(func, ir) {
        Err(e) => {
            return Err(e);
        },
        Ok(param_types) => param_types,
    };
    let lifetimes = match format_lifetime_params(func) {
        Err(e) => {
            return Err(e);
        },
        Ok(lifetimes) => lifetimes,
    };
    let generic_params = format_generic_params(&lifetimes);
    let record: Option<&'ir Record> = match &func.member_func_metadata {
        None => None,
        Some(meta) => match meta.find_record(ir) {
            Err(e) => {
                return Err(e);
            },
            Ok(record) => Some(record),
        },
    };
    Ok(
        FuncStreams {
            thunk_ident,
            doc_comment,
            return_fragment,
            param_idents,
            param_types,
            generic_params,
            record,
        },
    )
}

/// How a lowered function is placed: on its own, in the impl of its record,
/// or in the impl of a trait for its record.
pub enum ImplKindModel {
    Free,
    Struct,
    Trait { tokens: Seq<Tok>, text: Seq<char> },
}

/// What a function lowers to: where it is placed, under which name, and
/// whether its first parameter becomes the receiver.
pub struct FuncPlan {
    pub impl_kind: ImplKindModel,
    pub func_name: Seq<Tok>,
    pub func_name_text: Seq<char>,
    pub format_first_param_as_self: bool,
}

/// The error for a destructor without a record.
pub open spec fn destructor_not_member_error() -> ErrorModel {
    ErrorModel::root(ErrorKind::MissingRecord, "Destructors must be member functions."@)
}

/// The error for a constructor without a record.
pub open spec fn constructor_not_member_error() -> ErrorModel {
    ErrorModel::root(ErrorKind::MissingRecord, "Constructors must be member functions."@)
}

/// The error for a constructor without its `__this` parameter.
pub open spec fn constructor_without_this_error() -> ErrorModel {
    ErrorModel::root(
        ErrorKind::MissingParameter,
        "Constructor should have at least 1 parameter (__this)"@,
    )
}

/// The error for a receiver where the function has no parameter for it.
pub open spec fn no_self_param_error() -> ErrorModel {
    ErrorModel::root(ErrorKind::MissingParameter, "No parameter to format as 'self'"@)
}

/// The plan of a function of a trait named by a single word.
pub open spec fn trait_plan(trait_name: Word, func_name: Word, as_self: bool) -> FuncPlan {
    FuncPlan {
        impl_kind: ImplKindModel::Trait {
            tokens: word_tokens(trait_name),
            text: word_text(trait_name),
        },
        func_name: word_tokens(func_name),
        func_name_text: word_text(func_name),
        format_first_param_as_self: as_self,
    }
}

/// The plan of a conversion from a value of the type `param_type`.
pub open spec fn from_plan(param_type: Seq<Tok>) -> FuncPlan {
    FuncPlan {
        impl_kind: ImplKindModel::Trait {
            tokens: word_tokens(Word::FromTrait) + punct_tokens('<') + param_type + punct_tokens(
                '>',
            ),
            text: "From<"@ + printed(param_type) + ">"@,
        },
        func_name: word_tokens(Word::From),
        func_name_text: word_text(Word::From),
        format_first_param_as_self: false,
    }
}

/// What `func` lowers to, `None` where it gets no binding, or the error.
///
/// A named function keeps its name, in the impl of its record where it has
/// one, with its first parameter as the receiver where it is an instance
/// method. A destructor becomes `Drop :: drop` where a drop is synthesized
/// for its record, and gets no binding otherwise. A constructor of a record
/// that must not move gets no binding; of any other record, with `__this`
/// alone it becomes `Default :: default`, with one more parameter that is a
/// shared reference to its record it becomes `Clone :: clone` unless the
/// clone is derived, with any other second parameter it becomes
/// `From < T > :: from`, and with more parameters it gets no binding.
pub open spec fn func_plan(func: &Func, ir: &IR, parts: FuncParts) -> Result<
    Option<FuncPlan>,
    ErrorModel,
> {
    match func.name {
        UnqualifiedIdentifier::Identifier(id) => match make_ident_tokens(id.identifier@) {
            Err(e) => Err(e),
            Ok(func_name) => Ok(
                Some(
                    FuncPlan {
                        impl_kind: if parts.record is Some {
                            ImplKindModel::Struct
                        } else {
                            ImplKindModel::Free
                        },
                        func_name,
                        func_name_text: id.identifier@,
                        format_first_param_as_self: func.spec_is_instance_method(),
                    },
                ),
            ),
        },
        UnqualifiedIdentifier::Destructor => match parts.record {
            None => Err(destructor_not_member_error()),
            Some(record) => if !spec_should_implement_drop(&record) {
                Ok(None)
            } else {
                Ok(Some(trait_plan(Word::DropTrait, Word::Drop, true)))
            },
        },
        UnqualifiedIdentifier::Constructor => match parts.record {
            None => Err(constructor_not_member_error()),
            Some(record) => if func.params@.len() == 0 {
                Err(constructor_without_this_error())
            } else if !record.spec_is_unpin() {
                Ok(None)
            } else if func.params@.len() == 1 {
                Ok(Some(trait_plan(Word::DefaultTrait, Word::Default, false)))
            } else if func.params@.len() == 2 {
                match resolve(&func.params@[1].type_.rs_type, ir, ir.items@.len()) {
                    Err(e) => Err(e),
                    Ok(kind) => if kind.spec_is_shared_ref_to(&record) {
                        if spec_should_derive_clone(&record) {
                            Ok(None)
                        } else {
                            Ok(Some(trait_plan(Word::CloneTrait, Word::Clone, true)))
                        }
                    } else {
                        Ok(Some(from_plan(parts.param_types[1])))
                    },
                }
            } else {
                Ok(None)
            },
        },
    }
}

/// How a lowered function is placed, as streams.
pub enum ImplKind {
    Free,
    Struct,
    Trait { tokens: TokenStream, text: String },
}

impl View for ImplKind {
    type V = ImplKindModel;

    open spec fn view(&self) -> ImplKindModel {
        match self {
            ImplKind::Free => ImplKindModel::Free,
            ImplKind::Struct => ImplKindModel::Struct,
            ImplKind::Trait { tokens, text } => ImplKindModel::Trait {
                tokens: stream_of(*tokens),
                text: text@,
            },
        }
    }
}

/// What a function lowers to, as streams.
pub struct FuncPlanStreams {
    pub impl_kind: ImplKind,
    pub func_name: TokenStream,
    pub func_name_text: String,
    pub format_first_param_as_self: bool,
}

impl View for FuncPlanStreams {
    type V = FuncPlan;

    open spec fn view(&self) -> FuncPlan {
        FuncPlan {
            impl_kind: self.impl_kind@,
            func_name: stream_of(self.func_name),
            func_name_text: self.func_name_text@,
            format_first_param_as_self: self.format_first_param_as_self,
        }
    }
}

/// Whether `r` holds the plan or the error that `expected` describes.
pub open spec fn plan_is(
    r: Result<Option<FuncPlanStreams>, BindingError>,
    expected: Result<Option<FuncPlan>, ErrorModel>,
) -> bool {
    match expected {
        Ok(Some(plan)) => r matches Ok(Some(streams)) && streams@ == plan,
        Ok(None) => r matches Ok(None),
        Err(error) => r matches Err(e) && e@ == error,
    }
}

fn plan_trait(trait_name: Word, func_name: Word, as_self: bool) -> (plan: FuncPlanStreams)
    ensures
        plan@ == trait_plan(trait_name, func_name, as_self),
{
    FuncPlanStreams {
        impl_kind: ImplKind::Trait {
            tokens: word(trait_name),
            text: String::from_str(crate::words::word_str(trait_name)),
        },
        func_name: word(func_name),
        func_name_text: String::from_str(crate::words::word_str(func_name)),
        format_first_param_as_self: as_self,
    }
}

/// What `func` lowers to, `None` where it gets no binding; the error
/// otherwise.
fn plan_func(func: &Func, ir: &IR, parts: &FuncStreams) -> (r: Result<
    Option<FuncPlanStreams>,
    BindingError,
>)
    requires
        parts.param_types@.len() == func.params@.len(),
    ensures
        plan_is(r, func_plan(func, ir, parts@)),
{
    match &func.name {
        UnqualifiedIdentifier::Identifier(id) => {
            match make_ident(id.identifier.as_str()) {
                Err(e) => Err(e),
                Ok(func_name) => Ok(
                    Some(
                        FuncPlanStreams {
                            impl_kind: if parts.record.is_some() {
                                ImplKind::Struct
                            } else {
                                ImplKind::Free
                            },
                            func_name,
                            func_name_text: id.identifier.clone(),
                            format_first_param_as_self: func.is_instance_method(),
                        },
                    ),
                ),
            }
        },
        UnqualifiedIdentifier::Destructor => {
            match parts.record {
                None => Err(
                    BindingError::from_str(
                        ErrorKind::MissingRecord,
                        "Destructors must be member functions.",
                    ),
                ),
                Some(record) => {
                    if !should_implement_drop(record) {
                        Ok(None)
                    } else {
                        Ok(Some(plan_trait(Word::DropTrait, Word::Drop, true)))
                    }
                },
            }
        },
        UnqualifiedIdentifier::Constructor => {
            match parts.record {
                None => Err(
                    BindingError::from_str(
                        ErrorKind::MissingRecord,
                        "Constructors must be member functions.",
                    ),
                ),
                Some(record) => {
                    if func.params.len() == 0 {
                        Err(
                            BindingError::from_str(
                                ErrorKind::MissingParameter,
                                "Constructor should have at least 1 parameter (__this)",
                            ),
                        )
                    } else if !record.is_unpin() {
                        Ok(None)
                    } else if func.params.len() == 1 {
                        Ok(Some(plan_trait(Word::DefaultTrait, Word::Default, false)))
                    } else if func.params.len() == 2 {
                        match RsTypeKind::new(&func.params[1].type_.rs_type, ir) {
                            Err(e) => Err(e),
                            Ok(kind) => {
                                if kind.is_shared_ref_to(record) {
                                    if should_derive_clone(record) {
                                        Ok(None)
                                    } else {
                                        Ok(
                                            Some(
                                                plan_trait(Word::CloneTrait, Word::Clone, true),
                                            ),
                                        )
                                    }
                                } else {
                                    let param_type = &parts.param_types[1];
                                    let mut tokens = word(Word::FromTrait);
                                    append(&mut tokens, punct('<'));
                                    append(&mut tokens, duplicate(param_type));
                                    append(&mut tokens, punct('>'));
                                    let mut text = String::from_str("From<");
                                    text.append(stream_text(param_type).as_str());
                                    text.append(">");
                                    Ok(
                                        Some(
                                            FuncPlanStreams {
                                                impl_kind: ImplKind::Trait { tokens, text },
                                                func_name: word(Word::From),
                                                func_name_text: String::from_str(
                                                    crate::words::word_str(Word::From),
                                                ),
                                                format_first_param_as_self: false,
                                            },
                                        ),
                                    )
                                }
                            },
                        }
                    } else {
                        Ok(None)
                    }
                },
            }
        },
    }
}

/// The number of leading parameters that the generated function does not
/// take: the `__this` of a constructor.
pub open spec fn skipped_params(func: &Func) -> int {
    if func.name is Constructor {
        1
    } else {
        0
    }
}

/// The receiver of the generated function, `None` where it has none.
///
/// The receiver is made from the first parameter that the generated function
/// takes; a function that has no such parameter is an error, as is a type
/// from which no receiver can be derived.
pub open spec fn self_decl(func: &Func, ir: &IR, plan: FuncPlan) -> Result<
    Option<Seq<Tok>>,
    ErrorModel,
> {
    if !plan.format_first_param_as_self {
        Ok(None)
    } else if skipped_params(func) >= func.params@.len() {
        Err(no_self_param_error())
    } else {
        let param = &func.params@[skipped_params(func)];
        match resolve(&param.type_.rs_type, ir, ir.items@.len()) {
            Err(e) => Err(e),
            Ok(kind) => match in_context(
                kind.self_param_tokens(func, ir, func.lifetime_params@),
                self_context(param),
            ) {
                Err(e) => Err(e),
                Ok(tokens) => Ok(Some(tokens)),
            },
        }
    }
}

/// `ident : type`
pub open spec fn typed_param_tokens(ident: Seq<Tok>, ty: Seq<Tok>) -> Seq<Tok> {
    ident + punct_tokens(':') + ty
}

/// The parameter of the generated function at `j`: the receiver in the
/// first place where there is one, `ident : type` of the declared parameter
/// otherwise.
pub open spec fn api_param(parts: FuncParts, skip: int, receiver: Option<Seq<Tok>>, j: int) -> Seq<
    Tok,
> {
    if j == 0 && receiver is Some {
        receiver->0
    } else {
        typed_param_tokens(parts.param_idents[j + skip], parts.param_types[j + skip])
    }
}

/// The parameters of the generated function.
pub open spec fn api_params(parts: FuncParts, skip: int, receiver: Option<Seq<Tok>>) -> Seq<
    Seq<Tok>,
> {
    Seq::new(
        (parts.param_idents.len() - skip) as nat,
        |j: int| api_param(parts, skip, receiver, j),
    )
}

/// The argument handed to the adapter at `j`: `self` in the first place
/// where there is a receiver, the name of the declared parameter otherwise.
pub open spec fn thunk_arg(parts: FuncParts, skip: int, receiver: Option<Seq<Tok>>, j: int) -> Seq<
    Tok,
> {
    if j == 0 && receiver is Some {
        word_tokens(Word::SelfValue)
    } else {
        parts.param_idents[j + skip]
    }
}

/// The arguments handed to the adapter.
pub open spec fn thunk_args(parts: FuncParts, skip: int, receiver: Option<Seq<Tok>>) -> Seq<
    Seq<Tok>,
> {
    Seq::new(
        (parts.param_idents.len() - skip) as nat,
        |j: int| thunk_arg(parts, skip, receiver, j),
    )
}

/// `crate :: detail :: thunk`
pub open spec fn thunk_path_tokens(thunk_ident: Seq<Tok>) -> Seq<Tok> {
    word_tokens(Word::Crate) + path_sep_tokens() + word_tokens(Word::Detail) + path_sep_tokens()
        + thunk_ident
}

/// The body of a function that hands its arguments to its adapter:
/// `unsafe { crate :: detail :: thunk ( args ) }`
pub open spec fn call_body_tokens(thunk_ident: Seq<Tok>, args: Seq<Seq<Tok>>) -> Seq<Tok> {
    word_tokens(Word::Unsafe) + brace_tokens(
        thunk_path_tokens(thunk_ident) + paren_tokens(separated_tokens(args, punct_tokens(','))),
    )
}

/// Each of `args` after a comma.
pub open spec fn after_commas(args: Seq<Seq<Tok>>) -> Seq<Seq<Tok>> {
    Seq::new(args.len(), |j: int| punct_tokens(',') + args[j])
}

/// The body of a constructing function, which has the adapter fill zeroed
/// storage and hands that out:
/// `let mut tmp = std :: mem :: MaybeUninit :: < Self > :: zeroed ( ) ;
/// unsafe { crate :: detail :: thunk ( & mut tmp , args ) ; tmp . assume_init ( ) }`
pub open spec fn constructor_body_tokens(thunk_ident: Seq<Tok>, args: Seq<Seq<Tok>>) -> Seq<Tok> {
    word_tokens(Word::Let) + word_tokens(Word::Mut) + word_tokens(Word::Tmp) + punct_tokens('=')
        + maybe_uninit_path_tokens() + path_sep_tokens() + punct_tokens('<') + word_tokens(
        Word::SelfType,
    ) + punct_tokens('>') + path_sep_tokens() + word_tokens(Word::Zeroed) + paren_tokens(
        Seq::empty(),
    ) + punct_tokens(';') + word_tokens(Word::Unsafe) + brace_tokens(
        thunk_path_tokens(thunk_ident) + paren_tokens(
            punct_tokens('&') + word_tokens(Word::Mut) + word_tokens(Word::Tmp) + concat_tokens(
                after_commas(args),
            ),
        ) + punct_tokens(';') + word_tokens(Word::Tmp) + punct_tokens('.') + word_tokens(
            Word::AssumeInit,
        ) + paren_tokens(Seq::empty()),
    )
}

/// `# [ inline ( always ) ]`
pub open spec fn inline_always_tokens() -> Seq<Tok> {
    punct_tokens('#') + bracket_tokens(
        word_tokens(Word::Inline) + paren_tokens(word_tokens(Word::Always)),
    )
}

/// The definition of the generated function:
/// `# [ inline ( always ) ] pub fn name < 'a > ( params ) -> T { body }`,
/// without `pub` in the impl of a trait, and with `-> Self` for a
/// constructor.
pub open spec fn api_func_def_tokens(
    func: &Func,
    parts: FuncParts,
    plan: FuncPlan,
    receiver: Option<Seq<Tok>>,
) -> Seq<Tok> {
    let skip = skipped_params(func);
    let args = thunk_args(parts, skip, receiver);
    inline_always_tokens() + (if plan.impl_kind is Trait {
        Seq::empty()
    } else {
        word_tokens(Word::Pub)
    }) + word_tokens(Word::Fn) + plan.func_name + parts.generic_params + paren_tokens(
        separated_tokens(api_params(parts, skip, receiver), punct_tokens(',')),
    ) + (if func.name is Constructor {
        arrow_tokens() + word_tokens(Word::SelfType)
    } else {
        parts.return_fragment
    }) + brace_tokens(
        if func.name is Constructor {
            constructor_body_tokens(parts.thunk_ident, args)
        } else {
            call_body_tokens(parts.thunk_ident, args)
        },
    )
}

/// The name of the record of the function, `None` for a free function.
pub open spec fn record_name(parts: FuncParts) -> Result<Option<Seq<Tok>>, ErrorModel> {
    match parts.record {
        None => Ok(None),
        Some(record) => match make_ident_tokens(record.identifier.identifier@) {
            Err(e) => Err(e),
            Ok(name) => Ok(Some(name)),
        },
    }
}

/// The error for a method without a record.
pub open spec fn method_without_record_error() -> ErrorModel {
    ErrorModel::root(ErrorKind::MissingRecord, "Struct methods must have records"@)
}

/// The error for a function of a trait without a record.
pub open spec fn trait_without_record_error() -> ErrorModel {
    ErrorModel::root(ErrorKind::MissingRecord, "Trait methods must have records"@)
}

/// The generated function where it is placed: on its own under its doc
/// attribute, as `impl Record { ... }`, or as
/// `impl Trait for Record { ... }` under its doc attribute.
pub open spec fn api_func_tokens(
    parts: FuncParts,
    plan: FuncPlan,
    record_name: Option<Seq<Tok>>,
    def: Seq<Tok>,
) -> Result<Seq<Tok>, ErrorModel> {
    match plan.impl_kind {
        ImplKindModel::Free => Ok(parts.doc_comment + def),
        ImplKindModel::Struct => match record_name {
            None => Err(method_without_record_error()),
            Some(name) => Ok(
                word_tokens(Word::Impl) + name + brace_tokens(parts.doc_comment + def),
            ),
        },
        ImplKindModel::Trait { tokens, text } => match record_name {
            None => Err(trait_without_record_error()),
            Some(name) => Ok(
                parts.doc_comment + word_tokens(Word::Impl) + tokens + word_tokens(Word::For)
                    + name + brace_tokens(def),
            ),
        },
    }
}

/// The key of the generated function: the bare name of a free function,
/// `Record::name` of a method, and `Trait::name` with the record as the type
/// of the impl for a function of a trait.
pub open spec fn function_id(parts: FuncParts, plan: FuncPlan) -> FunctionIdModel {
    match plan.impl_kind {
        ImplKindModel::Free => FunctionIdModel {
            self_type: None,
            function_path: plan.func_name_text,
        },
        ImplKindModel::Struct => FunctionIdModel {
            self_type: None,
            function_path: (match parts.record {
                Some(record) => record.identifier.identifier@,
                None => Seq::empty(),
            }) + "::"@ + plan.func_name_text
        },
        ImplKindModel::Trait { tokens, text } => FunctionIdModel {
            self_type: match parts.record {
                Some(record) => Some(record.identifier.identifier@),
                None => None,
            },
            function_path: text + "::"@ + plan.func_name_text,
        },
    }
}

/// `# [ link_name = "mangled_name" ]` where the function is called at its
/// own symbol; nothing where it is called through an adapter on the other
/// side.
pub open spec fn thunk_attr_tokens(func: &Func) -> Seq<Tok> {
    if spec_can_skip_cc_thunk(func) {
        punct_tokens('#') + bracket_tokens(
            word_tokens(Word::LinkName) + punct_tokens('=') + string_tokens(func.mangled_name@),
        )
    } else {
        Seq::empty()
    }
}

/// The type of the `__this` parameter of a constructor's adapter, `None`
/// for any other function.
pub open spec fn this_param(func: &Func, ir: &IR) -> Result<Option<Seq<Tok>>, ErrorModel> {
    if !(func.name is Constructor) {
        Ok(None)
    } else if func.params@.len() == 0 {
        Err(constructor_without_this_error())
    } else {
        match resolve(&func.params@[0].type_.rs_type, ir, ir.items@.len()) {
            Err(e) => Err(e),
            Ok(kind) => match in_context(
                kind.this_param_tokens(ir, func.lifetime_params@),
                this_context(&func.params@[0]),
            ) {
                Err(e) => Err(e),
                Ok(tokens) => Ok(Some(tokens)),
            },
        }
    }
}

/// The parameter of the adapter at `j`.
pub open spec fn thunk_param(parts: FuncParts, this: Option<Seq<Tok>>, j: int) -> Seq<Tok> {
    typed_param_tokens(
        parts.param_idents[j],
        if j == 0 && this is Some {
            this->0
        } else {
            parts.param_types[j]
        },
    )
}

/// The declaration of the adapter:
/// `pub ( crate ) fn thunk < 'a > ( params ) -> T ;` under its link name
/// where it has one.
pub open spec fn thunk_tokens(func: &Func, parts: FuncParts, this: Option<Seq<Tok>>) -> Seq<Tok> {
    thunk_attr_tokens(func) + word_tokens(Word::Pub) + paren_tokens(word_tokens(Word::Crate))
        + word_tokens(Word::Fn) + parts.thunk_ident + parts.generic_params + paren_tokens(
        separated_tokens(
            Seq::new(parts.param_idents.len(), |j: int| thunk_param(parts, this, j)),
            punct_tokens(','),
        ),
    ) + parts.return_fragment + punct_tokens(';')
}

/// What a function lowers to: the function that exposes it, the declaration
/// of its adapter, and its key.
pub struct FuncBinding {
    pub api_func: SnippetModel,
    pub thunk: SnippetModel,
    pub function_id: FunctionIdModel,
}

/// The binding made from the pieces and the plan of `func`.
pub open spec fn planned_binding(func: &Func, ir: &IR, parts: FuncParts, plan: FuncPlan) -> Result<
    FuncBinding,
    ErrorModel,
> {
    match self_decl(func, ir, plan) {
        Err(e) => Err(e),
        Ok(receiver) => match record_name(parts) {
            Err(e) => Err(e),
            Ok(name) => match api_func_tokens(
                parts,
                plan,
                name,
                api_func_def_tokens(func, parts, plan, receiver),
            ) {
                Err(e) => Err(e),
                Ok(api_func) => match this_param(func, ir) {
                    Err(e) => Err(e),
                    Ok(this) => Ok(
                        FuncBinding {
                            api_func: SnippetModel::plain(api_func),
                            thunk: SnippetModel::plain(thunk_tokens(func, parts, this)),
                            function_id: function_id(parts, plan),
                        },
                    ),
                },
            },
        },
    }
}

/// What `func` lowers to in the unit `ir`: its binding, `None` where it gets
/// none, or the error for which none can be made.
///
/// A function whose return type holds the elided lifetime without exactly
/// one named lifetime among its parameters gets none.
pub open spec fn func_binding(func: &Func, ir: &IR) -> Result<Option<FuncBinding>, ErrorModel> {
    match func_parts(func, ir) {
        Err(e) => Err(e),
        Ok(parts) => if !elision_is_valid(func) {
            Err(elision_error())
        } else {
            match func_plan(func, ir, parts) {
                Err(e) => Err(e),
                Ok(None) => Ok(None),
                Ok(Some(plan)) => match planned_binding(func, ir, parts, plan) {
                    Err(e) => Err(e),
                    Ok(binding) => Ok(Some(binding)),
                },
            }
        },
    }
}

/// Every function that gets a binding keeps the rule on elided lifetimes:
/// where its return type holds the elided lifetime, its parameters hold
/// exactly one named lifetime for it to borrow from.
pub proof fn lemma_bound_functions_keep_the_elision_rule(func: &Func, ir: &IR)
    requires
        func_binding(func, ir) matches Ok(Some(_)),
    ensures
        elision_is_valid(func),
{
}

/// What an optional stream holds.
pub open spec fn opt_stream_of(stream: Option<TokenStream>) -> Option<Seq<Tok>> {
    match stream {
        Some(ts) => Some(stream_of(ts)),
        None => None,
    }
}

/// Whether `r` holds the optional stream or the error that `expected`
/// describes.
pub open spec fn opt_tokens_are(
    r: Result<Option<TokenStream>, BindingError>,
    expected: Result<Option<Seq<Tok>>, ErrorModel>,
) -> bool {
    match expected {
        Ok(tokens) => r matches Ok(stream) && opt_stream_of(stream) == tokens,
        Err(error) => r matches Err(e) && e@ == error,
    }
}

/// The receiver of the generated function, `None` where it has none; the
/// error for which it cannot be made otherwise.
pub fn format_self_decl(func: &Func, ir: &IR, plan: &FuncPlanStreams) -> (r: Result<
    Option<TokenStream>,
    BindingError,
>)
    ensures
        opt_tokens_are(r, self_decl(func, ir, plan@)),
{
    if !plan.format_first_param_as_self {
        return Ok(None);
    }
    let skip: usize = match func.name {
        UnqualifiedIdentifier::Constructor => 1,
        _ => 0,
    };
    if skip >= func.params.len() {
        return Err(
            BindingError::from_str(
                ErrorKind::MissingParameter,
                "No parameter to format as 'self'",
            ),
        );
    }
    let param = &func.params[skip];
    match RsTypeKind::new(&param.type_.rs_type, ir) {
        Err(e) => Err(e),
        Ok(kind) => {
            let mut context = String::from_str("Failed to format as `self` param: `");
            context.append(param.identifier.identifier.as_str());
            context.append("`");
            match with_context(
                kind.format_as_self_param_for_instance_method(func, ir, &func.lifetime_params),
                context,
            ) {
                Err(e) => Err(e),
                Ok(tokens) => Ok(Some(tokens)),
            }
        },
    }
}

/// The parameters of the generated function.
fn format_api_params(parts: &FuncStreams, skip: usize, receiver: &Option<TokenStream>) -> (params:
    Vec<TokenStream>)
    requires
        skip <= parts.param_idents@.len(),
        parts.param_types@.len() == parts.param_idents@.len(),
    ensures
        streams_of(params@) == api_params(parts@, skip as int, opt_stream_of(*receiver)),
{
    let n = parts.param_idents.len() - skip;
    let mut params: Vec<TokenStream> = Vec::new();
    let mut j: usize = 0;
    while j < n
        invariant
            j <= n,
            n + skip == parts.param_idents@.len(),
            n + skip <= usize::MAX,
            parts.param_types@.len() == parts.param_idents@.len(),
            params@.len() == j,
            forall|k: int|
                0 <= k < j ==> stream_of(#[trigger] params@[k]) == api_param(
                    parts@,
                    skip as int,
                    opt_stream_of(*receiver),
                    k,
                ),
        decreases n - j,
    {
        let param = if j == 0 && receiver.is_some() {
            match receiver {
                Some(tokens) => duplicate(tokens),
                None => empty_stream(),
            }
        } else {
            let mut param = duplicate(&parts.param_idents[j + skip]);
            append(&mut param, punct(':'));
            append(&mut param, duplicate(&parts.param_types[j + skip]));
            param
        };
        params.push(param);
        j += 1;
    }
    assert(streams_of(params@) =~= api_params(parts@, skip as int, opt_stream_of(*receiver)));
    params
}

/// The arguments handed to the adapter.
fn format_thunk_args(parts: &FuncStreams, skip: usize, receiver: &Option<TokenStream>) -> (args:
    Vec<TokenStream>)
    requires
        skip <= parts.param_idents@.len(),
    ensures
        streams_of(args@) == thunk_args(parts@, skip as int, opt_stream_of(*receiver)),
{
    let n = parts.param_idents.len() - skip;
    let mut args: Vec<TokenStream> = Vec::new();
    let mut j: usize = 0;
    while j < n
        invariant
            j <= n,
            n + skip == parts.param_idents@.len(),
            n + skip <= usize::MAX,
            args@.len() == j,
            forall|k: int|
                0 <= k < j ==> stream_of(#[trigger] args@[k]) == thunk_arg(
                    parts@,
                    skip as int,
                    opt_stream_of(*receiver),
                    k,
                ),
        decreases n - j,
    {
        let arg = if j == 0 && receiver.is_some() {
            word(Word::SelfValue)
        } else {
            duplicate(&parts.param_idents[j + skip])
        };
        args.push(arg);
        j += 1;
    }
    assert(streams_of(args@) =~= thunk_args(parts@, skip as int, opt_stream_of(*receiver)));
    args
}

/// `crate :: detail :: thunk`
pub fn thunk_path(thunk_ident: &TokenStream) -> (ts: TokenStream)
    ensures
        stream_of(ts) == thunk_path_tokens(stream_of(*thunk_ident)),
{
    let mut out = word(Word::Crate);
    append(&mut out, path_sep());
    append(&mut out, word(Word::Detail));
    append(&mut out, path_sep());
    append(&mut out, duplicate(thunk_ident));
    out
}

/// The body of a function that hands its arguments to its adapter.
pub fn call_body(thunk_ident: &TokenStream, args: &Vec<TokenStream>) -> (ts: TokenStream)
    ensures
        stream_of(ts) == call_body_tokens(stream_of(*thunk_ident), streams_of(args@)),
{
    let mut call = thunk_path(thunk_ident);
    append(&mut call, paren(comma_separated(args)));
    let mut out = word(Word::Unsafe);
    append(&mut out, brace(call));
    out
}

/// The body of a constructing function.
pub fn constructor_body(thunk_ident: &TokenStream, args: &Vec<TokenStream>) -> (ts: TokenStream)
    ensures
        stream_of(ts) == constructor_body_tokens(stream_of(*thunk_ident), streams_of(args@)),
{
    let mut rest = empty_stream();
    let mut j: usize = 0;
    proof {
        assert(after_commas(streams_of(args@)).take(0) =~= Seq::<Seq<Tok>>::empty());
    }
    while j < args.len()
        invariant
            j <= args.len(),
            stream_of(rest) == concat_tokens(after_commas(streams_of(args@)).take(j as int)),
        decreases args.len() - j,
    {
        proof {
            let all = after_commas(streams_of(args@));
            assert(all.take(j as int + 1).drop_last() =~= all.take(j as int));
        }
        let mut next = punct(',');
        append(&mut next, duplicate(&args[j]));
        append(&mut rest, next);
        j += 1;
    }
    proof {
        let all = after_commas(streams_of(args@));
        assert(all.take(args.len() as int) =~= all);
    }
    let mut call_args = punct('&');
    append(&mut call_args, word(Word::Mut));
    append(&mut call_args, word(Word::Tmp));
    append(&mut call_args, rest);
    let mut block = thunk_path(thunk_ident);
    append(&mut block, paren(call_args));
    append(&mut block, punct(';'));
    append(&mut block, word(Word::Tmp));
    append(&mut block, punct('.'));
    append(&mut block, word(Word::AssumeInit));
    append(&mut block, paren(empty_stream()));
    let mut out = word(Word::Let);
    append(&mut out, word(Word::Mut));
    append(&mut out, word(Word::Tmp));
    append(&mut out, punct('='));
    append(&mut out, maybe_uninit_path());
    append(&mut out, path_sep());
    append(&mut out, punct('<'));
    append(&mut out, word(Word::SelfType));
    append(&mut out, punct('>'));
    append(&mut out, path_sep());
    append(&mut out, word(Word::Zeroed));
    append(&mut out, paren(empty_stream()));
    append(&mut out, punct(';'));
    append(&mut out, word(Word::Unsafe));
    append(&mut out, brace(block));
    out
}

/// `# [ inline ( always ) ]`
pub fn inline_always() -> (ts: TokenStream)
    ensures
        stream_of(ts) == inline_always_tokens(),
{
    let mut inner = word(Word::Inline);
    append(&mut inner, paren(word(Word::Always)));
    let mut out = punct('#');
    append(&mut out, bracket(inner));
    out
}

/// The definition of the generated function.
fn format_api_func_def(
    func: &Func,
    parts: &FuncStreams,
    plan: &FuncPlanStreams,
    receiver: &Option<TokenStream>,
) -> (ts: TokenStream)
    requires
        skipped_params(func) <= parts.param_idents@.len(),
        parts.param_types@.len() == parts.param_idents@.len(),
    ensures
        stream_of(ts) == api_func_def_tokens(func, parts@, plan@, opt_stream_of(*receiver)),
{
    let is_constructor = match func.name {
        UnqualifiedIdentifier::Constructor => true,
        _ => false,
    };
    let skip: usize = if is_constructor {
        1
    } else {
        0
    };
    let args = format_thunk_args(parts, skip, receiver);
    let params = format_api_params(parts, skip, receiver);
    let mut out = inline_always();
    match plan.impl_kind {
        ImplKind::Trait { .. } => {
            append(&mut out, empty_stream());
        },
        _ => {
            append(&mut out, word(Word::Pub));
        },
    }
    append(&mut out, word(Word::Fn));
    append(&mut out, duplicate(&plan.func_name));
    append(&mut out, duplicate(&parts.generic_params));
    append(&mut out, paren(comma_separated(&params)));
    if is_constructor {
        let mut ret = arrow();
        append(&mut ret, word(Word::SelfType));
        append(&mut out, ret);
        append(&mut out, brace(constructor_body(&parts.thunk_ident, &args)));
    } else {
        append(&mut out, duplicate(&parts.return_fragment));
        append(&mut out, brace(call_body(&parts.thunk_ident, &args)));
    }
    out
}

/// The key of the generated function.
pub fn make_function_id(parts: &FuncStreams, plan: &FuncPlanStreams) -> (id: FunctionId)
    ensures
        id@ == function_id(parts@, plan@),
{
    match &plan.impl_kind {
        ImplKind::Free => FunctionId {
            self_type: None,
            function_path: plan.func_name_text.clone(),
        },
        ImplKind::Struct => {
            let mut path = match parts.record {
                Some(record) => record.identifier.identifier.clone(),
                None => String::new(),
            };
            path.append("::");
            path.append(plan.func_name_text.as_str());
            FunctionId { self_type: None, function_path: path }
        },
        ImplKind::Trait { tokens, text } => {
            let mut path = text.clone();
            path.append("::");
            path.append(plan.func_name_text.as_str());
            FunctionId {
                self_type: match parts.record {
                    Some(record) => Some(record.identifier.identifier.clone()),
                    None => None,
                },
                function_path: path,
            }
        },
    }
}

/// The generated function where it is placed.
pub fn format_api_func(
    parts: &FuncStreams,
    plan: &FuncPlanStreams,
    record_name: Option<TokenStream>,
    def: TokenStream,
) -> (r: Result<TokenStream, BindingError>)
    ensures
        tokens_are(r, api_func_tokens(parts@, plan@, opt_stream_of(record_name), stream_of(def))),
{
    match &plan.impl_kind {
        ImplKind::Free => {
            let mut out = duplicate(&parts.doc_comment);
            append(&mut out, def);
            Ok(out)
        },
        ImplKind::Struct => match record_name {
            None => Err(
                BindingError::from_str(
                    ErrorKind::MissingRecord,
                    "Struct methods must have records",
                ),
            ),
            Some(name) => {
                let mut body = duplicate(&parts.doc_comment);
                append(&mut body, def);
                let mut out = word(Word::Impl);
                append(&mut out, name);
                append(&mut out, brace(body));
                Ok(out)
            },
        },
        ImplKind::Trait { tokens, text } => match record_name {
            None => Err(
                BindingError::from_str(
                    ErrorKind::MissingRecord,
                    "Trait methods must have records",
                ),
            ),
            Some(name) => {
                let mut out = duplicate(&parts.doc_comment);
                append(&mut out, word(Word::Impl));
                append(&mut out, duplicate(tokens));
                append(&mut out, word(Word::For));
                append(&mut out, name);
                append(&mut out, brace(def));
                Ok(out)
            },
        },
    }
}

/// The name of the record of the function, `None` for a free function.
pub fn format_record_name(parts: &FuncStreams) -> (r: Result<Option<TokenStream>, BindingError>)
    ensures
        opt_tokens_are(r, record_name(parts@)),
{
    match parts.record {
        None => Ok(None),
        Some(record) => match make_ident(record.identifier.identifier.as_str()) {
            Err(e) => Err(e),
            Ok(name) => Ok(Some(name)),
        },
    }
}

/// The type of the `__this` parameter of a constructor's adapter, `None`
/// for any other function.
pub fn format_this_param(func: &Func, ir: &IR) -> (r: Result<Option<TokenStream>, BindingError>)
    ensures
        opt_tokens_are(r, this_param(func, ir)),
{
    match func.name {
        UnqualifiedIdentifier::Constructor => {},
        _ => {
            return Ok(None);
        },
    }
    if func.params.len() == 0 {
        return Err(
            BindingError::from_str(
                ErrorKind::MissingParameter,
                "Constructor should have at least 1 parameter (__this)",
            ),
        );
    }
    let param = &func.params[0];
    match RsTypeKind::new(&param.type_.rs_type, ir) {
        Err(e) => Err(e),
        Ok(kind) => {
            let mut context = String::from_str("Failed to format `__this` param for a thunk: `");
            context.append(param.identifier.identifier.as_str());
            context.append("`");
            match with_context(
                kind.format_as_this_param_for_constructor_thunk(ir, &func.lifetime_params),
                context,
            ) {
                Err(e) => Err(e),
                Ok(tokens) => Ok(Some(tokens)),
            }
        },
    }
}

/// The declaration of the adapter.
fn format_thunk(func: &Func, parts: &FuncStreams, this: &Option<TokenStream>) -> (ts:
    TokenStream)
    requires
        parts.param_types@.len() == parts.param_idents@.len(),
    ensures
        stream_of(ts) == thunk_tokens(func, parts@, opt_stream_of(*this)),
{
    let n = parts.param_idents.len();
    let mut params: Vec<TokenStream> = Vec::new();
    let mut j: usize = 0;
    while j < n
        invariant
            j <= n,
            n == parts.param_idents@.len(),
            parts.param_types@.len() == n,
            params@.len() == j,
            forall|k: int|
                0 <= k < j ==> stream_of(#[trigger] params@[k]) == thunk_param(
                    parts@,
                    opt_stream_of(*this),
                    k,
                ),
        decreases n - j,
    {
        let mut param = duplicate(&parts.param_idents[j]);
        append(&mut param, punct(':'));
        if j == 0 && this.is_some() {
            match this {
                Some(tokens) => {
                    append(&mut param, duplicate(tokens));
                },
                None => {},
            }
        } else {
            append(&mut param, duplicate(&parts.param_types[j]));
        }
        params.push(param);
        j += 1;
    }
    assert(streams_of(params@) =~= Seq::new(
        parts@.param_idents.len(),
        |j: int| thunk_param(parts@, opt_stream_of(*this), j),
    ));
    let mut out = if can_skip_cc_thunk(func) {
        let mut inner = word(Word::LinkName);
        append(&mut inner, punct('='));
        append(&mut inner, string_literal(func.mangled_name.as_str()));
        let mut attr = punct('#');
        append(&mut attr, bracket(inner));
        attr
    } else {
        empty_stream()
    };
    append(&mut out, word(Word::Pub));
    append(&mut out, paren(word(Word::Crate)));
    append(&mut out, word(Word::Fn));
    append(&mut out, duplicate(&parts.thunk_ident));
    append(&mut out, duplicate(&parts.generic_params));
    append(&mut out, paren(comma_separated(&params)));
    append(&mut out, duplicate(&parts.return_fragment));
    append(&mut out, punct(';'));
    out
}

/// Whether `r` holds the binding, the absence of one, or the error that
/// `expected` describes.
pub open spec fn binding_is(
    r: Result<Option<(RsSnippet, RsSnippet, FunctionId)>, BindingError>,
    expected: Result<Option<FuncBinding>, ErrorModel>,
) -> bool {
    match expected {
        Ok(Some(binding)) => r matches Ok(Some(generated)) && generated.0@ == binding.api_func
            && generated.1@ == binding.thunk && generated.2@ == binding.function_id,
        Ok(None) => r matches Ok(None),
        Err(error) => r matches Err(e) && e@ == error,
    }
}

/// Lowers one callable declaration.
///
/// Returns the function that exposes `func`, the declaration of its boundary
/// adapter, and the key that identifies the generated function; `None`
/// where `func` gets no binding; and the error, with what was being
/// attempted, where no binding can be made. Which of these it is, and every
/// token of the two declarations, is what `func_binding` says.
pub fn generate_func(func: &Func, ir: &IR) -> (r: Result<
    Option<(RsSnippet, RsSnippet, FunctionId)>,
    BindingError,
>)
    ensures
        binding_is(r, func_binding(func, ir)),
{
    let parts = match format_func_parts(func, ir) {
        Err(e) => {
            return Err(e);
        },
        Ok(parts) => parts,
    };
    proof {
        lemma_collect_ok(|i: int| param_ident(func, i), func.params@.len());
        lemma_collect_ok(|i: int| param_type(func, ir, i), func.params@.len());
    }
    match check_elision(func) {
        Err(e) => {
            return Err(e);
        },
        Ok(()) => {},
    }
    let plan = match plan_func(func, ir, &parts) {
        Err(e) => {
            return Err(e);
        },
        Ok(None) => {
            return Ok(None);
        },
        Ok(Some(plan)) => plan,
    };
    let receiver = match format_self_decl(func, ir, &plan) {
        Err(e) => {
            return Err(e);
        },
        Ok(receiver) => receiver,
    };
    let def = format_api_func_def(func, &parts, &plan, &receiver);
    let record_name = match format_record_name(&parts) {
        Err(e) => {
            return Err(e);
        },
        Ok(record_name) => record_name,
    };
    let api_func = match format_api_func(&parts, &plan, record_name, def) {
        Err(e) => {
            return Err(e);
        },
        Ok(api_func) => api_func,
    };
    let this = match format_this_param(func, ir) {
        Err(e) => {
            return Err(e);
        },
        Ok(this) => this,
    };
    let thunk = format_thunk(func, &parts, &this);
    let function_id = make_function_id(&parts, &plan);
    Ok(Some((RsSnippet::new(api_func), RsSnippet::new(thunk), function_id)))
}

} // verus!
