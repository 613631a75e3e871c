//! Bindings in the other direction: declarations on the source side for the
//! functions that a crate exports.

use crate::error::{in_context, tokens_are, with_context, BindingError, ErrorKind, ErrorModel};
use crate::strings::str_eq;
use crate::tokens::{
    append, brace, brace_tokens, empty_stream, ident, ident_tokens, is_ident, paren,
    paren_tokens, punct, punct_tokens, stream_of, string_literal, string_tokens, Tok,
};
use crate::words::{word, word_tokens, Word};
use proc_macro2::TokenStream;
use vstd::prelude::*;

verus! {

/// Whether `name` is one of the reserved words of the source language that
/// follow, in their alphabetical list.
pub open spec fn is_cc_keyword_from_alignas(name: Seq<char>) -> bool {
    name == "alignas"@
        || name == "alignof"@
        || name == "and"@
        || name == "and_eq"@
        || name == "asm"@
        || name == "atomic_cancel"@
        || name == "atomic_commit"@
        || name == "atomic_noexcept"@
        || name == "auto"@
        || name == "bitand"@
        || name == "bitor"@
        || name == "bool"@
}

fn cc_keyword_from_alignas(name: &str) -> (b: bool)
    ensures
        b == is_cc_keyword_from_alignas(name@),
{
    str_eq(name, "alignas")
        || str_eq(name, "alignof")
        || str_eq(name, "and")
        || str_eq(name, "and_eq")
        || str_eq(name, "asm")
        || str_eq(name, "atomic_cancel")
        || str_eq(name, "atomic_commit")
        || str_eq(name, "atomic_noexcept")
        || str_eq(name, "auto")
        || str_eq(name, "bitand")
        || str_eq(name, "bitor")
        || str_eq(name, "bool")
}

/// Whether `name` is one of the reserved words of the source language that
/// follow, in their alphabetical list.
pub open spec fn is_cc_keyword_from_break(name: Seq<char>) -> bool {
    name == "break"@
        || name == "case"@
        || name == "catch"@
        || name == "char"@
        || name == "char8_t"@
        || name == "char16_t"@
        || name == "char32_t"@
        || name == "class"@
        || name == "compl"@
        || name == "concept"@
        || name == "const"@
        || name == "consteval"@
}

fn cc_keyword_from_break(name: &str) -> (b: bool)
    ensures
        b == is_cc_keyword_from_break(name@),
{
    str_eq(name, "break")
        || str_eq(name, "case")
        || str_eq(name, "catch")
        || str_eq(name, "char")
        || str_eq(name, "char8_t")
        || str_eq(name, "char16_t")
        || str_eq(name, "char32_t")
        || str_eq(name, "class")
        || str_eq(name, "compl")
        || str_eq(name, "concept")
        || str_eq(name, "const")
        || str_eq(name, "consteval")
}

/// Whether `name` is one of the reserved words of the source language that
/// follow, in their alphabetical list.
pub open spec fn is_cc_keyword_from_constexpr(name: Seq<char>) -> bool {
    name == "constexpr"@
        || name == "constinit"@
        || name == "const_cast"@
        || name == "continue"@
        || name == "co_await"@
        || name == "co_return"@
        || name == "co_yield"@
        || name == "decltype"@
        || name == "default"@
        || name == "delete"@
        || name == "do"@
        || name == "double"@
}

fn cc_keyword_from_constexpr(name: &str) -> (b: bool)
    ensures
        b == is_cc_keyword_from_constexpr(name@),
{
    str_eq(name, "constexpr")
        || str_eq(name, "constinit")
        || str_eq(name, "const_cast")
        || str_eq(name, "continue")
        || str_eq(name, "co_await")
        || str_eq(name, "co_return")
        || str_eq(name, "co_yield")
        || str_eq(name, "decltype")
        || str_eq(name, "default")
        || str_eq(name, "delete")
        || str_eq(name, "do")
        || str_eq(name, "double")
}

/// Whether `name` is one of the reserved words of the source language that
/// follow, in their alphabetical list.
pub open spec fn is_cc_keyword_from_dynamic_cast(name: Seq<char>) -> bool {
    name == "dynamic_cast"@
        || name == "else"@
        || name == "enum"@
        || name == "explicit"@
        || name == "export"@
        || name == "extern"@
        || name == "false"@
        || name == "float"@
        || name == "for"@
        || name == "friend"@
        || name == "goto"@
        || name == "if"@
}

fn cc_keyword_from_dynamic_cast(name: &str) -> (b: bool)
    ensures
        b == is_cc_keyword_from_dynamic_cast(name@),
{
    str_eq(name, "dynamic_cast")
        || str_eq(name, "else")
        || str_eq(name, "enum")
        || str_eq(name, "explicit")
        || str_eq(name, "export")
        || str_eq(name, "extern")
        || str_eq(name, "false")
        || str_eq(name, "float")
        || str_eq(name, "for")
        || str_eq(name, "friend")
        || str_eq(name, "goto")
        || str_eq(name, "if")
}

/// Whether `name` is one of the reserved words of the source language that
/// follow, in their alphabetical list.
pub open spec fn is_cc_keyword_from_inline(name: Seq<char>) -> bool {
    name == "inline"@
        || name == "int"@
        || name == "long"@
        || name == "mutable"@
        || name == "namespace"@
        || name == "new"@
        || name == "noexcept"@
        || name == "not"@
        || name == "not_eq"@
        || name == "nullptr"@
        || name == "operator"@
        || name == "or"@
}

fn cc_keyword_from_inline(name: &str) -> (b: bool)
    ensures
        b == is_cc_keyword_from_inline(name@),
{
    str_eq(name, "inline")
        || str_eq(name, "int")
        || str_eq(name, "long")
        || str_eq(name, "mutable")
        || str_eq(name, "namespace")
        || str_eq(name, "new")
        || str_eq(name, "noexcept")
        || str_eq(name, "not")
        || str_eq(name, "not_eq")
        || str_eq(name, "nullptr")
        || str_eq(name, "operator")
        || str_eq(name, "or")
}

/// Whether `name` is one of the reserved words of the source language that
/// follow, in their alphabetical list.
pub open spec fn is_cc_keyword_from_or_eq(name: Seq<char>) -> bool {
    name == "or_eq"@
        || name == "private"@
        || name == "protected"@
        || name == "public"@
        || name == "reflexpr"@
        || name == "register"@
        || name == "reinterpret_cast"@
        || name == "requires"@
        || name == "return"@
        || name == "short"@
        || name == "signed"@
        || name == "sizeof"@
}

fn cc_keyword_from_or_eq(name: &str) -> (b: bool)
    ensures
        b == is_cc_keyword_from_or_eq(name@),
{
    str_eq(name, "or_eq")
        || str_eq(name, "private")
        || str_eq(name, "protected")
        || str_eq(name, "public")
        || str_eq(name, "reflexpr")
        || str_eq(name, "register")
        || str_eq(name, "reinterpret_cast")
        || str_eq(name, "requires")
        || str_eq(name, "return")
        || str_eq(name, "short")
        || str_eq(name, "signed")
        || str_eq(name, "sizeof")
}

/// Whether `name` is one of the reserved words of the source language that
/// follow, in their alphabetical list.
pub open spec fn is_cc_keyword_from_static(name: Seq<char>) -> bool {
    name == "static"@
        || name == "static_assert"@
        || name == "static_cast"@
        || name == "struct"@
        || name == "switch"@
        || name == "synchronized"@
        || name == "template"@
        || name == "this"@
        || name == "thread_local"@
        || name == "throw"@
        || name == "true"@
        || name == "try"@
}

fn cc_keyword_from_static(name: &str) -> (b: bool)
    ensures
        b == is_cc_keyword_from_static(name@),
{
    str_eq(name, "static")
        || str_eq(name, "static_assert")
        || str_eq(name, "static_cast")
        || str_eq(name, "struct")
        || str_eq(name, "switch")
        || str_eq(name, "synchronized")
        || str_eq(name, "template")
        || str_eq(name, "this")
        || str_eq(name, "thread_local")
        || str_eq(name, "throw")
        || str_eq(name, "true")
        || str_eq(name, "try")
}

/// Whether `name` is one of the reserved words of the source language that
/// follow, in their alphabetical list.
pub open spec fn is_cc_keyword_from_typedef(name: Seq<char>) -> bool {
    name == "typedef"@
        || name == "typeid"@
        || name == "typename"@
        || name == "union"@
        || name == "unsigned"@
        || name == "using"@
        || name == "virtual"@
        || name == "void"@
        || name == "volatile"@
        || name == "wchar_t"@
        || name == "while"@
        || name == "xor"@
}

fn cc_keyword_from_typedef(name: &str) -> (b: bool)
    ensures
        b == is_cc_keyword_from_typedef(name@),
{
    str_eq(name, "typedef")
        || str_eq(name, "typeid")
        || str_eq(name, "typename")
        || str_eq(name, "union")
        || str_eq(name, "unsigned")
        || str_eq(name, "using")
        || str_eq(name, "virtual")
        || str_eq(name, "void")
        || str_eq(name, "volatile")
        || str_eq(name, "wchar_t")
        || str_eq(name, "while")
        || str_eq(name, "xor")
}

/// Whether `name` is one of the reserved words of the source language that
/// follow, in their alphabetical list.
pub open spec fn is_cc_keyword_from_xor_eq(name: Seq<char>) -> bool {
    name == "xor_eq"@
}

fn cc_keyword_from_xor_eq(name: &str) -> (b: bool)
    ensures
        b == is_cc_keyword_from_xor_eq(name@),
{
    str_eq(name, "xor_eq")
}

/// Whether `name` is a reserved word of the source language.
pub open spec fn is_cc_keyword(name: Seq<char>) -> bool {
    is_cc_keyword_from_alignas(name)
        || is_cc_keyword_from_break(name)
        || is_cc_keyword_from_constexpr(name)
        || is_cc_keyword_from_dynamic_cast(name)
        || is_cc_keyword_from_inline(name)
        || is_cc_keyword_from_or_eq(name)
        || is_cc_keyword_from_static(name)
        || is_cc_keyword_from_typedef(name)
        || is_cc_keyword_from_xor_eq(name)
}

/// Whether `name` is a reserved word of the source language.
pub fn is_reserved_cc_keyword(name: &str) -> (b: bool)
    ensures
        b == is_cc_keyword(name@),
{
    cc_keyword_from_alignas(name)
        || cc_keyword_from_break(name)
        || cc_keyword_from_constexpr(name)
        || cc_keyword_from_dynamic_cast(name)
        || cc_keyword_from_inline(name)
        || cc_keyword_from_or_eq(name)
        || cc_keyword_from_static(name)
        || cc_keyword_from_typedef(name)
        || cc_keyword_from_xor_eq(name)
}

/// The error for an empty name.
pub open spec fn empty_ident_error() -> ErrorModel {
    ErrorModel::root(
        ErrorKind::InvalidIdentifier,
        "Empty string is not a valid C++ identifier"@,
    )
}

/// The error for a name that is a reserved word.
pub open spec fn keyword_error(name: Seq<char>) -> ErrorModel {
    ErrorModel::root(
        ErrorKind::InvalidIdentifier,
        "`"@ + name + "` is a C++ reserved keyword and can't be used as a C++ identifier"@,
    )
}

/// The error for a name that cannot be spelled as an identifier.
pub open spec fn cc_ident_error(name: Seq<char>) -> ErrorModel {
    ErrorModel::root(
        ErrorKind::InvalidIdentifier,
        "Can't format `"@ + name + "` as a C++ identifier"@,
    )
}

/// The identifier `name` on the source side, or the error for a name that
/// is empty, reserved, or no identifier.
pub open spec fn cc_ident_tokens(name: Seq<char>) -> Result<Seq<Tok>, ErrorModel> {
    if name.len() == 0 {
        Err(empty_ident_error())
    } else if is_cc_keyword(name) {
        Err(keyword_error(name))
    } else if !is_ident(name) {
        Err(cc_ident_error(name))
    } else {
        Ok(ident_tokens(name))
    }
}

/// The identifier `name` on the source side; an error where `name` is
/// empty, a reserved word, or no identifier.
pub fn format_cc_ident(name: &str) -> (r: Result<TokenStream, BindingError>)
    ensures
        tokens_are(r, cc_ident_tokens(name@)),
{
    if name.unicode_len() == 0 {
        return Err(
            BindingError::from_str(
                ErrorKind::InvalidIdentifier,
                "Empty string is not a valid C++ identifier",
            ),
        );
    }
    if is_reserved_cc_keyword(name) {
        let mut message = String::from_str("`");
        message.append(name);
        message.append("` is a C++ reserved keyword and can't be used as a C++ identifier");
        return Err(BindingError::new(ErrorKind::InvalidIdentifier, message));
    }
    match ident(name) {
        Some(ts) => Ok(ts),
        None => {
            let mut message = String::from_str("Can't format `");
            message.append(name);
            message.append("` as a C++ identifier");
            Err(BindingError::new(ErrorKind::InvalidIdentifier, message))
        },
    }
}

/// The signed integer types.
#[derive(Clone, Copy, Debug, PartialEq, Eq, Structural)]
pub enum IntTy {
    Isize,
    I8,
    I16,
    I32,
    I64,
    I128,
}

/// The unsigned integer types.
#[derive(Clone, Copy, Debug, PartialEq, Eq, Structural)]
pub enum UintTy {
    Usize,
    U8,
    U16,
    U32,
    U64,
    U128,
}

/// The floating-point types.
#[derive(Clone, Copy, Debug, PartialEq, Eq, Structural)]
pub enum FloatTy {
    F32,
    F64,
}

/// What kind of type a type is.
#[derive(Clone, Copy, Debug, PartialEq, Eq, Structural)]
pub enum TyKind {
    Bool,
    Char,
    Int(IntTy),
    Uint(UintTy),
    Float(FloatTy),
    /// A tuple of `arity` types; the unit type is the tuple of none.
    Tuple { arity: usize },
    Adt,
    Foreign,
    Str,
    Array,
    Slice,
    RawPtr,
    Ref,
    FnPtr,
    Dynamic,
    Generator,
    GeneratorWitness,
    Never,
    Projection,
    Opaque,
    Param,
    Bound,
    Placeholder,
    Closure,
    FnDef,
    Infer,
    Error,
}

/// A type: its kind, and the text by which it is displayed.
#[derive(Debug)]
pub struct Ty {
    pub kind: TyKind,
    pub display: String,
}

/// Whether a type of this kind can occur in the signature of an exported
/// function: closures, the types of function items, and the types of
/// unfinished inference cannot.
pub open spec fn can_be_exported(kind: TyKind) -> bool {
    !(kind is Closure || kind is FnDef || kind is Infer || kind is Error)
}

/// The error for a type that is not supported, with the note `note` after
/// the type.
pub open spec fn ty_error(before: Seq<char>, ty: &Ty, after: Seq<char>) -> ErrorModel {
    ErrorModel::root(ErrorKind::Unsupported, before + ty.display@ + after)
}

/// The type `ty` as the source side writes it: `void` for the unit type,
/// `bool`, `float` for `f32` and `double` for `f64`; an error for every
/// other type.
pub open spec fn ty_tokens(ty: &Ty) -> Result<Seq<Tok>, ErrorModel> {
    match ty.kind {
        TyKind::Tuple { arity } => if arity == 0 {
            Ok(word_tokens(Word::Void))
        } else {
            Err(ty_error("Tuples are not supported yet: "@, ty, " (b/254097223)"@))
        },
        TyKind::Bool => Ok(word_tokens(Word::Bool)),
        TyKind::Float(FloatTy::F32) => Ok(word_tokens(Word::Float)),
        TyKind::Float(FloatTy::F64) => Ok(word_tokens(Word::Double)),
        TyKind::Int(IntTy::I128) => Err(
            ty_error(
                "C++ doesn't have a standard equivalent of `"@,
                ty,
                "` (b/254094650)"@,
            ),
        ),
        TyKind::Uint(UintTy::U128) => Err(
            ty_error(
                "C++ doesn't have a standard equivalent of `"@,
                ty,
                "` (b/254094650)"@,
            ),
        ),
        TyKind::Char => Err(
            ty_error(
                "No support yet for `#include`ing C++ equivalent of `"@,
                ty,
                "` (b/254094545)"@,
            ),
        ),
        TyKind::Int(_) => Err(
            ty_error(
                "No support yet for `#include`ing C++ equivalent of `"@,
                ty,
                "` (b/254094545)"@,
            ),
        ),
        TyKind::Uint(_) => Err(
            ty_error(
                "No support yet for `#include`ing C++ equivalent of `"@,
                ty,
                "` (b/254094545)"@,
            ),
        ),
        _ => Err(ty_error("The following Rust type is not supported yet: "@, ty, ""@)),
    }
}

fn unsupported_ty(before: &str, ty: &Ty, after: &str) -> (e: BindingError)
    ensures
        e@ == ty_error(before@, ty, after@),
{
    let mut message = String::from_str(before);
    message.append(ty.display.as_str());
    message.append(after);
    BindingError::new(ErrorKind::Unsupported, message)
}

/// The type `ty` as the source side writes it; an error, which names the
/// type, for a type that is not supported.
///
/// A type that cannot occur in the signature of an exported function is not
/// a valid argument.
pub fn format_ty(ty: &Ty) -> (r: Result<TokenStream, BindingError>)
    requires
        can_be_exported(ty.kind),
    ensures
        tokens_are(r, ty_tokens(ty)),
{
    match ty.kind {
        TyKind::Tuple { arity } => {
            if arity == 0 {
                Ok(word(Word::Void))
            } else {
                Err(unsupported_ty("Tuples are not supported yet: ", ty, " (b/254097223)"))
            }
        },
        TyKind::Bool => Ok(word(Word::Bool)),
        TyKind::Float(FloatTy::F32) => Ok(word(Word::Float)),
        TyKind::Float(FloatTy::F64) => Ok(word(Word::Double)),
        TyKind::Int(IntTy::I128) => Err(
            unsupported_ty("C++ doesn't have a standard equivalent of `", ty, "` (b/254094650)"),
        ),
        TyKind::Uint(UintTy::U128) => Err(
            unsupported_ty("C++ doesn't have a standard equivalent of `", ty, "` (b/254094650)"),
        ),
        TyKind::Char => Err(
            unsupported_ty(
                "No support yet for `#include`ing C++ equivalent of `",
                ty,
                "` (b/254094545)",
            ),
        ),
        TyKind::Int(_) => Err(
            unsupported_ty(
                "No support yet for `#include`ing C++ equivalent of `",
                ty,
                "` (b/254094545)",
            ),
        ),
        TyKind::Uint(_) => Err(
            unsupported_ty(
                "No support yet for `#include`ing C++ equivalent of `",
                ty,
                "` (b/254094545)",
            ),
        ),
        _ => Err(unsupported_ty("The following Rust type is not supported yet: ", ty, "")),
    }
}

/// The calling convention of a function.
#[derive(Clone, Copy, Debug, PartialEq, Eq, Structural)]
pub enum Abi {
    /// The C calling convention, with or without unwinding.
    C { unwind: bool },
    /// The calling convention of the language itself.
    Rust,
    /// Any other calling convention.
    Other,
}

/// Whether a function may be called only where the caller vouches for it.
#[derive(Clone, Copy, Debug, PartialEq, Eq, Structural)]
pub enum Unsafety {
    Normal,
    Unsafe,
}

/// The signature of a function.
#[derive(Debug)]
pub struct FnSig {
    pub inputs: Vec<Ty>,
    pub output: Ty,
    pub c_variadic: bool,
    pub unsafety: Unsafety,
    pub abi: Abi,
}

/// The error for a function that is not supported, for the reason
/// `message`.
pub open spec fn fn_error(message: Seq<char>) -> ErrorModel {
    ErrorModel::root(ErrorKind::Unsupported, message)
}

/// Whether a function of this calling convention can be called from the
/// other side only through an adapter.
pub open spec fn needs_thunk(abi: Abi) -> bool {
    !(abi is C)
}

/// The declaration of the function `fn_name` with the signature `sig` on
/// the source side: `extern "C" T name ( ) ;`; an error for a variadic
/// function, a function with parameters, an unsafe function, a function of
/// another calling convention than C, a return type that is not supported,
/// and a name that is no identifier of the source side.
pub open spec fn fn_tokens(sig: &FnSig, fn_name: Seq<char>) -> Result<Seq<Tok>, ErrorModel> {
    if sig.c_variadic {
        Err(fn_error("C variadic functions are not supported (b/254097223)"@))
    } else if sig.inputs@.len() != 0 {
        Err(fn_error("Function parameters are not supported yet"@))
    } else if sig.unsafety is Unsafe {
        Err(fn_error("Bindings for `unsafe` functions are not fully designed yet (b/254095482)"@))
    } else if needs_thunk(sig.abi) {
        Err(
            fn_error(
                "Functions that require Rust thunks (e.g. non-`extern \"C\"`) are not supported yet (b/254097223)"@,
            ),
        )
    } else {
        match in_context(ty_tokens(&sig.output), "Error formatting function return type"@) {
            Err(e) => Err(e),
            Ok(ret_type) => match in_context(
                cc_ident_tokens(fn_name),
                "Error formatting function name"@,
            ) {
                Err(e) => Err(e),
                Ok(name) => Ok(
                    word_tokens(Word::Extern) + string_tokens("C"@) + ret_type + name
                        + paren_tokens(Seq::empty()) + punct_tokens(';'),
                ),
            },
        }
    }
}

/// The declaration of the function `fn_name` with the signature `sig` on
/// the source side; the error for which it gets none otherwise.
pub fn format_fn(sig: &FnSig, fn_name: &str) -> (r: Result<TokenStream, BindingError>)
    requires
        can_be_exported(sig.output.kind),
    ensures
        tokens_are(r, fn_tokens(sig, fn_name@)),
{
    if sig.c_variadic {
        return Err(
            BindingError::from_str(
                ErrorKind::Unsupported,
                "C variadic functions are not supported (b/254097223)",
            ),
        );
    }
    if sig.inputs.len() != 0 {
        return Err(
            BindingError::from_str(
                ErrorKind::Unsupported,
                "Function parameters are not supported yet",
            ),
        );
    }
    match sig.unsafety {
        Unsafety::Normal => {},
        Unsafety::Unsafe => {
            return Err(
                BindingError::from_str(
                    ErrorKind::Unsupported,
                    "Bindings for `unsafe` functions are not fully designed yet (b/254095482)",
                ),
            );
        },
    }
    let need_thunk = match sig.abi {
        Abi::C { .. } => false,
        _ => true,
    };
    if need_thunk {
        return Err(
            BindingError::from_str(
                ErrorKind::Unsupported,
                "Functions that require Rust thunks (e.g. non-`extern \"C\"`) are not supported yet (b/254097223)",
            ),
        );
    }
    let ret_type = match with_context(
        format_ty(&sig.output),
        String::from_str("Error formatting function return type"),
    ) {
        Err(e) => {
            return Err(e);
        },
        Ok(ret_type) => ret_type,
    };
    let name = match with_context(
        format_cc_ident(fn_name),
        String::from_str("Error formatting function name"),
    ) {
        Err(e) => {
            return Err(e);
        },
        Ok(name) => name,
    };
    let mut out = word(Word::Extern);
    append(&mut out, string_literal("C"));
    append(&mut out, ret_type);
    append(&mut out, name);
    append(&mut out, paren(empty_stream()));
    append(&mut out, punct(';'));
    Ok(out)
}

/// What kind of item a definition is.
#[derive(Debug)]
pub enum ItemKind {
    /// A function, with the number of its generic parameters, lifetimes
    /// included.
    Fn { sig: FnSig, generic_params: usize },
    /// Any other item, with the word by which its kind is described.
    Other { descr: String },
}

/// A definition.
#[derive(Debug)]
pub enum Node {
    /// An item with its name.
    Item { ident: String, kind: ItemKind },
    /// Anything else.
    Other,
}

/// A definition of a crate: what it is, where it stands, and the path by
/// which it is named.
#[derive(Debug)]
pub struct Def {
    pub node: Node,
    pub span: String,
    pub path: String,
}

/// Whether no signature in `def` holds a type that cannot occur there.
pub open spec fn def_is_valid(def: &Def) -> bool {
    def.node matches Node::Item { kind: ItemKind::Fn { sig, .. }, .. } ==> can_be_exported(
        sig.output.kind,
    )
}

/// The declaration generated for `def`: that of a function without generic
/// parameters; an error for a generic function and for anything that is no
/// function.
pub open spec fn def_tokens(def: &Def) -> Result<Seq<Tok>, ErrorModel> {
    match def.node {
        Node::Item { ident, kind: ItemKind::Fn { sig, generic_params } } => {
            if generic_params == 0 {
                fn_tokens(&sig, ident@)
            } else {
                Err(
                    fn_error(
                        "Generic functions (lifetime-generic or type-generic) are not supported yet"@,
                    ),
                )
            }
        },
        Node::Item { kind: ItemKind::Other { descr }, .. } => Err(
            fn_error("Unsupported rustc_hir::hir::ItemKind: "@ + descr@),
        ),
        Node::Other => Err(fn_error("Unsupported rustc_hir::hir::Node"@)),
    }
}

/// The declaration generated for `def`; the error for which it gets none
/// otherwise.
pub fn format_def(def: &Def) -> (r: Result<TokenStream, BindingError>)
    requires
        def_is_valid(def),
    ensures
        tokens_are(r, def_tokens(def)),
{
    match &def.node {
        Node::Item { ident, kind } => match kind {
            ItemKind::Fn { sig, generic_params } => {
                if *generic_params == 0 {
                    format_fn(sig, ident.as_str())
                } else {
                    Err(
                        BindingError::from_str(
                            ErrorKind::Unsupported,
                            "Generic functions (lifetime-generic or type-generic) are not supported yet",
                        ),
                    )
                }
            },
            ItemKind::Other { descr } => {
                let mut message = String::from_str("Unsupported rustc_hir::hir::ItemKind: ");
                message.append(descr.as_str());
                Err(BindingError::new(ErrorKind::Unsupported, message))
            },
        },
        Node::Other => Err(
            BindingError::from_str(ErrorKind::Unsupported, "Unsupported rustc_hir::hir::Node"),
        ),
    }
}

/// The text of the comment that explains why `def` gets no binding.
pub open spec fn unsupported_def_text(def: &Def, message: Seq<char>) -> Seq<char> {
    "Error generating bindings for `"@ + def.path@ + "` defined at "@ + def.span@ + ": "@
        + message
}

/// The comment that explains why `def` gets no binding:
/// `__NEWLINE__ __NEWLINE__ __COMMENT__ "text" __NEWLINE__`
pub open spec fn unsupported_def_tokens(def: &Def, message: Seq<char>) -> Seq<Tok> {
    word_tokens(Word::Newline) + word_tokens(Word::Newline) + word_tokens(Word::Comment)
        + string_tokens(unsupported_def_text(def, message)) + word_tokens(Word::Newline)
}

/// The comment that explains that `def` gets no binding because of `err`,
/// with the whole chain of what was being attempted.
pub fn format_unsupported_def(def: &Def, err: &BindingError) -> (ts: TokenStream)
    ensures
        stream_of(ts) == unsupported_def_tokens(def, err@.text()),
{
    let mut text = String::from_str("Error generating bindings for `");
    text.append(def.path.as_str());
    text.append("` defined at ");
    text.append(def.span.as_str());
    text.append(": ");
    text.append(err.message().as_str());
    let mut out = word(Word::Newline);
    append(&mut out, word(Word::Newline));
    append(&mut out, word(Word::Comment));
    append(&mut out, string_literal(text.as_str()));
    append(&mut out, word(Word::Newline));
    out
}

/// A symbol that a crate exports.
#[derive(Debug)]
pub enum ExportedSymbol {
    /// A definition of the crate itself.
    NonGeneric(Def),
    /// An instantiation of a generic definition, which is of the crate
    /// itself where `local` is set.
    Generic { local: Option<Def> },
    /// The glue that drops a value.
    DropGlue,
    /// A symbol without a definition.
    NoDefId,
}

/// How a crate handles a panic.
#[derive(Clone, Copy, Debug, PartialEq, Eq, Structural)]
pub enum PanicStrategy {
    Unwind,
    Abort,
}

/// A crate: its name, how it handles a panic, and the symbols it exports.
#[derive(Debug)]
pub struct Crate {
    pub name: String,
    pub panic_strategy: PanicStrategy,
    pub exported_symbols: Vec<ExportedSymbol>,
}

/// Whether no signature in the crate holds a type that cannot occur there.
pub open spec fn crate_is_valid(krate: &Crate) -> bool {
    forall|i: int|
        0 <= i < krate.exported_symbols@.len() ==> (
        #[trigger] krate.exported_symbols@[i] matches ExportedSymbol::NonGeneric(def)
            ==> def_is_valid(&def))
}

/// Why a generic definition gets no binding.
pub open spec fn generic_message() -> Seq<char> {
    "Generics are not supported yet."@
}

/// What one exported symbol adds to the declarations: the declaration of a
/// definition of the crate, a comment where it gets none, a comment for a
/// generic definition of the crate, and nothing for any other symbol.
pub open spec fn symbol_tokens(symbol: &ExportedSymbol) -> Seq<Tok> {
    match symbol {
        ExportedSymbol::NonGeneric(def) => match def_tokens(def) {
            Ok(tokens) => tokens,
            Err(error) => unsupported_def_tokens(def, error.text()),
        },
        ExportedSymbol::Generic { local: Some(def) } => unsupported_def_tokens(
            def,
            generic_message(),
        ),
        _ => Seq::empty(),
    }
}

/// What the first `n` exported symbols add to the declarations.
pub open spec fn symbols_upto(symbols: Seq<ExportedSymbol>, n: nat) -> Seq<Tok>
    decreases n,
{
    if n == 0 || n > symbols.len() {
        Seq::empty()
    } else {
        symbols_upto(symbols, (n - 1) as nat) + symbol_tokens(&symbols[n - 1])
    }
}

/// The declarations for the crate: `namespace name { ... }` with what every
/// exported symbol adds, in order; an error where the name of the crate is
/// no identifier of the source side.
pub open spec fn crate_tokens(krate: &Crate) -> Result<Seq<Tok>, ErrorModel> {
    match cc_ident_tokens(krate.name@) {
        Err(e) => Err(e),
        Ok(name) => Ok(
            word_tokens(Word::Namespace) + name + brace_tokens(
                symbols_upto(krate.exported_symbols@, krate.exported_symbols@.len()),
            ),
        ),
    }
}

/// What the exported symbol `symbol` adds to the declarations.
pub fn format_symbol(symbol: &ExportedSymbol) -> (ts: TokenStream)
    requires
        symbol matches ExportedSymbol::NonGeneric(def) ==> def_is_valid(def),
    ensures
        stream_of(ts) == symbol_tokens(symbol),
{
    match symbol {
        ExportedSymbol::NonGeneric(def) => match format_def(def) {
            Ok(tokens) => tokens,
            Err(err) => format_unsupported_def(def, &err),
        },
        ExportedSymbol::Generic { local: Some(def) } => {
            let err = BindingError::from_str(
                ErrorKind::Unsupported,
                "Generics are not supported yet.",
            );
            proof {
                assert(err@.messages =~= seq![generic_message()]);
                assert(err@.text() == generic_message());
            }
            format_unsupported_def(def, &err)
        },
        _ => empty_stream(),
    }
}

/// The declarations for the crate, in the namespace of its name; an error
/// where that name is no identifier of the source side.
pub fn format_crate(krate: &Crate) -> (r: Result<TokenStream, BindingError>)
    requires
        crate_is_valid(krate),
    ensures
        tokens_are(r, crate_tokens(krate)),
{
    let name = match format_cc_ident(krate.name.as_str()) {
        Err(e) => {
            return Err(e);
        },
        Ok(name) => name,
    };
    let mut snippets = empty_stream();
    let mut i: usize = 0;
    while i < krate.exported_symbols.len()
        invariant
            i <= krate.exported_symbols.len(),
            crate_is_valid(krate),
            stream_of(snippets) == symbols_upto(krate.exported_symbols@, i as nat),
        decreases krate.exported_symbols.len() - i,
    {
        append(&mut snippets, format_symbol(&krate.exported_symbols[i]));
        i += 1;
    }
    let mut out = word(Word::Namespace);
    append(&mut out, name);
    append(&mut out, brace(snippets));
    Ok(out)
}

/// The bindings generated for a crate: the body of its header.
pub struct GeneratedBindings {
    pub h_body: TokenStream,
}

/// The error for a crate that unwinds on panic.
pub open spec fn unwind_error() -> ErrorModel {
    ErrorModel::root(
        ErrorKind::Unsupported,
        "No support for panic=unwind strategy (b/254049425)"@,
    )
}

/// The text of the comment at the top of the header.
pub open spec fn top_comment_text(krate: &Crate) -> Seq<char> {
    "Automatically @generated C++ bindings for the following Rust crate:\n"@ + krate.name@
}

/// The outermost of the messages of an error.
pub open spec fn first_message(error: ErrorModel) -> Seq<char> {
    if error.messages.len() > 0 {
        error.messages[0]
    } else {
        Seq::empty()
    }
}

/// The body of the header for the crate: the comment at its top, the
/// directive that it is included once, and the declarations, or in their
/// place a comment on why there are none.
pub open spec fn header_tokens(krate: &Crate) -> Seq<Tok> {
    word_tokens(Word::Comment) + string_tokens(top_comment_text(krate)) + word_tokens(
        Word::Newline,
    ) + word_tokens(Word::HashToken) + word_tokens(Word::Pragma) + word_tokens(Word::Once)
        + word_tokens(Word::Newline) + word_tokens(Word::Newline) + (match crate_tokens(krate) {
        Ok(tokens) => tokens,
        Err(error) => word_tokens(Word::Comment) + string_tokens(
            "Failed to generate bindings for the crate: "@ + first_message(error),
        ),
    })
}

impl GeneratedBindings {
    /// The bindings for the crate `krate`.
    ///
    /// Fails, without any output, for a crate that unwinds on panic: no
    /// declaration of such a crate can be called safely from the other
    /// side. For any other crate the header is generated, with a comment in
    /// the place of every definition that gets no binding.
    pub fn generate(krate: &Crate) -> (r: Result<GeneratedBindings, BindingError>)
        requires
            crate_is_valid(krate),
        ensures
            krate.panic_strategy is Unwind ==> (r matches Err(e) && e@ == unwind_error()),
            krate.panic_strategy is Abort ==> (r matches Ok(bindings) && stream_of(bindings.h_body)
                == header_tokens(krate)),
    {
        match krate.panic_strategy {
            PanicStrategy::Unwind => {
                return Err(
                    BindingError::from_str(
                        ErrorKind::Unsupported,
                        "No support for panic=unwind strategy (b/254049425)",
                    ),
                );
            },
            PanicStrategy::Abort => {},
        }
        let mut text = String::from_str(
            "Automatically @generated C++ bindings for the following Rust crate:\n",
        );
        text.append(krate.name.as_str());
        let crate_content = match format_crate(krate) {
            Ok(tokens) => tokens,
            Err(err) => {
                let mut message = String::from_str("Failed to generate bindings for the crate: ");
                if err.messages.len() > 0 {
                    message.append(err.messages[0].as_str());
                }
                assert(message@ =~= "Failed to generate bindings for the crate: "@ + first_message(
                    err@,
                ));
                let mut comment = word(Word::Comment);
                append(&mut comment, string_literal(message.as_str()));
                comment
            },
        };
        let mut h_body = word(Word::Comment);
        append(&mut h_body, string_literal(text.as_str()));
        append(&mut h_body, word(Word::Newline));
        append(&mut h_body, word(Word::HashToken));
        append(&mut h_body, word(Word::Pragma));
        append(&mut h_body, word(Word::Once));
        append(&mut h_body, word(Word::Newline));
        append(&mut h_body, word(Word::Newline));
        append(&mut h_body, crate_content);
        Ok(GeneratedBindings { h_body })
    }
}

} // verus!
