//! Vocabulary types for generated Rust source.

use crate::error::{tokens_are, BindingError, ErrorKind, ErrorModel};
use crate::features::{RustFeatures};
use crate::ir::{LifetimeName, Record, SpecialMemberFunc, IR};
use crate::strings::{str_eq, texts_of};
use crate::tokens::{
    append, duplicate, empty_stream, ident, ident_tokens, is_ident, joint, lifetime_tokens,
    path_sep, path_sep_tokens, stream_of, Tok,
};
use crate::words::{word, word_tokens, Word};
use proc_macro2::TokenStream;
use vstd::prelude::*;

verus! {

/// A piece of generated source together with the language features that it
/// needs.
pub struct RsSnippet {
    pub tokens: TokenStream,
    pub features: RustFeatures,
}

/// The mathematical model of an `RsSnippet`.
pub struct SnippetModel {
    pub tokens: Seq<Tok>,
    pub features: RustFeatures,
}

impl View for RsSnippet {
    type V = SnippetModel;

    open spec fn view(&self) -> SnippetModel {
        SnippetModel { tokens: stream_of(self.tokens), features: self.features }
    }
}

impl SnippetModel {
    /// Source that needs no feature.
    pub open spec fn plain(tokens: Seq<Tok>) -> SnippetModel {
        SnippetModel { tokens, features: RustFeatures::spec_empty() }
    }
}

impl RsSnippet {
    /// A snippet that needs no feature.
    pub fn new(tokens: TokenStream) -> (snippet: RsSnippet)
        ensures
            snippet@ == SnippetModel::plain(stream_of(tokens)),
    {
        RsSnippet { tokens, features: RustFeatures::empty() }
    }
}

/// Whether what a pointer or reference leads to may be changed through it.
#[derive(Clone, Copy, Debug, PartialEq, Eq, Structural)]
pub enum Mutability {
    Const,
    Mut,
}

impl Mutability {
    /// Whether this is `Mut`.
    pub open spec fn spec_is_mut(&self) -> bool {
        *self == Mutability::Mut
    }

    /// The qualifier of a pointer: `mut` or `const`.
    pub open spec fn pointer_tokens(&self) -> Seq<Tok> {
        match self {
            Mutability::Mut => word_tokens(Word::Mut),
            Mutability::Const => word_tokens(Word::Const),
        }
    }

    /// The qualifier of a reference: `mut` or nothing.
    pub open spec fn reference_tokens(&self) -> Seq<Tok> {
        match self {
            Mutability::Mut => word_tokens(Word::Mut),
            Mutability::Const => Seq::empty(),
        }
    }

    /// Whether this is `Mut`.
    pub fn is_mut(&self) -> (b: bool)
        ensures
            b == self.spec_is_mut(),
    {
        match self {
            Mutability::Mut => true,
            Mutability::Const => false,
        }
    }

    /// The qualifier of a pointer: `mut` or `const`.
    pub fn format_for_pointer(&self) -> (ts: TokenStream)
        ensures
            stream_of(ts) == self.pointer_tokens(),
    {
        match self {
            Mutability::Mut => word(Word::Mut),
            Mutability::Const => word(Word::Const),
        }
    }

    /// The qualifier of a reference: `mut` or nothing.
    pub fn format_for_reference(&self) -> (ts: TokenStream)
        ensures
            stream_of(ts) == self.reference_tokens(),
    {
        match self {
            Mutability::Mut => word(Word::Mut),
            Mutability::Const => empty_stream(),
        }
    }
}

/// The error for a value of a record whose destructor cannot be called.
pub open spec fn no_destructor_error(record: &Record) -> ErrorModel {
    ErrorModel::root(
        ErrorKind::NotByValue,
        "Can't directly construct values of type `"@ + record.cc_name@
            + "` as it has a non-public or deleted destructor"@,
    )
}

/// The error for a value of an abstract record.
pub open spec fn abstract_error(record: &Record) -> ErrorModel {
    ErrorModel::root(
        ErrorKind::NotByValue,
        "Can't directly construct values of type `"@ + record.cc_name@ + "`: it is abstract"@,
    )
}

/// Whether values of `record` can be held by value, and the reason where
/// they cannot: its destructor is unavailable, or it is abstract.
pub open spec fn spec_check_by_value(record: &Record) -> Result<(), ErrorModel> {
    if record.destructor == SpecialMemberFunc::Unavailable {
        Err(no_destructor_error(record))
    } else if record.is_abstract {
        Err(abstract_error(record))
    } else {
        Ok(())
    }
}

/// Whether the type generated for `record` gets a bitwise copy: the record
/// can be moved freely, copying and destroying it run no code, and it can be
/// held by value.
pub open spec fn spec_should_derive_copy(record: &Record) -> bool {
    record.spec_is_unpin() && record.copy_constructor == SpecialMemberFunc::Trivial
        && record.destructor == SpecialMemberFunc::Trivial && spec_check_by_value(record) is Ok
}

/// Whether the type generated for `record` gets a derived clone: a union
/// only where it is copied bitwise, any other record where it can be moved
/// freely, copying it runs no code, and it can be held by value.
pub open spec fn spec_should_derive_clone(record: &Record) -> bool {
    if record.is_union {
        spec_should_derive_copy(record)
    } else {
        record.spec_is_unpin() && record.copy_constructor == SpecialMemberFunc::Trivial
            && spec_check_by_value(record) is Ok
    }
}

/// Whether values of `record` can be held by value; the reason where they
/// cannot.
pub fn check_by_value(record: &Record) -> (r: Result<(), BindingError>)
    ensures
        match spec_check_by_value(record) {
            Ok(()) => r is Ok,
            Err(error) => r matches Err(e) && e@ == error,
        },
{
    match record.destructor {
        SpecialMemberFunc::Unavailable => {
            let mut message = String::from_str("Can't directly construct values of type `");
            message.append(record.cc_name.as_str());
            message.append("` as it has a non-public or deleted destructor");
            return Err(BindingError::new(ErrorKind::NotByValue, message));
        },
        _ => {},
    }
    if record.is_abstract {
        let mut message = String::from_str("Can't directly construct values of type `");
        message.append(record.cc_name.as_str());
        message.append("`: it is abstract");
        return Err(BindingError::new(ErrorKind::NotByValue, message));
    }
    Ok(())
}

/// Whether `member` runs no code.
pub fn is_trivial(member: SpecialMemberFunc) -> (b: bool)
    ensures
        b == (member == SpecialMemberFunc::Trivial),
{
    match member {
        SpecialMemberFunc::Trivial => true,
        _ => false,
    }
}

/// Whether the type generated for `record` gets a bitwise copy.
pub fn should_derive_copy(record: &Record) -> (b: bool)
    ensures
        b == spec_should_derive_copy(record),
{
    record.is_unpin() && is_trivial(record.copy_constructor) && is_trivial(record.destructor)
        && check_by_value(record).is_ok()
}

/// Whether the type generated for `record` gets a derived clone.
pub fn should_derive_clone(record: &Record) -> (b: bool)
    ensures
        b == spec_should_derive_clone(record),
{
    if record.is_union {
        should_derive_copy(record)
    } else {
        record.is_unpin() && is_trivial(record.copy_constructor) && check_by_value(
            record,
        ).is_ok()
    }
}

/// A type that is copied bitwise is also cloned.
pub proof fn lemma_copy_implies_clone(record: &Record)
    ensures
        spec_should_derive_copy(record) ==> spec_should_derive_clone(record),
{
}

/// Whether a drop is synthesized for the type generated for `record`: where
/// destroying a value runs code, the record's own or a member's.
pub open spec fn spec_should_implement_drop(record: &Record) -> bool {
    match record.destructor {
        SpecialMemberFunc::Trivial => false,
        SpecialMemberFunc::NontrivialMembers => true,
        SpecialMemberFunc::NontrivialUserDefined => true,
        SpecialMemberFunc::Deleted => false,
        SpecialMemberFunc::Unavailable => false,
    }
}

/// Whether a drop is synthesized for the type generated for `record`.
pub fn should_implement_drop(record: &Record) -> (b: bool)
    ensures
        b == spec_should_implement_drop(record),
{
    match record.destructor {
        SpecialMemberFunc::Trivial => false,
        SpecialMemberFunc::NontrivialMembers => true,
        SpecialMemberFunc::NontrivialUserDefined => true,
        SpecialMemberFunc::Deleted => false,
        SpecialMemberFunc::Unavailable => false,
    }
}

/// The error for a name that is no identifier.
pub open spec fn rs_ident_error(name: Seq<char>) -> ErrorModel {
    ErrorModel::root(
        ErrorKind::InvalidIdentifier,
        "Can't format `"@ + name + "` as an identifier"@,
    )
}

/// The identifier `name`, or the error for it.
pub open spec fn rs_ident_tokens(name: Seq<char>) -> Result<Seq<Tok>, ErrorModel> {
    if is_ident(name) {
        Ok(ident_tokens(name))
    } else {
        Err(rs_ident_error(name))
    }
}

/// The identifier `name`; an error where `name` is no identifier.
pub fn make_rs_ident(name: &str) -> (r: Result<TokenStream, BindingError>)
    ensures
        tokens_are(r, rs_ident_tokens(name@)),
{
    match ident(name) {
        Some(ts) => Ok(ts),
        None => {
            let mut message = String::from_str("Can't format `");
            message.append(name);
            message.append("` as an identifier");
            Err(BindingError::new(ErrorKind::InvalidIdentifier, message))
        },
    }
}

/// Either a named lifetime, or the elided lifetime `_`.
///
/// An elided lifetime stands only where a lifetime occurs in a single input
/// position; it is never valid for an output.
#[derive(Debug)]
pub struct Lifetime(pub String);

impl View for Lifetime {
    type V = Seq<char>;

    open spec fn view(&self) -> Seq<char> {
        self.0@
    }
}

/// The lifetime `name` as it is written anywhere: `'name`.
pub open spec fn lifetime_anywhere_tokens(name: Seq<char>) -> Result<Seq<Tok>, ErrorModel> {
    match rs_ident_tokens(name) {
        Err(e) => Err(e),
        Ok(_) => Ok(lifetime_tokens(name)),
    }
}

/// The lifetime `name` as it is written in a reference: nothing for the
/// elided lifetime, `'name` for any other.
pub open spec fn lifetime_reference_tokens(name: Seq<char>) -> Result<Seq<Tok>, ErrorModel> {
    if name == "_"@ {
        Ok(Seq::empty())
    } else {
        lifetime_anywhere_tokens(name)
    }
}

impl Lifetime {
    /// The lifetime with the given name.
    pub fn new(name: &str) -> (lifetime: Lifetime)
        ensures
            lifetime@ == name@,
    {
        Lifetime(String::from_str(name))
    }

    /// The lifetime that the unit declares as `lifetime_name`.
    pub fn from_name(lifetime_name: &LifetimeName) -> (lifetime: Lifetime)
        ensures
            lifetime@ == lifetime_name.name@,
    {
        Lifetime(lifetime_name.name.clone())
    }

    /// A lifetime of the same name.
    pub fn duplicate(&self) -> (lifetime: Lifetime)
        ensures
            lifetime@ == self@,
    {
        Lifetime(self.0.clone())
    }

    /// The lifetime as it is written in a reference: nothing where it is
    /// elided.
    pub fn format_for_reference(&self) -> (r: Result<TokenStream, BindingError>)
        ensures
            tokens_are(r, lifetime_reference_tokens(self@)),
    {
        if str_eq(self.0.as_str(), "_") {
            Ok(empty_stream())
        } else {
            self.to_tokens()
        }
    }

    /// The lifetime as it is written anywhere: `'name`, also where it is
    /// elided.
    pub fn to_tokens(&self) -> (r: Result<TokenStream, BindingError>)
        ensures
            tokens_are(r, lifetime_anywhere_tokens(self@)),
    {
        match make_rs_ident(self.0.as_str()) {
            Err(e) => Err(e),
            Ok(name) => {
                let mut out = joint('\'');
                append(&mut out, name);
                Ok(out)
            },
        }
    }
}

/// The namespaces that enclose a declaration, the outermost first.
#[derive(Debug)]
pub struct NamespaceQualifier {
    pub namespaces: Vec<String>,
}

impl View for NamespaceQualifier {
    type V = Seq<Seq<char>>;

    open spec fn view(&self) -> Seq<Seq<char>> {
        texts_of(self.namespaces@)
    }
}

/// The first `n` of `namespaces` as a path: each followed by `::`.
pub open spec fn namespace_tokens(namespaces: Seq<Seq<char>>, n: nat) -> Result<
    Seq<Tok>,
    ErrorModel,
>
    decreases n,
{
    if n == 0 || n > namespaces.len() {
        Ok(Seq::empty())
    } else {
        match namespace_tokens(namespaces, (n - 1) as nat) {
            Err(e) => Err(e),
            Ok(tokens) => match rs_ident_tokens(namespaces[n - 1]) {
                Err(e) => Err(e),
                Ok(name) => Ok(tokens + name + path_sep_tokens()),
            },
        }
    }
}

proof fn lemma_namespace_tokens_error(namespaces: Seq<Seq<char>>, n: nat, m: nat)
    requires
        n <= m <= namespaces.len(),
        namespace_tokens(namespaces, n) is Err,
    ensures
        namespace_tokens(namespaces, m) == namespace_tokens(namespaces, n),
    decreases m,
{
    if n < m {
        lemma_namespace_tokens_error(namespaces, n, (m - 1) as nat);
    }
}

impl NamespaceQualifier {
    /// The qualifier of the given namespaces.
    pub fn new(namespaces: Vec<String>) -> (qualifier: NamespaceQualifier)
        ensures
            qualifier@ == texts_of(namespaces@),
    {
        NamespaceQualifier { namespaces }
    }

    /// A qualifier of the same namespaces.
    pub fn duplicate(&self) -> (qualifier: NamespaceQualifier)
        ensures
            qualifier@ == self@,
    {
        let mut namespaces: Vec<String> = Vec::new();
        let mut i: usize = 0;
        while i < self.namespaces.len()
            invariant
                i <= self.namespaces.len(),
                texts_of(namespaces@) == self@.take(i as int),
            decreases self.namespaces.len() - i,
        {
            let ghost before = texts_of(namespaces@);
            namespaces.push(self.namespaces[i].clone());
            assert(texts_of(namespaces@) =~= before.push(self.namespaces@[i as int]@));
            assert(self@.take(i as int + 1) =~= self@.take(i as int).push(self@[i as int]));
            i += 1;
        }
        assert(self@.take(self.namespaces.len() as int) =~= self@);
        NamespaceQualifier { namespaces }
    }

    /// The qualifier as a path: each namespace followed by `::`.
    pub fn format_for_rs(&self) -> (r: Result<TokenStream, BindingError>)
        ensures
            tokens_are(r, namespace_tokens(self@, self@.len())),
    {
        let mut out = empty_stream();
        let mut i: usize = 0;
        while i < self.namespaces.len()
            invariant
                i <= self.namespaces.len(),
                namespace_tokens(self@, i as nat) == Ok::<Seq<Tok>, ErrorModel>(stream_of(out)),
            decreases self.namespaces.len() - i,
        {
            match make_rs_ident(self.namespaces[i].as_str()) {
                Err(e) => {
                    proof {
                        lemma_namespace_tokens_error(self@, i as nat + 1, self@.len());
                    }
                    return Err(e);
                },
                Ok(name) => {
                    append(&mut out, name);
                    append(&mut out, path_sep());
                },
            }
            i += 1;
        }
        Ok(out)
    }
}

/// The path from the root of a crate to the module that holds a type.
#[derive(Debug)]
pub struct CratePath {
    /// The name of another crate, or `None` within the current crate.
    pub crate_ident: Option<String>,
    pub crate_root_path: NamespaceQualifier,
    pub namespace_qualifier: NamespaceQualifier,
}

/// The mathematical model of a `CratePath`.
pub struct CratePathModel {
    pub crate_ident: Option<Seq<char>>,
    pub crate_root_path: Seq<Seq<char>>,
    pub namespace_qualifier: Seq<Seq<char>>,
}

impl View for CratePath {
    type V = CratePathModel;

    open spec fn view(&self) -> CratePathModel {
        CratePathModel {
            crate_ident: match self.crate_ident {
                Some(name) => Some(name@),
                None => None,
            },
            crate_root_path: self.crate_root_path@,
            namespace_qualifier: self.namespace_qualifier@,
        }
    }
}

impl CratePathModel {
    /// The path as it is written: `crate ::` or the name of the other crate
    /// and `::`, then the root path and the namespaces, each followed by
    /// `::`.
    pub open spec fn tokens(self) -> Result<Seq<Tok>, ErrorModel> {
        match (match self.crate_ident {
            None => Ok(word_tokens(Word::Crate)),
            Some(name) => rs_ident_tokens(name),
        }) {
            Err(e) => Err(e),
            Ok(crate_ident) => match namespace_tokens(
                self.crate_root_path,
                self.crate_root_path.len(),
            ) {
                Err(e) => Err(e),
                Ok(crate_root_path) => match namespace_tokens(
                    self.namespace_qualifier,
                    self.namespace_qualifier.len(),
                ) {
                    Err(e) => Err(e),
                    Ok(namespace_qualifier) => Ok(
                        crate_ident + path_sep_tokens() + crate_root_path + namespace_qualifier,
                    ),
                },
            },
        }
    }
}

/// The root path of the crate generated for the unit `ir`, as namespaces.
pub open spec fn root_path_of(ir: &IR) -> Seq<Seq<char>> {
    match ir.crate_root_path {
        Some(path) => seq![path@],
        None => Seq::empty(),
    }
}

impl CratePath {
    /// The path to the namespaces `namespace_qualifier` of the crate
    /// `crate_ident`, below the root path of the unit `ir`.
    pub fn new(ir: &IR, namespace_qualifier: NamespaceQualifier, crate_ident: Option<String>) -> (path:
        CratePath)
        ensures
            path@ == (CratePathModel {
                crate_ident: match crate_ident {
                    Some(name) => Some(name@),
                    None => None,
                },
                crate_root_path: root_path_of(ir),
                namespace_qualifier: namespace_qualifier@,
            }),
    {
        let mut root: Vec<String> = Vec::new();
        match &ir.crate_root_path {
            Some(path) => {
                root.push(path.clone());
            },
            None => {},
        }
        assert(texts_of(root@) =~= root_path_of(ir));
        CratePath { crate_ident, crate_root_path: NamespaceQualifier::new(root), namespace_qualifier }
    }

    /// A path to the same module.
    pub fn duplicate(&self) -> (path: CratePath)
        ensures
            path@ == self@,
    {
        CratePath {
            crate_ident: match &self.crate_ident {
                Some(name) => Some(name.clone()),
                None => None,
            },
            crate_root_path: self.crate_root_path.duplicate(),
            namespace_qualifier: self.namespace_qualifier.duplicate(),
        }
    }

    /// The path as it is written.
    pub fn to_tokens(&self) -> (r: Result<TokenStream, BindingError>)
        ensures
            tokens_are(r, self@.tokens()),
    {
        let crate_ident = match &self.crate_ident {
            None => word(Word::Crate),
            Some(name) => match make_rs_ident(name.as_str()) {
                Err(e) => {
                    return Err(e);
                },
                Ok(name) => name,
            },
        };
        let crate_root_path = match self.crate_root_path.format_for_rs() {
            Err(e) => {
                return Err(e);
            },
            Ok(tokens) => tokens,
        };
        let namespace_qualifier = match self.namespace_qualifier.format_for_rs() {
            Err(e) => {
                return Err(e);
            },
            Ok(tokens) => tokens,
        };
        let mut out = crate_ident;
        append(&mut out, path_sep());
        append(&mut out, crate_root_path);
        append(&mut out, namespace_qualifier);
        Ok(out)
    }
}

/// A scalar type with the same representation on both sides.
#[derive(Clone, Copy, Debug, PartialEq, Eq, Structural)]
pub enum PrimitiveType {
    /// `()`, and `void` in a pointer
    Unit,
    /// `bool`
    Bool,
    /// `u8`
    U8,
    /// `i8`
    I8,
    /// `u16`
    U16,
    /// `i16`
    I16,
    /// `u32`
    U32,
    /// `i32`
    I32,
    /// `u64`
    U64,
    /// `i64`
    I64,
    /// `usize`
    Usize,
    /// `isize`
    Isize,
    /// `f32`
    F32,
    /// `f64`
    F64,
    /// `c_char`
    CChar,
    /// `c_uchar`
    CUchar,
    /// `c_schar`
    CSchar,
    /// `c_ushort`
    CUshort,
    /// `c_short`
    CShort,
    /// `c_uint`
    CUint,
    /// `c_int`
    CInt,
    /// `c_ulong`
    CUlong,
    /// `c_long`
    CLong,
    /// `c_ulonglong`
    CUlonglong,
    /// `c_longlong`
    CLonglong,
}

/// `:: core :: ffi :: name`
pub open spec fn ffi_path_tokens(name: Word) -> Seq<Tok> {
    path_sep_tokens() + word_tokens(Word::Core) + path_sep_tokens() + word_tokens(Word::Ffi)
        + path_sep_tokens() + word_tokens(name)
}

/// `:: core :: ffi :: name`
pub fn ffi_path(name: Word) -> (ts: TokenStream)
    ensures
        stream_of(ts) == ffi_path_tokens(name),
{
    let mut out = path_sep();
    append(&mut out, word(Word::Core));
    append(&mut out, path_sep());
    append(&mut out, word(Word::Ffi));
    append(&mut out, path_sep());
    append(&mut out, word(name));
    out
}

impl PrimitiveType {
    /// The spelling by which the unit names the type.
    pub open spec fn name(self) -> Seq<char> {
        match self {
            PrimitiveType::Unit => "()"@,
            PrimitiveType::Bool => "bool"@,
            PrimitiveType::U8 => "u8"@,
            PrimitiveType::I8 => "i8"@,
            PrimitiveType::U16 => "u16"@,
            PrimitiveType::I16 => "i16"@,
            PrimitiveType::U32 => "u32"@,
            PrimitiveType::I32 => "i32"@,
            PrimitiveType::U64 => "u64"@,
            PrimitiveType::I64 => "i64"@,
            PrimitiveType::Usize => "usize"@,
            PrimitiveType::Isize => "isize"@,
            PrimitiveType::F32 => "f32"@,
            PrimitiveType::F64 => "f64"@,
            PrimitiveType::CChar => "::core::ffi::c_char"@,
            PrimitiveType::CUchar => "::core::ffi::c_uchar"@,
            PrimitiveType::CSchar => "::core::ffi::c_schar"@,
            PrimitiveType::CUshort => "::core::ffi::c_ushort"@,
            PrimitiveType::CShort => "::core::ffi::c_short"@,
            PrimitiveType::CUint => "::core::ffi::c_uint"@,
            PrimitiveType::CInt => "::core::ffi::c_int"@,
            PrimitiveType::CUlong => "::core::ffi::c_ulong"@,
            PrimitiveType::CLong => "::core::ffi::c_long"@,
            PrimitiveType::CUlonglong => "::core::ffi::c_ulonglong"@,
            PrimitiveType::CLonglong => "::core::ffi::c_longlong"@,
        }
    }

    /// The type that the unit names by `s`, if it is one of the scalars.
    pub open spec fn spec_from_str(s: Seq<char>) -> Option<PrimitiveType> {
        if s == "()"@ {
            Some(PrimitiveType::Unit)
        } else if s == "bool"@ {
            Some(PrimitiveType::Bool)
        } else if s == "u8"@ {
            Some(PrimitiveType::U8)
        } else if s == "i8"@ {
            Some(PrimitiveType::I8)
        } else if s == "u16"@ {
            Some(PrimitiveType::U16)
        } else if s == "i16"@ {
            Some(PrimitiveType::I16)
        } else if s == "u32"@ {
            Some(PrimitiveType::U32)
        } else if s == "i32"@ {
            Some(PrimitiveType::I32)
        } else if s == "u64"@ {
            Some(PrimitiveType::U64)
        } else if s == "i64"@ {
            Some(PrimitiveType::I64)
        } else if s == "usize"@ {
            Some(PrimitiveType::Usize)
        } else if s == "isize"@ {
            Some(PrimitiveType::Isize)
        } else if s == "f32"@ {
            Some(PrimitiveType::F32)
        } else if s == "f64"@ {
            Some(PrimitiveType::F64)
        } else if s == "::core::ffi::c_char"@ {
            Some(PrimitiveType::CChar)
        } else if s == "::core::ffi::c_uchar"@ {
            Some(PrimitiveType::CUchar)
        } else if s == "::core::ffi::c_schar"@ {
            Some(PrimitiveType::CSchar)
        } else if s == "::core::ffi::c_ushort"@ {
            Some(PrimitiveType::CUshort)
        } else if s == "::core::ffi::c_short"@ {
            Some(PrimitiveType::CShort)
        } else if s == "::core::ffi::c_uint"@ {
            Some(PrimitiveType::CUint)
        } else if s == "::core::ffi::c_int"@ {
            Some(PrimitiveType::CInt)
        } else if s == "::core::ffi::c_ulong"@ {
            Some(PrimitiveType::CUlong)
        } else if s == "::core::ffi::c_long"@ {
            Some(PrimitiveType::CLong)
        } else if s == "::core::ffi::c_ulonglong"@ {
            Some(PrimitiveType::CUlonglong)
        } else if s == "::core::ffi::c_longlong"@ {
            Some(PrimitiveType::CLonglong)
        } else {
            None
        }
    }

    /// The type as it is written in generated source: the unit type as
    /// `:: core :: ffi :: c_void`, a type of the language by its name, a type
    /// of the other side by its path below `:: core :: ffi`.
    pub open spec fn tokens(self) -> Seq<Tok> {
        match self {
            PrimitiveType::Unit => ffi_path_tokens(Word::CVoid),
            PrimitiveType::Bool => word_tokens(Word::Bool),
            PrimitiveType::U8 => word_tokens(Word::U8),
            PrimitiveType::I8 => word_tokens(Word::I8),
            PrimitiveType::U16 => word_tokens(Word::U16),
            PrimitiveType::I16 => word_tokens(Word::I16),
            PrimitiveType::U32 => word_tokens(Word::U32),
            PrimitiveType::I32 => word_tokens(Word::I32),
            PrimitiveType::U64 => word_tokens(Word::U64),
            PrimitiveType::I64 => word_tokens(Word::I64),
            PrimitiveType::Usize => word_tokens(Word::Usize),
            PrimitiveType::Isize => word_tokens(Word::Isize),
            PrimitiveType::F32 => word_tokens(Word::F32),
            PrimitiveType::F64 => word_tokens(Word::F64),
            PrimitiveType::CChar => ffi_path_tokens(Word::CChar),
            PrimitiveType::CUchar => ffi_path_tokens(Word::CUchar),
            PrimitiveType::CSchar => ffi_path_tokens(Word::CSchar),
            PrimitiveType::CUshort => ffi_path_tokens(Word::CUshort),
            PrimitiveType::CShort => ffi_path_tokens(Word::CShort),
            PrimitiveType::CUint => ffi_path_tokens(Word::CUint),
            PrimitiveType::CInt => ffi_path_tokens(Word::CInt),
            PrimitiveType::CUlong => ffi_path_tokens(Word::CUlong),
            PrimitiveType::CLong => ffi_path_tokens(Word::CLong),
            PrimitiveType::CUlonglong => ffi_path_tokens(Word::CUlonglong),
            PrimitiveType::CLonglong => ffi_path_tokens(Word::CLonglong),
        }
    }

    /// The type that the unit names by `s`; `None` where `s` names no scalar.
    pub fn from_str(s: &str) -> (r: Option<PrimitiveType>)
        ensures
            r == PrimitiveType::spec_from_str(s@),
    {
        if str_eq(s, "()") {
            Some(PrimitiveType::Unit)
        } else if str_eq(s, "bool") {
            Some(PrimitiveType::Bool)
        } else if str_eq(s, "u8") {
            Some(PrimitiveType::U8)
        } else if str_eq(s, "i8") {
            Some(PrimitiveType::I8)
        } else if str_eq(s, "u16") {
            Some(PrimitiveType::U16)
        } else if str_eq(s, "i16") {
            Some(PrimitiveType::I16)
        } else if str_eq(s, "u32") {
            Some(PrimitiveType::U32)
        } else if str_eq(s, "i32") {
            Some(PrimitiveType::I32)
        } else if str_eq(s, "u64") {
            Some(PrimitiveType::U64)
        } else if str_eq(s, "i64") {
            Some(PrimitiveType::I64)
        } else if str_eq(s, "usize") {
            Some(PrimitiveType::Usize)
        } else if str_eq(s, "isize") {
            Some(PrimitiveType::Isize)
        } else if str_eq(s, "f32") {
            Some(PrimitiveType::F32)
        } else if str_eq(s, "f64") {
            Some(PrimitiveType::F64)
        } else if str_eq(s, "::core::ffi::c_char") {
            Some(PrimitiveType::CChar)
        } else if str_eq(s, "::core::ffi::c_uchar") {
            Some(PrimitiveType::CUchar)
        } else if str_eq(s, "::core::ffi::c_schar") {
            Some(PrimitiveType::CSchar)
        } else if str_eq(s, "::core::ffi::c_ushort") {
            Some(PrimitiveType::CUshort)
        } else if str_eq(s, "::core::ffi::c_short") {
            Some(PrimitiveType::CShort)
        } else if str_eq(s, "::core::ffi::c_uint") {
            Some(PrimitiveType::CUint)
        } else if str_eq(s, "::core::ffi::c_int") {
            Some(PrimitiveType::CInt)
        } else if str_eq(s, "::core::ffi::c_ulong") {
            Some(PrimitiveType::CUlong)
        } else if str_eq(s, "::core::ffi::c_long") {
            Some(PrimitiveType::CLong)
        } else if str_eq(s, "::core::ffi::c_ulonglong") {
            Some(PrimitiveType::CUlonglong)
        } else if str_eq(s, "::core::ffi::c_longlong") {
            Some(PrimitiveType::CLonglong)
        } else {
            None
        }
    }

    /// The type as it is written in generated source.
    pub fn to_tokens(self) -> (ts: TokenStream)
        ensures
            stream_of(ts) == self.tokens(),
    {
        match self {
            PrimitiveType::Unit => ffi_path(Word::CVoid),
            PrimitiveType::Bool => word(Word::Bool),
            PrimitiveType::U8 => word(Word::U8),
            PrimitiveType::I8 => word(Word::I8),
            PrimitiveType::U16 => word(Word::U16),
            PrimitiveType::I16 => word(Word::I16),
            PrimitiveType::U32 => word(Word::U32),
            PrimitiveType::I32 => word(Word::I32),
            PrimitiveType::U64 => word(Word::U64),
            PrimitiveType::I64 => word(Word::I64),
            PrimitiveType::Usize => word(Word::Usize),
            PrimitiveType::Isize => word(Word::Isize),
            PrimitiveType::F32 => word(Word::F32),
            PrimitiveType::F64 => word(Word::F64),
            PrimitiveType::CChar => ffi_path(Word::CChar),
            PrimitiveType::CUchar => ffi_path(Word::CUchar),
            PrimitiveType::CSchar => ffi_path(Word::CSchar),
            PrimitiveType::CUshort => ffi_path(Word::CUshort),
            PrimitiveType::CShort => ffi_path(Word::CShort),
            PrimitiveType::CUint => ffi_path(Word::CUint),
            PrimitiveType::CInt => ffi_path(Word::CInt),
            PrimitiveType::CUlong => ffi_path(Word::CUlong),
            PrimitiveType::CLong => ffi_path(Word::CLong),
            PrimitiveType::CUlonglong => ffi_path(Word::CUlonglong),
            PrimitiveType::CLonglong => ffi_path(Word::CLonglong),
        }
    }
}

/// Where a type is used.
#[derive(Clone, Copy, Debug, PartialEq, Eq, Structural)]
pub enum TypeLocation {
    FnReturn,
    FnParam,
    Other,
}

} // verus!
