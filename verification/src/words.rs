//! The fixed words of generated source: keywords and well-known names.

use crate::tokens::{ident_stream, ident_tokens, stream_of, Tok};
use proc_macro2::TokenStream;
use vstd::prelude::*;

verus! {

/// A fixed word of generated source.
#[derive(Clone, Copy, Debug, PartialEq, Eq, Structural)]
pub enum Word {
    /// `pub`
    Pub,
    /// `fn`
    Fn,
    /// `unsafe`
    Unsafe,
    /// `crate`
    Crate,
    /// `detail`
    Detail,
    /// `self`
    SelfValue,
    /// `Self`
    SelfType,
    /// `impl`
    Impl,
    /// `for`
    For,
    /// `Drop`
    DropTrait,
    /// `drop`
    Drop,
    /// `Default`
    DefaultTrait,
    /// `default`
    Default,
    /// `Clone`
    CloneTrait,
    /// `clone`
    Clone,
    /// `From`
    FromTrait,
    /// `from`
    From,
    /// `let`
    Let,
    /// `mut`
    Mut,
    /// `tmp`
    Tmp,
    /// `std`
    Std,
    /// `mem`
    Mem,
    /// `MaybeUninit`
    MaybeUninit,
    /// `zeroed`
    Zeroed,
    /// `assume_init`
    AssumeInit,
    /// `inline`
    Inline,
    /// `always`
    Always,
    /// `link_name`
    LinkName,
    /// `doc`
    Doc,
    /// `derive`
    Derive,
    /// `Copy`
    CopyTrait,
    /// `repr`
    Repr,
    /// `C`
    UpperC,
    /// `struct`
    Struct,
    /// `placeholder`
    Placeholder,
    /// `u8`
    U8,
    /// `Unpin`
    Unpin,
    /// `ManuallyDrop`
    ManuallyDrop,
    /// `type`
    Type,
    /// `const`
    Const,
    /// `assert`
    Assert,
    /// `size_of`
    SizeOf,
    /// `align_of`
    AlignOf,
    /// `offset_of`
    OffsetOf,
    /// `mod`
    Mod,
    /// `allow`
    Allow,
    /// `unused_imports`
    UnusedImports,
    /// `use`
    Use,
    /// `super`
    Super,
    /// `extern`
    Extern,
    /// `Option`
    OptionType,
    /// `i32`
    I32,
    /// `feature`
    Feature,
    /// `non_camel_case_types`
    NonCamelCaseTypes,
    /// `non_snake_case`
    NonSnakeCase,
    /// `memoffset_unstable_const`
    MemoffsetUnstableConst,
    /// `__NEWLINE__`
    Newline,
    /// `__COMMENT__`
    Comment,
    /// `__HASH_TOKEN__`
    HashToken,
    /// `custom_inner_attributes`
    CustomInnerAttributes,
    /// `const_ptr_offset_from`
    ConstPtrOffsetFrom,
    /// `negative_impls`
    NegativeImpls,
    /// `arbitrary_self_types`
    ArbitrarySelfTypes,
    /// `core`
    Core,
    /// `pin`
    Pin,
    /// `Pin`
    PinType,
    /// `ctor`
    Ctor,
    /// `RvalueReference`
    RvalueReference,
    /// `ConstRvalueReference`
    ConstRvalueReference,
    /// `ffi`
    Ffi,
    /// `c_void`
    CVoid,
    /// `bool`
    Bool,
    /// `i8`
    I8,
    /// `u16`
    U16,
    /// `i16`
    I16,
    /// `u32`
    U32,
    /// `u64`
    U64,
    /// `i64`
    I64,
    /// `usize`
    Usize,
    /// `isize`
    Isize,
    /// `f32`
    F32,
    /// `f64`
    F64,
    /// `c_char`
    CChar,
    /// `c_uchar`
    CUchar,
    /// `c_schar`
    CSchar,
    /// `c_ushort`
    CUshort,
    /// `c_short`
    CShort,
    /// `c_uint`
    CUint,
    /// `c_int`
    CInt,
    /// `c_ulong`
    CUlong,
    /// `c_long`
    CLong,
    /// `c_ulonglong`
    CUlonglong,
    /// `c_longlong`
    CLonglong,
    /// `class`
    Class,
    /// `static_assert`
    StaticAssert,
    /// `sizeof`
    Sizeof,
    /// `alignof`
    Alignof,
    /// `offsetof`
    Offsetof,
    /// `return`
    Return,
    /// `include`
    Include,
    /// `memory`
    Memory,
    /// `cstddef`
    Cstddef,
    /// `rs_api_impl_support`
    RsApiImplSupport,
    /// `construct_at`
    ConstructAt,
    /// `destroy_at`
    DestroyAt,
    /// `namespace`
    Namespace,
    /// `void`
    Void,
    /// `float`
    Float,
    /// `double`
    Double,
    /// `pragma`
    Pragma,
    /// `once`
    Once,
    /// `_`
    Underscore,
}

/// The text of a word.
pub open spec fn word_text(w: Word) -> Seq<char> {
    match w {
        Word::Pub => "pub"@,
        Word::Fn => "fn"@,
        Word::Unsafe => "unsafe"@,
        Word::Crate => "crate"@,
        Word::Detail => "detail"@,
        Word::SelfValue => "self"@,
        Word::SelfType => "Self"@,
        Word::Impl => "impl"@,
        Word::For => "for"@,
        Word::DropTrait => "Drop"@,
        Word::Drop => "drop"@,
        Word::DefaultTrait => "Default"@,
        Word::Default => "default"@,
        Word::CloneTrait => "Clone"@,
        Word::Clone => "clone"@,
        Word::FromTrait => "From"@,
        Word::From => "from"@,
        Word::Let => "let"@,
        Word::Mut => "mut"@,
        Word::Tmp => "tmp"@,
        Word::Std => "std"@,
        Word::Mem => "mem"@,
        Word::MaybeUninit => "MaybeUninit"@,
        Word::Zeroed => "zeroed"@,
        Word::AssumeInit => "assume_init"@,
        Word::Inline => "inline"@,
        Word::Always => "always"@,
        Word::LinkName => "link_name"@,
        Word::Doc => "doc"@,
        Word::Derive => "derive"@,
        Word::CopyTrait => "Copy"@,
        Word::Repr => "repr"@,
        Word::UpperC => "C"@,
        Word::Struct => "struct"@,
        Word::Placeholder => "placeholder"@,
        Word::U8 => "u8"@,
        Word::Unpin => "Unpin"@,
        Word::ManuallyDrop => "ManuallyDrop"@,
        Word::Type => "type"@,
        Word::Const => "const"@,
        Word::Assert => "assert"@,
        Word::SizeOf => "size_of"@,
        Word::AlignOf => "align_of"@,
        Word::OffsetOf => "offset_of"@,
        Word::Mod => "mod"@,
        Word::Allow => "allow"@,
        Word::UnusedImports => "unused_imports"@,
        Word::Use => "use"@,
        Word::Super => "super"@,
        Word::Extern => "extern"@,
        Word::OptionType => "Option"@,
        Word::I32 => "i32"@,
        Word::Feature => "feature"@,
        Word::NonCamelCaseTypes => "non_camel_case_types"@,
        Word::NonSnakeCase => "non_snake_case"@,
        Word::MemoffsetUnstableConst => "memoffset_unstable_const"@,
        Word::Newline => "__NEWLINE__"@,
        Word::Comment => "__COMMENT__"@,
        Word::HashToken => "__HASH_TOKEN__"@,
        Word::CustomInnerAttributes => "custom_inner_attributes"@,
        Word::ConstPtrOffsetFrom => "const_ptr_offset_from"@,
        Word::NegativeImpls => "negative_impls"@,
        Word::ArbitrarySelfTypes => "arbitrary_self_types"@,
        Word::Core => "core"@,
        Word::Pin => "pin"@,
        Word::PinType => "Pin"@,
        Word::Ctor => "ctor"@,
        Word::RvalueReference => "RvalueReference"@,
        Word::ConstRvalueReference => "ConstRvalueReference"@,
        Word::Ffi => "ffi"@,
        Word::CVoid => "c_void"@,
        Word::Bool => "bool"@,
        Word::I8 => "i8"@,
        Word::U16 => "u16"@,
        Word::I16 => "i16"@,
        Word::U32 => "u32"@,
        Word::U64 => "u64"@,
        Word::I64 => "i64"@,
        Word::Usize => "usize"@,
        Word::Isize => "isize"@,
        Word::F32 => "f32"@,
        Word::F64 => "f64"@,
        Word::CChar => "c_char"@,
        Word::CUchar => "c_uchar"@,
        Word::CSchar => "c_schar"@,
        Word::CUshort => "c_ushort"@,
        Word::CShort => "c_short"@,
        Word::CUint => "c_uint"@,
        Word::CInt => "c_int"@,
        Word::CUlong => "c_ulong"@,
        Word::CLong => "c_long"@,
        Word::CUlonglong => "c_ulonglong"@,
        Word::CLonglong => "c_longlong"@,
        Word::Class => "class"@,
        Word::StaticAssert => "static_assert"@,
        Word::Sizeof => "sizeof"@,
        Word::Alignof => "alignof"@,
        Word::Offsetof => "offsetof"@,
        Word::Return => "return"@,
        Word::Include => "include"@,
        Word::Memory => "memory"@,
        Word::Cstddef => "cstddef"@,
        Word::RsApiImplSupport => "rs_api_impl_support"@,
        Word::ConstructAt => "construct_at"@,
        Word::DestroyAt => "destroy_at"@,
        Word::Namespace => "namespace"@,
        Word::Void => "void"@,
        Word::Float => "float"@,
        Word::Double => "double"@,
        Word::Pragma => "pragma"@,
        Word::Once => "once"@,
        Word::Underscore => "_"@,
    }
}

/// The stream of one word.
pub open spec fn word_tokens(w: Word) -> Seq<Tok> {
    ident_tokens(word_text(w))
}

/// The text of a word.
pub fn word_str(w: Word) -> (text: &'static str)
    ensures
        text@ == word_text(w),
{
    match w {
        Word::Pub => "pub",
        Word::Fn => "fn",
        Word::Unsafe => "unsafe",
        Word::Crate => "crate",
        Word::Detail => "detail",
        Word::SelfValue => "self",
        Word::SelfType => "Self",
        Word::Impl => "impl",
        Word::For => "for",
        Word::DropTrait => "Drop",
        Word::Drop => "drop",
        Word::DefaultTrait => "Default",
        Word::Default => "default",
        Word::CloneTrait => "Clone",
        Word::Clone => "clone",
        Word::FromTrait => "From",
        Word::From => "from",
        Word::Let => "let",
        Word::Mut => "mut",
        Word::Tmp => "tmp",
        Word::Std => "std",
        Word::Mem => "mem",
        Word::MaybeUninit => "MaybeUninit",
        Word::Zeroed => "zeroed",
        Word::AssumeInit => "assume_init",
        Word::Inline => "inline",
        Word::Always => "always",
        Word::LinkName => "link_name",
        Word::Doc => "doc",
        Word::Derive => "derive",
        Word::CopyTrait => "Copy",
        Word::Repr => "repr",
        Word::UpperC => "C",
        Word::Struct => "struct",
        Word::Placeholder => "placeholder",
        Word::U8 => "u8",
        Word::Unpin => "Unpin",
        Word::ManuallyDrop => "ManuallyDrop",
        Word::Type => "type",
        Word::Const => "const",
        Word::Assert => "assert",
        Word::SizeOf => "size_of",
        Word::AlignOf => "align_of",
        Word::OffsetOf => "offset_of",
        Word::Mod => "mod",
        Word::Allow => "allow",
        Word::UnusedImports => "unused_imports",
        Word::Use => "use",
        Word::Super => "super",
        Word::Extern => "extern",
        Word::OptionType => "Option",
        Word::I32 => "i32",
        Word::Feature => "feature",
        Word::NonCamelCaseTypes => "non_camel_case_types",
        Word::NonSnakeCase => "non_snake_case",
        Word::MemoffsetUnstableConst => "memoffset_unstable_const",
        Word::Newline => "__NEWLINE__",
        Word::Comment => "__COMMENT__",
        Word::HashToken => "__HASH_TOKEN__",
        Word::CustomInnerAttributes => "custom_inner_attributes",
        Word::ConstPtrOffsetFrom => "const_ptr_offset_from",
        Word::NegativeImpls => "negative_impls",
        Word::ArbitrarySelfTypes => "arbitrary_self_types",
        Word::Core => "core",
        Word::Pin => "pin",
        Word::PinType => "Pin",
        Word::Ctor => "ctor",
        Word::RvalueReference => "RvalueReference",
        Word::ConstRvalueReference => "ConstRvalueReference",
        Word::Ffi => "ffi",
        Word::CVoid => "c_void",
        Word::Bool => "bool",
        Word::I8 => "i8",
        Word::U16 => "u16",
        Word::I16 => "i16",
        Word::U32 => "u32",
        Word::U64 => "u64",
        Word::I64 => "i64",
        Word::Usize => "usize",
        Word::Isize => "isize",
        Word::F32 => "f32",
        Word::F64 => "f64",
        Word::CChar => "c_char",
        Word::CUchar => "c_uchar",
        Word::CSchar => "c_schar",
        Word::CUshort => "c_ushort",
        Word::CShort => "c_short",
        Word::CUint => "c_uint",
        Word::CInt => "c_int",
        Word::CUlong => "c_ulong",
        Word::CLong => "c_long",
        Word::CUlonglong => "c_ulonglong",
        Word::CLonglong => "c_longlong",
        Word::Class => "class",
        Word::StaticAssert => "static_assert",
        Word::Sizeof => "sizeof",
        Word::Alignof => "alignof",
        Word::Offsetof => "offsetof",
        Word::Return => "return",
        Word::Include => "include",
        Word::Memory => "memory",
        Word::Cstddef => "cstddef",
        Word::RsApiImplSupport => "rs_api_impl_support",
        Word::ConstructAt => "construct_at",
        Word::DestroyAt => "destroy_at",
        Word::Namespace => "namespace",
        Word::Void => "void",
        Word::Float => "float",
        Word::Double => "double",
        Word::Pragma => "pragma",
        Word::Once => "once",
        Word::Underscore => "_",
    }
}

proof fn lemma_words_from_pub_are_identifiers(w: Word)
    requires
        w == Word::Pub || w == Word::Fn || w == Word::Unsafe || w == Word::Crate || w == Word::Detail || w == Word::SelfValue || w == Word::SelfType || w == Word::Impl || w == Word::For || w == Word::DropTrait || w == Word::Drop || w == Word::DefaultTrait,
    ensures
        crate::tokens::is_ident(word_text(w)),
{
    reveal_strlit("pub");
    reveal_strlit("fn");
    reveal_strlit("unsafe");
    reveal_strlit("crate");
    reveal_strlit("detail");
    reveal_strlit("self");
    reveal_strlit("Self");
    reveal_strlit("impl");
    reveal_strlit("for");
    reveal_strlit("Drop");
    reveal_strlit("drop");
    reveal_strlit("Default");
}

proof fn lemma_words_from_default_are_identifiers(w: Word)
    requires
        w == Word::Default || w == Word::CloneTrait || w == Word::Clone || w == Word::FromTrait || w == Word::From || w == Word::Let || w == Word::Mut || w == Word::Tmp || w == Word::Std || w == Word::Mem || w == Word::MaybeUninit || w == Word::Zeroed,
    ensures
        crate::tokens::is_ident(word_text(w)),
{
    reveal_strlit("default");
    reveal_strlit("Clone");
    reveal_strlit("clone");
    reveal_strlit("From");
    reveal_strlit("from");
    reveal_strlit("let");
    reveal_strlit("mut");
    reveal_strlit("tmp");
    reveal_strlit("std");
    reveal_strlit("mem");
    reveal_strlit("MaybeUninit");
    reveal_strlit("zeroed");
}

proof fn lemma_words_from_assume_init_are_identifiers(w: Word)
    requires
        w == Word::AssumeInit || w == Word::Inline || w == Word::Always || w == Word::LinkName || w == Word::Doc || w == Word::Derive || w == Word::CopyTrait || w == Word::Repr || w == Word::UpperC || w == Word::Struct || w == Word::Placeholder || w == Word::U8,
    ensures
        crate::tokens::is_ident(word_text(w)),
{
    reveal_strlit("assume_init");
    reveal_strlit("inline");
    reveal_strlit("always");
    reveal_strlit("link_name");
    reveal_strlit("doc");
    reveal_strlit("derive");
    reveal_strlit("Copy");
    reveal_strlit("repr");
    reveal_strlit("C");
    reveal_strlit("struct");
    reveal_strlit("placeholder");
    reveal_strlit("u8");
}

proof fn lemma_words_from_unpin_are_identifiers(w: Word)
    requires
        w == Word::Unpin || w == Word::ManuallyDrop || w == Word::Type || w == Word::Const || w == Word::Assert || w == Word::SizeOf || w == Word::AlignOf || w == Word::OffsetOf || w == Word::Mod || w == Word::Allow || w == Word::UnusedImports || w == Word::Use,
    ensures
        crate::tokens::is_ident(word_text(w)),
{
    reveal_strlit("Unpin");
    reveal_strlit("ManuallyDrop");
    reveal_strlit("type");
    reveal_strlit("const");
    reveal_strlit("assert");
    reveal_strlit("size_of");
    reveal_strlit("align_of");
    reveal_strlit("offset_of");
    reveal_strlit("mod");
    reveal_strlit("allow");
    reveal_strlit("unused_imports");
    reveal_strlit("use");
}

proof fn lemma_words_from_super_are_identifiers(w: Word)
    requires
        w == Word::Super || w == Word::Extern || w == Word::OptionType || w == Word::I32 || w == Word::Feature || w == Word::NonCamelCaseTypes || w == Word::NonSnakeCase || w == Word::MemoffsetUnstableConst || w == Word::Newline || w == Word::Comment || w == Word::HashToken || w == Word::CustomInnerAttributes,
    ensures
        crate::tokens::is_ident(word_text(w)),
{
    reveal_strlit("super");
    reveal_strlit("extern");
    reveal_strlit("Option");
    reveal_strlit("i32");
    reveal_strlit("feature");
    reveal_strlit("non_camel_case_types");
    reveal_strlit("non_snake_case");
    reveal_strlit("memoffset_unstable_const");
    reveal_strlit("__NEWLINE__");
    reveal_strlit("__COMMENT__");
    reveal_strlit("__HASH_TOKEN__");
    reveal_strlit("custom_inner_attributes");
}

proof fn lemma_words_from_const_ptr_offset_from_are_identifiers(w: Word)
    requires
        w == Word::ConstPtrOffsetFrom || w == Word::NegativeImpls || w == Word::ArbitrarySelfTypes || w == Word::Core || w == Word::Pin || w == Word::PinType || w == Word::Ctor || w == Word::RvalueReference || w == Word::ConstRvalueReference || w == Word::Ffi || w == Word::CVoid || w == Word::Bool,
    ensures
        crate::tokens::is_ident(word_text(w)),
{
    reveal_strlit("const_ptr_offset_from");
    reveal_strlit("negative_impls");
    reveal_strlit("arbitrary_self_types");
    reveal_strlit("core");
    reveal_strlit("pin");
    reveal_strlit("Pin");
    reveal_strlit("ctor");
    reveal_strlit("RvalueReference");
    reveal_strlit("ConstRvalueReference");
    reveal_strlit("ffi");
    reveal_strlit("c_void");
    reveal_strlit("bool");
}

proof fn lemma_words_from_i8_are_identifiers(w: Word)
    requires
        w == Word::I8 || w == Word::U16 || w == Word::I16 || w == Word::U32 || w == Word::U64 || w == Word::I64 || w == Word::Usize || w == Word::Isize || w == Word::F32 || w == Word::F64 || w == Word::CChar || w == Word::CUchar,
    ensures
        crate::tokens::is_ident(word_text(w)),
{
    reveal_strlit("i8");
    reveal_strlit("u16");
    reveal_strlit("i16");
    reveal_strlit("u32");
    reveal_strlit("u64");
    reveal_strlit("i64");
    reveal_strlit("usize");
    reveal_strlit("isize");
    reveal_strlit("f32");
    reveal_strlit("f64");
    reveal_strlit("c_char");
    reveal_strlit("c_uchar");
}

proof fn lemma_words_from_c_schar_are_identifiers(w: Word)
    requires
        w == Word::CSchar || w == Word::CUshort || w == Word::CShort || w == Word::CUint || w == Word::CInt || w == Word::CUlong || w == Word::CLong || w == Word::CUlonglong || w == Word::CLonglong || w == Word::Class || w == Word::StaticAssert || w == Word::Sizeof,
    ensures
        crate::tokens::is_ident(word_text(w)),
{
    reveal_strlit("c_schar");
    reveal_strlit("c_ushort");
    reveal_strlit("c_short");
    reveal_strlit("c_uint");
    reveal_strlit("c_int");
    reveal_strlit("c_ulong");
    reveal_strlit("c_long");
    reveal_strlit("c_ulonglong");
    reveal_strlit("c_longlong");
    reveal_strlit("class");
    reveal_strlit("static_assert");
    reveal_strlit("sizeof");
}

proof fn lemma_words_from_alignof_are_identifiers(w: Word)
    requires
        w == Word::Alignof || w == Word::Offsetof || w == Word::Return || w == Word::Include || w == Word::Memory || w == Word::Cstddef || w == Word::RsApiImplSupport || w == Word::ConstructAt || w == Word::DestroyAt || w == Word::Namespace || w == Word::Void || w == Word::Float,
    ensures
        crate::tokens::is_ident(word_text(w)),
{
    reveal_strlit("alignof");
    reveal_strlit("offsetof");
    reveal_strlit("return");
    reveal_strlit("include");
    reveal_strlit("memory");
    reveal_strlit("cstddef");
    reveal_strlit("rs_api_impl_support");
    reveal_strlit("construct_at");
    reveal_strlit("destroy_at");
    reveal_strlit("namespace");
    reveal_strlit("void");
    reveal_strlit("float");
}

proof fn lemma_words_from_double_are_identifiers(w: Word)
    requires
        w == Word::Double || w == Word::Pragma || w == Word::Once || w == Word::Underscore,
    ensures
        crate::tokens::is_ident(word_text(w)),
{
    reveal_strlit("double");
    reveal_strlit("pragma");
    reveal_strlit("once");
    reveal_strlit("_");
}

/// Every word is an identifier.
pub proof fn lemma_word_is_identifier(w: Word)
    ensures
        crate::tokens::is_ident(word_text(w)),
{
    match w {
        Word::Pub | Word::Fn | Word::Unsafe | Word::Crate | Word::Detail | Word::SelfValue | Word::SelfType | Word::Impl | Word::For | Word::DropTrait | Word::Drop | Word::DefaultTrait => {
            lemma_words_from_pub_are_identifiers(w);
        },
        Word::Default | Word::CloneTrait | Word::Clone | Word::FromTrait | Word::From | Word::Let | Word::Mut | Word::Tmp | Word::Std | Word::Mem | Word::MaybeUninit | Word::Zeroed => {
            lemma_words_from_default_are_identifiers(w);
        },
        Word::AssumeInit | Word::Inline | Word::Always | Word::LinkName | Word::Doc | Word::Derive | Word::CopyTrait | Word::Repr | Word::UpperC | Word::Struct | Word::Placeholder | Word::U8 => {
            lemma_words_from_assume_init_are_identifiers(w);
        },
        Word::Unpin | Word::ManuallyDrop | Word::Type | Word::Const | Word::Assert | Word::SizeOf | Word::AlignOf | Word::OffsetOf | Word::Mod | Word::Allow | Word::UnusedImports | Word::Use => {
            lemma_words_from_unpin_are_identifiers(w);
        },
        Word::Super | Word::Extern | Word::OptionType | Word::I32 | Word::Feature | Word::NonCamelCaseTypes | Word::NonSnakeCase | Word::MemoffsetUnstableConst | Word::Newline | Word::Comment | Word::HashToken | Word::CustomInnerAttributes => {
            lemma_words_from_super_are_identifiers(w);
        },
        Word::ConstPtrOffsetFrom | Word::NegativeImpls | Word::ArbitrarySelfTypes | Word::Core | Word::Pin | Word::PinType | Word::Ctor | Word::RvalueReference | Word::ConstRvalueReference | Word::Ffi | Word::CVoid | Word::Bool => {
            lemma_words_from_const_ptr_offset_from_are_identifiers(w);
        },
        Word::I8 | Word::U16 | Word::I16 | Word::U32 | Word::U64 | Word::I64 | Word::Usize | Word::Isize | Word::F32 | Word::F64 | Word::CChar | Word::CUchar => {
            lemma_words_from_i8_are_identifiers(w);
        },
        Word::CSchar | Word::CUshort | Word::CShort | Word::CUint | Word::CInt | Word::CUlong | Word::CLong | Word::CUlonglong | Word::CLonglong | Word::Class | Word::StaticAssert | Word::Sizeof => {
            lemma_words_from_c_schar_are_identifiers(w);
        },
        Word::Alignof | Word::Offsetof | Word::Return | Word::Include | Word::Memory | Word::Cstddef | Word::RsApiImplSupport | Word::ConstructAt | Word::DestroyAt | Word::Namespace | Word::Void | Word::Float => {
            lemma_words_from_alignof_are_identifiers(w);
        },
        Word::Double | Word::Pragma | Word::Once | Word::Underscore => {
            lemma_words_from_double_are_identifiers(w);
        },
    }
}

/// The stream of one word.
pub fn word(w: Word) -> (ts: TokenStream)
    ensures
        stream_of(ts) == word_tokens(w),
{
    proof {
        lemma_word_is_identifier(w);
    }
    ident_stream(word_str(w))
}

} // verus!
