//! Type representations: what each type of the other side stands for in
//! generated source, the predicates that the mapping of special members
//! rests on, and the form in which each type is written.

use crate::error::{tokens_are, BindingError, ErrorKind, ErrorModel};
use crate::ir::{
    namespaces_from, same_template_arg, template_arg_eq, BazelLabel, DeclId, Enum,
    IncompleteRecord, Record, SpecialMemberFunc, TemplateSpecialization, TypeAlias,
    TypeMapOverride, IR,
};
use crate::features::RustFeatures;
use crate::rs_snippet::{
    check_by_value, lifetime_anywhere_tokens, lifetime_reference_tokens, make_rs_ident,
    root_path_of, rs_ident_tokens, should_derive_copy, spec_check_by_value,
    spec_should_derive_copy, CratePath, CratePathModel, Lifetime, Mutability, NamespaceQualifier,
    PrimitiveType, RsSnippet, SnippetModel,
};
use crate::strings::{decimal, decimal_string, path_parts_of, split_path, str_eq, texts_of};
use crate::tokens::{
    append, arrow, arrow_tokens, bracket, bracket_tokens, comma_separated, duplicate, empty_stream,
    lex, lexed, paren, paren_tokens, path_sep, path_sep_tokens, punct, punct_tokens,
    separated_tokens, stream_of, streams_of, string_literal, string_tokens, Tok,
};
use crate::words::{word, word_tokens, Word};
use proc_macro2::TokenStream;
use vstd::prelude::*;

verus! {

/// An instantiation of a template that is mapped to a generic type written
/// by hand.
pub struct GenericMonomorphization<'ir> {
    /// The name of the template.
    pub template_name: String,
    /// The name of the generic type that stands for it.
    pub rust_generic_name: String,
    /// The type arguments of the instantiation.
    pub type_args: Vec<RsTypeKind<'ir>>,
}

/// What a type of the other side stands for in generated source.
///
/// This is the full representation: every shape that a type can take, with
/// the declarations that it refers to. Signature lowering works on the
/// smaller `rs_api::RsTypeKind`, which keeps only what decides how a
/// signature is written.
pub enum RsTypeKind<'ir> {
    Pointer { pointee: Box<RsTypeKind<'ir>>, mutability: Mutability },
    Reference { referent: Box<RsTypeKind<'ir>>, mutability: Mutability, lifetime: Lifetime },
    RvalueReference { referent: Box<RsTypeKind<'ir>>, mutability: Mutability, lifetime: Lifetime },
    FuncPtr { abi: String, return_type: Box<RsTypeKind<'ir>>, param_types: Vec<RsTypeKind<'ir>> },
    /// A record that is declared but not defined.
    IncompleteRecord { incomplete_record: &'ir IncompleteRecord, crate_path: CratePath },
    /// A record that is defined.
    Record {
        record: &'ir Record,
        crate_path: CratePath,
        known_generic_monomorphization: Option<Box<GenericMonomorphization<'ir>>>,
    },
    Enum { enum_: &'ir Enum, crate_path: CratePath },
    TypeAlias {
        type_alias: &'ir TypeAlias,
        underlying_type: Box<RsTypeKind<'ir>>,
        crate_path: CratePath,
    },
    Primitive(PrimitiveType),
    Slice(Box<RsTypeKind<'ir>>),
    /// A value that may be absent.
    Optional(Box<RsTypeKind<'ir>>),
    /// A type written by hand that stands for a record, with the functions
    /// that convert in both directions.
    BridgeType {
        name: String,
        cpp_to_rust_converter: String,
        rust_to_cpp_converter: String,
        original_type: &'ir Record,
    },
    /// Any other type, known by its name alone.
    Other { name: String, type_args: Vec<RsTypeKind<'ir>>, is_same_abi: bool },
}

/// The mathematical model of a `GenericMonomorphization`.
pub struct GenericModel {
    pub template_name: Seq<char>,
    pub rust_generic_name: Seq<char>,
    pub type_args: Seq<KindModel>,
}

/// The mathematical model of an `RsTypeKind`: a finite tree.
pub enum KindModel {
    Pointer { pointee: Box<KindModel>, mutability: Mutability },
    Reference { referent: Box<KindModel>, mutability: Mutability, lifetime: Seq<char> },
    RvalueReference { referent: Box<KindModel>, mutability: Mutability, lifetime: Seq<char> },
    FuncPtr { abi: Seq<char>, return_type: Box<KindModel>, param_types: Seq<KindModel> },
    IncompleteRecord { incomplete_record: IncompleteRecord, crate_path: CratePathModel },
    Record { record: Record, crate_path: CratePathModel, generic: Option<GenericModel> },
    Enum { enum_: Enum, crate_path: CratePathModel },
    TypeAlias { type_alias: TypeAlias, underlying_type: Box<KindModel>, crate_path: CratePathModel },
    Primitive(PrimitiveType),
    Slice(Box<KindModel>),
    Optional(Box<KindModel>),
    BridgeType {
        name: Seq<char>,
        cpp_to_rust_converter: Seq<char>,
        rust_to_cpp_converter: Seq<char>,
        original_type: Record,
    },
    Other { name: Seq<char>, type_args: Seq<KindModel>, is_same_abi: bool },
}

impl<'ir> RsTypeKind<'ir> {
    /// The mathematical model of this value.
    pub open spec fn model(&self) -> KindModel
        decreases self,
    {
        match self {
            RsTypeKind::Pointer { pointee, mutability } => KindModel::Pointer {
                pointee: Box::new(pointee.model()),
                mutability: *mutability,
            },
            RsTypeKind::Reference { referent, mutability, lifetime } => KindModel::Reference {
                referent: Box::new(referent.model()),
                mutability: *mutability,
                lifetime: lifetime@,
            },
            RsTypeKind::RvalueReference { referent, mutability, lifetime } => KindModel::RvalueReference {
                referent: Box::new(referent.model()),
                mutability: *mutability,
                lifetime: lifetime@,
            },
            RsTypeKind::FuncPtr { abi, return_type, param_types } => KindModel::FuncPtr {
                abi: abi@,
                return_type: Box::new(return_type.model()),
                param_types: Seq::new(
                    param_types@.len(),
                    |i: int|
                        if 0 <= i < param_types@.len() {
                            param_types@[i].model()
                        } else {
                            KindModel::Primitive(PrimitiveType::Unit)
                        },
                ),
            },
            RsTypeKind::IncompleteRecord { incomplete_record, crate_path } => KindModel::IncompleteRecord {
                incomplete_record: **incomplete_record,
                crate_path: crate_path@,
            },
            RsTypeKind::Record { record, crate_path, known_generic_monomorphization } => KindModel::Record {
                record: **record,
                crate_path: crate_path@,
                generic: match known_generic_monomorphization {
                    None => None,
                    Some(generic) => Some(
                        GenericModel {
                            template_name: generic.template_name@,
                            rust_generic_name: generic.rust_generic_name@,
                            type_args: Seq::new(
                                generic.type_args@.len(),
                                |i: int|
                                    if 0 <= i < generic.type_args@.len() {
                                        generic.type_args@[i].model()
                                    } else {
                                        KindModel::Primitive(PrimitiveType::Unit)
                                    },
                            ),
                        },
                    ),
                },
            },
            RsTypeKind::Enum { enum_, crate_path } => KindModel::Enum {
                enum_: **enum_,
                crate_path: crate_path@,
            },
            RsTypeKind::TypeAlias { type_alias, underlying_type, crate_path } => KindModel::TypeAlias {
                type_alias: **type_alias,
                underlying_type: Box::new(underlying_type.model()),
                crate_path: crate_path@,
            },
            RsTypeKind::Primitive(primitive) => KindModel::Primitive(*primitive),
            RsTypeKind::Slice(element) => KindModel::Slice(Box::new(element.model())),
            RsTypeKind::Optional(inner) => KindModel::Optional(Box::new(inner.model())),
            RsTypeKind::BridgeType {
                name,
                cpp_to_rust_converter,
                rust_to_cpp_converter,
                original_type,
            } => KindModel::BridgeType {
                name: name@,
                cpp_to_rust_converter: cpp_to_rust_converter@,
                rust_to_cpp_converter: rust_to_cpp_converter@,
                original_type: **original_type,
            },
            RsTypeKind::Other { name, type_args, is_same_abi } => KindModel::Other {
                name: name@,
                type_args: Seq::new(
                    type_args@.len(),
                    |i: int|
                        if 0 <= i < type_args@.len() {
                            type_args@[i].model()
                        } else {
                            KindModel::Primitive(PrimitiveType::Unit)
                        },
                ),
                is_same_abi: *is_same_abi,
            },
        }
    }
}

impl<'ir> View for RsTypeKind<'ir> {
    type V = KindModel;

    open spec fn view(&self) -> KindModel {
        self.model()
    }
}

/// The models of a sequence of kinds, in order.
pub open spec fn models_of(kinds: Seq<RsTypeKind>) -> Seq<KindModel> {
    Seq::new(kinds.len(), |i: int| kinds[i]@)
}

impl<'ir> View for GenericMonomorphization<'ir> {
    type V = GenericModel;

    open spec fn view(&self) -> GenericModel {
        GenericModel {
            template_name: self.template_name@,
            rust_generic_name: self.rust_generic_name@,
            type_args: models_of(self.type_args@),
        }
    }
}

impl KindModel {
    /// Whether values of the type may be moved by copying their bytes.
    pub open spec fn spec_is_unpin(self) -> bool
        decreases self,
    {
        match self {
            KindModel::IncompleteRecord { .. } => false,
            KindModel::Record { record, generic, .. } => generic is Some || record.spec_is_unpin(),
            KindModel::TypeAlias { underlying_type, .. } => underlying_type.spec_is_unpin(),
            _ => true,
        }
    }

    /// Whether the type is unsafe to hand across a function boundary: a
    /// pointer, whose lifetime nothing tells.
    pub open spec fn spec_is_unsafe(self) -> bool {
        self is Pointer
    }

    /// Whether values of the type can be passed by value through an
    /// adapter with C linkage.
    pub open spec fn spec_is_c_abi_compatible_by_value(self) -> bool
        decreases self,
    {
        match self {
            KindModel::TypeAlias { underlying_type, .. } => underlying_type.spec_is_c_abi_compatible_by_value(),
            KindModel::IncompleteRecord { .. } => false,
            KindModel::Record { .. } => false,
            KindModel::BridgeType { .. } => false,
            KindModel::Other { is_same_abi, .. } => is_same_abi,
            _ => true,
        }
    }

    /// Whether values of the type can be constructed by moving; references
    /// count as if they were pointers.
    pub open spec fn spec_is_move_constructible(self) -> bool
        decreases self,
    {
        match self {
            KindModel::IncompleteRecord { .. } => false,
            KindModel::Record { record, .. } => record.move_constructor
                != SpecialMemberFunc::Unavailable,
            KindModel::TypeAlias { underlying_type, .. } => underlying_type.spec_is_move_constructible(),
            _ => true,
        }
    }

    /// Whether values of the type can be held by value, and the reason
    /// where they cannot.
    pub open spec fn by_value(self) -> Result<(), ErrorModel>
        decreases self,
    {
        match self {
            KindModel::Record { record, .. } => spec_check_by_value(&record),
            KindModel::TypeAlias { underlying_type, .. } => underlying_type.by_value(),
            _ => Ok(()),
        }
    }

    /// Whether values of the type are copied bitwise.
    pub open spec fn spec_implements_copy(self) -> bool
        decreases self,
    {
        match self {
            KindModel::Primitive(_) => true,
            KindModel::Pointer { .. } => true,
            KindModel::FuncPtr { .. } => true,
            KindModel::Reference { mutability: Mutability::Const, .. } => true,
            KindModel::Reference { mutability: Mutability::Mut, .. } => false,
            KindModel::RvalueReference { .. } => false,
            KindModel::IncompleteRecord { .. } => false,
            KindModel::Record { record, .. } => spec_should_derive_copy(&record),
            KindModel::Enum { .. } => true,
            KindModel::TypeAlias { underlying_type, .. } => underlying_type.spec_implements_copy(),
            KindModel::Optional(inner) => inner.spec_implements_copy(),
            KindModel::Slice(element) => element.spec_implements_copy(),
            KindModel::BridgeType { .. } => false,
            KindModel::Other { type_args, .. } => forall|i: int|
                0 <= i < type_args.len() ==> (#[trigger] type_args[i]).spec_implements_copy(),
        }
    }

    /// Whether the type is the record `expected`.
    pub open spec fn spec_is_record(self, expected: &Record) -> bool {
        self matches KindModel::Record { record, .. } && record.id == expected.id
    }

    /// What a pointer or reference leads to.
    pub open spec fn spec_referent(self) -> Option<KindModel> {
        match self {
            KindModel::Pointer { pointee, .. } => Some(*pointee),
            KindModel::Reference { referent, .. } => Some(*referent),
            KindModel::RvalueReference { referent, .. } => Some(*referent),
            _ => None,
        }
    }

    /// The lifetime of a reference.
    pub open spec fn spec_lifetime(self) -> Option<Seq<char>> {
        match self {
            KindModel::Reference { lifetime, .. } => Some(lifetime),
            KindModel::RvalueReference { lifetime, .. } => Some(lifetime),
            _ => None,
        }
    }

    /// Whether the type is a reference of either kind to the record
    /// `expected`.
    pub open spec fn spec_is_ref_to(self, expected: &Record) -> bool {
        match self {
            KindModel::Reference { referent, .. } => referent.spec_is_record(expected),
            KindModel::RvalueReference { referent, .. } => referent.spec_is_record(expected),
            _ => false,
        }
    }

    /// Whether the type is a shared reference to the record `expected`.
    pub open spec fn spec_is_shared_ref_to(self, expected: &Record) -> bool {
        match self {
            KindModel::Reference { referent, mutability: Mutability::Const, .. } => referent.spec_is_record(
                expected,
            ),
            _ => false,
        }
    }

    /// Whether the type is `bool`, directly or through type aliases.
    pub open spec fn spec_is_bool(self) -> bool
        decreases self,
    {
        match self {
            KindModel::Primitive(PrimitiveType::Bool) => true,
            KindModel::TypeAlias { underlying_type, .. } => underlying_type.spec_is_bool(),
            _ => false,
        }
    }
}

impl<'ir> RsTypeKind<'ir> {
    /// Whether values of the type may be moved by copying their bytes.
    pub fn is_unpin(&self) -> (b: bool)
        ensures
            b == self@.spec_is_unpin(),
        decreases self,
    {
        match self {
            RsTypeKind::IncompleteRecord { .. } => false,
            RsTypeKind::Record { record, known_generic_monomorphization, .. } => {
                known_generic_monomorphization.is_some() || record.is_unpin()
            },
            RsTypeKind::TypeAlias { underlying_type, .. } => underlying_type.is_unpin(),
            _ => true,
        }
    }

    /// Whether the type is unsafe to hand across a function boundary.
    pub fn is_unsafe(&self) -> (b: bool)
        ensures
            b == self@.spec_is_unsafe(),
    {
        match self {
            RsTypeKind::Pointer { .. } => true,
            _ => false,
        }
    }

    /// Whether the type is written by hand to stand for a record.
    pub fn is_bridge_type(&self) -> (b: bool)
        ensures
            b == (self@ is BridgeType),
    {
        match self {
            RsTypeKind::BridgeType { .. } => true,
            _ => false,
        }
    }

    /// Whether the type is one of the scalars.
    pub fn is_primitive(&self) -> (b: bool)
        ensures
            b == (self@ is Primitive),
    {
        match self {
            RsTypeKind::Primitive(_) => true,
            _ => false,
        }
    }

    /// Whether values of the type can be passed by value through an
    /// adapter with C linkage.
    pub fn is_c_abi_compatible_by_value(&self) -> (b: bool)
        ensures
            b == self@.spec_is_c_abi_compatible_by_value(),
        decreases self,
    {
        match self {
            RsTypeKind::TypeAlias { underlying_type, .. } => underlying_type.is_c_abi_compatible_by_value(),
            RsTypeKind::IncompleteRecord { .. } => false,
            RsTypeKind::Record { .. } => false,
            RsTypeKind::BridgeType { .. } => false,
            RsTypeKind::Other { is_same_abi, .. } => *is_same_abi,
            _ => true,
        }
    }

    /// Whether values of the type can be constructed by moving.
    pub fn is_move_constructible(&self) -> (b: bool)
        ensures
            b == self@.spec_is_move_constructible(),
        decreases self,
    {
        match self {
            RsTypeKind::IncompleteRecord { .. } => false,
            RsTypeKind::Record { record, .. } => match record.move_constructor {
                SpecialMemberFunc::Unavailable => false,
                _ => true,
            },
            RsTypeKind::TypeAlias { underlying_type, .. } => underlying_type.is_move_constructible(),
            _ => true,
        }
    }

    /// Whether values of the type can be held by value; the reason where
    /// they cannot.
    pub fn check_by_value(&self) -> (r: Result<(), BindingError>)
        ensures
            match self@.by_value() {
                Ok(()) => r is Ok,
                Err(error) => r matches Err(e) && e@ == error,
            },
        decreases self,
    {
        match self {
            RsTypeKind::Record { record, .. } => check_by_value(record),
            RsTypeKind::TypeAlias { underlying_type, .. } => underlying_type.check_by_value(),
            _ => Ok(()),
        }
    }

    /// Whether values of the type are copied bitwise.
    pub fn implements_copy(&self) -> (b: bool)
        ensures
            b == self@.spec_implements_copy(),
        decreases self,
    {
        match self {
            RsTypeKind::Primitive(_) => true,
            RsTypeKind::Pointer { .. } => true,
            RsTypeKind::FuncPtr { .. } => true,
            RsTypeKind::Reference { mutability: Mutability::Const, .. } => true,
            RsTypeKind::Reference { mutability: Mutability::Mut, .. } => false,
            RsTypeKind::RvalueReference { .. } => false,
            RsTypeKind::IncompleteRecord { .. } => false,
            RsTypeKind::Record { record, .. } => should_derive_copy(record),
            RsTypeKind::Enum { .. } => true,
            RsTypeKind::TypeAlias { underlying_type, .. } => underlying_type.implements_copy(),
            RsTypeKind::Optional(inner) => inner.implements_copy(),
            RsTypeKind::Slice(element) => element.implements_copy(),
            RsTypeKind::BridgeType { .. } => false,
            RsTypeKind::Other { type_args, .. } => {
                let ghost args = self@->Other_type_args;
                assert(args =~= models_of(type_args@));
                let mut i: usize = 0;
                while i < type_args.len()
                    invariant
                        i <= type_args.len(),
                        args == models_of(type_args@),
                        self matches RsTypeKind::Other { type_args: own, .. } && own == type_args,
                        self@ matches KindModel::Other { type_args: margs, .. } && margs == args,
                        forall|k: int| 0 <= k < i ==> (#[trigger] args[k]).spec_implements_copy(),
                    decreases type_args.len() - i,
                {
                    proof {
                        assert(decreases_to!(self => self->Other_type_args));
                        assert(decreases_to!(self->Other_type_args => self->Other_type_args@));
                        assert(decreases_to!(self->Other_type_args@ => self->Other_type_args@[i as int]));
                    }
                    if !type_args[i].implements_copy() {
                        assert(!args[i as int].spec_implements_copy());
                        return false;
                    }
                    i += 1;
                }
                true
            },
        }
    }

    /// Whether the type is the record `expected`.
    pub fn is_record(&self, expected: &Record) -> (b: bool)
        ensures
            b == self@.spec_is_record(expected),
    {
        match self {
            RsTypeKind::Record { record, .. } => record.id.0 == expected.id.0,
            _ => false,
        }
    }

    /// Whether the type is a reference of either kind to the record
    /// `expected`.
    pub fn is_ref_to(&self, expected: &Record) -> (b: bool)
        ensures
            b == self@.spec_is_ref_to(expected),
    {
        match self {
            RsTypeKind::Reference { referent, .. } => {
                assert(self@ matches KindModel::Reference { referent: r, .. } && *r == referent@);
                referent.is_record(expected)
            },
            RsTypeKind::RvalueReference { referent, .. } => {
                assert(self@ matches KindModel::RvalueReference { referent: r, .. } && *r
                    == referent@);
                referent.is_record(expected)
            },
            _ => false,
        }
    }

    /// Whether the type is a shared reference to the record `expected`.
    pub fn is_shared_ref_to(&self, expected: &Record) -> (b: bool)
        ensures
            b == self@.spec_is_shared_ref_to(expected),
    {
        match self {
            RsTypeKind::Reference { referent, mutability: Mutability::Const, .. } => {
                assert(self@ matches KindModel::Reference { referent: r, .. } && *r == referent@);
                referent.is_record(expected)
            },
            _ => false,
        }
    }

    /// Whether the type is `bool`, directly or through type aliases.
    pub fn is_bool(&self) -> (b: bool)
        ensures
            b == self@.spec_is_bool(),
        decreases self,
    {
        match self {
            RsTypeKind::Primitive(PrimitiveType::Bool) => true,
            RsTypeKind::TypeAlias { underlying_type, .. } => underlying_type.is_bool(),
            _ => false,
        }
    }

    /// What a pointer or reference leads to.
    pub fn referent(&self) -> (r: Option<&RsTypeKind<'ir>>)
        ensures
            match self@.spec_referent() {
                Some(target) => r matches Some(found) && found@ == target,
                None => r is None,
            },
    {
        match self {
            RsTypeKind::Pointer { pointee, .. } => Some(pointee),
            RsTypeKind::Reference { referent, .. } => Some(referent),
            RsTypeKind::RvalueReference { referent, .. } => Some(referent),
            _ => None,
        }
    }

    /// The lifetime of a reference; `None` for any other type.
    pub fn lifetime(&self) -> (r: Option<Lifetime>)
        ensures
            match self@.spec_lifetime() {
                Some(name) => r matches Some(found) && found@ == name,
                None => r is None,
            },
    {
        match self {
            RsTypeKind::Reference { lifetime, .. } => Some(lifetime.duplicate()),
            RsTypeKind::RvalueReference { lifetime, .. } => Some(lifetime.duplicate()),
            _ => None,
        }
    }
}

/// The error for a type whose name is not lexically valid.
pub open spec fn invalid_name_error(name: Seq<char>) -> ErrorModel {
    ErrorModel::root(ErrorKind::InvalidIdentifier, "Invalid type name in the IR: "@ + name)
}

/// The lifetimes among the first `n` of `lifetimes` that are not elided, as
/// they are written.
pub open spec fn named_lifetimes(lifetimes: Seq<Seq<char>>, n: nat) -> Result<
    Seq<Seq<Tok>>,
    ErrorModel,
>
    decreases n,
{
    if n == 0 || n > lifetimes.len() {
        Ok(Seq::empty())
    } else {
        match named_lifetimes(lifetimes, (n - 1) as nat) {
            Err(e) => Err(e),
            Ok(named) => if lifetimes[n - 1] == "_"@ {
                Ok(named)
            } else {
                match lifetime_anywhere_tokens(lifetimes[n - 1]) {
                    Err(e) => Err(e),
                    Ok(tokens) => Ok(named.push(tokens)),
                }
            },
        }
    }
}

/// The generic parameters `< 'a , 'b T , U >`: the lifetimes that are not
/// elided, then the types; nothing where there is neither.
pub open spec fn generic_params_of(lifetimes: Seq<Seq<char>>, types: Seq<Seq<Tok>>) -> Result<
    Seq<Tok>,
    ErrorModel,
> {
    match named_lifetimes(lifetimes, lifetimes.len()) {
        Err(e) => Err(e),
        Ok(named) => if named.len() == 0 && types.len() == 0 {
            Ok(Seq::empty())
        } else {
            Ok(
                punct_tokens('<') + separated_tokens(named, punct_tokens(',')) + separated_tokens(
                    types,
                    punct_tokens(','),
                ) + punct_tokens('>'),
            )
        },
    }
}

/// The views of a sequence of lifetimes, in order.
pub open spec fn lifetimes_of(lifetimes: Seq<Lifetime>) -> Seq<Seq<char>> {
    Seq::new(lifetimes.len(), |i: int| lifetimes[i]@)
}

proof fn lemma_named_lifetimes_error(lifetimes: Seq<Seq<char>>, n: nat, m: nat)
    requires
        n <= m <= lifetimes.len(),
        named_lifetimes(lifetimes, n) is Err,
    ensures
        named_lifetimes(lifetimes, m) == named_lifetimes(lifetimes, n),
    decreases m,
{
    if n < m {
        lemma_named_lifetimes_error(lifetimes, n, (m - 1) as nat);
    }
}

/// The generic parameters of the given lifetimes and types; nothing where
/// no lifetime is named and there is no type.
pub fn format_generic_params(lifetimes: &Vec<Lifetime>, types: &Vec<TokenStream>) -> (r: Result<
    TokenStream,
    BindingError,
>)
    ensures
        tokens_are(r, generic_params_of(lifetimes_of(lifetimes@), streams_of(types@))),
{
    let ghost all = lifetimes_of(lifetimes@);
    let mut named: Vec<TokenStream> = Vec::new();
    let mut i: usize = 0;
    assert(streams_of(named@) =~= Seq::empty());
    while i < lifetimes.len()
        invariant
            i <= lifetimes.len(),
            all == lifetimes_of(lifetimes@),
            named_lifetimes(all, i as nat) == Ok::<Seq<Seq<Tok>>, ErrorModel>(streams_of(named@)),
        decreases lifetimes.len() - i,
    {
        if !str_eq(lifetimes[i].0.as_str(), "_") {
            match lifetimes[i].to_tokens() {
                Err(e) => {
                    proof {
                        lemma_named_lifetimes_error(all, i as nat + 1, all.len());
                    }
                    return Err(e);
                },
                Ok(tokens) => {
                    let ghost before = streams_of(named@);
                    named.push(tokens);
                    assert(streams_of(named@) =~= before.push(stream_of(tokens)));
                },
            }
        }
        i += 1;
    }
    assert(streams_of(named@).len() == named@.len());
    assert(streams_of(types@).len() == types@.len());
    if named.len() == 0 && types.len() == 0 {
        Ok(empty_stream())
    } else {
        let mut out = punct('<');
        append(&mut out, comma_separated(&named));
        append(&mut out, comma_separated(types));
        append(&mut out, punct('>'));
        Ok(out)
    }
}

/// `:: core :: pin :: Pin`
pub open spec fn core_pin_tokens() -> Seq<Tok> {
    path_sep_tokens() + word_tokens(Word::Core) + path_sep_tokens() + word_tokens(Word::Pin)
        + path_sep_tokens() + word_tokens(Word::PinType)
}

/// `:: ctor :: name`
pub open spec fn ctor_path_tokens(name: Word) -> Seq<Tok> {
    path_sep_tokens() + word_tokens(Word::Ctor) + path_sep_tokens() + word_tokens(name)
}

/// The name of the rvalue reference type for the given qualifier.
pub open spec fn rvalue_reference_word(mutability: Mutability) -> Word {
    match mutability {
        Mutability::Mut => Word::RvalueReference,
        Mutability::Const => Word::ConstRvalueReference,
    }
}

/// The type `name` at the path `crate_path`.
pub open spec fn named_type_tokens(crate_path: CratePathModel, name: Seq<char>) -> Result<
    Seq<Tok>,
    ErrorModel,
> {
    match rs_ident_tokens(name) {
        Err(e) => Err(e),
        Ok(ident) => match crate_path.tokens() {
            Err(e) => Err(e),
            Ok(path) => Ok(path + ident),
        },
    }
}

/// The first `n` of `parts` as identifiers.
pub open spec fn part_idents(parts: Seq<Seq<char>>, n: nat) -> Result<Seq<Seq<Tok>>, ErrorModel>
    decreases n,
{
    if n == 0 || n > parts.len() {
        Ok(Seq::empty())
    } else {
        match part_idents(parts, (n - 1) as nat) {
            Err(e) => Err(e),
            Ok(idents) => match rs_ident_tokens(parts[n - 1]) {
                Err(e) => Err(e),
                Ok(ident) => Ok(idents.push(ident)),
            },
        }
    }
}

/// Whether one of `kinds` is unsafe to hand across a function boundary.
pub open spec fn any_unsafe(kinds: Seq<KindModel>) -> bool {
    exists|i: int| 0 <= i < kinds.len() && (#[trigger] kinds[i]).spec_is_unsafe()
}

/// The first `n` of `args` as they are written, or the first error among
/// them.
pub open spec fn tokens_of_args(args: Seq<KindModel>, self_record: Option<DeclId>, n: nat) -> Result<
    Seq<Seq<Tok>>,
    ErrorModel,
>
    decreases args, n,
{
    if n == 0 || n > args.len() {
        Ok(Seq::empty())
    } else {
        match tokens_of_args(args, self_record, (n - 1) as nat) {
            Err(e) => Err(e),
            Ok(formatted) => match args[n - 1].tokens(self_record) {
                Err(e) => Err(e),
                Ok(tokens) => Ok(formatted.push(tokens)),
            },
        }
    }
}

impl GenericModel {
    /// The generic type as it is written: the parts of its name with `::`
    /// between them, then the first type argument between `<` and `>`.
    pub open spec fn tokens(self) -> Result<Seq<Tok>, ErrorModel>
        decreases self, 1nat,
    {
        match tokens_of_args(
            self.type_args,
            None,
            if self.type_args.len() > 0 {
                1
            } else {
                0
            },
        ) {
            Err(e) => Err(e),
            Ok(inner) => match part_idents(
                path_parts_of(self.rust_generic_name),
                path_parts_of(self.rust_generic_name).len(),
            ) {
                Err(e) => Err(e),
                Ok(parts) => Ok(
                    separated_tokens(parts, path_sep_tokens()) + punct_tokens('<')
                        + separated_tokens(inner, punct_tokens(',')) + punct_tokens('>'),
                ),
            },
        }
    }
}

impl KindModel {
    /// The type as a return type: nothing for the unit type, `-> T` for any
    /// other.
    pub open spec fn return_fragment(self, self_record: Option<DeclId>) -> Result<
        Seq<Tok>,
        ErrorModel,
    >
        decreases self, 1nat,
    {
        match self {
            KindModel::Primitive(PrimitiveType::Unit) => Ok(Seq::empty()),
            _ => match self.tokens(self_record) {
                Err(e) => Err(e),
                Ok(tokens) => Ok(arrow_tokens() + tokens),
            },
        }
    }

    /// The type as it is written in generated source, with `Self` in place
    /// of the record `self_record` where one is given.
    ///
    /// A pointer is `* mut T` or `* const T`. A reference is `& 'a T` or
    /// `& 'a mut T`, without the lifetime where it is elided, and a mutable
    /// reference to a type that must not move is
    /// `:: core :: pin :: Pin < & 'a mut T >`. An rvalue reference is
    /// `:: ctor :: RvalueReference < 'a , T >`, or `ConstRvalueReference`. A
    /// function pointer is `extern "abi" fn ( params ) -> T`, `unsafe` where
    /// a parameter is a pointer. A record, enumeration or type alias is its
    /// name at its path, and a record that is a known instantiation of a
    /// template is the generic type that stands for it. A slice is `[ T ]`,
    /// an optional value `Option < T >`. Any other type is its name as
    /// source, followed by its type arguments.
    pub open spec fn tokens(self, self_record: Option<DeclId>) -> Result<Seq<Tok>, ErrorModel>
        decreases self, 0nat,
    {
        match self {
            KindModel::Pointer { pointee, mutability } => match pointee.tokens(self_record) {
                Err(e) => Err(e),
                Ok(nested) => Ok(punct_tokens('*') + mutability.pointer_tokens() + nested),
            },
            KindModel::Reference { referent, mutability, lifetime } => {
                match lifetime_reference_tokens(lifetime) {
                    Err(e) => Err(e),
                    Ok(lifetime) => match referent.tokens(self_record) {
                        Err(e) => Err(e),
                        Ok(nested) => {
                            let reference = punct_tokens('&') + lifetime
                                + mutability.reference_tokens() + nested;
                            if mutability == Mutability::Mut && !referent.spec_is_unpin() {
                                Ok(
                                    core_pin_tokens() + punct_tokens('<') + reference
                                        + punct_tokens('>'),
                                )
                            } else {
                                Ok(reference)
                            }
                        },
                    },
                }
            },
            KindModel::RvalueReference { referent, mutability, lifetime } => {
                match referent.tokens(self_record) {
                    Err(e) => Err(e),
                    Ok(nested) => match lifetime_anywhere_tokens(lifetime) {
                        Err(e) => Err(e),
                        Ok(lifetime) => Ok(
                            ctor_path_tokens(rvalue_reference_word(mutability)) + punct_tokens(
                                '<',
                            ) + lifetime + punct_tokens(',') + nested + punct_tokens('>'),
                        ),
                    },
                }
            },
            KindModel::FuncPtr { abi, return_type, param_types } => {
                match tokens_of_args(param_types, self_record, param_types.len()) {
                    Err(e) => Err(e),
                    Ok(params) => match return_type.return_fragment(self_record) {
                        Err(e) => Err(e),
                        Ok(return_fragment) => Ok(
                            (if any_unsafe(param_types) {
                                word_tokens(Word::Unsafe)
                            } else {
                                Seq::empty()
                            }) + word_tokens(Word::Extern) + string_tokens(abi) + word_tokens(
                                Word::Fn,
                            ) + paren_tokens(separated_tokens(params, punct_tokens(',')))
                                + return_fragment,
                        ),
                    },
                }
            },
            KindModel::IncompleteRecord { incomplete_record, crate_path } => named_type_tokens(
                crate_path,
                incomplete_record.identifier.identifier@,
            ),
            KindModel::Record { record, crate_path, generic } => {
                if self_record == Some(record.id) {
                    Ok(word_tokens(Word::SelfType))
                } else {
                    match generic {
                        Some(generic) => generic.tokens(),
                        None => named_type_tokens(crate_path, record.identifier.identifier@),
                    }
                }
            },
            KindModel::Enum { enum_, crate_path } => named_type_tokens(
                crate_path,
                enum_.identifier.identifier@,
            ),
            KindModel::TypeAlias { type_alias, crate_path, .. } => named_type_tokens(
                crate_path,
                type_alias.identifier.identifier@,
            ),
            KindModel::Primitive(primitive) => Ok(primitive.tokens()),
            KindModel::Slice(element) => match element.tokens(self_record) {
                Err(e) => Err(e),
                Ok(element) => Ok(bracket_tokens(element)),
            },
            KindModel::Optional(inner) => match inner.tokens(self_record) {
                Err(e) => Err(e),
                Ok(inner) => Ok(
                    word_tokens(Word::OptionType) + punct_tokens('<') + inner + punct_tokens('>'),
                ),
            },
            KindModel::BridgeType { name, .. } => rs_ident_tokens(name),
            KindModel::Other { name, type_args, .. } => match lexed(name) {
                None => Err(invalid_name_error(name)),
                Some(name_tokens) => match tokens_of_args(type_args, self_record, type_args.len()) {
                    Err(e) => Err(e),
                    Ok(args) => match generic_params_of(Seq::empty(), args) {
                        Err(e) => Err(e),
                        Ok(generic_params) => Ok(name_tokens + generic_params),
                    },
                },
            },
        }
    }
}

/// The identifier of an optional record.
pub open spec fn opt_record_id(record: Option<&Record>) -> Option<DeclId> {
    match record {
        Some(record) => Some(record.id),
        None => None,
    }
}

proof fn lemma_tokens_of_args_error(
    args: Seq<KindModel>,
    self_record: Option<DeclId>,
    n: nat,
    m: nat,
)
    requires
        n <= m <= args.len(),
        tokens_of_args(args, self_record, n) is Err,
    ensures
        tokens_of_args(args, self_record, m) == tokens_of_args(args, self_record, n),
    decreases m,
{
    if n < m {
        lemma_tokens_of_args_error(args, self_record, n, (m - 1) as nat);
    }
}

proof fn lemma_part_idents_error(parts: Seq<Seq<char>>, n: nat, m: nat)
    requires
        n <= m <= parts.len(),
        part_idents(parts, n) is Err,
    ensures
        part_idents(parts, m) == part_idents(parts, n),
    decreases m,
{
    if n < m {
        lemma_part_idents_error(parts, n, (m - 1) as nat);
    }
}

/// `:: core :: pin :: Pin`
pub fn core_pin() -> (ts: TokenStream)
    ensures
        stream_of(ts) == core_pin_tokens(),
{
    let mut out = path_sep();
    append(&mut out, word(Word::Core));
    append(&mut out, path_sep());
    append(&mut out, word(Word::Pin));
    append(&mut out, path_sep());
    append(&mut out, word(Word::PinType));
    out
}

/// `:: ctor :: name`
pub fn ctor_path(name: Word) -> (ts: TokenStream)
    ensures
        stream_of(ts) == ctor_path_tokens(name),
{
    let mut out = path_sep();
    append(&mut out, word(Word::Ctor));
    append(&mut out, path_sep());
    append(&mut out, word(name));
    out
}

/// The type `name` at the path `crate_path`.
pub fn format_named_type(crate_path: &CratePath, name: &str) -> (r: Result<
    TokenStream,
    BindingError,
>)
    ensures
        tokens_are(r, named_type_tokens(crate_path@, name@)),
{
    let ident = match make_rs_ident(name) {
        Err(e) => {
            return Err(e);
        },
        Ok(ident) => ident,
    };
    match crate_path.to_tokens() {
        Err(e) => Err(e),
        Ok(path) => {
            let mut out = path;
            append(&mut out, ident);
            Ok(out)
        },
    }
}

/// The parts of `name` that `::` separates, as identifiers with `::`
/// between them.
pub fn format_path(name: &str) -> (r: Result<TokenStream, BindingError>)
    ensures
        match part_idents(path_parts_of(name@), path_parts_of(name@).len()) {
            Ok(parts) => r matches Ok(ts) && stream_of(ts) == separated_tokens(
                parts,
                path_sep_tokens(),
            ),
            Err(error) => r matches Err(e) && e@ == error,
        },
{
    let parts = split_path(name);
    let ghost texts = path_parts_of(name@);
    let mut out = empty_stream();
    let ghost mut idents: Seq<Seq<Tok>> = Seq::empty();
    let mut i: usize = 0;
    while i < parts.len()
        invariant
            i <= parts.len(),
            texts == texts_of(parts@),
            texts == path_parts_of(name@),
            part_idents(texts, i as nat) == Ok::<Seq<Seq<Tok>>, ErrorModel>(idents),
            idents.len() == i,
            stream_of(out) == separated_tokens(idents, path_sep_tokens()),
        decreases parts.len() - i,
    {
        match make_rs_ident(parts[i].as_str()) {
            Err(e) => {
                proof {
                    lemma_part_idents_error(texts, i as nat + 1, texts.len());
                }
                return Err(e);
            },
            Ok(ident) => {
                proof {
                    let next = idents.push(stream_of(ident));
                    assert(next.drop_last() =~= idents);
                    idents = next;
                }
                if i == 0 {
                    out = ident;
                } else {
                    append(&mut out, path_sep());
                    append(&mut out, ident);
                }
            },
        }
        i += 1;
    }
    Ok(out)
}

impl<'ir> RsTypeKind<'ir> {
    /// The type as a return type: nothing for the unit type, `-> T` for any
    /// other.
    pub fn format_as_return_type_fragment(&self, self_record: Option<&Record>) -> (r: Result<
        TokenStream,
        BindingError,
    >)
        ensures
            tokens_are(r, self@.return_fragment(opt_record_id(self_record))),
        decreases self, 3nat,
    {
        match self {
            RsTypeKind::Primitive(PrimitiveType::Unit) => Ok(empty_stream()),
            _ => match self.to_token_stream_replacing_by_self(self_record) {
                Err(e) => Err(e),
                Ok(tokens) => {
                    let mut out = arrow();
                    append(&mut out, tokens);
                    Ok(out)
                },
            },
        }
    }

    fn format_reference(&self, self_record: Option<&Record>) -> (r: Result<
        TokenStream,
        BindingError,
    >)
        requires
            self is Reference || self is RvalueReference,
        ensures
            tokens_are(r, self@.tokens(opt_record_id(self_record))),
        decreases self, 0nat,
    {
        match self {
            RsTypeKind::Reference { referent, mutability, lifetime } => {
                let lifetime = match lifetime.format_for_reference() {
                    Err(e) => {
                        return Err(e);
                    },
                    Ok(lifetime) => lifetime,
                };
                match referent.to_token_stream_replacing_by_self(self_record) {
                    Err(e) => Err(e),
                    Ok(nested) => {
                        let mut reference = punct('&');
                        append(&mut reference, lifetime);
                        append(&mut reference, mutability.format_for_reference());
                        append(&mut reference, nested);
                        if mutability.is_mut() && !referent.is_unpin() {
                            let mut out = core_pin();
                            append(&mut out, punct('<'));
                            append(&mut out, reference);
                            append(&mut out, punct('>'));
                            Ok(out)
                        } else {
                            Ok(reference)
                        }
                    },
                }
            },
            RsTypeKind::RvalueReference { referent, mutability, lifetime } => {
                match referent.to_token_stream_replacing_by_self(self_record) {
                    Err(e) => Err(e),
                    Ok(nested) => match lifetime.to_tokens() {
                        Err(e) => Err(e),
                        Ok(lifetime) => {
                            let mut out = match mutability {
                                Mutability::Mut => ctor_path(Word::RvalueReference),
                                Mutability::Const => ctor_path(Word::ConstRvalueReference),
                            };
                            append(&mut out, punct('<'));
                            append(&mut out, lifetime);
                            append(&mut out, punct(','));
                            append(&mut out, nested);
                            append(&mut out, punct('>'));
                            Ok(out)
                        },
                    },
                }
            },
            _ => Ok(empty_stream()),
        }
    }

    fn format_args(
        &self,
        args: &Vec<RsTypeKind<'ir>>,
        self_record: Option<&Record>,
    ) -> (r: Result<(Vec<TokenStream>, bool), BindingError>)
        requires
            (self matches RsTypeKind::FuncPtr { param_types, .. } && param_types == args) || (
            self matches RsTypeKind::Other { type_args, .. } && type_args == args),
        ensures
            match tokens_of_args(models_of(args@), opt_record_id(self_record), args@.len()) {
                Ok(formatted) => r matches Ok(found) && streams_of(found.0@) == formatted
                    && found.1 == any_unsafe(models_of(args@)),
                Err(error) => r matches Err(e) && e@ == error,
            },
        decreases self, 0nat,
    {
        let ghost id = opt_record_id(self_record);
        let ghost models = models_of(args@);
        let mut formatted: Vec<TokenStream> = Vec::new();
        let mut is_unsafe = false;
        let mut i: usize = 0;
        assert(streams_of(formatted@) =~= Seq::empty());
        while i < args.len()
            invariant
                i <= args.len(),
                models == models_of(args@),
                (self matches RsTypeKind::FuncPtr { param_types, .. } && param_types == args) || (
                self matches RsTypeKind::Other { type_args, .. } && type_args == args),
                id == opt_record_id(self_record),
                tokens_of_args(models, id, i as nat) == Ok::<Seq<Seq<Tok>>, ErrorModel>(
                    streams_of(formatted@),
                ),
                is_unsafe == (exists|k: int| 0 <= k < i && (#[trigger] models[k]).spec_is_unsafe()),
            decreases args.len() - i,
        {
            proof {
                if self is FuncPtr {
                    assert(decreases_to!(self => self->FuncPtr_param_types));
                    assert(decreases_to!(self->FuncPtr_param_types => self->FuncPtr_param_types@));
                    assert(decreases_to!(self->FuncPtr_param_types@ => self->FuncPtr_param_types@[i as int]));
                } else {
                    assert(decreases_to!(self => self->Other_type_args));
                    assert(decreases_to!(self->Other_type_args => self->Other_type_args@));
                    assert(decreases_to!(self->Other_type_args@ => self->Other_type_args@[i as int]));
                }
            }
            match args[i].to_token_stream_replacing_by_self(self_record) {
                Err(e) => {
                    proof {
                        lemma_tokens_of_args_error(models, id, i as nat + 1, models.len());
                    }
                    return Err(e);
                },
                Ok(tokens) => {
                    let ghost before = streams_of(formatted@);
                    formatted.push(tokens);
                    assert(streams_of(formatted@) =~= before.push(stream_of(tokens)));
                },
            }
            if args[i].is_unsafe() {
                is_unsafe = true;
            }
            i += 1;
        }
        assert(is_unsafe == any_unsafe(models));
        Ok((formatted, is_unsafe))
    }

    fn format_func_ptr(&self, self_record: Option<&Record>) -> (r: Result<
        TokenStream,
        BindingError,
    >)
        requires
            self is FuncPtr,
        ensures
            tokens_are(r, self@.tokens(opt_record_id(self_record))),
        decreases self, 1nat,
    {
        match self {
            RsTypeKind::FuncPtr { abi, return_type, param_types } => {
                assert(self@->FuncPtr_param_types =~= models_of(param_types@));
                let (params, is_unsafe) = match self.format_args(param_types, self_record) {
                    Err(e) => {
                        return Err(e);
                    },
                    Ok(found) => found,
                };
                match return_type.format_as_return_type_fragment(self_record) {
                    Err(e) => Err(e),
                    Ok(return_fragment) => {
                        let mut out = if is_unsafe {
                            word(Word::Unsafe)
                        } else {
                            empty_stream()
                        };
                        append(&mut out, word(Word::Extern));
                        append(&mut out, string_literal(abi.as_str()));
                        append(&mut out, word(Word::Fn));
                        append(&mut out, paren(comma_separated(&params)));
                        append(&mut out, return_fragment);
                        Ok(out)
                    },
                }
            },
            _ => Ok(empty_stream()),
        }
    }

    fn format_generic(&self) -> (r: Result<TokenStream, BindingError>)
        requires
            self matches RsTypeKind::Record { known_generic_monomorphization, .. }
                && known_generic_monomorphization is Some,
        ensures
            tokens_are(r, self@->Record_generic->0.tokens()),
        decreases self, 0nat,
    {
        match self {
            RsTypeKind::Record { known_generic_monomorphization: Some(generic), .. } => {
                let ghost margs = self@->Record_generic->0.type_args;
                assert(margs =~= models_of(generic.type_args@));
                let mut inner: Vec<TokenStream> = Vec::new();
                assert(streams_of(inner@) =~= Seq::empty());
                if generic.type_args.len() > 0 {
                    proof {
                        assert(decreases_to!(self => self->Record_known_generic_monomorphization));
                        assert(decreases_to!(self->Record_known_generic_monomorphization => self->Record_known_generic_monomorphization->0));
                        assert(decreases_to!(self->Record_known_generic_monomorphization->0 => generic.type_args));
                        assert(decreases_to!(generic.type_args => generic.type_args@));
                        assert(decreases_to!(generic.type_args@ => generic.type_args@[0]));
                    }
                    match generic.type_args[0].to_token_stream_replacing_by_self(None) {
                        Err(e) => {
                            return Err(e);
                        },
                        Ok(tokens) => {
                            inner.push(tokens);
                            assert(streams_of(inner@) =~= Seq::<Seq<Tok>>::empty().push(
                                stream_of(tokens),
                            ));
                        },
                    }
                }
                match format_path(generic.rust_generic_name.as_str()) {
                    Err(e) => Err(e),
                    Ok(path) => {
                        let mut out = path;
                        append(&mut out, punct('<'));
                        append(&mut out, comma_separated(&inner));
                        append(&mut out, punct('>'));
                        Ok(out)
                    },
                }
            },
            _ => Ok(empty_stream()),
        }
    }

    fn format_other(&self, self_record: Option<&Record>) -> (r: Result<TokenStream, BindingError>)
        requires
            self is Other,
        ensures
            tokens_are(r, self@.tokens(opt_record_id(self_record))),
        decreases self, 1nat,
    {
        match self {
            RsTypeKind::Other { name, type_args, .. } => {
                let name_tokens = match lex(name.as_str()) {
                    None => {
                        let mut message = String::from_str("Invalid type name in the IR: ");
                        message.append(name.as_str());
                        return Err(BindingError::new(ErrorKind::InvalidIdentifier, message));
                    },
                    Some(name_tokens) => name_tokens,
                };
                assert(self@->Other_type_args =~= models_of(type_args@));
                let (formatted, _is_unsafe) = match self.format_args(type_args, self_record) {
                    Err(e) => {
                        return Err(e);
                    },
                    Ok(found) => found,
                };
                let no_lifetimes: Vec<Lifetime> = Vec::new();
                assert(lifetimes_of(no_lifetimes@) =~= Seq::empty());
                match format_generic_params(&no_lifetimes, &formatted) {
                    Err(e) => Err(e),
                    Ok(generic_params) => {
                        let mut out = name_tokens;
                        append(&mut out, generic_params);
                        Ok(out)
                    },
                }
            },
            _ => Ok(empty_stream()),
        }
    }

    /// The type as it is written in generated source, with `Self` in place
    /// of the record `self_record` where one is given; an error where a
    /// name in it cannot be written.
    pub fn to_token_stream_replacing_by_self(&self, self_record: Option<&Record>) -> (r: Result<
        TokenStream,
        BindingError,
    >)
        ensures
            tokens_are(r, self@.tokens(opt_record_id(self_record))),
        decreases self, 2nat,
    {
        match self {
            RsTypeKind::Pointer { pointee, mutability } => {
                match pointee.to_token_stream_replacing_by_self(self_record) {
                    Err(e) => Err(e),
                    Ok(nested) => {
                        let mut out = punct('*');
                        append(&mut out, mutability.format_for_pointer());
                        append(&mut out, nested);
                        Ok(out)
                    },
                }
            },
            RsTypeKind::Reference { .. } => self.format_reference(self_record),
            RsTypeKind::RvalueReference { .. } => self.format_reference(self_record),
            RsTypeKind::FuncPtr { .. } => self.format_func_ptr(self_record),
            RsTypeKind::IncompleteRecord { incomplete_record, crate_path } => format_named_type(
                crate_path,
                incomplete_record.identifier.identifier.as_str(),
            ),
            RsTypeKind::Record { record, crate_path, known_generic_monomorphization } => {
                let replace = match self_record {
                    Some(expected) => expected.id.0 == record.id.0,
                    None => false,
                };
                if replace {
                    return Ok(word(Word::SelfType));
                }
                match known_generic_monomorphization {
                    None => format_named_type(crate_path, record.identifier.identifier.as_str()),
                    Some(_) => self.format_generic(),
                }
            },
            RsTypeKind::Enum { enum_, crate_path } => format_named_type(
                crate_path,
                enum_.identifier.identifier.as_str(),
            ),
            RsTypeKind::TypeAlias { type_alias, crate_path, .. } => format_named_type(
                crate_path,
                type_alias.identifier.identifier.as_str(),
            ),
            RsTypeKind::Primitive(primitive) => Ok(primitive.to_tokens()),
            RsTypeKind::Slice(element) => {
                match element.to_token_stream_replacing_by_self(self_record) {
                    Err(e) => Err(e),
                    Ok(element) => Ok(bracket(element)),
                }
            },
            RsTypeKind::Optional(inner) => {
                match inner.to_token_stream_replacing_by_self(self_record) {
                    Err(e) => Err(e),
                    Ok(inner) => {
                        let mut out = word(Word::OptionType);
                        append(&mut out, punct('<'));
                        append(&mut out, inner);
                        append(&mut out, punct('>'));
                        Ok(out)
                    },
                }
            },
            RsTypeKind::BridgeType { name, .. } => make_rs_ident(name.as_str()),
            RsTypeKind::Other { .. } => self.format_other(self_record),
        }
    }

    /// The type as it is written in generated source; an error where a name
    /// in it cannot be written.
    pub fn to_token_stream(&self) -> (r: Result<TokenStream, BindingError>)
        ensures
            tokens_are(r, self@.tokens(None)),
    {
        self.to_token_stream_replacing_by_self(None)
    }
}

/// The generic parameters `< T , U >` of the given types as they are
/// written with `Self` in place of the record `trait_record`; nothing where
/// there is no type.
pub fn format_generic_params_replacing_by_self(
    types: &Vec<RsTypeKind>,
    trait_record: Option<&Record>,
) -> (r: Result<TokenStream, BindingError>)
    ensures
        match tokens_of_args(models_of(types@), opt_record_id(trait_record), types@.len()) {
            Ok(formatted) => tokens_are(r, generic_params_of(Seq::empty(), formatted)),
            Err(error) => r matches Err(e) && e@ == error,
        },
{
    let ghost id = opt_record_id(trait_record);
    let ghost models = models_of(types@);
    let mut formatted: Vec<TokenStream> = Vec::new();
    let mut i: usize = 0;
    assert(streams_of(formatted@) =~= Seq::empty());
    while i < types.len()
        invariant
            i <= types.len(),
            models == models_of(types@),
            id == opt_record_id(trait_record),
            tokens_of_args(models, id, i as nat) == Ok::<Seq<Seq<Tok>>, ErrorModel>(
                streams_of(formatted@),
            ),
        decreases types.len() - i,
    {
        match types[i].to_token_stream_replacing_by_self(trait_record) {
            Err(e) => {
                proof {
                    lemma_tokens_of_args_error(models, id, i as nat + 1, models.len());
                }
                return Err(e);
            },
            Ok(tokens) => {
                let ghost before = streams_of(formatted@);
                formatted.push(tokens);
                assert(streams_of(formatted@) =~= before.push(stream_of(tokens)));
            },
        }
        i += 1;
    }
    let no_lifetimes: Vec<Lifetime> = Vec::new();
    assert(lifetimes_of(no_lifetimes@) =~= Seq::empty());
    format_generic_params(&no_lifetimes, &formatted)
}

/// The error for a type that is no mutable reference where one is needed.
pub open spec fn not_a_mut_ref_error() -> ErrorModel {
    ErrorModel::root(ErrorKind::InvalidSelf, "Expected reference to format as MaybeUninit"@)
}

/// The error for a receiver that is a pointer.
pub open spec fn self_has_no_lifetime_error() -> ErrorModel {
    ErrorModel::root(
        ErrorKind::InvalidSelf,
        "`self` has no lifetime. Use lifetime annotations or `#pragma clang lifetime_elision` to create bindings for this function."@,
    )
}

/// The error for a receiver of a type from which none can be derived.
pub open spec fn unexpected_self_error() -> ErrorModel {
    ErrorModel::root(ErrorKind::InvalidSelf, "Unexpected type of `self` parameter"@)
}

/// `:: core :: mem :: MaybeUninit`
pub open spec fn core_maybe_uninit_tokens() -> Seq<Tok> {
    path_sep_tokens() + word_tokens(Word::Core) + path_sep_tokens() + word_tokens(Word::Mem)
        + path_sep_tokens() + word_tokens(Word::MaybeUninit)
}

/// The feature that a receiver of an rvalue reference type needs.
pub open spec fn arbitrary_self_types() -> RustFeatures {
    RustFeatures {
        arbitrary_self_types: true,
        const_ptr_offset_from: false,
        custom_inner_attributes: false,
        negative_impls: false,
    }
}

/// `:: core :: mem :: MaybeUninit`
pub fn core_maybe_uninit() -> (ts: TokenStream)
    ensures
        stream_of(ts) == core_maybe_uninit_tokens(),
{
    let mut out = path_sep();
    append(&mut out, word(Word::Core));
    append(&mut out, path_sep());
    append(&mut out, word(Word::Mem));
    append(&mut out, path_sep());
    append(&mut out, word(Word::MaybeUninit));
    out
}

impl KindModel {
    /// A mutable reference as the reference to storage yet to be filled:
    /// `& 'a mut :: core :: mem :: MaybeUninit < T >`.
    pub open spec fn uninitialized_tokens(self) -> Result<Seq<Tok>, ErrorModel> {
        match self {
            KindModel::Reference { referent, lifetime, mutability: Mutability::Mut } => {
                match lifetime_reference_tokens(lifetime) {
                    Err(e) => Err(e),
                    Ok(lifetime) => match referent.tokens(None) {
                        Err(e) => Err(e),
                        Ok(nested) => Ok(
                            punct_tokens('&') + lifetime + word_tokens(Word::Mut)
                                + core_maybe_uninit_tokens() + punct_tokens('<') + nested
                                + punct_tokens('>'),
                        ),
                    },
                }
            },
            _ => Err(not_a_mut_ref_error()),
        }
    }

    /// The type as the receiver of a method.
    ///
    /// A reference becomes `& 'a self` or `& 'a mut self`, and a mutable
    /// reference to a type that must not move becomes
    /// `self : :: core :: pin :: Pin < & 'a mut Self >`. An rvalue reference
    /// becomes `self : :: ctor :: RvalueReference < 'a , Self >`, which
    /// needs the feature for arbitrary receivers. A record becomes `self`.
    /// A pointer has no lifetime to give the receiver and is an error, as is
    /// any other type.
    pub open spec fn self_param(self) -> Result<SnippetModel, ErrorModel> {
        match self {
            KindModel::Pointer { .. } => Err(self_has_no_lifetime_error()),
            KindModel::Reference { referent, lifetime, mutability } => {
                match lifetime_reference_tokens(lifetime) {
                    Err(e) => Err(e),
                    Ok(lifetime) => if mutability == Mutability::Mut && !referent.spec_is_unpin() {
                        Ok(
                            SnippetModel::plain(
                                word_tokens(Word::SelfValue) + punct_tokens(':')
                                    + core_pin_tokens() + punct_tokens('<') + punct_tokens('&')
                                    + lifetime + mutability.reference_tokens() + word_tokens(
                                    Word::SelfType,
                                ) + punct_tokens('>'),
                            ),
                        )
                    } else {
                        Ok(
                            SnippetModel::plain(
                                punct_tokens('&') + lifetime + mutability.reference_tokens()
                                    + word_tokens(Word::SelfValue),
                            ),
                        )
                    },
                }
            },
            KindModel::RvalueReference { lifetime, mutability, .. } => {
                match lifetime_reference_tokens(lifetime) {
                    Err(e) => Err(e),
                    Ok(lifetime) => Ok(
                        SnippetModel {
                            tokens: word_tokens(Word::SelfValue) + punct_tokens(':')
                                + ctor_path_tokens(rvalue_reference_word(mutability))
                                + punct_tokens('<') + lifetime + punct_tokens(',') + word_tokens(
                                Word::SelfType,
                            ) + punct_tokens('>'),
                            features: arbitrary_self_types(),
                        },
                    ),
                }
            },
            KindModel::Record { .. } => Ok(SnippetModel::plain(word_tokens(Word::SelfValue))),
            _ => Err(unexpected_self_error()),
        }
    }
}

impl<'ir> RsTypeKind<'ir> {
    /// A mutable reference as the reference to storage yet to be filled;
    /// an error for any other type.
    pub fn format_mut_ref_as_uninitialized(&self) -> (r: Result<TokenStream, BindingError>)
        ensures
            tokens_are(r, self@.uninitialized_tokens()),
    {
        match self {
            RsTypeKind::Reference { referent, lifetime, mutability: Mutability::Mut } => {
                let lifetime = match lifetime.format_for_reference() {
                    Err(e) => {
                        return Err(e);
                    },
                    Ok(lifetime) => lifetime,
                };
                match referent.to_token_stream() {
                    Err(e) => Err(e),
                    Ok(nested) => {
                        let mut out = punct('&');
                        append(&mut out, lifetime);
                        append(&mut out, word(Word::Mut));
                        append(&mut out, core_maybe_uninit());
                        append(&mut out, punct('<'));
                        append(&mut out, nested);
                        append(&mut out, punct('>'));
                        Ok(out)
                    },
                }
            },
            _ => Err(
                BindingError::from_str(
                    ErrorKind::InvalidSelf,
                    "Expected reference to format as MaybeUninit",
                ),
            ),
        }
    }

    /// The type as the receiver of a method, with the features that the
    /// receiver needs; an error where no receiver can be derived from the
    /// type.
    pub fn format_as_self_param(&self) -> (r: Result<RsSnippet, BindingError>)
        ensures
            match self@.self_param() {
                Ok(snippet) => r matches Ok(found) && found@ == snippet,
                Err(error) => r matches Err(e) && e@ == error,
            },
    {
        match self {
            RsTypeKind::Pointer { .. } => Err(
                BindingError::from_str(
                    ErrorKind::InvalidSelf,
                    "`self` has no lifetime. Use lifetime annotations or `#pragma clang lifetime_elision` to create bindings for this function.",
                ),
            ),
            RsTypeKind::Reference { referent, lifetime, mutability } => {
                let lifetime = match lifetime.format_for_reference() {
                    Err(e) => {
                        return Err(e);
                    },
                    Ok(lifetime) => lifetime,
                };
                if mutability.is_mut() && !referent.is_unpin() {
                    let mut out = word(Word::SelfValue);
                    append(&mut out, punct(':'));
                    append(&mut out, core_pin());
                    append(&mut out, punct('<'));
                    append(&mut out, punct('&'));
                    append(&mut out, lifetime);
                    append(&mut out, mutability.format_for_reference());
                    append(&mut out, word(Word::SelfType));
                    append(&mut out, punct('>'));
                    Ok(RsSnippet::new(out))
                } else {
                    let mut out = punct('&');
                    append(&mut out, lifetime);
                    append(&mut out, mutability.format_for_reference());
                    append(&mut out, word(Word::SelfValue));
                    Ok(RsSnippet::new(out))
                }
            },
            RsTypeKind::RvalueReference { lifetime, mutability, .. } => {
                let lifetime = match lifetime.format_for_reference() {
                    Err(e) => {
                        return Err(e);
                    },
                    Ok(lifetime) => lifetime,
                };
                let mut out = word(Word::SelfValue);
                append(&mut out, punct(':'));
                match mutability {
                    Mutability::Mut => {
                        append(&mut out, ctor_path(Word::RvalueReference));
                    },
                    Mutability::Const => {
                        append(&mut out, ctor_path(Word::ConstRvalueReference));
                    },
                }
                append(&mut out, punct('<'));
                append(&mut out, lifetime);
                append(&mut out, punct(','));
                append(&mut out, word(Word::SelfType));
                append(&mut out, punct('>'));
                Ok(
                    RsSnippet {
                        tokens: out,
                        features: RustFeatures {
                            arbitrary_self_types: true,
                            const_ptr_offset_from: false,
                            custom_inner_attributes: false,
                            negative_impls: false,
                        },
                    },
                )
            },
            RsTypeKind::Record { .. } => Ok(RsSnippet::new(word(Word::SelfValue))),
            _ => Err(
                BindingError::from_str(
                    ErrorKind::InvalidSelf,
                    "Unexpected type of `self` parameter",
                ),
            ),
        }
    }
}

/// The models of the arguments that resolved, in order, and `None` for each
/// that did not.
pub open spec fn opt_models(args: Seq<Option<RsTypeKind>>) -> Seq<Option<KindModel>> {
    Seq::new(
        args.len(),
        |i: int|
            match args[i] {
                Some(kind) => Some(kind@),
                None => None,
            },
    )
}

/// The kinds of arguments that all resolved, in order.
pub open spec fn present_models(args: Seq<Option<KindModel>>) -> Seq<KindModel> {
    Seq::new(args.len(), |i: int| args[i]->0)
}

/// The kinds that the resolved arguments stand for, in order.
pub open spec fn resolved_models(args: Seq<Option<RsTypeKind>>) -> Seq<KindModel> {
    present_models(opt_models(args))
}

/// Whether `specialization` with the arguments `kinds` is the owning
/// pointer with its default deleter: the template `std::unique_ptr` of two
/// arguments, the second of which is the record instantiated from
/// `std::default_delete` for the first.
pub open spec fn is_unique_ptr(specialization: &TemplateSpecialization, kinds: Seq<KindModel>) -> bool {
    &&& specialization.template_name@ == "std::unique_ptr"@
    &&& kinds.len() == 2
    &&& specialization.template_args@.len() == 2
    &&& kinds[1] matches KindModel::Record { record, .. }
    &&& record.template_specialization matches Some(deleter)
    &&& deleter.template_name@ == "std::default_delete"@
    &&& deleter.template_args@.len() == 1
    &&& same_template_arg(&deleter.template_args@[0], &specialization.template_args@[0])
}

/// Whether the instantiation `specialization`, whose arguments resolved to
/// `args`, is one that a generic type written by hand stands for: every
/// argument is a type that could be resolved, and the instantiation is a
/// known one.
pub open spec fn supported_generic(
    specialization: &TemplateSpecialization,
    args: Seq<Option<KindModel>>,
) -> bool {
    &&& args.len() == specialization.template_args@.len()
    &&& forall|i: int|
        0 <= i < args.len() ==> (#[trigger] specialization.template_args@[i]).type_ is Ok
            && args[i] is Some
    &&& is_unique_ptr(specialization, present_models(args))
}

/// The generic type that stands for the instantiation
/// `template_specialization`, whose arguments resolved to `args`; `None`
/// where there is no instantiation, or none that is known.
pub open spec fn generic_of(
    template_specialization: Option<TemplateSpecialization>,
    args: Seq<Option<KindModel>>,
) -> Option<GenericModel> {
    match template_specialization {
        Some(specialization) => if supported_generic(&specialization, args) {
            Some(
                GenericModel {
                    template_name: specialization.template_name@,
                    rust_generic_name: unique_ptr_name(),
                    type_args: present_models(args),
                },
            )
        } else {
            None
        },
        None => None,
    }
}

/// The name of the generic type that stands for the owning pointer.
pub open spec fn unique_ptr_name() -> Seq<char> {
    "cc_std::std::unique_ptr"@
}

/// The generic type that stands for a template instantiation, if it is a
/// known one and all of its arguments are supported.
///
/// `resolved_args` holds, for each argument of the instantiation in order,
/// the kind that it stands for, or `None` where it stands for none.
pub fn map_to_supported_generic<'ir>(
    template_specialization: &Option<TemplateSpecialization>,
    resolved_args: Vec<Option<RsTypeKind<'ir>>>,
) -> (r: Option<GenericMonomorphization<'ir>>)
    ensures
        match generic_of(*template_specialization, opt_models(resolved_args@)) {
            Some(model) => r matches Some(generic) && generic@ == model,
            None => r is None,
        },
{
    let specialization = match template_specialization {
        None => {
            return None;
        },
        Some(specialization) => specialization,
    };
    if resolved_args.len() != specialization.template_args.len() {
        return None;
    }
    let ghost args = resolved_args@;
    let mut remaining = resolved_args;
    let mut type_args: Vec<RsTypeKind<'ir>> = Vec::new();
    let n = specialization.template_args.len();
    let mut i: usize = 0;
    assert(models_of(type_args@) =~= resolved_models(args).take(0));
    while i < n
        invariant
            i <= n,
            n == specialization.template_args@.len(),
            args.len() == n,
            args == resolved_args@,
            *template_specialization == Some(*specialization),
            remaining@ == args.skip(i as int),
            forall|k: int|
                0 <= k < i ==> (#[trigger] specialization.template_args@[k]).type_ is Ok
                    && args[k] is Some,
            models_of(type_args@) == resolved_models(args).take(i as int),
        decreases n - i,
    {
        if specialization.template_args[i].type_.is_err() {
            return None;
        }
        let ghost before = models_of(type_args@);
        let first = remaining.remove(0);
        proof {
            assert(first == args[i as int]);
            assert(remaining@ =~= args.skip(i as int + 1));
        }
        match first {
            None => {
                return None;
            },
            Some(kind) => {
                type_args.push(kind);
                assert(models_of(type_args@) =~= before.push(kind@));
                assert(resolved_models(args).take(i as int + 1) =~= resolved_models(args).take(
                    i as int,
                ).push(kind@));
            },
        }
        i += 1;
    }
    assert(resolved_models(args).take(n as int) =~= resolved_models(args));
    if !str_eq(specialization.template_name.as_str(), "std::unique_ptr") || type_args.len() != 2 {
        return None;
    }
    let supported = match &type_args[1] {
        RsTypeKind::Record { record, .. } => {
            assert(type_args@[1]@ matches KindModel::Record { record: r, .. } && r == **record);
            match &record.template_specialization {
                None => false,
                Some(deleter) => str_eq(deleter.template_name.as_str(), "std::default_delete")
                    && deleter.template_args.len() == 1 && template_arg_eq(
                    &deleter.template_args[0],
                    &specialization.template_args[0],
                ),
            }
        },
        _ => {
            assert(!(type_args@[1]@ is Record));
            false
        },
    };
    if !supported {
        return None;
    }
    Some(
        GenericMonomorphization {
            template_name: specialization.template_name.clone(),
            rust_generic_name: String::from_str("cc_std::std::unique_ptr"),
            type_args,
        },
    )
}

/// The crate that a type of the unit `owning_target` is imported from:
/// `None` within the current unit, the target of the unit otherwise.
pub open spec fn imported_crate(owning_target: &BazelLabel, ir: &IR) -> Result<
    Option<Seq<char>>,
    ErrorModel,
> {
    if ir.spec_is_current_target(*owning_target) {
        Ok(None)
    } else if !owning_target.spec_has_target() {
        Err(owning_target.label_error())
    } else {
        Ok(Some(owning_target.spec_target_name()))
    }
}

/// The path to a declaration of the unit `owning_target` that the
/// namespace `enclosing` holds.
pub open spec fn crate_path_of(
    ir: &IR,
    owning_target: &BazelLabel,
    enclosing: Option<DeclId>,
) -> Result<CratePathModel, ErrorModel> {
    match namespaces_from(ir, enclosing, ir.items@.len()) {
        Err(e) => Err(e),
        Ok(namespaces) => match imported_crate(owning_target, ir) {
            Err(e) => Err(e),
            Ok(crate_ident) => Ok(
                CratePathModel {
                    crate_ident,
                    crate_root_path: root_path_of(ir),
                    namespace_qualifier: namespaces,
                },
            ),
        },
    }
}

/// The crate that a type of the unit `owning_target` is imported from.
pub fn rs_imported_crate_name(owning_target: &BazelLabel, ir: &IR) -> (r: Result<
    Option<String>,
    BindingError,
>)
    ensures
        match imported_crate(owning_target, ir) {
            Ok(Some(name)) => r matches Ok(Some(found)) && found@ == name,
            Ok(None) => r matches Ok(None),
            Err(error) => r matches Err(e) && e@ == error,
        },
{
    if ir.is_current_target(owning_target) {
        Ok(None)
    } else {
        match owning_target.target_name() {
            Err(e) => Err(e),
            Ok(name) => Ok(Some(String::from_str(name))),
        }
    }
}

/// The path to a declaration of the unit `owning_target` that the
/// namespace `enclosing` holds.
pub fn make_crate_path(ir: &IR, owning_target: &BazelLabel, enclosing: Option<DeclId>) -> (r:
    Result<CratePath, BindingError>)
    ensures
        match crate_path_of(ir, owning_target, enclosing) {
            Ok(path) => r matches Ok(found) && found@ == path,
            Err(error) => r matches Err(e) && e@ == error,
        },
{
    let namespaces = match ir.namespace_qualifier(enclosing) {
        Err(e) => {
            return Err(e);
        },
        Ok(namespaces) => namespaces,
    };
    let crate_ident = match rs_imported_crate_name(owning_target, ir) {
        Err(e) => {
            return Err(e);
        },
        Ok(crate_ident) => crate_ident,
    };
    Ok(CratePath::new(ir, NamespaceQualifier::new(namespaces), crate_ident))
}

/// The error for a record without a bridge type.
pub open spec fn no_bridge_type_error(record: &Record) -> ErrorModel {
    ErrorModel::root(
        ErrorKind::Unsupported,
        "Record does not have bridge type info: "@ + record.cc_name@,
    )
}

/// The error for a slice with another number of type parameters than one.
pub open spec fn slice_params_error(count: nat) -> ErrorModel {
    ErrorModel::root(
        ErrorKind::MissingTypeArgument,
        "SliceRef has "@ + decimal(count) + " type parameters, expected 1"@,
    )
}

impl<'ir> RsTypeKind<'ir> {
    /// The kind of the record `record`, at its path in the unit `ir`, as
    /// the generic type that stands for it where it is a known template
    /// instantiation whose arguments resolved to `resolved_args`.
    pub fn new_record(
        record: &'ir Record,
        ir: &IR,
        resolved_args: Vec<Option<RsTypeKind<'ir>>>,
    ) -> (r: Result<RsTypeKind<'ir>, BindingError>)
        ensures
            match crate_path_of(ir, &record.owning_target, record.enclosing_namespace_id) {
                Ok(path) => r matches Ok(kind) && kind@ == (KindModel::Record {
                    record: *record,
                    crate_path: path,
                    generic: generic_of(
                        record.template_specialization,
                        opt_models(resolved_args@),
                    ),
                }),
                Err(error) => r matches Err(e) && e@ == error,
            },
    {
        let crate_path = match make_crate_path(
            ir,
            &record.owning_target,
            record.enclosing_namespace_id,
        ) {
            Err(e) => {
                return Err(e);
            },
            Ok(crate_path) => crate_path,
        };
        let known_generic_monomorphization = match map_to_supported_generic(
            &record.template_specialization,
            resolved_args,
        ) {
            Some(generic) => Some(Box::new(generic)),
            None => None,
        };
        let kind = RsTypeKind::Record { record, crate_path, known_generic_monomorphization };
        proof {
            if known_generic_monomorphization is Some {
                assert(kind@->Record_generic->0.type_args =~= models_of(
                    known_generic_monomorphization->0.type_args@,
                ));
            }
        }
        Ok(kind)
    }

    /// The kind of the enumeration `enum_`, at its path in the unit `ir`.
    pub fn new_enum(enum_: &'ir Enum, ir: &IR) -> (r: Result<RsTypeKind<'ir>, BindingError>)
        ensures
            match crate_path_of(ir, &enum_.owning_target, enum_.enclosing_namespace_id) {
                Ok(path) => r matches Ok(kind) && kind@ == (KindModel::Enum {
                    enum_: *enum_,
                    crate_path: path,
                }),
                Err(error) => r matches Err(e) && e@ == error,
            },
    {
        match make_crate_path(ir, &enum_.owning_target, enum_.enclosing_namespace_id) {
            Err(e) => Err(e),
            Ok(crate_path) => Ok(RsTypeKind::Enum { enum_, crate_path }),
        }
    }

    /// The kind of the type written by hand that stands for
    /// `original_record`; an error where the record names none.
    pub fn new_bridge_type(original_record: &'ir Record) -> (r: Result<
        RsTypeKind<'ir>,
        BindingError,
    >)
        ensures
            match original_record.bridge_type_info {
                Some(info) => r matches Ok(kind) && kind@ == (KindModel::BridgeType {
                    name: info.bridge_type@,
                    cpp_to_rust_converter: info.cpp_to_rust_converter@,
                    rust_to_cpp_converter: info.rust_to_cpp_converter@,
                    original_type: *original_record,
                }),
                None => r matches Err(e) && e@ == no_bridge_type_error(original_record),
            },
    {
        match &original_record.bridge_type_info {
            Some(info) => Ok(
                RsTypeKind::BridgeType {
                    name: info.bridge_type.clone(),
                    cpp_to_rust_converter: info.cpp_to_rust_converter.clone(),
                    rust_to_cpp_converter: info.rust_to_cpp_converter.clone(),
                    original_type: original_record,
                },
            ),
            None => {
                let mut message = String::from_str("Record does not have bridge type info: ");
                message.append(original_record.cc_name.as_str());
                Err(BindingError::new(ErrorKind::Unsupported, message))
            },
        }
    }

    /// The kind of a type that is spelled by a fixed name.
    ///
    /// The name `&[]` stands for a pointer to a slice of the one type
    /// parameter, whose kind is `slice_element`, constant where the
    /// parameter is; any other name stands for itself, without type
    /// arguments.
    pub fn new_type_map_override(
        type_map_override: &TypeMapOverride,
        slice_element: Result<RsTypeKind<'ir>, BindingError>,
    ) -> (r: Result<RsTypeKind<'ir>, BindingError>)
        ensures
            type_map_override.rs_name@ != "&[]"@ ==> (r matches Ok(kind) && kind@ == (
            KindModel::Other {
                name: type_map_override.rs_name@,
                type_args: Seq::empty(),
                is_same_abi: type_map_override.is_same_abi,
            })),
            type_map_override.rs_name@ == "&[]"@ && type_map_override.type_parameters@.len() != 1
                ==> (r matches Err(e) && e@ == slice_params_error(
                type_map_override.type_parameters@.len(),
            )),
            type_map_override.rs_name@ == "&[]"@ && type_map_override.type_parameters@.len() == 1
                ==> (match slice_element {
                Ok(element) => r matches Ok(kind) && kind@ == (KindModel::Pointer {
                    pointee: Box::new(KindModel::Slice(Box::new(element@))),
                    mutability: if type_map_override.type_parameters@[0].cc_type.is_const {
                        Mutability::Const
                    } else {
                        Mutability::Mut
                    },
                }),
                Err(error) => r matches Err(e) && e@ == error@,
            }),
    {
        if str_eq(type_map_override.rs_name.as_str(), "&[]") {
            if type_map_override.type_parameters.len() != 1 {
                let mut message = String::from_str("SliceRef has ");
                message.append(
                    decimal_string(type_map_override.type_parameters.len() as u64).as_str(),
                );
                message.append(" type parameters, expected 1");
                return Err(BindingError::new(ErrorKind::MissingTypeArgument, message));
            }
            match slice_element {
                Err(e) => Err(e),
                Ok(element) => {
                    let ghost element_model = element@;
                    let slice = RsTypeKind::Slice(Box::new(element));
                    assert(slice@ == KindModel::Slice(Box::new(element_model)));
                    let kind = RsTypeKind::Pointer {
                        pointee: Box::new(slice),
                        mutability: if type_map_override.type_parameters[0].cc_type.is_const {
                            Mutability::Const
                        } else {
                            Mutability::Mut
                        },
                    };
                    assert(kind@->Pointer_pointee == Box::new(slice@));
                    Ok(kind)
                },
            }
        } else {
            let kind = RsTypeKind::Other {
                name: type_map_override.rs_name.clone(),
                type_args: Vec::new(),
                is_same_abi: type_map_override.is_same_abi,
            };
            assert(kind@->Other_type_args =~= Seq::<KindModel>::empty());
            Ok(kind)
        }
    }
}

} // verus!
