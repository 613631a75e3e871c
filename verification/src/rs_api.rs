//! Generation of the public surface: for each declaration of a unit, the
//! declaration that exposes it, the declaration of its boundary adapter, and
//! the assertions on its layout.

use crate::features::RustFeatures;
use crate::error::{in_context, tokens_are, with_context, BindingError, ErrorKind, ErrorModel};
use crate::ir::{
    AccessSpecifier, BazelLabel, Field, Func, Identifier, Item, LifetimeId, LifetimeName, Record,
    RsType, TypeAlias, UnqualifiedIdentifier, IR,
};
use crate::rs_snippet::{
    should_derive_clone, should_derive_copy, should_implement_drop, spec_should_derive_clone,
    spec_should_derive_copy, spec_should_implement_drop, Mutability, RsSnippet, SnippetModel,
};
use crate::strings::{concat_str, str_eq};
use crate::tokens::{
    append, brace, brace_tokens, bracket, bracket_tokens, clone_stream, comma_separated, concat,
    concat_tokens, empty_stream, eq_eq, eq_eq_tokens, ident, ident_tokens, int_literal, int_tokens,
    is_ident, joint, lifetime_tokens, paren, paren_tokens, path_sep, path_sep_tokens, punct,
    punct_tokens, separated_tokens, stream_of, streams_of, string_literal, string_tokens, Tok,
};
use crate::words::{word, word_tokens, Word};
use proc_macro2::TokenStream;
use vstd::prelude::*;

verus! {

/// The error for a name that is no identifier.
pub open spec fn ident_error(name: Seq<char>) -> ErrorModel {
    ErrorModel::root(
        ErrorKind::InvalidIdentifier,
        "Can't format `"@ + name + "` as an identifier"@,
    )
}

/// The identifier `name`, or the error for it.
pub open spec fn make_ident_tokens(name: Seq<char>) -> Result<Seq<Tok>, ErrorModel> {
    if is_ident(name) {
        Ok(ident_tokens(name))
    } else {
        Err(ident_error(name))
    }
}

/// The identifier `name`; an error where `name` is no identifier.
pub fn make_ident(name: &str) -> (r: Result<TokenStream, BindingError>)
    ensures
        tokens_are(r, make_ident_tokens(name@)),
{
    match ident(name) {
        Some(ts) => Ok(ts),
        None => {
            let mut message = String::from_str("Can't format `");
            message.append(name);
            message.append("` as an identifier");
            Err(BindingError::new(ErrorKind::InvalidIdentifier, message))
        },
    }
}

/// The name of the boundary adapter of the function with the linkage name
/// `mangled_name`.
pub open spec fn thunk_name(mangled_name: Seq<char>) -> Seq<char> {
    "__rust_thunk__"@ + mangled_name
}

/// Adapters of functions with different linkage names have different names.
pub proof fn lemma_thunk_names_are_distinct(first: Seq<char>, second: Seq<char>)
    requires
        thunk_name(first) == thunk_name(second),
    ensures
        first == second,
{
    let prefix = "__rust_thunk__"@;
    assert(thunk_name(first).subrange(prefix.len() as int, thunk_name(first).len() as int)
        =~= first);
    assert(thunk_name(second).subrange(prefix.len() as int, thunk_name(second).len() as int)
        =~= second);
}

/// The identifier of the boundary adapter of `func`: `__rust_thunk__`
/// followed by its linkage name.
pub fn thunk_ident(func: &Func) -> (r: Result<TokenStream, BindingError>)
    ensures
        tokens_are(r, make_ident_tokens(thunk_name(func.mangled_name@))),
{
    let name = concat_str("__rust_thunk__", func.mangled_name.as_str());
    make_ident(name.as_str())
}

/// The name of the lifetime `id` among `lifetimes`: that of the last
/// parameter with this identifier among the first `upto`.
pub open spec fn lifetime_name(lifetimes: Seq<LifetimeName>, id: LifetimeId, upto: int) -> Option<
    Seq<char>,
>
    decreases upto,
{
    if upto <= 0 || upto > lifetimes.len() {
        None
    } else if lifetimes[upto - 1].id == id {
        Some(lifetimes[upto - 1].name@)
    } else {
        lifetime_name(lifetimes, id, upto - 1)
    }
}

/// The error for a lifetime that the function does not declare.
pub open spec fn unknown_lifetime_error() -> ErrorModel {
    ErrorModel::root(
        ErrorKind::UnknownLifetime,
        "`lifetime_to_name` doesn't have an entry for a lifetime of a reference"@,
    )
}

/// The lifetime `id` as it is written: `'name`.
pub open spec fn format_lifetime_tokens(id: LifetimeId, lifetimes: Seq<LifetimeName>) -> Result<
    Seq<Tok>,
    ErrorModel,
> {
    match lifetime_name(lifetimes, id, lifetimes.len() as int) {
        None => Err(unknown_lifetime_error()),
        Some(name) => if is_ident(name) {
            Ok(lifetime_tokens(name))
        } else {
            Err(ident_error(name))
        },
    }
}

/// The name that `lifetimes` gives to the lifetime `id`.
pub fn find_lifetime<'a>(id: LifetimeId, lifetimes: &'a Vec<LifetimeName>) -> (r: Option<&'a str>)
    ensures
        match lifetime_name(lifetimes@, id, lifetimes@.len() as int) {
            Some(name) => r matches Some(found) && found@ == name,
            None => r is None,
        },
{
    let mut i: usize = lifetimes.len();
    while i > 0
        invariant
            i <= lifetimes.len(),
            lifetime_name(lifetimes@, id, lifetimes@.len() as int) == lifetime_name(
                lifetimes@,
                id,
                i as int,
            ),
        decreases i,
    {
        if lifetimes[i - 1].id.0 == id.0 {
            return Some(lifetimes[i - 1].name.as_str());
        }
        i -= 1;
    }
    None
}

/// The lifetime `id` as it is written, `'name`; an error where `lifetimes`
/// has no such lifetime, or its name is no identifier.
pub fn format_lifetime(id: LifetimeId, lifetimes: &Vec<LifetimeName>) -> (r: Result<
    TokenStream,
    BindingError,
>)
    ensures
        tokens_are(r, format_lifetime_tokens(id, lifetimes@)),
{
    match find_lifetime(id, lifetimes) {
        None => Err(
            BindingError::from_str(
                ErrorKind::UnknownLifetime,
                "`lifetime_to_name` doesn't have an entry for a lifetime of a reference",
            ),
        ),
        Some(name) => {
            match make_ident(name) {
                Err(e) => Err(e),
                Ok(name_tokens) => Ok(concat(joint('\''), name_tokens)),
            }
        },
    }
}

/// `< a , b >` for the given parameters, and nothing where there is none.
pub open spec fn generic_params_tokens(params: Seq<Seq<Tok>>) -> Seq<Tok> {
    if params.len() == 0 {
        Seq::empty()
    } else {
        punct_tokens('<') + separated_tokens(params, punct_tokens(',')) + punct_tokens('>')
    }
}

/// The generic parameter list `< a , b >` of the given parameters; nothing
/// where there is none.
pub fn format_generic_params(params: &Vec<TokenStream>) -> (ts: TokenStream)
    ensures
        stream_of(ts) == generic_params_tokens(streams_of(params@)),
{
    if params.len() == 0 {
        empty_stream()
    } else {
        let mut out = punct('<');
        append(&mut out, comma_separated(params));
        append(&mut out, punct('>'));
        out
    }
}

/// The name by which a type `identifier` of the unit `owning_target` is
/// referred to: bare within the current unit and the standard library,
/// qualified by the crate of its unit elsewhere.
pub open spec fn type_name_tokens(owning_target: &BazelLabel, identifier: &Identifier, ir: &IR) -> Result<
    Seq<Tok>,
    ErrorModel,
> {
    match make_ident_tokens(identifier.identifier@) {
        Err(e) => Err(e),
        Ok(name) => if ir.spec_is_bound_here(*owning_target) {
            Ok(name)
        } else if !owning_target.spec_has_target() {
            Err(owning_target.label_error())
        } else {
            match make_ident_tokens(owning_target.spec_target_name()) {
                Err(e) => Err(e),
                Ok(owning_crate) => Ok(owning_crate + path_sep_tokens() + name),
            }
        },
    }
}

/// The name by which a type `identifier` of the unit `owning_target` is
/// referred to.
pub fn rs_type_name_for_target_and_identifier(
    owning_target: &BazelLabel,
    identifier: &Identifier,
    ir: &IR,
) -> (r: Result<TokenStream, BindingError>)
    ensures
        tokens_are(r, type_name_tokens(owning_target, identifier, ir)),
{
    let name = match make_ident(identifier.identifier.as_str()) {
        Err(e) => {
            return Err(e);
        },
        Ok(name) => name,
    };
    if ir.is_bound_here(owning_target) {
        Ok(name)
    } else {
        let target_name = match owning_target.target_name() {
            Err(e) => {
                return Err(e);
            },
            Ok(target_name) => target_name,
        };
        match make_ident(target_name) {
            Err(e) => Err(e),
            Ok(owning_crate) => {
                let mut out = owning_crate;
                append(&mut out, path_sep());
                append(&mut out, name);
                Ok(out)
            },
        }
    }
}

/// What a type node stands for in a signature or a field of the public
/// surface.
///
/// This is the view that lowering takes of a type: it tells apart only what
/// decides how a parameter, a receiver or a field is written. The full
/// representation, with the predicates on special members and the tiers of
/// support, is `type_kind::RsTypeKind`.
pub enum RsTypeKind<'ir> {
    Pointer { pointee: Box<RsTypeKind<'ir>>, mutability: Mutability },
    Reference { referent: Box<RsTypeKind<'ir>>, mutability: Mutability, lifetime_id: LifetimeId },
    Record(&'ir Record),
    TypeAlias { type_alias: &'ir TypeAlias, underlying_type: Box<RsTypeKind<'ir>> },
    Unit,
    Other { name: &'ir str, type_args: Vec<RsTypeKind<'ir>> },
}

/// The mathematical model of an `RsTypeKind`.
pub enum TypeKindModel {
    Pointer { pointee: Box<TypeKindModel>, mutability: Mutability },
    Reference { referent: Box<TypeKindModel>, mutability: Mutability, lifetime_id: LifetimeId },
    Record(Record),
    TypeAlias { type_alias: TypeAlias, underlying_type: Box<TypeKindModel> },
    Unit,
    Other { name: Seq<char>, type_args: Seq<TypeKindModel> },
}

/// The error for a pointer or reference without exactly one type argument.
pub open spec fn missing_pointee_error() -> ErrorModel {
    ErrorModel::root(
        ErrorKind::MissingTypeArgument,
        "Missing pointee/referent type (need exactly 1 type argument)"@,
    )
}

/// The error for a reference without exactly one lifetime argument.
pub open spec fn missing_lifetime_error() -> ErrorModel {
    ErrorModel::root(
        ErrorKind::MissingLifetime,
        "Missing reference lifetime (need exactly 1 lifetime argument)"@,
    )
}

/// The error for type arguments on a reference to a declaration.
pub open spec fn type_args_error() -> ErrorModel {
    ErrorModel::root(
        ErrorKind::UnsupportedTypeArguments,
        "Type arguments on records nor type aliases are not yet supported"@,
    )
}

/// The error for a type that refers to a declaration that defines no type.
pub open spec fn not_a_type_error() -> ErrorModel {
    ErrorModel::root(ErrorKind::NotAType, "Item does not define a type"@)
}

/// The error for type arguments on the unit type.
pub open spec fn unit_args_error() -> ErrorModel {
    ErrorModel::root(
        ErrorKind::UnsupportedTypeArguments,
        "Unit type must not have type arguments"@,
    )
}

/// The error for a chain of type aliases that does not end.
pub open spec fn cyclic_alias_error() -> ErrorModel {
    ErrorModel::root(ErrorKind::CyclicAlias, "Type alias refers to itself"@)
}

/// What the first `n` of `args` stand for, or the first error among them.
pub open spec fn resolve_args(args: Seq<RsType>, ir: &IR, fuel: nat, n: nat) -> Result<
    Seq<TypeKindModel>,
    ErrorModel,
>
    decreases fuel, args, n,
{
    if n == 0 || n > args.len() {
        Ok(Seq::empty())
    } else {
        match resolve_args(args, ir, fuel, (n - 1) as nat) {
            Err(e) => Err(e),
            Ok(kinds) => match resolve(&args[n - 1], ir, fuel) {
                Err(e) => Err(e),
                Ok(kind) => Ok(kinds.push(kind)),
            },
        }
    }
}

/// What the one type argument of a pointer or reference stands for.
pub open spec fn resolve_pointee(ty: &RsType, ir: &IR, fuel: nat) -> Result<
    TypeKindModel,
    ErrorModel,
>
    decreases fuel, ty, 0nat,
{
    if ty.type_args@.len() != 1 {
        Err(missing_pointee_error())
    } else {
        resolve(&ty.type_args@[0], ir, fuel)
    }
}

/// The one lifetime argument of a reference.
pub open spec fn resolve_lifetime(ty: &RsType) -> Result<LifetimeId, ErrorModel> {
    if ty.lifetime_args@.len() != 1 {
        Err(missing_lifetime_error())
    } else {
        Ok(ty.lifetime_args@[0])
    }
}

/// What a pointer with the given qualifier to the one type argument of `ty`
/// stands for.
pub open spec fn resolve_pointer(ty: &RsType, ir: &IR, fuel: nat, mutability: Mutability) -> Result<
    TypeKindModel,
    ErrorModel,
>
    decreases fuel, ty, 1nat,
{
    match resolve_pointee(ty, ir, fuel) {
        Err(e) => Err(e),
        Ok(pointee) => Ok(TypeKindModel::Pointer { pointee: Box::new(pointee), mutability }),
    }
}

/// What a reference with the given qualifier to the one type argument of
/// `ty` stands for.
pub open spec fn resolve_reference(
    ty: &RsType,
    ir: &IR,
    fuel: nat,
    mutability: Mutability,
) -> Result<TypeKindModel, ErrorModel>
    decreases fuel, ty, 1nat,
{
    match resolve_pointee(ty, ir, fuel) {
        Err(e) => Err(e),
        Ok(referent) => match resolve_lifetime(ty) {
            Err(e) => Err(e),
            Ok(lifetime_id) => Ok(
                TypeKindModel::Reference { referent: Box::new(referent), mutability, lifetime_id },
            ),
        },
    }
}

/// What the type node `ty` stands for in the unit `ir`, following at most
/// `fuel` type aliases one into the other.
///
/// A node without a name refers to a declaration: a record, or a type alias
/// whose underlying type is resolved in turn. A node with a name is the unit
/// type, a pointer, a reference, or some other named type with its
/// arguments.
pub open spec fn resolve(ty: &RsType, ir: &IR, fuel: nat) -> Result<TypeKindModel, ErrorModel>
    decreases fuel, ty, 2nat,
{
    match ty.name {
        None => {
            if ty.type_args@.len() != 0 {
                Err(type_args_error())
            } else {
                match ir.spec_item_for_type(ty.decl_id) {
                    Err(e) => Err(e),
                    Ok(Item::Record(record)) => Ok(TypeKindModel::Record(record)),
                    Ok(Item::TypeAlias(type_alias)) => {
                        if fuel == 0 {
                            Err(cyclic_alias_error())
                        } else {
                            match resolve(
                                &type_alias.underlying_type.rs_type,
                                ir,
                                (fuel - 1) as nat,
                            ) {
                                Err(e) => Err(e),
                                Ok(underlying_type) => Ok(
                                    TypeKindModel::TypeAlias {
                                        type_alias,
                                        underlying_type: Box::new(underlying_type),
                                    },
                                ),
                            }
                        }
                    },
                    Ok(_) => Err(not_a_type_error()),
                }
            }
        },
        Some(name) => {
            if name@ == "()"@ {
                if ty.type_args@.len() != 0 {
                    Err(unit_args_error())
                } else {
                    Ok(TypeKindModel::Unit)
                }
            } else if name@ == "*mut"@ {
                resolve_pointer(ty, ir, fuel, Mutability::Mut)
            } else if name@ == "*const"@ {
                resolve_pointer(ty, ir, fuel, Mutability::Const)
            } else if name@ == "&mut"@ {
                resolve_reference(ty, ir, fuel, Mutability::Mut)
            } else if name@ == "&"@ {
                resolve_reference(ty, ir, fuel, Mutability::Const)
            } else {
                match resolve_args(ty.type_args@, ir, fuel, ty.type_args@.len()) {
                    Err(e) => Err(e),
                    Ok(type_args) => Ok(TypeKindModel::Other { name: name@, type_args }),
                }
            }
        },
    }
}

impl<'ir> RsTypeKind<'ir> {
    /// The mathematical model of this value.
    pub open spec fn model(&self) -> TypeKindModel
        decreases self,
    {
        match self {
            RsTypeKind::Pointer { pointee, mutability } => TypeKindModel::Pointer {
                pointee: Box::new(pointee.model()),
                mutability: *mutability,
            },
            RsTypeKind::Reference { referent, mutability, lifetime_id } => TypeKindModel::Reference {
                referent: Box::new(referent.model()),
                mutability: *mutability,
                lifetime_id: *lifetime_id,
            },
            RsTypeKind::Record(record) => TypeKindModel::Record(**record),
            RsTypeKind::TypeAlias { type_alias, underlying_type } => TypeKindModel::TypeAlias {
                type_alias: **type_alias,
                underlying_type: Box::new(underlying_type.model()),
            },
            RsTypeKind::Unit => TypeKindModel::Unit,
            RsTypeKind::Other { name, type_args } => TypeKindModel::Other {
                name: name@,
                type_args: Seq::new(
                    type_args@.len(),
                    |i: int|
                        if 0 <= i < type_args@.len() {
                            type_args@[i].model()
                        } else {
                            TypeKindModel::Unit
                        },
                ),
            },
        }
    }
}

impl<'ir> View for RsTypeKind<'ir> {
    type V = TypeKindModel;

    open spec fn view(&self) -> TypeKindModel {
        self.model()
    }
}

/// The models of a sequence of kinds, in order.
pub open spec fn kinds_of(kinds: Seq<RsTypeKind>) -> Seq<TypeKindModel> {
    Seq::new(kinds.len(), |i: int| kinds[i]@)
}

/// Whether `r` is the kind or the error that `expected` describes.
pub open spec fn kind_is(
    r: Result<RsTypeKind, BindingError>,
    expected: Result<TypeKindModel, ErrorModel>,
) -> bool {
    match expected {
        Ok(kind) => r matches Ok(k) && k@ == kind,
        Err(error) => r matches Err(e) && e@ == error,
    }
}

/// Whether `r` holds the kinds or the error that `expected` describes.
pub open spec fn kinds_are(
    r: Result<Vec<RsTypeKind>, BindingError>,
    expected: Result<Seq<TypeKindModel>, ErrorModel>,
) -> bool {
    match expected {
        Ok(kinds) => r matches Ok(v) && kinds_of(v@) == kinds,
        Err(error) => r matches Err(e) && e@ == error,
    }
}

fn resolve_type_args<'ir>(ty: &'ir RsType, ir: &'ir IR, fuel: usize) -> (r: Result<
    Vec<RsTypeKind<'ir>>,
    BindingError,
>)
    ensures
        kinds_are(r, resolve_args(ty.type_args@, ir, fuel as nat, ty.type_args@.len())),
    decreases fuel, ty, 0nat,
{
    let mut kinds: Vec<RsTypeKind<'ir>> = Vec::new();
    let mut i: usize = 0;
    assert(kinds_of(kinds@) =~= Seq::empty());
    while i < ty.type_args.len()
        invariant
            i <= ty.type_args.len(),
            resolve_args(ty.type_args@, ir, fuel as nat, i as nat) == Ok::<
                Seq<TypeKindModel>,
                ErrorModel,
            >(kinds_of(kinds@)),
        decreases ty.type_args.len() - i,
    {
        proof {
            assert(decreases_to!(ty => ty.type_args));
            assert(decreases_to!(ty.type_args => ty.type_args@));
            assert(decreases_to!(ty.type_args@ => ty.type_args@[i as int]));
        }
        match resolve_with_fuel(&ty.type_args[i], ir, fuel) {
            Err(e) => {
                proof {
                    lemma_resolve_args_error(ty.type_args@, ir, fuel as nat, i as nat + 1, ty.type_args@.len());
                }
                return Err(e);
            },
            Ok(kind) => {
                let ghost before = kinds_of(kinds@);
                kinds.push(kind);
                assert(kinds_of(kinds@) =~= before.push(kind@));
            },
        }
        i += 1;
    }
    Ok(kinds)
}

/// An error among the first `n` arguments is the error of any longer
/// prefix.
proof fn lemma_resolve_args_error(args: Seq<RsType>, ir: &IR, fuel: nat, n: nat, m: nat)
    requires
        n <= m <= args.len(),
        resolve_args(args, ir, fuel, n) is Err,
    ensures
        resolve_args(args, ir, fuel, m) == resolve_args(args, ir, fuel, n),
    decreases m,
{
    if n < m {
        lemma_resolve_args_error(args, ir, fuel, n, (m - 1) as nat);
    }
}

fn resolve_pointee_kind<'ir>(ty: &'ir RsType, ir: &'ir IR, fuel: usize) -> (r: Result<
    RsTypeKind<'ir>,
    BindingError,
>)
    ensures
        kind_is(r, resolve_pointee(ty, ir, fuel as nat)),
    decreases fuel, ty, 0nat,
{
    if ty.type_args.len() != 1 {
        return Err(
            BindingError::from_str(
                ErrorKind::MissingTypeArgument,
                "Missing pointee/referent type (need exactly 1 type argument)",
            ),
        );
    }
    proof {
        assert(decreases_to!(ty => ty.type_args));
        assert(decreases_to!(ty.type_args => ty.type_args@));
        assert(decreases_to!(ty.type_args@ => ty.type_args@[0]));
    }
    resolve_with_fuel(&ty.type_args[0], ir, fuel)
}

fn resolve_lifetime_id(ty: &RsType) -> (r: Result<LifetimeId, BindingError>)
    ensures
        match resolve_lifetime(ty) {
            Ok(id) => r == Ok::<LifetimeId, BindingError>(id),
            Err(error) => r matches Err(e) && e@ == error,
        },
{
    if ty.lifetime_args.len() != 1 {
        return Err(
            BindingError::from_str(
                ErrorKind::MissingLifetime,
                "Missing reference lifetime (need exactly 1 lifetime argument)",
            ),
        );
    }
    Ok(ty.lifetime_args[0])
}

fn resolve_pointer_kind<'ir>(
    ty: &'ir RsType,
    ir: &'ir IR,
    fuel: usize,
    mutability: Mutability,
) -> (r: Result<RsTypeKind<'ir>, BindingError>)
    ensures
        kind_is(r, resolve_pointer(ty, ir, fuel as nat, mutability)),
    decreases fuel, ty, 1nat,
{
    match resolve_pointee_kind(ty, ir, fuel) {
        Err(e) => Err(e),
        Ok(pointee) => Ok(RsTypeKind::Pointer { pointee: Box::new(pointee), mutability }),
    }
}

fn resolve_reference_kind<'ir>(
    ty: &'ir RsType,
    ir: &'ir IR,
    fuel: usize,
    mutability: Mutability,
) -> (r: Result<RsTypeKind<'ir>, BindingError>)
    ensures
        kind_is(r, resolve_reference(ty, ir, fuel as nat, mutability)),
    decreases fuel, ty, 1nat,
{
    match resolve_pointee_kind(ty, ir, fuel) {
        Err(e) => Err(e),
        Ok(referent) => match resolve_lifetime_id(ty) {
            Err(e) => Err(e),
            Ok(lifetime_id) => Ok(
                RsTypeKind::Reference { referent: Box::new(referent), mutability, lifetime_id },
            ),
        },
    }
}

fn resolve_with_fuel<'ir>(ty: &'ir RsType, ir: &'ir IR, fuel: usize) -> (r: Result<
    RsTypeKind<'ir>,
    BindingError,
>)
    ensures
        kind_is(r, resolve(ty, ir, fuel as nat)),
    decreases fuel, ty, 2nat,
{
    match &ty.name {
        None => {
            if ty.type_args.len() != 0 {
                return Err(
                    BindingError::from_str(
                        ErrorKind::UnsupportedTypeArguments,
                        "Type arguments on records nor type aliases are not yet supported",
                    ),
                );
            }
            match ir.item_for_type(ty.decl_id) {
                Err(e) => Err(e),
                Ok(Item::Record(record)) => Ok(RsTypeKind::Record(record)),
                Ok(Item::TypeAlias(type_alias)) => {
                    if fuel == 0 {
                        return Err(
                            BindingError::from_str(
                                ErrorKind::CyclicAlias,
                                "Type alias refers to itself",
                            ),
                        );
                    }
                    match resolve_with_fuel(&type_alias.underlying_type.rs_type, ir, fuel - 1) {
                        Err(e) => Err(e),
                        Ok(underlying_type) => Ok(
                            RsTypeKind::TypeAlias {
                                type_alias,
                                underlying_type: Box::new(underlying_type),
                            },
                        ),
                    }
                },
                Ok(_) => Err(
                    BindingError::from_str(ErrorKind::NotAType, "Item does not define a type"),
                ),
            }
        },
        Some(name) => {
            let name = name.as_str();
            if str_eq(name, "()") {
                if ty.type_args.len() != 0 {
                    return Err(
                        BindingError::from_str(
                            ErrorKind::UnsupportedTypeArguments,
                            "Unit type must not have type arguments",
                        ),
                    );
                }
                Ok(RsTypeKind::Unit)
            } else if str_eq(name, "*mut") {
                resolve_pointer_kind(ty, ir, fuel, Mutability::Mut)
            } else if str_eq(name, "*const") {
                resolve_pointer_kind(ty, ir, fuel, Mutability::Const)
            } else if str_eq(name, "&mut") {
                resolve_reference_kind(ty, ir, fuel, Mutability::Mut)
            } else if str_eq(name, "&") {
                resolve_reference_kind(ty, ir, fuel, Mutability::Const)
            } else {
                match resolve_type_args(ty, ir, fuel) {
                    Err(e) => Err(e),
                    Ok(type_args) => {
                        let kind = RsTypeKind::Other { name, type_args };
                        assert(kind@->Other_type_args =~= kinds_of(type_args@));
                        Ok(kind)
                    },
                }
            }
        },
    }
}

impl<'ir> RsTypeKind<'ir> {
    /// What the type node `ty` stands for in the unit `ir`.
    ///
    /// Succeeds where `resolve` does, with that kind, and fails with its
    /// error otherwise; a chain of type aliases may be as long as the unit
    /// has declarations.
    pub fn new(ty: &'ir RsType, ir: &'ir IR) -> (r: Result<RsTypeKind<'ir>, BindingError>)
        ensures
            kind_is(r, resolve(ty, ir, ir.items@.len())),
    {
        resolve_with_fuel(ty, ir, ir.items.len())
    }
}

/// The formatted forms of the first `n` of `args`, or the first error among
/// them.
pub open spec fn format_args_tokens(
    args: Seq<TypeKindModel>,
    ir: &IR,
    lifetimes: Seq<LifetimeName>,
    n: nat,
) -> Result<Seq<Seq<Tok>>, ErrorModel>
    decreases args, n,
{
    if n == 0 || n > args.len() {
        Ok(Seq::empty())
    } else {
        match format_args_tokens(args, ir, lifetimes, (n - 1) as nat) {
            Err(e) => Err(e),
            Ok(formatted) => match args[n - 1].format_tokens(ir, lifetimes) {
                Err(e) => Err(e),
                Ok(tokens) => Ok(formatted.push(tokens)),
            },
        }
    }
}

/// The error for a `__this` parameter of a constructor that is neither a
/// mutable pointer nor a mutable reference.
pub open spec fn this_param_error() -> ErrorModel {
    ErrorModel::root(
        ErrorKind::InvalidSelf,
        "Unexpected type of `__this` parameter in a constructor"@,
    )
}

/// The error for a `self` parameter of a function that is no member.
pub open spec fn non_member_self_error() -> ErrorModel {
    ErrorModel::root(
        ErrorKind::MissingRecord,
        "Unexpectedly formatting `self` parameter in a non-member function"@,
    )
}

/// The error for a `self` parameter that is neither pointer nor reference.
pub open spec fn self_type_error() -> ErrorModel {
    ErrorModel::root(
        ErrorKind::InvalidSelf,
        "Unexpected type of `self` parameter in an instance method"@,
    )
}

/// The error for a `self` parameter that does not lead to a record.
pub open spec fn self_not_record_error() -> ErrorModel {
    ErrorModel::root(
        ErrorKind::InvalidSelf,
        "`self` reference unexpectedly doesn't point to a Record"@,
    )
}

/// The error for a `self` parameter that leads to another record than that
/// of the function.
pub open spec fn self_other_record_error() -> ErrorModel {
    ErrorModel::root(ErrorKind::MissingRecord, "`self` refers to an unexpected record type"@)
}

/// The error for a `self` parameter that is a pointer, outside a destructor.
pub open spec fn self_without_lifetime_error() -> ErrorModel {
    ErrorModel::root(
        ErrorKind::InvalidSelf,
        "`self` has no lifetime. Use lifetime annotations or `#pragma clang lifetime_elision` to create bindings for this function."@,
    )
}

/// `std :: mem :: MaybeUninit`
pub open spec fn maybe_uninit_path_tokens() -> Seq<Tok> {
    word_tokens(Word::Std) + path_sep_tokens() + word_tokens(Word::Mem) + path_sep_tokens()
        + word_tokens(Word::MaybeUninit)
}

/// `:: core :: pin :: Pin`
pub open spec fn pin_path_tokens() -> Seq<Tok> {
    path_sep_tokens() + word_tokens(Word::Core) + path_sep_tokens() + word_tokens(Word::Pin)
        + path_sep_tokens() + word_tokens(Word::PinType)
}

impl TypeKindModel {
    /// The type as it is written in generated source.
    ///
    /// A pointer is `* mut T` or `* const T`; a reference `& 'a T` or
    /// `& 'a mut T`; a record or type alias its name, qualified by the crate
    /// of its unit where that is another one; the unit type `()`; any other
    /// type its name, followed by its arguments between `<` and `>` where it
    /// has any.
    pub open spec fn format_tokens(self, ir: &IR, lifetimes: Seq<LifetimeName>) -> Result<
        Seq<Tok>,
        ErrorModel,
    >
        decreases self, 0nat,
    {
        match self {
            TypeKindModel::Pointer { pointee, mutability } => match pointee.format_tokens(
                ir,
                lifetimes,
            ) {
                Err(e) => Err(e),
                Ok(nested) => Ok(punct_tokens('*') + mutability.pointer_tokens() + nested),
            },
            TypeKindModel::Reference { referent, mutability, lifetime_id } => {
                match format_lifetime_tokens(lifetime_id, lifetimes) {
                    Err(e) => Err(e),
                    Ok(lifetime) => match referent.format_tokens(ir, lifetimes) {
                        Err(e) => Err(e),
                        Ok(nested) => Ok(
                            punct_tokens('&') + lifetime + mutability.reference_tokens() + nested,
                        ),
                    },
                }
            },
            TypeKindModel::Record(record) => type_name_tokens(
                &record.owning_target,
                &record.identifier,
                ir,
            ),
            TypeKindModel::TypeAlias { type_alias, underlying_type } => type_name_tokens(
                &type_alias.owning_target,
                &type_alias.identifier,
                ir,
            ),
            TypeKindModel::Unit => Ok(paren_tokens(Seq::empty())),
            TypeKindModel::Other { name, type_args } => match make_ident_tokens(name) {
                Err(e) => Err(e),
                Ok(name_tokens) => match format_args_tokens(
                    type_args,
                    ir,
                    lifetimes,
                    type_args.len(),
                ) {
                    Err(e) => Err(e),
                    Ok(args) => Ok(name_tokens + generic_params_tokens(args)),
                },
            },
        }
    }

    /// The type of the `__this` parameter in the adapter of a constructor:
    /// `& 'a mut std :: mem :: MaybeUninit < T >` for a mutable pointer or
    /// reference to `T`, without the lifetime for a pointer.
    pub open spec fn this_param_tokens(self, ir: &IR, lifetimes: Seq<LifetimeName>) -> Result<
        Seq<Tok>,
        ErrorModel,
    > {
        match self {
            TypeKindModel::Pointer { pointee, mutability: Mutability::Mut } => {
                match pointee.format_tokens(ir, lifetimes) {
                    Err(e) => Err(e),
                    Ok(nested) => Ok(
                        punct_tokens('&') + Seq::<Tok>::empty() + word_tokens(Word::Mut)
                            + maybe_uninit_path_tokens() + punct_tokens('<') + nested
                            + punct_tokens('>'),
                    ),
                }
            },
            TypeKindModel::Reference { referent, mutability: Mutability::Mut, lifetime_id } => {
                match referent.format_tokens(ir, lifetimes) {
                    Err(e) => Err(e),
                    Ok(nested) => match format_lifetime_tokens(lifetime_id, lifetimes) {
                        Err(e) => Err(e),
                        Ok(lifetime) => Ok(
                            punct_tokens('&') + lifetime + word_tokens(Word::Mut)
                                + maybe_uninit_path_tokens() + punct_tokens('<') + nested
                                + punct_tokens('>'),
                        ),
                    },
                }
            },
            _ => Err(this_param_error()),
        }
    }

    /// What a pointer or reference leads to.
    pub open spec fn nested(self) -> Option<TypeKindModel> {
        match self {
            TypeKindModel::Pointer { pointee, .. } => Some(*pointee),
            TypeKindModel::Reference { referent, .. } => Some(*referent),
            _ => None,
        }
    }

    /// The receiver of an instance method of `func`'s record whose `__this`
    /// parameter has this type.
    ///
    /// A reference becomes `& 'a self` or `& 'a mut self`, and a mutable
    /// reference to a record that must not move becomes
    /// `self : :: core :: pin :: Pin < & 'a mut Self >`. A mutable pointer
    /// becomes `& mut self` in a destructor; any other pointer has no
    /// lifetime to give the receiver and is an error.
    pub open spec fn self_param_tokens(self, func: &Func, ir: &IR, lifetimes: Seq<LifetimeName>) -> Result<
        Seq<Tok>,
        ErrorModel,
    > {
        match func.member_func_metadata {
            None => Err(non_member_self_error()),
            Some(meta) => match meta.spec_find_record(ir) {
                Err(e) => Err(e),
                Ok(record_from_func) => match self.nested() {
                    None => Err(self_type_error()),
                    Some(TypeKindModel::Record(record_from_self)) => {
                        if record_from_func.id != record_from_self.id {
                            Err(self_other_record_error())
                        } else {
                            match self {
                                TypeKindModel::Pointer { mutability, .. } => {
                                    if mutability == Mutability::Mut
                                        && func.name is Destructor {
                                        Ok(
                                            punct_tokens('&') + word_tokens(Word::Mut)
                                                + word_tokens(Word::SelfValue),
                                        )
                                    } else {
                                        Err(self_without_lifetime_error())
                                    }
                                },
                                TypeKindModel::Reference { mutability, lifetime_id, .. } => {
                                    match format_lifetime_tokens(lifetime_id, lifetimes) {
                                        Err(e) => Err(e),
                                        Ok(lifetime) => {
                                            if mutability == Mutability::Mut
                                                && !record_from_self.spec_is_unpin() {
                                                Ok(
                                                    word_tokens(Word::SelfValue) + punct_tokens(
                                                        ':',
                                                    ) + pin_path_tokens() + punct_tokens('<')
                                                        + punct_tokens('&') + lifetime
                                                        + word_tokens(Word::Mut) + word_tokens(
                                                        Word::SelfType,
                                                    ) + punct_tokens('>'),
                                                )
                                            } else {
                                                Ok(
                                                    punct_tokens('&') + lifetime
                                                        + mutability.reference_tokens()
                                                        + word_tokens(Word::SelfValue),
                                                )
                                            }
                                        },
                                    }
                                },
                                _ => Err(self_type_error()),
                            }
                        }
                    },
                    Some(_) => Err(self_not_record_error()),
                },
            },
        }
    }

    /// Whether values of the type are copied bitwise.
    pub open spec fn spec_implements_copy(self) -> bool
        decreases self,
    {
        match self {
            TypeKindModel::Unit => true,
            TypeKindModel::Pointer { .. } => true,
            TypeKindModel::Reference { mutability: Mutability::Const, .. } => true,
            TypeKindModel::Reference { mutability: Mutability::Mut, .. } => false,
            TypeKindModel::Record(record) => spec_should_derive_copy(&record),
            TypeKindModel::TypeAlias { underlying_type, .. } => underlying_type.spec_implements_copy(),
            TypeKindModel::Other { .. } => true,
        }
    }

    /// Whether the type is a shared reference to the record `expected`.
    pub open spec fn spec_is_shared_ref_to(self, expected: &Record) -> bool {
        match self {
            TypeKindModel::Reference { referent, mutability: Mutability::Const, .. } => {
                match *referent {
                    TypeKindModel::Record(actual) => actual.id == expected.id,
                    _ => false,
                }
            },
            _ => false,
        }
    }
}

/// `std :: mem :: MaybeUninit`
pub fn maybe_uninit_path() -> (ts: TokenStream)
    ensures
        stream_of(ts) == maybe_uninit_path_tokens(),
{
    let mut out = word(Word::Std);
    append(&mut out, path_sep());
    append(&mut out, word(Word::Mem));
    append(&mut out, path_sep());
    append(&mut out, word(Word::MaybeUninit));
    out
}

/// `:: core :: pin :: Pin`
pub fn pin_path() -> (ts: TokenStream)
    ensures
        stream_of(ts) == pin_path_tokens(),
{
    let mut out = path_sep();
    append(&mut out, word(Word::Core));
    append(&mut out, path_sep());
    append(&mut out, word(Word::Pin));
    append(&mut out, path_sep());
    append(&mut out, word(Word::PinType));
    out
}

/// Whether `r` holds the streams or the error that `expected` describes.
pub open spec fn streams_are(
    r: Result<Vec<TokenStream>, BindingError>,
    expected: Result<Seq<Seq<Tok>>, ErrorModel>,
) -> bool {
    match expected {
        Ok(streams) => r matches Ok(v) && streams_of(v@) == streams,
        Err(error) => r matches Err(e) && e@ == error,
    }
}

/// An error among the first `n` arguments is the error of any longer
/// prefix.
proof fn lemma_format_args_error(
    args: Seq<TypeKindModel>,
    ir: &IR,
    lifetimes: Seq<LifetimeName>,
    n: nat,
    m: nat,
)
    requires
        n <= m <= args.len(),
        format_args_tokens(args, ir, lifetimes, n) is Err,
    ensures
        format_args_tokens(args, ir, lifetimes, m) == format_args_tokens(args, ir, lifetimes, n),
    decreases m,
{
    if n < m {
        lemma_format_args_error(args, ir, lifetimes, n, (m - 1) as nat);
    }
}

impl<'ir> RsTypeKind<'ir> {
    /// The type as it is written in generated source; an error where a name
    /// in it is no identifier, a lifetime is not among `lifetimes`, or the
    /// label of a unit has no target.
    pub fn format(&self, ir: &IR, lifetimes: &Vec<LifetimeName>) -> (r: Result<
        TokenStream,
        BindingError,
    >)
        ensures
            tokens_are(r, self@.format_tokens(ir, lifetimes@)),
        decreases self,
    {
        match self {
            RsTypeKind::Pointer { pointee, mutability } => {
                match pointee.format(ir, lifetimes) {
                    Err(e) => Err(e),
                    Ok(nested) => {
                        let mut out = punct('*');
                        append(&mut out, mutability.format_for_pointer());
                        append(&mut out, nested);
                        Ok(out)
                    },
                }
            },
            RsTypeKind::Reference { referent, mutability, lifetime_id } => {
                match format_lifetime(*lifetime_id, lifetimes) {
                    Err(e) => Err(e),
                    Ok(lifetime) => match referent.format(ir, lifetimes) {
                        Err(e) => Err(e),
                        Ok(nested) => {
                            let mut out = punct('&');
                            append(&mut out, lifetime);
                            append(&mut out, mutability.format_for_reference());
                            append(&mut out, nested);
                            Ok(out)
                        },
                    },
                }
            },
            RsTypeKind::Record(record) => rs_type_name_for_target_and_identifier(
                &record.owning_target,
                &record.identifier,
                ir,
            ),
            RsTypeKind::TypeAlias { type_alias, .. } => rs_type_name_for_target_and_identifier(
                &type_alias.owning_target,
                &type_alias.identifier,
                ir,
            ),
            RsTypeKind::Unit => Ok(paren(empty_stream())),
            RsTypeKind::Other { name, type_args } => {
                let name_tokens = match make_ident(name) {
                    Err(e) => {
                        return Err(e);
                    },
                    Ok(name_tokens) => name_tokens,
                };
                let ghost args = self@->Other_type_args;
                assert(args =~= kinds_of(type_args@));
                let mut formatted: Vec<TokenStream> = Vec::new();
                let mut i: usize = 0;
                assert(streams_of(formatted@) =~= Seq::empty());
                while i < type_args.len()
                    invariant
                        i <= type_args.len(),
                        args == kinds_of(type_args@),
                        *self == (RsTypeKind::Other { name: *name, type_args: *type_args }),
                        self@ == (TypeKindModel::Other { name: name@, type_args: args }),
                        make_ident_tokens(name@) is Ok,
                        format_args_tokens(args, ir, lifetimes@, i as nat) == Ok::<
                            Seq<Seq<Tok>>,
                            ErrorModel,
                        >(streams_of(formatted@)),
                    decreases type_args.len() - i,
                {
                    proof {
                        assert(decreases_to!(self => self->Other_type_args));
                        assert(decreases_to!(self->Other_type_args => self->Other_type_args@));
                        assert(decreases_to!(self->Other_type_args@ => self->Other_type_args@[i as int]));
                    }
                    match type_args[i].format(ir, lifetimes) {
                        Err(e) => {
                            proof {
                                lemma_format_args_error(
                                    args,
                                    ir,
                                    lifetimes@,
                                    i as nat + 1,
                                    args.len(),
                                );
                            }
                            return Err(e);
                        },
                        Ok(tokens) => {
                            let ghost before = streams_of(formatted@);
                            formatted.push(tokens);
                            assert(streams_of(formatted@) =~= before.push(stream_of(tokens)));
                        },
                    }
                    i += 1;
                }
                let mut out = name_tokens;
                append(&mut out, format_generic_params(&formatted));
                Ok(out)
            },
        }
    }

    /// The type of the `__this` parameter in the adapter of a constructor;
    /// an error where this is neither a mutable pointer nor a mutable
    /// reference, or where what it leads to or its lifetime cannot be
    /// written.
    pub fn format_as_this_param_for_constructor_thunk(
        &self,
        ir: &IR,
        lifetimes: &Vec<LifetimeName>,
    ) -> (r: Result<TokenStream, BindingError>)
        ensures
            tokens_are(r, self@.this_param_tokens(ir, lifetimes@)),
    {
        let (nested, lifetime) = match self {
            RsTypeKind::Pointer { pointee, mutability: Mutability::Mut } => {
                match pointee.format(ir, lifetimes) {
                    Err(e) => {
                        return Err(e);
                    },
                    Ok(nested) => (nested, empty_stream()),
                }
            },
            RsTypeKind::Reference { referent, mutability: Mutability::Mut, lifetime_id } => {
                match referent.format(ir, lifetimes) {
                    Err(e) => {
                        return Err(e);
                    },
                    Ok(nested) => match format_lifetime(*lifetime_id, lifetimes) {
                        Err(e) => {
                            return Err(e);
                        },
                        Ok(lifetime) => (nested, lifetime),
                    },
                }
            },
            _ => {
                return Err(
                    BindingError::from_str(
                        ErrorKind::InvalidSelf,
                        "Unexpected type of `__this` parameter in a constructor",
                    ),
                );
            },
        };
        let mut out = punct('&');
        append(&mut out, lifetime);
        append(&mut out, word(Word::Mut));
        append(&mut out, maybe_uninit_path());
        append(&mut out, punct('<'));
        append(&mut out, nested);
        append(&mut out, punct('>'));
        Ok(out)
    }

    /// The receiver of an instance method of `func`'s record whose `__this`
    /// parameter has this type; an error where `func` is no member of a
    /// record of the unit, where this is no pointer or reference to that
    /// record, where it is a pointer outside a mutable one in a destructor,
    /// or where the lifetime of the reference cannot be written.
    pub fn format_as_self_param_for_instance_method(
        &self,
        func: &Func,
        ir: &IR,
        lifetimes: &Vec<LifetimeName>,
    ) -> (r: Result<TokenStream, BindingError>)
        ensures
            tokens_are(r, self@.self_param_tokens(func, ir, lifetimes@)),
    {
        let record_from_func = match &func.member_func_metadata {
            None => {
                return Err(
                    BindingError::from_str(
                        ErrorKind::MissingRecord,
                        "Unexpectedly formatting `self` parameter in a non-member function",
                    ),
                );
            },
            Some(meta) => match meta.find_record(ir) {
                Err(e) => {
                    return Err(e);
                },
                Ok(record) => record,
            },
        };
        let nested_type: &RsTypeKind = match self {
            RsTypeKind::Pointer { pointee, .. } => pointee,
            RsTypeKind::Reference { referent, .. } => referent,
            _ => {
                return Err(
                    BindingError::from_str(
                        ErrorKind::InvalidSelf,
                        "Unexpected type of `self` parameter in an instance method",
                    ),
                );
            },
        };
        assert(self@.nested() == Some(nested_type@));
        let record_from_self: &Record = match nested_type {
            RsTypeKind::Record(record) => record,
            _ => {
                assert(!(nested_type@ is Record));
                return Err(
                    BindingError::from_str(
                        ErrorKind::InvalidSelf,
                        "`self` reference unexpectedly doesn't point to a Record",
                    ),
                );
            },
        };
        if record_from_func.id.0 != record_from_self.id.0 {
            return Err(
                BindingError::from_str(
                    ErrorKind::MissingRecord,
                    "`self` refers to an unexpected record type",
                ),
            );
        }
        match self {
            RsTypeKind::Pointer { mutability, .. } => {
                let is_destructor = match func.name {
                    UnqualifiedIdentifier::Destructor => true,
                    _ => false,
                };
                if mutability.is_mut() && is_destructor {
                    let mut out = punct('&');
                    append(&mut out, word(Word::Mut));
                    append(&mut out, word(Word::SelfValue));
                    Ok(out)
                } else {
                    Err(
                        BindingError::from_str(
                            ErrorKind::InvalidSelf,
                            "`self` has no lifetime. Use lifetime annotations or `#pragma clang lifetime_elision` to create bindings for this function.",
                        ),
                    )
                }
            },
            RsTypeKind::Reference { mutability, lifetime_id, .. } => {
                match format_lifetime(*lifetime_id, lifetimes) {
                    Err(e) => Err(e),
                    Ok(lifetime) => {
                        if mutability.is_mut() && !record_from_self.is_unpin() {
                            let mut out = word(Word::SelfValue);
                            append(&mut out, punct(':'));
                            append(&mut out, pin_path());
                            append(&mut out, punct('<'));
                            append(&mut out, punct('&'));
                            append(&mut out, lifetime);
                            append(&mut out, word(Word::Mut));
                            append(&mut out, word(Word::SelfType));
                            append(&mut out, punct('>'));
                            Ok(out)
                        } else {
                            let mut out = punct('&');
                            append(&mut out, lifetime);
                            append(&mut out, mutability.format_for_reference());
                            append(&mut out, word(Word::SelfValue));
                            Ok(out)
                        }
                    },
                }
            },
            _ => Err(
                BindingError::from_str(
                    ErrorKind::InvalidSelf,
                    "Unexpected type of `self` parameter in an instance method",
                ),
            ),
        }
    }

    /// Whether values of the type are copied bitwise.
    pub fn implements_copy(&self) -> (b: bool)
        ensures
            b == self@.spec_implements_copy(),
        decreases self,
    {
        match self {
            RsTypeKind::Unit => true,
            RsTypeKind::Pointer { .. } => true,
            RsTypeKind::Reference { mutability: Mutability::Const, .. } => true,
            RsTypeKind::Reference { mutability: Mutability::Mut, .. } => false,
            RsTypeKind::Record(record) => should_derive_copy(record),
            RsTypeKind::TypeAlias { underlying_type, .. } => underlying_type.implements_copy(),
            RsTypeKind::Other { .. } => true,
        }
    }

    /// Whether the type is a shared reference to the record `expected`.
    pub fn is_shared_ref_to(&self, expected: &Record) -> (b: bool)
        ensures
            b == self@.spec_is_shared_ref_to(expected),
    {
        match self {
            RsTypeKind::Reference { referent, mutability: Mutability::Const, .. } => {
                let referent: &RsTypeKind = referent;
                assert(self@ matches TypeKindModel::Reference { referent: r, .. } && *r
                    == referent@);
                match referent {
                    RsTypeKind::Record(actual) => {
                        assert(referent@ == TypeKindModel::Record(**actual));
                        actual.id.0 == expected.id.0
                    },
                    _ => {
                        assert(!(referent@ is Record));
                        false
                    },
                }
            },
            _ => false,
        }
    }
}

/// What the type node `ty` is written as in generated source: its kind in
/// the unit `ir`, formatted.
pub open spec fn format_rs_type_tokens(ty: &RsType, ir: &IR, lifetimes: Seq<LifetimeName>) -> Result<
    Seq<Tok>,
    ErrorModel,
> {
    in_context(
        match resolve(ty, ir, ir.items@.len()) {
            Err(e) => Err(e),
            Ok(kind) => kind.format_tokens(ir, lifetimes),
        },
        "Failed to format Rust type"@,
    )
}

/// What the type node `ty` is written as in generated source; the error of
/// resolving or formatting it otherwise, in that context.
pub fn format_rs_type(ty: &RsType, ir: &IR, lifetimes: &Vec<LifetimeName>) -> (r: Result<
    TokenStream,
    BindingError,
>)
    ensures
        tokens_are(r, format_rs_type_tokens(ty, ir, lifetimes@)),
{
    let formatted = match RsTypeKind::new(ty, ir) {
        Err(e) => Err(e),
        Ok(kind) => kind.format(ir, lifetimes),
    };
    with_context(formatted, String::from_str("Failed to format Rust type"))
}

/// One character of a comment as it stands in a doc attribute: a line break
/// is followed by a space.
pub open spec fn indent_char(c: char) -> Seq<char> {
    if c == '\n' {
        seq!['\n', ' ']
    } else {
        seq![c]
    }
}

/// A comment as it stands in a doc attribute: every line break followed by a
/// space.
pub open spec fn indent_lines(text: Seq<char>) -> Seq<char>
    decreases text.len(),
{
    if text.len() == 0 {
        Seq::empty()
    } else {
        indent_lines(text.drop_last()) + indent_char(text.last())
    }
}

/// The text of the doc attribute for the comment `text`: a space, then the
/// comment with every line break followed by a space.
pub open spec fn doc_text(text: Seq<char>) -> Seq<char> {
    seq![' '] + indent_lines(text)
}

/// `# [ doc = "text" ]`
pub open spec fn doc_attribute_tokens(text: Seq<char>) -> Seq<Tok> {
    punct_tokens('#') + bracket_tokens(
        word_tokens(Word::Doc) + punct_tokens('=') + string_tokens(text),
    )
}

/// The doc attribute for a comment, and nothing where there is no comment.
pub open spec fn doc_comment_tokens(comment: Option<String>) -> Seq<Tok> {
    match comment {
        Some(text) => doc_attribute_tokens(doc_text(text@)),
        None => Seq::empty(),
    }
}

/// The text of the doc attribute for the comment `text`.
pub fn doc_string(text: &str) -> (doc: String)
    ensures
        doc@ == doc_text(text@),
{
    let n = text.unicode_len();
    let mut doc = String::from_str(" ");
    proof {
        reveal_strlit(" ");
        assert(" "@ =~= seq![' ']);
        assert(text@.take(0) =~= Seq::<char>::empty());
        assert(text@.subrange(0, 0) =~= Seq::<char>::empty());
    }
    let mut start: usize = 0;
    let mut i: usize = 0;
    while i < n
        invariant
            n == text@.len(),
            start <= i <= n,
            " "@ == seq![' '],
            doc@ + text@.subrange(start as int, i as int) == doc_text(text@.take(i as int)),
        decreases n - i,
    {
        let c = text.get_char(i);
        let ghost prev = doc_text(text@.take(i as int));
        let ghost old_doc = doc@;
        let ghost old_run = text@.subrange(start as int, i as int);
        proof {
            let next = text@.take(i as int + 1);
            assert(next.drop_last() =~= text@.take(i as int));
            assert(next.last() == c);
            assert(indent_lines(next) == indent_lines(text@.take(i as int)) + indent_char(c));
            assert(doc_text(next) =~= prev + indent_char(c));
            assert(text@.subrange(start as int, i as int + 1) =~= old_run.push(c));
        }
        if c == '\n' {
            doc.append(text.substring_char(start, i + 1));
            doc.append(" ");
            start = i + 1;
            proof {
                assert(doc@ =~= (old_doc + old_run) + seq!['\n', ' ']);
                assert(text@.subrange(start as int, i as int + 1) =~= Seq::<char>::empty());
                assert(doc@ + text@.subrange(start as int, i as int + 1) =~= prev + indent_char(
                    c,
                ));
            }
        } else {
            proof {
                assert(doc@ + text@.subrange(start as int, i as int + 1) =~= (old_doc + old_run)
                    + seq![c]);
            }
        }
        i += 1;
    }
    doc.append(text.substring_char(start, n));
    proof {
        assert(text@.take(n as int) =~= text@);
    }
    doc
}

/// `# [ doc = "text" ]`
pub fn doc_attribute(text: &str) -> (ts: TokenStream)
    ensures
        stream_of(ts) == doc_attribute_tokens(text@),
{
    let mut inner = word(Word::Doc);
    append(&mut inner, punct('='));
    append(&mut inner, string_literal(text));
    let mut out = punct('#');
    append(&mut out, bracket(inner));
    out
}

/// The doc attribute for a comment, and nothing where there is no comment.
pub fn generate_doc_comment(comment: &Option<String>) -> (ts: TokenStream)
    ensures
        stream_of(ts) == doc_comment_tokens(*comment),
{
    match comment {
        Some(text) => {
            let doc = doc_string(text.as_str());
            doc_attribute(doc.as_str())
        },
        None => empty_stream(),
    }
}

/// The traits that the type generated for `record` derives: `Clone` where
/// it is cloned, then `Copy` where it is copied.
pub open spec fn derives_of(record: &Record) -> Seq<Word> {
    (if spec_should_derive_clone(record) {
        seq![Word::CloneTrait]
    } else {
        seq![]
    }) + (if spec_should_derive_copy(record) {
        seq![Word::CopyTrait]
    } else {
        seq![]
    })
}

/// The traits that the type generated for `record` derives.
pub fn generate_derives(record: &Record) -> (derives: Vec<Word>)
    ensures
        derives@ == derives_of(record),
{
    let mut derives: Vec<Word> = Vec::new();
    if should_derive_clone(record) {
        derives.push(Word::CloneTrait);
    }
    if should_derive_copy(record) {
        derives.push(Word::CopyTrait);
    }
    assert(derives@ =~= derives_of(record));
    derives
}

/// Whether a field of the type `ty` is kept from being dropped with the
/// type that holds it: whether its values are not copied bitwise.
pub open spec fn spec_needs_manually_drop(ty: &RsType, ir: &IR) -> Result<bool, ErrorModel> {
    match resolve(ty, ir, ir.items@.len()) {
        Err(e) => Err(e),
        Ok(kind) => Ok(!kind.spec_implements_copy()),
    }
}

/// Whether a field of the type `ty` must be wrapped so that it is not
/// destroyed twice, once by the record's destructor and once by the drop of
/// the field: a type that is copied bitwise needs no wrapper.
pub fn needs_manually_drop(ty: &RsType, ir: &IR) -> (r: Result<bool, BindingError>)
    ensures
        match spec_needs_manually_drop(ty, ir) {
            Ok(needed) => r == Ok::<bool, BindingError>(needed),
            Err(error) => r matches Err(e) && e@ == error,
        },
{
    match RsTypeKind::new(ty, ir) {
        Err(e) => Err(e),
        Ok(kind) => Ok(!kind.implements_copy()),
    }
}

/// What the formatting of a field's type is attempted for.
pub open spec fn field_context(record: &Record, field: &Field) -> Seq<char> {
    "Failed to format type for field `"@ + field.identifier.identifier@ + "` on record `"@
        + record.identifier.identifier@ + "`"@
}

/// `std :: mem :: ManuallyDrop < inner >`
pub open spec fn manually_drop_tokens(inner: Seq<Tok>) -> Seq<Tok> {
    word_tokens(Word::Std) + path_sep_tokens() + word_tokens(Word::Mem) + path_sep_tokens()
        + word_tokens(Word::ManuallyDrop) + punct_tokens('<') + inner + punct_tokens('>')
}

/// The type of a field of the type generated for `record`: the field's type,
/// wrapped against a second destruction where the record gets a drop and the
/// type is not copied bitwise.
pub open spec fn field_type_tokens(record: &Record, field: &Field, ir: &IR) -> Result<
    Seq<Tok>,
    ErrorModel,
> {
    match in_context(
        format_rs_type_tokens(&field.type_.rs_type, ir, Seq::empty()),
        field_context(record, field),
    ) {
        Err(e) => Err(e),
        Ok(formatted) => if spec_should_implement_drop(record) {
            match spec_needs_manually_drop(&field.type_.rs_type, ir) {
                Err(e) => Err(e),
                Ok(needed) => if needed {
                    Ok(manually_drop_tokens(formatted))
                } else {
                    Ok(formatted)
                },
            }
        } else {
            Ok(formatted)
        },
    }
}

/// The type of a field of the type generated for `record`.
pub fn format_field_type(record: &Record, field: &Field, ir: &IR) -> (r: Result<
    TokenStream,
    BindingError,
>)
    ensures
        tokens_are(r, field_type_tokens(record, field, ir)),
{
    let no_lifetimes: Vec<LifetimeName> = Vec::new();
    let mut context = String::from_str("Failed to format type for field `");
    context.append(field.identifier.identifier.as_str());
    context.append("` on record `");
    context.append(record.identifier.identifier.as_str());
    context.append("`");
    let formatted = match with_context(
        format_rs_type(&field.type_.rs_type, ir, &no_lifetimes),
        context,
    ) {
        Err(e) => {
            return Err(e);
        },
        Ok(formatted) => formatted,
    };
    if should_implement_drop(record) {
        match needs_manually_drop(&field.type_.rs_type, ir) {
            Err(e) => Err(e),
            Ok(needed) => {
                if needed {
                    let mut out = word(Word::Std);
                    append(&mut out, path_sep());
                    append(&mut out, word(Word::Mem));
                    append(&mut out, path_sep());
                    append(&mut out, word(Word::ManuallyDrop));
                    append(&mut out, punct('<'));
                    append(&mut out, formatted);
                    append(&mut out, punct('>'));
                    Ok(out)
                } else {
                    Ok(formatted)
                }
            },
        }
    } else {
        Ok(formatted)
    }
}

/// The identifiers of the first `n` of `fields`, or the first error among
/// them.
pub open spec fn field_idents(fields: Seq<Field>, n: nat) -> Result<Seq<Seq<Tok>>, ErrorModel>
    decreases n,
{
    if n == 0 || n > fields.len() {
        Ok(Seq::empty())
    } else {
        match field_idents(fields, (n - 1) as nat) {
            Err(e) => Err(e),
            Ok(idents) => match make_ident_tokens(fields[n - 1].identifier.identifier@) {
                Err(e) => Err(e),
                Ok(ident) => Ok(idents.push(ident)),
            },
        }
    }
}

/// The types of the first `n` fields of `record`, or the first error among
/// them.
pub open spec fn field_types(record: &Record, ir: &IR, n: nat) -> Result<
    Seq<Seq<Tok>>,
    ErrorModel,
>
    decreases n,
{
    if n == 0 || n > record.fields@.len() {
        Ok(Seq::empty())
    } else {
        match field_types(record, ir, (n - 1) as nat) {
            Err(e) => Err(e),
            Ok(types) => match field_type_tokens(record, &record.fields@[n - 1], ir) {
                Err(e) => Err(e),
                Ok(tokens) => Ok(types.push(tokens)),
            },
        }
    }
}

proof fn lemma_field_idents_error(fields: Seq<Field>, n: nat, m: nat)
    requires
        n <= m <= fields.len(),
        field_idents(fields, n) is Err,
    ensures
        field_idents(fields, m) == field_idents(fields, n),
    decreases m,
{
    if n < m {
        lemma_field_idents_error(fields, n, (m - 1) as nat);
    }
}

proof fn lemma_field_types_error(record: &Record, ir: &IR, n: nat, m: nat)
    requires
        n <= m <= record.fields@.len(),
        field_types(record, ir, n) is Err,
    ensures
        field_types(record, ir, m) == field_types(record, ir, n),
    decreases m,
{
    if n < m {
        lemma_field_types_error(record, ir, n, (m - 1) as nat);
    }
}

/// The identifiers of the fields of `record`, in order; the error of the
/// first that is no identifier.
pub fn format_field_idents(record: &Record) -> (r: Result<Vec<TokenStream>, BindingError>)
    ensures
        streams_are(r, field_idents(record.fields@, record.fields@.len())),
{
    let mut idents: Vec<TokenStream> = Vec::new();
    let mut i: usize = 0;
    assert(streams_of(idents@) =~= Seq::empty());
    while i < record.fields.len()
        invariant
            i <= record.fields.len(),
            field_idents(record.fields@, i as nat) == Ok::<Seq<Seq<Tok>>, ErrorModel>(
                streams_of(idents@),
            ),
        decreases record.fields.len() - i,
    {
        match make_ident(record.fields[i].identifier.identifier.as_str()) {
            Err(e) => {
                proof {
                    lemma_field_idents_error(
                        record.fields@,
                        i as nat + 1,
                        record.fields@.len(),
                    );
                }
                return Err(e);
            },
            Ok(ident) => {
                let ghost before = streams_of(idents@);
                idents.push(ident);
                assert(streams_of(idents@) =~= before.push(stream_of(ident)));
            },
        }
        i += 1;
    }
    Ok(idents)
}

/// The types of the fields of the type generated for `record`, in order; the
/// error of the first that cannot be written.
pub fn format_field_types(record: &Record, ir: &IR) -> (r: Result<Vec<TokenStream>, BindingError>)
    ensures
        streams_are(r, field_types(record, ir, record.fields@.len())),
{
    let mut types: Vec<TokenStream> = Vec::new();
    let mut i: usize = 0;
    assert(streams_of(types@) =~= Seq::empty());
    while i < record.fields.len()
        invariant
            i <= record.fields.len(),
            field_types(record, ir, i as nat) == Ok::<Seq<Seq<Tok>>, ErrorModel>(
                streams_of(types@),
            ),
        decreases record.fields.len() - i,
    {
        match format_field_type(record, &record.fields[i], ir) {
            Err(e) => {
                proof {
                    lemma_field_types_error(record, ir, i as nat + 1, record.fields@.len());
                }
                return Err(e);
            },
            Ok(tokens) => {
                let ghost before = streams_of(types@);
                types.push(tokens);
                assert(streams_of(types@) =~= before.push(stream_of(tokens)));
            },
        }
        i += 1;
    }
    Ok(types)
}

/// `pub` for a public member, nothing for any other.
pub open spec fn access_tokens(access: AccessSpecifier) -> Seq<Tok> {
    match access {
        AccessSpecifier::Public => word_tokens(Word::Pub),
        _ => Seq::empty(),
    }
}

/// The declaration of one field: its doc attribute, its visibility,
/// `ident : type ,`.
pub open spec fn field_decl_tokens(field: &Field, ident: Seq<Tok>, ty: Seq<Tok>) -> Seq<Tok> {
    doc_comment_tokens(field.doc_comment) + access_tokens(field.access) + ident + punct_tokens(
        ':',
    ) + ty + punct_tokens(',')
}

/// The declarations of `fields`, in order.
pub open spec fn field_decls(
    fields: Seq<Field>,
    idents: Seq<Seq<Tok>>,
    types: Seq<Seq<Tok>>,
) -> Seq<Seq<Tok>> {
    Seq::new(fields.len(), |i: int| field_decl_tokens(&fields[i], idents[i], types[i]))
}

/// The text of the comment on the field that keeps an empty record from
/// having no size.
pub open spec fn placeholder_comment() -> Seq<char> {
    " Prevent empty C++ struct being zero-size in Rust."@
}

/// The one-byte field of a type generated for a record without fields:
/// `placeholder : std :: mem :: MaybeUninit < u8 > ,` under its comment.
pub open spec fn placeholder_field_tokens() -> Seq<Tok> {
    doc_attribute_tokens(placeholder_comment()) + word_tokens(Word::Placeholder) + punct_tokens(
        ':',
    ) + maybe_uninit_path_tokens() + punct_tokens('<') + word_tokens(Word::U8) + punct_tokens(
        '>',
    ) + punct_tokens(',')
}

/// The words of `words` as streams.
pub open spec fn words_tokens(words: Seq<Word>) -> Seq<Seq<Tok>> {
    Seq::new(words.len(), |i: int| word_tokens(words[i]))
}

/// `# [ derive ( A , B ) ]`, and nothing where nothing is derived.
pub open spec fn derive_attribute_tokens(derives: Seq<Word>) -> Seq<Tok> {
    if derives.len() == 0 {
        Seq::empty()
    } else {
        punct_tokens('#') + bracket_tokens(
            word_tokens(Word::Derive) + paren_tokens(
                separated_tokens(words_tokens(derives), punct_tokens(',')),
            ),
        )
    }
}

/// `# [ repr ( C ) ]`
pub open spec fn repr_c_tokens() -> Seq<Tok> {
    punct_tokens('#') + bracket_tokens(
        word_tokens(Word::Repr) + paren_tokens(word_tokens(Word::UpperC)),
    )
}

/// `impl ! Unpin for Ident { }` after two line breaks, for a record that
/// must not move; nothing for any other.
pub open spec fn unpin_impl_tokens(record: &Record, ident: Seq<Tok>) -> Seq<Tok> {
    if record.spec_is_unpin() {
        Seq::empty()
    } else {
        word_tokens(Word::Newline) + word_tokens(Word::Newline) + word_tokens(Word::Impl)
            + punct_tokens('!') + word_tokens(Word::Unpin) + word_tokens(Word::For) + ident
            + brace_tokens(Seq::empty())
    }
}

/// The type generated for `record`: its doc attribute, what it derives,
/// `# [ repr ( C ) ] pub struct Ident { fields }` with a one-byte placeholder
/// where the record has no field, and the negative `Unpin` impl where the
/// record must not move.
pub open spec fn struct_tokens(
    record: &Record,
    ident: Seq<Tok>,
    idents: Seq<Seq<Tok>>,
    types: Seq<Seq<Tok>>,
) -> Seq<Tok> {
    doc_comment_tokens(record.doc_comment) + derive_attribute_tokens(derives_of(record))
        + repr_c_tokens() + word_tokens(Word::Pub) + word_tokens(Word::Struct) + ident
        + brace_tokens(
        concat_tokens(field_decls(record.fields@, idents, types)) + (if record.fields@.len()
            == 0 {
            placeholder_field_tokens()
        } else {
            Seq::empty()
        }),
    ) + unpin_impl_tokens(record, ident)
}

/// `const _ : ( ) = assert ! ( condition ) ;`
pub open spec fn const_assert_tokens(condition: Seq<Tok>) -> Seq<Tok> {
    word_tokens(Word::Const) + word_tokens(Word::Underscore) + punct_tokens(':') + paren_tokens(
        Seq::empty(),
    ) + punct_tokens('=') + word_tokens(Word::Assert) + punct_tokens('!') + paren_tokens(
        condition,
    ) + punct_tokens(';')
}

/// `std :: mem :: query :: < Ident > ( )`
pub open spec fn mem_query_tokens(query: Word, ident: Seq<Tok>) -> Seq<Tok> {
    word_tokens(Word::Std) + path_sep_tokens() + word_tokens(Word::Mem) + path_sep_tokens()
        + word_tokens(query) + path_sep_tokens() + punct_tokens('<') + ident + punct_tokens('>')
        + paren_tokens(Seq::empty())
}

/// The assertion that the generated type has the size `size`:
/// `const _ : ( ) = assert ! ( std :: mem :: size_of :: < Ident > ( ) == size ) ;`
pub open spec fn size_assertion_tokens(ident: Seq<Tok>, size: usize) -> Seq<Tok> {
    const_assert_tokens(
        mem_query_tokens(Word::SizeOf, ident) + eq_eq_tokens() + int_tokens(size, true),
    )
}

/// The assertion that the generated type has the alignment `alignment`.
pub open spec fn align_assertion_tokens(ident: Seq<Tok>, alignment: usize) -> Seq<Tok> {
    const_assert_tokens(
        mem_query_tokens(Word::AlignOf, ident) + eq_eq_tokens() + int_tokens(alignment, true),
    )
}

/// The assertion that a field of the generated type stands `offset` bits
/// into it:
/// `const _ : ( ) = assert ! ( offset_of ! ( Ident , field ) * 8 == offset ) ;`
pub open spec fn offset_assertion_tokens(
    ident: Seq<Tok>,
    field_ident: Seq<Tok>,
    offset: usize,
) -> Seq<Tok> {
    const_assert_tokens(
        word_tokens(Word::OffsetOf) + punct_tokens('!') + paren_tokens(
            ident + punct_tokens(',') + field_ident,
        ) + punct_tokens('*') + int_tokens(8, false) + eq_eq_tokens() + int_tokens(offset, true),
    )
}

/// The offset assertions of `fields`, one for each, in order.
pub open spec fn offset_assertions(
    fields: Seq<Field>,
    ident: Seq<Tok>,
    idents: Seq<Seq<Tok>>,
) -> Seq<Seq<Tok>> {
    Seq::new(fields.len(), |i: int| offset_assertion_tokens(ident, idents[i], fields[i].offset))
}

/// The assertions on the layout of the type generated for `record`: its
/// size, its alignment, and the offset of each field.
pub open spec fn layout_assertion_tokens(
    record: &Record,
    ident: Seq<Tok>,
    idents: Seq<Seq<Tok>>,
) -> Seq<Tok> {
    size_assertion_tokens(ident, record.size) + align_assertion_tokens(ident, record.alignment)
        + concat_tokens(offset_assertions(record.fields@, ident, idents))
}

/// The features that the type generated for `record` needs: negative impls
/// where the record must not move.
pub open spec fn record_features(record: &Record) -> RustFeatures {
    RustFeatures {
        arbitrary_self_types: false,
        const_ptr_offset_from: false,
        custom_inner_attributes: false,
        negative_impls: !record.spec_is_unpin(),
    }
}

/// The features that layout assertions need.
pub open spec fn assertion_features() -> RustFeatures {
    RustFeatures {
        arbitrary_self_types: false,
        const_ptr_offset_from: true,
        custom_inner_attributes: false,
        negative_impls: false,
    }
}

/// The type generated for `record` and the assertions on its layout, or the
/// first error: of the record's name, of a field's name, of a field's type.
pub open spec fn record_binding(record: &Record, ir: &IR) -> Result<
    (SnippetModel, SnippetModel),
    ErrorModel,
> {
    match make_ident_tokens(record.identifier.identifier@) {
        Err(e) => Err(e),
        Ok(ident) => match field_idents(record.fields@, record.fields@.len()) {
            Err(e) => Err(e),
            Ok(idents) => match field_types(record, ir, record.fields@.len()) {
                Err(e) => Err(e),
                Ok(types) => Ok(
                    (
                        SnippetModel {
                            tokens: struct_tokens(record, ident, idents, types),
                            features: record_features(record),
                        },
                        SnippetModel {
                            tokens: layout_assertion_tokens(record, ident, idents),
                            features: assertion_features(),
                        },
                    ),
                ),
            },
        },
    }
}

/// `pub` for a public member, nothing for any other.
pub fn format_access(access: AccessSpecifier) -> (ts: TokenStream)
    ensures
        stream_of(ts) == access_tokens(access),
{
    match access {
        AccessSpecifier::Public => word(Word::Pub),
        _ => empty_stream(),
    }
}

/// The one-byte field of a type generated for a record without fields.
pub fn placeholder_field() -> (ts: TokenStream)
    ensures
        stream_of(ts) == placeholder_field_tokens(),
{
    let mut out = doc_attribute(" Prevent empty C++ struct being zero-size in Rust.");
    append(&mut out, word(Word::Placeholder));
    append(&mut out, punct(':'));
    append(&mut out, maybe_uninit_path());
    append(&mut out, punct('<'));
    append(&mut out, word(Word::U8));
    append(&mut out, punct('>'));
    append(&mut out, punct(','));
    out
}

/// `# [ derive ( A , B ) ]`, and nothing where nothing is derived.
pub fn derive_attribute(derives: &Vec<Word>) -> (ts: TokenStream)
    ensures
        stream_of(ts) == derive_attribute_tokens(derives@),
{
    if derives.len() == 0 {
        return empty_stream();
    }
    let mut names: Vec<TokenStream> = Vec::new();
    let mut i: usize = 0;
    assert(streams_of(names@) =~= words_tokens(derives@.take(0)));
    while i < derives.len()
        invariant
            i <= derives.len(),
            streams_of(names@) == words_tokens(derives@.take(i as int)),
        decreases derives.len() - i,
    {
        let ghost before = streams_of(names@);
        names.push(word(derives[i]));
        assert(streams_of(names@) =~= before.push(word_tokens(derives@[i as int])));
        assert(words_tokens(derives@.take(i as int + 1)) =~= words_tokens(
            derives@.take(i as int),
        ).push(word_tokens(derives@[i as int])));
        i += 1;
    }
    assert(derives@.take(derives.len() as int) =~= derives@);
    let mut inner = word(Word::Derive);
    append(&mut inner, paren(comma_separated(&names)));
    let mut out = punct('#');
    append(&mut out, bracket(inner));
    out
}

/// `# [ repr ( C ) ]`
pub fn repr_c() -> (ts: TokenStream)
    ensures
        stream_of(ts) == repr_c_tokens(),
{
    let mut inner = word(Word::Repr);
    append(&mut inner, paren(word(Word::UpperC)));
    let mut out = punct('#');
    append(&mut out, bracket(inner));
    out
}

/// `const _ : ( ) = assert ! ( condition ) ;`
pub fn const_assert(condition: TokenStream) -> (ts: TokenStream)
    ensures
        stream_of(ts) == const_assert_tokens(stream_of(condition)),
{
    let mut out = word(Word::Const);
    append(&mut out, word(Word::Underscore));
    append(&mut out, punct(':'));
    append(&mut out, paren(empty_stream()));
    append(&mut out, punct('='));
    append(&mut out, word(Word::Assert));
    append(&mut out, punct('!'));
    append(&mut out, paren(condition));
    append(&mut out, punct(';'));
    out
}

/// `std :: mem :: query :: < Ident > ( )`
pub fn mem_query(query: Word, ident: &TokenStream) -> (ts: TokenStream)
    ensures
        stream_of(ts) == mem_query_tokens(query, stream_of(*ident)),
{
    let mut out = word(Word::Std);
    append(&mut out, path_sep());
    append(&mut out, word(Word::Mem));
    append(&mut out, path_sep());
    append(&mut out, word(query));
    append(&mut out, path_sep());
    append(&mut out, punct('<'));
    append(&mut out, clone_stream(ident));
    append(&mut out, punct('>'));
    append(&mut out, paren(empty_stream()));
    out
}

/// The assertion that a field of the generated type stands `offset` bits
/// into it.
pub fn offset_assertion(ident: &TokenStream, field_ident: &TokenStream, offset: usize) -> (ts:
    TokenStream)
    ensures
        stream_of(ts) == offset_assertion_tokens(
            stream_of(*ident),
            stream_of(*field_ident),
            offset,
        ),
{
    let mut args = clone_stream(ident);
    append(&mut args, punct(','));
    append(&mut args, clone_stream(field_ident));
    let mut condition = word(Word::OffsetOf);
    append(&mut condition, punct('!'));
    append(&mut condition, paren(args));
    append(&mut condition, punct('*'));
    append(&mut condition, int_literal(8, false));
    append(&mut condition, eq_eq());
    append(&mut condition, int_literal(offset, true));
    const_assert(condition)
}

/// The type generated for `record` and the assertions on its layout.
///
/// The first snippet is the type, the second the assertions: one on the
/// size, one on the alignment, then one on the offset of each field, in the
/// order of the fields. Fails, with the first error, where the name of the
/// record or of a field is no identifier, or the type of a field cannot be
/// written.
pub fn generate_record(record: &Record, ir: &IR) -> (r: Result<(RsSnippet, RsSnippet), BindingError>)
    ensures
        match record_binding(record, ir) {
            Ok(binding) => r matches Ok(snippets) && snippets.0@ == binding.0 && snippets.1@
                == binding.1,
            Err(error) => r matches Err(e) && e@ == error,
        },
{
    let ident = match make_ident(record.identifier.identifier.as_str()) {
        Err(e) => {
            return Err(e);
        },
        Ok(ident) => ident,
    };
    let field_idents = match format_field_idents(record) {
        Err(e) => {
            return Err(e);
        },
        Ok(idents) => idents,
    };
    let field_types = match format_field_types(record, ir) {
        Err(e) => {
            return Err(e);
        },
        Ok(types) => types,
    };
    let ghost idents = streams_of(field_idents@);
    let ghost types = streams_of(field_types@);
    proof {
        lemma_field_idents_len(record.fields@, record.fields@.len());
        lemma_field_types_len(record, ir, record.fields@.len());
    }
    let n = record.fields.len();
    let mut decls = empty_stream();
    let mut asserts = empty_stream();
    let mut i: usize = 0;
    proof {
        assert(field_decls(record.fields@, idents, types).take(0) =~= Seq::<Seq<Tok>>::empty());
        assert(offset_assertions(record.fields@, stream_of(ident), idents).take(0) =~= Seq::<
            Seq<Tok>,
        >::empty());
    }
    while i < n
        invariant
            i <= n,
            n == record.fields@.len(),
            field_idents@.len() == n,
            field_types@.len() == n,
            idents == streams_of(field_idents@),
            types == streams_of(field_types@),
            stream_of(decls) == concat_tokens(
                field_decls(record.fields@, idents, types).take(i as int),
            ),
            stream_of(asserts) == concat_tokens(
                offset_assertions(record.fields@, stream_of(ident), idents).take(i as int),
            ),
        decreases n - i,
    {
        let field = &record.fields[i];
        proof {
            let all = field_decls(record.fields@, idents, types);
            assert(all.take(i as int + 1).drop_last() =~= all.take(i as int));
            let all_asserts = offset_assertions(record.fields@, stream_of(ident), idents);
            assert(all_asserts.take(i as int + 1).drop_last() =~= all_asserts.take(i as int));
        }
        let mut decl = generate_doc_comment(&field.doc_comment);
        append(&mut decl, format_access(field.access));
        append(&mut decl, clone_stream(&field_idents[i]));
        append(&mut decl, punct(':'));
        append(&mut decl, clone_stream(&field_types[i]));
        append(&mut decl, punct(','));
        append(&mut decls, decl);
        append(&mut asserts, offset_assertion(&ident, &field_idents[i], field.offset));
        i += 1;
    }
    proof {
        let all = field_decls(record.fields@, idents, types);
        assert(all.take(n as int) =~= all);
        let all_asserts = offset_assertions(record.fields@, stream_of(ident), idents);
        assert(all_asserts.take(n as int) =~= all_asserts);
    }
    let mut body = decls;
    if n == 0 {
        append(&mut body, placeholder_field());
    } else {
        append(&mut body, empty_stream());
    }
    let derives = generate_derives(record);
    let mut record_tokens = generate_doc_comment(&record.doc_comment);
    append(&mut record_tokens, derive_attribute(&derives));
    append(&mut record_tokens, repr_c());
    append(&mut record_tokens, word(Word::Pub));
    append(&mut record_tokens, word(Word::Struct));
    append(&mut record_tokens, clone_stream(&ident));
    append(&mut record_tokens, brace(body));
    let is_unpin = record.is_unpin();
    if is_unpin {
        append(&mut record_tokens, empty_stream());
    } else {
        let mut unpin_impl = word(Word::Newline);
        append(&mut unpin_impl, word(Word::Newline));
        append(&mut unpin_impl, word(Word::Impl));
        append(&mut unpin_impl, punct('!'));
        append(&mut unpin_impl, word(Word::Unpin));
        append(&mut unpin_impl, word(Word::For));
        append(&mut unpin_impl, clone_stream(&ident));
        append(&mut unpin_impl, brace(empty_stream()));
        append(&mut record_tokens, unpin_impl);
    }
    let mut size_condition = mem_query(Word::SizeOf, &ident);
    append(&mut size_condition, eq_eq());
    append(&mut size_condition, int_literal(record.size, true));
    let mut align_condition = mem_query(Word::AlignOf, &ident);
    append(&mut align_condition, eq_eq());
    append(&mut align_condition, int_literal(record.alignment, true));
    let mut assertion_tokens = const_assert(size_condition);
    append(&mut assertion_tokens, const_assert(align_condition));
    append(&mut assertion_tokens, asserts);
    Ok(
        (
            RsSnippet {
                tokens: record_tokens,
                features: RustFeatures {
                    arbitrary_self_types: false,
                    const_ptr_offset_from: false,
                    custom_inner_attributes: false,
                    negative_impls: !is_unpin,
                },
            },
            RsSnippet {
                tokens: assertion_tokens,
                features: RustFeatures {
                    arbitrary_self_types: false,
                    const_ptr_offset_from: true,
                    custom_inner_attributes: false,
                    negative_impls: false,
                },
            },
        ),
    )
}

/// The assertions generated for a record say what the unit reports of its
/// layout: one assertion gives its size, one its alignment, and then one for
/// each field, in order, gives the offset of that field.
pub proof fn lemma_layout_assertions(record: &Record, ir: &IR)
    requires
        record_binding(record, ir) is Ok,
    ensures
        ({
            let assertions = record_binding(record, ir)->Ok_0.1.tokens;
            let ident = ident_tokens(record.identifier.identifier@);
            let idents = field_idents(record.fields@, record.fields@.len())->Ok_0;
            let offsets = offset_assertions(record.fields@, ident, idents);
            &&& assertions == size_assertion_tokens(ident, record.size) + align_assertion_tokens(
                ident,
                record.alignment,
            ) + concat_tokens(offsets)
            &&& offsets.len() == record.fields@.len()
            &&& forall|i: int|
                0 <= i < record.fields@.len() ==> #[trigger] offsets[i] == offset_assertion_tokens(
                    ident,
                    ident_tokens(record.fields@[i].identifier.identifier@),
                    record.fields@[i].offset,
                )
        }),
{
    lemma_field_idents_each(record.fields@, record.fields@.len());
}

proof fn lemma_field_idents_each(fields: Seq<Field>, n: nat)
    requires
        n <= fields.len(),
    ensures
        field_idents(fields, n) matches Ok(idents) ==> idents.len() == n && forall|i: int|
            0 <= i < n ==> #[trigger] idents[i] == ident_tokens(fields[i].identifier.identifier@),
    decreases n,
{
    if n > 0 {
        lemma_field_idents_each(fields, (n - 1) as nat);
    }
}

proof fn lemma_field_idents_len(fields: Seq<Field>, n: nat)
    requires
        n <= fields.len(),
    ensures
        field_idents(fields, n) matches Ok(idents) ==> idents.len() == n,
    decreases n,
{
    if n > 0 {
        lemma_field_idents_len(fields, (n - 1) as nat);
    }
}

proof fn lemma_field_types_len(record: &Record, ir: &IR, n: nat)
    requires
        n <= record.fields@.len(),
    ensures
        field_types(record, ir, n) matches Ok(types) ==> types.len() == n,
    decreases n,
{
    if n > 0 {
        lemma_field_types_len(record, ir, (n - 1) as nat);
    }
}

} // verus!
