//! The type-kind resolver: from one type node of a unit to the type
//! representation that it stands for.

use crate::error::{BindingError, ErrorKind, ErrorModel};
use crate::ir::{Item, LifetimeName, Record, RsType, TemplateArg, TypeAlias, TypeMapOverride, IR};
use crate::rs_api::{
    cyclic_alias_error, find_lifetime, lifetime_name, missing_lifetime_error,
    missing_pointee_error, not_a_type_error, type_args_error, unknown_lifetime_error,
};
use crate::rs_snippet::{Lifetime, Mutability, PrimitiveType};
use crate::strings::str_eq;
use crate::type_kind::{
    crate_path_of, generic_of, make_crate_path, models_of, opt_models, slice_params_error,
    KindModel, RsTypeKind,
};
use vstd::prelude::*;

verus! {

/// The calling convention that the name of a function pointer type gives:
/// what follows `#funcPtr ` in it; `None` where the name does not start so.
pub open spec fn func_ptr_abi(name: Seq<char>) -> Option<Seq<char>> {
    let prefix = "#funcPtr "@;
    if name.len() >= prefix.len() && name.subrange(0, prefix.len() as int) == prefix {
        Some(name.subrange(prefix.len() as int, name.len() as int))
    } else {
        None
    }
}

/// The error for an optional type without exactly one type argument.
pub open spec fn option_args_error() -> ErrorModel {
    ErrorModel::root(
        ErrorKind::MissingTypeArgument,
        "Option should have exactly 1 type argument"@,
    )
}

/// The error for a function pointer without a return type.
pub open spec fn func_ptr_args_error() -> ErrorModel {
    ErrorModel::root(
        ErrorKind::MissingTypeArgument,
        "Function pointers include at least the return type"@,
    )
}

/// The error for a function pointer without a calling convention.
pub open spec fn func_ptr_abi_error() -> ErrorModel {
    ErrorModel::root(ErrorKind::Unsupported, "Function pointers need a calling convention"@)
}

/// The lifetime that the one lifetime argument of the reference `ty` names.
pub open spec fn reference_lifetime(ty: &RsType, lifetimes: Seq<LifetimeName>) -> Result<
    Seq<char>,
    ErrorModel,
> {
    if ty.lifetime_args@.len() != 1 {
        Err(missing_lifetime_error())
    } else {
        match lifetime_name(lifetimes, ty.lifetime_args@[0], lifetimes.len() as int) {
            Some(name) => Ok(name),
            None => Err(unknown_lifetime_error()),
        }
    }
}

/// What the first `n` of `args` stand for, or the first error among them.
pub open spec fn resolve_kind_args(
    args: Seq<RsType>,
    ir: &IR,
    lifetimes: Seq<LifetimeName>,
    fuel: nat,
    n: nat,
) -> Result<Seq<KindModel>, ErrorModel>
    decreases fuel, 0nat, args, n,
{
    if n == 0 || n > args.len() {
        Ok(Seq::empty())
    } else {
        match resolve_kind_args(args, ir, lifetimes, fuel, (n - 1) as nat) {
            Err(e) => Err(e),
            Ok(kinds) => match resolve_kind(&args[n - 1], ir, lifetimes, fuel) {
                Err(e) => Err(e),
                Ok(kind) => Ok(kinds.push(kind)),
            },
        }
    }
}

/// What each of the first `n` template arguments stands for; `None` for an
/// argument that is no type or stands for none.
pub open spec fn resolve_template_args(
    args: Seq<TemplateArg>,
    ir: &IR,
    lifetimes: Seq<LifetimeName>,
    fuel: nat,
    n: nat,
) -> Seq<Option<KindModel>>
    decreases fuel, 1nat, args, n,
{
    if n == 0 || n > args.len() {
        Seq::empty()
    } else {
        resolve_template_args(args, ir, lifetimes, fuel, (n - 1) as nat).push(
            match args[n - 1].type_ {
                Ok(mapped) => match resolve_kind(&mapped.rs_type, ir, lifetimes, fuel) {
                    Ok(kind) => Some(kind),
                    Err(_) => None,
                },
                Err(_) => None,
            },
        )
    }
}

/// What the one type argument of `ty` stands for.
pub open spec fn resolve_one_arg(
    ty: &RsType,
    ir: &IR,
    lifetimes: Seq<LifetimeName>,
    fuel: nat,
    error: ErrorModel,
) -> Result<KindModel, ErrorModel>
    decreases fuel, 0nat, ty, 0nat,
{
    if ty.type_args@.len() != 1 {
        Err(error)
    } else {
        resolve_kind(&ty.type_args@[0], ir, lifetimes, fuel)
    }
}

/// What the record `record` stands for: the type written by hand that
/// stands for it where it names one, else the record at its path, as a
/// generic type where it is a known instantiation of a template.
pub open spec fn resolve_record(
    record: &Record,
    ir: &IR,
    lifetimes: Seq<LifetimeName>,
    fuel: nat,
) -> Result<KindModel, ErrorModel>
    decreases fuel, 2nat, record, 0nat,
{
    match record.bridge_type_info {
        Some(info) => Ok(
            KindModel::BridgeType {
                name: info.bridge_type@,
                cpp_to_rust_converter: info.cpp_to_rust_converter@,
                rust_to_cpp_converter: info.rust_to_cpp_converter@,
                original_type: *record,
            },
        ),
        None => match crate_path_of(ir, &record.owning_target, record.enclosing_namespace_id) {
            Err(e) => Err(e),
            Ok(crate_path) => Ok(
                KindModel::Record {
                    record: *record,
                    crate_path,
                    generic: match record.template_specialization {
                        Some(specialization) => if fuel == 0 {
                            None
                        } else {
                            generic_of(
                                record.template_specialization,
                                resolve_template_args(
                                    specialization.template_args@,
                                    ir,
                                    lifetimes,
                                    (fuel - 1) as nat,
                                    specialization.template_args@.len(),
                                ),
                            )
                        },
                        None => None,
                    },
                },
            ),
        },
    }
}

/// What the type that is spelled by a fixed name stands for.
pub open spec fn resolve_override(
    type_map_override: &TypeMapOverride,
    ir: &IR,
    lifetimes: Seq<LifetimeName>,
    fuel: nat,
) -> Result<KindModel, ErrorModel>
    decreases fuel, 2nat, type_map_override, 0nat,
{
    if type_map_override.rs_name@ != "&[]"@ {
        Ok(
            KindModel::Other {
                name: type_map_override.rs_name@,
                type_args: Seq::empty(),
                is_same_abi: type_map_override.is_same_abi,
            },
        )
    } else if type_map_override.type_parameters@.len() != 1 {
        Err(slice_params_error(type_map_override.type_parameters@.len()))
    } else if fuel == 0 {
        Err(cyclic_alias_error())
    } else {
        match resolve_kind(
            &type_map_override.type_parameters@[0].rs_type,
            ir,
            lifetimes,
            (fuel - 1) as nat,
        ) {
            Err(e) => Err(e),
            Ok(element) => Ok(
                KindModel::Pointer {
                    pointee: Box::new(KindModel::Slice(Box::new(element))),
                    mutability: if type_map_override.type_parameters@[0].cc_type.is_const {
                        Mutability::Const
                    } else {
                        Mutability::Mut
                    },
                },
            ),
        }
    }
}

/// What the declaration `item` stands for as a type.
pub open spec fn resolve_item(
    item: Item,
    ir: &IR,
    lifetimes: Seq<LifetimeName>,
    fuel: nat,
) -> Result<KindModel, ErrorModel>
    decreases fuel, 3nat, item, 0nat,
{
    match item {
        Item::Record(record) => resolve_record(&record, ir, lifetimes, fuel),
        Item::IncompleteRecord(incomplete_record) => match crate_path_of(
            ir,
            &incomplete_record.owning_target,
            incomplete_record.enclosing_namespace_id,
        ) {
            Err(e) => Err(e),
            Ok(crate_path) => Ok(KindModel::IncompleteRecord { incomplete_record, crate_path }),
        },
        Item::Enum(enum_) => match crate_path_of(
            ir,
            &enum_.owning_target,
            enum_.enclosing_namespace_id,
        ) {
            Err(e) => Err(e),
            Ok(crate_path) => Ok(KindModel::Enum { enum_, crate_path }),
        },
        Item::TypeAlias(type_alias) => if fuel == 0 {
            Err(cyclic_alias_error())
        } else {
            match resolve_kind(
                &type_alias.underlying_type.rs_type,
                ir,
                lifetimes,
                (fuel - 1) as nat,
            ) {
                Err(e) => Err(e),
                Ok(underlying_type) => match crate_path_of(
                    ir,
                    &type_alias.owning_target,
                    type_alias.enclosing_namespace_id,
                ) {
                    Err(e) => Err(e),
                    Ok(crate_path) => Ok(
                        KindModel::TypeAlias {
                            type_alias,
                            underlying_type: Box::new(underlying_type),
                            crate_path,
                        },
                    ),
                },
            }
        },
        Item::TypeMapOverride(type_map_override) => resolve_override(
            &type_map_override,
            ir,
            lifetimes,
            fuel,
        ),
        _ => Err(not_a_type_error()),
    }
}

/// What the named type node `ty`, whose type arguments stand for `args`,
/// stands for where it is neither pointer, reference nor optional value: a
/// function pointer, a scalar, or a type known by its name alone.
pub open spec fn resolve_named(name: Seq<char>, args: Seq<KindModel>) -> Result<
    KindModel,
    ErrorModel,
> {
    match func_ptr_abi(name) {
        Some(abi) => if args.len() == 0 {
            Err(func_ptr_args_error())
        } else if abi.len() == 0 {
            Err(func_ptr_abi_error())
        } else {
            Ok(
                KindModel::FuncPtr {
                    abi,
                    return_type: Box::new(args.last()),
                    param_types: args.drop_last(),
                },
            )
        },
        None => match PrimitiveType::spec_from_str(name) {
            Some(primitive) => Ok(KindModel::Primitive(primitive)),
            None => Ok(KindModel::Other { name, type_args: args, is_same_abi: true }),
        },
    }
}

/// What the type node `ty` stands for in the unit `ir`, where the lifetimes
/// in scope are `lifetimes`, following at most `fuel` declarations one into
/// the other.
///
/// A node without a name refers to a declaration and must have no type
/// arguments: a record stands for itself, complete or incomplete, or for
/// the generic type or the type written by hand that is known for it; an
/// enumeration for itself; a type alias for itself, with its underlying
/// type resolved in turn; a type with a fixed spelling for that spelling.
/// A node with a name is a pointer or an optional value of its one type
/// argument, a reference or rvalue reference with its one lifetime, a
/// function pointer of the calling convention in its name, whose last type
/// argument is the return type, a scalar, or else a type known by its name
/// alone with its type arguments.
pub open spec fn resolve_kind(ty: &RsType, ir: &IR, lifetimes: Seq<LifetimeName>, fuel: nat) -> Result<
    KindModel,
    ErrorModel,
>
    decreases fuel, 0nat, ty, 1nat,
{
    match ty.name {
        None => {
            if ty.type_args@.len() != 0 {
                Err(type_args_error())
            } else {
                match ir.spec_item_for_type(ty.decl_id) {
                    Err(e) => Err(e),
                    Ok(item) => if fuel == 0 {
                        Err(cyclic_alias_error())
                    } else {
                        resolve_item(item, ir, lifetimes, (fuel - 1) as nat)
                    },
                }
            }
        },
        Some(name) => {
            if name@ == "*mut"@ || name@ == "*const"@ {
                match resolve_one_arg(ty, ir, lifetimes, fuel, missing_pointee_error()) {
                    Err(e) => Err(e),
                    Ok(pointee) => Ok(
                        KindModel::Pointer {
                            pointee: Box::new(pointee),
                            mutability: if name@ == "*mut"@ {
                                Mutability::Mut
                            } else {
                                Mutability::Const
                            },
                        },
                    ),
                }
            } else if name@ == "&mut"@ || name@ == "&"@ {
                match resolve_one_arg(ty, ir, lifetimes, fuel, missing_pointee_error()) {
                    Err(e) => Err(e),
                    Ok(referent) => match reference_lifetime(ty, lifetimes) {
                        Err(e) => Err(e),
                        Ok(lifetime) => Ok(
                            KindModel::Reference {
                                referent: Box::new(referent),
                                mutability: if name@ == "&mut"@ {
                                    Mutability::Mut
                                } else {
                                    Mutability::Const
                                },
                                lifetime,
                            },
                        ),
                    },
                }
            } else if name@ == "#RvalueReference mut"@ || name@ == "#RvalueReference const"@ {
                match resolve_one_arg(ty, ir, lifetimes, fuel, missing_pointee_error()) {
                    Err(e) => Err(e),
                    Ok(referent) => match reference_lifetime(ty, lifetimes) {
                        Err(e) => Err(e),
                        Ok(lifetime) => Ok(
                            KindModel::RvalueReference {
                                referent: Box::new(referent),
                                mutability: if name@ == "#RvalueReference mut"@ {
                                    Mutability::Mut
                                } else {
                                    Mutability::Const
                                },
                                lifetime,
                            },
                        ),
                    },
                }
            } else if name@ == "Option"@ {
                match resolve_one_arg(ty, ir, lifetimes, fuel, option_args_error()) {
                    Err(e) => Err(e),
                    Ok(inner) => Ok(KindModel::Optional(Box::new(inner))),
                }
            } else {
                match resolve_kind_args(ty.type_args@, ir, lifetimes, fuel, ty.type_args@.len()) {
                    Err(e) => Err(e),
                    Ok(args) => resolve_named(name@, args),
                }
            }
        },
    }
}

/// Whether `r` is the kind or the error that `expected` describes.
pub open spec fn kind_is(
    r: Result<RsTypeKind, BindingError>,
    expected: Result<KindModel, ErrorModel>,
) -> bool {
    match expected {
        Ok(kind) => r matches Ok(k) && k@ == kind,
        Err(error) => r matches Err(e) && e@ == error,
    }
}

proof fn lemma_resolve_kind_args_error(
    args: Seq<RsType>,
    ir: &IR,
    lifetimes: Seq<LifetimeName>,
    fuel: nat,
    n: nat,
    m: nat,
)
    requires
        n <= m <= args.len(),
        resolve_kind_args(args, ir, lifetimes, fuel, n) is Err,
    ensures
        resolve_kind_args(args, ir, lifetimes, fuel, m) == resolve_kind_args(
            args,
            ir,
            lifetimes,
            fuel,
            n,
        ),
    decreases m,
{
    if n < m {
        lemma_resolve_kind_args_error(args, ir, lifetimes, fuel, n, (m - 1) as nat);
    }
}

fn resolve_type_args<'ir>(
    ty: &'ir RsType,
    ir: &'ir IR,
    lifetimes: &Vec<LifetimeName>,
    fuel: usize,
) -> (r: Result<Vec<RsTypeKind<'ir>>, BindingError>)
    ensures
        match resolve_kind_args(
            ty.type_args@,
            ir,
            lifetimes@,
            fuel as nat,
            ty.type_args@.len(),
        ) {
            Ok(kinds) => r matches Ok(v) && models_of(v@) == kinds,
            Err(error) => r matches Err(e) && e@ == error,
        },
    decreases fuel, 0nat, ty, 0nat,
{
    let mut kinds: Vec<RsTypeKind<'ir>> = Vec::new();
    let mut i: usize = 0;
    assert(models_of(kinds@) =~= Seq::empty());
    while i < ty.type_args.len()
        invariant
            i <= ty.type_args.len(),
            resolve_kind_args(ty.type_args@, ir, lifetimes@, fuel as nat, i as nat) == Ok::<
                Seq<KindModel>,
                ErrorModel,
            >(models_of(kinds@)),
        decreases ty.type_args.len() - i,
    {
        proof {
            assert(decreases_to!(ty => ty.type_args));
            assert(decreases_to!(ty.type_args => ty.type_args@));
            assert(decreases_to!(ty.type_args@ => ty.type_args@[i as int]));
        }
        match resolve_with_fuel(&ty.type_args[i], ir, lifetimes, fuel) {
            Err(e) => {
                proof {
                    lemma_resolve_kind_args_error(
                        ty.type_args@,
                        ir,
                        lifetimes@,
                        fuel as nat,
                        i as nat + 1,
                        ty.type_args@.len(),
                    );
                }
                return Err(e);
            },
            Ok(kind) => {
                let ghost before = models_of(kinds@);
                kinds.push(kind);
                assert(models_of(kinds@) =~= before.push(kind@));
            },
        }
        i += 1;
    }
    Ok(kinds)
}

fn resolve_one<'ir>(
    ty: &'ir RsType,
    ir: &'ir IR,
    lifetimes: &Vec<LifetimeName>,
    fuel: usize,
    kind: ErrorKind,
    message: &str,
) -> (r: Result<RsTypeKind<'ir>, BindingError>)
    ensures
        kind_is(
            r,
            resolve_one_arg(ty, ir, lifetimes@, fuel as nat, ErrorModel::root(kind, message@)),
        ),
    decreases fuel, 0nat, ty, 0nat,
{
    if ty.type_args.len() != 1 {
        return Err(BindingError::from_str(kind, message));
    }
    proof {
        assert(decreases_to!(ty => ty.type_args));
        assert(decreases_to!(ty.type_args => ty.type_args@));
        assert(decreases_to!(ty.type_args@ => ty.type_args@[0]));
    }
    resolve_with_fuel(&ty.type_args[0], ir, lifetimes, fuel)
}

fn resolve_reference_lifetime(ty: &RsType, lifetimes: &Vec<LifetimeName>) -> (r: Result<
    Lifetime,
    BindingError,
>)
    ensures
        match reference_lifetime(ty, lifetimes@) {
            Ok(name) => r matches Ok(lifetime) && lifetime@ == name,
            Err(error) => r matches Err(e) && e@ == error,
        },
{
    if ty.lifetime_args.len() != 1 {
        return Err(
            BindingError::from_str(
                ErrorKind::MissingLifetime,
                "Missing reference lifetime (need exactly 1 lifetime argument)",
            ),
        );
    }
    match find_lifetime(ty.lifetime_args[0], lifetimes) {
        Some(name) => Ok(Lifetime::new(name)),
        None => Err(
            BindingError::from_str(
                ErrorKind::UnknownLifetime,
                "`lifetime_to_name` doesn't have an entry for a lifetime of a reference",
            ),
        ),
    }
}

fn resolve_template<'ir>(
    args: &'ir Vec<TemplateArg>,
    ir: &'ir IR,
    lifetimes: &Vec<LifetimeName>,
    fuel: usize,
) -> (r: Vec<Option<RsTypeKind<'ir>>>)
    ensures
        opt_models(r@) == resolve_template_args(args@, ir, lifetimes@, fuel as nat, args@.len()),
    decreases fuel, 1nat, args, 0nat,
{
    let mut resolved: Vec<Option<RsTypeKind<'ir>>> = Vec::new();
    let mut i: usize = 0;
    assert(opt_models(resolved@) =~= Seq::empty());
    while i < args.len()
        invariant
            i <= args.len(),
            opt_models(resolved@) == resolve_template_args(
                args@,
                ir,
                lifetimes@,
                fuel as nat,
                i as nat,
            ),
        decreases args.len() - i,
    {
        let ghost before = opt_models(resolved@);
        let next = match &args[i].type_ {
            Ok(mapped) => match resolve_with_fuel(&mapped.rs_type, ir, lifetimes, fuel) {
                Ok(kind) => Some(kind),
                Err(_) => None,
            },
            Err(_) => None,
        };
        resolved.push(next);
        assert(opt_models(resolved@) =~= before.push(
            match next {
                Some(kind) => Some(kind@),
                None => None,
            },
        ));
        i += 1;
    }
    resolved
}

fn resolve_record_kind<'ir>(
    record: &'ir Record,
    ir: &'ir IR,
    lifetimes: &Vec<LifetimeName>,
    fuel: usize,
) -> (r: Result<RsTypeKind<'ir>, BindingError>)
    ensures
        kind_is(r, resolve_record(record, ir, lifetimes@, fuel as nat)),
    decreases fuel, 2nat, record, 0nat,
{
    if record.bridge_type_info.is_some() {
        return RsTypeKind::new_bridge_type(record);
    }
    let resolved_args: Vec<Option<RsTypeKind<'ir>>> = match &record.template_specialization {
        Some(specialization) => {
            if fuel == 0 {
                let none: Vec<Option<RsTypeKind<'ir>>> = Vec::new();
                none
            } else {
                resolve_template(&specialization.template_args, ir, lifetimes, fuel - 1)
            }
        },
        None => Vec::new(),
    };
    proof {
        if record.template_specialization is Some && fuel == 0 {
            assert(opt_models(resolved_args@).len() == 0);
            assert(generic_of(record.template_specialization, opt_models(resolved_args@))
                is None);
        }
    }
    RsTypeKind::new_record(record, ir, resolved_args)
}

fn resolve_override_kind<'ir>(
    type_map_override: &'ir TypeMapOverride,
    ir: &'ir IR,
    lifetimes: &Vec<LifetimeName>,
    fuel: usize,
) -> (r: Result<RsTypeKind<'ir>, BindingError>)
    ensures
        kind_is(r, resolve_override(type_map_override, ir, lifetimes@, fuel as nat)),
    decreases fuel, 2nat, type_map_override, 0nat,
{
    let slice_element = if str_eq(type_map_override.rs_name.as_str(), "&[]")
        && type_map_override.type_parameters.len() == 1 {
        if fuel == 0 {
            return Err(
                BindingError::from_str(ErrorKind::CyclicAlias, "Type alias refers to itself"),
            );
        }
        resolve_with_fuel(&type_map_override.type_parameters[0].rs_type, ir, lifetimes, fuel - 1)
    } else {
        Ok(RsTypeKind::Primitive(PrimitiveType::Unit))
    };
    RsTypeKind::new_type_map_override(type_map_override, slice_element)
}

fn resolve_item_kind<'ir>(
    item: &'ir Item,
    ir: &'ir IR,
    lifetimes: &Vec<LifetimeName>,
    fuel: usize,
) -> (r: Result<RsTypeKind<'ir>, BindingError>)
    ensures
        kind_is(r, resolve_item(*item, ir, lifetimes@, fuel as nat)),
    decreases fuel, 3nat, item, 0nat,
{
    match item {
        Item::Record(record) => resolve_record_kind(record, ir, lifetimes, fuel),
        Item::IncompleteRecord(incomplete_record) => {
            match make_crate_path(
                ir,
                &incomplete_record.owning_target,
                incomplete_record.enclosing_namespace_id,
            ) {
                Err(e) => Err(e),
                Ok(crate_path) => Ok(RsTypeKind::IncompleteRecord { incomplete_record, crate_path }),
            }
        },
        Item::Enum(enum_) => RsTypeKind::new_enum(enum_, ir),
        Item::TypeAlias(type_alias) => {
            if fuel == 0 {
                return Err(
                    BindingError::from_str(ErrorKind::CyclicAlias, "Type alias refers to itself"),
                );
            }
            match resolve_with_fuel(&type_alias.underlying_type.rs_type, ir, lifetimes, fuel - 1) {
                Err(e) => Err(e),
                Ok(underlying_type) => match make_crate_path(
                    ir,
                    &type_alias.owning_target,
                    type_alias.enclosing_namespace_id,
                ) {
                    Err(e) => Err(e),
                    Ok(crate_path) => Ok(
                        RsTypeKind::TypeAlias {
                            type_alias,
                            underlying_type: Box::new(underlying_type),
                            crate_path,
                        },
                    ),
                },
            }
        },
        Item::TypeMapOverride(type_map_override) => resolve_override_kind(
            type_map_override,
            ir,
            lifetimes,
            fuel,
        ),
        _ => Err(BindingError::from_str(ErrorKind::NotAType, "Item does not define a type")),
    }
}

fn resolve_named_kind<'ir>(name: &str, args: Vec<RsTypeKind<'ir>>) -> (r: Result<
    RsTypeKind<'ir>,
    BindingError,
>)
    ensures
        kind_is(r, resolve_named(name@, models_of(args@))),
{
    let n = name.unicode_len();
    proof {
        reveal_strlit("#funcPtr ");
    }
    let is_func_ptr = n >= 9 && str_eq(name.substring_char(0, 9), "#funcPtr ");
    if is_func_ptr {
        if args.len() == 0 {
            return Err(
                BindingError::from_str(
                    ErrorKind::MissingTypeArgument,
                    "Function pointers include at least the return type",
                ),
            );
        }
        if n == 9 {
            return Err(
                BindingError::from_str(
                    ErrorKind::Unsupported,
                    "Function pointers need a calling convention",
                ),
            );
        }
        let ghost models = models_of(args@);
        let mut param_types = args;
        let return_type = match param_types.pop() {
            Some(return_type) => return_type,
            None => RsTypeKind::Primitive(PrimitiveType::Unit),
        };
        let kind = RsTypeKind::FuncPtr {
            abi: String::from_str(name.substring_char(9, n)),
            return_type: Box::new(return_type),
            param_types,
        };
        proof {
            assert(models_of(param_types@) =~= models.drop_last());
            assert(kind@->FuncPtr_param_types =~= models.drop_last());
        }
        Ok(kind)
    } else {
        match PrimitiveType::from_str(name) {
            Some(primitive) => Ok(RsTypeKind::Primitive(primitive)),
            None => {
                let kind = RsTypeKind::Other {
                    name: String::from_str(name),
                    type_args: args,
                    is_same_abi: true,
                };
                assert(kind@->Other_type_args =~= models_of(args@));
                Ok(kind)
            },
        }
    }
}

fn resolve_with_fuel<'ir>(
    ty: &'ir RsType,
    ir: &'ir IR,
    lifetimes: &Vec<LifetimeName>,
    fuel: usize,
) -> (r: Result<RsTypeKind<'ir>, BindingError>)
    ensures
        kind_is(r, resolve_kind(ty, ir, lifetimes@, fuel as nat)),
    decreases fuel, 0nat, ty, 1nat,
{
    match &ty.name {
        None => {
            if ty.type_args.len() != 0 {
                return Err(
                    BindingError::from_str(
                        ErrorKind::UnsupportedTypeArguments,
                        "Type arguments on records nor type aliases are not yet supported",
                    ),
                );
            }
            match ir.item_for_type(ty.decl_id) {
                Err(e) => Err(e),
                Ok(item) => {
                    if fuel == 0 {
                        return Err(
                            BindingError::from_str(
                                ErrorKind::CyclicAlias,
                                "Type alias refers to itself",
                            ),
                        );
                    }
                    resolve_item_kind(item, ir, lifetimes, fuel - 1)
                },
            }
        },
        Some(name) => {
            let name = name.as_str();
            let is_mut_ptr = str_eq(name, "*mut");
            let is_mut_ref = str_eq(name, "&mut");
            let is_mut_rvalue = str_eq(name, "#RvalueReference mut");
            if is_mut_ptr || str_eq(name, "*const") {
                match resolve_one(
                    ty,
                    ir,
                    lifetimes,
                    fuel,
                    ErrorKind::MissingTypeArgument,
                    "Missing pointee/referent type (need exactly 1 type argument)",
                ) {
                    Err(e) => Err(e),
                    Ok(pointee) => Ok(
                        RsTypeKind::Pointer {
                            pointee: Box::new(pointee),
                            mutability: if is_mut_ptr {
                                Mutability::Mut
                            } else {
                                Mutability::Const
                            },
                        },
                    ),
                }
            } else if is_mut_ref || str_eq(name, "&") {
                match resolve_one(
                    ty,
                    ir,
                    lifetimes,
                    fuel,
                    ErrorKind::MissingTypeArgument,
                    "Missing pointee/referent type (need exactly 1 type argument)",
                ) {
                    Err(e) => Err(e),
                    Ok(referent) => match resolve_reference_lifetime(ty, lifetimes) {
                        Err(e) => Err(e),
                        Ok(lifetime) => Ok(
                            RsTypeKind::Reference {
                                referent: Box::new(referent),
                                mutability: if is_mut_ref {
                                    Mutability::Mut
                                } else {
                                    Mutability::Const
                                },
                                lifetime,
                            },
                        ),
                    },
                }
            } else if is_mut_rvalue || str_eq(name, "#RvalueReference const") {
                match resolve_one(
                    ty,
                    ir,
                    lifetimes,
                    fuel,
                    ErrorKind::MissingTypeArgument,
                    "Missing pointee/referent type (need exactly 1 type argument)",
                ) {
                    Err(e) => Err(e),
                    Ok(referent) => match resolve_reference_lifetime(ty, lifetimes) {
                        Err(e) => Err(e),
                        Ok(lifetime) => Ok(
                            RsTypeKind::RvalueReference {
                                referent: Box::new(referent),
                                mutability: if is_mut_rvalue {
                                    Mutability::Mut
                                } else {
                                    Mutability::Const
                                },
                                lifetime,
                            },
                        ),
                    },
                }
            } else if str_eq(name, "Option") {
                match resolve_one(
                    ty,
                    ir,
                    lifetimes,
                    fuel,
                    ErrorKind::MissingTypeArgument,
                    "Option should have exactly 1 type argument",
                ) {
                    Err(e) => Err(e),
                    Ok(inner) => Ok(RsTypeKind::Optional(Box::new(inner))),
                }
            } else {
                match resolve_type_args(ty, ir, lifetimes, fuel) {
                    Err(e) => Err(e),
                    Ok(args) => resolve_named_kind(name, args),
                }
            }
        },
    }
}

impl<'ir> RsTypeKind<'ir> {
    /// What the type node `ty` stands for in the unit `ir`, where the
    /// lifetimes in scope are `lifetimes`.
    ///
    /// Succeeds where `resolve_kind` does, with that kind, and fails with
    /// its error otherwise; declarations may lead one into the other as
    /// often as the unit has declarations.
    pub fn new(ty: &'ir RsType, ir: &'ir IR, lifetimes: &Vec<LifetimeName>) -> (r: Result<
        RsTypeKind<'ir>,
        BindingError,
    >)
        ensures
            kind_is(r, resolve_kind(ty, ir, lifetimes@, ir.items@.len())),
    {
        resolve_with_fuel(ty, ir, lifetimes, ir.items.len())
    }
}

} // verus!
