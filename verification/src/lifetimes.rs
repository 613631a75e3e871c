//! The rule on elided lifetimes: the elided lifetime may stand in the return
//! type of a function only where the parameters give it exactly one named
//! lifetime to borrow from.

use crate::error::{BindingError, ErrorKind, ErrorModel};
use crate::ir::{Func, FuncParam, LifetimeId, LifetimeName, RsType};
use crate::rs_api::{find_lifetime, lifetime_name};
use crate::strings::str_eq;
use vstd::prelude::*;

verus! {

/// The lifetimes in the first `n` of `args`, each in depth-first order.
pub open spec fn args_lifetimes(args: Seq<RsType>, n: nat) -> Seq<LifetimeId>
    decreases args, n,
{
    if n == 0 || n > args.len() {
        Seq::empty()
    } else {
        args_lifetimes(args, (n - 1) as nat) + type_lifetimes(&args[n - 1])
    }
}

/// The lifetimes in the type node `ty`: its own, then those of its type
/// arguments, in order.
pub open spec fn type_lifetimes(ty: &RsType) -> Seq<LifetimeId>
    decreases ty, 0nat,
{
    ty.lifetime_args@ + args_lifetimes(ty.type_args@, ty.type_args@.len())
}

/// The lifetimes in the types of the first `n` of `params`.
pub open spec fn params_lifetimes(params: Seq<FuncParam>, n: nat) -> Seq<LifetimeId>
    decreases n,
{
    if n == 0 || n > params.len() {
        Seq::empty()
    } else {
        params_lifetimes(params, (n - 1) as nat) + type_lifetimes(&params[n - 1].type_.rs_type)
    }
}

/// The name of the lifetime `id`.
pub open spec fn name_of(lifetimes: Seq<LifetimeName>, id: LifetimeId) -> Option<Seq<char>> {
    lifetime_name(lifetimes, id, lifetimes.len() as int)
}

/// Whether `id` is the elided lifetime.
pub open spec fn is_elided(lifetimes: Seq<LifetimeName>, id: LifetimeId) -> bool {
    name_of(lifetimes, id) == Some("_"@)
}

/// Whether `id` is a lifetime with a name of its own.
pub open spec fn is_named(lifetimes: Seq<LifetimeName>, id: LifetimeId) -> bool {
    name_of(lifetimes, id) matches Some(name) && name != "_"@
}

/// Whether one of `ids` is the elided lifetime.
pub open spec fn has_elided(ids: Seq<LifetimeId>, lifetimes: Seq<LifetimeName>) -> bool {
    exists|i: int| 0 <= i < ids.len() && is_elided(lifetimes, #[trigger] ids[i])
}

/// Whether the named lifetimes among `ids` are one and the same: there is
/// one, and every other has its name.
pub open spec fn one_named(ids: Seq<LifetimeId>, lifetimes: Seq<LifetimeName>) -> bool {
    exists|k: int|
        0 <= k < ids.len() && is_named(lifetimes, #[trigger] ids[k]) && forall|j: int|
            0 <= j < ids.len() && is_named(lifetimes, #[trigger] ids[j]) ==> name_of(
                lifetimes,
                ids[j],
            ) == name_of(lifetimes, ids[k])
}

/// Whether `func` keeps the rule on elided lifetimes: where its return type
/// holds the elided lifetime, its parameters hold exactly one named
/// lifetime.
pub open spec fn elision_is_valid(func: &Func) -> bool {
    has_elided(type_lifetimes(&func.return_type.rs_type), func.lifetime_params@) ==> one_named(
        params_lifetimes(func.params@, func.params@.len()),
        func.lifetime_params@,
    )
}

/// The error for a function that breaks the rule on elided lifetimes.
pub open spec fn elision_error() -> ErrorModel {
    ErrorModel::root(
        ErrorKind::MissingLifetime,
        "The elided lifetime in the return type needs exactly one named lifetime among the parameters"@,
    )
}

/// Adds the lifetimes in `ty` to `out`.
pub fn collect_lifetimes(ty: &RsType, out: &mut Vec<LifetimeId>)
    ensures
        final(out)@ == old(out)@ + type_lifetimes(ty),
    decreases ty,
{
    let ghost start = out@;
    let mut i: usize = 0;
    while i < ty.lifetime_args.len()
        invariant
            i <= ty.lifetime_args.len(),
            out@ == start + ty.lifetime_args@.take(i as int),
        decreases ty.lifetime_args.len() - i,
    {
        out.push(ty.lifetime_args[i]);
        assert(ty.lifetime_args@.take(i as int + 1) =~= ty.lifetime_args@.take(i as int).push(
            ty.lifetime_args@[i as int],
        ));
        i += 1;
    }
    assert(ty.lifetime_args@.take(ty.lifetime_args.len() as int) =~= ty.lifetime_args@);
    let mut j: usize = 0;
    assert(out@ =~= start + ty.lifetime_args@ + args_lifetimes(ty.type_args@, 0));
    while j < ty.type_args.len()
        invariant
            j <= ty.type_args.len(),
            out@ == start + ty.lifetime_args@ + args_lifetimes(ty.type_args@, j as nat),
        decreases ty.type_args.len() - j,
    {
        proof {
            assert(decreases_to!(ty => ty.type_args));
            assert(decreases_to!(ty.type_args => ty.type_args@));
            assert(decreases_to!(ty.type_args@ => ty.type_args@[j as int]));
        }
        let ghost before = out@;
        collect_lifetimes(&ty.type_args[j], out);
        assert(out@ =~= start + ty.lifetime_args@ + args_lifetimes(ty.type_args@, j as nat + 1));
        j += 1;
    }
    assert(out@ =~= start + type_lifetimes(ty));
}

/// The lifetimes in the types of the parameters of `func`, in order.
pub fn param_lifetimes(func: &Func) -> (ids: Vec<LifetimeId>)
    ensures
        ids@ == params_lifetimes(func.params@, func.params@.len()),
{
    let mut ids: Vec<LifetimeId> = Vec::new();
    let mut i: usize = 0;
    while i < func.params.len()
        invariant
            i <= func.params.len(),
            ids@ == params_lifetimes(func.params@, i as nat),
        decreases func.params.len() - i,
    {
        collect_lifetimes(&func.params[i].type_.rs_type, &mut ids);
        i += 1;
    }
    ids
}

/// Whether one of `ids` is the elided lifetime.
pub fn holds_elided(ids: &Vec<LifetimeId>, lifetimes: &Vec<LifetimeName>) -> (b: bool)
    ensures
        b == has_elided(ids@, lifetimes@),
{
    let mut i: usize = 0;
    while i < ids.len()
        invariant
            i <= ids.len(),
            forall|k: int| 0 <= k < i ==> !is_elided(lifetimes@, #[trigger] ids@[k]),
        decreases ids.len() - i,
    {
        match find_lifetime(ids[i], lifetimes) {
            Some(name) => {
                if str_eq(name, "_") {
                    assert(is_elided(lifetimes@, ids@[i as int]));
                    return true;
                }
            },
            None => {},
        }
        i += 1;
    }
    false
}

/// Whether the named lifetimes among `ids` are one and the same.
pub fn holds_one_named(ids: &Vec<LifetimeId>, lifetimes: &Vec<LifetimeName>) -> (b: bool)
    ensures
        b == one_named(ids@, lifetimes@),
{
    let mut first: Option<usize> = None;
    let mut i: usize = 0;
    while i < ids.len()
        invariant
            i <= ids.len(),
            first is None ==> forall|j: int|
                0 <= j < i ==> !is_named(lifetimes@, #[trigger] ids@[j]),
            first matches Some(k) ==> k < i && is_named(lifetimes@, ids@[k as int]) && forall|
                j: int,
            |
                0 <= j < i && is_named(lifetimes@, #[trigger] ids@[j]) ==> name_of(
                    lifetimes@,
                    ids@[j],
                ) == name_of(lifetimes@, ids@[k as int]),
        decreases ids.len() - i,
    {
        match find_lifetime(ids[i], lifetimes) {
            Some(name) => {
                if !str_eq(name, "_") {
                    match first {
                        None => {
                            first = Some(i);
                        },
                        Some(k) => {
                            match find_lifetime(ids[k], lifetimes) {
                                Some(first_name) => {
                                    if !str_eq(name, first_name) {
                                        proof {
                                            assert(is_named(lifetimes@, ids@[i as int]));
                                            assert(is_named(lifetimes@, ids@[k as int]));
                                            assert(name_of(lifetimes@, ids@[i as int]) != name_of(
                                                lifetimes@,
                                                ids@[k as int],
                                            ));
                                        }
                                        return false;
                                    }
                                },
                                None => {},
                            }
                        },
                    }
                }
            },
            None => {},
        }
        i += 1;
    }
    proof {
        if first is Some {
            let k = first->0 as int;
            assert(is_named(lifetimes@, ids@[k]));
        }
    }
    first.is_some()
}

/// Checks the rule on elided lifetimes for `func`.
pub fn check_elision(func: &Func) -> (r: Result<(), BindingError>)
    ensures
        elision_is_valid(func) ==> r is Ok,
        !elision_is_valid(func) ==> (r matches Err(e) && e@ == elision_error()),
{
    let mut outputs: Vec<LifetimeId> = Vec::new();
    collect_lifetimes(&func.return_type.rs_type, &mut outputs);
    assert(outputs@ =~= type_lifetimes(&func.return_type.rs_type));
    if !holds_elided(&outputs, &func.lifetime_params) {
        return Ok(());
    }
    let inputs = param_lifetimes(func);
    if holds_one_named(&inputs, &func.lifetime_params) {
        Ok(())
    } else {
        Err(
            BindingError::from_str(
                ErrorKind::MissingLifetime,
                "The elided lifetime in the return type needs exactly one named lifetime among the parameters",
            ),
        )
    }
}

} // verus!
