//! The safety classifier: the walk over a type representation, and the tiers
//! of support that a type needs with the reasons for them.

use crate::features::{CrubitFeature, CrubitFeatures};
use crate::rs_snippet::{Lifetime, TypeLocation};
use crate::strings::{
    join_texts, joined, lemma_sorted_texts_are_unique, lemma_text_lt_total,
    lemma_text_lt_transitive, str_eq, str_lt, strictly_sorted, text_lt, texts_of,
};
use crate::tokens::{printed, stream_text};
use crate::type_kind::{lifetimes_of, models_of, KindModel, RsTypeKind};
use vstd::prelude::*;

verus! {

/// The nodes of the first `n` of `args`, each in depth-first order.
pub open spec fn dfs_args(args: Seq<KindModel>, n: nat) -> Seq<KindModel>
    decreases args, n,
{
    if n == 0 || n > args.len() {
        Seq::empty()
    } else {
        dfs_args(args, (n - 1) as nat) + args[n - 1].dfs()
    }
}

impl KindModel {
    /// The type and every type nested in it, in depth-first order: each
    /// node before what it leads to, the parameters of a function pointer
    /// before its return type. The fields of a record are not part of it.
    pub open spec fn dfs(self) -> Seq<KindModel>
        decreases self, 0nat,
    {
        match self {
            KindModel::Pointer { pointee, .. } => seq![self] + pointee.dfs(),
            KindModel::Reference { referent, .. } => seq![self] + referent.dfs(),
            KindModel::RvalueReference { referent, .. } => seq![self] + referent.dfs(),
            KindModel::TypeAlias { underlying_type, .. } => seq![self] + underlying_type.dfs(),
            KindModel::FuncPtr { return_type, param_types, .. } => seq![self] + dfs_args(
                param_types,
                param_types.len(),
            ) + return_type.dfs(),
            KindModel::Slice(element) => seq![self] + element.dfs(),
            KindModel::Optional(inner) => seq![self] + inner.dfs(),
            KindModel::Other { type_args, .. } => seq![self] + dfs_args(type_args, type_args.len()),
            _ => seq![self],
        }
    }
}

/// The walk starts at the type itself.
pub proof fn lemma_dfs_starts_at_root(kind: KindModel)
    ensures
        kind.dfs().len() > 0,
        kind.dfs()[0] == kind,
{
}

/// What is left of a walk whose pending types are the first `n` of `stack`,
/// the last of them next.
pub open spec fn pending_nodes(stack: Seq<&RsTypeKind>, n: nat) -> Seq<KindModel>
    decreases n,
{
    if n == 0 || n > stack.len() {
        Seq::empty()
    } else {
        stack[n - 1]@.dfs() + pending_nodes(stack, (n - 1) as nat)
    }
}

/// A walk over a type and the types nested in it, in depth-first order.
pub struct RsTypeKindIter<'ty, 'ir> {
    stack: Vec<&'ty RsTypeKind<'ir>>,
}

impl<'ty, 'ir> View for RsTypeKindIter<'ty, 'ir> {
    type V = Seq<KindModel>;

    /// The nodes that the walk has yet to yield, in order.
    closed spec fn view(&self) -> Seq<KindModel> {
        pending_nodes(self.stack@, self.stack@.len())
    }
}

proof fn lemma_pending_push(stack: Seq<&RsTypeKind>, next: &RsTypeKind)
    ensures
        pending_nodes(stack.push(next), stack.len() + 1) == next@.dfs() + pending_nodes(
            stack,
            stack.len(),
        ),
{
    let pushed = stack.push(next);
    lemma_pending_prefix(pushed, stack, stack.len());
}

proof fn lemma_pending_prefix(a: Seq<&RsTypeKind>, b: Seq<&RsTypeKind>, n: nat)
    requires
        n <= a.len(),
        n <= b.len(),
        forall|i: int| 0 <= i < n ==> a[i] == b[i],
    ensures
        pending_nodes(a, n) == pending_nodes(b, n),
    decreases n,
{
    if n > 0 {
        lemma_pending_prefix(a, b, (n - 1) as nat);
    }
}

impl<'ty, 'ir> RsTypeKindIter<'ty, 'ir> {
    /// The walk over `ty`.
    pub fn new(ty: &'ty RsTypeKind<'ir>) -> (iter: RsTypeKindIter<'ty, 'ir>)
        ensures
            iter@ == ty@.dfs(),
    {
        let mut stack: Vec<&'ty RsTypeKind<'ir>> = Vec::new();
        stack.push(ty);
        assert(pending_nodes(stack@, 0) =~= Seq::<KindModel>::empty());
        assert(pending_nodes(stack@, 1) =~= ty@.dfs());
        RsTypeKindIter { stack }
    }

    fn push_reversed(&mut self, args: &'ty Vec<RsTypeKind<'ir>>)
        ensures
            final(self)@ == dfs_args(models_of(args@), args@.len()) + old(self)@,
    {
        let ghost base = self@;
        let ghost models = models_of(args@);
        let mut k: usize = args.len();
        assert(dfs_args(models, k as nat) + self@ =~= dfs_args(models, args@.len()) + base);
        while k > 0
            invariant
                k <= args.len(),
                models == models_of(args@),
                dfs_args(models, k as nat) + self@ == dfs_args(models, args@.len()) + base,
            decreases k,
        {
            let ghost before = self.stack@;
            let child: &'ty RsTypeKind<'ir> = &args[k - 1];
            self.stack.push(child);
            proof {
                lemma_pending_push(before, child);
                assert(dfs_args(models, (k - 1) as nat) + self@ =~= dfs_args(models, k as nat)
                    + pending_nodes(before, before.len()));
            }
            k -= 1;
        }
        assert(dfs_args(models, 0) + self@ =~= self@);
    }

    fn push_one(&mut self, child: &'ty RsTypeKind<'ir>)
        ensures
            final(self)@ == child@.dfs() + old(self)@,
    {
        let ghost before = self.stack@;
        self.stack.push(child);
        proof {
            lemma_pending_push(before, child);
        }
    }

    /// The next node of the walk: `None` when the walk is over; otherwise
    /// the first of the nodes yet to come, which the walk then no longer
    /// holds.
    pub fn next(&mut self) -> (r: Option<&'ty RsTypeKind<'ir>>)
        ensures
            old(self)@.len() == 0 ==> r is None && final(self)@ == old(self)@,
            old(self)@.len() > 0 ==> (r matches Some(kind) && kind@ == old(self)@[0]
                && final(self)@ == old(self)@.drop_first()),
    {
        let ghost before = self.stack@;
        match self.stack.pop() {
            None => None,
            Some(curr) => {
                let ghost rest = self@;
                proof {
                    lemma_pending_prefix(before, self.stack@, self.stack@.len());
                    assert(pending_nodes(before, before.len()) == curr@.dfs() + rest);
                    lemma_dfs_starts_at_root(curr@);
                }
                match curr {
                    RsTypeKind::Pointer { pointee, .. } => {
                        self.push_one(pointee);
                    },
                    RsTypeKind::Reference { referent, .. } => {
                        self.push_one(referent);
                    },
                    RsTypeKind::RvalueReference { referent, .. } => {
                        self.push_one(referent);
                    },
                    RsTypeKind::TypeAlias { underlying_type, .. } => {
                        self.push_one(underlying_type);
                    },
                    RsTypeKind::FuncPtr { return_type, param_types, .. } => {
                        assert(curr@->FuncPtr_param_types =~= models_of(param_types@));
                        self.push_one(return_type);
                        self.push_reversed(param_types);
                    },
                    RsTypeKind::Slice(element) => {
                        self.push_one(element);
                    },
                    RsTypeKind::Optional(inner) => {
                        self.push_one(inner);
                    },
                    RsTypeKind::Other { type_args, .. } => {
                        assert(curr@->Other_type_args =~= models_of(type_args@));
                        self.push_reversed(type_args);
                    },
                    _ => {},
                }
                assert(self@ =~= (curr@.dfs() + rest).drop_first());
                Some(curr)
            },
        }
    }
}

impl<'ir> RsTypeKind<'ir> {
    /// The walk over this type and all the types nested in it, in
    /// depth-first order.
    pub fn dfs_iter<'ty>(&'ty self) -> (iter: RsTypeKindIter<'ty, 'ir>)
        ensures
            iter@ == self@.dfs(),
    {
        RsTypeKindIter::new(self)
    }
}

/// Whether instantiations of the template `name` are supported for every
/// unit.
pub open spec fn is_allowlisted(name: Seq<char>) -> bool {
    name == "std::string_view"@ || name == "std::wstring_view"@
}

/// The type as text: what it is written as in generated source, or a note
/// of the error for which it cannot be written.
pub open spec fn display_text(kind: KindModel) -> Seq<char> {
    match kind.tokens(None) {
        Ok(tokens) => printed(tokens),
        Err(error) => "<error: "@ + error.text() + ">"@,
    }
}

/// What one node of a type needs: a tier, and the reason where one can be
/// given.
pub struct Requirement {
    pub feature: CrubitFeature,
    pub reason: Option<Seq<char>>,
}

impl KindModel {
    /// What this node needs, whatever is nested in it.
    ///
    /// Pointers, enumerations, type aliases, scalars, slices and optional
    /// values need the supported tier, as do function pointers of the C
    /// calling convention and records that are no template instantiation or
    /// an allow-listed one. References need the experimental tier, as do
    /// function pointers of any other calling convention, incomplete
    /// records, other template instantiations, and, without a reason given,
    /// bridge types and types known by name alone.
    pub open spec fn requirement(self) -> Requirement {
        match self {
            KindModel::Pointer { .. } => Requirement {
                feature: CrubitFeature::Supported,
                reason: None,
            },
            KindModel::Reference { .. } => Requirement {
                feature: CrubitFeature::Experimental,
                reason: Some("references are not supported"@),
            },
            KindModel::RvalueReference { .. } => Requirement {
                feature: CrubitFeature::Experimental,
                reason: Some("references are not supported"@),
            },
            KindModel::FuncPtr { abi, .. } => if abi == "C"@ {
                Requirement { feature: CrubitFeature::Supported, reason: None }
            } else {
                Requirement {
                    feature: CrubitFeature::Experimental,
                    reason: Some("functions must be not use a non-C calling convention"@),
                }
            },
            KindModel::IncompleteRecord { .. } => Requirement {
                feature: CrubitFeature::Experimental,
                reason: Some("not a complete type"@),
            },
            KindModel::Record { record, .. } => if record.defining_target is None
                || is_allowlisted(record.cc_preferred_name@) {
                Requirement { feature: CrubitFeature::Supported, reason: None }
            } else {
                Requirement {
                    feature: CrubitFeature::Experimental,
                    reason: Some(display_text(self) + " is a template instantiation"@),
                }
            },
            KindModel::BridgeType { .. } => Requirement {
                feature: CrubitFeature::Experimental,
                reason: None,
            },
            KindModel::Other { .. } => Requirement {
                feature: CrubitFeature::Experimental,
                reason: None,
            },
            _ => Requirement { feature: CrubitFeature::Supported, reason: None },
        }
    }
}

/// The sorted sequence `sorted` with `text` added at its place, unless it is
/// there already.
pub open spec fn sorted_insert(sorted: Seq<Seq<char>>, text: Seq<char>) -> Seq<Seq<char>>
    decreases sorted.len(),
{
    if sorted.len() == 0 {
        seq![text]
    } else if sorted.last() == text {
        sorted
    } else if text_lt(sorted.last(), text) {
        sorted.push(text)
    } else {
        sorted_insert(sorted.drop_last(), text).push(sorted.last())
    }
}

/// The tiers that are needed and not enabled, with the reasons for them in
/// order and without repetition.
pub struct Missing {
    pub features: CrubitFeatures,
    pub reasons: Seq<Seq<char>>,
}

/// `missing` with what `requirement` adds where its tier is not among
/// `enabled`.
pub open spec fn require(
    missing: Missing,
    enabled: CrubitFeatures,
    requirement: Requirement,
) -> Missing {
    let lacking = CrubitFeatures::spec_only(requirement.feature).spec_difference(enabled);
    if lacking.spec_is_empty() {
        missing
    } else {
        Missing {
            features: missing.features.spec_union(lacking),
            reasons: match requirement.reason {
                Some(reason) => sorted_insert(missing.reasons, reason),
                None => missing.reasons,
            },
        }
    }
}

/// Whether a type must be movable by value where it is used: as a
/// parameter or as a return type.
pub open spec fn is_by_value_location(location: TypeLocation) -> bool {
    location == TypeLocation::FnReturn || location == TypeLocation::FnParam
}

/// What the type as a whole needs because of where it is used: a type that
/// must not move needs the experimental tier to be passed or returned by
/// value.
pub open spec fn root_missing(
    kind: KindModel,
    enabled: CrubitFeatures,
    location: TypeLocation,
) -> Missing {
    let nothing = Missing { features: CrubitFeatures::spec_empty(), reasons: Seq::empty() };
    if !kind.spec_is_unpin() && is_by_value_location(location) {
        require(
            nothing,
            enabled,
            Requirement {
                feature: CrubitFeature::Experimental,
                reason: Some("not movable by value"@),
            },
        )
    } else {
        nothing
    }
}

/// What the type as a whole and the first `n` nodes of its walk need and
/// `enabled` lacks.
pub open spec fn missing_upto(
    kind: KindModel,
    enabled: CrubitFeatures,
    location: TypeLocation,
    n: nat,
) -> Missing
    decreases n,
{
    if n == 0 {
        root_missing(kind, enabled, location)
    } else {
        require(
            missing_upto(kind, enabled, location, (n - 1) as nat),
            enabled,
            kind.dfs()[n - 1].requirement(),
        )
    }
}

/// The tiers that using the type at `location` needs and `enabled` lacks,
/// and the reasons for them: sorted, each once, with `", "` between them.
pub open spec fn required_features(
    kind: KindModel,
    enabled: CrubitFeatures,
    location: TypeLocation,
) -> (CrubitFeatures, Seq<char>) {
    let missing = missing_upto(kind, enabled, location, kind.dfs().len());
    (missing.features, joined(missing.reasons, ", "@))
}

/// Adds `text` to the sorted `reasons` at its place, unless it is there
/// already.
pub fn insert_sorted(reasons: &mut Vec<String>, text: String)
    ensures
        texts_of(final(reasons)@) == sorted_insert(texts_of(old(reasons)@), text@),
{
    let ghost all = texts_of(reasons@);
    let mut i: usize = reasons.len();
    assert(all.take(i as int) =~= all);
    assert(all.skip(i as int) =~= Seq::<Seq<char>>::empty());
    assert(sorted_insert(all, text@) =~= sorted_insert(all.take(i as int), text@) + all.skip(
        i as int,
    ));
    loop
        invariant
            i <= reasons.len(),
            all == texts_of(reasons@),
            *reasons == *old(reasons),
            sorted_insert(all, text@) == sorted_insert(all.take(i as int), text@) + all.skip(
                i as int,
            ),
        ensures
            i <= reasons.len(),
            all == texts_of(reasons@),
            sorted_insert(all, text@) == all.take(i as int).push(text@) + all.skip(i as int),
        decreases i,
    {
        if i == 0 {
            proof {
                assert(all.take(0) =~= Seq::<Seq<char>>::empty());
                assert(sorted_insert(all.take(0), text@) =~= all.take(0).push(text@));
            }
            break;
        }
        let ghost prefix = all.take(i as int);
        proof {
            assert(prefix.last() == all[i as int - 1]);
            assert(prefix.drop_last() =~= all.take(i as int - 1));
        }
        if str_eq(reasons[i - 1].as_str(), text.as_str()) {
            proof {
                assert(sorted_insert(prefix, text@) == prefix);
                assert(prefix + all.skip(i as int) =~= all);
            }
            return;
        }
        if str_lt(reasons[i - 1].as_str(), text.as_str()) {
            proof {
                assert(sorted_insert(prefix, text@) == prefix.push(text@));
            }
            break;
        }
        proof {
            assert(sorted_insert(prefix, text@) == sorted_insert(prefix.drop_last(), text@).push(
                prefix.last(),
            ));
            assert(sorted_insert(all.take(i as int - 1), text@).push(all[i as int - 1]) + all.skip(
                i as int,
            ) =~= sorted_insert(all.take(i as int - 1), text@) + all.skip(i as int - 1));
        }
        i -= 1;
    }
    reasons.insert(i, text);
    assert(texts_of(reasons@) =~= all.take(i as int).push(text@) + all.skip(i as int));
}

impl<'ir> RsTypeKind<'ir> {
    /// The type as text: what it is written as in generated source, or a
    /// note of the error for which it cannot be written.
    pub fn display_text(&self) -> (text: String)
        ensures
            text@ == display_text(self@),
    {
        match self.to_token_stream() {
            Ok(tokens) => stream_text(&tokens),
            Err(error) => {
                let mut text = String::from_str("<error: ");
                text.append(error.message().as_str());
                text.append(">");
                text
            },
        }
    }

    /// What this node needs, whatever is nested in it: the tier, and the
    /// reason where one can be given.
    pub fn node_requirement(&self) -> (r: (CrubitFeature, Option<String>))
        ensures
            r.0 == self@.requirement().feature,
            match self@.requirement().reason {
                Some(reason) => r.1 matches Some(text) && text@ == reason,
                None => r.1 is None,
            },
    {
        match self {
            RsTypeKind::Pointer { .. } => (CrubitFeature::Supported, None),
            RsTypeKind::Reference { .. } => (
                CrubitFeature::Experimental,
                Some(String::from_str("references are not supported")),
            ),
            RsTypeKind::RvalueReference { .. } => (
                CrubitFeature::Experimental,
                Some(String::from_str("references are not supported")),
            ),
            RsTypeKind::FuncPtr { abi, .. } => {
                if str_eq(abi.as_str(), "C") {
                    (CrubitFeature::Supported, None)
                } else {
                    (
                        CrubitFeature::Experimental,
                        Some(
                            String::from_str(
                                "functions must be not use a non-C calling convention",
                            ),
                        ),
                    )
                }
            },
            RsTypeKind::IncompleteRecord { .. } => (
                CrubitFeature::Experimental,
                Some(String::from_str("not a complete type")),
            ),
            RsTypeKind::Record { record, .. } => {
                if record.defining_target.is_none() || str_eq(
                    record.cc_preferred_name.as_str(),
                    "std::string_view",
                ) || str_eq(record.cc_preferred_name.as_str(), "std::wstring_view") {
                    (CrubitFeature::Supported, None)
                } else {
                    let mut reason = self.display_text();
                    reason.append(" is a template instantiation");
                    (CrubitFeature::Experimental, Some(reason))
                }
            },
            RsTypeKind::BridgeType { .. } => (CrubitFeature::Experimental, None),
            RsTypeKind::Other { .. } => (CrubitFeature::Experimental, None),
            _ => (CrubitFeature::Supported, None),
        }
    }
}

/// What is missing so far, as it is accumulated.
pub struct MissingFeatures {
    pub features: CrubitFeatures,
    pub reasons: Vec<String>,
}

impl View for MissingFeatures {
    type V = Missing;

    open spec fn view(&self) -> Missing {
        Missing { features: self.features, reasons: texts_of(self.reasons@) }
    }
}

/// The text of an optional reason.
pub open spec fn reason_text(reason: Option<String>) -> Option<Seq<char>> {
    match reason {
        Some(text) => Some(text@),
        None => None,
    }
}

/// Records that `feature` is needed, for `reason`, where `enabled` lacks it.
pub fn require_feature(
    missing: &mut MissingFeatures,
    enabled: CrubitFeatures,
    feature: CrubitFeature,
    reason: Option<String>,
)
    ensures
        final(missing)@ == require(
            old(missing)@,
            enabled,
            Requirement { feature, reason: reason_text(reason) },
        ),
{
    let lacking = CrubitFeatures::only(feature).difference(enabled);
    if !lacking.is_empty() {
        missing.features = missing.features.union(lacking);
        match reason {
            Some(text) => {
                insert_sorted(&mut missing.reasons, text);
            },
            None => {},
        }
    }
}

impl<'ir> RsTypeKind<'ir> {
    /// The tiers that using this type at `type_location` needs and
    /// `enabled_features` lacks, and the reasons for them.
    ///
    /// Every node of the type is asked, the type itself before what is
    /// nested in it; the fields of a record are not. A type that must not
    /// move needs the experimental tier where it is passed or returned by
    /// value. The reasons are sorted, each given once, with `", "` between
    /// them.
    pub fn required_crubit_features(
        &self,
        enabled_features: CrubitFeatures,
        type_location: TypeLocation,
    ) -> (r: (CrubitFeatures, String))
        ensures
            r.0 == required_features(self@, enabled_features, type_location).0,
            r.1@ == required_features(self@, enabled_features, type_location).1,
    {
        let mut missing = MissingFeatures { features: CrubitFeatures::empty(), reasons: Vec::new() };
        assert(texts_of(missing.reasons@) =~= Seq::<Seq<char>>::empty());
        let by_value = match type_location {
            TypeLocation::FnReturn => true,
            TypeLocation::FnParam => true,
            TypeLocation::Other => false,
        };
        if !self.is_unpin() && by_value {
            require_feature(
                &mut missing,
                enabled_features,
                CrubitFeature::Experimental,
                Some(String::from_str("not movable by value")),
            );
        }
        let ghost nodes = self@.dfs();
        let mut iter = self.dfs_iter();
        let ghost mut n: nat = 0;
        assert(nodes.skip(0) =~= nodes);
        loop
            invariant
                n <= nodes.len(),
                nodes == self@.dfs(),
                iter@ == nodes.skip(n as int),
                missing@ == missing_upto(self@, enabled_features, type_location, n),
            ensures
                n == nodes.len(),
                missing@ == missing_upto(self@, enabled_features, type_location, n),
            decreases nodes.len() - n,
        {
            match iter.next() {
                None => {
                    proof {
                        assert(nodes.skip(n as int).len() == 0);
                    }
                    break;
                },
                Some(kind) => {
                    proof {
                        assert(nodes.skip(n as int)[0] == nodes[n as int]);
                        assert(nodes.skip(n as int).drop_first() =~= nodes.skip(n as int + 1));
                    }
                    let (feature, reason) = kind.node_requirement();
                    require_feature(&mut missing, enabled_features, feature, reason);
                    proof {
                        assert(reason_text(reason) == kind@.requirement().reason);
                        n = n + 1;
                    }
                },
            }
        }
        (missing.features, join_texts(&missing.reasons, ", "))
    }
}

/// Enabling more tiers never makes more of them missing: where every tier
/// of `enabled` is in `more`, the tiers that are missing with `more` are
/// among those that are missing with `enabled`.
pub proof fn lemma_more_features_miss_less(
    kind: KindModel,
    enabled: CrubitFeatures,
    more: CrubitFeatures,
    location: TypeLocation,
)
    requires
        enabled.spec_subset_of(more),
    ensures
        required_features(kind, more, location).0.spec_subset_of(
            required_features(kind, enabled, location).0,
        ),
{
    lemma_missing_is_monotonic(kind, enabled, more, location, kind.dfs().len());
}

proof fn lemma_missing_is_monotonic(
    kind: KindModel,
    enabled: CrubitFeatures,
    more: CrubitFeatures,
    location: TypeLocation,
    n: nat,
)
    requires
        enabled.spec_subset_of(more),
    ensures
        missing_upto(kind, more, location, n).features.spec_subset_of(
            missing_upto(kind, enabled, location, n).features,
        ),
    decreases n,
{
    if n > 0 {
        lemma_missing_is_monotonic(kind, enabled, more, location, (n - 1) as nat);
    }
}

/// No tier that is enabled is reported as missing.
pub proof fn lemma_enabled_is_not_missing(
    kind: KindModel,
    enabled: CrubitFeatures,
    location: TypeLocation,
    n: nat,
)
    ensures
        missing_upto(kind, enabled, location, n).features.spec_difference(enabled)
            == missing_upto(kind, enabled, location, n).features,
    decreases n,
{
    if n > 0 {
        lemma_enabled_is_not_missing(kind, enabled, location, (n - 1) as nat);
    }
}

/// The lifetimes of the references among the first `n` of `nodes`, in
/// order, each as often as it occurs.
pub open spec fn lifetimes_in(nodes: Seq<KindModel>, n: nat) -> Seq<Seq<char>>
    decreases n,
{
    if n == 0 || n > nodes.len() {
        Seq::empty()
    } else {
        match nodes[n - 1].spec_lifetime() {
            Some(lifetime) => lifetimes_in(nodes, (n - 1) as nat).push(lifetime),
            None => lifetimes_in(nodes, (n - 1) as nat),
        }
    }
}

impl<'ir> RsTypeKind<'ir> {
    /// The lifetimes of all references in this type and in the types nested
    /// in it, in depth-first order; a lifetime that occurs twice is given
    /// twice.
    pub fn lifetimes(&self) -> (lifetimes: Vec<Lifetime>)
        ensures
            lifetimes_of(lifetimes@) == lifetimes_in(self@.dfs(), self@.dfs().len()),
    {
        let mut lifetimes: Vec<Lifetime> = Vec::new();
        let ghost nodes = self@.dfs();
        let mut iter = self.dfs_iter();
        let ghost mut n: nat = 0;
        assert(nodes.skip(0) =~= nodes);
        assert(lifetimes_of(lifetimes@) =~= Seq::<Seq<char>>::empty());
        loop
            invariant
                n <= nodes.len(),
                nodes == self@.dfs(),
                iter@ == nodes.skip(n as int),
                lifetimes_of(lifetimes@) == lifetimes_in(nodes, n),
            ensures
                n == nodes.len(),
                lifetimes_of(lifetimes@) == lifetimes_in(nodes, n),
            decreases nodes.len() - n,
        {
            match iter.next() {
                None => {
                    proof {
                        assert(nodes.skip(n as int).len() == 0);
                    }
                    break;
                },
                Some(kind) => {
                    proof {
                        assert(nodes.skip(n as int)[0] == nodes[n as int]);
                        assert(nodes.skip(n as int).drop_first() =~= nodes.skip(n as int + 1));
                    }
                    match kind.lifetime() {
                        Some(lifetime) => {
                            let ghost before = lifetimes_of(lifetimes@);
                            lifetimes.push(lifetime);
                            assert(lifetimes_of(lifetimes@) =~= before.push(lifetime@));
                        },
                        None => {},
                    }
                    proof {
                        n = n + 1;
                    }
                },
            }
        }
        lifetimes
    }
}

/// Adding a text to a sequence in strictly ascending order keeps the order,
/// and the sequence then holds that text and what it held before.
pub proof fn lemma_sorted_insert(sorted: Seq<Seq<char>>, text: Seq<char>)
    requires
        strictly_sorted(sorted),
    ensures
        strictly_sorted(sorted_insert(sorted, text)),
        forall|other: Seq<char>|
            #![trigger sorted_insert(sorted, text).contains(other)]
            sorted_insert(sorted, text).contains(other) <==> (sorted.contains(other) || other
                == text),
    decreases sorted.len(),
{
    let inserted = sorted_insert(sorted, text);
    if sorted.len() == 0 {
        assert(inserted[0] == text);
        assert forall|other: Seq<char>|
            #![trigger inserted.contains(other)]
            inserted.contains(other) <==> (sorted.contains(other) || other == text) by {
            if inserted.contains(other) {
                let i = choose|i: int| 0 <= i < inserted.len() && inserted[i] == other;
            }
            if sorted.contains(other) {
                let i = choose|i: int| 0 <= i < sorted.len() && sorted[i] == other;
            }
        }
    } else if sorted.last() == text {
        assert(sorted.contains(text)) by {
            assert(sorted[sorted.len() - 1] == text);
        }
        assert forall|other: Seq<char>|
            #![trigger inserted.contains(other)]
            inserted.contains(other) <==> (sorted.contains(other) || other == text) by {}
    } else if text_lt(sorted.last(), text) {
        assert forall|i: int, j: int| 0 <= i < j < inserted.len() implies text_lt(
            #[trigger] inserted[i],
            #[trigger] inserted[j],
        ) by {
            if j == sorted.len() {
                if i < sorted.len() - 1 {
                    assert(text_lt(sorted[i], sorted[sorted.len() - 1]));
                    lemma_text_lt_transitive(sorted[i], sorted.last(), text);
                }
            } else {
                assert(inserted[i] == sorted[i] && inserted[j] == sorted[j]);
            }
        }
        assert forall|other: Seq<char>|
            #![trigger inserted.contains(other)]
            inserted.contains(other) <==> (sorted.contains(other) || other == text) by {
            if inserted.contains(other) {
                let i = choose|i: int| 0 <= i < inserted.len() && inserted[i] == other;
                if i < sorted.len() {
                    assert(sorted[i] == other);
                }
            }
            if sorted.contains(other) {
                let i = choose|i: int| 0 <= i < sorted.len() && sorted[i] == other;
                assert(inserted[i] == other);
            }
            if other == text {
                assert(inserted[sorted.len() as int] == other);
            }
        }
    } else {
        let rest = sorted.drop_last();
        let last = sorted.last();
        assert(strictly_sorted(rest)) by {
            assert forall|i: int, j: int| 0 <= i < j < rest.len() implies text_lt(
                #[trigger] rest[i],
                #[trigger] rest[j],
            ) by {
                assert(rest[i] == sorted[i] && rest[j] == sorted[j]);
            }
        }
        lemma_sorted_insert(rest, text);
        lemma_text_lt_total(last, text);
        let before = sorted_insert(rest, text);
        assert(inserted == before.push(last));
        assert(forall|other: Seq<char>|
            #![trigger before.contains(other)]
            before.contains(other) <==> (rest.contains(other) || other == text));
        assert forall|i: int, j: int| 0 <= i < j < inserted.len() implies text_lt(
            #[trigger] inserted[i],
            #[trigger] inserted[j],
        ) by {
            if j == before.len() {
                assert(before.contains(before[i]));
                if rest.contains(before[i]) {
                    let k = choose|k: int| 0 <= k < rest.len() && rest[k] == before[i];
                    assert(sorted[k] == before[i]);
                    assert(text_lt(sorted[k], sorted[sorted.len() - 1]));
                }
            } else {
                assert(inserted[i] == before[i] && inserted[j] == before[j]);
            }
        }
        assert forall|other: Seq<char>|
            #![trigger inserted.contains(other)]
            inserted.contains(other) <==> (sorted.contains(other) || other == text) by {
            if inserted.contains(other) {
                let i = choose|i: int| 0 <= i < inserted.len() && inserted[i] == other;
                if i < before.len() {
                    assert(before.contains(other));
                    if rest.contains(other) {
                        let k = choose|k: int| 0 <= k < rest.len() && rest[k] == other;
                        assert(sorted[k] == other);
                    }
                } else {
                    assert(sorted[sorted.len() - 1] == other);
                }
            }
            if sorted.contains(other) {
                let i = choose|i: int| 0 <= i < sorted.len() && sorted[i] == other;
                if i < rest.len() {
                    assert(rest[i] == other);
                    assert(rest.contains(other));
                    assert(before.contains(other));
                    let k = choose|k: int| 0 <= k < before.len() && before[k] == other;
                    assert(inserted[k] == other);
                } else {
                    assert(inserted[before.len() as int] == other);
                }
            }
            if other == text {
                assert(before.contains(text));
                let k = choose|k: int| 0 <= k < before.len() && before[k] == text;
                assert(inserted[k] == other);
            }
        }
    }
}

/// Whether a node with the requirement `requirement` lacks its tier.
pub open spec fn lacks(enabled: CrubitFeatures, requirement: Requirement) -> bool {
    !CrubitFeatures::spec_only(requirement.feature).spec_difference(enabled).spec_is_empty()
}

/// Whether `text` is a reason for which the type as a whole or one of the
/// first `n` nodes of its walk lacks a tier.
pub open spec fn is_reason_upto(
    kind: KindModel,
    enabled: CrubitFeatures,
    location: TypeLocation,
    n: nat,
    text: Seq<char>,
) -> bool {
    ||| (!kind.spec_is_unpin() && is_by_value_location(location) && !enabled.experimental && text
        == "not movable by value"@)
    ||| exists|i: int|
        0 <= i < n && i < kind.dfs().len() && lacks(
            enabled,
            (#[trigger] kind.dfs()[i]).requirement(),
        ) && kind.dfs()[i].requirement().reason == Some(text)
}

/// The reasons are a set written in order: they stand in strictly ascending
/// order, each once, and they are exactly the reasons for which the type
/// or a node of its walk lacks a tier. So they do not depend on the order
/// in which the nodes are asked.
pub proof fn lemma_reasons_are_a_sorted_set(
    kind: KindModel,
    enabled: CrubitFeatures,
    location: TypeLocation,
    n: nat,
)
    requires
        n <= kind.dfs().len(),
    ensures
        strictly_sorted(missing_upto(kind, enabled, location, n).reasons),
        forall|text: Seq<char>|
            missing_upto(kind, enabled, location, n).reasons.contains(text) <==> is_reason_upto(
                kind,
                enabled,
                location,
                n,
                text,
            ),
    decreases n,
{
    let now = missing_upto(kind, enabled, location, n).reasons;
    if n == 0 {
        let empty = Seq::<Seq<char>>::empty();
        let reason = "not movable by value"@;
        lemma_sorted_insert(empty, reason);
        if !kind.spec_is_unpin() && is_by_value_location(location) && !enabled.experimental {
            assert(now == sorted_insert(empty, reason));
            assert(now[0] == reason);
            assert forall|text: Seq<char>|
                now.contains(text) <==> is_reason_upto(kind, enabled, location, n, text) by {
                if now.contains(text) {
                    let i = choose|i: int| 0 <= i < now.len() && now[i] == text;
                }
            }
        } else {
            assert(now == empty);
            assert forall|text: Seq<char>|
                now.contains(text) <==> is_reason_upto(kind, enabled, location, n, text) by {
                if now.contains(text) {
                    let i = choose|i: int| 0 <= i < now.len() && now[i] == text;
                }
            }
        }
    } else {
        lemma_reasons_are_a_sorted_set(kind, enabled, location, (n - 1) as nat);
        let before = missing_upto(kind, enabled, location, (n - 1) as nat).reasons;
        let requirement = kind.dfs()[n - 1].requirement();
        if lacks(enabled, requirement) && requirement.reason is Some {
            lemma_sorted_insert(before, requirement.reason->0);
            assert(now == sorted_insert(before, requirement.reason->0));
            assert(forall|other: Seq<char>|
                #![trigger now.contains(other)]
                now.contains(other) <==> (before.contains(other) || other
                    == requirement.reason->0));
        } else {
            assert(now == before);
        }
        assert forall|text: Seq<char>|
            now.contains(text) <==> is_reason_upto(kind, enabled, location, n, text) by {
            if is_reason_upto(kind, enabled, location, n, text) && !is_reason_upto(
                kind,
                enabled,
                location,
                (n - 1) as nat,
                text,
            ) {
                let i = choose|i: int|
                    0 <= i < n && i < kind.dfs().len() && lacks(
                        enabled,
                        (#[trigger] kind.dfs()[i]).requirement(),
                    ) && kind.dfs()[i].requirement().reason == Some(text);
                assert(i == n - 1);
            }
            if is_reason_upto(kind, enabled, location, (n - 1) as nat, text) {
                assert(is_reason_upto(kind, enabled, location, n, text));
            }
            if lacks(enabled, requirement) && requirement.reason == Some(text) {
                assert(kind.dfs()[n - 1].requirement().reason == Some(text));
                assert(is_reason_upto(kind, enabled, location, n, text));
            }
        }
    }
}

/// The reasons do not depend on the order in which nodes are asked: two
/// types for which the same reasons hold are given the same text of
/// reasons, wherever in their walks the nodes with those reasons stand.
pub proof fn lemma_reasons_do_not_depend_on_order(
    first: KindModel,
    second: KindModel,
    enabled: CrubitFeatures,
    location: TypeLocation,
)
    requires
        forall|text: Seq<char>|
            is_reason_upto(first, enabled, location, first.dfs().len(), text) <==> is_reason_upto(
                second,
                enabled,
                location,
                second.dfs().len(),
                text,
            ),
    ensures
        required_features(first, enabled, location).1 == required_features(
            second,
            enabled,
            location,
        ).1,
{
    lemma_reasons_are_a_sorted_set(first, enabled, location, first.dfs().len());
    lemma_reasons_are_a_sorted_set(second, enabled, location, second.dfs().len());
    let a = missing_upto(first, enabled, location, first.dfs().len()).reasons;
    let b = missing_upto(second, enabled, location, second.dfs().len()).reasons;
    assert forall|text: Seq<char>| a.contains(text) <==> b.contains(text) by {
        assert(a.contains(text) <==> is_reason_upto(
            first,
            enabled,
            location,
            first.dfs().len(),
            text,
        ));
        assert(b.contains(text) <==> is_reason_upto(
            second,
            enabled,
            location,
            second.dfs().len(),
            text,
        ));
    }
    lemma_sorted_texts_are_unique(a, b);
}

} // verus!
