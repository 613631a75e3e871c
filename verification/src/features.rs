//! Opt-in capabilities: the language features that emitted source needs, and
//! the tiers that a unit has enabled.

use crate::tokens::{comma_separated, punct_tokens, separated_tokens, stream_of, streams_of, Tok};
use crate::words::{word, word_tokens, Word};
use proc_macro2::TokenStream;
use vstd::prelude::*;

verus! {

/// The set of language features that a piece of emitted source needs.
#[derive(Clone, Copy, Debug, PartialEq, Eq, Structural)]
pub struct RustFeatures {
    pub arbitrary_self_types: bool,
    pub const_ptr_offset_from: bool,
    pub custom_inner_attributes: bool,
    pub negative_impls: bool,
}

impl RustFeatures {
    /// No feature.
    pub open spec fn spec_empty() -> RustFeatures {
        RustFeatures {
            arbitrary_self_types: false,
            const_ptr_offset_from: false,
            custom_inner_attributes: false,
            negative_impls: false,
        }
    }

    /// The features of either set.
    pub open spec fn spec_union(self, other: RustFeatures) -> RustFeatures {
        RustFeatures {
            arbitrary_self_types: self.arbitrary_self_types || other.arbitrary_self_types,
            const_ptr_offset_from: self.const_ptr_offset_from || other.const_ptr_offset_from,
            custom_inner_attributes: self.custom_inner_attributes || other.custom_inner_attributes,
            negative_impls: self.negative_impls || other.negative_impls,
        }
    }

    /// Whether the set holds no feature.
    pub open spec fn spec_is_empty(self) -> bool {
        self == RustFeatures::spec_empty()
    }

    /// The names of the features of the set, in alphabetical order.
    pub open spec fn names(self) -> Seq<Seq<Tok>> {
        (if self.arbitrary_self_types {
            seq![word_tokens(Word::ArbitrarySelfTypes)]
        } else {
            seq![]
        }) + (if self.const_ptr_offset_from {
            seq![word_tokens(Word::ConstPtrOffsetFrom)]
        } else {
            seq![]
        }) + (if self.custom_inner_attributes {
            seq![word_tokens(Word::CustomInnerAttributes)]
        } else {
            seq![]
        }) + (if self.negative_impls {
            seq![word_tokens(Word::NegativeImpls)]
        } else {
            seq![]
        })
    }

    /// The names of the features of the set, in alphabetical order, with
    /// commas between them.
    pub open spec fn list_tokens(self) -> Seq<Tok> {
        separated_tokens(self.names(), punct_tokens(','))
    }

    /// No feature.
    pub fn empty() -> (f: RustFeatures)
        ensures
            f == RustFeatures::spec_empty(),
    {
        RustFeatures {
            arbitrary_self_types: false,
            const_ptr_offset_from: false,
            custom_inner_attributes: false,
            negative_impls: false,
        }
    }

    /// The features of either set.
    pub fn union(self, other: RustFeatures) -> (f: RustFeatures)
        ensures
            f == self.spec_union(other),
    {
        RustFeatures {
            arbitrary_self_types: self.arbitrary_self_types || other.arbitrary_self_types,
            const_ptr_offset_from: self.const_ptr_offset_from || other.const_ptr_offset_from,
            custom_inner_attributes: self.custom_inner_attributes || other.custom_inner_attributes,
            negative_impls: self.negative_impls || other.negative_impls,
        }
    }

    /// Whether the set holds no feature.
    pub fn is_empty(self) -> (b: bool)
        ensures
            b == self.spec_is_empty(),
    {
        !self.arbitrary_self_types && !self.const_ptr_offset_from && !self.custom_inner_attributes
            && !self.negative_impls
    }

    /// The names of the features of the set, in alphabetical order, with
    /// commas between them.
    pub fn list(self) -> (ts: TokenStream)
        ensures
            stream_of(ts) == self.list_tokens(),
    {
        let mut parts: Vec<TokenStream> = Vec::new();
        if self.arbitrary_self_types {
            parts.push(word(Word::ArbitrarySelfTypes));
        }
        assert(streams_of(parts@) =~= if self.arbitrary_self_types {
            seq![word_tokens(Word::ArbitrarySelfTypes)]
        } else {
            seq![]
        });
        let ghost s1 = streams_of(parts@);
        if self.const_ptr_offset_from {
            parts.push(word(Word::ConstPtrOffsetFrom));
        }
        assert(streams_of(parts@) =~= s1 + (if self.const_ptr_offset_from {
            seq![word_tokens(Word::ConstPtrOffsetFrom)]
        } else {
            seq![]
        }));
        let ghost s2 = streams_of(parts@);
        if self.custom_inner_attributes {
            parts.push(word(Word::CustomInnerAttributes));
        }
        assert(streams_of(parts@) =~= s2 + (if self.custom_inner_attributes {
            seq![word_tokens(Word::CustomInnerAttributes)]
        } else {
            seq![]
        }));
        let ghost s3 = streams_of(parts@);
        if self.negative_impls {
            parts.push(word(Word::NegativeImpls));
        }
        assert(streams_of(parts@) =~= s3 + (if self.negative_impls {
            seq![word_tokens(Word::NegativeImpls)]
        } else {
            seq![]
        }));
        comma_separated(&parts)
    }
}

/// A tier of support that a unit can enable.
#[derive(Clone, Copy, Debug, PartialEq, Eq, Structural)]
pub enum CrubitFeature {
    /// What is supported for every unit.
    Supported,
    /// What is still experimental.
    Experimental,
}

/// A set of tiers.
#[derive(Clone, Copy, Debug, PartialEq, Eq, Structural)]
pub struct CrubitFeatures {
    pub supported: bool,
    pub experimental: bool,
}

impl CrubitFeatures {
    /// No tier.
    pub open spec fn spec_empty() -> CrubitFeatures {
        CrubitFeatures { supported: false, experimental: false }
    }

    /// The set of one tier.
    pub open spec fn spec_only(feature: CrubitFeature) -> CrubitFeatures {
        match feature {
            CrubitFeature::Supported => CrubitFeatures { supported: true, experimental: false },
            CrubitFeature::Experimental => CrubitFeatures { supported: false, experimental: true },
        }
    }

    /// Whether the set holds `feature`.
    pub open spec fn spec_contains(self, feature: CrubitFeature) -> bool {
        match feature {
            CrubitFeature::Supported => self.supported,
            CrubitFeature::Experimental => self.experimental,
        }
    }

    /// The tiers of either set.
    pub open spec fn spec_union(self, other: CrubitFeatures) -> CrubitFeatures {
        CrubitFeatures {
            supported: self.supported || other.supported,
            experimental: self.experimental || other.experimental,
        }
    }

    /// The tiers of this set that `other` lacks.
    pub open spec fn spec_difference(self, other: CrubitFeatures) -> CrubitFeatures {
        CrubitFeatures {
            supported: self.supported && !other.supported,
            experimental: self.experimental && !other.experimental,
        }
    }

    /// Whether every tier of this set is in `other`.
    pub open spec fn spec_subset_of(self, other: CrubitFeatures) -> bool {
        (self.supported ==> other.supported) && (self.experimental ==> other.experimental)
    }

    /// Whether the set holds no tier.
    pub open spec fn spec_is_empty(self) -> bool {
        !self.supported && !self.experimental
    }

    /// No tier.
    pub fn empty() -> (f: CrubitFeatures)
        ensures
            f == CrubitFeatures::spec_empty(),
    {
        CrubitFeatures { supported: false, experimental: false }
    }

    /// The set of one tier.
    pub fn only(feature: CrubitFeature) -> (f: CrubitFeatures)
        ensures
            f == CrubitFeatures::spec_only(feature),
    {
        match feature {
            CrubitFeature::Supported => CrubitFeatures { supported: true, experimental: false },
            CrubitFeature::Experimental => CrubitFeatures { supported: false, experimental: true },
        }
    }

    /// Whether the set holds `feature`.
    pub fn contains(self, feature: CrubitFeature) -> (b: bool)
        ensures
            b == self.spec_contains(feature),
    {
        match feature {
            CrubitFeature::Supported => self.supported,
            CrubitFeature::Experimental => self.experimental,
        }
    }

    /// The tiers of either set.
    pub fn union(self, other: CrubitFeatures) -> (f: CrubitFeatures)
        ensures
            f == self.spec_union(other),
    {
        CrubitFeatures {
            supported: self.supported || other.supported,
            experimental: self.experimental || other.experimental,
        }
    }

    /// The tiers of this set that `other` lacks.
    pub fn difference(self, other: CrubitFeatures) -> (f: CrubitFeatures)
        ensures
            f == self.spec_difference(other),
    {
        CrubitFeatures {
            supported: self.supported && !other.supported,
            experimental: self.experimental && !other.experimental,
        }
    }

    /// Whether the set holds no tier.
    pub fn is_empty(self) -> (b: bool)
        ensures
            b == self.spec_is_empty(),
    {
        !self.supported && !self.experimental
    }
}

} // verus!
