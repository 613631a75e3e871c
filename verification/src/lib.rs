//! Bindings generation between two ABI-distinct languages: type mapping,
//! signature lowering and emission of declarations, with machine-checked
//! contracts.
//!
//! A unit to bind is an [`ir::IR`]: an ordered list of declarations. From it
//! [`emit::generate_rs_api`] makes the public surface and
//! [`cc_api::generate_rs_api_impl`] the boundary adapters. On the way,
//! [`resolver`] maps each type node to a [`type_kind::RsTypeKind`],
//! [`classifier`] says which tiers of support a type needs, [`signature`]
//! lowers one callable declaration and [`rs_api`] one record.
//! [`cc_bindings`] goes the other way, from the functions that a crate
//! exports to declarations for the source side.
//!
//! Generated source is assembled as token streams ([`tokens`]). What a
//! function emits is stated over the sequence of tokens that its result
//! holds; failures are values of [`error::BindingError`].

pub mod cc_api;
pub mod cc_bindings;
pub mod classifier;
pub mod emit;
pub mod error;
pub mod features;
pub mod golden;
pub mod ir;
pub mod lifetimes;
pub mod resolver;
pub mod rs_api;
pub mod rs_snippet;
pub mod signature;
pub mod strings;
pub mod tokens;
pub mod type_kind;
pub mod vector;
pub mod words;
