//! Sample types in the form that generated bindings take: one field, and a
//! comment in each of the styles that the source side knows.

use vstd::prelude::*;

verus! {

/// Doc comment
///
///  * with three slashes
#[derive(Clone, Copy)]
pub struct DocCommentSlashes {
    /// A field.
    pub i: i32,
}

/// Doc comment
///
///  * with slashes and bang
#[derive(Clone, Copy)]
pub struct DocCommentBang {
    /// A field
    pub i: i32,
}

/// Multiline comment
///
///  with two stars
#[derive(Clone, Copy)]
pub struct MultilineCommentTwoStars {
    /// A field
    pub i: i32,
}

/// Line comment
///
///  * with two slashes
#[derive(Clone, Copy)]
pub struct LineComment {
    /// A field
    pub i: i32,
}

/// Multiline comment
///
///  with one star
#[derive(Clone, Copy)]
pub struct MultilineOneStar {
    /// A field
    pub i: i32,
}

} // verus!
