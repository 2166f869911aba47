//! Typed models of GitHub Actions workflows, action definitions and
//! Dependabot configuration, with verified decoding of the loosely typed
//! values these formats are built from.
//!
//! The formats let an author write one item where a list is meant, a literal
//! where an expression may stand, a boolean where a string is meant, and
//! leave a key out or leave it empty. This crate settles each such case by a
//! fixed rule and proves that its decoders follow the rule:
//!
//! * [`value`] holds a document as a generic tree, and [`decode`] the trait
//!   by which a type says what each tree decodes to.
//! * [`common::expr`] recognises expressions and normalises their
//!   delimiters; [`common`] holds the one-or-many and boolean-or-string
//!   rules; [`common::uses`] parses `uses:` references.
//! * [`workflow`], [`action`] and [`dependabot`] hold the records that are
//!   built from these, with the checks that span several fields.
//! * [`text`] holds the character-level helpers and [`ordered`] what is
//!   taken on trust of the insertion-ordered collections.

pub mod action;
pub mod common;
pub mod decode;
pub mod dependabot;
pub mod ordered;
pub mod text;
pub mod value;
pub mod workflow;
