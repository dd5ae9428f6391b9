//! Conversion of in-memory values into symbolic-expression trees.
//!
//! A symbolic-expression tree ([`sexp::Sexp`]) is either an atom holding raw
//! bytes or a list holding an ordered sequence of child trees.  The
//! [`sexp_of::SexpOf`] trait turns a value of a supported shape into such a
//! tree: scalars become atoms carrying their canonical textual rendering,
//! containers become lists built from the conversions of their parts.

pub mod dec;
pub mod laws;
pub mod sexp;
pub mod sexp_of;
