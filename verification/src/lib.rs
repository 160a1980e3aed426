//! An order-intake validation library.
//!
//! Untrusted order documents arrive as plain strings and numbers; every
//! business rule (bounded names, well-formed email addresses, non-empty
//! identifiers, positive quantities, product existence) is enforced exactly
//! once, at construction of the corresponding constrained value type.  A
//! `ValidatedOrder` can therefore only exist if every rule held, and the
//! validation pipeline either produces one (wrapped in a workflow event) or
//! reports precisely which rule was violated and where.

pub mod errors;
pub mod implementation;
pub mod public_types;
pub mod simple_types;
