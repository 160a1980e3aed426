//! Error taxonomy of the validation pipeline.
//!
//! Structural violations of a single constrained value are `FieldError`s;
//! whole-order failures, including those discovered through the product
//! existence port, are `ValidationError`s.  `PortError` is what the injected
//! port itself reports.

use vstd::prelude::*;

verus! {

/// A structural violation of a single constrained value type.
#[derive(Clone, Copy, Debug, PartialEq, Eq, Structural)]
pub enum FieldError {
    /// A bounded string was longer than its limit.
    FieldTooLong,
    /// An identifier that must be non-empty was empty.
    FieldEmpty,
    /// An email address had no single `@` separating non-empty parts.
    InvalidEmailFormat,
    /// A quantity was zero or negative.
    NonPositiveQuantity,
}

/// What the product existence port reports for one product code.
///
/// A port that cannot answer at all (`Unavailable`) is kept distinct from one
/// that answers "no such product" (`NotFound`).
#[derive(Clone, Copy, Debug, PartialEq, Eq, Structural)]
pub enum PortError {
    /// The port answered: this product does not exist.
    NotFound,
    /// The port could not answer (the check itself failed).
    Unavailable,
}

/// Why a whole order was rejected.
///
/// Every failure carries enough context to localize the problem: a line
/// failure names the raw order line id, an unknown product names the raw
/// product code.
#[derive(Debug, PartialEq, Eq)]
pub enum ValidationError {
    /// The order id was empty.
    InvalidOrderId,
    /// A constrained value of one order line could not be constructed.
    InvalidOrderLine { line_id: String, reason: FieldError },
    /// The product existence port reported this product code absent.
    UnknownProduct(String),
    /// The order had no lines at all.
    EmptyOrder,
    /// The product existence port could not answer.
    PortUnavailable,
}

/// The mathematical image of a `ValidationError`: the same variants over
/// character sequences instead of heap strings.
#[verifier::ext_equal]
pub enum ErrorModel {
    InvalidOrderId,
    InvalidOrderLine { order_line_id: Seq<char>, reason: FieldError },
    UnknownProduct { product_code: Seq<char> },
    EmptyOrder,
    PortUnavailable,
}

/// Maps an executable rejection to its mathematical image.
pub open spec fn error_model(e: ValidationError) -> ErrorModel {
    match e {
        ValidationError::InvalidOrderId => ErrorModel::InvalidOrderId,
        ValidationError::InvalidOrderLine { line_id, reason } => ErrorModel::InvalidOrderLine {
            order_line_id: line_id@,
            reason,
        },
        ValidationError::UnknownProduct(code) => ErrorModel::UnknownProduct {
            product_code: code@,
        },
        ValidationError::EmptyOrder => ErrorModel::EmptyOrder,
        ValidationError::PortUnavailable => ErrorModel::PortUnavailable,
    }
}

} // verus!
