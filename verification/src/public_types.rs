//! The unvalidated (wire-shaped) order model, the opaque identifier types,
//! and the workflow event vocabulary.
//!
//! Every type here is either plain unconstrained data exactly as an external
//! caller supplies it, or a constrained wrapper whose checked factory is the
//! single enforcement point of its rule.

use crate::errors::FieldError;
use crate::implementation::ValidatedOrder;
use crate::simple_types::{EmailAddress, String50};
use vstd::prelude::*;

verus! {

/// Mathematical image of a customer info record.
#[verifier::ext_equal]
pub struct CustomerInfoModel {
    pub first_name: Seq<char>,
    pub last_name: Seq<char>,
    pub email_address: Seq<char>,
}

/// Mathematical image of one order line.
#[verifier::ext_equal]
pub struct OrderLineModel {
    pub order_line_id: Seq<char>,
    pub product_code: Seq<char>,
    pub quantity: int,
}

/// Mathematical image of a whole order.
#[verifier::ext_equal]
pub struct OrderModel {
    pub order_id: Seq<char>,
    pub lines: Seq<OrderLineModel>,
}

/// The rule enforced by the identifier types: non-empty.
pub open spec fn id_ok(s: Seq<char>) -> bool {
    s.len() > 0
}

/// The rule enforced by `OrderQuantity`: strictly positive.
pub open spec fn quantity_ok(q: int) -> bool {
    q > 0
}

/// Customer info exactly as an external caller supplies it: no invariants.
pub struct UnvalidatedCustomerInfo {
    pub first_name: String,
    pub last_name: String,
    pub email_address: String,
}

impl View for UnvalidatedCustomerInfo {
    type V = CustomerInfoModel;

    open spec fn view(&self) -> CustomerInfoModel {
        CustomerInfoModel {
            first_name: self.first_name@,
            last_name: self.last_name@,
            email_address: self.email_address@,
        }
    }
}

/// Customer info in which every field passed its constructor.
#[derive(Debug)]
pub struct ValidatedCustomerInfo {
    first_name: String50,
    last_name: String50,
    email_address: EmailAddress,
}

impl View for ValidatedCustomerInfo {
    type V = CustomerInfoModel;

    closed spec fn view(&self) -> CustomerInfoModel {
        CustomerInfoModel {
            first_name: self.first_name@,
            last_name: self.last_name@,
            email_address: self.email_address@,
        }
    }
}

impl ValidatedCustomerInfo {
    /// Assembles validated components; no further checking is needed, the
    /// component types carry their own invariants.
    pub fn new(first_name: String50, last_name: String50, email_address: EmailAddress) -> (result:
        Self)
        ensures
            result@ == (CustomerInfoModel {
                first_name: first_name@,
                last_name: last_name@,
                email_address: email_address@,
            }),
    {
        Self { first_name, last_name, email_address }
    }

    /// The validated first name.
    pub fn first_name(&self) -> (result: &String50)
        ensures
            result@ == self@.first_name,
    {
        &self.first_name
    }

    /// The validated last name.
    pub fn last_name(&self) -> (result: &String50)
        ensures
            result@ == self@.last_name,
    {
        &self.last_name
    }

    /// The validated email address.
    pub fn email_address(&self) -> (result: &EmailAddress)
        ensures
            result@ == self@.email_address,
    {
        &self.email_address
    }
}

/// An order exactly as an external caller supplies it: no invariants, not
/// even non-emptiness of the line list.
pub struct UnvalidatedOrder {
    pub order_id: String,
    pub lines: Vec<UnvalidatedOrderLine>,
}

impl View for UnvalidatedOrder {
    type V = OrderModel;

    open spec fn view(&self) -> OrderModel {
        OrderModel {
            order_id: self.order_id@,
            lines: self.lines@.map_values(|line: UnvalidatedOrderLine| line@),
        }
    }
}

/// One order line exactly as an external caller supplies it.
pub struct UnvalidatedOrderLine {
    pub order_line_id: String,
    pub product_code: String,
    pub quantity: i64,
}

impl View for UnvalidatedOrderLine {
    type V = OrderLineModel;

    open spec fn view(&self) -> OrderLineModel {
        OrderLineModel {
            order_line_id: self.order_line_id@,
            product_code: self.product_code@,
            quantity: self.quantity as int,
        }
    }
}

/// An already-verified address, owned by the address collaborator; opaque to
/// this core.
#[derive(Debug)]
pub struct Address {}

/// Event of the larger workflow: an order was placed.  Produced by a later
/// stage, not by this pipeline.
#[derive(Debug)]
pub struct OrderPlaced {}

/// Event of the larger workflow: a billable order was placed.  This is the
/// variant the validation pipeline emits, and it carries the order it
/// validated.
#[derive(Debug)]
pub struct BillableOrderPlaced {
    pub order: ValidatedOrder,
}

impl View for BillableOrderPlaced {
    type V = OrderModel;

    open spec fn view(&self) -> OrderModel {
        self.order@
    }
}

/// Event of the larger workflow: an acknowledgment was sent.  Produced by a
/// later stage, not by this pipeline.
#[derive(Debug)]
pub struct OrderAcknowledgmentSent {}

/// An acknowledgment letter handle, owned by the acknowledgment collaborator.
pub struct OrderAcknowledgment {}

/// The closed sum of workflow outcomes; every consumer can match on it
/// exhaustively.
#[derive(Debug)]
pub enum PlaceOrderEvent {
    OrderPlaced(OrderPlaced),
    BillableOrderPlaced(BillableOrderPlaced),
    OrderAcknowledgmentSent(OrderAcknowledgmentSent),
}

/// A product code: non-empty; whether the product exists is a separate
/// runtime fact, established through the product existence port.
#[derive(Debug, Clone, PartialEq, Eq)]
pub struct ProductCode(String);

impl View for ProductCode {
    type V = Seq<char>;

    closed spec fn view(&self) -> Seq<char> {
        self.0@
    }
}

impl ProductCode {
    /// Checked factory: accepts any non-empty raw code and stores it
    /// unchanged; an empty code is rejected as `FieldEmpty`.
    pub fn new(code: String) -> (result: Result<Self, FieldError>)
        ensures
            id_ok(code@) ==> (result matches Ok(v) && v@ == code@),
            !id_ok(code@) ==> (result matches Err(e) && e == FieldError::FieldEmpty),
    {
        if code.as_str().is_empty() {
            Err(FieldError::FieldEmpty)
        } else {
            Ok(ProductCode(code))
        }
    }

    /// The stored code, unchanged since construction.
    pub fn value(&self) -> (result: &String)
        ensures
            result@ == self@,
    {
        &self.0
    }
}

/// A caller-assigned order identifier: non-empty, immutable once created.
#[derive(Debug)]
pub struct OrderId(String);

impl View for OrderId {
    type V = Seq<char>;

    closed spec fn view(&self) -> Seq<char> {
        self.0@
    }
}

impl OrderId {
    /// Checked factory: accepts any non-empty raw id and stores it
    /// unchanged; an empty id is rejected as `FieldEmpty`.
    pub fn new(id: String) -> (result: Result<Self, FieldError>)
        ensures
            id_ok(id@) ==> (result matches Ok(v) && v@ == id@),
            !id_ok(id@) ==> (result matches Err(e) && e == FieldError::FieldEmpty),
    {
        if id.as_str().is_empty() {
            Err(FieldError::FieldEmpty)
        } else {
            Ok(OrderId(id))
        }
    }

    /// The stored id, unchanged since construction.
    pub fn value(&self) -> (result: &String)
        ensures
            result@ == self@,
    {
        &self.0
    }
}

/// An order line identifier: non-empty.
#[derive(Debug)]
pub struct OrderLineId(String);

impl View for OrderLineId {
    type V = Seq<char>;

    closed spec fn view(&self) -> Seq<char> {
        self.0@
    }
}

impl OrderLineId {
    /// Checked factory: accepts any non-empty raw id and stores it
    /// unchanged; an empty id is rejected as `FieldEmpty`.
    pub fn new(id: String) -> (result: Result<Self, FieldError>)
        ensures
            id_ok(id@) ==> (result matches Ok(v) && v@ == id@),
            !id_ok(id@) ==> (result matches Err(e) && e == FieldError::FieldEmpty),
    {
        if id.as_str().is_empty() {
            Err(FieldError::FieldEmpty)
        } else {
            Ok(OrderLineId(id))
        }
    }

    /// The stored id, unchanged since construction.
    pub fn value(&self) -> (result: &String)
        ensures
            result@ == self@,
    {
        &self.0
    }
}

/// An order quantity: a strictly positive integer.
#[derive(Debug)]
pub struct OrderQuantity(i64);

impl View for OrderQuantity {
    type V = int;

    closed spec fn view(&self) -> int {
        self.0 as int
    }
}

impl OrderQuantity {
    /// Checked factory: accepts exactly the strictly positive quantities and
    /// stores them unchanged; zero and negative values are rejected as
    /// `NonPositiveQuantity`.
    pub fn new(quantity: i64) -> (result: Result<Self, FieldError>)
        ensures
            quantity_ok(quantity as int) ==> (result matches Ok(v) && v@ == quantity as int),
            !quantity_ok(quantity as int) ==> (result matches Err(e) && e
                == FieldError::NonPositiveQuantity),
    {
        if quantity <= 0 {
            Err(FieldError::NonPositiveQuantity)
        } else {
            Ok(OrderQuantity(quantity))
        }
    }

    /// The stored quantity, unchanged since construction.
    pub fn value(&self) -> (result: i64)
        ensures
            result as int == self@,
    {
        self.0
    }
}

} // verus!
