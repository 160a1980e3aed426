//! The validation pipeline: transforms one `UnvalidatedOrder` into one
//! `ValidatedOrder`, consulting a caller-supplied product existence port, and
//! wraps the result in a workflow event.
//!
//! The pipeline fails fast: the first violated rule aborts the call, and the
//! error names the order line and the rule so the caller can localize the
//! problem.  The port is injected as any `Fn(&ProductCode) -> Result<(),
//! PortError>`; the contracts speak about its replies through `call_ensures`,
//! so nothing is assumed about how existence is determined.  For a port that
//! is a fixed in-memory catalog, `place_order_with_catalog` pins the whole
//! outcome to the mathematical verdict function `validation_verdict`.

use crate::errors::{error_model, ErrorModel, FieldError, PortError, ValidationError};
use crate::public_types::{
    id_ok, quantity_ok, Address, BillableOrderPlaced, CustomerInfoModel, OrderId, OrderLineId,
    OrderLineModel, OrderModel, OrderQuantity, PlaceOrderEvent, ProductCode,
    UnvalidatedCustomerInfo, UnvalidatedOrder, UnvalidatedOrderLine, ValidatedCustomerInfo,
};
use crate::simple_types::{email_ok, string50_ok, EmailAddress, String50};
use vstd::prelude::*;

verus! {

// ---------------------------
// Validated model
// ---------------------------
/// An order line in which every field passed its constructor and the product
/// existence check passed.
#[derive(Debug)]
pub struct ValidatedOrderLine {
    order_line_id: OrderLineId,
    product_code: ProductCode,
    quantity: OrderQuantity,
}

impl View for ValidatedOrderLine {
    type V = OrderLineModel;

    closed spec fn view(&self) -> OrderLineModel {
        OrderLineModel {
            order_line_id: self.order_line_id@,
            product_code: self.product_code@,
            quantity: self.quantity@,
        }
    }
}

impl ValidatedOrderLine {
    /// Assembles validated components into a line.
    pub fn new(order_line_id: OrderLineId, product_code: ProductCode, quantity: OrderQuantity) -> (result:
        Self)
        ensures
            result@ == (OrderLineModel {
                order_line_id: order_line_id@,
                product_code: product_code@,
                quantity: quantity@,
            }),
    {
        Self { order_line_id, product_code, quantity }
    }

    /// The validated line identifier.
    pub fn order_line_id(&self) -> (result: &OrderLineId)
        ensures
            result@ == self@.order_line_id,
    {
        &self.order_line_id
    }

    /// The validated product code.
    pub fn product_code(&self) -> (result: &ProductCode)
        ensures
            result@ == self@.product_code,
    {
        &self.product_code
    }

    /// The validated quantity.
    pub fn quantity(&self) -> (result: &OrderQuantity)
        ensures
            result@ == self@.quantity,
    {
        &self.quantity
    }
}

/// An order that exists only because every contained field passed its
/// constructor, the product existence check passed for every line, and the
/// line list is non-empty.
#[derive(Debug)]
pub struct ValidatedOrder {
    order_id: OrderId,
    shipping_address: Address,
    billing_address: Address,
    lines: Vec<ValidatedOrderLine>,
}

impl View for ValidatedOrder {
    type V = OrderModel;

    closed spec fn view(&self) -> OrderModel {
        OrderModel {
            order_id: self.order_id@,
            lines: self.lines@.map_values(|line: ValidatedOrderLine| line@),
        }
    }
}

impl ValidatedOrder {
    /// Assembles validated components into an order; the line list must be
    /// non-empty, an order with zero lines is not a valid order.
    pub fn new(
        order_id: OrderId,
        shipping_address: Address,
        billing_address: Address,
        lines: Vec<ValidatedOrderLine>,
    ) -> (result: Self)
        requires
            lines@.len() > 0,
        ensures
            result@ == (OrderModel {
                order_id: order_id@,
                lines: lines@.map_values(|line: ValidatedOrderLine| line@),
            }),
    {
        Self { order_id, shipping_address, billing_address, lines }
    }

    /// The validated order identifier.
    pub fn order_id(&self) -> (result: &OrderId)
        ensures
            result@ == self@.order_id,
    {
        &self.order_id
    }

    /// The validated lines, in input order.
    pub fn lines(&self) -> (result: &Vec<ValidatedOrderLine>)
        ensures
            result@.len() == self@.lines.len(),
            forall|i: int| 0 <= i < result@.len() ==> result@[i]@ == self@.lines[i],
    {
        &self.lines
    }
}

// ---------------------------
// Customer info validation step
// ---------------------------
/// Every field of the customer info satisfies its rule.
pub open spec fn customer_ok(c: CustomerInfoModel) -> bool {
    string50_ok(c.first_name) && string50_ok(c.last_name) && email_ok(c.email_address)
}

/// The first violated rule of a customer info record, checking first name,
/// then last name, then email address.
pub open spec fn customer_reject_reason(c: CustomerInfoModel) -> FieldError {
    if !string50_ok(c.first_name) {
        FieldError::FieldTooLong
    } else if !string50_ok(c.last_name) {
        FieldError::FieldTooLong
    } else {
        FieldError::InvalidEmailFormat
    }
}

/// Validates one customer info record, field by field and fail-fast.
pub fn to_customer_info(unvalidated_customer_info: UnvalidatedCustomerInfo) -> (result: Result<
    ValidatedCustomerInfo,
    FieldError,
>)
    ensures
        ({
            let c = unvalidated_customer_info@;
            &&& customer_ok(c) ==> (result matches Ok(v) && v@ == c)
            &&& !customer_ok(c) ==> (result matches Err(e) && e == customer_reject_reason(c))
        }),
{
    let ghost c = unvalidated_customer_info@;
    let UnvalidatedCustomerInfo { first_name, last_name, email_address } =
        unvalidated_customer_info;
    let first_name = match String50::create(first_name) {
        Ok(v) => v,
        Err(e) => {
            return Err(e);
        },
    };
    let last_name = match String50::create(last_name) {
        Ok(v) => v,
        Err(e) => {
            return Err(e);
        },
    };
    let email_address = match EmailAddress::create(email_address) {
        Ok(v) => v,
        Err(e) => {
            return Err(e);
        },
    };
    let validated = ValidatedCustomerInfo::new(first_name, last_name, email_address);
    proof {
        assert(validated@ =~= c);
    }
    Ok(validated)
}

// ---------------------------
// The product existence port, seen through its replies
// ---------------------------
/// Some call of the port on this product code returned `Ok`: the port
/// acknowledged the product as existing.
pub open spec fn port_approves<F: Fn(&ProductCode) -> Result<(), PortError>>(
    check: F,
    code: Seq<char>,
) -> bool {
    exists|pc: &ProductCode, reply: Result<(), PortError>|
        pc@ == code && #[trigger] call_ensures(check, (pc,), reply) && reply is Ok
}

/// Some call of the port on this product code reported the product absent.
pub open spec fn port_denies<F: Fn(&ProductCode) -> Result<(), PortError>>(
    check: F,
    code: Seq<char>,
) -> bool {
    exists|pc: &ProductCode, reply: Result<(), PortError>|
        pc@ == code && #[trigger] call_ensures(check, (pc,), reply) && reply matches Err(
            PortError::NotFound,
        )
}

/// Some call of the port on this product code failed to answer.
pub open spec fn port_fails<F: Fn(&ProductCode) -> Result<(), PortError>>(
    check: F,
    code: Seq<char>,
) -> bool {
    exists|pc: &ProductCode, reply: Result<(), PortError>|
        pc@ == code && #[trigger] call_ensures(check, (pc,), reply) && reply matches Err(
            PortError::Unavailable,
        )
}

// ---------------------------
// Per-line and per-order rules
// ---------------------------
/// Both constrained fields of a line, beyond the product code, satisfy their
/// rules: non-empty line id and positive quantity.
pub open spec fn line_fields_ok(l: OrderLineModel) -> bool {
    id_ok(l.order_line_id) && quantity_ok(l.quantity)
}

/// The first violated rule of a line, in the order the pipeline checks:
/// product code non-emptiness, then line id, then quantity.
pub open spec fn line_reject_reason(l: OrderLineModel) -> FieldError {
    if !id_ok(l.product_code) {
        FieldError::FieldEmpty
    } else if !id_ok(l.order_line_id) {
        FieldError::FieldEmpty
    } else {
        FieldError::NonPositiveQuantity
    }
}

/// The line went through the whole per-line pipeline: non-empty product code,
/// port acknowledged it, and the remaining fields satisfy their rules.
pub open spec fn line_passes<F: Fn(&ProductCode) -> Result<(), PortError>>(
    check: F,
    l: OrderLineModel,
) -> bool {
    id_ok(l.product_code) && port_approves(check, l.product_code) && line_fields_ok(l)
}

/// Every line before index `i` went through the whole per-line pipeline.
pub open spec fn passes_before<F: Fn(&ProductCode) -> Result<(), PortError>>(
    check: F,
    lines: Seq<OrderLineModel>,
    i: int,
) -> bool {
    forall|j: int| 0 <= j < i ==> line_passes(check, #[trigger] lines[j])
}

/// The whole order passed: non-empty order id, at least one line, and every
/// line went through the per-line pipeline.
pub open spec fn order_passes<F: Fn(&ProductCode) -> Result<(), PortError>>(
    check: F,
    o: OrderModel,
) -> bool {
    id_ok(o.order_id) && o.lines.len() > 0 && passes_before(check, o.lines, o.lines.len() as int)
}

/// Index `i` is where the pipeline rejected the order because the port
/// reported the line's product absent: everything before passed, the code
/// itself is non-empty, and the port denied it.
pub open spec fn rejected_unknown_at<F: Fn(&ProductCode) -> Result<(), PortError>>(
    check: F,
    lines: Seq<OrderLineModel>,
    i: int,
) -> bool {
    &&& 0 <= i < lines.len()
    &&& passes_before(check, lines, i)
    &&& id_ok(lines[i].product_code)
    &&& port_denies(check, lines[i].product_code)
}

/// Index `i` is where the pipeline aborted because the port could not answer.
pub open spec fn rejected_port_at<F: Fn(&ProductCode) -> Result<(), PortError>>(
    check: F,
    lines: Seq<OrderLineModel>,
    i: int,
) -> bool {
    &&& 0 <= i < lines.len()
    &&& passes_before(check, lines, i)
    &&& id_ok(lines[i].product_code)
    &&& port_fails(check, lines[i].product_code)
}

/// Index `i` is where the pipeline rejected the order for a structural line
/// failure: either the product code was empty (the port is never consulted),
/// or the port acknowledged the code and a later field was invalid.
pub open spec fn rejected_line_at<F: Fn(&ProductCode) -> Result<(), PortError>>(
    check: F,
    lines: Seq<OrderLineModel>,
    i: int,
) -> bool {
    &&& 0 <= i < lines.len()
    &&& passes_before(check, lines, i)
    &&& (!id_ok(lines[i].product_code) || (port_approves(check, lines[i].product_code)
        && !line_fields_ok(lines[i])))
}

/// Every rejection the pipeline can return, each tied to the exact state of
/// the order and the port replies that justify it.
pub open spec fn rejection_justified<F: Fn(&ProductCode) -> Result<(), PortError>>(
    check: F,
    o: OrderModel,
    e: ValidationError,
) -> bool {
    match e {
        ValidationError::InvalidOrderId => !id_ok(o.order_id),
        ValidationError::EmptyOrder => id_ok(o.order_id) && o.lines.len() == 0,
        ValidationError::UnknownProduct(code) => exists|i: int|
            #[trigger] rejected_unknown_at(check, o.lines, i) && code@ == o.lines[i].product_code,
        ValidationError::PortUnavailable => exists|i: int|
            #[trigger] rejected_port_at(check, o.lines, i),
        ValidationError::InvalidOrderLine { line_id, reason } => exists|i: int|
            #[trigger] rejected_line_at(check, o.lines, i) && line_id@
                == o.lines[i].order_line_id && reason == line_reject_reason(o.lines[i]),
    }
}

// ---------------------------
// ValidateOrder step
// ---------------------------
/// Validates one order line: constructs the product code, consults the
/// product existence port, then constructs the remaining fields, fail-fast.
pub fn to_validated_order_line<F: Fn(&ProductCode) -> Result<(), PortError> + Copy>(
    check_product_exists: F,
    unvalidated_order_line: &UnvalidatedOrderLine,
) -> (result: Result<ValidatedOrderLine, ValidationError>)
    requires
        forall|pc: &ProductCode| #[trigger] call_requires(check_product_exists, (pc,)),
    ensures
        ({
            let l = unvalidated_order_line@;
            &&& (result matches Ok(v) ==> v@ == l && line_passes(check_product_exists, l))
            &&& (!id_ok(l.product_code) ==> (result matches Err(e) && e
                matches ValidationError::InvalidOrderLine { line_id, reason } && line_id@
                == l.order_line_id && reason == FieldError::FieldEmpty))
            &&& (result matches Err(e) ==> match e {
                ValidationError::UnknownProduct(code) => id_ok(l.product_code) && port_denies(
                    check_product_exists,
                    l.product_code,
                ) && code@ == l.product_code,
                ValidationError::PortUnavailable => id_ok(l.product_code) && port_fails(
                    check_product_exists,
                    l.product_code,
                ),
                ValidationError::InvalidOrderLine { line_id, reason } => {
                    &&& line_id@ == l.order_line_id
                    &&& reason == line_reject_reason(l)
                    &&& (!id_ok(l.product_code) || (port_approves(
                        check_product_exists,
                        l.product_code,
                    ) && !line_fields_ok(l)))
                },
                _ => false,
            })
        }),
{
    let ghost l = unvalidated_order_line@;
    let product_code = match ProductCode::new(unvalidated_order_line.product_code.clone()) {
        Ok(pc) => pc,
        Err(_) => {
            return Err(
                ValidationError::InvalidOrderLine {
                    line_id: unvalidated_order_line.order_line_id.clone(),
                    reason: FieldError::FieldEmpty,
                },
            );
        },
    };
    let port_reply = check_product_exists(&product_code);
    proof {
        assert(call_ensures(check_product_exists, (&product_code,), port_reply));
    }
    match port_reply {
        Ok(()) => {},
        Err(PortError::NotFound) => {
            return Err(ValidationError::UnknownProduct(unvalidated_order_line.product_code.clone()));
        },
        Err(PortError::Unavailable) => {
            return Err(ValidationError::PortUnavailable);
        },
    }
    let order_line_id = match OrderLineId::new(unvalidated_order_line.order_line_id.clone()) {
        Ok(v) => v,
        Err(reason) => {
            return Err(
                ValidationError::InvalidOrderLine {
                    line_id: unvalidated_order_line.order_line_id.clone(),
                    reason,
                },
            );
        },
    };
    let quantity = match OrderQuantity::new(unvalidated_order_line.quantity) {
        Ok(v) => v,
        Err(reason) => {
            return Err(
                ValidationError::InvalidOrderLine {
                    line_id: unvalidated_order_line.order_line_id.clone(),
                    reason,
                },
            );
        },
    };
    let validated = ValidatedOrderLine::new(order_line_id, product_code, quantity);
    proof {
        assert(validated@ =~= l);
    }
    Ok(validated)
}

/// Validates a whole order against the injected product existence port:
/// order id first, then the non-emptiness of the line list, then each line in
/// input order, fail-fast.
pub fn validate_order<F: Fn(&ProductCode) -> Result<(), PortError> + Copy>(
    check_product_exists: F,
    unvalidated_order: UnvalidatedOrder,
) -> (result: Result<ValidatedOrder, ValidationError>)
    requires
        forall|pc: &ProductCode| #[trigger] call_requires(check_product_exists, (pc,)),
    ensures
        ({
            let o = unvalidated_order@;
            &&& (result matches Ok(v) ==> v@ == o && order_passes(check_product_exists, o))
            &&& (result matches Err(e) ==> rejection_justified(check_product_exists, o, e))
            &&& (!id_ok(o.order_id) ==> result matches Err(ValidationError::InvalidOrderId))
            &&& (id_ok(o.order_id) && o.lines.len() == 0 ==> result matches Err(
                ValidationError::EmptyOrder,
            ))
        }),
{
    let ghost o = unvalidated_order@;
    let UnvalidatedOrder { order_id, lines } = unvalidated_order;
    let order_id = match OrderId::new(order_id) {
        Ok(v) => v,
        Err(_) => {
            return Err(ValidationError::InvalidOrderId);
        },
    };
    if lines.len() == 0 {
        return Err(ValidationError::EmptyOrder);
    }
    let shipping_address = Address {  };
    let billing_address = Address {  };
    let n = lines.len();
    let mut validated: Vec<ValidatedOrderLine> = Vec::new();
    let mut i: usize = 0;
    while i < n
        invariant
            o == unvalidated_order@,
            forall|pc: &ProductCode| #[trigger] call_requires(check_product_exists, (pc,)),
            n == lines.len(),
            0 < n,
            i <= n,
            id_ok(o.order_id),
            order_id@ == o.order_id,
            o.lines.len() == n,
            forall|j: int| 0 <= j < n ==> lines@[j]@ == o.lines[j],
            validated.len() == i,
            forall|j: int| 0 <= j < i ==> line_passes(check_product_exists, #[trigger] o.lines[j]),
            forall|j: int| 0 <= j < i ==> validated@[j]@ == o.lines[j],
        decreases n - i,
    {
        let line = &lines[i];
        match to_validated_order_line(check_product_exists, line) {
            Ok(v) => {
                validated.push(v);
            },
            Err(e) => {
                proof {
                    assert(passes_before(check_product_exists, o.lines, i as int));
                    match e {
                        ValidationError::UnknownProduct(_) => {
                            assert(rejected_unknown_at(check_product_exists, o.lines, i as int));
                        },
                        ValidationError::PortUnavailable => {
                            assert(rejected_port_at(check_product_exists, o.lines, i as int));
                        },
                        ValidationError::InvalidOrderLine { .. } => {
                            assert(rejected_line_at(check_product_exists, o.lines, i as int));
                        },
                        _ => {
                            assert(false);
                        },
                    }
                }
                return Err(e);
            },
        }
        i += 1;
    }
    let validated_order = ValidatedOrder::new(order_id, shipping_address, billing_address, validated);
    proof {
        assert(validated_order@.lines =~= o.lines);
        assert(validated_order@ =~= o);
    }
    Ok(validated_order)
}

/// The single inbound operation: validates the order and, on success, emits
/// the `BillableOrderPlaced` event carrying the validated order.
pub fn place_order<F: Fn(&ProductCode) -> Result<(), PortError> + Copy>(
    check_product_exists: F,
    unvalidated_order: UnvalidatedOrder,
) -> (result: Result<PlaceOrderEvent, ValidationError>)
    requires
        forall|pc: &ProductCode| #[trigger] call_requires(check_product_exists, (pc,)),
    ensures
        ({
            let o = unvalidated_order@;
            &&& (result matches Ok(ev) ==> (ev matches PlaceOrderEvent::BillableOrderPlaced(b)
                && b@ == o && order_passes(check_product_exists, o)))
            &&& (result matches Err(e) ==> rejection_justified(check_product_exists, o, e))
            &&& (!id_ok(o.order_id) ==> result matches Err(ValidationError::InvalidOrderId))
            &&& (id_ok(o.order_id) && o.lines.len() == 0 ==> result matches Err(
                ValidationError::EmptyOrder,
            ))
        }),
{
    match validate_order(check_product_exists, unvalidated_order) {
        Ok(validated_order) => Ok(
            PlaceOrderEvent::BillableOrderPlaced(BillableOrderPlaced { order: validated_order }),
        ),
        Err(e) => Err(e),
    }
}

// ---------------------------
// The pipeline over an in-memory catalog port
// ---------------------------
// For a port that is a fixed set of product codes the whole outcome is a
// mathematical function of the order and the catalog, stated by
// `validation_verdict` and pinned by the contracts below.
/// The set of product codes a catalog holds.
pub open spec fn catalog_present(catalog: Seq<String>) -> Set<Seq<char>> {
    Set::new(|code: Seq<char>| exists|i: int| 0 <= i < catalog.len() && catalog[i]@ == code)
}

/// The line is accepted against a catalog: non-empty product code that the
/// catalog holds, and the remaining fields satisfy their rules.
pub open spec fn line_accepted(l: OrderLineModel, present: Set<Seq<char>>) -> bool {
    id_ok(l.product_code) && present.contains(l.product_code) && line_fields_ok(l)
}

/// The rejection a catalog-checked pipeline reports for a line it does not
/// accept, following the per-line check order: product code non-emptiness,
/// then existence, then line id, then quantity.
pub open spec fn line_rejection(l: OrderLineModel, present: Set<Seq<char>>) -> ErrorModel {
    if !id_ok(l.product_code) {
        ErrorModel::InvalidOrderLine {
            order_line_id: l.order_line_id,
            reason: FieldError::FieldEmpty,
        }
    } else if !present.contains(l.product_code) {
        ErrorModel::UnknownProduct { product_code: l.product_code }
    } else {
        ErrorModel::InvalidOrderLine {
            order_line_id: l.order_line_id,
            reason: line_reject_reason(l),
        }
    }
}

/// Index of the first line not accepted against the catalog, or the length of
/// the line list if every line is accepted.
pub open spec fn first_rejected_line(lines: Seq<OrderLineModel>, present: Set<Seq<char>>) -> int
    decreases lines.len(),
{
    if lines.len() == 0 {
        0
    } else if !line_accepted(lines[0], present) {
        0
    } else {
        1 + first_rejected_line(lines.drop_first(), present)
    }
}

/// What `first_rejected_line` returns: the first index whose line the catalog
/// does not accept, with everything before it accepted.
pub proof fn lemma_first_rejected_line(lines: Seq<OrderLineModel>, present: Set<Seq<char>>)
    ensures
        ({
            let k = first_rejected_line(lines, present);
            &&& 0 <= k <= lines.len()
            &&& forall|j: int| 0 <= j < k ==> line_accepted(#[trigger] lines[j], present)
            &&& (k < lines.len() ==> !line_accepted(lines[k], present))
        }),
    decreases lines.len(),
{
    if lines.len() == 0 {
    } else if !line_accepted(lines[0], present) {
    } else {
        lemma_first_rejected_line(lines.drop_first(), present);
        let k0 = first_rejected_line(lines.drop_first(), present);
        assert forall|j: int| 0 <= j < k0 + 1 implies line_accepted(
            #[trigger] lines[j],
            present,
        ) by {
            if j > 0 {
                assert(lines.drop_first()[j - 1] == lines[j]);
            }
        }
        if k0 < lines.drop_first().len() {
            assert(lines.drop_first()[k0] == lines[k0 + 1]);
        }
    }
}

/// The outcome of validating one order against one catalog.
#[verifier::ext_equal]
pub enum VerdictModel {
    Accepted,
    Rejected(ErrorModel),
}

/// The mathematical semantics of the pipeline over a catalog port: order id
/// first, then the non-emptiness of the line list, then the lines in input
/// order, fail-fast.
pub open spec fn validation_verdict(o: OrderModel, present: Set<Seq<char>>) -> VerdictModel {
    if !id_ok(o.order_id) {
        VerdictModel::Rejected(ErrorModel::InvalidOrderId)
    } else if o.lines.len() == 0 {
        VerdictModel::Rejected(ErrorModel::EmptyOrder)
    } else {
        let k = first_rejected_line(o.lines, present);
        if k == o.lines.len() {
            VerdictModel::Accepted
        } else {
            VerdictModel::Rejected(line_rejection(o.lines[k], present))
        }
    }
}

/// The contract of `validate_order_with_catalog`: the result is exactly what
/// the verdict says, and an accepted order is returned with its content
/// unchanged.
pub open spec fn validate_catalog_post(
    o: OrderModel,
    present: Set<Seq<char>>,
    result: Result<ValidatedOrder, ValidationError>,
) -> bool {
    match validation_verdict(o, present) {
        VerdictModel::Accepted => result matches Ok(v) && v@ == o,
        VerdictModel::Rejected(em) => result matches Err(e) && error_model(e) == em,
    }
}

/// The contract of `place_order_with_catalog`: on acceptance, the
/// `BillableOrderPlaced` event carrying exactly the validated order; on
/// rejection, exactly the verdict's error.
pub open spec fn place_order_catalog_post(
    o: OrderModel,
    present: Set<Seq<char>>,
    result: Result<PlaceOrderEvent, ValidationError>,
) -> bool {
    match validation_verdict(o, present) {
        VerdictModel::Accepted => result matches Ok(ev) && ev
            matches PlaceOrderEvent::BillableOrderPlaced(b) && b@ == o,
        VerdictModel::Rejected(em) => result matches Err(e) && error_model(e) == em,
    }
}

/// Whether the catalog holds this product code.
fn catalog_contains(catalog: &Vec<String>, code: &String) -> (found: bool)
    ensures
        found == catalog_present(catalog@).contains(code@),
{
    let n = catalog.len();
    let mut k: usize = 0;
    while k < n
        invariant
            k <= n,
            n == catalog.len(),
            forall|j: int| 0 <= j < k ==> catalog@[j]@ != code@,
        decreases n - k,
    {
        if catalog[k] == *code {
            return true;
        }
        k += 1;
    }
    false
}

/// Validates one order line against an in-memory catalog of product codes;
/// the same per-line pipeline as `to_validated_order_line`, with the
/// existence check answered by the catalog.
pub fn validate_line_with_catalog(
    catalog: &Vec<String>,
    unvalidated_order_line: &UnvalidatedOrderLine,
) -> (result: Result<ValidatedOrderLine, ValidationError>)
    ensures
        ({
            let l = unvalidated_order_line@;
            let present = catalog_present(catalog@);
            &&& line_accepted(l, present) ==> (result matches Ok(v) && v@ == l)
            &&& !line_accepted(l, present) ==> (result matches Err(e) && error_model(e)
                == line_rejection(l, present))
        }),
{
    let ghost l = unvalidated_order_line@;
    let product_code = match ProductCode::new(unvalidated_order_line.product_code.clone()) {
        Ok(pc) => pc,
        Err(_) => {
            return Err(
                ValidationError::InvalidOrderLine {
                    line_id: unvalidated_order_line.order_line_id.clone(),
                    reason: FieldError::FieldEmpty,
                },
            );
        },
    };
    if !catalog_contains(catalog, &unvalidated_order_line.product_code) {
        return Err(ValidationError::UnknownProduct(unvalidated_order_line.product_code.clone()));
    }
    let order_line_id = match OrderLineId::new(unvalidated_order_line.order_line_id.clone()) {
        Ok(v) => v,
        Err(reason) => {
            return Err(
                ValidationError::InvalidOrderLine {
                    line_id: unvalidated_order_line.order_line_id.clone(),
                    reason,
                },
            );
        },
    };
    let quantity = match OrderQuantity::new(unvalidated_order_line.quantity) {
        Ok(v) => v,
        Err(reason) => {
            return Err(
                ValidationError::InvalidOrderLine {
                    line_id: unvalidated_order_line.order_line_id.clone(),
                    reason,
                },
            );
        },
    };
    let validated = ValidatedOrderLine::new(order_line_id, product_code, quantity);
    proof {
        assert(validated@ =~= l);
    }
    Ok(validated)
}

/// Validates a whole order against an in-memory catalog; the result is
/// exactly `validation_verdict` of the order and the catalog.
pub fn validate_order_with_catalog(catalog: &Vec<String>, unvalidated_order: UnvalidatedOrder) -> (result: Result<
    ValidatedOrder,
    ValidationError,
>)
    ensures
        validate_catalog_post(unvalidated_order@, catalog_present(catalog@), result),
{
    let ghost o = unvalidated_order@;
    let ghost present = catalog_present(catalog@);
    let UnvalidatedOrder { order_id, lines } = unvalidated_order;
    let order_id = match OrderId::new(order_id) {
        Ok(v) => v,
        Err(_) => {
            return Err(ValidationError::InvalidOrderId);
        },
    };
    if lines.len() == 0 {
        return Err(ValidationError::EmptyOrder);
    }
    let shipping_address = Address {  };
    let billing_address = Address {  };
    let n = lines.len();
    let mut validated: Vec<ValidatedOrderLine> = Vec::new();
    let mut i: usize = 0;
    while i < n
        invariant
            o == unvalidated_order@,
            present == catalog_present(catalog@),
            n == lines.len(),
            0 < n,
            i <= n,
            id_ok(o.order_id),
            order_id@ == o.order_id,
            o.lines.len() == n,
            forall|j: int| 0 <= j < n ==> lines@[j]@ == o.lines[j],
            validated.len() == i,
            forall|j: int| 0 <= j < i ==> line_accepted(#[trigger] o.lines[j], present),
            forall|j: int| 0 <= j < i ==> validated@[j]@ == o.lines[j],
        decreases n - i,
    {
        let line = &lines[i];
        match validate_line_with_catalog(catalog, line) {
            Ok(v) => {
                validated.push(v);
            },
            Err(e) => {
                proof {
                    lemma_first_rejected_line(o.lines, present);
                    let k = first_rejected_line(o.lines, present);
                    if k < i {
                        assert(line_accepted(o.lines[k], present));
                        assert(false);
                    }
                    if k > i {
                        assert(line_accepted(o.lines[i as int], present));
                        assert(false);
                    }
                }
                return Err(e);
            },
        }
        i += 1;
    }
    proof {
        lemma_first_rejected_line(o.lines, present);
        let k = first_rejected_line(o.lines, present);
        if k < n {
            assert(line_accepted(o.lines[k], present));
            assert(false);
        }
    }
    let validated_order = ValidatedOrder::new(order_id, shipping_address, billing_address, validated);
    proof {
        assert(validated_order@.lines =~= o.lines);
        assert(validated_order@ =~= o);
    }
    Ok(validated_order)
}

/// Places an order against an in-memory catalog; the outcome is exactly
/// `validation_verdict` of the order and the catalog, so it is a pure
/// function of the two.
pub fn place_order_with_catalog(catalog: &Vec<String>, unvalidated_order: UnvalidatedOrder) -> (result: Result<
    PlaceOrderEvent,
    ValidationError,
>)
    ensures
        place_order_catalog_post(unvalidated_order@, catalog_present(catalog@), result),
{
    match validate_order_with_catalog(catalog, unvalidated_order) {
        Ok(validated_order) => Ok(
            PlaceOrderEvent::BillableOrderPlaced(BillableOrderPlaced { order: validated_order }),
        ),
        Err(e) => Err(e),
    }
}

/// The two outcomes agree: both accepted with the same validated order, or
/// both rejected for the same reason.
pub open spec fn same_outcome(
    r1: Result<PlaceOrderEvent, ValidationError>,
    r2: Result<PlaceOrderEvent, ValidationError>,
) -> bool {
    match (r1, r2) {
        (
            Ok(PlaceOrderEvent::BillableOrderPlaced(b1)),
            Ok(PlaceOrderEvent::BillableOrderPlaced(b2)),
        ) => b1@ == b2@,
        (Err(e1), Err(e2)) => error_model(e1) == error_model(e2),
        _ => false,
    }
}

/// Validation is idempotent: placing the same order twice against the same
/// catalog state yields the same outcome, because each outcome is pinned to
/// the verdict, a mathematical function of order and catalog alone.
pub proof fn lemma_validation_idempotent(
    o: OrderModel,
    present: Set<Seq<char>>,
    r1: Result<PlaceOrderEvent, ValidationError>,
    r2: Result<PlaceOrderEvent, ValidationError>,
)
    requires
        place_order_catalog_post(o, present, r1),
        place_order_catalog_post(o, present, r2),
    ensures
        same_outcome(r1, r2),
{
}

} // verus!
