use std::sync::Arc;

use order_taking::errors::{FieldError, PortError, ValidationError};
use order_taking::implementation::{place_order, place_order_with_catalog, validate_order};
use order_taking::public_types::{
    PlaceOrderEvent, ProductCode, UnvalidatedOrder, UnvalidatedOrderLine,
};

#[test]
fn it_works() {
    let our_code = ProductCode::new("fake-code".into()).unwrap();
    let product_ids = Arc::new(vec![our_code]);

    let check_product_exists = |code: &ProductCode| {
        if product_ids.contains(code) {
            return Ok(());
        }
        return Err(PortError::NotFound);
    };
    let unvalidated_order_line = UnvalidatedOrderLine {
        order_line_id: "fake-line-id".into(),
        product_code: "fake-code".into(),
        quantity: 5,
    };
    let unvalidated_order = UnvalidatedOrder {
        order_id: "some_id".into(),
        lines: vec![unvalidated_order_line],
    };

    let _result = place_order(check_product_exists, unvalidated_order).unwrap();
}

#[test]
fn one_known_line_yields_a_billable_order() {
    let catalog = vec!["P1".to_string()];
    let order = UnvalidatedOrder {
        order_id: "ORD-1".to_string(),
        lines: vec![UnvalidatedOrderLine {
            order_line_id: "L1".to_string(),
            product_code: "P1".to_string(),
            quantity: 5,
        }],
    };
    let event = place_order_with_catalog(&catalog, order).unwrap();
    match event {
        PlaceOrderEvent::BillableOrderPlaced(billable) => {
            assert_eq!(billable.order.order_id().value().as_str(), "ORD-1");
            let lines = billable.order.lines();
            assert_eq!(lines.len(), 1);
            assert_eq!(lines[0].order_line_id().value().as_str(), "L1");
            assert_eq!(lines[0].product_code().value().as_str(), "P1");
            assert_eq!(lines[0].quantity().value(), 5);
        }
        _ => panic!("expected a billable order"),
    }
}

#[test]
fn one_known_line_yields_a_billable_order_through_a_closure_port() {
    let catalog = vec!["P1".to_string()];
    let check = |code: &ProductCode| {
        if catalog.contains(code.value()) {
            Ok(())
        } else {
            Err(PortError::NotFound)
        }
    };
    let order = UnvalidatedOrder {
        order_id: "ORD-1".to_string(),
        lines: vec![UnvalidatedOrderLine {
            order_line_id: "L1".to_string(),
            product_code: "P1".to_string(),
            quantity: 5,
        }],
    };
    let event = place_order(check, order).unwrap();
    assert!(matches!(event, PlaceOrderEvent::BillableOrderPlaced(_)));
}

#[test]
fn an_absent_product_fails_with_unknown_product() {
    let catalog: Vec<String> = vec![];
    let order = UnvalidatedOrder {
        order_id: "ORD-1".to_string(),
        lines: vec![UnvalidatedOrderLine {
            order_line_id: "L1".to_string(),
            product_code: "P1".to_string(),
            quantity: 5,
        }],
    };
    let result = place_order_with_catalog(&catalog, order);
    assert!(
        matches!(result, Err(ValidationError::UnknownProduct(code)) if code.as_str() == "P1")
    );
}

#[test]
fn an_order_with_zero_lines_fails_with_empty_order() {
    let catalog = vec!["P1".to_string()];
    let order = UnvalidatedOrder {
        order_id: "ORD-1".to_string(),
        lines: vec![],
    };
    let result = place_order_with_catalog(&catalog, order);
    assert!(matches!(result, Err(ValidationError::EmptyOrder)));
}

#[test]
fn a_zero_quantity_fails_attributed_to_the_line_id() {
    let catalog = vec!["P1".to_string()];
    let order = UnvalidatedOrder {
        order_id: "ORD-1".to_string(),
        lines: vec![UnvalidatedOrderLine {
            order_line_id: "L1".to_string(),
            product_code: "P1".to_string(),
            quantity: 0,
        }],
    };
    let result = place_order_with_catalog(&catalog, order);
    assert!(matches!(
        result,
        Err(ValidationError::InvalidOrderLine { line_id, reason })
            if line_id.as_str() == "L1" && reason == FieldError::NonPositiveQuantity
    ));
}

#[test]
fn an_empty_order_id_fails_with_invalid_order_id() {
    let catalog = vec!["P1".to_string()];
    let order = UnvalidatedOrder {
        order_id: String::new(),
        lines: vec![UnvalidatedOrderLine {
            order_line_id: "L1".to_string(),
            product_code: "P1".to_string(),
            quantity: 5,
        }],
    };
    let result = place_order_with_catalog(&catalog, order);
    assert!(matches!(result, Err(ValidationError::InvalidOrderId)));
}

#[test]
fn an_empty_order_id_outranks_an_empty_line_list() {
    let catalog: Vec<String> = vec![];
    let order = UnvalidatedOrder {
        order_id: String::new(),
        lines: vec![],
    };
    let result = place_order_with_catalog(&catalog, order);
    assert!(matches!(result, Err(ValidationError::InvalidOrderId)));
}

#[test]
fn an_empty_line_id_fails_with_field_empty() {
    let catalog = vec!["P1".to_string()];
    let order = UnvalidatedOrder {
        order_id: "ORD-1".to_string(),
        lines: vec![UnvalidatedOrderLine {
            order_line_id: String::new(),
            product_code: "P1".to_string(),
            quantity: 5,
        }],
    };
    let result = place_order_with_catalog(&catalog, order);
    assert!(matches!(
        result,
        Err(ValidationError::InvalidOrderLine { line_id, reason })
            if line_id.is_empty() && reason == FieldError::FieldEmpty
    ));
}

#[test]
fn an_empty_product_code_fails_before_the_port_is_asked() {
    // the catalog is irrelevant: an empty code never reaches it
    let catalog: Vec<String> = vec![];
    let order = UnvalidatedOrder {
        order_id: "ORD-1".to_string(),
        lines: vec![UnvalidatedOrderLine {
            order_line_id: "L1".to_string(),
            product_code: String::new(),
            quantity: 5,
        }],
    };
    let result = place_order_with_catalog(&catalog, order);
    assert!(matches!(
        result,
        Err(ValidationError::InvalidOrderLine { line_id, reason })
            if line_id.as_str() == "L1" && reason == FieldError::FieldEmpty
    ));
}

#[test]
fn an_unknown_product_outranks_a_bad_quantity_on_the_same_line() {
    let catalog: Vec<String> = vec![];
    let order = UnvalidatedOrder {
        order_id: "ORD-1".to_string(),
        lines: vec![UnvalidatedOrderLine {
            order_line_id: "L1".to_string(),
            product_code: "P1".to_string(),
            quantity: 0,
        }],
    };
    let result = place_order_with_catalog(&catalog, order);
    assert!(
        matches!(result, Err(ValidationError::UnknownProduct(code)) if code.as_str() == "P1")
    );
}

#[test]
fn the_first_failing_line_decides_the_error() {
    let catalog = vec!["P1".to_string()];
    let order = UnvalidatedOrder {
        order_id: "ORD-1".to_string(),
        lines: vec![
            UnvalidatedOrderLine {
                order_line_id: "L1".to_string(),
                product_code: "P1".to_string(),
                quantity: 0,
            },
            UnvalidatedOrderLine {
                order_line_id: "L2".to_string(),
                product_code: "P2".to_string(),
                quantity: 5,
            },
        ],
    };
    let result = place_order_with_catalog(&catalog, order);
    assert!(matches!(
        result,
        Err(ValidationError::InvalidOrderLine { line_id, reason })
            if line_id.as_str() == "L1" && reason == FieldError::NonPositiveQuantity
    ));
}

#[test]
fn an_unavailable_port_fails_with_port_unavailable() {
    let check = |_code: &ProductCode| -> Result<(), PortError> { Err(PortError::Unavailable) };
    let order = UnvalidatedOrder {
        order_id: "ORD-1".to_string(),
        lines: vec![UnvalidatedOrderLine {
            order_line_id: "L1".to_string(),
            product_code: "P1".to_string(),
            quantity: 5,
        }],
    };
    let result = validate_order(check, order);
    assert!(matches!(result, Err(ValidationError::PortUnavailable)));
}

#[test]
fn validating_twice_with_the_same_catalog_yields_the_same_outcome() {
    let catalog = vec!["P1".to_string()];
    let make_order = || UnvalidatedOrder {
        order_id: "ORD-1".to_string(),
        lines: vec![UnvalidatedOrderLine {
            order_line_id: "L1".to_string(),
            product_code: "P1".to_string(),
            quantity: 5,
        }],
    };
    let first = place_order_with_catalog(&catalog, make_order());
    let second = place_order_with_catalog(&catalog, make_order());
    match (first, second) {
        (
            Ok(PlaceOrderEvent::BillableOrderPlaced(b1)),
            Ok(PlaceOrderEvent::BillableOrderPlaced(b2)),
        ) => {
            assert_eq!(
                b1.order.order_id().value().as_str(),
                b2.order.order_id().value().as_str()
            );
            assert_eq!(b1.order.lines().len(), b2.order.lines().len());
        }
        _ => panic!("both runs must accept the order"),
    }

    let bad_order = || UnvalidatedOrder {
        order_id: "ORD-1".to_string(),
        lines: vec![UnvalidatedOrderLine {
            order_line_id: "L1".to_string(),
            product_code: "P9".to_string(),
            quantity: 5,
        }],
    };
    let first = place_order_with_catalog(&catalog, bad_order());
    let second = place_order_with_catalog(&catalog, bad_order());
    assert_eq!(first.unwrap_err(), second.unwrap_err());
}
