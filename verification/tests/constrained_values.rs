use order_taking::errors::FieldError;
use order_taking::public_types::{OrderId, OrderLineId, OrderQuantity, ProductCode};
use order_taking::simple_types::{EmailAddress, String50};

#[test]
fn string50_accepts_up_to_fifty_chars_and_keeps_the_value() {
    let raw = "a".repeat(50);
    let value = String50::create(raw.clone()).unwrap();
    assert_eq!(value.value().as_str(), raw.as_str());

    let short = String50::create("Nadia".to_string()).unwrap();
    assert_eq!(short.value().as_str(), "Nadia");

    let empty = String50::create(String::new()).unwrap();
    assert_eq!(empty.value().as_str(), "");
}

#[test]
fn string50_rejects_fifty_one_chars_as_too_long() {
    let raw = "a".repeat(51);
    let result = String50::create(raw);
    assert!(matches!(result, Err(FieldError::FieldTooLong)));
}

#[test]
fn email_accepts_a_single_at_with_non_empty_parts() {
    let email = EmailAddress::create("user@example.com".to_string()).unwrap();
    assert_eq!(email.value().as_str(), "user@example.com");

    let tiny = EmailAddress::create("a@b".to_string()).unwrap();
    assert_eq!(tiny.value().as_str(), "a@b");
}

#[test]
fn email_rejects_a_string_without_at() {
    let result = EmailAddress::create("no-at-symbol".to_string());
    assert!(matches!(result, Err(FieldError::InvalidEmailFormat)));
}

#[test]
fn email_rejects_empty_local_or_domain_part() {
    assert!(matches!(
        EmailAddress::create("@example.com".to_string()),
        Err(FieldError::InvalidEmailFormat)
    ));
    assert!(matches!(
        EmailAddress::create("user@".to_string()),
        Err(FieldError::InvalidEmailFormat)
    ));
    assert!(matches!(
        EmailAddress::create("@".to_string()),
        Err(FieldError::InvalidEmailFormat)
    ));
}

#[test]
fn email_rejects_more_than_one_at() {
    let result = EmailAddress::create("a@b@c".to_string());
    assert!(matches!(result, Err(FieldError::InvalidEmailFormat)));
}

#[test]
fn quantity_accepts_positive_integers_and_keeps_the_value() {
    let one = OrderQuantity::new(1).unwrap();
    assert_eq!(one.value(), 1);
    let large = OrderQuantity::new(1_000_000).unwrap();
    assert_eq!(large.value(), 1_000_000);
}

#[test]
fn quantity_rejects_zero_and_negatives_as_non_positive() {
    assert!(matches!(
        OrderQuantity::new(0),
        Err(FieldError::NonPositiveQuantity)
    ));
    assert!(matches!(
        OrderQuantity::new(-5),
        Err(FieldError::NonPositiveQuantity)
    ));
}

#[test]
fn identifiers_accept_non_empty_and_reject_empty() {
    let order_id = OrderId::new("ORD-1".to_string()).unwrap();
    assert_eq!(order_id.value().as_str(), "ORD-1");
    assert!(matches!(
        OrderId::new(String::new()),
        Err(FieldError::FieldEmpty)
    ));

    let line_id = OrderLineId::new("L1".to_string()).unwrap();
    assert_eq!(line_id.value().as_str(), "L1");
    assert!(matches!(
        OrderLineId::new(String::new()),
        Err(FieldError::FieldEmpty)
    ));

    let code = ProductCode::new("P1".to_string()).unwrap();
    assert_eq!(code.value().as_str(), "P1");
    assert!(matches!(
        ProductCode::new(String::new()),
        Err(FieldError::FieldEmpty)
    ));
}
