use basket_validation::schema::{
    BasketRequest, MIN_QUANTITY, QUANTITY_FIELD, QUANTITY_MESSAGE, RANGE_CODE,
};
use basket_validation::validation::Violation;
use validator::ValidateRange;

fn request(item_id: u32, quantity: i32) -> BasketRequest {
    BasketRequest { item_id, quantity }
}

fn expected_violation() -> Violation {
    Violation { field: "quantity", code: "range", message: "Quantity must be at least 1" }
}

#[test]
fn schema_constants_have_their_documented_values() {
    assert_eq!(MIN_QUANTITY, 1);
    assert_eq!(QUANTITY_FIELD, "quantity");
    assert_eq!(RANGE_CODE, "range");
    assert_eq!(QUANTITY_MESSAGE, "Quantity must be at least 1");
}

#[test]
fn validate_accepts_quantity_one() {
    assert_eq!(request(1, 1).validate(), Ok(()));
}

#[test]
fn validate_accepts_quantity_five() {
    assert_eq!(request(42, 5).validate(), Ok(()));
}

#[test]
fn validate_accepts_largest_quantity() {
    assert_eq!(request(0, i32::MAX).validate(), Ok(()));
}

#[test]
fn validate_rejects_quantity_zero() {
    assert_eq!(request(42, 0).validate(), Err(vec![expected_violation()]));
}

#[test]
fn validate_rejects_negative_quantity() {
    assert_eq!(request(42, -3).validate(), Err(vec![expected_violation()]));
    assert_eq!(request(42, -5).validate(), Err(vec![expected_violation()]));
}

#[test]
fn validate_rejects_smallest_quantity() {
    assert_eq!(request(u32::MAX, i32::MIN).validate(), Err(vec![expected_violation()]));
}

#[test]
fn validate_reports_field_and_message() {
    let violations: Vec<Violation> = request(7, -1).validate().unwrap_err();
    assert_eq!(violations.len(), 1);
    assert_eq!(violations[0].field, "quantity");
    assert_eq!(violations[0].code, "range");
    assert_eq!(violations[0].message, "Quantity must be at least 1");
}

#[test]
fn validate_is_ok_exactly_for_quantities_of_at_least_one() {
    let quantities: [i32; 13] =
        [i32::MIN, i32::MIN + 1, -1000, -3, -2, -1, 0, 1, 2, 3, 1000, i32::MAX - 1, i32::MAX];
    for quantity in quantities {
        let outcome = request(9, quantity).validate();
        assert_eq!(outcome.is_ok(), quantity >= 1, "quantity {}", quantity);
        assert_eq!(outcome.is_err(), quantity <= 0, "quantity {}", quantity);
    }
}

#[test]
fn validate_ignores_the_item_id() {
    let item_ids: [u32; 5] = [0, 1, 42, 65_536, u32::MAX];
    let quantities: [i32; 6] = [i32::MIN, -1, 0, 1, 2, i32::MAX];
    for quantity in quantities {
        let reference = request(0, quantity).validate();
        for item_id in item_ids {
            assert_eq!(request(item_id, quantity).validate(), reference);
        }
    }
}

#[test]
fn validate_gives_the_same_outcome_each_time() {
    let invalid = request(3, -3);
    assert_eq!(invalid.validate(), invalid.validate());
    let valid = request(3, 3);
    assert_eq!(valid.validate(), valid.validate());
}

#[test]
fn validate_leaves_the_request_as_it_was() {
    let before = request(42, -3);
    let copy = before;
    let _ = before.validate();
    assert_eq!(before, copy);
    assert_eq!(before.item_id, 42);
    assert_eq!(before.quantity, -3);
}

#[test]
fn validate_agrees_with_the_range_rule_of_validator() {
    let quantities: [i32; 11] = [i32::MIN, -100, -3, -1, 0, 1, 2, 5, 100, i32::MAX - 1, i32::MAX];
    for quantity in quantities {
        let by_validator: bool = quantity.validate_range(Some(MIN_QUANTITY), None, None, None);
        assert_eq!(request(1, quantity).validate().is_ok(), by_validator, "quantity {}", quantity);
    }
}

#[test]
fn an_invalid_request_can_be_held() {
    let held = request(42, -3);
    assert_eq!(held.quantity, -3);
    let zero = request(42, 0);
    assert_eq!(zero.quantity, 0);
}
