use mentorsmind::validation::Validator;

#[test]
fn require_positive_passes_for_positive_value() {
    let result = Validator::new(0).require_positive(100, "amount").validate();
    assert!(result.is_ok());
}

#[test]
fn require_positive_fails_for_zero() {
    let err = Validator::new(0).require_positive(0, "amount").validate().unwrap_err();
    assert_eq!(err.field, "amount");
    assert_eq!(err.constraint, "positive");
}

#[test]
fn require_positive_fails_for_negative() {
    let err = Validator::new(0).require_positive(-5, "amount").validate().unwrap_err();
    assert_eq!(err.value_provided, -5);
}

#[test]
fn require_range_passes_within_bounds() {
    let result = Validator::new(0).require_range(200, 1, 480, "duration").validate();
    assert!(result.is_ok());
}

#[test]
fn require_range_fails_below_min() {
    let err = Validator::new(0).require_range(0, 1, 480, "duration").validate().unwrap_err();
    assert_eq!(err.constraint, "range");
}

#[test]
fn require_range_fails_above_max() {
    let err = Validator::new(0).require_range(500, 1, 480, "duration").validate().unwrap_err();
    assert_eq!(err.value_provided, 500);
}

#[test]
fn chained_validations_all_must_pass() {
    let result = Validator::new(0)
        .require_positive(100, "amount")
        .require_range(60, 1, 480, "duration")
        .validate();
    assert!(result.is_ok());
}

#[test]
fn validate_all_returns_multiple_errors() {
    let errors = Validator::new(0)
        .require_positive(0, "amount")
        .require_range(0, 1, 480, "duration")
        .validate_all();
    assert_eq!(errors.len(), 2);
}

#[test]
fn require_non_negative_passes_for_zero() {
    let result = Validator::new(0).require_non_negative(0, "fee").validate();
    assert!(result.is_ok());
}

#[test]
fn require_non_negative_fails_for_negative() {
    let err = Validator::new(0).require_non_negative(-1, "fee").validate().unwrap_err();
    assert_eq!(err.constraint, "non_negative");
}

#[test]
fn require_future_timestamp_judges_against_ledger_time() {
    let ok = Validator::new(1_000).require_future_timestamp(1_001, "deadline").validate();
    assert!(ok.is_ok());
    let err = Validator::new(1_000).require_future_timestamp(1_000, "deadline").validate().unwrap_err();
    assert_eq!(err.field, "deadline");
    assert_eq!(err.constraint, "future");
    assert_eq!(err.value_provided, 1_000);
}

#[test]
fn require_nonzero_reports_zero_value() {
    let err = Validator::new(0).require_nonzero(0, "id").validate().unwrap_err();
    assert_eq!(err.constraint, "nonzero");
    assert_eq!(err.value_provided, 0);
    assert!(Validator::new(0).require_nonzero(-3, "id").validate().is_ok());
}

#[test]
fn validate_reports_first_failure_in_rule_order() {
    let v = Validator::new(0)
        .require_positive(1, "ok")
        .require_non_negative(-7, "first")
        .require_range(9, 1, 5, "second");
    let err = v.validate().unwrap_err();
    assert_eq!(err.field, "first");
    assert_eq!(err.value_provided, -7);
}

#[test]
fn validate_all_keeps_rule_order() {
    let errors = Validator::new(10)
        .require_future_timestamp(5, "when")
        .require_positive(1, "fine")
        .require_nonzero(0, "id")
        .validate_all();
    assert_eq!(errors.len(), 2);
    assert_eq!(errors[0].field, "when");
    assert_eq!(errors[1].field, "id");
}
