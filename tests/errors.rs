use tcr_errors::{
    cant_have_result_with_different_error_types, errors_with_context, get_data, lookup,
    one_off_errors, parse_number, potentially_common_error, specific_error_with_context, widen,
    AnyError, TcrApiError,
};

fn field_missing(name: &str) -> TcrApiError {
    TcrApiError::FieldMissing(name.to_string())
}

#[test]
fn categorized_error_renders_its_field() {
    assert_eq!(field_missing("field name").render(), "Missing field: field name");
}

#[test]
fn categorized_errors_compare_by_their_data() {
    assert_eq!(field_missing("a"), field_missing("a"));
    assert_ne!(field_missing("a"), field_missing("b"));
    assert_eq!(field_missing("a").clone(), field_missing("a"));
}

#[test]
fn scenario_specific_error_with_context() {
    let e = specific_error_with_context().unwrap_err();
    assert_eq!(e.render(), "parsing name of TCR API endpoint: Missing field: field name");
    assert_eq!(e.downcast(), Some(&field_missing("field name")));
}

#[test]
fn downcast_survives_up_to_five_layers() {
    let raised = field_missing("field name");
    let mut e = AnyError::from_categorized(raised.clone());
    for n in 0..=5 {
        assert_eq!(e.downcast(), Some(&raised), "after {} layers", n);
        e = e.with_context(format!("layer {}", n));
    }
}

#[test]
fn contexts_render_outermost_first() {
    let e = AnyError::message("root cause".to_string())
        .with_context("A".to_string())
        .with_context("B".to_string())
        .with_context("C".to_string());
    let text = e.render();
    assert_eq!(text, "C: B: A: root cause");
    let c = text.find('C').unwrap();
    let b = text.find('B').unwrap();
    let a = text.find('A').unwrap();
    let root = text.find("root cause").unwrap();
    assert!(c < b && b < a && a < root);
}

#[test]
fn contexts_render_in_order_over_categorized_root() {
    let e = AnyError::from_categorized(field_missing("id"))
        .with_context("reading row".to_string())
        .with_context("loading table".to_string());
    assert_eq!(e.render(), "loading table: reading row: Missing field: id");
}

#[test]
fn with_context_leaves_the_inner_container_unchanged() {
    let e = AnyError::message("the actual error".to_string());
    let before = e.render();
    let outer = e.with_context("while working".to_string());
    assert_eq!(e.render(), before);
    assert_eq!(outer.render(), format!("while working: {}", before));
}

#[test]
fn parse_failure_is_foreign_and_not_categorized() {
    let e = parse_number("cant-parse").unwrap_err();
    assert_eq!(e.downcast(), None);
    assert_eq!(e.render(), "cant-parse".parse::<u8>().unwrap_err().to_string());
    let wrapped = e.with_context("reading a number".to_string());
    assert_eq!(wrapped.downcast(), None);
}

#[test]
fn parse_error_taken_in_directly() {
    let err = "cant-parse".parse::<u8>().unwrap_err();
    let e = AnyError::from_parse_error(err.clone());
    assert_eq!(e.render(), err.to_string());
    assert_eq!(e.downcast(), None);
}

#[test]
fn parse_number_accepts_u8_texts() {
    assert_eq!(parse_number("42").unwrap(), 42);
    assert_eq!(parse_number("+7").unwrap(), 7);
    assert_eq!(parse_number("255").unwrap(), 255);
    assert_eq!(parse_number("007").unwrap(), 7);
}

#[test]
fn parse_number_rejects_other_texts() {
    assert!(parse_number("256").is_err());
    assert!(parse_number("").is_err());
    assert!(parse_number("+").is_err());
    assert!(parse_number("-1").is_err());
    assert!(parse_number(" 1").is_err());
}

#[test]
fn message_never_downcasts() {
    let e = AnyError::message("x".to_string());
    assert_eq!(e.downcast(), None);
    assert_eq!(e.render(), "x");
    let e = e.with_context("y".to_string());
    assert_eq!(e.downcast(), None);
}

#[test]
fn foreign_text_is_rendered_as_given() {
    let e = AnyError::from_foreign("disk full".to_string()).with_context("saving".to_string());
    assert_eq!(e.render(), "saving: disk full");
    assert_eq!(e.downcast(), None);
}

#[test]
fn widen_keeps_success_and_categorized_failure() {
    assert_eq!(widen::<u8>(Ok(3)).unwrap(), 3);
    let e = widen::<u8>(Err(field_missing("k"))).unwrap_err();
    assert_eq!(e.downcast(), Some(&field_missing("k")));
    assert_eq!(e.render(), "Missing field: k");
}

#[test]
fn data_holds_one_entry() {
    let data = get_data();
    assert_eq!(data, vec![("1".to_string(), "a".to_string())]);
    assert_eq!(lookup(&data, &"1".to_string()), Some("a".to_string()));
    assert_eq!(lookup(&data, &"doesnt-exist".to_string()), None);
}

#[test]
fn lookup_returns_first_entry_with_the_key() {
    let data = vec![
        ("k".to_string(), "first".to_string()),
        ("k".to_string(), "second".to_string()),
    ];
    assert_eq!(lookup(&data, &"k".to_string()), Some("first".to_string()));
    assert_eq!(lookup(&Vec::new(), &"k".to_string()), None);
}

#[test]
fn one_off_error_is_an_ad_hoc_message() {
    let e = one_off_errors().unwrap_err();
    assert_eq!(e.render(), "some error that isnt common or doesnt need to be categorized");
    assert_eq!(e.downcast(), None);
}

#[test]
fn common_error_is_categorized() {
    let e = potentially_common_error().unwrap_err();
    assert_eq!(e.downcast(), Some(&field_missing("field name")));
    assert_eq!(e.render(), "Missing field: field name");
}

#[test]
fn narrow_result_carries_only_the_taxonomy() {
    assert_eq!(
        cant_have_result_with_different_error_types(),
        Err(field_missing("field name"))
    );
}

#[test]
fn ad_hoc_error_with_context() {
    let e = errors_with_context().unwrap_err();
    assert_eq!(e.render(), "context of what is going on: the actual error");
    assert_eq!(e.downcast(), None);
}

#[test]
fn cause_peels_the_outermost_layer() {
    let inner = AnyError::from_categorized(field_missing("id")).with_context("reading row".to_string());
    let outer = inner.with_context("loading table".to_string());
    let cause = outer.cause().unwrap();
    assert_eq!(cause.render(), inner.render());
    assert_eq!(cause.downcast(), Some(&field_missing("id")));
    let root = cause.cause().unwrap();
    assert_eq!(root.render(), "Missing field: id");
    assert!(root.cause().is_none());
}

#[test]
fn one_off_message_has_no_cause() {
    assert!(AnyError::message("x".to_string()).cause().is_none());
}
