use winapi_hooks::numeral::decimal_text;
use winapi_hooks::validating_value::ValidatingValue;

#[test]
fn new_starts_without_update() {
    let mut v: i32 = 5;
    let field = ValidatingValue::new(&mut v, |x: &i32| decimal_text(*x), |s: &str| s.parse::<i32>().ok());
    assert!(field.update_while_editing);
    assert!(field.updated_value.is_none());
    assert_eq!(field.current_text(), "5");
    field.commit();
    assert_eq!(v, 5);
}

#[test]
fn accepted_text_reaches_value_on_commit() {
    let mut v: i32 = 5;
    let mut field = ValidatingValue::new(&mut v, |x: &i32| decimal_text(*x), |s: &str| s.parse::<i32>().ok());
    let before = field.current_text();
    assert!(field.offer_text("-12"));
    assert_eq!(*field.current(), -12);
    assert!(field.changed_since(&before));
    field.commit();
    assert_eq!(v, -12);
}

#[test]
fn rejected_text_leaves_value() {
    let mut v: i32 = 5;
    let mut field = ValidatingValue::new(&mut v, |x: &i32| decimal_text(*x), |s: &str| s.parse::<i32>().ok());
    let before = field.current_text();
    assert!(!field.offer_text("12q"));
    assert!(!field.changed_since(&before));
    field.commit();
    assert_eq!(v, 5);
}

#[test]
fn same_text_is_no_change() {
    let mut v: i32 = 5;
    let mut field = ValidatingValue::new(&mut v, |x: &i32| decimal_text(*x), |s: &str| s.parse::<i32>().ok());
    let before = field.current_text();
    assert!(field.offer_text("+5"));
    assert!(!field.changed_since(&before));
}

#[test]
fn edit_applies_by_mode() {
    let mut v: i32 = 0;
    let field = ValidatingValue::new(&mut v, |x: &i32| decimal_text(*x), |s: &str| s.parse::<i32>().ok());
    assert!(field.edit_applies(true, false, false));
    assert!(!field.edit_applies(false, true, false));
    let field = field.update_while_editing(false);
    assert!(!field.update_while_editing);
    assert!(!field.edit_applies(true, false, false));
    assert!(field.edit_applies(false, true, false));
    assert!(!field.edit_applies(false, true, true));
}

#[test]
fn stored_text_applies_when_left_without_escape() {
    let mut v: i32 = 0;
    let field = ValidatingValue::new(&mut v, |x: &i32| decimal_text(*x), |s: &str| s.parse::<i32>().ok());
    assert!(field.stored_text_applies(true, false));
    assert!(!field.stored_text_applies(true, true));
    assert!(!field.stored_text_applies(false, false));
}

#[test]
fn apply_frame_keeps_last_accepted_text() {
    let mut v: i32 = 1;
    let mut field = ValidatingValue::new(&mut v, |x: &i32| decimal_text(*x), |s: &str| s.parse::<i32>().ok());
    field.apply_frame(Some("4"), true, Some("9"), true, false, false);
    assert_eq!(*field.current(), 9);
    field.commit();
    assert_eq!(v, 9);
}

#[test]
fn apply_frame_ignores_rejected_and_escaped_text() {
    let mut v: i32 = 1;
    let mut field = ValidatingValue::new(&mut v, |x: &i32| decimal_text(*x), |s: &str| s.parse::<i32>().ok());
    field.apply_frame(Some("4"), true, Some("9x"), true, false, false);
    assert_eq!(*field.current(), 4);
    let mut field = field.update_while_editing(false);
    field.apply_frame(Some("5"), true, Some("6"), true, true, true);
    assert_eq!(*field.current(), 4);
    field.apply_frame(None, false, Some("6"), true, false, false);
    assert_eq!(*field.current(), 4);
    field.commit();
    assert_eq!(v, 4);
}
