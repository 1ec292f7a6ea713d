use hashengine::error::ServiceError;
use hashengine::request::collect_text_entries;
use hashengine::request::lenient_preimages;

#[test]
fn missing_preimage_list_is_invalid() {
    assert_eq!(lenient_preimages(&None), Err(ServiceError::InvalidInput));
}

#[test]
fn entries_that_are_no_text_are_passed_over() {
    let field = Some(vec![
        Some("a".to_string()),
        None,
        Some("b".to_string()),
        None,
        None,
        Some("c".to_string()),
    ]);
    assert_eq!(lenient_preimages(&field), Ok(vec!["a".to_string(), "b".to_string(), "c".to_string()]));
}

#[test]
fn list_without_text_gives_an_empty_batch() {
    assert_eq!(lenient_preimages(&Some(vec![None, None])), Ok(Vec::new()));
    assert_eq!(lenient_preimages(&Some(Vec::new())), Ok(Vec::new()));
}

#[test]
fn text_entries_keep_their_order_and_repeats() {
    let entries = vec![Some("x".to_string()), Some("x".to_string()), None, Some("".to_string())];
    assert_eq!(collect_text_entries(&entries), vec!["x", "x", ""]);
}
