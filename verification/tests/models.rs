use web_service::models::response::ApiResponse;
use web_service::models::PaginatedResponse;

#[test]
fn ok_envelope_carries_data_and_no_message() {
    let r = ApiResponse::ok(42u32);
    assert!(r.success);
    assert_eq!(r.data, Some(42));
    assert_eq!(r.message, None);
}

#[test]
fn ok_envelope_keeps_a_vector_as_it_is() {
    let r = ApiResponse::ok(vec!["a".to_string(), "b".to_string()]);
    assert!(r.success);
    assert_eq!(r.data, Some(vec!["a".to_string(), "b".to_string()]));
    assert!(r.message.is_none());
}

#[test]
fn error_envelope_carries_message_and_no_data() {
    let r = ApiResponse::<u32>::error("something went wrong".to_string());
    assert!(!r.success);
    assert_eq!(r.data, None);
    assert_eq!(r.message, Some("something went wrong".to_string()));
}

#[test]
fn error_envelope_with_empty_message_is_still_a_failure() {
    let r = ApiResponse::<()>::error(String::new());
    assert!(!r.success);
    assert!(r.data.is_none());
    assert_eq!(r.message, Some(String::new()));
}

#[test]
fn envelopes_populate_exactly_one_of_data_and_message() {
    let ok = ApiResponse::ok("payload");
    assert!(ok.data.is_some() != ok.message.is_some());
    assert_eq!(ok.success, ok.message.is_none());
    let failed = ApiResponse::<&str>::error("no".to_string());
    assert!(failed.data.is_some() != failed.message.is_some());
    assert_eq!(failed.success, failed.message.is_none());
}

#[test]
fn page_keeps_its_fields() {
    let page = PaginatedResponse::new(vec![10u8, 20, 30], 95, 4, 25);
    assert_eq!(page.data, vec![10, 20, 30]);
    assert_eq!(page.total, 95);
    assert_eq!(page.page, 4);
    assert_eq!(page.per_page, 25);
}

#[test]
fn empty_page_of_an_empty_list() {
    let page: PaginatedResponse<String> = PaginatedResponse::new(Vec::new(), 0, 1, 0);
    assert!(page.data.is_empty());
    assert_eq!(page.total, 0);
    assert_eq!(page.page, 1);
    assert_eq!(page.per_page, 0);
}

#[test]
fn full_page_that_is_the_whole_list() {
    let page = PaginatedResponse::new(vec!['a', 'b'], 2, 1, 2);
    assert_eq!(page.data.len(), 2);
    assert!(page.data.len() as u64 <= page.total);
    assert!(page.data.len() <= page.per_page as usize);
}
