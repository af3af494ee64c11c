use web_service::errors::{
    AppError, CREATED, INTERNAL_SERVER_ERROR, NOT_FOUND, UNPROCESSABLE_ENTITY,
};

#[test]
fn status_constants_have_their_http_values() {
    assert_eq!(CREATED, 201);
    assert_eq!(NOT_FOUND, 404);
    assert_eq!(UNPROCESSABLE_ENTITY, 422);
    assert_eq!(INTERNAL_SERVER_ERROR, 500);
}

#[test]
fn not_found_maps_to_404_and_echoes_detail() {
    let response = AppError::NotFound("User 7 not found".to_string()).into_response();
    assert_eq!(response.status, 404);
    assert_eq!(response.body.error, "User 7 not found");
}

#[test]
fn validation_maps_to_422_and_echoes_detail() {
    let response = AppError::Validation("name cannot be empty".to_string()).into_response();
    assert_eq!(response.status, 422);
    assert_eq!(response.body.error, "name cannot be empty");
}

#[test]
fn database_maps_to_500_and_hides_detail() {
    let response =
        AppError::Database("connection refused at 10.0.0.5:5432".to_string()).into_response();
    assert_eq!(response.status, 500);
    assert_eq!(response.body.error, "Database error");
}

#[test]
fn database_responses_do_not_depend_on_detail() {
    let first = AppError::Database("password authentication failed".to_string()).into_response();
    let second = AppError::Database(String::new()).into_response();
    assert_eq!(first.status, second.status);
    assert_eq!(first.body.error, second.body.error);
}

#[test]
fn internal_maps_to_500_with_fixed_message() {
    let response = AppError::Internal.into_response();
    assert_eq!(response.status, 500);
    assert_eq!(response.body.error, "Internal server error");
}

#[test]
fn status_code_agrees_with_response() {
    let errors = vec![
        AppError::NotFound("a".to_string()),
        AppError::Validation("b".to_string()),
        AppError::Database("c".to_string()),
        AppError::Internal,
    ];
    let expected: Vec<u16> = vec![404, 422, 500, 500];
    for (error, status) in errors.into_iter().zip(expected) {
        assert_eq!(error.status_code(), status);
        let message = error.client_message();
        let response = error.into_response();
        assert_eq!(response.status, status);
        assert_eq!(response.body.error, message);
    }
}

#[test]
fn client_message_of_each_kind() {
    assert_eq!(AppError::NotFound("gone".to_string()).client_message(), "gone");
    assert_eq!(AppError::Validation("bad".to_string()).client_message(), "bad");
    assert_eq!(AppError::Database("secret".to_string()).client_message(), "Database error");
    assert_eq!(AppError::Internal.client_message(), "Internal server error");
}

#[test]
fn empty_detail_is_echoed_as_empty() {
    let response = AppError::NotFound(String::new()).into_response();
    assert_eq!(response.status, 404);
    assert_eq!(response.body.error, "");
}

#[test]
fn description_of_each_kind() {
    assert_eq!(
        AppError::NotFound("User 7 not found".to_string()).description(),
        "Resource not found: User 7 not found"
    );
    assert_eq!(
        AppError::Validation("name cannot be empty".to_string()).description(),
        "Validation error: name cannot be empty"
    );
    assert_eq!(
        AppError::Database("timeout".to_string()).description(),
        "Database error: timeout"
    );
    assert_eq!(AppError::Internal.description(), "Internal server error");
}

#[test]
fn client_errors_are_4xx_and_server_errors_are_500() {
    assert!((400..500).contains(&AppError::NotFound(String::new()).status_code()));
    assert!((400..500).contains(&AppError::Validation(String::new()).status_code()));
    assert_eq!(AppError::Database(String::new()).status_code(), 500);
    assert_eq!(AppError::Internal.status_code(), 500);
}
