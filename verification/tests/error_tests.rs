use event_ray::error::{ApiError, ApiErrorResponse};

#[test]
fn api_error_status_codes() {
    assert_eq!(ApiError::BadRequest.status_code(), 400);
    assert_eq!(ApiError::InternalServerError.status_code(), 500);
}

#[test]
fn api_error_messages() {
    assert_eq!(ApiError::BadRequest.message(), "Bad Request");
    assert_eq!(ApiError::InternalServerError.message(), "Internal Server Error");
}

#[test]
fn json_rejection_is_a_bad_request() {
    let response = ApiErrorResponse::from_json_rejection("EOF while parsing an object");
    assert_eq!(response.error, ApiError::BadRequest);
    assert_eq!(response.details, vec!["Failed to parse JSON body: EOF while parsing an object".to_string()]);
    let (status, body) = response.into_response();
    assert_eq!(status, 400);
    assert_eq!(body, "Bad Request");
}

#[test]
fn caused_error_keeps_cause_out_of_body() {
    let response = ApiErrorResponse::caused_by(ApiError::InternalServerError, "disk on fire");
    assert_eq!(response.details, vec!["disk on fire".to_string()]);
    assert_eq!(response.into_response(), (500, "Internal Server Error".to_string()));
}

#[test]
fn plain_error_response_has_no_details() {
    let response = ApiErrorResponse::new(ApiError::BadRequest);
    assert!(response.details.is_empty());
    assert_eq!(response.into_response(), (400, "Bad Request".to_string()));
}
