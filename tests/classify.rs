use bytestashy::api_client::APIClient;
use bytestashy::errors::ByteStashyError;
use bytestashy::response::classify;

#[test]
fn success_with_json_gives_the_body() {
    match classify(200, "[{\"id\":1}]") {
        Ok(text) => assert_eq!(text, "[{\"id\":1}]"),
        Err(_) => panic!("expected success"),
    }
    assert!(classify(201, "{\"id\":7}").is_ok());
}

#[test]
fn success_without_json_is_a_protocol_error() {
    match classify(200, "<html>") {
        Err(ByteStashyError::Protocol { message }) => {
            assert_eq!(message, "response was not valid JSON")
        }
        _ => panic!("expected a protocol error"),
    }
}

#[test]
fn unauthorized_is_an_auth_error_whatever_the_body() {
    assert!(matches!(classify(401, "{\"id\":1}"), Err(ByteStashyError::Auth { .. })));
    assert!(matches!(classify(401, "not json"), Err(ByteStashyError::Auth { .. })));
}

#[test]
fn not_found_and_bad_request() {
    assert!(matches!(classify(404, "gone"), Err(ByteStashyError::NotFound)));
    match classify(400, "title is required") {
        Err(ByteStashyError::Validation { message }) => assert_eq!(message, "title is required"),
        _ => panic!("expected a validation error"),
    }
}

#[test]
fn other_status_is_an_api_error_with_status_and_body() {
    match classify(500, "boom") {
        Err(ByteStashyError::Api { status, message }) => {
            assert_eq!(status, 500);
            assert_eq!(message, "boom");
        }
        _ => panic!("expected an api error"),
    }
    assert!(matches!(classify(204, ""), Err(ByteStashyError::Api { status: 204, .. })));
}

#[test]
fn get_missing_snippet_is_not_found() {
    match APIClient::snippet_id_from(404, "{\"error\":\"Snippet not found\"}") {
        Err(ByteStashyError::NotFound) => {}
        _ => panic!("expected not found"),
    }
    assert!(matches!(classify(404, "{}"), Err(ByteStashyError::NotFound)));
}

#[test]
fn created_id_is_read_from_the_response() {
    let id = APIClient::snippet_id_from(201, "{\"id\":7,\"title\":\"t\"}");
    assert!(matches!(id, Ok(7)));
    assert!(matches!(
        APIClient::snippet_id_from(201, "{\"title\":\"t\"}"),
        Err(ByteStashyError::Protocol { .. })
    ));
}

#[test]
fn delete_outcomes() {
    assert!(matches!(APIClient::deleted_id_from(204, ""), Ok(None)));
    assert!(matches!(APIClient::deleted_id_from(200, "{\"id\":3}"), Ok(Some(3))));
    assert!(matches!(APIClient::deleted_id_from(200, "{}"), Ok(None)));
    assert!(matches!(
        APIClient::deleted_id_from(403, "no"),
        Err(ByteStashyError::Api { status: 403, .. })
    ));
}
