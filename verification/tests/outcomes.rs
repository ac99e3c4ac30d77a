use simply_dns_client::{
    create_dns_record_outcome, decode_create_body, decode_list_body, envelope_message,
    is_success_status, list_dns_records_outcome, write_dns_record_outcome, HttpOutcome,
    SimplyClientError,
};

fn response(status: u16, body: &str) -> HttpOutcome {
    HttpOutcome::Response { status, body: body.to_string() }
}

fn failure(detail: &str) -> HttpOutcome {
    HttpOutcome::TransportFailure { detail: detail.to_string() }
}

#[test]
fn list_empty_records_is_empty_success() {
    let r = list_dns_records_outcome(response(200, "{\"records\": []}")).unwrap();
    assert_eq!(r.len(), 0);
}

#[test]
fn list_keeps_service_order() {
    let body = "{\"records\":[\
        {\"record_id\":2,\"name\":\"b\",\"ttl\":600,\"data\":\"2.2.2.2\",\"type\":\"A\"},\
        {\"record_id\":1,\"name\":\"a\",\"ttl\":300,\"data\":\"1.1.1.1\",\"type\":\"A\",\"priority\":5,\"comment\":\"x\"}]}";
    let r = list_dns_records_outcome(response(200, body)).unwrap();
    assert_eq!(r.len(), 2);
    assert_eq!(r[0].record_id.value(), 2);
    assert_eq!(r[0].name, "b");
    assert_eq!(r[0].ttl, 600);
    assert_eq!(r[0].priority, None);
    assert_eq!(r[0].comment, None);
    assert_eq!(r[1].record_id.value(), 1);
    assert_eq!(r[1].name, "a");
    assert_eq!(r[1].data, "1.1.1.1");
    assert_eq!(r[1].record_type, "A");
    assert_eq!(r[1].priority, Some(5));
    assert_eq!(r[1].comment, Some("x".to_string()));
}

#[test]
fn list_unparseable_body_is_decode_error() {
    let r = list_dns_records_outcome(response(200, "not json"));
    assert_eq!(r.unwrap_err(), SimplyClientError::Json);
}

#[test]
fn list_missing_records_member_is_decode_error() {
    let r = list_dns_records_outcome(response(200, "{}"));
    assert_eq!(r.unwrap_err(), SimplyClientError::Json);
}

#[test]
fn list_record_id_out_of_range_is_decode_error() {
    let body = "{\"records\":[{\"record_id\":4294967296,\"name\":\"a\",\"ttl\":300,\"data\":\"d\",\"type\":\"A\"}]}";
    let r = list_dns_records_outcome(response(200, body));
    assert_eq!(r.unwrap_err(), SimplyClientError::Json);
}

#[test]
fn create_null_record_member_is_empty() {
    let r = create_dns_record_outcome(response(200, "{\"record\": null}")).unwrap();
    assert_eq!(r.len(), 0);
}

#[test]
fn create_absent_record_member_is_empty() {
    let r = create_dns_record_outcome(response(200, "{\"message\":\"ok\"}")).unwrap();
    assert_eq!(r.len(), 0);
}

#[test]
fn create_returns_identifiers_in_order() {
    let r = create_dns_record_outcome(response(200, "{\"record\":[{\"id\":5},{\"id\":9}]}"))
        .unwrap();
    assert_eq!(r.len(), 2);
    assert_eq!(r[0].value(), 5);
    assert_eq!(r[1].value(), 9);
}

#[test]
fn create_wrongly_typed_record_member_is_decode_error() {
    let r = create_dns_record_outcome(response(200, "{\"record\": 5}"));
    assert_eq!(r.unwrap_err(), SimplyClientError::Json);
}

#[test]
fn write_http_400_with_message_is_api_error() {
    let r = write_dns_record_outcome(response(400, "{\"message\":\"invalid record\"}"));
    assert_eq!(r.unwrap_err(), SimplyClientError::Api(400, "invalid record".to_string()));
}

#[test]
fn write_http_400_unparseable_body_is_api_error_with_empty_message() {
    let r = write_dns_record_outcome(response(400, "<html>bad request</html>"));
    assert_eq!(r.unwrap_err(), SimplyClientError::Api(400, "".to_string()));
}

#[test]
fn write_http_400_non_string_message_is_api_error_with_empty_message() {
    let r = write_dns_record_outcome(response(400, "{\"message\": 5}"));
    assert_eq!(r.unwrap_err(), SimplyClientError::Api(400, "".to_string()));
}

#[test]
fn write_http_200_succeeds_whatever_the_body() {
    assert_eq!(write_dns_record_outcome(response(200, "anything at all")), Ok(()));
    assert_eq!(write_dns_record_outcome(response(200, "{\"message\":\"failure\"}")), Ok(()));
    assert_eq!(write_dns_record_outcome(response(204, "")), Ok(()));
}

#[test]
fn transport_failure_is_http_error_on_every_operation() {
    let r = list_dns_records_outcome(failure("connection refused"));
    assert_eq!(r.unwrap_err(), SimplyClientError::Http("connection refused".to_string()));
    let r = create_dns_record_outcome(failure("connection refused"));
    assert_eq!(r.unwrap_err(), SimplyClientError::Http("connection refused".to_string()));
    let r = write_dns_record_outcome(failure("connection refused"));
    assert_eq!(r.unwrap_err(), SimplyClientError::Http("connection refused".to_string()));
}

#[test]
fn success_status_range_bounds() {
    assert!(!is_success_status(199));
    assert!(is_success_status(200));
    assert!(is_success_status(299));
    assert!(!is_success_status(300));
    assert!(!is_success_status(404));
}

#[test]
fn decode_helpers_match_outcome_behaviour() {
    assert!(decode_list_body("{\"records\":[]}").unwrap().is_empty());
    assert!(decode_list_body("[]").is_none());
    assert!(decode_create_body("{\"record\":[]}").unwrap().is_empty());
    assert!(decode_create_body("{\"record\":[{\"id\":true}]}").is_none());
    assert_eq!(envelope_message("{\"message\":\"oops\"}"), "oops");
    assert_eq!(envelope_message("{}"), "");
    assert_eq!(envelope_message("nonsense"), "");
}
