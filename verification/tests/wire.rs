use simply_dns_client::{
    create_request_body, decode_list_body, update_request_body, CreateDnsRecordRequest,
    UpdateDnsRecordRequest,
};

#[test]
fn create_body_with_absent_optionals() {
    let req = CreateDnsRecordRequest {
        record_type: "A".to_string(),
        name: "www".to_string(),
        data: "1.2.3.4".to_string(),
        priority: None,
        ttl: Some(3600),
        comment: None,
    };
    let body = create_request_body(&req);
    assert_eq!(
        body,
        "{\"type\":\"A\",\"name\":\"www\",\"data\":\"1.2.3.4\",\"priority\":null,\"ttl\":3600,\"comment\":null}"
    );
}

#[test]
fn create_body_with_all_fields() {
    let req = CreateDnsRecordRequest {
        record_type: "MX".to_string(),
        name: "mail".to_string(),
        data: "mx.example.com".to_string(),
        priority: Some(10),
        ttl: Some(300),
        comment: Some("primary".to_string()),
    };
    let body = create_request_body(&req);
    assert_eq!(
        body,
        "{\"type\":\"MX\",\"name\":\"mail\",\"data\":\"mx.example.com\",\"priority\":10,\"ttl\":300,\"comment\":\"primary\"}"
    );
}

#[test]
fn create_body_escapes_strings() {
    let req = CreateDnsRecordRequest {
        record_type: "TXT".to_string(),
        name: "t".to_string(),
        data: "a\"b\\c\nd\u{1}e".to_string(),
        priority: None,
        ttl: None,
        comment: None,
    };
    let body = create_request_body(&req);
    assert_eq!(
        body,
        "{\"type\":\"TXT\",\"name\":\"t\",\"data\":\"a\\\"b\\\\c\\nd\\u0001e\",\"priority\":null,\"ttl\":null,\"comment\":null}"
    );
}

#[test]
fn update_body_has_no_comment_member() {
    let req = UpdateDnsRecordRequest {
        record_type: "CNAME".to_string(),
        name: "alias".to_string(),
        data: "target.example.com".to_string(),
        priority: None,
        ttl: None,
    };
    let body = update_request_body(&req);
    assert_eq!(
        body,
        "{\"type\":\"CNAME\",\"name\":\"alias\",\"data\":\"target.example.com\",\"priority\":null,\"ttl\":null}"
    );
}

#[test]
fn create_round_trip_through_list_echo() {
    let req = CreateDnsRecordRequest {
        record_type: "A".to_string(),
        name: "www".to_string(),
        data: "1.2.3.4".to_string(),
        priority: None,
        ttl: Some(3600),
        comment: None,
    };
    let body = create_request_body(&req);
    assert_eq!(
        body,
        "{\"type\":\"A\",\"name\":\"www\",\"data\":\"1.2.3.4\",\"priority\":null,\"ttl\":3600,\"comment\":null}"
    );
    // The service echoes the same field values back through list.
    let echo = "{\"records\":[{\"record_id\":7,\"name\":\"www\",\"ttl\":3600,\"data\":\"1.2.3.4\",\"type\":\"A\",\"priority\":null}]}";
    let records = decode_list_body(echo).unwrap();
    assert_eq!(records.len(), 1);
    let r = &records[0];
    assert_eq!(r.record_id.value(), 7);
    assert_eq!(r.name, req.name);
    assert_eq!(r.ttl, 3600);
    assert_eq!(r.data, req.data);
    assert_eq!(r.record_type, req.record_type);
    assert_eq!(r.priority, req.priority);
    assert_eq!(r.comment, req.comment);
}
