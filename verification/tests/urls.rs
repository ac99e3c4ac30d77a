use simply_dns_client::{decode_create_body, default_base_url, record_url, records_url};

#[test]
fn list_url_without_trailing_slash() {
    let url = records_url("https://api.simply.com/2", "example.com");
    assert_eq!(url, "https://api.simply.com/2/my/products/example.com/dns/records");
}

#[test]
fn list_url_with_trailing_slash() {
    let url = records_url("https://api.simply.com/2/", "example.com");
    assert_eq!(url, "https://api.simply.com/2/my/products/example.com/dns/records");
}

#[test]
fn list_url_with_many_trailing_slashes() {
    let url = records_url("https://api.simply.com/2///", "example.com");
    assert_eq!(url, "https://api.simply.com/2/my/products/example.com/dns/records");
}

#[test]
fn record_url_renders_id_in_decimal() {
    let ids = decode_create_body("{\"record\":[{\"id\":42}]}").unwrap();
    assert_eq!(ids.len(), 1);
    assert_eq!(ids[0].value(), 42);
    let url = record_url("https://api.simply.com/2/", "example.com", &ids[0]);
    assert_eq!(url, "https://api.simply.com/2/my/products/example.com/dns/records/42");
}

#[test]
fn record_url_zero_identifier() {
    let ids = decode_create_body("{\"record\":[{\"id\":0}]}").unwrap();
    let url = record_url("https://base", "d.example", &ids[0]);
    assert_eq!(url, "https://base/my/products/d.example/dns/records/0");
}

#[test]
fn record_url_largest_identifier() {
    let ids = decode_create_body("{\"record\":[{\"id\":4294967295}]}").unwrap();
    let url = record_url("https://base/", "d.example", &ids[0]);
    assert_eq!(url, "https://base/my/products/d.example/dns/records/4294967295");
}

#[test]
fn default_base_url_value() {
    assert_eq!(default_base_url(), "https://api.simply.com/2/");
}
