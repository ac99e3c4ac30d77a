pub mod api;
pub mod client;
pub mod decode;
pub mod json;
pub mod text;
pub mod url;
pub mod wire;

pub use api::{CreateDnsRecordRequest, DnsRecord, DnsRecordId, UpdateDnsRecordRequest};
pub use client::{
    create_dns_record_outcome, default_base_url, is_success_status, list_dns_records_outcome,
    write_dns_record_outcome, HttpOutcome, SimplyClientError,
};
pub use decode::{decode_create_body, decode_list_body, envelope_message};
pub use url::{record_url, records_url};
pub use wire::{create_request_body, update_request_body};
