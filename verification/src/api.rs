use vstd::prelude::*;

verus! {

/// Mathematical value of a `DnsRecord`: each string as its character sequence.
pub ghost struct RecordView {
    pub record_id: u32,
    pub name: Seq<char>,
    pub ttl: u32,
    pub data: Seq<char>,
    pub record_type: Seq<char>,
    pub priority: Option<u32>,
    pub comment: Option<Seq<char>>,
}

/// Opaque handle to an existing record, assigned by the remote service.
/// Only decoded service responses construct one; callers obtain it from a
/// prior list or create result and hand it back to update or delete.
#[derive(Debug, Clone, Copy, PartialEq, Eq, Structural)]
pub struct DnsRecordId {
    pub(crate) id: u32,
}

impl View for DnsRecordId {
    type V = u32;

    open(crate) spec fn view(&self) -> u32 {
        self.id
    }
}

impl DeepView for DnsRecordId {
    type V = u32;

    open(crate) spec fn deep_view(&self) -> u32 {
        self.id
    }
}

impl DnsRecordId {
    /// The numeric identifier exactly as the service assigned it.
    pub fn value(&self) -> (r: u32)
        ensures
            r == self@,
    {
        self.id
    }
}

/// A DNS record as the remote service reports it.
#[derive(Debug)]
pub struct DnsRecord {
    /// Identifier the service assigned to this record.
    pub record_id: DnsRecordId,
    /// Record name (subdomain label).
    pub name: String,
    /// Time to live, in seconds.
    pub ttl: u32,
    /// Data payload; its meaning depends on the record kind.
    pub data: String,
    /// Record kind tag ("A", "CNAME", "MX", ...).
    pub record_type: String,
    /// Priority, present only for kinds that carry one.
    pub priority: Option<u32>,
    /// Free-text comment, if the service stored one.
    pub comment: Option<String>,
}

impl View for DnsRecord {
    type V = RecordView;

    open spec fn view(&self) -> RecordView {
        RecordView {
            record_id: self.record_id@,
            name: self.name@,
            ttl: self.ttl,
            data: self.data@,
            record_type: self.record_type@,
            priority: self.priority,
            comment: self.comment.deep_view(),
        }
    }
}

impl DeepView for DnsRecord {
    type V = RecordView;

    open spec fn deep_view(&self) -> RecordView {
        self@
    }
}

/// Mathematical value of a `CreateDnsRecordRequest`.
pub ghost struct CreateRequestView {
    pub record_type: Seq<char>,
    pub name: Seq<char>,
    pub data: Seq<char>,
    pub priority: Option<u32>,
    pub ttl: Option<u32>,
    pub comment: Option<Seq<char>>,
}

/// Caller-supplied fields for creating a record; the service assigns the
/// identifier.
#[derive(Debug)]
pub struct CreateDnsRecordRequest {
    /// Record kind tag ("A", "CNAME", "MX", ...).
    pub record_type: String,
    /// Record name (subdomain label).
    pub name: String,
    /// Data payload.
    pub data: String,
    /// Priority, for kinds that use one.
    pub priority: Option<u32>,
    /// Time to live, in seconds.
    pub ttl: Option<u32>,
    /// Free-text comment.
    pub comment: Option<String>,
}

impl View for CreateDnsRecordRequest {
    type V = CreateRequestView;

    open spec fn view(&self) -> CreateRequestView {
        CreateRequestView {
            record_type: self.record_type@,
            name: self.name@,
            data: self.data@,
            priority: self.priority,
            ttl: self.ttl,
            comment: self.comment.deep_view(),
        }
    }
}

/// Mathematical value of an `UpdateDnsRecordRequest`.
pub ghost struct UpdateRequestView {
    pub record_type: Seq<char>,
    pub name: Seq<char>,
    pub data: Seq<char>,
    pub priority: Option<u32>,
    pub ttl: Option<u32>,
}

/// Caller-supplied fields that replace an existing record's mutable
/// attributes; the comment cannot be changed this way.
#[derive(Debug)]
pub struct UpdateDnsRecordRequest {
    /// Record kind tag ("A", "CNAME", "MX", ...).
    pub record_type: String,
    /// Record name (subdomain label).
    pub name: String,
    /// New data payload.
    pub data: String,
    /// Priority, for kinds that use one.
    pub priority: Option<u32>,
    /// Time to live, in seconds.
    pub ttl: Option<u32>,
}

impl View for UpdateDnsRecordRequest {
    type V = UpdateRequestView;

    open spec fn view(&self) -> UpdateRequestView {
        UpdateRequestView {
            record_type: self.record_type@,
            name: self.name@,
            data: self.data@,
            priority: self.priority,
            ttl: self.ttl,
        }
    }
}

} // verus!
