//! DNS records as the provider lists them, and the update requests built from them.
use vstd::prelude::*;
use vstd::string::*;

verus! {

/// Time-to-live, in seconds, written into every updated record.
pub const UPDATE_TTL: u32 = 60;

/// The two record types that this library keeps in sync.
#[derive(PartialEq, Eq, Structural, Clone, Copy, Debug)]
pub enum RecordKind {
    /// An IPv4 address record.
    A,
    /// An IPv6 address record.
    Aaaa,
}

/// A resource record as the provider reports it.
#[derive(Debug)]
pub struct DnsRecord {
    pub id: String,
    pub name: String,
    pub value: String,
    pub record_type: String,
    pub zone_id: String,
}

/// The mathematical value of a [`DnsRecord`].
pub struct RecordView {
    pub id: Seq<char>,
    pub name: Seq<char>,
    pub value: Seq<char>,
    pub record_type: Seq<char>,
    pub zone_id: Seq<char>,
}

impl View for DnsRecord {
    type V = RecordView;

    open spec fn view(&self) -> RecordView {
        RecordView {
            id: self.id@,
            name: self.name@,
            value: self.value@,
            record_type: self.record_type@,
            zone_id: self.zone_id@,
        }
    }
}

/// The body of an update request.
#[derive(Debug)]
pub struct UpdatePayload {
    pub name: String,
    pub ttl: u32,
    pub record_type: String,
    pub value: String,
    pub zone_id: String,
}

pub struct PayloadView {
    pub name: Seq<char>,
    pub ttl: u32,
    pub record_type: Seq<char>,
    pub value: Seq<char>,
    pub zone_id: Seq<char>,
}

impl View for UpdatePayload {
    type V = PayloadView;

    open spec fn view(&self) -> PayloadView {
        PayloadView {
            name: self.name@,
            ttl: self.ttl,
            record_type: self.record_type@,
            value: self.value@,
            zone_id: self.zone_id@,
        }
    }
}

/// One update request: the record it replaces, where it is sent, and its body.
#[derive(Debug)]
pub struct RecordUpdate {
    pub record_id: String,
    pub url: String,
    pub payload: UpdatePayload,
}

pub struct UpdateView {
    pub record_id: Seq<char>,
    pub url: Seq<char>,
    pub payload: PayloadView,
}

impl View for RecordUpdate {
    type V = UpdateView;

    open spec fn view(&self) -> UpdateView {
        UpdateView { record_id: self.record_id@, url: self.url@, payload: self.payload@ }
    }
}

/// The record type text of an A record.
pub open spec fn a_type() -> Seq<char> {
    seq!['A']
}

/// The record type text of an AAAA record.
pub open spec fn aaaa_type() -> Seq<char> {
    seq!['A', 'A', 'A', 'A']
}

/// The type text that the provider uses for `kind`.
pub open spec fn type_text(kind: RecordKind) -> Seq<char> {
    match kind {
        RecordKind::A => a_type(),
        RecordKind::Aaaa => aaaa_type(),
    }
}

/// The kind under which `r` is kept in sync for the host named `target`:
/// its name equals `target` exactly and its type is exactly `A` or `AAAA`.
pub open spec fn kind_of(r: RecordView, target: Seq<char>) -> Option<RecordKind> {
    if r.name != target {
        None
    } else if r.record_type == a_type() {
        Some(RecordKind::A)
    } else if r.record_type == aaaa_type() {
        Some(RecordKind::Aaaa)
    } else {
        None
    }
}

/// The observed address that a record of `kind` should hold.
pub open spec fn observed_for(kind: RecordKind, ipv4: Seq<char>, ipv6: Seq<char>) -> Seq<char> {
    match kind {
        RecordKind::A => ipv4,
        RecordKind::Aaaa => ipv6,
    }
}

/// The endpoint that updates the record with identifier `id`.
pub open spec fn update_url_of(id: Seq<char>) -> Seq<char> {
    "https://dns.hetzner.com/api/v1/records/"@ + id
}

/// The request that sets `r` to `value`, with the fixed time-to-live.
pub open spec fn update_for(r: RecordView, value: Seq<char>) -> UpdateView {
    UpdateView {
        record_id: r.id,
        url: update_url_of(r.id),
        payload: PayloadView {
            name: r.name,
            ttl: UPDATE_TTL,
            record_type: r.record_type,
            value: value,
            zone_id: r.zone_id,
        },
    }
}

/// Returns the kind under which `record` is kept in sync for the host `target`,
/// or `None` where its name or its type does not match.
pub fn record_kind(record: &DnsRecord, target: &String) -> (r: Option<RecordKind>)
    ensures
        r == kind_of(record@, target@),
{
    if record.name != *target {
        return None;
    }
    proof {
        reveal_strlit("A");
        reveal_strlit("AAAA");
    }
    let a = String::from_str("A");
    assert(a@ =~= a_type());
    if record.record_type == a {
        return Some(RecordKind::A);
    }
    let aaaa = String::from_str("AAAA");
    assert(aaaa@ =~= aaaa_type());
    if record.record_type == aaaa {
        Some(RecordKind::Aaaa)
    } else {
        None
    }
}

/// Returns the endpoint that updates the record with identifier `record_id`.
pub fn update_url(record_id: &str) -> (r: String)
    ensures
        r@ == update_url_of(record_id@),
{
    let mut url = String::from_str("https://dns.hetzner.com/api/v1/records/");
    url.append(record_id);
    url
}

/// Returns the request that sets `record` to `value`: the record's name, type
/// and zone are echoed, and the time-to-live is [`UPDATE_TTL`].
pub fn make_update(record: &DnsRecord, value: &String) -> (r: RecordUpdate)
    ensures
        r@ == update_for(record@, value@),
{
    RecordUpdate {
        record_id: record.id.clone(),
        url: update_url(record.id.as_str()),
        payload: UpdatePayload {
            name: record.name.clone(),
            ttl: UPDATE_TTL,
            record_type: record.record_type.clone(),
            value: value.clone(),
            zone_id: record.zone_id.clone(),
        },
    }
}

impl RecordUpdate {
    /// Returns a copy of this request.
    pub fn duplicate(&self) -> (r: RecordUpdate)
        ensures
            r@ == self@,
    {
        RecordUpdate {
            record_id: self.record_id.clone(),
            url: self.url.clone(),
            payload: UpdatePayload {
                name: self.payload.name.clone(),
                ttl: self.payload.ttl,
                record_type: self.payload.record_type.clone(),
                value: self.payload.value.clone(),
                zone_id: self.payload.zone_id.clone(),
            },
        }
    }
}

} // verus!
