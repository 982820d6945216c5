//! One DNS address lookup: the query that goes out, the datagrams that are
//! accepted in return, and the address read from the reply.
//!
//! The socket is the caller's. `Exchange::begin` prepares the query, the
//! caller sends it and hands every datagram, timeout or failure to
//! `Exchange::on_event`, which says whether to go on receiving.
//!
//! The exchange trusts any datagram that comes from the resolver's own
//! socket address. Neither the transaction identifier nor the question of the
//! reply is compared with the query, so whoever can forge that source address
//! can inject an answer. Nothing is retried: a timeout ends the lookup.

use crate::address::{Endpoint, Ipv4Address};
use crate::entropy::random_nonzero_u16;
use hickory_proto::op::{Message, Query};
use hickory_proto::rr::{Name, RData, RecordType};
use hickory_proto::ProtoError;
use vstd::prelude::*;

verus! {

/// The resolver that is asked where none is named.
pub const DEFAULT_DNS_SERVER: &'static str = "8.8.8.8";

/// The UDP port on which resolvers listen.
pub const DNS_PORT: u16 = 53;

/// How long a reply is waited for, in seconds.
pub const RECEIVE_TIMEOUT_SECS: u64 = 5;

/// The code of the record type that maps a name to an IPv4 address.
pub const RECORD_TYPE_A: u16 = 1;

/// The size in bytes of the buffer that a reply is received into.
pub const REPLY_BUFFER_SIZE: usize = 512;

/// Why a lookup came to nothing.
#[derive(Clone, Copy, Debug, PartialEq, Eq, Structural)]
pub enum ResolutionError {
    /// No query can be made for the domain name: it is not well formed.
    BadDomainName,
    /// The resolver's address is not an IPv4 address in dotted-decimal notation.
    BadResolverAddress,
    /// Sending or receiving failed.
    Io,
    /// No reply arrived within the receive timeout.
    Timeout,
    /// The reply is not a DNS message.
    MalformedReply,
    /// The first address-type answer carries no IPv4 address.
    InvalidAddress,
}

/// A query with a single question.
#[derive(Debug)]
pub struct DnsQuery {
    /// The transaction identifier.
    pub id: u16,
    /// Whether the resolver is asked to recurse.
    pub recursion_desired: bool,
    /// The domain name that is asked about, in presentation form.
    pub name: String,
    /// The code of the record type that is asked for.
    pub record_type: u16,
}

/// What the lookup reads of one answer record of a reply.
#[derive(Clone, Copy, Debug, PartialEq, Eq, Structural)]
pub struct AnswerRecord {
    /// The record's type code.
    pub record_type: u16,
    /// The IPv4 address that the record carries, if its data is one.
    pub address: Option<Ipv4Address>,
}

/// What the network hands to a running lookup.
#[derive(Debug)]
pub enum Event<'a> {
    /// A datagram arrived from `source`, which is `None` for a peer that is
    /// no IPv4 endpoint.
    Datagram { source: Option<Endpoint>, payload: &'a [u8] },
    /// The receive timeout passed without a datagram.
    TimedOut,
    /// Sending or receiving failed.
    Failed,
}

/// What a lookup does after an event.
#[derive(Clone, Copy, Debug, PartialEq, Eq)]
pub enum Progress {
    /// The event is passed over: go on receiving.
    Waiting,
    /// The lookup is over, with this result.
    Done(Result<Option<Ipv4Address>, ResolutionError>),
}

/// A lookup whose query is ready to be sent to its resolver.
#[derive(Debug)]
pub struct Exchange {
    resolver: Endpoint,
    request: Vec<u8>,
}

/// A lookup as a plain value.
pub struct ExchangeView {
    /// The socket address of the resolver: where the query goes, and the only
    /// source from which a reply is accepted.
    pub resolver: Endpoint,
    /// The query in wire form.
    pub request: Seq<u8>,
}

impl View for Exchange {
    type V = ExchangeView;

    closed spec fn view(&self) -> ExchangeView {
        ExchangeView { resolver: self.resolver, request: self.request@ }
    }
}

// ---------------------------------------------------------------------------
// What hickory-proto does. None of this is proved here.
// ---------------------------------------------------------------------------

/// The error that hickory-proto reports when it cannot parse a name or
/// encode or decode a message. Nothing is read from it.
#[verifier::external_type_specification]
#[verifier::external_body]
pub struct OutsideProtoError(ProtoError);

/// The wire form that hickory-proto gives to the query with this identifier
/// and recursion flag and with one question, for this name and record type
/// in class IN: what `Message::to_vec` returns for it. `None` where
/// `Name::from_ascii` refuses the name or `Message::to_vec` reports an error.
pub uninterp spec fn query_wire(
    id: u16,
    recursion_desired: bool,
    name: Seq<char>,
    record_type: u16,
) -> Option<Seq<u8>>;

/// The answer section of the DNS message that `Message::from_vec` of
/// hickory-proto reads from `datagram`, one entry for each record in the
/// order of the message; `None` where it reports an error instead.
pub uninterp spec fn reply_answers(datagram: Seq<u8>) -> Option<Seq<AnswerRecord>>;

/// Parses the name with `Name::from_ascii`, puts the query into a new
/// hickory-proto `Message`, which is a standard query, and encodes it with
/// `Message::to_vec`. The bytes that come back are the wire form of the
/// query; an error comes back exactly where there is none.
#[verifier::external_body]
fn encode_query(query: &DnsQuery) -> (r: Result<Vec<u8>, ProtoError>)
    ensures
        r matches Ok(bytes) ==> query_wire(
            query.id,
            query.recursion_desired,
            query.name@,
            query.record_type,
        ) == Some(bytes@),
        r is Err ==> query_wire(
            query.id,
            query.recursion_desired,
            query.name@,
            query.record_type,
        ) is None,
{
    let name = Name::from_ascii(&query.name)?;
    let mut message = Message::new();
    message.add_query(Query::query(name, RecordType::from(query.record_type)));
    message.set_id(query.id).set_recursion_desired(query.recursion_desired);
    message.to_vec()
}

/// Decodes `datagram` with `Message::from_vec` and hands out, for each
/// record of the answer section in order, its type code and, where its data
/// is an `A` record, the address in it.
#[verifier::external_body]
fn decode_answers(datagram: &[u8]) -> (r: Result<Vec<AnswerRecord>, ProtoError>)
    ensures
        match r {
            Ok(records) => reply_answers(datagram@) == Some(records@),
            Err(_) => reply_answers(datagram@) is None,
        },
{
    let message = Message::from_vec(datagram)?;
    let records = message.answers().iter().map(|record| AnswerRecord {
        record_type: u16::from(record.record_type()),
        address: match record.data() {
            RData::A(a) => Some(Ipv4Address::from_octets(a.0.octets())),
            _ => None,
        },
    });
    Ok(records.collect())
}

// ---------------------------------------------------------------------------
// What a lookup is.
// ---------------------------------------------------------------------------

/// Whether `records[i]` is an address-type record and no record before it is.
pub open spec fn is_first_address_record(records: Seq<AnswerRecord>, i: int) -> bool {
    &&& 0 <= i < records.len()
    &&& records[i].record_type == RECORD_TYPE_A
    &&& forall|j: int| 0 <= j < i ==> (#[trigger] records[j]).record_type != RECORD_TYPE_A
}

/// Whether some record of `records` is of the address type.
pub open spec fn has_address_record(records: Seq<AnswerRecord>) -> bool {
    exists|i: int| 0 <= i < records.len() && (#[trigger] records[i]).record_type == RECORD_TYPE_A
}

/// What a list of answers says: the address of its first address-type record,
/// nothing where it has no such record, and an error where that record
/// carries no IPv4 address. Later address-type records are not looked at.
pub open spec fn address_answer(records: Seq<AnswerRecord>) -> Result<
    Option<Ipv4Address>,
    ResolutionError,
> {
    if has_address_record(records) {
        let first = choose|i: int| is_first_address_record(records, i);
        match records[first].address {
            Some(address) => Ok(Some(address)),
            None => Err(ResolutionError::InvalidAddress),
        }
    } else {
        Ok(None)
    }
}

/// What a reply says: an error where it is no DNS message, and what its
/// answers say otherwise.
pub open spec fn reply_outcome(datagram: Seq<u8>) -> Result<Option<Ipv4Address>, ResolutionError> {
    match reply_answers(datagram) {
        Some(records) => address_answer(records),
        None => Err(ResolutionError::MalformedReply),
    }
}

/// A fresh transaction identifier from the process-wide entropy source. It is
/// never zero.
pub fn message_id() -> (id: u16)
    ensures
        id != 0,
{
    random_nonzero_u16()
}

impl DnsQuery {
    /// Whether this is the query of an address lookup: a non-zero
    /// identifier, recursion desired, one question for an address record.
    pub open spec fn is_address_lookup(&self) -> bool {
        &&& self.id != 0
        &&& self.recursion_desired
        &&& self.record_type == RECORD_TYPE_A
    }

    /// The wire form of the query, if it has one.
    pub open spec fn wire(&self) -> Option<Seq<u8>> {
        query_wire(self.id, self.recursion_desired, self.name@, self.record_type)
    }

    /// The recursive query for the IPv4 address of `domain_name`.
    pub fn address_lookup(id: u16, domain_name: &str) -> (query: DnsQuery)
        requires
            id != 0,
        ensures
            query.id == id,
            query.recursion_desired,
            query.name@ == domain_name@,
            query.record_type == RECORD_TYPE_A,
            query.is_address_lookup(),
    {
        DnsQuery {
            id,
            recursion_desired: true,
            name: domain_name.to_owned(),
            record_type: RECORD_TYPE_A,
        }
    }

    /// The query in wire form, ready to be sent as one datagram. A name that
    /// is not well formed has no wire form.
    pub fn encode(&self) -> (r: Result<Vec<u8>, ResolutionError>)
        ensures
            match r {
                Ok(bytes) => self.wire() == Some(bytes@),
                Err(e) => e == ResolutionError::BadDomainName && self.wire() is None,
            },
    {
        match encode_query(self) {
            Ok(bytes) => Ok(bytes),
            Err(_) => Err(ResolutionError::BadDomainName),
        }
    }
}

/// Scans the answers in order and reads the address of the first
/// address-type record.
pub fn first_address(records: &[AnswerRecord]) -> (r: Result<Option<Ipv4Address>, ResolutionError>)
    ensures
        r == address_answer(records@),
{
    let mut i: usize = 0;
    while i < records.len()
        invariant
            i <= records@.len(),
            forall|j: int| 0 <= j < i ==> (#[trigger] records@[j]).record_type != RECORD_TYPE_A,
        decreases records@.len() - i,
    {
        let record = records[i];
        if record.record_type == RECORD_TYPE_A {
            proof {
                lemma_answer_at_first(records@, i as int);
            }
            return match record.address {
                Some(address) => Ok(Some(address)),
                None => Err(ResolutionError::InvalidAddress),
            };
        }
        i += 1;
    }
    proof {
        lemma_no_address_record(records@);
    }
    Ok(None)
}

/// Decodes a reply and reads the address of its first address-type answer.
pub fn read_reply(datagram: &[u8]) -> (r: Result<Option<Ipv4Address>, ResolutionError>)
    ensures
        r == reply_outcome(datagram@),
{
    match decode_answers(datagram) {
        Ok(records) => first_address(records.as_slice()),
        Err(_) => Err(ResolutionError::MalformedReply),
    }
}

impl Exchange {
    /// What starting a lookup gives when the identifier `id` is drawn: the
    /// domain name is looked at first, then the resolver's address.
    pub open spec fn begun(
        dns_server_address: Seq<char>,
        domain_name: Seq<char>,
        id: u16,
    ) -> Result<ExchangeView, ResolutionError> {
        match query_wire(id, true, domain_name, RECORD_TYPE_A) {
            None => Err(ResolutionError::BadDomainName),
            Some(request) => match Ipv4Address::from_dotted(dns_server_address) {
                None => Err(ResolutionError::BadResolverAddress),
                Some(address) => Ok(
                    ExchangeView { resolver: Endpoint { address, port: DNS_PORT }, request },
                ),
            },
        }
    }

    /// The result of starting a lookup, with the lookup taken by its view.
    pub open spec fn begin_view(r: Result<Exchange, ResolutionError>) -> Result<
        ExchangeView,
        ResolutionError,
    > {
        match r {
            Ok(exchange) => Ok(exchange@),
            Err(e) => Err(e),
        }
    }

    /// What the lookup does after `event`. A datagram from any other source
    /// than the resolver's socket address is passed over; one from the
    /// resolver ends the lookup with what it says. A timeout or a failure
    /// ends the lookup with an error.
    pub open spec fn after(&self, event: Event) -> Progress {
        match event {
            Event::Datagram { source, payload } => if source == Some(self@.resolver) {
                Progress::Done(reply_outcome(payload@))
            } else {
                Progress::Waiting
            },
            Event::TimedOut => Progress::Done(Err(ResolutionError::Timeout)),
            Event::Failed => Progress::Done(Err(ResolutionError::Io)),
        }
    }

    /// Prepares the lookup of `domain_name` at the resolver whose IPv4
    /// address is `dns_server_address`: draws a transaction identifier other
    /// than zero and builds the recursive address query for the name. The
    /// query is to be sent once, to port 53 of the resolver.
    pub fn begin(dns_server_address: &str, domain_name: &str) -> (r: Result<
        Exchange,
        ResolutionError,
    >)
        ensures
            exists|id: u16|
                id != 0 && #[trigger] Self::begun(dns_server_address@, domain_name@, id)
                    == Self::begin_view(r),
    {
        let id = message_id();
        let ghost begun = Self::begun(dns_server_address@, domain_name@, id);
        let request = match DnsQuery::address_lookup(id, domain_name).encode() {
            Ok(request) => request,
            Err(e) => {
                assert(begun == Self::begin_view(Err(e)));
                return Err(e);
            },
        };
        let address = match Ipv4Address::parse(dns_server_address) {
            Some(address) => address,
            None => {
                assert(begun == Self::begin_view(Err(ResolutionError::BadResolverAddress)));
                return Err(ResolutionError::BadResolverAddress);
            },
        };
        let exchange = Exchange { resolver: Endpoint { address, port: DNS_PORT }, request };
        assert(begun == Self::begin_view(Ok(exchange)));
        Ok(exchange)
    }

    /// The socket address of the resolver.
    pub fn resolver(&self) -> (resolver: Endpoint)
        ensures
            resolver == self@.resolver,
    {
        self.resolver
    }

    /// The query in wire form, to be sent to the resolver as one datagram.
    pub fn request(&self) -> (request: &[u8])
        ensures
            request@ == self@.request,
    {
        self.request.as_slice()
    }

    /// Decides what follows `event`.
    pub fn on_event(&self, event: Event) -> (progress: Progress)
        ensures
            progress == self.after(event),
    {
        match event {
            Event::Datagram { source, payload } => match source {
                Some(endpoint) if endpoint == self.resolver => Progress::Done(read_reply(payload)),
                _ => Progress::Waiting,
            },
            Event::TimedOut => Progress::Done(Err(ResolutionError::Timeout)),
            Event::Failed => Progress::Done(Err(ResolutionError::Io)),
        }
    }
}

// ---------------------------------------------------------------------------
// What holds of every lookup.
// ---------------------------------------------------------------------------

/// A list of answers has at most one first address-type record.
pub proof fn lemma_first_address_record_unique(records: Seq<AnswerRecord>, i: int, j: int)
    requires
        is_first_address_record(records, i),
        is_first_address_record(records, j),
    ensures
        i == j,
{
}

/// Where `records[i]` is the first address-type record, the answer is read
/// from it.
pub proof fn lemma_answer_at_first(records: Seq<AnswerRecord>, i: int)
    requires
        is_first_address_record(records, i),
    ensures
        address_answer(records) == match records[i].address {
            Some(address) => Ok::<Option<Ipv4Address>, ResolutionError>(Some(address)),
            None => Err(ResolutionError::InvalidAddress),
        },
{
    let first = choose|k: int| is_first_address_record(records, k);
    lemma_first_address_record_unique(records, i, first);
}

/// A list of answers without an address-type record gives no address.
pub proof fn lemma_no_address_record(records: Seq<AnswerRecord>)
    requires
        forall|i: int|
            0 <= i < records.len() ==> (#[trigger] records[i]).record_type != RECORD_TYPE_A,
    ensures
        address_answer(records) == Ok::<Option<Ipv4Address>, ResolutionError>(None),
{
}

/// A reply that is a DNS message without an address-type answer ends the
/// lookup with no address, and without an error.
pub proof fn lemma_reply_without_address(exchange: Exchange, payload: &[u8])
    requires
        reply_answers(payload@) is Some,
        !has_address_record(reply_answers(payload@)->0),
    ensures
        exchange.after(Event::Datagram { source: Some(exchange@.resolver), payload })
            == Progress::Done(Ok(None)),
{
}

/// Once a list of answers holds an address-type record, what follows it
/// changes nothing.
pub proof fn lemma_later_records_ignored(records: Seq<AnswerRecord>, more: Seq<AnswerRecord>)
    requires
        has_address_record(records),
    ensures
        address_answer(records + more) == address_answer(records),
{
    let first = choose|i: int| is_first_address_record(records, i);
    let witness = choose|i: int|
        0 <= i < records.len() && (#[trigger] records[i]).record_type == RECORD_TYPE_A;
    lemma_has_first(records, witness);
    let all = records + more;
    assert(is_first_address_record(all, first)) by {
        assert(all[first] == records[first]);
        assert forall|j: int| 0 <= j < first implies (#[trigger] all[j]).record_type
            != RECORD_TYPE_A by {
            assert(all[j] == records[j]);
        }
    }
    lemma_answer_at_first(all, first);
    lemma_answer_at_first(records, first);
}

/// A list that holds an address-type record at `i` has a first one.
proof fn lemma_has_first(records: Seq<AnswerRecord>, i: int)
    requires
        0 <= i < records.len(),
        records[i].record_type == RECORD_TYPE_A,
    ensures
        exists|k: int| is_first_address_record(records, k),
    decreases i,
{
    if exists|j: int| 0 <= j < i && (#[trigger] records[j]).record_type == RECORD_TYPE_A {
        let j = choose|j: int| 0 <= j < i && (#[trigger] records[j]).record_type == RECORD_TYPE_A;
        lemma_has_first(records, j);
    } else {
        assert(is_first_address_record(records, i));
    }
}

/// No datagram from another source than the resolver's socket address ends
/// a lookup, whatever it holds.
pub proof fn lemma_foreign_datagram_ignored(
    exchange: Exchange,
    source: Option<Endpoint>,
    payload: &[u8],
)
    requires
        source != Some(exchange@.resolver),
    ensures
        exchange.after(Event::Datagram { source, payload }) == Progress::Waiting,
{
}

} // verus!
