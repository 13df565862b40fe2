//! Discovery of the caller's public address: which resolver to ask, what
//! to ask it, over which transport, and what its answer means.

use crate::dns_error::{
    error_message, error_message_text, error_type, error_type_text, TransportError,
};
use std::time::{Duration, SystemTime, UNIX_EPOCH};
use vstd::prelude::*;
use vstd::slice::slice_subrange;
use vstd::string::*;

verus! {

/// The type of record that a query asks for.
#[derive(Clone, Copy, PartialEq, Eq, Structural, Debug)]
pub enum RecordType {
    /// An IPv4 address.
    A,
    /// An IPv6 address.
    AAAA,
}

/// How a query travels to the resolver.
#[derive(Clone, Copy, PartialEq, Eq, Structural, Debug)]
pub enum Transport {
    /// In one datagram.
    Udp,
    /// Over a connection.
    Tcp,
}

/// One question to a resolver.
#[derive(Clone, Debug, PartialEq, Eq)]
pub struct Request {
    pub transaction_id: u16,
    /// Whether the flags mark a standard query.
    pub standard_query: bool,
    pub qname: String,
    pub qtype: RecordType,
    /// Whether an additional record travels with the question.
    pub additional: bool,
}

/// An address of either family, as its bytes in network order.
#[derive(Clone, Copy, Debug, PartialEq, Eq)]
pub enum IpAddress {
    V4([u8; 4]),
    V6([u8; 16]),
}

/// One record of the answer section of a response.
#[derive(Clone, Copy, Debug, PartialEq, Eq)]
pub enum Answer {
    A([u8; 4]),
    AAAA([u8; 16]),
    /// A record of any other type.
    Other,
}

/// Why no address was discovered.
#[derive(Clone, Debug, PartialEq, Eq)]
pub enum DiscoveryError {
    /// The exchange with the resolver failed.
    Transport(TransportError),
    /// The response has no answer, or its first answer is no address.
    UnexpectedResponse,
}

/// The name whose answer is the address that the resolver sees.
pub const ECHO_HOSTNAME: &'static str = "myip.opendns.com";

/// The transaction identifier of every query.
pub const TRANSACTION_ID: u16 = 0xABCD;

/// The query for the echo hostname: a standard query with the fixed
/// transaction identifier and no additional record.
pub fn make_request(qtype: RecordType) -> (request: Request)
    ensures
        request.transaction_id == TRANSACTION_ID,
        request.standard_query,
        request.qname@ == ECHO_HOSTNAME@,
        request.qtype == qtype,
        !request.additional,
{
    Request {
        transaction_id: TRANSACTION_ID,
        standard_query: true,
        qname: String::from_str(ECHO_HOSTNAME),
        qtype,
        additional: false,
    }
}

/// The place in a pool of `len` resolvers that the time `millis` selects.
pub open spec fn rotation(millis: int, len: int) -> int {
    millis % len
}

/// The resolver of the pool that the time `millis` selects.
pub fn resolver_at(resolvers: &[&str], millis: u128) -> (resolver: String)
    requires
        resolvers@.len() > 0,
    ensures
        resolver@ == resolvers@[rotation(millis as int, resolvers@.len() as int)]@,
{
    let len: u128 = resolvers.len() as u128;
    let place: usize = (millis % len) as usize;
    String::from_str(resolvers[place])
}

/// `std::time::SystemTime`, a moment of the system's clock. It is carried
/// from the clock to the subtraction; nothing inside it is read.
#[verifier::external_type_specification]
#[verifier::external_body]
pub struct ExSystemTime(SystemTime);

/// `SystemTime::now` reads the clock; nothing is known of what it shows.
pub assume_specification[ SystemTime::now ]() -> (now: SystemTime)
;

/// The time between the start of 1970 and `now`, from
/// `SystemTime::duration_since`; nothing where the clock shows an earlier
/// moment.
#[verifier::external_body]
fn since_epoch(now: &SystemTime) -> (elapsed: Option<Duration>) {
    now.duration_since(UNIX_EPOCH).ok()
}

/// `Duration::as_millis` gives a duration in whole milliseconds; nothing is
/// claimed of the number.
pub assume_specification[ Duration::as_millis ](duration: &Duration) -> (millis: u128)
;

/// The resolvers that answer for the echo hostname.
pub const RESOLVERS: [&'static str; 4] = [
    "resolver1.opendns.com",
    "resolver2.opendns.com",
    "resolver3.opendns.com",
    "resolver4.opendns.com",
];

/// Picks a resolver of the pool by the clock: the pool is walked round,
/// one step each millisecond. Where the clock shows a moment before 1970
/// the first resolver is picked.
pub fn pick_resolver(resolvers: &[&str]) -> (resolver: String)
    requires
        resolvers@.len() > 0,
    ensures
        exists|i: int| 0 <= i < resolvers@.len() && resolver@ == (#[trigger] resolvers@[i])@,
{
    let now = SystemTime::now();
    let millis: u128 = match since_epoch(&now) {
        Some(elapsed) => elapsed.as_millis(),
        None => 0,
    };
    let resolver = resolver_at(resolvers, millis);
    assert(resolver@ == resolvers@[rotation(millis as int, resolvers@.len() as int)]@);
    resolver
}

/// The resolvers that are asked for a record type: all of them for an
/// IPv4 address, the first two for an IPv6 address.
pub open spec fn pool(qtype: RecordType) -> Seq<&'static str> {
    match qtype {
        RecordType::A => RESOLVERS@,
        RecordType::AAAA => RESOLVERS@.subrange(0, 2),
    }
}

/// The transport that carries the query for a record type: a datagram
/// for an IPv4 address, a connection for an IPv6 address.
pub open spec fn transport_for(qtype: RecordType) -> Transport {
    match qtype {
        RecordType::A => Transport::Udp,
        RecordType::AAAA => Transport::Tcp,
    }
}

/// What is to be sent, to whom and how.
#[derive(Clone, Debug, PartialEq, Eq)]
pub struct Query {
    pub resolver: String,
    pub transport: Transport,
    pub request: Request,
}

/// Prepares the one query of a discovery: for an IPv4 address if
/// `qtype_a`, else for an IPv6 address.
pub fn prepare(qtype_a: bool) -> (query: Query)
    ensures
        query.request.qtype == (if qtype_a {
            RecordType::A
        } else {
            RecordType::AAAA
        }),
        query.transport == transport_for(query.request.qtype),
        exists|i: int|
            0 <= i < pool(query.request.qtype).len() && query.resolver@ == (#[trigger] pool(
                query.request.qtype,
            )[i])@,
        query.request.transaction_id == TRANSACTION_ID,
        query.request.standard_query,
        query.request.qname@ == ECHO_HOSTNAME@,
        !query.request.additional,
{
    if qtype_a {
        let all = RESOLVERS.as_slice();
        let resolver = pick_resolver(all);
        proof {
            let i = choose|i: int| 0 <= i < all@.len() && resolver@ == (#[trigger] all@[i])@;
            assert(pool(RecordType::A)[i] == all@[i]);
        }
        Query { resolver, transport: Transport::Udp, request: make_request(RecordType::A) }
    } else {
        let some = slice_subrange(RESOLVERS.as_slice(), 0, 2);
        let resolver = pick_resolver(some);
        proof {
            let i = choose|i: int| 0 <= i < some@.len() && resolver@ == (#[trigger] some@[i])@;
            assert(pool(RecordType::AAAA)[i] == some@[i]);
        }
        Query { resolver, transport: Transport::Tcp, request: make_request(RecordType::AAAA) }
    }
}

/// The address that a response holds: that of its first answer.
pub open spec fn first_address(answers: Seq<Answer>) -> Option<IpAddress> {
    if answers.len() == 0 {
        None
    } else {
        match answers[0] {
            Answer::A(address) => Some(IpAddress::V4(address)),
            Answer::AAAA(address) => Some(IpAddress::V6(address)),
            Answer::Other => None,
        }
    }
}

/// What a discovery ends in, given what the exchange ended in.
pub open spec fn discovered(response: Result<Vec<Answer>, TransportError>) -> Result<
    IpAddress,
    DiscoveryError,
> {
    match response {
        Ok(answers) => match first_address(answers@) {
            Some(address) => Ok(address),
            None => Err(DiscoveryError::UnexpectedResponse),
        },
        Err(error) => Err(DiscoveryError::Transport(error)),
    }
}

/// Reads the discovered address off the outcome of the exchange. Only the
/// first answer counts; a failed exchange is passed on, and a response
/// without a leading address record is a failure of its own.
pub fn dig(response: Result<Vec<Answer>, TransportError>) -> (result: Result<
    IpAddress,
    DiscoveryError,
>)
    ensures
        result == discovered(response),
{
    match response {
        Ok(answers) => {
            if answers.len() == 0 {
                Err(DiscoveryError::UnexpectedResponse)
            } else {
                match answers[0] {
                    Answer::A(address) => Ok(IpAddress::V4(address)),
                    Answer::AAAA(address) => Ok(IpAddress::V6(address)),
                    Answer::Other => Err(DiscoveryError::UnexpectedResponse),
                }
            }
        },
        Err(error) => Err(DiscoveryError::Transport(error)),
    }
}

/// The category of a failed discovery: that of the failed exchange, or one
/// of its own for a response of an unexpected shape.
pub open spec fn failure_type_text(error: &DiscoveryError) -> Seq<char> {
    match error {
        DiscoveryError::Transport(cause) => error_type_text(cause),
        DiscoveryError::UnexpectedResponse => "dns/response"@,
    }
}

/// The message of a failed discovery.
pub open spec fn failure_message_text(error: DiscoveryError) -> Seq<char> {
    match error {
        DiscoveryError::Transport(cause) => error_message_text(cause),
        DiscoveryError::UnexpectedResponse => "Unknown error"@,
    }
}

/// Names the category of a failed discovery.
pub fn failure_type(error: &DiscoveryError) -> (category: String)
    ensures
        category@ == failure_type_text(error),
{
    match error {
        DiscoveryError::Transport(cause) => error_type(cause),
        DiscoveryError::UnexpectedResponse => String::from_str("dns/response"),
    }
}

/// Writes the message of a failed discovery.
pub fn failure_message(error: DiscoveryError) -> (message: String)
    ensures
        message@ == failure_message_text(error),
{
    match error {
        DiscoveryError::Transport(cause) => error_message(cause),
        DiscoveryError::UnexpectedResponse => String::from_str("Unknown error"),
    }
}

/// A response of an unexpected shape has a category that no failed
/// exchange has.
pub proof fn law_unexpected_response_is_told_apart(cause: TransportError)
    ensures
        failure_type_text(&DiscoveryError::UnexpectedResponse) != failure_type_text(
            &DiscoveryError::Transport(cause),
        ),
{
    reveal_strlit("dns/response");
    reveal_strlit("dns/protocol");
    reveal_strlit("dns/network");
    assert("dns/response"@.len() == 12);
    assert("dns/protocol"@.len() == 12);
    assert("dns/network"@.len() == 11);
    assert("dns/response"@[4] == 'r');
    assert("dns/protocol"@[4] == 'p');
}

/// The record type that holds an address of the family of `address`.
pub open spec fn family(address: IpAddress) -> RecordType {
    match address {
        IpAddress::V4(_) => RecordType::A,
        IpAddress::V6(_) => RecordType::AAAA,
    }
}

/// The type of an answer, where it is an address record.
pub open spec fn answer_type(answer: Answer) -> Option<RecordType> {
    match answer {
        Answer::A(_) => Some(RecordType::A),
        Answer::AAAA(_) => Some(RecordType::AAAA),
        Answer::Other => None,
    }
}

/// Where the first answer of a response is a record of the type that was
/// asked for, the discovery gives an address, and one of that family.
pub proof fn law_discovery_keeps_family(qtype: RecordType, answers: Vec<Answer>)
    requires
        answers@.len() > 0,
        answer_type(answers@[0]) == Some(qtype),
    ensures
        discovered(Ok(answers)) matches Ok(address) && family(address) == qtype,
{
}

/// A response without answers is a failure of its own kind, whatever was
/// asked for.
pub proof fn law_no_answer_is_a_failure(answers: Vec<Answer>)
    requires
        answers@.len() == 0,
    ensures
        discovered(Ok(answers)) == Err::<IpAddress, DiscoveryError>(
            DiscoveryError::UnexpectedResponse,
        ),
{
}

} // verus!
