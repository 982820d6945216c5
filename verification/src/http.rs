//! The fetch: one HTTP/1.0 request over one TCP socket, driven tick by tick.
//!
//! The network stack is not called from here. After each poll of the stack
//! the caller reads the socket's readiness, asks `step` what to do, does it,
//! waits for the interface, and hands the outcome to `settle`.

use crate::address::Ipv4Address;
use crate::entropy::random_u16;
use crate::locator::Locator;
use vstd::prelude::*;
use vstd::string::StringExecFns;
use vstd::utf8::{decode_utf8, valid_utf8};

verus! {

/// The TCP port of the server.
pub const HTTP_PORT: u16 = 80;

/// The lowest ephemeral port.
pub const EPHEMERAL_PORT_BASE: u16 = 49152;

/// How many ephemeral ports there are, from the lowest up to 65535.
pub const EPHEMERAL_PORT_COUNT: u16 = 16384;

/// The size in bytes of the socket's receive buffer, and of its send buffer.
pub const SOCKET_BUFFER_SIZE: usize = 1024;

/// The length of the prefix of the local network.
pub const LOCAL_PREFIX_LEN: u8 = 24;

/// How the network stack is set up for a fetch: one static local address
/// with its prefix, one default route, and one TCP socket with bounded
/// buffers.
#[derive(Clone, Copy, Debug, PartialEq, Eq, Structural)]
pub struct StackSetup {
    /// The address of the local end.
    pub local_address: Ipv4Address,
    /// The length of the prefix of the local network.
    pub prefix_len: u8,
    /// The gateway of the default route.
    pub default_gateway: Ipv4Address,
    /// The size in bytes of the socket's receive buffer.
    pub rx_buffer_size: usize,
    /// The size in bytes of the socket's send buffer.
    pub tx_buffer_size: usize,
}

/// The one setup that every fetch uses: 192.168.42.1/24 behind the gateway
/// 192.168.42.100, and 1024 bytes for each buffer.
pub open spec fn fixed_setup() -> StackSetup {
    StackSetup {
        local_address: Ipv4Address { a: 192, b: 168, c: 42, d: 1 },
        prefix_len: LOCAL_PREFIX_LEN,
        default_gateway: Ipv4Address { a: 192, b: 168, c: 42, d: 100 },
        rx_buffer_size: SOCKET_BUFFER_SIZE,
        tx_buffer_size: SOCKET_BUFFER_SIZE,
    }
}

/// Why a fetch came to nothing.
#[derive(Clone, Copy, Debug, PartialEq, Eq, Structural)]
pub enum FetchError {
    /// The locator names no host.
    MissingHost,
    /// The socket could not start to connect.
    Connect,
    /// The socket did not take the request.
    Send,
    /// The socket did not hand out the data it had announced.
    Receive,
    /// Waiting for the interface below the stack failed.
    Interface,
}

/// The phase of a fetch.
#[derive(Clone, Copy, Debug, PartialEq, Eq, Structural)]
pub enum HttpState {
    /// The connection has not been asked for yet.
    Connect,
    /// The connection was asked for; the request has not been sent yet.
    Request,
    /// The request was sent; the response is being read.
    Response,
}

/// What the socket reports of itself after a poll of the stack.
#[derive(Clone, Copy, Debug, PartialEq, Eq, Structural)]
pub struct Readiness {
    /// The socket is in use: a connection was asked for and is not closed.
    pub is_active: bool,
    /// Data may be handed to the socket for sending.
    pub may_send: bool,
    /// Received data is waiting in the socket.
    pub can_recv: bool,
    /// The peer may still send data.
    pub may_recv: bool,
}

/// What the caller is to do with the socket in one tick.
#[derive(Clone, Copy, Debug, PartialEq, Eq, Structural)]
pub enum Action {
    /// Ask for a connection to the target's `remote_port` from `local_port`.
    Connect { remote_port: u16, local_port: u16 },
    /// Write the whole request in one call.
    SendRequest,
    /// Take all the data that is waiting, and emit it.
    Receive,
    /// Leave the loop: the response is complete.
    Finish,
    /// Nothing.
    Idle,
}

/// How a tick went on after its decision.
#[derive(Clone, Copy, Debug, PartialEq, Eq, Structural)]
pub enum Outcome {
    /// The action was carried out and, unless it left the loop, the wait for
    /// the interface came back.
    Succeeded,
    /// The socket reported an error for the action.
    ActionFailed,
    /// The action was carried out, and the wait for the interface failed.
    WaitFailed,
}

/// What becomes of the data that the socket hands out in one call.
#[derive(Debug)]
pub struct Drained {
    /// How many bytes are taken out of the socket.
    pub consumed: usize,
    /// The text to emit.
    pub text: String,
}

/// The decision of one tick: what to do, and the phase that follows if it
/// succeeds.
#[derive(Clone, Copy, Debug, PartialEq, Eq, Structural)]
pub struct Step {
    pub action: Action,
    pub next: HttpState,
}

/// The ephemeral port that a 16-bit sample stands for.
pub open spec fn ephemeral_port(sample: u16) -> u16 {
    (EPHEMERAL_PORT_BASE + sample % EPHEMERAL_PORT_COUNT) as u16
}

/// What `String::from_utf8_lossy` makes of `bytes`: their text, with the
/// replacement character in place of what is no valid UTF-8.
pub uninterp spec fn lossy_text(bytes: Seq<u8>) -> Seq<char>;

/// Decodes `data` leniently with `String::from_utf8_lossy`. Valid UTF-8
/// comes back as the text it encodes.
#[verifier::external_body]
fn decode_lossy(data: &[u8]) -> (text: String)
    ensures
        text@ == lossy_text(data@),
        valid_utf8(data@) ==> text@ == decode_utf8(data@),
{
    String::from_utf8_lossy(data).into_owned()
}

/// The decision of one tick, where `sample` is what the entropy source gives
/// if a local port is needed. Waiting data is taken before the end of the
/// stream is looked for; whatever fits no rule leaves the phase as it is.
pub open spec fn decision(state: HttpState, readiness: Readiness, sample: u16) -> Step {
    match state {
        HttpState::Connect if !readiness.is_active => Step {
            action: Action::Connect {
                remote_port: HTTP_PORT,
                local_port: ephemeral_port(sample),
            },
            next: HttpState::Request,
        },
        HttpState::Request if readiness.may_send => Step {
            action: Action::SendRequest,
            next: HttpState::Response,
        },
        HttpState::Response if readiness.can_recv => Step {
            action: Action::Receive,
            next: HttpState::Response,
        },
        HttpState::Response if !readiness.may_recv => Step {
            action: Action::Finish,
            next: HttpState::Response,
        },
        _ => Step { action: Action::Idle, next: state },
    }
}

/// What follows a tick: the phase to go on with, `None` where the loop is
/// left, or the error that ends the fetch. Only connecting, sending and
/// receiving can fail; the interface is waited for after every tick but the
/// one that leaves the loop.
pub open spec fn settled(step: Step, outcome: Outcome) -> Result<Option<HttpState>, FetchError> {
    match (step.action, outcome) {
        (Action::Finish, _) => Ok(None),
        (Action::Connect { .. }, Outcome::ActionFailed) => Err(FetchError::Connect),
        (Action::SendRequest, Outcome::ActionFailed) => Err(FetchError::Send),
        (Action::Receive, Outcome::ActionFailed) => Err(FetchError::Receive),
        (_, Outcome::WaitFailed) => Err(FetchError::Interface),
        _ => Ok(Some(step.next)),
    }
}

/// The request for `path` at `host`: HTTP/1.0 with `Connection: close`, so
/// that the server ends the stream after the response.
pub open spec fn request_text(path: Seq<char>, host: Seq<char>) -> Seq<char> {
    "GET "@ + path + " HTTP/1.0\r\nHost: "@ + host + "\r\nConnection: close\r\n\r\n"@
}

/// The setup of the network stack for a fetch.
pub fn stack_setup() -> (setup: StackSetup)
    ensures
        setup == fixed_setup(),
{
    StackSetup {
        local_address: Ipv4Address::new(192, 168, 42, 1),
        prefix_len: LOCAL_PREFIX_LEN,
        default_gateway: Ipv4Address::new(192, 168, 42, 100),
        rx_buffer_size: SOCKET_BUFFER_SIZE,
        tx_buffer_size: SOCKET_BUFFER_SIZE,
    }
}

/// The ephemeral port that `sample` stands for, between 49152 and 65535.
pub fn port_from_sample(sample: u16) -> (port: u16)
    ensures
        port == ephemeral_port(sample),
        port == EPHEMERAL_PORT_BASE + sample % EPHEMERAL_PORT_COUNT,
        EPHEMERAL_PORT_BASE <= port <= u16::MAX,
{
    EPHEMERAL_PORT_BASE + sample % EPHEMERAL_PORT_COUNT
}

/// An ephemeral port drawn from the process-wide entropy source.
pub fn random_port() -> (port: u16)
    ensures
        EPHEMERAL_PORT_BASE <= port <= u16::MAX,
        exists|sample: u16| port == #[trigger] ephemeral_port(sample),
{
    port_from_sample(random_u16())
}

/// The decision of one tick for a given sample of the entropy source.
pub fn step_with(state: HttpState, readiness: Readiness, sample: u16) -> (step: Step)
    ensures
        step == decision(state, readiness, sample),
{
    match state {
        HttpState::Connect if !readiness.is_active => Step {
            action: Action::Connect {
                remote_port: HTTP_PORT,
                local_port: port_from_sample(sample),
            },
            next: HttpState::Request,
        },
        HttpState::Request if readiness.may_send => Step {
            action: Action::SendRequest,
            next: HttpState::Response,
        },
        HttpState::Response if readiness.can_recv => Step {
            action: Action::Receive,
            next: HttpState::Response,
        },
        HttpState::Response if !readiness.may_recv => Step {
            action: Action::Finish,
            next: HttpState::Response,
        },
        _ => Step { action: Action::Idle, next: state },
    }
}

/// The decision of one tick. A local port is drawn from the process-wide
/// entropy source where a connection is to be asked for, and only there.
pub fn step(state: HttpState, readiness: Readiness) -> (step: Step)
    ensures
        exists|sample: u16| step == #[trigger] decision(state, readiness, sample),
{
    let sample: u16 = match state {
        HttpState::Connect if !readiness.is_active => random_u16(),
        _ => 0,
    };
    step_with(state, readiness, sample)
}

/// What follows a tick in which the action of `step` was carried out and,
/// unless it failed or left the loop, the interface was waited for.
pub fn settle(step: Step, outcome: Outcome) -> (r: Result<Option<HttpState>, FetchError>)
    ensures
        r == settled(step, outcome),
{
    match step.action {
        Action::Finish => Ok(None),
        Action::Idle => match outcome {
            Outcome::WaitFailed => Err(FetchError::Interface),
            _ => Ok(Some(step.next)),
        },
        Action::Connect { .. } => match outcome {
            Outcome::Succeeded => Ok(Some(step.next)),
            Outcome::ActionFailed => Err(FetchError::Connect),
            Outcome::WaitFailed => Err(FetchError::Interface),
        },
        Action::SendRequest => match outcome {
            Outcome::Succeeded => Ok(Some(step.next)),
            Outcome::ActionFailed => Err(FetchError::Send),
            Outcome::WaitFailed => Err(FetchError::Interface),
        },
        Action::Receive => match outcome {
            Outcome::Succeeded => Ok(Some(step.next)),
            Outcome::ActionFailed => Err(FetchError::Receive),
            Outcome::WaitFailed => Err(FetchError::Interface),
        },
    }
}

/// Takes all of the data that the socket hands out, and decodes it
/// leniently for display. Nothing of a status line, a header or a body is
/// told apart.
pub fn drain(data: &[u8]) -> (drained: Drained)
    ensures
        drained.consumed == data@.len(),
        drained.text@ == lossy_text(data@),
        valid_utf8(data@) ==> drained.text@ == decode_utf8(data@),
{
    Drained { consumed: data.len(), text: decode_lossy(data) }
}

/// The request line and headers for `path` at `host`.
pub fn request_header(path: &str, host: &str) -> (header: String)
    ensures
        header@ == request_text(path@, host@),
{
    let mut header = String::from_str("GET ");
    header.append(path);
    header.append(" HTTP/1.0\r\nHost: ");
    header.append(host);
    header.append("\r\nConnection: close\r\n\r\n");
    header
}

/// The request for the resource that `locator` names, computed once before
/// the loop starts.
pub fn request_for(locator: &Locator) -> (r: Result<String, FetchError>)
    ensures
        match r {
            Ok(header) => locator@.host is Some && header@ == request_text(
                locator@.path,
                locator@.host->0,
            ),
            Err(e) => e == FetchError::MissingHost && locator@.host is None,
        },
{
    match &locator.host {
        Some(host) => Ok(request_header(locator.path.as_str(), host.as_str())),
        None => Err(FetchError::MissingHost),
    }
}

/// A fetch that has not asked for its connection yet and finds the socket
/// unused asks for a connection to port 80 from an ephemeral port, and goes
/// on to send the request once that has succeeded.
pub proof fn lemma_connecting_leads_to_requesting(readiness: Readiness, sample: u16)
    requires
        !readiness.is_active,
    ensures
        decision(HttpState::Connect, readiness, sample).action == (Action::Connect {
            remote_port: HTTP_PORT,
            local_port: ephemeral_port(sample),
        }),
        EPHEMERAL_PORT_BASE <= ephemeral_port(sample) <= u16::MAX,
        decision(HttpState::Connect, readiness, sample).next == HttpState::Request,
        settled(decision(HttpState::Connect, readiness, sample), Outcome::Succeeded) == Ok::<
            Option<HttpState>,
            FetchError,
        >(Some(HttpState::Request)),
        settled(decision(HttpState::Connect, readiness, sample), Outcome::ActionFailed) == Err::<
            Option<HttpState>,
            FetchError,
        >(FetchError::Connect),
{
}

/// A fetch that is to send its request and finds the socket ready to send
/// writes the request once, and goes on to read the response once that has
/// succeeded.
pub proof fn lemma_requesting_leads_to_responding(readiness: Readiness, sample: u16)
    requires
        readiness.may_send,
    ensures
        decision(HttpState::Request, readiness, sample).action == Action::SendRequest,
        decision(HttpState::Request, readiness, sample).next == HttpState::Response,
        settled(decision(HttpState::Request, readiness, sample), Outcome::Succeeded) == Ok::<
            Option<HttpState>,
            FetchError,
        >(Some(HttpState::Response)),
        settled(decision(HttpState::Request, readiness, sample), Outcome::ActionFailed) == Err::<
            Option<HttpState>,
            FetchError,
        >(FetchError::Send),
{
}

/// A fetch that reads the response and finds no data waiting and the stream
/// ended by the peer leaves the loop, without an error.
pub proof fn lemma_end_of_stream_leaves_loop(readiness: Readiness, sample: u16, outcome: Outcome)
    requires
        !readiness.can_recv,
        !readiness.may_recv,
    ensures
        decision(HttpState::Response, readiness, sample).action == Action::Finish,
        settled(decision(HttpState::Response, readiness, sample), outcome) == Ok::<
            Option<HttpState>,
            FetchError,
        >(None),
{
}

/// A tick changes the phase only from connecting to requesting and from
/// requesting to responding; the loop is left only from responding.
pub proof fn lemma_phases_only_advance(state: HttpState, readiness: Readiness, sample: u16)
    ensures
        ({
            let step = decision(state, readiness, sample);
            &&& step.next == state || (state == HttpState::Connect && step.next
                == HttpState::Request) || (state == HttpState::Request && step.next
                == HttpState::Response)
            &&& step.action == Action::Finish ==> state == HttpState::Response
            &&& step.action == Action::Idle ==> step.next == state
        }),
{
}

} // verus!
