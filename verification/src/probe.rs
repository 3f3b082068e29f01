//! One probe of one port: what to do next after each outcome, and the banner
//! that is kept of what the service sent.

use crate::text::{
    decimal, decimal_string, find_char, lemma_first_index_of, trim_bounds, trimmed, up_to,
};
use vstd::prelude::*;
use vstd::string::StringExecFns;
use vstd::utf8::{decode_utf8, valid_utf8};

verus! {

/// How long a connection attempt, and then a read, may take, in milliseconds.
pub const DEADLINE_MS: u64 = 1000;

/// How many bytes of an answer are read.
pub const BANNER_BUFFER_LEN: usize = 512;

/// One open port.
pub struct PortInfo {
    pub port: u16,
    pub is_open: bool,
    pub service_banner: String,
    pub response_time_ms: u128,
}

/// How a connection attempt ended.
pub enum ConnectOutcome {
    Connected { elapsed_ms: u128 },
    Failed,
    TimedOut,
}

/// How the read that follows the request ended.
pub enum ReadOutcome {
    Data(Vec<u8>),
    Failed,
    TimedOut,
}

/// Where a probe stands.
pub enum ProbeState {
    /// The socket address is being made from the address text.
    Addressing,
    /// The connection attempt is under way.
    Connecting,
    /// The port is open and the answer is awaited.
    Reading { response_time_ms: u128 },
    /// The probe has reported.
    Finished,
}

/// What happened outside since the last step.
pub enum ProbeEvent {
    /// Whether the address text made a socket address.
    Addressed(bool),
    Connect(ConnectOutcome),
    Read(ReadOutcome),
}

/// What the caller of a step does next.
pub enum ProbeAction {
    /// Connect within the deadline.
    Connect { timeout_ms: u64 },
    /// Send the request, ignoring a failure to send, then read once within
    /// the deadline, at most `buffer_len` bytes.
    SendAndRead { payload: Vec<u8>, buffer_len: usize, timeout_ms: u64 },
    /// The probe is over: the port is open with this record, or is not reported.
    Report(Option<PortInfo>),
}

/// The text that lossy UTF-8 decoding makes of bytes, each malformed part
/// replaced by U+FFFD.
pub uninterp spec fn utf8_lossy(bytes: Seq<u8>) -> Seq<char>;

/// The banner of a port whose service sent nothing in time.
pub open spec fn no_banner() -> Seq<char> {
    "Servis bilgisi alınamadı"@
}

/// The request that is sent to an open port: `GET / HTTP/1.0`, then an empty line.
pub open spec fn request_bytes() -> Seq<u8> {
    seq![71u8, 69, 84, 32, 47, 32, 72, 84, 84, 80, 47, 49, 46, 48, 13, 10, 13, 10]
}

/// The banner in a decoded answer: its first line without the white space
/// at either end.
pub open spec fn banner_in(text: Seq<char>) -> Seq<char> {
    trimmed(up_to(text, '\n'))
}

/// The banner that a read leaves.
pub open spec fn banner_of(outcome: ReadOutcome) -> Seq<char> {
    match outcome {
        ReadOutcome::Data(bytes) => if bytes@.len() > 0 {
            banner_in(utf8_lossy(bytes@))
        } else {
            no_banner()
        },
        _ => no_banner(),
    }
}

/// The text of the socket address of a port at an address: the address, a
/// colon and the port. An address that holds a colon itself, as an IPv6
/// address does, stands in square brackets.
pub open spec fn address_text(ip: Seq<char>, port: u16) -> Seq<char> {
    if ip.contains(':') {
        seq!['['] + ip + seq![']', ':'] + decimal(port as nat)
    } else {
        ip + seq![':'] + decimal(port as nat)
    }
}

/// Calls `String::from_utf8_lossy`. The result is named by `utf8_lossy`, as
/// it depends on the bytes alone; of well-formed UTF-8 it is the decoded text.
#[verifier::external_body]
fn decode_lossy(bytes: &[u8]) -> (r: String)
    ensures
        r@ == utf8_lossy(bytes@),
        valid_utf8(bytes@) ==> r@ == decode_utf8(bytes@),
{
    String::from_utf8_lossy(bytes).into_owned()
}

/// Writes the socket address of a port at an address.
pub fn socket_address_text(ip: &str, port: u16) -> (r: String)
    ensures
        r@ == address_text(ip@, port),
{
    proof {
        reveal_strlit(":");
        reveal_strlit("[");
        reveal_strlit("]:");
        lemma_first_index_of(ip@, ':');
    }
    let n: usize = ip.unicode_len();
    assert(ip@.subrange(0, n as int) =~= ip@);
    let digits = decimal_string(port as u128);
    if find_char(ip, 0, ':') < n {
        let mut s = "[".to_owned();
        s.append(ip);
        s.append("]:");
        s.append(digits.as_str());
        assert(s@ =~= address_text(ip@, port));
        s
    } else {
        let mut s = ip.to_owned();
        s.append(":");
        s.append(digits.as_str());
        assert(s@ =~= address_text(ip@, port));
        s
    }
}

/// Takes the banner out of a decoded answer.
pub fn banner_line(text: &str) -> (r: String)
    ensures
        r@ == banner_in(text@),
{
    let stop: usize = find_char(text, 0, '\n');
    assert(text@.subrange(0, text@.len() as int) =~= text@);
    let (i, j) = trim_bounds(text, 0, stop);
    text.substring_char(i, j).to_owned()
}

/// Decides the banner after a read.
pub fn banner_from_read(outcome: &ReadOutcome) -> (r: String)
    ensures
        r@ == banner_of(*outcome),
        outcome is Data && outcome->Data_0@.len() > 0 && valid_utf8(outcome->Data_0@) ==> r@
            == banner_in(decode_utf8(outcome->Data_0@)),
{
    match outcome {
        ReadOutcome::Data(bytes) => {
            if bytes.len() > 0 {
                let text = decode_lossy(bytes.as_slice());
                banner_line(text.as_str())
            } else {
                "Servis bilgisi alınamadı".to_owned()
            }
        },
        _ => "Servis bilgisi alınamadı".to_owned(),
    }
}

/// The state that a probe starts in.
pub fn probe_start() -> (r: ProbeState)
    ensures
        r == ProbeState::Addressing,
{
    ProbeState::Addressing
}

/// The state after an event.
pub open spec fn probe_next(state: ProbeState, event: ProbeEvent) -> ProbeState {
    match (state, event) {
        (ProbeState::Addressing, ProbeEvent::Addressed(true)) => ProbeState::Connecting,
        (
            ProbeState::Connecting,
            ProbeEvent::Connect(ConnectOutcome::Connected { elapsed_ms }),
        ) => ProbeState::Reading { response_time_ms: elapsed_ms },
        _ => ProbeState::Finished,
    }
}

/// Whether an action is the one that an event calls for.
pub open spec fn probe_action_fits(
    port: u16,
    state: ProbeState,
    event: ProbeEvent,
    action: ProbeAction,
) -> bool {
    match (state, event) {
        (ProbeState::Addressing, ProbeEvent::Addressed(true)) => action == (ProbeAction::Connect {
            timeout_ms: DEADLINE_MS,
        }),
        (ProbeState::Connecting, ProbeEvent::Connect(ConnectOutcome::Connected { elapsed_ms })) => {
            &&& action is SendAndRead
            &&& action->payload@ == request_bytes()
            &&& action->buffer_len == BANNER_BUFFER_LEN
            &&& action->SendAndRead_timeout_ms == DEADLINE_MS
        },
        (ProbeState::Reading { response_time_ms }, ProbeEvent::Read(outcome)) => {
            &&& action is Report
            &&& action->Report_0 is Some
            &&& action->Report_0->0.port == port
            &&& action->Report_0->0.is_open
            &&& action->Report_0->0.service_banner@ == banner_of(outcome)
            &&& action->Report_0->0.response_time_ms == response_time_ms
        },
        _ => action == ProbeAction::Report(None),
    }
}

/// Takes a probe of `port` one step on. An address that is refused, a
/// connection that fails or times out, and an event that the state does not
/// wait for end the probe with nothing to report. A connection that is made
/// is reported, whatever the read brings.
pub fn probe_step(port: u16, state: ProbeState, event: ProbeEvent) -> (r: (ProbeState, ProbeAction))
    ensures
        r.0 == probe_next(state, event),
        probe_action_fits(port, state, event, r.1),
{
    match (state, event) {
        (ProbeState::Addressing, ProbeEvent::Addressed(true)) => (
            ProbeState::Connecting,
            ProbeAction::Connect { timeout_ms: DEADLINE_MS },
        ),
        (ProbeState::Connecting, ProbeEvent::Connect(ConnectOutcome::Connected { elapsed_ms })) => {
            let payload: Vec<u8> = vec![
                71u8, 69, 84, 32, 47, 32, 72, 84, 84, 80, 47, 49, 46, 48, 13, 10, 13, 10,
            ];
            assert(payload@ =~= request_bytes());
            (
                ProbeState::Reading { response_time_ms: elapsed_ms },
                ProbeAction::SendAndRead {
                    payload,
                    buffer_len: BANNER_BUFFER_LEN,
                    timeout_ms: DEADLINE_MS,
                },
            )
        },
        (ProbeState::Reading { response_time_ms }, ProbeEvent::Read(outcome)) => {
            let banner = banner_from_read(&outcome);
            (
                ProbeState::Finished,
                ProbeAction::Report(
                    Some(PortInfo { port, is_open: true, service_banner: banner, response_time_ms }),
                ),
            )
        },
        _ => (ProbeState::Finished, ProbeAction::Report(None)),
    }
}

/// A port is reported only by the step that takes the outcome of the read,
/// which is reached only through a connection made within the deadline.
pub proof fn law_only_a_connection_reports(
    port: u16,
    state: ProbeState,
    event: ProbeEvent,
    action: ProbeAction,
)
    requires
        probe_action_fits(port, state, event, action),
        action is Report,
        action->Report_0 is Some,
    ensures
        state is Reading,
        event is Read,
{
}

/// A port whose service accepts the connection and then sends nothing, fails
/// or lets the deadline pass is reported open, with the banner that stands
/// for no answer.
pub proof fn law_silent_service_is_open(
    port: u16,
    response_time_ms: u128,
    outcome: ReadOutcome,
    action: ProbeAction,
)
    requires
        probe_action_fits(
            port,
            ProbeState::Reading { response_time_ms },
            ProbeEvent::Read(outcome),
            action,
        ),
        outcome is Data ==> outcome->Data_0@.len() == 0,
    ensures
        action is Report,
        action->Report_0 is Some,
        action->Report_0->0.port == port,
        action->Report_0->0.is_open,
        action->Report_0->0.service_banner@ == no_banner(),
{
}

} // verus!
