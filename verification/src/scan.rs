//! The probe: one attempt to connect to a port of an address, send the
//! port's payload, read what comes back and decide whether it is a finding.
//!
//! A probe does no I/O. It says what is to be done next, and is told what
//! came of it.

use crate::conf::Payloads;
use crate::report::{
    notice_of, target_string, target_text, Notice, NoticeKind, NoticeView, Response, ResponseView,
};
use crate::text::{bytes_are_blank, is_blank, is_blank_bytes, text_is_blank};
use crate::utils::{get_payload, resolve};
use vstd::prelude::*;
use vstd::string::StringExecFns;

verus! {

/// How many bytes of a response are read at most. One read is made, and a
/// short one is the whole response.
pub const READ_LIMIT: usize = 4096;

/// Where a probe stands.
#[derive(Clone, Copy, Debug, PartialEq, Eq, Structural)]
pub enum ProbeState {
    /// The connection is being made.
    Connecting,
    /// The payload is being sent and the response awaited.
    Exchanging,
    /// Ended without a finding.
    Silent,
    /// Ended with a finding.
    Recorded,
}

/// One probe of one port of one address.
#[derive(Clone, Debug)]
pub struct Probe {
    /// The address, as text.
    pub ip: String,
    pub port: u16,
    /// The time allowed for the connect, and again for send and receive,
    /// in milliseconds.
    pub timeout: u64,
    /// Whether the operator is told of each step.
    pub logging: bool,
    pub state: ProbeState,
    /// The payload that was resolved once the connection stood.
    pub payload: String,
}

/// [`Probe`] as contracts see it.
pub struct ProbeView {
    pub ip: Seq<char>,
    pub port: u16,
    pub timeout: u64,
    pub logging: bool,
    pub state: ProbeState,
    pub payload: Seq<char>,
}

impl View for Probe {
    type V = ProbeView;

    open spec fn view(&self) -> ProbeView {
        ProbeView {
            ip: self.ip@,
            port: self.port,
            timeout: self.timeout,
            logging: self.logging,
            state: self.state,
            payload: self.payload@,
        }
    }
}

/// What the caller tells a probe.
#[derive(Clone, Debug)]
pub enum ProbeEvent {
    /// The connection stands.
    Connected,
    /// The connection failed, for the reason given.
    ConnectFailed(String),
    /// The connection was not made in time.
    ConnectTimedOut,
    /// The payload was sent and these bytes were read.
    Received(Vec<u8>),
    /// Sending or receiving failed, for the reason given.
    IoFailed(String),
    /// Sending and receiving took too long.
    IoTimedOut,
}

/// [`ProbeEvent`] as contracts see it.
pub enum ProbeEventView {
    Connected,
    ConnectFailed(Seq<char>),
    ConnectTimedOut,
    Received(Seq<u8>),
    IoFailed(Seq<char>),
    IoTimedOut,
}

impl View for ProbeEvent {
    type V = ProbeEventView;

    open spec fn view(&self) -> ProbeEventView {
        match self {
            ProbeEvent::Connected => ProbeEventView::Connected,
            ProbeEvent::ConnectFailed(reason) => ProbeEventView::ConnectFailed(reason@),
            ProbeEvent::ConnectTimedOut => ProbeEventView::ConnectTimedOut,
            ProbeEvent::Received(bytes) => ProbeEventView::Received(bytes@),
            ProbeEvent::IoFailed(reason) => ProbeEventView::IoFailed(reason@),
            ProbeEvent::IoTimedOut => ProbeEventView::IoTimedOut,
        }
    }
}

/// What a probe asks of the caller.
#[derive(Clone, Debug)]
pub enum ProbeAction {
    /// Connect to `target` within `timeout` milliseconds.
    Connect { target: String, timeout: u64 },
    /// Within `timeout` milliseconds, counted anew, write all of `payload`
    /// and then read once, at most `read_limit` bytes.
    Exchange { payload: String, read_limit: usize, timeout: u64 },
    /// Hand the finding to the result sink. The probe has ended.
    Record(Response),
    /// Nothing more: the probe has ended without a finding.
    Stop,
    /// Nothing: the probe was not waiting for what it was told.
    Nothing,
}

/// [`ProbeAction`] as contracts see it.
pub enum ProbeActionView {
    Connect { target: Seq<char>, timeout: u64 },
    Exchange { payload: Seq<char>, read_limit: usize, timeout: u64 },
    Record(ResponseView),
    Stop,
    Nothing,
}

impl View for ProbeAction {
    type V = ProbeActionView;

    open spec fn view(&self) -> ProbeActionView {
        match self {
            ProbeAction::Connect { target, timeout } => ProbeActionView::Connect {
                target: target@,
                timeout: *timeout,
            },
            ProbeAction::Exchange { payload, read_limit, timeout } => ProbeActionView::Exchange {
                payload: payload@,
                read_limit: *read_limit,
                timeout: *timeout,
            },
            ProbeAction::Record(response) => ProbeActionView::Record(response@),
            ProbeAction::Stop => ProbeActionView::Stop,
            ProbeAction::Nothing => ProbeActionView::Nothing,
        }
    }
}

/// What one step of a probe comes to: at most one line for the operator,
/// which is shown first, and what to do next.
#[derive(Clone, Debug)]
pub struct ProbeOutput {
    pub notice: Option<Notice>,
    pub action: ProbeAction,
}

/// [`ProbeOutput`] as contracts see it.
pub struct ProbeOutputView {
    pub notice: Option<NoticeView>,
    pub action: ProbeActionView,
}

impl View for ProbeOutput {
    type V = ProbeOutputView;

    open spec fn view(&self) -> ProbeOutputView {
        ProbeOutputView {
            notice: match self.notice {
                Some(notice) => Some(notice@),
                None => None,
            },
            action: self.action@,
        }
    }
}

/// The text that `String::from_utf8_lossy` makes of `bytes`: valid UTF-8
/// decoded as it is, and each stretch that is not replaced by U+FFFD.
pub uninterp spec fn utf8_lossy(bytes: Seq<u8>) -> Seq<char>;

/// `String::from_utf8_lossy`, with the result copied into a string of its
/// own. Decoding depends on the bytes alone and never fails; the text is
/// the one that [`utf8_lossy`] names.
#[verifier::external_body]
fn decode_lossy(bytes: &[u8]) -> (text: String)
    ensures
        text@ == utf8_lossy(bytes@),
{
    String::from_utf8_lossy(bytes).into_owned()
}

/// Whether a response that decodes to `text` is worth recording: it is,
/// unless the bytes are blank or the text is.
pub open spec fn is_finding(bytes: Seq<u8>, text: Seq<char>) -> bool {
    !is_blank_bytes(bytes) && !is_blank(text)
}

/// Keeps a decoded response unless it is blank.
pub fn keep_text(text: String) -> (r: Option<String>)
    ensures
        r is Some <==> !is_blank(text@),
        r matches Some(kept) ==> kept@ == text@,
{
    if text_is_blank(text.as_str()) {
        None
    } else {
        Some(text)
    }
}

/// Classifies a response: its text, decoded leniently, if the response is
/// worth recording, and nothing otherwise. Bytes that are all ASCII
/// whitespace, and none at all, are never decoded.
pub fn classify(bytes: &[u8]) -> (r: Option<String>)
    ensures
        r is Some <==> is_finding(bytes@, utf8_lossy(bytes@)),
        r matches Some(text) ==> text@ == utf8_lossy(bytes@),
{
    if bytes_are_blank(bytes) {
        return None;
    }
    keep_text(decode_lossy(bytes))
}

/// The line for the operator where the probe runs with logging, and none
/// where it runs silently.
pub open spec fn logged(probe: ProbeView, kind: NoticeKind, reason: Seq<char>) -> Option<
    NoticeView,
> {
    if probe.logging {
        Some(notice_of(kind, target_text(probe.ip, probe.port), probe.port, reason))
    } else {
        None
    }
}

/// A probe that sets out.
pub open spec fn fresh_probe(ip: Seq<char>, port: u16, timeout: u64, logging: bool) -> ProbeView {
    ProbeView { ip, port, timeout, logging, state: ProbeState::Connecting, payload: Seq::empty() }
}

/// What a probe asks for when it sets out: the connection, and with logging
/// a line that says so.
pub open spec fn first_output(probe: ProbeView) -> ProbeOutputView {
    ProbeOutputView {
        notice: logged(probe, NoticeKind::Scanning, Seq::empty()),
        action: ProbeActionView::Connect {
            target: target_text(probe.ip, probe.port),
            timeout: probe.timeout,
        },
    }
}

/// The payload that a probe sends: the one resolved for its port, or none
/// at all where the port has no entry.
pub open spec fn payload_to_send(
    probe: ProbeView,
    payloads: Map<u16, Seq<char>>,
    placeholders: bool,
) -> Seq<char> {
    match resolve(payloads, placeholders, probe.port, probe.ip) {
        Some(payload) => payload,
        None => Seq::empty(),
    }
}

/// Whether the probe is waiting for `event`.
pub open spec fn awaits(probe: ProbeView, event: ProbeEventView) -> bool {
    match probe.state {
        ProbeState::Connecting => event is Connected || event is ConnectFailed
            || event is ConnectTimedOut,
        ProbeState::Exchanging => event is Received || event is IoFailed || event is IoTimedOut,
        _ => false,
    }
}

/// The probe after a response of `bytes` that decode to `text`: it has
/// ended, with a finding if the response is worth one.
pub open spec fn after_response(probe: ProbeView, bytes: Seq<u8>, text: Seq<char>) -> ProbeView {
    if is_finding(bytes, text) {
        ProbeView { state: ProbeState::Recorded, ..probe }
    } else {
        ProbeView { state: ProbeState::Silent, ..probe }
    }
}

/// What the probe says and asks for after such a response: the finding is
/// to be recorded, with the target, the payload that was sent and the
/// text, or nothing is said and nothing is left to do.
pub open spec fn response_output(probe: ProbeView, bytes: Seq<u8>, text: Seq<char>) -> ProbeOutputView {
    if is_finding(bytes, text) {
        ProbeOutputView {
            notice: logged(probe, NoticeKind::Found, Seq::empty()),
            action: ProbeActionView::Record(
                ResponseView {
                    port: probe.port,
                    addr: target_text(probe.ip, probe.port),
                    payload: probe.payload,
                    response: text,
                },
            ),
        }
    } else {
        ProbeOutputView { notice: None, action: ProbeActionView::Stop }
    }
}

/// The probe after it was told `event`. `text` is what the response, if
/// `event` brings one, decodes to.
pub open spec fn probe_after(
    probe: ProbeView,
    event: ProbeEventView,
    text: Seq<char>,
    payloads: Map<u16, Seq<char>>,
    placeholders: bool,
) -> ProbeView {
    if !awaits(probe, event) {
        probe
    } else {
        match event {
            ProbeEventView::Connected => ProbeView {
                state: ProbeState::Exchanging,
                payload: payload_to_send(probe, payloads, placeholders),
                ..probe
            },
            ProbeEventView::Received(bytes) => after_response(probe, bytes, text),
            _ => ProbeView { state: ProbeState::Silent, ..probe },
        }
    }
}

/// What the probe says and asks for when it is told `event`. `text` is what
/// the response, if `event` brings one, decodes to.
pub open spec fn probe_output(
    probe: ProbeView,
    event: ProbeEventView,
    text: Seq<char>,
    payloads: Map<u16, Seq<char>>,
    placeholders: bool,
) -> ProbeOutputView {
    if !awaits(probe, event) {
        ProbeOutputView { notice: None, action: ProbeActionView::Nothing }
    } else {
        match event {
            ProbeEventView::Connected => ProbeOutputView {
                notice: if payloads.contains_key(probe.port) {
                    None
                } else {
                    Some(
                        notice_of(
                            NoticeKind::PayloadMissing,
                            target_text(probe.ip, probe.port),
                            probe.port,
                            Seq::empty(),
                        ),
                    )
                },
                action: ProbeActionView::Exchange {
                    payload: payload_to_send(probe, payloads, placeholders),
                    read_limit: READ_LIMIT,
                    timeout: probe.timeout,
                },
            },
            ProbeEventView::ConnectFailed(reason) => ProbeOutputView {
                notice: logged(probe, NoticeKind::ConnectError, reason),
                action: ProbeActionView::Stop,
            },
            ProbeEventView::ConnectTimedOut => ProbeOutputView {
                notice: logged(probe, NoticeKind::ConnectTimeout, Seq::empty()),
                action: ProbeActionView::Stop,
            },
            ProbeEventView::Received(bytes) => response_output(probe, bytes, text),
            ProbeEventView::IoFailed(reason) => ProbeOutputView {
                notice: logged(probe, NoticeKind::IoError, reason),
                action: ProbeActionView::Stop,
            },
            ProbeEventView::IoTimedOut => ProbeOutputView {
                notice: logged(probe, NoticeKind::IoTimeout, Seq::empty()),
                action: ProbeActionView::Stop,
            },
        }
    }
}

/// What the bytes of `event`, if it brings a response, decode to.
pub open spec fn decoded(event: ProbeEventView) -> Seq<char> {
    match event {
        ProbeEventView::Received(bytes) => utf8_lossy(bytes),
        _ => Seq::empty(),
    }
}

impl Probe {
    fn start(addr: String, port: u16, conn_timeout: u64, logging: bool) -> (r: (Probe, ProbeOutput))
        ensures
            r.0@ == fresh_probe(addr@, port, conn_timeout, logging),
            r.1@ == first_output(r.0@),
    {
        let target = target_string(addr.as_str(), port);
        let notice = if logging {
            Some(Notice::new(NoticeKind::Scanning, target.as_str(), port, ""))
        } else {
            None
        };
        let probe = Probe {
            ip: addr,
            port,
            timeout: conn_timeout,
            logging,
            state: ProbeState::Connecting,
            payload: String::new(),
        };
        (probe, ProbeOutput { notice, action: ProbeAction::Connect { target, timeout: conn_timeout } })
    }

    fn end_silently(&mut self, kind: NoticeKind, reason: &str) -> (out: ProbeOutput)
        ensures
            final(self)@ == (ProbeView { state: ProbeState::Silent, ..old(self)@ }),
            out@ == (ProbeOutputView {
                notice: logged(old(self)@, kind, reason@),
                action: ProbeActionView::Stop,
            }),
    {
        self.state = ProbeState::Silent;
        let notice = if self.logging {
            let target = target_string(self.ip.as_str(), self.port);
            Some(Notice::new(kind, target.as_str(), self.port, reason))
        } else {
            None
        };
        ProbeOutput { notice, action: ProbeAction::Stop }
    }

    fn send_payload(&mut self, payloads: &Payloads, placeholders: bool) -> (out: ProbeOutput)
        requires
            old(self).state == ProbeState::Connecting,
        ensures
            final(self)@ == probe_after(
                old(self)@,
                ProbeEventView::Connected,
                Seq::empty(),
                payloads@,
                placeholders,
            ),
            out@ == probe_output(
                old(self)@,
                ProbeEventView::Connected,
                Seq::empty(),
                payloads@,
                placeholders,
            ),
    {
        let notice = match get_payload(payloads, placeholders, self.port, self.ip.as_str()) {
            Ok(payload) => {
                self.payload = payload;
                None
            },
            Err(_) => {
                self.payload = String::new();
                let target = target_string(self.ip.as_str(), self.port);
                Some(Notice::new(NoticeKind::PayloadMissing, target.as_str(), self.port, ""))
            },
        };
        self.state = ProbeState::Exchanging;
        ProbeOutput {
            notice,
            action: ProbeAction::Exchange {
                payload: self.payload.clone(),
                read_limit: READ_LIMIT,
                timeout: self.timeout,
            },
        }
    }

    fn weigh_response(&mut self, bytes: &[u8]) -> (out: ProbeOutput)
        ensures
            final(self)@ == after_response(old(self)@, bytes@, utf8_lossy(bytes@)),
            out@ == response_output(old(self)@, bytes@, utf8_lossy(bytes@)),
    {
        match classify(bytes) {
            None => {
                self.state = ProbeState::Silent;
                ProbeOutput { notice: None, action: ProbeAction::Stop }
            },
            Some(text) => {
                self.state = ProbeState::Recorded;
                let target = target_string(self.ip.as_str(), self.port);
                let notice = if self.logging {
                    Some(Notice::new(NoticeKind::Found, target.as_str(), self.port, ""))
                } else {
                    None
                };
                let response = Response {
                    port: self.port,
                    addr: target,
                    payload: self.payload.clone(),
                    response: text,
                };
                ProbeOutput { notice, action: ProbeAction::Record(response) }
            },
        }
    }

    /// Tells the probe what came of the step it asked for, and learns what
    /// it asks for next.
    ///
    /// When the connection stands, the payload for the port is resolved. A
    /// port without a payload is reported, with and without logging, and
    /// the probe goes on with an empty payload. A failure or a timeout ends
    /// the probe silently, and so does a blank response. Any other response
    /// makes a finding. What the probe is not waiting for changes nothing.
    pub fn step(&mut self, event: ProbeEvent, payloads: &Payloads, placeholders: bool) -> (out:
        ProbeOutput)
        ensures
            final(self)@ == probe_after(
                old(self)@,
                event@,
                decoded(event@),
                payloads@,
                placeholders,
            ),
            out@ == probe_output(old(self)@, event@, decoded(event@), payloads@, placeholders),
    {
        match self.state {
            ProbeState::Connecting => match event {
                ProbeEvent::Connected => self.send_payload(payloads, placeholders),
                ProbeEvent::ConnectFailed(reason) => self.end_silently(
                    NoticeKind::ConnectError,
                    reason.as_str(),
                ),
                ProbeEvent::ConnectTimedOut => self.end_silently(NoticeKind::ConnectTimeout, ""),
                _ => ProbeOutput { notice: None, action: ProbeAction::Nothing },
            },
            ProbeState::Exchanging => match event {
                ProbeEvent::Received(bytes) => self.weigh_response(bytes.as_slice()),
                ProbeEvent::IoFailed(reason) => self.end_silently(
                    NoticeKind::IoError,
                    reason.as_str(),
                ),
                ProbeEvent::IoTimedOut => self.end_silently(NoticeKind::IoTimeout, ""),
                _ => ProbeOutput { notice: None, action: ProbeAction::Nothing },
            },
            _ => ProbeOutput { notice: None, action: ProbeAction::Nothing },
        }
    }
}

/// Sets out to probe `port` of `addr` with logging: the operator is told of
/// the probe, of what goes wrong and of a finding.
pub fn scan_single_port(addr: String, port: u16, conn_timeout: u64) -> (r: (Probe, ProbeOutput))
    ensures
        r.0@ == fresh_probe(addr@, port, conn_timeout, true),
        r.1@ == first_output(r.0@),
{
    Probe::start(addr, port, conn_timeout, true)
}

/// Sets out to probe `port` of `addr` silently: the operator is told only of
/// a port that has no payload.
pub fn scan_single_port_no_log(addr: String, port: u16, conn_timeout: u64) -> (r: (
    Probe,
    ProbeOutput,
))
    ensures
        r.0@ == fresh_probe(addr@, port, conn_timeout, false),
        r.1@ == first_output(r.0@),
{
    Probe::start(addr, port, conn_timeout, false)
}

/// Sets out to probe every port that has a payload, once each, on `addr`:
/// the probes of one address scan, in no particular order. They run side by
/// side, and the scan is over when all of them have ended.
pub fn scan_ip_with_ports(addr: &str, timeout: u64, logging: bool, payloads: &Payloads) -> (r: Vec<
    (Probe, ProbeOutput),
>)
    ensures
        r@.len() == payloads@.dom().len(),
        forall|i: int|
            0 <= i < r@.len() ==> {
                &&& payloads@.contains_key(#[trigger] r@[i].0.port)
                &&& r@[i].0@ == fresh_probe(addr@, r@[i].0.port, timeout, logging)
                &&& r@[i].1@ == first_output(r@[i].0@)
            },
        forall|i: int, j: int|
            0 <= i < j < r@.len() ==> (#[trigger] r@[i]).0.port != (#[trigger] r@[j]).0.port,
        forall|port: u16|
            payloads@.contains_key(port) ==> exists|i: int|
                0 <= i < r@.len() && (#[trigger] r@[i]).0.port == port,
{
    let ports = payloads.ports();
    let mut started: Vec<(Probe, ProbeOutput)> = Vec::new();
    let n = ports.len();
    let mut k: usize = 0;
    while k < n
        invariant
            k <= n,
            n == ports@.len(),
            started@.len() == k,
            forall|i: int|
                0 <= i < k ==> {
                    &&& (#[trigger] started@[i]).0.port == ports@[i]
                    &&& started@[i].0@ == fresh_probe(addr@, ports@[i], timeout, logging)
                    &&& started@[i].1@ == first_output(started@[i].0@)
                },
        decreases n - k,
    {
        let probe = Probe::start(String::from_str(addr), ports[k], timeout, logging);
        started.push(probe);
        k += 1;
    }
    proof {
        assert forall|i: int| 0 <= i < started@.len() implies payloads@.contains_key(
            #[trigger] started@[i].0.port,
        ) by {
            assert(ports@.contains(ports@[i]));
        }
        assert forall|port: u16| payloads@.contains_key(port) implies exists|i: int|
            0 <= i < started@.len() && (#[trigger] started@[i]).0.port == port by {
            assert(ports@.contains(port));
            let i = choose|i: int| 0 <= i < ports@.len() && ports@[i] == port;
            assert(started@[i].0.port == port);
        }
    }
    started
}

/// How often, over a run of events, the operator is told that the port has
/// no payload.
pub open spec fn missing_reports(
    probe: ProbeView,
    events: Seq<ProbeEventView>,
    payloads: Map<u16, Seq<char>>,
    placeholders: bool,
) -> nat
    decreases events.len(),
{
    if events.len() == 0 {
        0
    } else {
        let first = events[0];
        let said = probe_output(probe, first, decoded(first), payloads, placeholders).notice;
        let next = probe_after(probe, first, decoded(first), payloads, placeholders);
        (if said matches Some(notice) && notice.kind == NoticeKind::PayloadMissing {
            1nat
        } else {
            0nat
        }) + missing_reports(next, events.skip(1), payloads, placeholders)
    }
}

/// A probe whose port has no payload does not fail when the connection
/// stands: it goes on to send an empty payload, and says once that the
/// payload is missing, with logging and without.
pub proof fn lemma_probe_goes_on_without_payload(
    probe: ProbeView,
    payloads: Map<u16, Seq<char>>,
    placeholders: bool,
)
    requires
        probe.state == ProbeState::Connecting,
        !payloads.contains_key(probe.port),
    ensures
        probe_after(probe, ProbeEventView::Connected, Seq::empty(), payloads, placeholders) == (
        ProbeView { state: ProbeState::Exchanging, payload: Seq::empty(), ..probe }),
        probe_output(probe, ProbeEventView::Connected, Seq::empty(), payloads, placeholders) == (
        ProbeOutputView {
            notice: Some(
                notice_of(
                    NoticeKind::PayloadMissing,
                    target_text(probe.ip, probe.port),
                    probe.port,
                    Seq::empty(),
                ),
            ),
            action: ProbeActionView::Exchange {
                payload: Seq::empty(),
                read_limit: READ_LIMIT,
                timeout: probe.timeout,
            },
        }),
{
}

/// Whatever a probe is told, and in whatever order, it says at most once
/// that the port has no payload: never once the connect has been answered,
/// never for a port that has a payload, and exactly once where the run
/// begins with the connection of a probe whose port has none.
pub proof fn lemma_missing_payload_reported_once(
    probe: ProbeView,
    events: Seq<ProbeEventView>,
    payloads: Map<u16, Seq<char>>,
    placeholders: bool,
)
    ensures
        missing_reports(probe, events, payloads, placeholders) <= 1,
        probe.state != ProbeState::Connecting || payloads.contains_key(probe.port)
            ==> missing_reports(probe, events, payloads, placeholders) == 0,
        probe.state == ProbeState::Connecting && !payloads.contains_key(probe.port) && events.len()
            > 0 && events[0] is Connected ==> missing_reports(
            probe,
            events,
            payloads,
            placeholders,
        ) == 1,
    decreases events.len(),
{
    if events.len() > 0 {
        let first = events[0];
        let next = probe_after(probe, first, decoded(first), payloads, placeholders);
        lemma_missing_payload_reported_once(next, events.skip(1), payloads, placeholders);
    }
}

/// A response that is blank, as bytes or as text, leaves no trace: no
/// finding is asked to be recorded and nothing is said. The probe that
/// waited for it has ended silently, and a probe that has ended stays as it
/// is whatever it is told.
pub proof fn lemma_blank_response_leaves_no_trace(
    probe: ProbeView,
    bytes: Seq<u8>,
    text: Seq<char>,
    then: ProbeEventView,
    payloads: Map<u16, Seq<char>>,
    placeholders: bool,
)
    requires
        is_blank_bytes(bytes) || is_blank(text),
    ensures
        ({
            let event = ProbeEventView::Received(bytes);
            let after = probe_after(probe, event, text, payloads, placeholders);
            let output = probe_output(probe, event, text, payloads, placeholders);
            &&& !(output.action is Record)
            &&& output.notice is None
            &&& probe.state == ProbeState::Exchanging ==> after.state == ProbeState::Silent
                && output.action == ProbeActionView::Stop
            &&& probe.state != ProbeState::Exchanging ==> after == probe
            &&& after.state == ProbeState::Silent ==> probe_after(
                after,
                then,
                decoded(then),
                payloads,
                placeholders,
            ) == after && probe_output(after, then, decoded(then), payloads, placeholders).action
                == ProbeActionView::Nothing
        }),
{
}

} // verus!
