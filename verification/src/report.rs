//! What the engine reports: findings for the log and notices for the
//! operator's console.

use crate::text::{decimal, push_decimal};
use vstd::prelude::*;
use vstd::string::StringExecFns;

verus! {

/// A finding: what one probe sent and what it got back. One is made only
/// for a response that is not blank, and it is not changed afterwards.
#[derive(Clone, Debug)]
pub struct Response {
    /// The port that was probed.
    pub port: u16,
    /// The target, as `ip:port`.
    pub addr: String,
    /// The payload that was sent.
    pub payload: String,
    /// The response, decoded as text.
    pub response: String,
}

/// [`Response`] as contracts see it.
pub struct ResponseView {
    pub port: u16,
    pub addr: Seq<char>,
    pub payload: Seq<char>,
    pub response: Seq<char>,
}

impl View for Response {
    type V = ResponseView;

    open spec fn view(&self) -> ResponseView {
        ResponseView {
            port: self.port,
            addr: self.addr@,
            payload: self.payload@,
            response: self.response@,
        }
    }
}

/// What a notice is about.
#[derive(Clone, Copy, Debug, PartialEq, Eq, Structural)]
pub enum NoticeKind {
    /// A probe sets out.
    Scanning,
    /// The connection was refused or the target could not be reached.
    ConnectError,
    /// The connection was not made in time.
    ConnectTimeout,
    /// No payload is registered for the port.
    PayloadMissing,
    /// Sending or receiving failed.
    IoError,
    /// Sending and receiving took too long.
    IoTimeout,
    /// A finding is about to be recorded.
    Found,
    /// A record could not be written to the log.
    WriteError,
    /// The log could not be flushed.
    FlushError,
    /// An address scan ended by a fault of its own.
    TaskFailed,
}

impl NoticeKind {
    /// Whether the notice reports something that went wrong, and so belongs
    /// on the error stream.
    pub open spec fn is_error(self) -> bool {
        !(self == NoticeKind::Scanning || self == NoticeKind::Found)
    }

    /// Decides [`NoticeKind::is_error`].
    pub fn goes_to_error_stream(self) -> (r: bool)
        ensures
            r == self.is_error(),
    {
        match self {
            NoticeKind::Scanning => false,
            NoticeKind::Found => false,
            _ => true,
        }
    }
}

/// One line for the operator's console.
#[derive(Clone, Debug)]
pub struct Notice {
    pub kind: NoticeKind,
    pub text: String,
}

/// [`Notice`] as contracts see it.
pub struct NoticeView {
    pub kind: NoticeKind,
    pub text: Seq<char>,
}

impl View for Notice {
    type V = NoticeView;

    open spec fn view(&self) -> NoticeView {
        NoticeView { kind: self.kind, text: self.text@ }
    }
}

/// The target of a probe as text: the address, a colon and the port.
pub open spec fn target_text(ip: Seq<char>, port: u16) -> Seq<char> {
    ip + ":"@ + decimal(port as nat)
}

/// Renders the target of a probe.
pub fn target_string(ip: &str, port: u16) -> (s: String)
    ensures
        s@ == target_text(ip@, port),
{
    let mut s = String::from_str(ip);
    s.append(":");
    push_decimal(&mut s, port as u64);
    s
}

/// The line that a notice of `kind` shows, for a probe of `target` on
/// `port` and, where something failed, the `reason` that was given for it.
pub open spec fn notice_text(kind: NoticeKind, target: Seq<char>, port: u16, reason: Seq<char>) -> Seq<
    char,
> {
    match kind {
        NoticeKind::Scanning => "Scanning single port: "@ + target,
        NoticeKind::ConnectError => "[error] Connect error to "@ + target + ": "@ + reason,
        NoticeKind::ConnectTimeout => "[error] Connect timeout to "@ + target,
        NoticeKind::PayloadMissing => "[critical] Payload for port "@ + decimal(port as nat)
            + " not found"@,
        NoticeKind::IoError => "[error] IO error on "@ + target + ": "@ + reason,
        NoticeKind::IoTimeout => "[error] IO timeout on "@ + target,
        NoticeKind::Found => "["@ + decimal(port as nat) + "] "@ + target,
        NoticeKind::WriteError => "Write error: "@ + reason,
        NoticeKind::FlushError => "Flush error: "@ + reason,
        NoticeKind::TaskFailed => "Task failed: "@ + reason,
    }
}

/// The notice of `kind` as contracts see it.
pub open spec fn notice_of(kind: NoticeKind, target: Seq<char>, port: u16, reason: Seq<char>) -> NoticeView {
    NoticeView { kind, text: notice_text(kind, target, port, reason) }
}

impl Notice {
    /// Makes the notice of `kind`.
    pub fn new(kind: NoticeKind, target: &str, port: u16, reason: &str) -> (n: Notice)
        ensures
            n@ == notice_of(kind, target@, port, reason@),
    {
        let mut text = String::new();
        match kind {
            NoticeKind::Scanning => {
                text.append("Scanning single port: ");
                text.append(target);
            },
            NoticeKind::ConnectError => {
                text.append("[error] Connect error to ");
                text.append(target);
                text.append(": ");
                text.append(reason);
            },
            NoticeKind::ConnectTimeout => {
                text.append("[error] Connect timeout to ");
                text.append(target);
            },
            NoticeKind::PayloadMissing => {
                text.append("[critical] Payload for port ");
                push_decimal(&mut text, port as u64);
                text.append(" not found");
            },
            NoticeKind::IoError => {
                text.append("[error] IO error on ");
                text.append(target);
                text.append(": ");
                text.append(reason);
            },
            NoticeKind::IoTimeout => {
                text.append("[error] IO timeout on ");
                text.append(target);
            },
            NoticeKind::Found => {
                text.append("[");
                push_decimal(&mut text, port as u64);
                text.append("] ");
                text.append(target);
            },
            NoticeKind::WriteError => {
                text.append("Write error: ");
                text.append(reason);
            },
            NoticeKind::FlushError => {
                text.append("Flush error: ");
                text.append(reason);
            },
            NoticeKind::TaskFailed => {
                text.append("Task failed: ");
                text.append(reason);
            },
        }
        Notice { kind, text }
    }
}

} // verus!
