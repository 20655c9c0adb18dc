//! The payload resolver and the result sink.

use crate::conf::Payloads;
use crate::report::{notice_of, Notice, NoticeKind, Response};
use crate::text::{decimal, decimal_string, replace, replace_all};
use vstd::prelude::*;

verus! {

/// `template` with `%ip%` replaced by the target's address and then
/// `%port%` by the port in decimal.
pub open spec fn substitute(template: Seq<char>, ip: Seq<char>, port: u16) -> Seq<char> {
    replace_all(replace_all(template, "%ip%"@, ip), "%port%"@, decimal(port as nat))
}

/// The payload to send to `ip` on `port`: nothing where the port has no
/// entry, else its template, with the placeholders filled in where that is
/// switched on.
pub open spec fn resolve(
    payloads: Map<u16, Seq<char>>,
    placeholders: bool,
    port: u16,
    ip: Seq<char>,
) -> Option<Seq<char>> {
    if payloads.contains_key(port) {
        if placeholders {
            Some(substitute(payloads[port], ip, port))
        } else {
            Some(payloads[port])
        }
    } else {
        None
    }
}

/// No payload is registered for the port.
#[derive(Clone, Copy, Debug, PartialEq, Eq, Structural)]
pub struct PayloadNotFound {
    pub port: u16,
}

impl PayloadNotFound {
    /// The error in words.
    pub fn message(&self) -> (s: String)
        ensures
            s@ == decimal(self.port as nat) + " is not registered"@,
    {
        let mut s = decimal_string(self.port as u64);
        vstd::string::StringExecFns::append(&mut s, " is not registered");
        s
    }
}

/// Looks up the payload for `port` and, where `placeholders` is set, fills
/// in the target. The stored template is left as it is.
pub fn get_payload(payloads: &Payloads, placeholders: bool, port: u16, ip: &str) -> (r: Result<
    String,
    PayloadNotFound,
>)
    ensures
        match r {
            Ok(payload) => resolve(payloads@, placeholders, port, ip@) == Some(payload@),
            Err(error) => resolve(payloads@, placeholders, port, ip@) is None && error.port
                == port,
        },
{
    match payloads.get(port) {
        Some(template) => {
            if placeholders {
                let with_ip = replace(template.as_str(), "%ip%", ip);
                let port_text = decimal_string(port as u64);
                Ok(replace(with_ip.as_str(), "%port%", port_text.as_str()))
            } else {
                Ok(template.clone())
            }
        },
        None => Err(PayloadNotFound { port }),
    }
}

/// The result sink as contracts see it.
pub struct SinkModel {
    /// Whether findings are logged to a file at all.
    pub enabled: bool,
    /// Whether the log's writer has been set up.
    pub attached: bool,
    /// How many records have been written.
    pub written: nat,
}

/// What the caller is to do with a finding.
#[derive(Clone, Copy, Debug, PartialEq, Eq, Structural)]
pub enum WriteAction {
    /// Nothing: findings are not logged to a file.
    Skip,
    /// Append the finding to the log as one record, with nobody else
    /// writing meanwhile, and report how that went.
    Append,
}

/// What follows an attempt to append a record.
pub struct AppendStep {
    /// Whether the log is to be flushed now.
    pub flush: bool,
    /// What to tell the operator, if anything.
    pub notice: Option<Notice>,
}

impl SinkModel {
    /// The sink before anything has happened.
    pub open spec fn fresh(file_logging: bool) -> SinkModel {
        SinkModel { enabled: file_logging, attached: false, written: 0 }
    }

    /// Whether the writer may be set up: a second set-up is a fault of the
    /// program.
    pub open spec fn may_init(self) -> bool {
        !(self.enabled && self.attached)
    }

    /// The sink after the set-up.
    pub open spec fn init(self) -> SinkModel {
        SinkModel { attached: self.enabled, ..self }
    }

    /// Whether a finding may be handed in: with logging on, the writer must
    /// have been set up.
    pub open spec fn may_write(self) -> bool {
        self.enabled ==> self.attached
    }

    /// What is to be done with a finding.
    pub open spec fn write_action(self) -> WriteAction {
        if self.enabled {
            WriteAction::Append
        } else {
            WriteAction::Skip
        }
    }

    /// The sink after an attempt to append a record that ended as
    /// `appended` says. Without a writer nothing can have been appended.
    pub open spec fn after_append(self, appended: bool) -> SinkModel {
        if self.attached && appended {
            SinkModel { written: self.written + 1, ..self }
        } else {
            self
        }
    }

    /// Whether the log is to be flushed after that attempt: after every
    /// tenth record written, and at no other time.
    pub open spec fn flush_due(self, appended: bool) -> bool {
        self.attached && appended && (self.written + 1) % 10 == 0
    }

    /// The sink after a run of attempts, `appended[i]` telling how the
    /// attempt `i` ended.
    pub open spec fn after_appends(self, appended: Seq<bool>) -> SinkModel
        decreases appended.len(),
    {
        if appended.len() == 0 {
            self
        } else {
            self.after_appends(appended.drop_last()).after_append(appended.last())
        }
    }

    /// How many flushes that run asks for.
    pub open spec fn flushes(self, appended: Seq<bool>) -> nat
        decreases appended.len(),
    {
        if appended.len() == 0 {
            0
        } else {
            self.flushes(appended.drop_last()) + (if self.after_appends(
                appended.drop_last(),
            ).flush_due(appended.last()) {
                1nat
            } else {
                0nat
            })
        }
    }
}

/// How many of `flags` are set.
pub open spec fn count_set(flags: Seq<bool>) -> nat
    decreases flags.len(),
{
    if flags.len() == 0 {
        0
    } else {
        count_set(flags.drop_last()) + (if flags.last() {
            1nat
        } else {
            0nat
        })
    }
}

/// Counts what is written and tells when to flush. The writer itself stays
/// with the caller, who lets one finding in at a time.
pub struct ResultSink {
    enabled: bool,
    attached: bool,
    since_flush: u8,
    written: Ghost<nat>,
}

impl View for ResultSink {
    type V = SinkModel;

    closed spec fn view(&self) -> SinkModel {
        SinkModel { enabled: self.enabled, attached: self.attached, written: self.written@ }
    }
}

impl ResultSink {
    #[verifier::type_invariant]
    spec fn inv(self) -> bool {
        &&& self.since_flush < 10
        &&& self.since_flush == self.written@ % 10
        &&& self.attached ==> self.enabled
    }

    /// A sink that has written nothing and has no writer yet.
    pub fn new(file_logging: bool) -> (sink: ResultSink)
        ensures
            sink@ == SinkModel::fresh(file_logging),
    {
        ResultSink { enabled: file_logging, attached: false, since_flush: 0, written: Ghost(0) }
    }

    /// Whether findings are logged to a file.
    pub fn is_enabled(&self) -> (r: bool)
        ensures
            r == self@.enabled,
    {
        self.enabled
    }

    /// Whether the writer has been set up.
    pub fn is_attached(&self) -> (r: bool)
        ensures
            r == self@.attached,
    {
        self.attached
    }

    /// Takes note of how an attempt to append a record ended: `Ok`, or the
    /// reason for which the record was dropped. A failure is reported and
    /// the sink goes on. Every tenth record written asks for a flush.
    pub fn record_written(&mut self, outcome: Result<(), String>) -> (step: AppendStep)
        ensures
            final(self)@ == old(self)@.after_append(outcome is Ok),
            step.flush == old(self)@.flush_due(outcome is Ok),
            match outcome {
                Ok(_) => step.notice is None,
                Err(reason) => step.notice matches Some(notice) && notice@ == notice_of(
                    NoticeKind::WriteError,
                    Seq::empty(),
                    0,
                    reason@,
                ),
            },
    {
        proof {
            use_type_invariant(&*self);
        }
        match outcome {
            Err(reason) => AppendStep {
                flush: false,
                notice: Some(Notice::new(NoticeKind::WriteError, "", 0, reason.as_str())),
            },
            Ok(_) => {
                if !self.attached {
                    return AppendStep { flush: false, notice: None };
                }
                let ghost before = self.written@;
                let flush = self.since_flush == 9;
                let since_flush: u8 = if flush {
                    0
                } else {
                    self.since_flush + 1
                };
                *self = ResultSink {
                    enabled: self.enabled,
                    attached: self.attached,
                    since_flush,
                    written: Ghost((before + 1) as nat),
                };
                AppendStep { flush, notice: None }
            },
        }
    }

    /// Takes note of how a flush ended. A failure is reported; the sink is
    /// as it was either way.
    pub fn flush_done(&self, outcome: Result<(), String>) -> (notice: Option<Notice>)
        ensures
            match outcome {
                Ok(_) => notice is None,
                Err(reason) => notice matches Some(n) && n@ == notice_of(
                    NoticeKind::FlushError,
                    Seq::empty(),
                    0,
                    reason@,
                ),
            },
    {
        match outcome {
            Ok(_) => None,
            Err(reason) => Some(Notice::new(NoticeKind::FlushError, "", 0, reason.as_str())),
        }
    }
}

/// Sets the log's writer up, once. Returns whether the caller is to open
/// the log file: it is, exactly when findings are logged to a file.
pub fn init_logger(sink: &mut ResultSink) -> (open: bool)
    requires
        old(sink)@.may_init(),
    ensures
        open == old(sink)@.enabled,
        final(sink)@ == old(sink)@.init(),
{
    proof {
        use_type_invariant(&*sink);
    }
    if !sink.enabled {
        return false;
    }
    *sink = ResultSink {
        enabled: true,
        attached: true,
        since_flush: sink.since_flush,
        written: sink.written,
    };
    true
}

/// Tells what to do with a finding: nothing where findings are not logged
/// to a file, else append it to the log.
pub fn write_to_file(sink: &ResultSink, data: &Response) -> (action: WriteAction)
    requires
        sink@.may_write(),
    ensures
        action == sink@.write_action(),
{
    if sink.enabled {
        WriteAction::Append
    } else {
        WriteAction::Skip
    }
}

/// Of any run of attempts on a sink with a writer, as many records are
/// written as attempts succeeded, and the flushes asked for are one for
/// every full ten of the records written so far.
pub proof fn lemma_flush_every_tenth_record(sink: SinkModel, appended: Seq<bool>)
    requires
        sink.attached,
    ensures
        sink.after_appends(appended).attached,
        sink.after_appends(appended).enabled == sink.enabled,
        sink.after_appends(appended).written == sink.written + count_set(appended),
        sink.flushes(appended) == (sink.written + count_set(appended)) / 10 - sink.written / 10,
    decreases appended.len(),
{
    if appended.len() > 0 {
        lemma_flush_every_tenth_record(sink, appended.drop_last());
    }
}

/// A sink that does not log to a file never asks for the log file to be
/// opened, for a record to be appended or for a flush, whatever is handed
/// in and however often.
pub proof fn lemma_disabled_sink_stays_idle(sink: SinkModel, appended: Seq<bool>)
    requires
        !sink.enabled,
        !sink.attached,
    ensures
        sink.may_init() && sink.init() == sink,
        sink.may_write() && sink.write_action() == WriteAction::Skip,
        sink.after_appends(appended) == sink,
        sink.flushes(appended) == 0,
    decreases appended.len(),
{
    if appended.len() > 0 {
        lemma_disabled_sink_stays_idle(sink, appended.drop_last());
    }
}

} // verus!
