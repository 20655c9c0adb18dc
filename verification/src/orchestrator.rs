//! Admission control of the scan loop: how many address scans are in
//! flight, and when another may set out.

use crate::address::{random_ip, Address};
use crate::report::{notice_of, Notice, NoticeKind};
use vstd::prelude::*;

verus! {

/// The count of address scans in flight as contracts see it.
pub struct SlotsModel {
    /// How many address scans are in flight.
    pub active: nat,
    /// How many may be in flight at once.
    pub limit: nat,
}

/// What happens to the count.
pub enum SlotEvent {
    /// An address scan asks to set out.
    Enter,
    /// An address scan has run to its end.
    Release,
    /// An address scan has ended by a fault of its own.
    Fault,
}

impl SlotsModel {
    /// The count before any scan has set out.
    pub open spec fn fresh(limit: nat) -> SlotsModel {
        SlotsModel { active: 0, limit }
    }

    /// Whether another address scan may set out.
    pub open spec fn has_room(self) -> bool {
        self.active < self.limit
    }

    /// The count after a scan asked to set out: one more where there was
    /// room.
    pub open spec fn enter(self) -> SlotsModel {
        if self.has_room() {
            SlotsModel { active: self.active + 1, ..self }
        } else {
            self
        }
    }

    /// The count after a scan has run to its end: one less, and never less
    /// than none.
    pub open spec fn release(self) -> SlotsModel {
        if self.active > 0 {
            SlotsModel { active: (self.active - 1) as nat, ..self }
        } else {
            self
        }
    }

    /// The count after `event`. A scan that ended by a fault gives nothing
    /// back.
    pub open spec fn after(self, event: SlotEvent) -> SlotsModel {
        match event {
            SlotEvent::Enter => self.enter(),
            SlotEvent::Release => self.release(),
            SlotEvent::Fault => self,
        }
    }

    /// The count after a run of events.
    pub open spec fn after_all(self, events: Seq<SlotEvent>) -> SlotsModel
        decreases events.len(),
    {
        if events.len() == 0 {
            self
        } else {
            self.after_all(events.drop_last()).after(events.last())
        }
    }
}

/// The count of address scans in flight, with its limit.
pub struct ActiveScans {
    active: u64,
    limit: u64,
}

impl View for ActiveScans {
    type V = SlotsModel;

    closed spec fn view(&self) -> SlotsModel {
        SlotsModel { active: self.active as nat, limit: self.limit as nat }
    }
}

impl ActiveScans {
    #[verifier::type_invariant]
    spec fn inv(self) -> bool {
        self.active <= self.limit
    }

    /// No scan in flight, and room for `limit` of them.
    pub fn new(limit: u64) -> (scans: ActiveScans)
        ensures
            scans@ == SlotsModel::fresh(limit as nat),
    {
        ActiveScans { active: 0, limit }
    }

    /// How many address scans are in flight.
    pub fn active(&self) -> (n: u64)
        ensures
            n == self@.active,
            self@.active <= self@.limit,
    {
        proof {
            use_type_invariant(self);
        }
        self.active
    }

    /// How many address scans may be in flight at once.
    pub fn limit(&self) -> (n: u64)
        ensures
            n == self@.limit,
    {
        self.limit
    }

    /// Whether another address scan may set out.
    pub fn has_room(&self) -> (r: bool)
        ensures
            r == self@.has_room(),
    {
        self.active < self.limit
    }

    /// Lets one more address scan set out if there is room, and says
    /// whether it did.
    pub fn try_enter(&mut self) -> (entered: bool)
        ensures
            entered == old(self)@.has_room(),
            final(self)@ == old(self)@.enter(),
    {
        if self.active < self.limit {
            *self = ActiveScans { active: self.active + 1, limit: self.limit };
            true
        } else {
            false
        }
    }

    /// Counts in the scan of an address that was drawn, if one was drawn and
    /// there is room, and hands the address on. Without room the draw is
    /// dropped and the count stays.
    pub fn take_draw(&mut self, drawn: Option<Address>) -> (entered: Option<Address>)
        ensures
            entered == (if old(self)@.has_room() {
                drawn
            } else {
                None
            }),
            final(self)@ == (if old(self)@.has_room() && drawn is Some {
                old(self)@.enter()
            } else {
                old(self)@
            }),
    {
        match drawn {
            None => None,
            Some(target) => {
                if self.try_enter() {
                    Some(target)
                } else {
                    None
                }
            },
        }
    }

    /// Takes note that an address scan has run to its end.
    pub fn release(&mut self)
        ensures
            final(self)@ == old(self)@.release(),
    {
        proof {
            use_type_invariant(&*self);
        }
        if self.active > 0 {
            *self = ActiveScans { active: self.active - 1, limit: self.limit };
        }
    }

    /// Takes note of how an address scan ended. One that ran to its end
    /// gives its place back. One that ended by a fault of its own is
    /// reported to the operator and otherwise passed over: the loop goes on.
    pub fn unit_finished(&mut self, fault: Option<String>) -> (notice: Option<Notice>)
        ensures
            match fault {
                None => final(self)@ == old(self)@.after(SlotEvent::Release) && notice is None,
                Some(reason) => {
                    &&& final(self)@ == old(self)@.after(SlotEvent::Fault)
                    &&& notice matches Some(n)
                    &&& n@ == notice_of(NoticeKind::TaskFailed, Seq::empty(), 0, reason@)
                },
            },
    {
        match fault {
            None => {
                self.release();
                None
            },
            Some(reason) => Some(Notice::new(NoticeKind::TaskFailed, "", 0, reason.as_str())),
        }
    }

    /// One pass of the scan loop: while there is room, draws an address and
    /// counts its scan in. Returns the addresses to scan, one for each place
    /// taken. The pass ends early if the generator gives up on an address.
    pub fn spawn_pass(&mut self) -> (targets: Vec<Address>)
        ensures
            final(self)@.limit == old(self)@.limit,
            final(self)@.active == old(self)@.active + targets@.len(),
            final(self)@.active <= final(self)@.limit,
            forall|i: int| 0 <= i < targets@.len() ==> (#[trigger] targets@[i]).is_candidate(),
    {
        let mut targets: Vec<Address> = Vec::new();
        while self.has_room()
            invariant
                self@.limit == old(self)@.limit,
                self@.active == old(self)@.active + targets@.len(),
                forall|i: int| 0 <= i < targets@.len() ==> (#[trigger] targets@[i]).is_candidate(),
            decreases self@.limit - self@.active,
        {
            match self.take_draw(random_ip(u64::MAX)) {
                None => {
                    break ;
                },
                Some(target) => {
                    targets.push(target);
                },
            }
        }
        proof {
            use_type_invariant(&*self);
        }
        targets
    }
}

/// Whatever happens and in whatever order, the count of address scans in
/// flight never falls below none and never rises above its limit.
pub proof fn lemma_count_stays_within_limit(limit: nat, events: Seq<SlotEvent>)
    ensures
        0 <= SlotsModel::fresh(limit).after_all(events).active <= limit,
        SlotsModel::fresh(limit).after_all(events).limit == limit,
    decreases events.len(),
{
    if events.len() > 0 {
        lemma_count_stays_within_limit(limit, events.drop_last());
    }
}

} // verus!
