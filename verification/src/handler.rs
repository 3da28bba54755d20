//! The reconciliation engine: one persistent counter pair, four
//! event-triggered transitions, and the decision procedure that classifies
//! each event as a genuine join, leave, online or offline transition, or as
//! detected invisibility.

use vstd::prelude::*;

use crate::counts::{Approximation, BulkCounts, CounterState, FetchError, spec_counts};
use crate::settings::Settings;

verus! {

/// The status a member reports. Only `Offline` is ever distinguished by the
/// engine; the others are kept apart so that callers can hand the reported
/// status through unchanged.
#[derive(Clone, Copy, Debug, PartialEq, Eq, Structural)]
pub enum OnlineStatus {
    Online,
    Idle,
    DoNotDisturb,
    Invisible,
    Offline,
}

/// One inbound stream event, consumed exactly once by the engine.
#[derive(Clone, Copy, Debug, PartialEq, Eq, Structural)]
pub enum MemberEvent {
    Joined { member_id: u64 },
    Left { member_id: u64 },
    PresenceChanged { member_id: u64, new_status: OnlineStatus, full_user_present: bool },
}

/// The engine's verdict on the true cause of an event.
#[derive(Clone, Copy, Debug, PartialEq, Eq, Structural)]
pub enum Classification {
    /// A join event while the fresh total rose above the tracked total.
    GenuineJoin,
    /// A join event while the fresh total did not rise: a leave coinciding
    /// with the join, owed to approximation lag.
    GenuineLeave,
    /// A non-offline status change carrying a full user record.
    GenuineOnline,
    /// An offline status change while the fresh online count dropped below
    /// the tracked one.
    GenuineOffline,
    /// An offline status change while the fresh online count did not drop:
    /// the member stays connected while appearing invisible.
    InvisibilityDetected,
}

/// What one transition did to the counters.
#[derive(Clone, Copy, Debug, PartialEq, Eq, Structural)]
pub enum Outcome {
    /// The counters were re-anchored or adjusted; no classification applies.
    Updated,
    /// The event was reconciled and classified.
    Classified(Classification),
    /// Wrong community, excluded member, or a noise presence change:
    /// nothing was fetched and nothing changed.
    Ignored,
    /// The approximation was unavailable: the whole transition was aborted
    /// and the counters were left untouched.
    Aborted(FetchError),
}

/// Whether the allow-list admits a member: an empty list admits everyone.
pub open spec fn included(list: Seq<u64>, id: u64) -> bool {
    list.len() == 0 || list.contains(id)
}

/// The member an event concerns.
pub open spec fn event_member(event: MemberEvent) -> u64 {
    match event {
        MemberEvent::Joined { member_id } => member_id,
        MemberEvent::Left { member_id } => member_id,
        MemberEvent::PresenceChanged { member_id, .. } => member_id,
    }
}

/// Bootstrap: anchor both counters to the fresh approximation. The prior
/// state is discarded entirely.
pub open spec fn ready_step(s: CounterState, a: Approximation) -> CounterState {
    CounterState { online: a.online, total: a.total }
}

/// A member joined while the fresh total rose above the tracked total.
pub open spec fn join_raises_total(s: CounterState, a: Approximation) -> bool {
    a.total > s.total
}

/// The counters after a join: online is re-anchored (the newcomer may already
/// be invisible); the total is stepped up when the fresh total rose, and
/// stepped down (to a floor of zero) when it did not, since the join then
/// coincided with a leave the approximation had not yet caught up with.
pub open spec fn join_step(s: CounterState, a: Approximation) -> CounterState {
    CounterState {
        online: a.online,
        total: if join_raises_total(s, a) {
            (s.total + 1) as u64
        } else if s.total > 0 {
            (s.total - 1) as u64
        } else {
            0u64
        },
    }
}

/// The verdict on a join event.
pub open spec fn join_class(s: CounterState, a: Approximation) -> Classification {
    if join_raises_total(s, a) {
        Classification::GenuineJoin
    } else {
        Classification::GenuineLeave
    }
}

/// The counters after a member left: both counters step down, with a floor of
/// zero. No approximation is consulted.
pub open spec fn leave_step(s: CounterState) -> CounterState {
    CounterState {
        online: if s.online > 0 { (s.online - 1) as u64 } else { 0u64 },
        total: if s.total > 0 { (s.total - 1) as u64 } else { 0u64 },
    }
}

/// The counters after a presence change: online is re-anchored to the fresh
/// approximation, whichever verdict was reached; the total is untouched.
pub open spec fn presence_step(s: CounterState, a: Approximation) -> CounterState {
    CounterState { online: a.online, total: s.total }
}

/// The verdict on a presence change that was not ignored: on an offline
/// report, a tracked online count above the fresh one means the member really
/// went offline, anything else means invisibility; a non-offline report with
/// a full user record means the member genuinely came online.
pub open spec fn presence_class(s: CounterState, new_status: OnlineStatus, a: Approximation) -> Classification {
    if new_status is Offline {
        if s.online > a.online {
            Classification::GenuineOffline
        } else {
            Classification::InvisibilityDetected
        }
    } else {
        Classification::GenuineOnline
    }
}

/// The tracker. Immutable configuration plus the one counter pair that
/// persists across events; every transition is a method taking `&mut self`,
/// so a holder serializes transitions whole.
pub struct Handler {
    pub guild_id: u64,
    pub users: CounterState,
    pub use_widget: bool,
    pub sleep_time: u64,
    pub include_only: Vec<u64>,
}

/// The configuration of the tracker is never changed by a transition.
pub open spec fn same_config(pre: Handler, post: Handler) -> bool {
    &&& post.guild_id == pre.guild_id
    &&& post.use_widget == pre.use_widget
    &&& post.sleep_time == pre.sleep_time
    &&& post.include_only@ == pre.include_only@
}

/// Whether an event is acted on at all: it must concern the tracked
/// community; joins and presence changes must pass the allow-list; and a
/// non-offline status change without a full user record is noise and is
/// dropped before any fetch.
pub open spec fn event_applies(h: Handler, guild_id: u64, event: MemberEvent) -> bool {
    match event {
        MemberEvent::Joined { member_id } => {
            guild_id == h.guild_id && included(h.include_only@, member_id)
        },
        MemberEvent::Left { .. } => guild_id == h.guild_id,
        MemberEvent::PresenceChanged { member_id, new_status, full_user_present } => {
            &&& guild_id == h.guild_id
            &&& (new_status is Offline || full_user_present)
            &&& included(h.include_only@, member_id)
        },
    }
}

/// Whether dispatching an event requires a fresh approximation first. A
/// leave adjusts the counters by local arithmetic alone.
pub open spec fn event_needs_fetch(h: Handler, guild_id: u64, event: MemberEvent) -> bool {
    event_applies(h, guild_id, event) && !(event is Left)
}

/// The counters a non-ignored, non-aborted event leaves behind.
pub open spec fn step(s: CounterState, event: MemberEvent, a: Approximation) -> CounterState {
    match event {
        MemberEvent::Joined { .. } => join_step(s, a),
        MemberEvent::Left { .. } => leave_step(s),
        MemberEvent::PresenceChanged { .. } => presence_step(s, a),
    }
}

/// The outcome such an event reports.
pub open spec fn step_outcome(s: CounterState, event: MemberEvent, a: Approximation) -> Outcome {
    match event {
        MemberEvent::Joined { .. } => Outcome::Classified(join_class(s, a)),
        MemberEvent::Left { .. } => Outcome::Updated,
        MemberEvent::PresenceChanged { new_status, .. } => {
            Outcome::Classified(presence_class(s, new_status, a))
        },
    }
}

/// One whole dispatch: what any event does to the counters and what it
/// reports, given the fetch's result. An event that does not apply changes
/// nothing; a failed fetch aborts the transition with the counters untouched;
/// otherwise the full transition runs.
pub open spec fn dispatch_step(
    h: Handler,
    guild_id: u64,
    event: MemberEvent,
    fetch: Result<Approximation, FetchError>,
) -> (CounterState, Outcome) {
    if !event_applies(h, guild_id, event) {
        (h.users, Outcome::Ignored)
    } else if event is Left {
        (leave_step(h.users), Outcome::Updated)
    } else {
        match fetch {
            Err(e) => (h.users, Outcome::Aborted(e)),
            Ok(a) => (step(h.users, event, a), step_outcome(h.users, event, a)),
        }
    }
}

impl Handler {
    /// A tracker for one community, with zeroed counters awaiting bootstrap.
    pub fn new(guild_id: u64, settings: &Settings) -> (h: Handler)
        ensures
            h.guild_id == guild_id,
            h.users.online == 0 && h.users.total == 0,
            h.use_widget == settings.use_widget,
            h.sleep_time == settings.sleep_time,
            h.include_only@ == settings.include_only@,
    {
        let mut include_only: Vec<u64> = Vec::new();
        let mut i: usize = 0;
        while i < settings.include_only.len()
            invariant
                i <= settings.include_only.len(),
                include_only@ == settings.include_only@.take(i as int),
            decreases settings.include_only.len() - i,
        {
            include_only.push(settings.include_only[i]);
            i += 1;
        }
        proof {
            assert(include_only@ =~= settings.include_only@);
        }
        Handler {
            guild_id,
            users: CounterState { online: 0, total: 0 },
            use_widget: settings.use_widget,
            sleep_time: settings.sleep_time,
            include_only,
        }
    }

    /// True when the member's events are to be dropped: the allow-list is
    /// non-empty and does not hold the member.
    pub fn skip_cycle(&self, id: &u64) -> (skip: bool)
        ensures
            skip == !included(self.include_only@, *id),
    {
        if self.include_only.len() == 0 {
            return false;
        }
        let mut i: usize = 0;
        while i < self.include_only.len()
            invariant
                i <= self.include_only.len(),
                forall|j: int| 0 <= j < i ==> self.include_only@[j] != *id,
            decreases self.include_only.len() - i,
        {
            if self.include_only[i] == *id {
                return false;
            }
            i += 1;
        }
        proof {
            assert(!self.include_only@.contains(*id));
        }
        true
    }

    /// Whether a fresh approximation must be fetched before this event is
    /// dispatched. Excluded members and noise presence changes cause no
    /// fetch at all.
    pub fn needs_fetch(&self, guild_id: u64, event: &MemberEvent) -> (b: bool)
        ensures
            b == event_needs_fetch(*self, guild_id, *event),
    {
        match event {
            MemberEvent::Joined { member_id } => {
                guild_id == self.guild_id && !self.skip_cycle(member_id)
            },
            MemberEvent::Left { .. } => false,
            MemberEvent::PresenceChanged { member_id, new_status, full_user_present } => {
                guild_id == self.guild_id
                    && (matches!(new_status, OnlineStatus::Offline) || *full_user_present)
                    && !self.skip_cycle(member_id)
            },
        }
    }

    /// Turns one fetch's raw counts into an approximation, or into the typed
    /// error that made it unusable. `bulk` is the bulk community-summary
    /// query's answer (`None` if that query failed), `widget_online` the
    /// alternate widget query's (`None` if it failed or was not made). With
    /// `use_widget` set, the online count comes from the widget; the total
    /// always comes from the bulk counts. An absent count is a failure,
    /// never a zero.
    pub fn get_approximate_user_counts(
        &self,
        bulk: Option<BulkCounts>,
        widget_online: Option<u64>,
    ) -> (r: Result<Approximation, FetchError>)
        ensures
            r == spec_counts(self.use_widget, bulk, widget_online),
            r is Ok <==> {
                &&& bulk is Some
                &&& bulk->0.total is Some
                &&& (if self.use_widget { widget_online is Some } else { bulk->0.online is Some })
            },
    {
        match bulk {
            None => Err(FetchError::BulkUnavailable),
            Some(b) => {
                let online = if self.use_widget {
                    match widget_online {
                        None => {
                            return Err(FetchError::WidgetUnavailable);
                        },
                        Some(w) => w,
                    }
                } else {
                    match b.online {
                        None => {
                            return Err(FetchError::OnlineCountMissing);
                        },
                        Some(o) => o,
                    }
                };
                match b.total {
                    None => Err(FetchError::TotalCountMissing),
                    Some(t) => Ok(Approximation { online, total: t }),
                }
            },
        }
    }

    /// Bootstrap, run once when the stream signals readiness: anchor both
    /// counters to the approximation. A failed fetch leaves them untouched.
    pub fn ready(&mut self, fetch: Result<Approximation, FetchError>) -> (out: Outcome)
        ensures
            same_config(*old(self), *final(self)),
            match fetch {
                Ok(a) => {
                    &&& final(self).users == ready_step(old(self).users, a)
                    &&& out == Outcome::Updated
                },
                Err(e) => {
                    &&& final(self).users == old(self).users
                    &&& out == Outcome::Aborted(e)
                },
            },
    {
        match fetch {
            Ok(a) => {
                self.users.online = a.online;
                self.users.total = a.total;
                Outcome::Updated
            },
            Err(e) => Outcome::Aborted(e),
        }
    }

    /// A member joined. The online counter is re-anchored (the newcomer may
    /// already be invisible); the total is compared against the fresh total
    /// to tell a genuine join from a leave hidden by approximation lag.
    pub fn guild_member_addition(
        &mut self,
        guild_id: u64,
        member_id: u64,
        fetch: Result<Approximation, FetchError>,
    ) -> (out: Outcome)
        ensures
            same_config(*old(self), *final(self)),
            (final(self).users, out) == dispatch_step(
                *old(self),
                guild_id,
                (MemberEvent::Joined { member_id }),
                fetch,
            ),
    {
        if guild_id != self.guild_id {
            return Outcome::Ignored;
        }
        if self.skip_cycle(&member_id) {
            return Outcome::Ignored;
        }
        match fetch {
            Err(e) => Outcome::Aborted(e),
            Ok(a) => {
                self.users.online = a.online;
                if a.total > self.users.total {
                    self.users.total = self.users.total + 1;
                    Outcome::Classified(Classification::GenuineJoin)
                } else {
                    if self.users.total > 0 {
                        self.users.total = self.users.total - 1;
                    }
                    Outcome::Classified(Classification::GenuineLeave)
                }
            },
        }
    }

    /// A member left. Both counters step down with a floor of zero; no
    /// approximation is consulted.
    pub fn guild_member_removal(&mut self, guild_id: u64, member_id: u64) -> (out: Outcome)
        ensures
            same_config(*old(self), *final(self)),
            guild_id != old(self).guild_id ==> final(self).users == old(self).users && out
                == Outcome::Ignored,
            guild_id == old(self).guild_id ==> final(self).users == leave_step(old(self).users)
                && out == Outcome::Updated,
    {
        if guild_id != self.guild_id {
            return Outcome::Ignored;
        }
        if self.users.online > 0 {
            self.users.online = self.users.online - 1;
        }
        if self.users.total > 0 {
            self.users.total = self.users.total - 1;
        }
        Outcome::Updated
    }

    /// A member's reported status changed. A non-offline change without a
    /// full user record is noise and is ignored. Otherwise the online
    /// counter is re-anchored to the fresh approximation, and the change is
    /// classified: an offline report only counts as genuinely offline when
    /// the tracked online count sat above the fresh one — anything else is
    /// invisibility.
    pub fn presence_update(
        &mut self,
        guild_id: u64,
        member_id: u64,
        new_status: OnlineStatus,
        full_user_present: bool,
        fetch: Result<Approximation, FetchError>,
    ) -> (out: Outcome)
        ensures
            same_config(*old(self), *final(self)),
            (final(self).users, out) == dispatch_step(
                *old(self),
                guild_id,
                (MemberEvent::PresenceChanged { member_id, new_status, full_user_present }),
                fetch,
            ),
    {
        if guild_id != self.guild_id {
            return Outcome::Ignored;
        }
        let offline = matches!(new_status, OnlineStatus::Offline);
        if !offline && !full_user_present {
            return Outcome::Ignored;
        }
        if self.skip_cycle(&member_id) {
            return Outcome::Ignored;
        }
        match fetch {
            Err(e) => Outcome::Aborted(e),
            Ok(a) => {
                let class = if offline {
                    if self.users.online > a.online {
                        Classification::GenuineOffline
                    } else {
                        Classification::InvisibilityDetected
                    }
                } else {
                    Classification::GenuineOnline
                };
                self.users.online = a.online;
                Outcome::Classified(class)
            },
        }
    }
}

} // verus!
