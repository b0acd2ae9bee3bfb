use crate::clock::{facility_clock, read_clock, timezone_known, Clock, MAX_CLOCK_SECS};
use crate::error::AppError;
use crate::lifecycle::MembershipStatus;
use crate::models::{CheckOutcome, CronCheck, Membership};
use crate::state::{AppState, Store};
use vstd::prelude::*;

verus! {

/// Whether a pass on `today` activates the membership: it is not deleted, it
/// is pending, and its start date has come.
pub open spec fn activates(membership: Membership, today: i32) -> bool {
    !membership.is_deleted && membership.status == MembershipStatus::Pending
        && membership.start_date <= today
}

/// Whether a pass on `today` expires the membership: it is not deleted, it is
/// active, and its end date has passed.
pub open spec fn lapses(membership: Membership, today: i32) -> bool {
    !membership.is_deleted && membership.status == MembershipStatus::Active
        && membership.end_date is Some && membership.end_date->0 < today
}

/// The membership after the activation step of a pass.
pub open spec fn after_activation(membership: Membership, clock: Clock) -> Membership {
    if activates(membership, clock.today) {
        Membership { status: MembershipStatus::Active, updated_at: clock.now, ..membership }
    } else {
        membership
    }
}

/// The membership after the expiry step of a pass.
pub open spec fn after_expiry(membership: Membership, clock: Clock) -> Membership {
    if lapses(membership, clock.today) {
        Membership { status: MembershipStatus::Expired, updated_at: clock.now, ..membership }
    } else {
        membership
    }
}

/// The membership after a whole pass: activation first, then expiry.
pub open spec fn swept(membership: Membership, clock: Clock) -> Membership {
    after_expiry(after_activation(membership, clock), clock)
}

/// How many of the first `n` memberships a pass activates.
pub open spec fn activated_upto(memberships: Seq<Membership>, today: i32, n: int) -> nat
    decreases n,
{
    if n <= 0 {
        0
    } else {
        activated_upto(memberships, today, n - 1) + if activates(memberships[n - 1], today) {
            1nat
        } else {
            0nat
        }
    }
}

/// How many of the first `n` memberships a pass expires, after it has
/// activated those that it activates.
pub open spec fn lapsed_upto(memberships: Seq<Membership>, clock: Clock, n: int) -> nat
    decreases n,
{
    if n <= 0 {
        0
    } else {
        lapsed_upto(memberships, clock, n - 1) + if lapses(
            after_activation(memberships[n - 1], clock),
            clock.today,
        ) {
            1nat
        } else {
            0nat
        }
    }
}

/// Every membership after a pass.
pub open spec fn swept_all(memberships: Seq<Membership>, clock: Clock) -> Seq<Membership> {
    Seq::new(memberships.len(), |i: int| swept(memberships[i], clock))
}

/// How many memberships a pass moved, by transition.
#[derive(Clone, Copy, Debug, PartialEq, Eq, Structural)]
pub struct SweepReport {
    pub pending_to_active: usize,
    pub active_to_expired: usize,
}

/// Whether a pass is due on `today`: none is on record, or the last one
/// failed, or the last one ran on an earlier day.
pub open spec fn pass_due(checkpoint: Option<CronCheck>, today: i32) -> bool {
    match checkpoint {
        None => true,
        Some(check) => check.status == CheckOutcome::Failure || check.last_check_day < today,
    }
}

/// The record of a pass at `clock`: of a pass that ran and reported, of one
/// that failed, or of one that was skipped because none was due.
pub open spec fn checkpoint_of(outcome: Option<SweepReport>, due: bool, clock: Clock) -> CronCheck {
    if !due {
        CronCheck {
            last_check_time: clock.now,
            last_check_day: clock.today,
            status: CheckOutcome::NoChanges,
            pending_to_active: 0,
            active_to_expired: 0,
        }
    } else {
        match outcome {
            Some(report) => CronCheck {
                last_check_time: clock.now,
                last_check_day: clock.today,
                status: CheckOutcome::Success,
                pending_to_active: report.pending_to_active,
                active_to_expired: report.active_to_expired,
            },
            None => CronCheck {
                last_check_time: clock.now,
                last_check_day: clock.today,
                status: CheckOutcome::Failure,
                pending_to_active: 0,
                active_to_expired: 0,
            },
        }
    }
}

/// Whether one reconciliation at `clock` takes the store from `pre` to `post`
/// and reports `report`. A pass that is due sweeps every membership and
/// reports what it moved; one that is not due moves nothing. Either way the
/// checkpoint is written.
pub open spec fn reconciled(pre: Store, post: Store, report: SweepReport, clock: Clock) -> bool {
    let due = pass_due(pre.checkpoint, clock.today);
    &&& post.members == pre.members
    &&& post.membership_types == pre.membership_types
    &&& post.entry_logs == pre.entry_logs
    &&& post.next_entry_log_id == pre.next_entry_log_id
    &&& post.next_membership_id == pre.next_membership_id
    &&& post.next_member_id == pre.next_member_id
    &&& post.next_type_id == pre.next_type_id
    &&& post.checkpoint == Some(checkpoint_of(Some(report), due, clock))
    &&& due ==> {
        &&& post.memberships@ == swept_all(pre.memberships@, clock)
        &&& report.pending_to_active == activated_upto(
            pre.memberships@,
            clock.today,
            pre.memberships@.len() as int,
        )
        &&& report.active_to_expired == lapsed_upto(
            pre.memberships@,
            clock,
            pre.memberships@.len() as int,
        )
    }
    &&& !due ==> {
        &&& post.memberships@ == pre.memberships@
        &&& report.pending_to_active == 0
        &&& report.active_to_expired == 0
    }
}

/// Tells whether a pass is due on `today`.
pub fn is_pass_due(checkpoint: &Option<CronCheck>, today: i32) -> (due: bool)
    ensures
        due == pass_due(*checkpoint, today),
{
    match checkpoint {
        None => true,
        Some(check) => check.status == CheckOutcome::Failure || check.last_check_day < today,
    }
}

/// Makes the record of a pass at `clock`. `outcome` is what the pass reported,
/// or `None` if it failed; `due` says whether a pass was due at all.
pub fn make_checkpoint(outcome: Option<SweepReport>, due: bool, clock: &Clock) -> (check: CronCheck)
    ensures
        check == checkpoint_of(outcome, due, *clock),
{
    if !due {
        return CronCheck {
            last_check_time: clock.now,
            last_check_day: clock.today,
            status: CheckOutcome::NoChanges,
            pending_to_active: 0,
            active_to_expired: 0,
        };
    }
    match outcome {
        Some(report) => CronCheck {
            last_check_time: clock.now,
            last_check_day: clock.today,
            status: CheckOutcome::Success,
            pending_to_active: report.pending_to_active,
            active_to_expired: report.active_to_expired,
        },
        None => CronCheck {
            last_check_time: clock.now,
            last_check_day: clock.today,
            status: CheckOutcome::Failure,
            pending_to_active: 0,
            active_to_expired: 0,
        },
    }
}

impl Store {
    /// Sweeps every membership: activates the pending ones whose start date
    /// has come, then expires the active ones whose end date has passed, and
    /// reports how many it moved in each step. Suspended memberships are never
    /// touched.
    pub fn update_membership_statuses(&mut self, clock: &Clock) -> (report: SweepReport)
        ensures
            final(self).wf() == old(self).wf(),
            final(self).members == old(self).members,
            final(self).membership_types == old(self).membership_types,
            final(self).entry_logs == old(self).entry_logs,
            final(self).next_entry_log_id == old(self).next_entry_log_id,
            final(self).next_membership_id == old(self).next_membership_id,
            final(self).next_member_id == old(self).next_member_id,
            final(self).next_type_id == old(self).next_type_id,
            final(self).checkpoint == old(self).checkpoint,
            final(self).memberships@ == swept_all(old(self).memberships@, *clock),
            report.pending_to_active == activated_upto(
                old(self).memberships@,
                clock.today,
                old(self).memberships@.len() as int,
            ),
            report.active_to_expired == lapsed_upto(
                old(self).memberships@,
                *clock,
                old(self).memberships@.len() as int,
            ),
    {
        let mut pending_to_active: usize = 0;
        let mut active_to_expired: usize = 0;
        let mut k: usize = 0;
        let ghost before = self.memberships@;
        while k < self.memberships.len()
            invariant
                k <= before.len(),
                self.memberships@.len() == before.len(),
                self.members == old(self).members,
                self.membership_types == old(self).membership_types,
                self.entry_logs == old(self).entry_logs,
                self.next_entry_log_id == old(self).next_entry_log_id,
                self.next_membership_id == old(self).next_membership_id,
                self.next_member_id == old(self).next_member_id,
                self.next_type_id == old(self).next_type_id,
                self.checkpoint == old(self).checkpoint,
                before == old(self).memberships@,
                forall|i: int| 0 <= i < k ==> self.memberships@[i] == swept(#[trigger] before[i], *clock),
                forall|i: int| k <= i < before.len() ==> self.memberships@[i] == before[i],
                pending_to_active == activated_upto(before, clock.today, k as int),
                active_to_expired == lapsed_upto(before, *clock, k as int),
                pending_to_active <= k,
                active_to_expired <= k,
            decreases before.len() - k,
        {
            let mut membership = self.memberships[k];
            let mut changed = false;
            if !membership.is_deleted && membership.status == MembershipStatus::Pending
                && membership.start_date <= clock.today {
                membership.status = MembershipStatus::Active;
                membership.updated_at = clock.now;
                pending_to_active = pending_to_active + 1;
                changed = true;
            }
            let ended = match membership.end_date {
                Some(end) => end < clock.today,
                None => false,
            };
            if !membership.is_deleted && membership.status == MembershipStatus::Active && ended {
                membership.status = MembershipStatus::Expired;
                membership.updated_at = clock.now;
                active_to_expired = active_to_expired + 1;
                changed = true;
            }
            if changed {
                self.memberships.set(k, membership);
            }
            k = k + 1;
        }
        assert(self.memberships@ =~= swept_all(before, *clock));
        assert(final(self).wf() == old(self).wf()) by {
            assert forall|i: int| 0 <= i < before.len() implies (#[trigger] self.memberships@[i]).wf()
                == before[i].wf() by {
                assert(self.memberships@[i] == swept(before[i], *clock));
            }
        }
        SweepReport { pending_to_active, active_to_expired }
    }

    /// Runs one reconciliation at `clock`: sweeps the memberships if a pass is
    /// due, and writes the checkpoint either way.
    pub fn run_reconciliation_once(&mut self, clock: &Clock) -> (report: SweepReport)
        ensures
            final(self).wf() == old(self).wf(),
            reconciled(*old(self), *final(self), report, *clock),
    {
        let due = is_pass_due(&self.checkpoint, clock.today);
        let report = if due {
            self.update_membership_statuses(clock)
        } else {
            SweepReport { pending_to_active: 0, active_to_expired: 0 }
        };
        let ghost memberships = self.memberships@;
        self.checkpoint = Some(make_checkpoint(Some(report), due, clock));
        assert(self.memberships@ == memberships);
        assert(!due ==> memberships == old(self).memberships@);
        report
    }
}

/// Whether the reconciliation of the application at the instant `utc_secs`
/// takes it from `pre` to `post` and returns `res`. An unknown zone is a
/// configuration error and changes nothing; otherwise the store is
/// reconciled at the reading of the facility's clock and the instant is
/// remembered.
pub open spec fn checked(
    pre: AppState,
    post: AppState,
    res: Result<SweepReport, AppError>,
    utc_secs: i64,
) -> bool {
    &&& post.settings == pre.settings
    &&& res is Ok <==> timezone_known(pre.settings.timezone@)
    &&& res matches Err(e) ==> post == pre && e.is_config("Invalid gym timezone configuration."@)
    &&& res matches Ok(report) ==> post.last_membership_check == Some(utc_secs) && reconciled(
        pre.store,
        post.store,
        report,
        facility_clock(utc_secs, pre.settings.timezone@),
    )
}

/// Runs the reconciliation of the application at the instant `utc_secs`:
/// reads the clock in the zone of the settings, reconciles the store, and
/// remembers the instant of the pass. An unknown zone is a configuration
/// error, and nothing changes.
pub fn check_membership_statuses(state: &mut AppState, utc_secs: i64) -> (res: Result<
    SweepReport,
    AppError,
>)
    requires
        0 <= utc_secs <= MAX_CLOCK_SECS,
    ensures
        final(state).store.wf() == old(state).store.wf(),
        checked(*old(state), *final(state), res, utc_secs),
{
    let clock = match read_clock(utc_secs, state.settings.timezone.as_str()) {
        Ok(clock) => clock,
        Err(e) => {
            return Err(e);
        },
    };
    let report = state.store.run_reconciliation_once(&clock);
    state.last_membership_check = Some(utc_secs);
    Ok(report)
}

/// A pass that follows a reconciliation on the same local day is not due.
/// It moves nothing and reports nothing.
pub proof fn lemma_second_pass_same_day_moves_nothing(
    first: Store,
    second: Store,
    third: Store,
    first_report: SweepReport,
    second_report: SweepReport,
    first_clock: Clock,
    second_clock: Clock,
)
    requires
        reconciled(first, second, first_report, first_clock),
        reconciled(second, third, second_report, second_clock),
        first_clock.today == second_clock.today,
    ensures
        second_report == (SweepReport { pending_to_active: 0, active_to_expired: 0 }),
        third.memberships@ == second.memberships@,
{
}

/// A swept membership is left as it is by another sweep on the same day: the
/// sweep activates and expires nothing twice.
pub proof fn lemma_sweep_is_idempotent(membership: Membership, first: Clock, second: Clock)
    requires
        first.today == second.today,
    ensures
        !activates(swept(membership, first), second.today),
        !lapses(swept(membership, first), second.today),
        swept(swept(membership, first), second) == swept(membership, first),
{
}

/// A sweep never touches a suspended membership.
pub proof fn lemma_sweep_keeps_suspended(membership: Membership, clock: Clock)
    requires
        membership.status == MembershipStatus::Suspended,
    ensures
        swept(membership, clock) == membership,
{
}

} // verus!
