use vstd::prelude::*;

verus! {

/// The closed set of states a membership can be in.
#[derive(Clone, Copy, Debug, PartialEq, Eq, Structural)]
pub enum MembershipStatus {
    Pending,
    Active,
    Inactive,
    Expired,
    Suspended,
}

/// The text under which a status is stored and shown.
pub open spec fn status_text(status: MembershipStatus) -> Seq<char> {
    match status {
        MembershipStatus::Pending => "pending"@,
        MembershipStatus::Active => "active"@,
        MembershipStatus::Inactive => "inactive"@,
        MembershipStatus::Expired => "expired"@,
        MembershipStatus::Suspended => "suspended"@,
    }
}

/// The status whose stored text is `text`, if there is one.
pub open spec fn status_of_text(text: Seq<char>) -> Option<MembershipStatus> {
    if text == "active"@ {
        Some(MembershipStatus::Active)
    } else if text == "pending"@ {
        Some(MembershipStatus::Pending)
    } else if text == "inactive"@ {
        Some(MembershipStatus::Inactive)
    } else if text == "expired"@ {
        Some(MembershipStatus::Expired)
    } else if text == "suspended"@ {
        Some(MembershipStatus::Suspended)
    } else {
        None
    }
}

/// The status a membership should have on the local date `today`.
///
/// Dates are day numbers, so that an earlier date is a smaller number. A
/// suspended membership stays suspended. Otherwise exhausted visits expire it,
/// then an end date in the past, then the absence of both an end date and a
/// visit count. A pending membership whose start date has come becomes active
/// when it has an end date and inactive when it has none. In every other case
/// the status stays what it is.
pub open spec fn lifecycle(
    current: MembershipStatus,
    start_date: i32,
    end_date: Option<i32>,
    remaining_visits: Option<i64>,
    today: i32,
) -> MembershipStatus {
    if current == MembershipStatus::Suspended {
        MembershipStatus::Suspended
    } else if remaining_visits is Some && remaining_visits->0 <= 0 {
        MembershipStatus::Expired
    } else if end_date is Some && end_date->0 < today {
        MembershipStatus::Expired
    } else if end_date is None && remaining_visits is None {
        MembershipStatus::Expired
    } else if current == MembershipStatus::Pending && start_date <= today {
        if end_date is Some {
            MembershipStatus::Active
        } else {
            MembershipStatus::Inactive
        }
    } else {
        current
    }
}

/// Whether the expiry rules of `lifecycle` apply to a membership that is not
/// suspended.
pub open spec fn expiry_applies(
    end_date: Option<i32>,
    remaining_visits: Option<i64>,
    today: i32,
) -> bool {
    ||| (remaining_visits is Some && remaining_visits->0 <= 0)
    ||| (end_date is Some && end_date->0 < today)
    ||| (end_date is None && remaining_visits is None)
}

/// The status that a membership saved on `today` starts with: expired when
/// its visits are used up or its end date has passed, pending before its
/// start date, active while visits are left and the end date lies ahead, and
/// inactive otherwise.
pub open spec fn initial_status(
    start_date: i32,
    end_date: i32,
    remaining_visits: i64,
    today: i32,
) -> MembershipStatus {
    if remaining_visits <= 0 || end_date < today {
        MembershipStatus::Expired
    } else if start_date > today {
        MembershipStatus::Pending
    } else if end_date > today {
        MembershipStatus::Active
    } else {
        MembershipStatus::Inactive
    }
}

impl MembershipStatus {
    /// The stored text of the status.
    pub fn as_text(&self) -> (text: String)
        ensures
            text@ == status_text(*self),
    {
        match self {
            MembershipStatus::Pending => String::from_str("pending"),
            MembershipStatus::Active => String::from_str("active"),
            MembershipStatus::Inactive => String::from_str("inactive"),
            MembershipStatus::Expired => String::from_str("expired"),
            MembershipStatus::Suspended => String::from_str("suspended"),
        }
    }

    /// Reads a stored status text; any text outside the closed set is refused.
    pub fn from_text(text: &String) -> (status: Option<MembershipStatus>)
        ensures
            status == status_of_text(text@),
    {
        if *text == String::from_str("active") {
            Some(MembershipStatus::Active)
        } else if *text == String::from_str("pending") {
            Some(MembershipStatus::Pending)
        } else if *text == String::from_str("inactive") {
            Some(MembershipStatus::Inactive)
        } else if *text == String::from_str("expired") {
            Some(MembershipStatus::Expired)
        } else if *text == String::from_str("suspended") {
            Some(MembershipStatus::Suspended)
        } else {
            None
        }
    }
}

/// Computes the status a membership should have on `today`.
pub fn lifecycle_status(
    current: MembershipStatus,
    start_date: i32,
    end_date: Option<i32>,
    remaining_visits: Option<i64>,
    today: i32,
) -> (status: MembershipStatus)
    ensures
        status == lifecycle(current, start_date, end_date, remaining_visits, today),
{
    if current == MembershipStatus::Suspended {
        return MembershipStatus::Suspended;
    }
    let exhausted = match remaining_visits {
        Some(visits) => visits <= 0,
        None => false,
    };
    let ended = match end_date {
        Some(end) => end < today,
        None => false,
    };
    if exhausted || ended || (end_date.is_none() && remaining_visits.is_none()) {
        MembershipStatus::Expired
    } else if current == MembershipStatus::Pending && start_date <= today {
        if end_date.is_some() {
            MembershipStatus::Active
        } else {
            MembershipStatus::Inactive
        }
    } else {
        current
    }
}

/// Computes the status with which a membership is saved on `today`.
pub fn determine_membership_status(
    start_date: i32,
    end_date: i32,
    remaining_visits: i64,
    today: i32,
) -> (status: MembershipStatus)
    ensures
        status == initial_status(start_date, end_date, remaining_visits, today),
{
    if remaining_visits <= 0 || end_date < today {
        return MembershipStatus::Expired;
    }
    if start_date > today {
        MembershipStatus::Pending
    } else if end_date > today && remaining_visits > 0 {
        MembershipStatus::Active
    } else {
        MembershipStatus::Inactive
    }
}

/// Suspension is sticky: whatever the dates, the visit count and the day, a
/// suspended membership stays suspended.
pub proof fn lemma_suspended_is_sticky(
    start_date: i32,
    end_date: Option<i32>,
    remaining_visits: Option<i64>,
    today: i32,
)
    ensures
        lifecycle(MembershipStatus::Suspended, start_date, end_date, remaining_visits, today)
            == MembershipStatus::Suspended,
{
}

/// A membership that is not suspended and has a visit count of zero or less is
/// expired, whatever its dates.
pub proof fn lemma_exhausted_visits_expire(
    current: MembershipStatus,
    start_date: i32,
    end_date: Option<i32>,
    visits: i64,
    today: i32,
)
    requires
        current != MembershipStatus::Suspended,
        visits <= 0,
    ensures
        lifecycle(current, start_date, end_date, Some(visits), today) == MembershipStatus::Expired,
{
}

/// A pending membership to which no expiry rule applies stays pending on every
/// day before its start date, and on every day from its start date on it is
/// active when it has an end date and inactive when it has none.
pub proof fn lemma_pending_until_start(
    start_date: i32,
    end_date: Option<i32>,
    remaining_visits: Option<i64>,
    today: i32,
)
    requires
        !expiry_applies(end_date, remaining_visits, today),
    ensures
        today < start_date ==> lifecycle(
            MembershipStatus::Pending,
            start_date,
            end_date,
            remaining_visits,
            today,
        ) == MembershipStatus::Pending,
        today >= start_date && end_date is Some ==> lifecycle(
            MembershipStatus::Pending,
            start_date,
            end_date,
            remaining_visits,
            today,
        ) == MembershipStatus::Active,
        today >= start_date && end_date is None ==> lifecycle(
            MembershipStatus::Pending,
            start_date,
            end_date,
            remaining_visits,
            today,
        ) == MembershipStatus::Inactive,
{
}

/// Applying the lifecycle twice on the same day gives what applying it once
/// gives.
pub proof fn lemma_lifecycle_is_idempotent(
    current: MembershipStatus,
    start_date: i32,
    end_date: Option<i32>,
    remaining_visits: Option<i64>,
    today: i32,
)
    ensures
        lifecycle(
            lifecycle(current, start_date, end_date, remaining_visits, today),
            start_date,
            end_date,
            remaining_visits,
            today,
        ) == lifecycle(current, start_date, end_date, remaining_visits, today),
{
}

} // verus!
