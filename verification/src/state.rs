use crate::models::{CronCheck, EntryLog, Member, Membership, MembershipType};
use vstd::prelude::*;

verus! {

/// The settings of the facility.
#[derive(Clone, Debug)]
pub struct AppSettings {
    pub backup_url: Option<String>,
    pub backup_period_hours: Option<u64>,
    pub language: String,
    pub theme: String,
    pub timezone: String,
    pub backup_enabled: bool,
    pub gym_name: String,
    pub gym_code: String,
}

impl AppSettings {
    /// The settings of a new installation, which is known by `gym_code`:
    /// English, light theme, the zone of Belgrade, and backups every twelve
    /// hours but switched off.
    pub fn with_gym_code(gym_code: String) -> (settings: AppSettings)
        ensures
            settings.language@ == "en"@,
            settings.theme@ == "light"@,
            settings.timezone@ == "Europe/Belgrade"@,
            settings.backup_url is None,
            settings.backup_period_hours == Some(12u64),
            !settings.backup_enabled,
            settings.gym_name@ == "Gym"@,
            settings.gym_code == gym_code,
    {
        AppSettings {
            backup_url: None,
            backup_period_hours: Some(12),
            language: String::from_str("en"),
            theme: String::from_str("light"),
            timezone: String::from_str("Europe/Belgrade"),
            backup_enabled: false,
            gym_name: String::from_str("Gym"),
            gym_code,
        }
    }
}

/// The membership store: members, membership types, memberships, the audit
/// ledger in the order in which it was written, the identifiers that the next
/// ledger record, membership, member and membership type get, and the record
/// of the last reconciliation pass.
#[derive(Debug)]
pub struct Store {
    pub members: Vec<Member>,
    pub membership_types: Vec<MembershipType>,
    pub memberships: Vec<Membership>,
    pub entry_logs: Vec<EntryLog>,
    pub next_entry_log_id: i64,
    pub next_membership_id: i64,
    pub next_member_id: i64,
    pub next_type_id: i64,
    pub checkpoint: Option<CronCheck>,
}

impl Store {
    /// Every membership of the store has calendar dates.
    pub open spec fn wf(&self) -> bool {
        forall|i: int| 0 <= i < self.memberships@.len() ==> (#[trigger] self.memberships@[i]).wf()
    }

    /// An empty store.
    pub fn new() -> (store: Store)
        ensures
            store.wf(),
            store.members@.len() == 0,
            store.membership_types@.len() == 0,
            store.memberships@.len() == 0,
            store.entry_logs@.len() == 0,
            store.next_entry_log_id == 1,
            store.next_membership_id == 1,
            store.next_member_id == 1,
            store.next_type_id == 1,
            store.checkpoint is None,
    {
        Store {
            members: Vec::new(),
            membership_types: Vec::new(),
            memberships: Vec::new(),
            entry_logs: Vec::new(),
            next_entry_log_id: 1,
            next_membership_id: 1,
            next_member_id: 1,
            next_type_id: 1,
            checkpoint: None,
        }
    }
}

/// Whether a store is well formed depends on its memberships alone.
pub proof fn lemma_wf_depends_on_memberships(a: Store, b: Store)
    requires
        a.memberships@ == b.memberships@,
    ensures
        a.wf() == b.wf(),
{
    if a.wf() {
        assert forall|i: int| 0 <= i < b.memberships@.len() implies (
        #[trigger] b.memberships@[i]).wf() by {
            assert(a.memberships@[i].wf());
        }
    }
    if b.wf() {
        assert forall|i: int| 0 <= i < a.memberships@.len() implies (
        #[trigger] a.memberships@[i]).wf() by {
            assert(b.memberships@[i].wf());
        }
    }
}

/// What the running application holds: the store, the settings, and the
/// instant of the last reconciliation pass as a cache of the store's record.
#[derive(Debug)]
pub struct AppState {
    pub store: Store,
    pub settings: AppSettings,
    pub last_membership_check: Option<i64>,
}

impl AppState {
    /// The instant of the last reconciliation pass: the remembered one, or,
    /// where none is remembered, the one on record in the store.
    pub fn last_check_time(&self) -> (at: Option<i64>)
        ensures
            at == match self.last_membership_check {
                Some(t) => Some(t),
                None => match self.store.checkpoint {
                    Some(check) => Some(check.last_check_time),
                    None => None,
                },
            },
    {
        match self.last_membership_check {
            Some(t) => Some(t),
            None => match &self.store.checkpoint {
                Some(check) => Some(check.last_check_time),
                None => None,
            },
        }
    }

    /// The state of a freshly started application.
    pub fn new(store: Store, settings: AppSettings) -> (state: AppState)
        ensures
            state.store == store,
            state.settings == settings,
            state.last_membership_check is None,
    {
        AppState { store, settings, last_membership_check: None }
    }
}

} // verus!
