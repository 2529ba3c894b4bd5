//! The private structured log: a closed set of safe events, one JSON line
//! each, kept under a byte limit by dropping whole lines from the front.

use vstd::prelude::*;
use crate::failures::failure_is;
use crate::model::OperationFailure;

verus! {

/// The limit of the production log, in bytes.
pub const PRODUCTION_LIMIT: usize = 5 * 1024 * 1024;

/// The events that may be logged; none carries free-form text.
#[derive(Debug, Clone, Copy, PartialEq, Eq, Structural)]
pub enum SafeEvent {
    ApplicationStarted,
    PuppisVerified,
    ManagedSharingReconciled,
    SettingsTransactionStarted,
    SettingsTransactionVerified,
    SettingsTransactionRolledBack,
    RecoveryRequired,
}

/// The name under which an event is logged.
pub open spec fn event_name_of(event: SafeEvent) -> Seq<char> {
    match event {
        SafeEvent::ApplicationStarted => "application_started"@,
        SafeEvent::PuppisVerified => "puppis_verified"@,
        SafeEvent::ManagedSharingReconciled => "managed_sharing_reconciled"@,
        SafeEvent::SettingsTransactionStarted => "settings_transaction_started"@,
        SafeEvent::SettingsTransactionVerified => "settings_transaction_verified"@,
        SafeEvent::SettingsTransactionRolledBack => "settings_transaction_rolled_back"@,
        SafeEvent::RecoveryRequired => "recovery_required"@,
    }
}

impl SafeEvent {
    /// The name under which the event is logged.
    pub fn name(self) -> (r: &'static str)
        ensures
            r@ == event_name_of(self),
    {
        match self {
            SafeEvent::ApplicationStarted => "application_started",
            SafeEvent::PuppisVerified => "puppis_verified",
            SafeEvent::ManagedSharingReconciled => "managed_sharing_reconciled",
            SafeEvent::SettingsTransactionStarted => "settings_transaction_started",
            SafeEvent::SettingsTransactionVerified => "settings_transaction_verified",
            SafeEvent::SettingsTransactionRolledBack => "settings_transaction_rolled_back",
            SafeEvent::RecoveryRequired => "recovery_required",
        }
    }
}

#[verifier::external_type_specification]
#[verifier::external_body]
pub struct ExPathBuf(std::path::PathBuf);

/// A log file and its byte limit.
#[derive(Debug)]
pub struct BoundedLog {
    path: std::path::PathBuf,
    limit: usize,
}

impl BoundedLog {
    /// A log at `path` kept under `limit` bytes.
    pub fn with_limit(path: std::path::PathBuf, limit: usize) -> (r: BoundedLog)
        ensures
            r.limit() == limit,
            r.file() == path,
    {
        BoundedLog { path, limit }
    }

    /// The production log at `path` (the events file beside the
    /// interrupted-transaction marker), when there is such a location.
    pub fn system_default(path: Option<std::path::PathBuf>) -> (r: Option<BoundedLog>)
        ensures
            path is None ==> r is None,
            path is Some ==> (r matches Some(l) && l.limit() == PRODUCTION_LIMIT && l.file() == path->0),
    {
        match path {
            Some(p) => Some(BoundedLog::with_limit(p, PRODUCTION_LIMIT)),
            None => None,
        }
    }

    /// The byte limit.
    pub closed spec fn limit(&self) -> usize {
        self.limit
    }

    /// The log file.
    pub closed spec fn file(&self) -> std::path::PathBuf {
        self.path
    }

    /// The byte limit.
    pub fn byte_limit(&self) -> (r: usize)
        ensures
            r == self.limit(),
    {
        self.limit
    }

    /// The log file.
    pub fn path(&self) -> (r: &std::path::PathBuf)
        ensures
            *r == self.file(),
    {
        &self.path
    }
}

/// The index of the first newline byte.
pub open spec fn first_newline(b: Seq<u8>) -> Option<int> {
    if exists|k: int| 0 <= k < b.len() && b[k] == 10 && forall|j: int| 0 <= j < k ==> b[j] != 10 {
        Some(choose|k: int| 0 <= k < b.len() && b[k] == 10 && forall|j: int| 0 <= j < k ==> b[j] != 10)
    } else {
        None
    }
}

/// The log contents `b` kept under `limit` bytes: while too long, the first
/// line (up to and with its newline) is dropped; contents too long without
/// any newline are dropped entirely.
pub open spec fn bounded(b: Seq<u8>, limit: nat) -> Seq<u8>
    decreases b.len(),
{
    if b.len() <= limit {
        b
    } else {
        match first_newline(b) {
            None => Seq::empty(),
            Some(k) => if 0 <= k < b.len() { bounded(b.subrange(k + 1, b.len() as int), limit) } else { Seq::empty() },
        }
    }
}

/// The contents after appending `line` to the log contents `contents`.
pub fn append_bounded(contents: &[u8], line: &[u8], limit: usize) -> (r: Vec<u8>)
    requires
        contents@.len() + line@.len() <= usize::MAX,
    ensures
        r@ == bounded(contents@ + line@, limit as nat),
{
    let mut all: Vec<u8> = Vec::new();
    for i in 0..contents.len()
        invariant
            all@ == contents@.take(i as int),
    {
        all.push(contents[i]);
        assert(all@ =~= contents@.take(i + 1 as int));
    }
    for i in 0..line.len()
        invariant
            all@ == contents@ + line@.take(i as int),
            contents@.len() + line@.len() <= usize::MAX,
    {
        assert(contents@.take(contents@.len() as int) =~= contents@);
        all.push(line[i]);
        assert(all@ =~= contents@ + line@.take(i + 1 as int));
    }
    assert(contents@.take(contents@.len() as int) =~= contents@);
    assert(line@.take(line@.len() as int) =~= line@);
    let ghost whole = all@;
    let mut start: usize = 0;
    let n = all.len();
    let mut cleared = false;
    assert(whole.subrange(0, n as int) =~= whole);
    while n - start > limit && !cleared
        invariant
            n == all@.len(),
            all@ == whole,
            start <= n,
            cleared ==> bounded(whole, limit as nat) == Seq::<u8>::empty(),
            !cleared ==> bounded(whole, limit as nat) == bounded(whole.subrange(start as int, n as int), limit as nat),
        decreases n - start + if cleared { 0int } else { 1int },
    {
        let ghost rest = whole.subrange(start as int, n as int);
        let mut k: usize = start;
        while k < n && all[k] != 10
            invariant
                start <= k <= n,
                n == all@.len(),
                forall|j: int| start <= j < k ==> all@[j] != 10,
            decreases n - k,
        {
            k = k + 1;
        }
        if k == n {
            proof {
                assert(!exists|m: int| 0 <= m < rest.len() && rest[m] == 10 && forall|j: int| 0 <= j < m ==> rest[j] != 10) by {
                    if exists|m: int| 0 <= m < rest.len() && rest[m] == 10 && forall|j: int| 0 <= j < m ==> rest[j] != 10 {
                        let m = choose|m: int| 0 <= m < rest.len() && rest[m] == 10 && forall|j: int| 0 <= j < m ==> rest[j] != 10;
                        assert(rest[m] == all@[start + m]);
                    }
                }
            }
            cleared = true;
        } else {
            proof {
                let m = (k - start) as int;
                assert(rest[m] == all@[k as int]);
                assert forall|j: int| 0 <= j < m implies rest[j] != 10 by {
                    assert(rest[j] == all@[start + j]);
                }
                let c = choose|c: int| 0 <= c < rest.len() && rest[c] == 10 && forall|j: int| 0 <= j < c ==> rest[j] != 10;
                assert(c == m) by {
                    if c < m { assert(rest[c] == all@[start + c]); }
                    if c > m { assert(rest[m] == 10); }
                }
                assert(rest.subrange(m + 1, rest.len() as int) =~= whole.subrange(k + 1, n as int));
            }
            start = k + 1;
        }
    }
    let mut r: Vec<u8> = Vec::new();
    if !cleared {
        for i in start..n
            invariant
                n == all@.len(),
                start <= n,
                r@ == all@.subrange(start as int, i as int),
        {
            r.push(all[i]);
            assert(r@ =~= all@.subrange(start as int, i + 1 as int));
        }
    }
    r
}

/// The log never exceeds its limit: whatever it held, after appending a
/// line it holds at most `limit` bytes, and what it holds is a suffix of
/// the previous contents followed by the line.
pub proof fn lemma_log_stays_bounded(b: Seq<u8>, limit: nat)
    ensures
        bounded(b, limit).len() <= limit,
        exists|s: int| 0 <= s <= b.len() && #[trigger] b.subrange(s, b.len() as int) == bounded(b, limit),
    decreases b.len(),
{
    if b.len() <= limit {
        assert(b.subrange(0, b.len() as int) =~= b);
    } else {
        match first_newline(b) {
            None => {
                assert(b.subrange(b.len() as int, b.len() as int) =~= Seq::<u8>::empty());
            },
            Some(k) => {
                if 0 <= k < b.len() {
                    let rest = b.subrange(k + 1, b.len() as int);
                    lemma_log_stays_bounded(rest, limit);
                    let s = choose|s: int| 0 <= s <= rest.len() && #[trigger] rest.subrange(s, rest.len() as int) == bounded(rest, limit);
                    assert(b.subrange(k + 1 + s, b.len() as int) =~= rest.subrange(s, rest.len() as int));
                } else {
                    assert(b.subrange(b.len() as int, b.len() as int) =~= Seq::<u8>::empty());
                }
            },
        }
    }
}


/// The failure for a log that cannot be updated.
pub open spec fn is_log_failure(f: OperationFailure) -> bool {
    failure_is(f, "structured_log_unavailable", "The private structured log could not be updated.",
        "Diagnostics remain available from current in-memory state.")
}

/// Reports a log that cannot be updated.
pub fn log_failure() -> (f: OperationFailure)
    ensures
        is_log_failure(f),
{
    OperationFailure::safe("structured_log_unavailable", "The private structured log could not be updated.",
        "Diagnostics remain available from current in-memory state.")
}

/// The failure for a recovery marker that cannot be stored.
pub open spec fn is_marker_failure(f: OperationFailure) -> bool {
    failure_is(f, "recovery_marker_failed", "The interrupted-operation marker could not be updated.",
        "No further mutation is safe; inspect the state directory and diagnostics.")
}

/// Reports a recovery marker that cannot be stored.
pub fn marker_failure() -> (f: OperationFailure)
    ensures
        is_marker_failure(f),
{
    OperationFailure::safe("recovery_marker_failed", "The interrupted-operation marker could not be updated.",
        "No further mutation is safe; inspect the state directory and diagnostics.")
}


/// The failure for a host without a user state directory.
pub open spec fn is_state_directory_unavailable(f: OperationFailure) -> bool {
    failure_is(f, "state_directory_unavailable", "The recovery marker cannot be stored.",
        "Configure an XDG state directory before changing device settings.")
}

/// Reports a host without a user state directory.
pub fn state_directory_failure() -> (f: OperationFailure)
    ensures
        is_state_directory_unavailable(f),
{
    OperationFailure::safe("state_directory_unavailable", "The recovery marker cannot be stored.",
        "Configure an XDG state directory before changing device settings.")
}

} // verus!
