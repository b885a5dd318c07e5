//! Sync locks: while one device of an account synchronises a workspace, no
//! other device of the account may synchronise it.
use vstd::prelude::*;
use crate::clock::{new_uuid_v4, now_timestamp, uuid_v4_text, MAX_TIMESTAMP, MIN_TIMESTAMP};
use crate::server::models::SyncLock;
use crate::text::str_eq;

verus! {

/// Why a lock was refused.
#[derive(Debug, Clone, PartialEq, Eq, Structural)]
pub enum LockError {
    /// The device already synchronises another workspace of the account.
    OtherWorkspaceSyncing,
    /// Another device of the account holds the lock of this workspace.
    HeldByOtherDevice,
    /// The fresh lock identifier is already taken (the insert is rejected).
    DuplicateLockId,
}

impl LockError {
    /// Human-readable text of the error.
    pub fn message(&self) -> (r: &'static str)
        ensures
            r@ == match self {
                LockError::OtherWorkspaceSyncing => "该用户的其他工作空间正在同步"@,
                LockError::HeldByOtherDevice => "同步锁已被其他设备持有"@,
                LockError::DuplicateLockId => "同步锁 ID 冲突"@,
            },
    {
        match self {
            LockError::OtherWorkspaceSyncing => "该用户的其他工作空间正在同步",
            LockError::HeldByOtherDevice => "同步锁已被其他设备持有",
            LockError::DuplicateLockId => "同步锁 ID 冲突",
        }
    }
}

/// The view of an optional workspace identifier.
pub open spec fn ws_view(w: Option<String>) -> Option<Seq<char>> {
    match w {
        Some(s) => Some(s@),
        None => None,
    }
}

/// The view of an optional borrowed workspace identifier.
pub open spec fn ws_ref_view(w: Option<&str>) -> Option<Seq<char>> {
    match w {
        Some(s) => Some(s@),
        None => None,
    }
}

/// A lock still holds at `now`.
pub open spec fn active_at(l: SyncLock, now: i64) -> bool {
    l.expires_at > now
}

/// A lock of this account and device that still holds at `now`.
pub open spec fn is_own(l: SyncLock, user: Seq<char>, device: Seq<char>, now: i64) -> bool {
    &&& l.user_id@ == user
    &&& l.device_id@ == device
    &&& active_at(l, now)
}

/// A lock of another device of the account that still holds at `now`.
pub open spec fn is_rival(l: SyncLock, user: Seq<char>, device: Seq<char>, now: i64) -> bool {
    &&& l.user_id@ == user
    &&& l.device_id@ != device
    &&& active_at(l, now)
}

/// A lock of another device of the account, on the workspace `ws` (or on
/// none, when none is asked for), that still holds at `now`.
pub open spec fn is_rival_on(
    l: SyncLock,
    user: Seq<char>,
    device: Seq<char>,
    ws: Option<Seq<char>>,
    now: i64,
) -> bool {
    &&& is_rival(l, user, device, now)
    &&& ws_view(l.workspace_id) == ws
}

/// The table once the locks that expired before `now` are deleted.
pub open spec fn cleaned(locks: Seq<SyncLock>, now: i64) -> Seq<SyncLock> {
    locks.filter(|l: SyncLock| !(l.expires_at < now))
}

/// `i` is the lock the server picks among the account's and device's
/// active locks: the most recently acquired one, the first in table order
/// among equals.
pub open spec fn picked_own(
    locks: Seq<SyncLock>,
    user: Seq<char>,
    device: Seq<char>,
    now: i64,
    i: int,
) -> bool {
    &&& 0 <= i < locks.len()
    &&& is_own(locks[i], user, device, now)
    &&& forall|j: int|
        0 <= j < locks.len() && is_own(locks[j], user, device, now) ==> locks[j].acquired_at
            <= locks[i].acquired_at && (locks[j].acquired_at == locks[i].acquired_at ==> i <= j)
}

/// Every lock with identifier `id` gets `expires_at`.
pub open spec fn extended(locks: Seq<SyncLock>, id: Seq<char>, expires_at: i64) -> Seq<SyncLock> {
    locks.map_values(
        |l: SyncLock|
            if l.id@ == id {
                SyncLock { expires_at: expires_at, ..l }
            } else {
                l
            },
    )
}

/// Outcome of asking for a lock at time `now` with the fresh identifier
/// `lock_id`: the table goes from `before` to `after` and `r` is returned.
///
/// Expired locks are deleted first. If the device holds an active lock, it
/// is extended and its identifier returned, unless a workspace is asked for
/// and the lock is on another one. Otherwise the lock is refused while
/// another device of the account holds a lock: on the same workspace, or
/// on another one (another workspace of the account is syncing). Else a
/// new lock is inserted.
pub open spec fn acquire_outcome(
    before: Seq<SyncLock>,
    after: Seq<SyncLock>,
    r: Result<String, LockError>,
    user: Seq<char>,
    device: Seq<char>,
    ws: Option<Seq<char>>,
    duration: i64,
    now: i64,
    lock_id: Seq<char>,
) -> bool {
    let c = cleaned(before, now);
    let expires_at = now + duration;
    if exists|i: int| 0 <= i < c.len() && is_own(c[i], user, device, now) {
        exists|i: int|
            #![trigger c[i]]
            picked_own(c, user, device, now, i) && if ws is Some && ws_view(c[i].workspace_id)
                != ws {
                &&& r == Err::<String, LockError>(LockError::OtherWorkspaceSyncing)
                &&& after == c
            } else {
                &&& r matches Ok(id) && id@ == c[i].id@
                &&& after == extended(c, c[i].id@, expires_at as i64)
            }
    } else if exists|i: int| 0 <= i < c.len() && is_rival_on(c[i], user, device, ws, now) {
        &&& r == Err::<String, LockError>(LockError::HeldByOtherDevice)
        &&& after == c
    } else if exists|i: int| 0 <= i < c.len() && is_rival(c[i], user, device, now) {
        &&& r == Err::<String, LockError>(LockError::OtherWorkspaceSyncing)
        &&& after == c
    } else if exists|i: int| 0 <= i < c.len() && c[i].id@ == lock_id {
        &&& r == Err::<String, LockError>(LockError::DuplicateLockId)
        &&& after == c
    } else {
        &&& r matches Ok(id) && id@ == lock_id
        &&& after.len() == c.len() + 1
        &&& after.take(c.len() as int) == c
        &&& after.last().id@ == lock_id
        &&& after.last().user_id@ == user
        &&& after.last().device_id@ == device
        &&& ws_view(after.last().workspace_id) == ws
        &&& after.last().acquired_at == now
        &&& after.last().expires_at == expires_at
    }
}

/// Mutual exclusion at time `now`: no two different locks of one account
/// hold at `now`, so at most one device syncs one workspace of an account
/// at a time.
pub open spec fn exclusive(locks: Seq<SyncLock>, now: i64) -> bool {
    forall|i: int, j: int|
        #![trigger locks[i], locks[j]]
        0 <= i < locks.len() && 0 <= j < locks.len() && i != j && locks[i].user_id@
            == locks[j].user_id@ ==> !(active_at(locks[i], now) && active_at(locks[j], now))
}

/// Mutual exclusion for one account at time `now`: no two different locks
/// of `user` hold at `now`.
pub open spec fn exclusive_for(locks: Seq<SyncLock>, user: Seq<char>, now: i64) -> bool {
    forall|i: int, j: int|
        #![trigger locks[i], locks[j]]
        0 <= i < locks.len() && 0 <= j < locks.len() && i != j && locks[i].user_id@ == user
            && locks[j].user_id@ == user ==> !(active_at(locks[i], now) && active_at(locks[j], now))
}

/// Mutual exclusion at one time holds at every later time, since locks
/// only expire as time goes on.
pub proof fn lemma_exclusive_later(locks: Seq<SyncLock>, earlier: i64, later: i64)
    requires
        exclusive(locks, earlier),
        earlier <= later,
    ensures
        exclusive(locks, later),
{
}

/// No two locks share an identifier.
pub open spec fn unique_ids(locks: Seq<SyncLock>) -> bool {
    forall|i: int, j: int|
        #![trigger locks[i], locks[j]]
        0 <= i < locks.len() && 0 <= j < locks.len() && i != j ==> locks[i].id@ != locks[j].id@
}

/// Deleting locks keeps identifiers unique.
proof fn lemma_unique_filter(locks: Seq<SyncLock>, f: spec_fn(SyncLock) -> bool)
    requires
        unique_ids(locks),
    ensures
        unique_ids(locks.filter(f)),
{
    let g = locks.filter(f);
    assert forall|i: int, j: int|
        #![trigger g[i], g[j]]
        0 <= i < g.len() && 0 <= j < g.len() && i != j implies g[i].id@ != g[j].id@ by {
        let (a, b) = lemma_filter_index_injective(locks, f, i, j);
        assert(locks[a] == g[i] && locks[b] == g[j]);
    }
}

/// Deleting locks keeps mutual exclusion.
proof fn lemma_exclusive_filter(locks: Seq<SyncLock>, f: spec_fn(SyncLock) -> bool, now: i64)
    requires
        exclusive(locks, now),
    ensures
        exclusive(locks.filter(f), now),
{
    let g = locks.filter(f);
    assert forall|i: int, j: int|
        #![trigger g[i], g[j]]
        0 <= i < g.len() && 0 <= j < g.len() && i != j && g[i].user_id@ == g[j].user_id@
            implies !(active_at(g[i], now) && active_at(g[j], now)) by {
        let (a, b) = lemma_filter_index_injective(locks, f, i, j);
        assert(locks[a] == g[i] && locks[b] == g[j]);
    }
}

/// Deleting locks keeps mutual exclusion for one account.
proof fn lemma_exclusive_for_filter(
    locks: Seq<SyncLock>,
    f: spec_fn(SyncLock) -> bool,
    user: Seq<char>,
    now: i64,
)
    requires
        exclusive_for(locks, user, now),
    ensures
        exclusive_for(locks.filter(f), user, now),
{
    let g = locks.filter(f);
    assert forall|i: int, j: int|
        #![trigger g[i], g[j]]
        0 <= i < g.len() && 0 <= j < g.len() && i != j && g[i].user_id@ == user && g[j].user_id@
            == user implies !(active_at(g[i], now) && active_at(g[j], now)) by {
        let (a, b) = lemma_filter_index_injective(locks, f, i, j);
        assert(locks[a] == g[i] && locks[b] == g[j]);
    }
}

/// Distinct positions of a filtered sequence come from distinct positions.
proof fn lemma_filter_index_injective(
    s: Seq<SyncLock>,
    f: spec_fn(SyncLock) -> bool,
    i: int,
    j: int,
) -> (r: (int, int))
    requires
        0 <= i < s.filter(f).len(),
        0 <= j < s.filter(f).len(),
        i != j,
    ensures
        0 <= r.0 < s.len(),
        0 <= r.1 < s.len(),
        r.0 != r.1,
        s[r.0] == s.filter(f)[i],
        s[r.1] == s.filter(f)[j],
    decreases s.len(),
{
    reveal(Seq::filter);
    let t = s.drop_last();
    let last = s.last();
    if f(last) {
        assert(s.filter(f) == t.filter(f).push(last));
        let n = t.filter(f).len() as int;
        if i == n {
            let k = lemma_filter_index(t, f, j);
            (s.len() - 1, k)
        } else if j == n {
            let k = lemma_filter_index(t, f, i);
            (k, s.len() - 1)
        } else {
            let (a, b) = lemma_filter_index_injective(t, f, i, j);
            (a, b)
        }
    } else {
        assert(s.filter(f) == t.filter(f));
        let (a, b) = lemma_filter_index_injective(t, f, i, j);
        (a, b)
    }
}

/// A position of a filtered sequence comes from a position of the whole.
proof fn lemma_filter_index(s: Seq<SyncLock>, f: spec_fn(SyncLock) -> bool, i: int) -> (k: int)
    requires
        0 <= i < s.filter(f).len(),
    ensures
        0 <= k < s.len(),
        s[k] == s.filter(f)[i],
    decreases s.len(),
{
    reveal(Seq::filter);
    let t = s.drop_last();
    let last = s.last();
    if f(last) {
        assert(s.filter(f) == t.filter(f).push(last));
        if i == t.filter(f).len() {
            s.len() - 1
        } else {
            lemma_filter_index(t, f, i)
        }
    } else {
        assert(s.filter(f) == t.filter(f));
        lemma_filter_index(t, f, i)
    }
}

/// The locks that releasing the lock `lock_id` of the account `user` keeps.
pub open spec fn kept_after_release(lock_id: Seq<char>, user: Seq<char>) -> spec_fn(SyncLock) -> bool {
    |l: SyncLock| !(l.id@ == lock_id && l.user_id@ == user)
}

/// The locks left when the account `user` releases the lock `lock_id`.
pub open spec fn released(locks: Seq<SyncLock>, lock_id: Seq<char>, user: Seq<char>) -> Seq<SyncLock> {
    locks.filter(kept_after_release(lock_id, user))
}

/// Releasing removes only the lock named: every lock with another
/// identifier, or of another account, stays; no lock with that identifier
/// and account is left; and nothing else is added.
pub proof fn lemma_release_removes_only_that_lock(
    locks: Seq<SyncLock>,
    lock_id: Seq<char>,
    user: Seq<char>,
)
    ensures
        forall|i: int|
            0 <= i < locks.len() && (locks[i].id@ != lock_id || locks[i].user_id@ != user)
                ==> released(locks, lock_id, user).contains(#[trigger] locks[i]),
        forall|k: int|
            0 <= k < released(locks, lock_id, user).len() ==> !((#[trigger] released(
                locks,
                lock_id,
                user,
            )[k]).id@ == lock_id && released(locks, lock_id, user)[k].user_id@ == user)
                && locks.contains(released(locks, lock_id, user)[k]),
{
    let f = kept_after_release(lock_id, user);
    assert forall|i: int|
        0 <= i < locks.len() && (locks[i].id@ != lock_id || locks[i].user_id@ != user)
            implies released(locks, lock_id, user).contains(#[trigger] locks[i]) by {
        locks.lemma_filter_contains(f, i);
    }
    assert forall|k: int| 0 <= k < released(locks, lock_id, user).len() implies !((#[trigger] released(
        locks,
        lock_id,
        user,
    )[k]).id@ == lock_id && released(locks, lock_id, user)[k].user_id@ == user) && locks.contains(
        released(locks, lock_id, user)[k],
    ) by {
        locks.lemma_filter_pred(f, k);
        let j = lemma_filter_index(locks, f, k);
    }
}

/// The sync-lock table of the server.
pub struct SyncLockService {
    locks: Vec<SyncLock>,
}

impl SyncLockService {
    /// The locks in table order.
    pub closed spec fn locks(&self) -> Seq<SyncLock> {
        self.locks@
    }

    /// Well-formedness: no two locks share an identifier.
    pub open spec fn wf(&self) -> bool {
        unique_ids(self.locks())
    }

    /// An empty table.
    pub fn new() -> (r: SyncLockService)
        ensures
            r.locks() == Seq::<SyncLock>::empty(),
            r.wf(),
    {
        SyncLockService { locks: Vec::new() }
    }

    /// The locks in table order.
    pub fn list(&self) -> (r: &Vec<SyncLock>)
        ensures
            r@ == self.locks(),
    {
        &self.locks
    }

    /// A service over the locks read from the store; `None` when two of
    /// them share an identifier.
    pub fn from_locks(locks: Vec<SyncLock>) -> (r: Option<SyncLockService>)
        ensures
            r is Some == unique_ids(locks@),
            r matches Some(s) ==> s.locks() == locks@ && s.wf(),
    {
        let n = locks.len();
        for i in 0..n
            invariant
                n == locks@.len(),
                forall|a: int, b: int|
                    #![trigger locks@[a], locks@[b]]
                    0 <= a < i && 0 <= b < n && a != b ==> locks@[a].id@ != locks@[b].id@,
        {
            for j in 0..n
                invariant
                    n == locks@.len(),
                    i < n,
                    forall|a: int, b: int|
                        #![trigger locks@[a], locks@[b]]
                        0 <= a < i && 0 <= b < n && a != b ==> locks@[a].id@ != locks@[b].id@,
                    forall|b: int|
                        #![trigger locks@[b]]
                        0 <= b < j && b != i ==> locks@[i as int].id@ != locks@[b].id@,
            {
                if j != i && str_eq(locks[i].id.as_str(), locks[j].id.as_str()) {
                    assert(!unique_ids(locks@)) by {
                        assert(locks@[i as int].id@ == locks@[j as int].id@);
                    }
                    return None;
                }
            }
        }
        Some(SyncLockService { locks })
    }

    /// Deletes the locks that expired before `now`.
    fn delete_expired(&mut self, now: i64)
        requires
            old(self).wf(),
        ensures
            final(self).locks() == cleaned(old(self).locks(), now),
            final(self).wf(),
    {
        let ghost f = |l: SyncLock| !(l.expires_at < now);
        let mut kept: Vec<SyncLock> = Vec::new();
        let n = self.locks.len();
        for i in 0..n
            invariant
                n == self.locks@.len(),
                f == (|l: SyncLock| !(l.expires_at < now)),
                kept@ == self.locks@.take(i as int).filter(f),
        {
            let l = self.locks[i].clone();
            proof {
                reveal(Seq::filter);
                assert(self.locks@.take(i + 1).drop_last() == self.locks@.take(i as int));
                assert(self.locks@.take(i + 1).last() == l);
            }
            let keep = !(l.expires_at < now);
            proof {
                reveal(Seq::filter);
            }
            if keep {
                kept.push(l);
            }
        }
        assert(self.locks@.take(n as int) == self.locks@);
        proof {
            lemma_unique_filter(self.locks@, f);
        }
        self.locks = kept;
    }

    /// Index of the lock the server picks among the device's active locks.
    fn find_own(&self, user_id: &str, device_id: &str, now: i64) -> (r: Option<usize>)
        ensures
            match r {
                Some(i) => picked_own(self.locks(), user_id@, device_id@, now, i as int),
                None => forall|i: int|
                    0 <= i < self.locks().len() ==> !is_own(
                        #[trigger] self.locks()[i],
                        user_id@,
                        device_id@,
                        now,
                    ),
            },
    {
        let mut best: Option<usize> = None;
        let n = self.locks.len();
        for i in 0..n
            invariant
                n == self.locks@.len(),
                match best {
                    Some(b) => {
                        &&& b < i
                        &&& is_own(self.locks@[b as int], user_id@, device_id@, now)
                        &&& forall|j: int|
                            0 <= j < i && is_own(self.locks@[j], user_id@, device_id@, now)
                                ==> self.locks@[j].acquired_at <= self.locks@[b as int].acquired_at
                                && (self.locks@[j].acquired_at == self.locks@[b as int].acquired_at
                                ==> b <= j)
                    },
                    None => forall|j: int|
                        0 <= j < i ==> !is_own(#[trigger] self.locks@[j], user_id@, device_id@, now),
                },
        {
            let l = &self.locks[i];
            if str_eq(l.user_id.as_str(), user_id) && str_eq(l.device_id.as_str(), device_id)
                && l.expires_at > now {
                match best {
                    None => {
                        best = Some(i);
                    },
                    Some(b) => {
                        if l.acquired_at > self.locks[b].acquired_at {
                            best = Some(i);
                        }
                    },
                }
            }
        }
        best
    }

    /// Whether another device of the account holds an active lock on `ws`
    /// (first) and on any workspace (second).
    fn rivals(&self, user_id: &str, device_id: &str, ws: Option<&str>, now: i64) -> (r: (bool, bool))
        ensures
            r.0 == exists|i: int|
                0 <= i < self.locks().len() && is_rival_on(
                    #[trigger] self.locks()[i],
                    user_id@,
                    device_id@,
                    ws_ref_view(ws),
                    now,
                ),
            r.1 == exists|i: int|
                0 <= i < self.locks().len() && is_rival(
                    #[trigger] self.locks()[i],
                    user_id@,
                    device_id@,
                    now,
                ),
    {
        let n = self.locks.len();
        let mut on_ws = false;
        let mut any = false;
        let mut i: usize = 0;
        while i < n
            invariant
                n == self.locks@.len(),
                i <= n,
                on_ws == exists|j: int|
                    0 <= j < i && is_rival_on(
                        #[trigger] self.locks@[j],
                        user_id@,
                        device_id@,
                        ws_ref_view(ws),
                        now,
                    ),
                any == exists|j: int|
                    0 <= j < i && is_rival(#[trigger] self.locks@[j], user_id@, device_id@, now),
            decreases n - i,
        {
            let l = &self.locks[i];
            let same_ws = match (&l.workspace_id, ws) {
                (Some(a), Some(b)) => str_eq(a.as_str(), b),
                (None, None) => true,
                _ => false,
            };
            let rival = str_eq(l.user_id.as_str(), user_id) && !str_eq(l.device_id.as_str(), device_id)
                && l.expires_at > now;
            proof {
                assert(rival == is_rival(self.locks@[i as int], user_id@, device_id@, now));
                assert((rival && same_ws) == is_rival_on(
                    self.locks@[i as int],
                    user_id@,
                    device_id@,
                    ws_ref_view(ws),
                    now,
                ));
            }
            if rival {
                any = true;
                if same_ws {
                    on_ws = true;
                }
            }
            i = i + 1;
        }
        assert(self.locks() == self.locks@);
        (on_ws, any)
    }

    /// Whether a lock with this identifier exists.
    fn id_taken(&self, lock_id: &str) -> (r: bool)
        ensures
            r == exists|i: int| 0 <= i < self.locks().len() && #[trigger] self.locks()[i].id@ == lock_id@,
    {
        let n = self.locks.len();
        for i in 0..n
            invariant
                n == self.locks@.len(),
                forall|j: int| 0 <= j < i ==> #[trigger] self.locks@[j].id@ != lock_id@,
        {
            if str_eq(self.locks[i].id.as_str(), lock_id) {
                return true;
            }
        }
        false
    }

    /// Sets `expires_at` of every lock with identifier `id`.
    fn extend(&mut self, id: &str, expires_at: i64)
        requires
            old(self).wf(),
        ensures
            final(self).locks() == extended(old(self).locks(), id@, expires_at),
            final(self).wf(),
    {
        let n = self.locks.len();
        let ghost old_locks = self.locks@;
        let mut updated: Vec<SyncLock> = Vec::new();
        for i in 0..n
            invariant
                n == old_locks.len(),
                self.locks@ == old_locks,
                updated@ == extended(old_locks, id@, expires_at).take(i as int),
        {
            let l = self.locks[i].clone();
            if str_eq(l.id.as_str(), id) {
                updated.push(SyncLock { expires_at, ..l });
            } else {
                updated.push(l);
            }
            assert(extended(old_locks, id@, expires_at).take(i + 1) == extended(
                old_locks,
                id@,
                expires_at,
            ).take(i as int).push(extended(old_locks, id@, expires_at)[i as int]));
        }
        assert(extended(old_locks, id@, expires_at).take(n as int) == extended(
            old_locks,
            id@,
            expires_at,
        ));
        assert(unique_ids(updated@)) by {
            let e = updated@;
            assert forall|a: int, b: int|
                #![trigger e[a], e[b]]
                0 <= a < e.len() && 0 <= b < e.len() && a != b implies e[a].id@ != e[b].id@ by {
                assert(e[a].id == old_locks[a].id && e[b].id == old_locks[b].id);
            }
        }
        self.locks = updated;
    }

    /// Asks for the sync lock of `workspace_id` for a device at time `now`,
    /// with `lock_id` as the identifier of a new lock (see `acquire_outcome`).
    /// On success returns the identifier of the lock the device now holds.
    ///
    /// Mutual exclusion at `now` is kept.
    pub fn acquire_lock_at(
        &mut self,
        user_id: &str,
        device_id: &str,
        workspace_id: Option<&str>,
        lock_duration_seconds: i64,
        now: i64,
        lock_id: String,
    ) -> (r: Result<String, LockError>)
        requires
            old(self).wf(),
            i64::MIN <= now + lock_duration_seconds <= i64::MAX,
        ensures
            final(self).wf(),
            acquire_outcome(
                old(self).locks(),
                final(self).locks(),
                r,
                user_id@,
                device_id@,
                ws_ref_view(workspace_id),
                lock_duration_seconds,
                now,
                lock_id@,
            ),
            exclusive(old(self).locks(), now) ==> exclusive(final(self).locks(), now),
    {
        let expires_at = now + lock_duration_seconds;
        let ghost before = self.locks@;
        self.delete_expired(now);
        proof {
            if exclusive(before, now) {
                lemma_exclusive_filter(before, |l: SyncLock| !(l.expires_at < now), now);
            }
        }
        let ghost c = self.locks@;
        match self.find_own(user_id, device_id, now) {
            Some(i) => {
                let same_ws = match (workspace_id, &self.locks[i].workspace_id) {
                    (Some(a), Some(b)) => str_eq(a, b.as_str()),
                    (Some(_), None) => false,
                    (None, _) => true,
                };
                if !same_ws {
                    assert(picked_own(c, user_id@, device_id@, now, i as int));
                    return Err(LockError::OtherWorkspaceSyncing);
                }
                let id = self.locks[i].id.clone();
                self.extend(id.as_str(), expires_at);
                proof {
                    assert(picked_own(c, user_id@, device_id@, now, i as int));
                    if exclusive(c, now) {
                        let e = self.locks@;
                        assert forall|a: int, b: int|
                            #![trigger e[a], e[b]]
                            0 <= a < e.len() && 0 <= b < e.len() && a != b && e[a].user_id@
                                == e[b].user_id@ implies !(active_at(e[a], now) && active_at(
                                e[b],
                                now,
                            )) by {
                            if e[a].id@ == id@ {
                                assert(c[a].id@ == c[i as int].id@);
                                assert(a == i);
                            }
                            if e[b].id@ == id@ {
                                assert(c[b].id@ == c[i as int].id@);
                                assert(b == i);
                            }
                            assert(c[a].user_id == e[a].user_id && c[b].user_id == e[b].user_id);
                        }
                    }
                }
                Ok(id)
            },
            None => {
                let (on_ws, any) = self.rivals(user_id, device_id, workspace_id, now);
                if on_ws {
                    return Err(LockError::HeldByOtherDevice);
                }
                if any {
                    return Err(LockError::OtherWorkspaceSyncing);
                }
                if self.id_taken(lock_id.as_str()) {
                    return Err(LockError::DuplicateLockId);
                }
                let ws = match workspace_id {
                    Some(w) => Some(w.to_owned()),
                    None => None,
                };
                let new_lock = SyncLock {
                    id: lock_id.clone(),
                    user_id: user_id.to_owned(),
                    device_id: device_id.to_owned(),
                    workspace_id: ws,
                    acquired_at: now,
                    expires_at,
                };
                let mut grown = self.locks.clone();
                grown.push(new_lock);
                proof {
                    let e = grown@;
                    assert(e.take(c.len() as int) == c);
                    assert forall|a: int, b: int|
                        #![trigger e[a], e[b]]
                        0 <= a < e.len() && 0 <= b < e.len() && a != b implies e[a].id@ != e[b].id@ by {
                        if a == c.len() {
                            assert(e[b] == c[b]);
                        } else if b == c.len() {
                            assert(e[a] == c[a]);
                        } else {
                            assert(e[a] == c[a] && e[b] == c[b]);
                        }
                    }
                    if exclusive(c, now) {
                        assert forall|a: int, b: int|
                            #![trigger e[a], e[b]]
                            0 <= a < e.len() && 0 <= b < e.len() && a != b && e[a].user_id@
                                == e[b].user_id@ implies !(active_at(e[a], now) && active_at(
                                e[b],
                                now,
                            )) by {
                            if a == c.len() {
                                assert(e[b] == c[b]);
                                assert(!is_own(c[b], user_id@, device_id@, now));
                                assert(!is_rival(c[b], user_id@, device_id@, now));
                            } else if b == c.len() {
                                assert(e[a] == c[a]);
                                assert(!is_own(c[a], user_id@, device_id@, now));
                                assert(!is_rival(c[a], user_id@, device_id@, now));
                            } else {
                                assert(e[a] == c[a] && e[b] == c[b]);
                            }
                        }
                    }
                }
                self.locks = grown;
                Ok(lock_id)
            },
        }
    }

    /// Asks for the sync lock of `workspace_id` for a device, now, for
    /// `lock_duration_seconds`, with a fresh random lock identifier.
    ///
    /// For the clock reading and identifier that were used, the outcome is
    /// `acquire_outcome`, and mutual exclusion at that time is kept.
    pub fn acquire_lock(
        &mut self,
        user_id: &str,
        device_id: &str,
        workspace_id: Option<&str>,
        lock_duration_seconds: i64,
    ) -> (r: Result<String, LockError>)
        requires
            old(self).wf(),
            i64::MIN - MIN_TIMESTAMP <= lock_duration_seconds <= i64::MAX - MAX_TIMESTAMP,
        ensures
            final(self).wf(),
            exists|now: i64, lock_id: Seq<char>|
                {
                    &&& uuid_v4_text(lock_id)
                    &&& acquire_outcome(
                        old(self).locks(),
                        final(self).locks(),
                        r,
                        user_id@,
                        device_id@,
                        ws_ref_view(workspace_id),
                        lock_duration_seconds,
                        now,
                        lock_id,
                    )
                    &&& (exclusive(old(self).locks(), now) ==> exclusive(final(self).locks(), now))
                },
    {
        let now = now_timestamp();
        let lock_id = new_uuid_v4();
        let ghost id_view = lock_id@;
        let r = self.acquire_lock_at(user_id, device_id, workspace_id, lock_duration_seconds, now, lock_id);
        assert(acquire_outcome(
            old(self).locks(),
            self.locks(),
            r,
            user_id@,
            device_id@,
            ws_ref_view(workspace_id),
            lock_duration_seconds,
            now,
            id_view,
        ));
        r
    }

    /// Deletes the lock with this identifier, if it belongs to the account.
    pub fn release_lock(&mut self, lock_id: &str, user_id: &str)
        requires
            old(self).wf(),
        ensures
            final(self).wf(),
            final(self).locks() == released(old(self).locks(), lock_id@, user_id@),
            forall|now: i64| exclusive(old(self).locks(), now) ==> exclusive(final(self).locks(), now),
    {
        let ghost f = kept_after_release(lock_id@, user_id@);
        let mut kept: Vec<SyncLock> = Vec::new();
        let n = self.locks.len();
        for i in 0..n
            invariant
                n == self.locks@.len(),
                f == kept_after_release(lock_id@, user_id@),
                kept@ == self.locks@.take(i as int).filter(f),
        {
            let l = self.locks[i].clone();
            proof {
                reveal(Seq::filter);
                assert(self.locks@.take(i + 1).drop_last() == self.locks@.take(i as int));
                assert(self.locks@.take(i + 1).last() == l);
            }
            if !(str_eq(l.id.as_str(), lock_id) && str_eq(l.user_id.as_str(), user_id)) {
                kept.push(l);
            }
            proof {
                reveal(Seq::filter);
            }
        }
        assert(self.locks@.take(n as int) == self.locks@);
        proof {
            assert forall|now: i64| exclusive(self.locks@, now) implies exclusive(kept@, now) by {
                lemma_exclusive_filter(self.locks@, f, now);
            }
            lemma_unique_filter(self.locks@, f);
        }
        self.locks = kept;
    }

    /// Deletes every lock that expired before now.
    pub fn cleanup_expired_locks(&mut self)
        requires
            old(self).wf(),
        ensures
            final(self).wf(),
            exists|now: i64| final(self).locks() == cleaned(old(self).locks(), now),
            forall|now: i64| exclusive(old(self).locks(), now) ==> exclusive(final(self).locks(), now),
    {
        let now = now_timestamp();
        let ghost before = self.locks@;
        self.delete_expired(now);
        proof {
            assert forall|t: i64| exclusive(before, t) implies exclusive(self.locks@, t) by {
                lemma_exclusive_filter(before, |l: SyncLock| !(l.expires_at < now), t);
            }
        }
    }
}


/// The lock a device holds stays its own: once a device got the lock at
/// `now` for `duration` seconds, asking again before it expires, for the
/// same workspace or for none, gives back the same lock, which then
/// expires `duration2` seconds after the new request (in a table where the
/// locks of the account that hold are mutually exclusive, as the service
/// keeps it).
pub proof fn lemma_reacquire_returns_held_lock(
    before: Seq<SyncLock>,
    after: Seq<SyncLock>,
    r: Result<String, LockError>,
    user: Seq<char>,
    device: Seq<char>,
    ws: Option<Seq<char>>,
    duration: i64,
    now: i64,
    lock_id: Seq<char>,
    after2: Seq<SyncLock>,
    r2: Result<String, LockError>,
    ws2: Option<Seq<char>>,
    duration2: i64,
    now2: i64,
    lock_id2: Seq<char>,
)
    requires
        i64::MIN <= now + duration <= i64::MAX,
        acquire_outcome(before, after, r, user, device, ws, duration, now, lock_id),
        r is Ok,
        exclusive_for(after, user, now2),
        now <= now2 < now + duration,
        ws2 is None || ws2 == ws,
        acquire_outcome(after, after2, r2, user, device, ws2, duration2, now2, lock_id2),
    ensures
        r2 is Ok,
        r2->Ok_0@ == r->Ok_0@,
        after2 == extended(cleaned(after, now2), r->Ok_0@, (now2 + duration2) as i64),
{
    let k = lemma_held_lock(before, after, r, user, device, ws, duration, now, lock_id, now2);
    let f = |x: SyncLock| !(x.expires_at < now2);
    let c2 = cleaned(after, now2);
    lemma_exclusive_for_filter(after, f, user, now2);
    let j = choose|j: int|
        #![trigger c2[j]]
        picked_own(c2, user, device, now2, j) && if ws2 is Some && ws_view(c2[j].workspace_id)
            != ws2 {
            &&& r2 == Err::<String, LockError>(LockError::OtherWorkspaceSyncing)
            &&& after2 == c2
        } else {
            &&& r2 matches Ok(id) && id@ == c2[j].id@
            &&& after2 == extended(c2, c2[j].id@, (now2 + duration2) as i64)
        };
    if j != k {
        assert(!(active_at(c2[j], now2) && active_at(c2[k], now2)));
    }
    assert(j == k);
}



/// A position of the released table comes from a lock of the table that
/// is not the released one.
proof fn lemma_released_index(locks: Seq<SyncLock>, lock_id: Seq<char>, user: Seq<char>, i: int) -> (k: int)
    requires
        0 <= i < released(locks, lock_id, user).len(),
    ensures
        0 <= k < locks.len(),
        locks[k] == released(locks, lock_id, user)[i],
        !(locks[k].id@ == lock_id && locks[k].user_id@ == user),
{
    let f = kept_after_release(lock_id, user);
    locks.lemma_filter_pred(f, i);
    lemma_filter_index(locks, f, i)
}

/// A released lock frees the account: when the lock of a workspace that
/// holds is released, any device of the account, asking for any workspace,
/// gets a new lock (with a fresh lock identifier), in a table where the
/// locks of the account that hold are mutually exclusive, as the service
/// keeps it.
pub proof fn lemma_released_workspace_is_free(
    before: Seq<SyncLock>,
    held: int,
    device: Seq<char>,
    ws: Option<Seq<char>>,
    duration: i64,
    now: i64,
    lock_id: Seq<char>,
    after: Seq<SyncLock>,
    r: Result<String, LockError>,
)
    requires
        exclusive_for(before, before[held].user_id@, now),
        0 <= held < before.len(),
        active_at(before[held], now),
        forall|j: int| 0 <= j < before.len() ==> (#[trigger] before[j]).id@ != lock_id,
        acquire_outcome(
            released(before, before[held].id@, before[held].user_id@),
            after,
            r,
            before[held].user_id@,
            device,
            ws,
            duration,
            now,
            lock_id,
        ),
    ensures
        r is Ok,
        r->Ok_0@ == lock_id,
{
    let user = before[held].user_id@;
    let lid = before[held].id@;
    let g = |l: SyncLock| !(l.expires_at < now);
    let rel = released(before, lid, user);
    let c = cleaned(rel, now);
    assert(c == rel.filter(g));
    assert forall|k: int| 0 <= k < c.len() implies !is_own(#[trigger] c[k], user, device, now)
        && !is_rival(c[k], user, device, now) && !is_rival_on(c[k], user, device, ws, now)
        && c[k].id@ != lock_id by {
        let a = lemma_filter_index(rel, g, k);
        let b = lemma_released_index(before, lid, user, a);
        assert(before[b] == c[k]);
        if c[k].user_id@ == user && active_at(c[k], now) {
            assert(b != held);
            assert(before[b].user_id@ == before[held].user_id@);
        }
    }
}

/// The lock a device holds keeps every other device of the account out:
/// once a device got the lock at `now` for `duration` seconds, another
/// device asking before it expires, for any workspace, is refused (in a
/// table where the locks of the account that hold are mutually exclusive,
/// as the service keeps it).
pub proof fn lemma_other_device_refused(
    before: Seq<SyncLock>,
    after: Seq<SyncLock>,
    r: Result<String, LockError>,
    user: Seq<char>,
    device: Seq<char>,
    ws: Option<Seq<char>>,
    duration: i64,
    now: i64,
    lock_id: Seq<char>,
    after2: Seq<SyncLock>,
    r2: Result<String, LockError>,
    device2: Seq<char>,
    ws2: Option<Seq<char>>,
    duration2: i64,
    now2: i64,
    lock_id2: Seq<char>,
)
    requires
        i64::MIN <= now + duration <= i64::MAX,
        acquire_outcome(before, after, r, user, device, ws, duration, now, lock_id),
        r is Ok,
        exclusive_for(after, user, now2),
        now <= now2 < now + duration,
        device2 != device,
        acquire_outcome(after, after2, r2, user, device2, ws2, duration2, now2, lock_id2),
    ensures
        r2 is Err,
        after2 == cleaned(after, now2),
{
    let k = lemma_held_lock(before, after, r, user, device, ws, duration, now, lock_id, now2);
    let c2 = cleaned(after, now2);
    assert(is_rival(c2[k], user, device2, now2));
    if exists|i: int| 0 <= i < c2.len() && is_own(c2[i], user, device2, now2) {
        let i = choose|i: int| 0 <= i < c2.len() && is_own(c2[i], user, device2, now2);
        lemma_exclusive_for_filter(after, |x: SyncLock| !(x.expires_at < now2), user, now2);
        assert(i != k);
        assert(!(active_at(c2[i], now2) && active_at(c2[k], now2)));
    }
}

/// The lock that a successful request returned is, at any time before it
/// expires, a lock of the table cleaned at that time: of the device, on
/// the workspace asked for (when one was), expiring `duration` after
/// `now`.
proof fn lemma_held_lock(
    before: Seq<SyncLock>,
    after: Seq<SyncLock>,
    r: Result<String, LockError>,
    user: Seq<char>,
    device: Seq<char>,
    ws: Option<Seq<char>>,
    duration: i64,
    now: i64,
    lock_id: Seq<char>,
    now2: i64,
) -> (k: int)
    requires
        i64::MIN <= now + duration <= i64::MAX,
        acquire_outcome(before, after, r, user, device, ws, duration, now, lock_id),
        r is Ok,
        now <= now2 < now + duration,
    ensures
        0 <= k < cleaned(after, now2).len(),
        cleaned(after, now2)[k].id@ == r->Ok_0@,
        is_own(cleaned(after, now2)[k], user, device, now2),
        ws is Some ==> ws_view(cleaned(after, now2)[k].workspace_id) == ws,
{
    let c = cleaned(before, now);
    let held: int = if exists|i: int| 0 <= i < c.len() && is_own(c[i], user, device, now) {
        let i = choose|i: int|
            #![trigger c[i]]
            picked_own(c, user, device, now, i) && if ws is Some && ws_view(c[i].workspace_id)
                != ws {
                &&& r == Err::<String, LockError>(LockError::OtherWorkspaceSyncing)
                &&& after == c
            } else {
                &&& r matches Ok(id) && id@ == c[i].id@
                &&& after == extended(c, c[i].id@, (now + duration) as i64)
            };
        assert(after[i].id@ == c[i].id@);
        i
    } else {
        (after.len() - 1) as int
    };
    assert(0 <= held < after.len());
    let l = after[held];
    assert(l.id@ == r->Ok_0@);
    assert(l.user_id@ == user && l.device_id@ == device);
    assert(l.expires_at == now + duration);
    assert(ws is Some ==> ws_view(l.workspace_id) == ws);
    let f = |x: SyncLock| !(x.expires_at < now2);
    let c2 = cleaned(after, now2);
    assert(c2 == after.filter(f));
    after.lemma_filter_contains(f, held);
    let k = choose|k: int| 0 <= k < c2.len() && c2[k] == l;
    k
}

} // verus!
