//! The session pool of one logical connection.
//!
//! One primary session serves the interactive shell; background sessions
//! serve everything else. The background list starts empty, grows on demand
//! up to a capacity, and is pruned by liveness checks. The pool decides; the
//! caller probes locks, establishes sessions and releases native handles.

use crate::session::spec_teardown;
use crate::session::spec_torn_down;
use crate::session::ManagedSession;
use crate::session::TeardownStep;
use vstd::prelude::*;

verus! {

/// Pause before one more background session is established while others
/// exist, so that the host is not flooded with new connections.
pub const STAGGER_MILLIS: u64 = 100;

/// The pool as a mathematical value.
pub ghost struct PoolModel {
    pub main: ManagedSession,
    pub background: Seq<ManagedSession>,
    pub capacity: nat,
    pub cursor: nat,
    pub next_session: nat,
}

/// What `get_background_session` decided.
#[derive(Clone, Copy, Debug, PartialEq, Eq, Structural)]
pub enum Acquire {
    /// An existing session whose lock nobody holds: take it.
    Idle { slot: usize, session: ManagedSession },
    /// Every session is busy and there is room: establish one more, after
    /// the pause, and hand it to `admit_background`.
    Grow { pause_millis: u64 },
    /// Every session is busy and the pool is full: wait on the lock of this
    /// one, chosen in turn.
    Shared { slot: usize, session: ManagedSession },
}

/// What one liveness pass over the background list left to do.
pub struct Cleanup {
    /// The sessions removed from the pool, in their old order; the caller
    /// releases them.
    pub evicted: Vec<ManagedSession>,
    /// Whether the list is now empty, so that one session is to be
    /// established and admitted.
    pub replenish: bool,
}

/// What the probe of a session's liveness came to.
#[derive(Clone, Copy, Debug, PartialEq, Eq, Structural)]
pub enum Probe {
    /// No channel could be opened.
    ChannelRefused,
    /// A channel opened, but the trivial command was not accepted.
    CommandRefused,
    /// The trivial command was accepted.
    Answered,
}

/// The larger of two numbers.
pub open spec fn max_nat(a: nat, b: nat) -> nat {
    if a >= b {
        a
    } else {
        b
    }
}

/// The invariant of a pool: session numbers are distinct and were all
/// issued by this pool, and the background list respects the capacity (a
/// pool of capacity zero may still hold the one session that a liveness
/// pass puts back).
pub open spec fn wf(p: PoolModel) -> bool {
    &&& p.main.session < p.next_session
    &&& p.next_session <= u64::MAX
    &&& p.capacity <= usize::MAX
    &&& p.cursor <= usize::MAX
    &&& p.background.len() <= max_nat(p.capacity, 1)
    &&& forall|i: int|
        0 <= i < p.background.len() ==> (#[trigger] p.background[i]).session < p.next_session
    &&& forall|i: int|
        0 <= i < p.background.len() ==> (#[trigger] p.background[i]).session != p.main.session
    &&& forall|i: int, j: int|
        0 <= i < j < p.background.len() ==> (#[trigger] p.background[i]).session != (
        #[trigger] p.background[j]).session
}

/// Index of the first `false` in `busy` at or after `from`, or the length
/// of `busy` where there is none.
pub open spec fn first_idle_from(busy: Seq<bool>, from: int) -> int
    decreases busy.len() - from,
{
    if from < 0 || from >= busy.len() {
        busy.len() as int
    } else if !busy[from] {
        from
    } else {
        first_idle_from(busy, from + 1)
    }
}

/// The decision of `get_background_session`: an idle session first, then
/// growth below capacity, then the session whose turn it is.
pub open spec fn spec_acquire(p: PoolModel, busy: Seq<bool>) -> Acquire {
    let k = first_idle_from(busy, 0);
    let len = p.background.len();
    if k < len {
        Acquire::Idle { slot: k as usize, session: p.background[k] }
    } else if len < p.capacity {
        Acquire::Grow { pause_millis: if len > 0 { STAGGER_MILLIS } else { 0 } }
    } else {
        let slot = (p.cursor % len) as int;
        Acquire::Shared { slot: slot as usize, session: p.background[slot] }
    }
}

/// The pool after that decision: only the turn moves, and only when a
/// session is shared.
pub open spec fn spec_after_acquire(p: PoolModel, busy: Seq<bool>) -> PoolModel {
    let len = p.background.len();
    if spec_acquire(p, busy) is Shared {
        PoolModel { cursor: ((p.cursor % len) + 1) % len, ..p }
    } else {
        p
    }
}

/// Whether one more background session may be admitted.
pub open spec fn spec_can_admit(p: PoolModel) -> bool {
    p.background.len() < max_nat(p.capacity, 1) && p.next_session < u64::MAX
}

/// The session as the pool numbers it on admission.
pub open spec fn spec_numbered(p: PoolModel, established: ManagedSession) -> ManagedSession {
    ManagedSession { session: p.next_session as u64, ..established }
}

/// The pool with one more background session.
pub open spec fn spec_admit(p: PoolModel, established: ManagedSession) -> PoolModel {
    PoolModel {
        background: p.background.push(spec_numbered(p, established)),
        next_session: p.next_session + 1,
        ..p
    }
}

/// The first `n` of `items` whose flag equals `want`, in order.
pub open spec fn spec_select(
    items: Seq<ManagedSession>,
    flags: Seq<bool>,
    want: bool,
    n: int,
) -> Seq<ManagedSession>
    decreases n,
{
    if n <= 0 {
        Seq::<ManagedSession>::empty()
    } else if flags[n - 1] == want {
        spec_select(items, flags, want, n - 1).push(items[n - 1])
    } else {
        spec_select(items, flags, want, n - 1)
    }
}

/// The pool without the background sessions that are no longer alive.
pub open spec fn spec_cleanup(p: PoolModel, alive: Seq<bool>) -> PoolModel {
    PoolModel {
        background: spec_select(p.background, alive, true, p.background.len() as int),
        ..p
    }
}

/// The pool with a new primary session.
pub open spec fn spec_rebuild_main(p: PoolModel, established: ManagedSession) -> PoolModel {
    PoolModel { main: spec_numbered(p, established), next_session: p.next_session + 1, ..p }
}

/// The pool with a new primary session and no background session.
pub open spec fn spec_rebuild_all(p: PoolModel, established: ManagedSession) -> PoolModel {
    PoolModel {
        background: Seq::<ManagedSession>::empty(),
        ..spec_rebuild_main(p, established)
    }
}

/// The release actions of the first `n` of `sessions`, one session after
/// the other.
pub open spec fn spec_teardown_all(sessions: Seq<ManagedSession>, n: int) -> Seq<TeardownStep>
    decreases n,
{
    if n <= 0 {
        Seq::<TeardownStep>::empty()
    } else {
        spec_teardown_all(sessions, n - 1) + spec_teardown(sessions[n - 1])
    }
}

/// The pool after everything was released: the primary torn down, no
/// background session left.
pub open spec fn spec_close_all(p: PoolModel) -> PoolModel {
    PoolModel { main: spec_torn_down(p.main), background: Seq::<ManagedSession>::empty(), ..p }
}

/// Whether `session` is the pool's primary or one of its background
/// sessions.
pub open spec fn spec_holds(p: PoolModel, session: u64) -> bool {
    p.main.session == session || exists|i: int|
        0 <= i < p.background.len() && (#[trigger] p.background[i]).session == session
}

/// One primary session and a capped, lazily grown list of background
/// sessions.
pub struct SessionSshPool {
    main_session: ManagedSession,
    background_sessions: Vec<ManagedSession>,
    max_background_sessions: usize,
    next_bg_index: usize,
    next_session: u64,
}

impl View for SessionSshPool {
    type V = PoolModel;

    closed spec fn view(&self) -> PoolModel {
        PoolModel {
            main: self.main_session,
            background: self.background_sessions@,
            capacity: self.max_background_sessions as nat,
            cursor: self.next_bg_index as nat,
            next_session: self.next_session as nat,
        }
    }
}

/// The first idle slot from `from` on is not busy, and every slot between
/// `from` and it is.
proof fn lemma_first_idle_bounds(busy: Seq<bool>, from: int)
    requires
        0 <= from <= busy.len(),
    ensures
        from <= first_idle_from(busy, from) <= busy.len(),
        first_idle_from(busy, from) < busy.len() ==> !busy[first_idle_from(busy, from)],
        forall|i: int| from <= i < first_idle_from(busy, from) ==> busy[i],
    decreases busy.len() - from,
{
    if from < busy.len() && busy[from] {
        lemma_first_idle_bounds(busy, from + 1);
    }
}

/// Whether `x` is one of the first `n` of `items`.
pub open spec fn occurs(items: Seq<ManagedSession>, n: int, x: ManagedSession) -> bool {
    exists|j: int| 0 <= j < n && #[trigger] items[j] == x
}

/// What is selected comes from the items whose flag is `want`.
proof fn lemma_select_members(items: Seq<ManagedSession>, flags: Seq<bool>, want: bool, n: int)
    requires
        0 <= n <= items.len(),
        items.len() == flags.len(),
    ensures
        spec_select(items, flags, want, n).len() <= n,
        forall|k: int|
            0 <= k < spec_select(items, flags, want, n).len() ==> occurs(
                items,
                n,
                #[trigger] spec_select(items, flags, want, n)[k],
            ),
    decreases n,
{
    if n > 0 {
        lemma_select_members(items, flags, want, n - 1);
        let prev = spec_select(items, flags, want, n - 1);
        let cur = spec_select(items, flags, want, n);
        assert forall|k: int| 0 <= k < cur.len() implies occurs(items, n, #[trigger] cur[k]) by {
            if k < prev.len() {
                assert(occurs(items, n - 1, prev[k]));
                let j = choose|j: int| 0 <= j < n - 1 && #[trigger] items[j] == prev[k];
                assert(items[j] == cur[k]);
            } else {
                assert(items[n - 1] == cur[k]);
            }
        }
    }
}

/// Selecting from distinct items yields distinct items.
proof fn lemma_select_distinct(items: Seq<ManagedSession>, flags: Seq<bool>, want: bool, n: int)
    requires
        0 <= n <= items.len(),
        items.len() == flags.len(),
        forall|i: int, j: int|
            0 <= i < j < items.len() ==> (#[trigger] items[i]).session != (
            #[trigger] items[j]).session,
    ensures
        forall|a: int, b: int|
            0 <= a < b < spec_select(items, flags, want, n).len() ==> (#[trigger] spec_select(
                items,
                flags,
                want,
                n,
            )[a]).session != (#[trigger] spec_select(items, flags, want, n)[b]).session,
    decreases n,
{
    if n > 0 {
        lemma_select_distinct(items, flags, want, n - 1);
        lemma_select_members(items, flags, want, n - 1);
        let prev = spec_select(items, flags, want, n - 1);
        let cur = spec_select(items, flags, want, n);
        assert forall|a: int, b: int| 0 <= a < b < cur.len() implies (#[trigger] cur[a]).session
            != (#[trigger] cur[b]).session by {
            if b < prev.len() {
                assert(cur[a] == prev[a]);
                assert(cur[b] == prev[b]);
            } else {
                assert(occurs(items, n - 1, prev[a]));
                let j = choose|j: int| 0 <= j < n - 1 && #[trigger] items[j] == prev[a];
                assert(cur[a] == items[j]);
                assert(cur[b] == items[n - 1]);
            }
        }
    }
}

/// A liveness pass keeps a pool well formed.
pub proof fn lemma_cleanup_wf(p: PoolModel, alive: Seq<bool>)
    requires
        wf(p),
        alive.len() == p.background.len(),
    ensures
        wf(spec_cleanup(p, alive)),
        spec_cleanup(p, alive).background.len() <= p.background.len(),
{
    let n = p.background.len() as int;
    lemma_select_members(p.background, alive, true, n);
    lemma_select_distinct(p.background, alive, true, n);
    let kept = spec_select(p.background, alive, true, n);
    assert forall|k: int| 0 <= k < kept.len() implies (#[trigger] kept[k]).session
        < p.next_session && kept[k].session != p.main.session by {
        assert(occurs(p.background, n, kept[k]));
        let j = choose|j: int| 0 <= j < n && #[trigger] p.background[j] == kept[k];
        assert(p.background[j].session < p.next_session);
    }
}

impl SessionSshPool {
    /// A pool around its freshly established primary session, with no
    /// background session yet.
    pub fn new(established: ManagedSession, max_background_sessions: usize) -> (pool: Self)
        ensures
            wf(pool@),
            pool@.main == (ManagedSession { session: 0, ..established }),
            pool@.background.len() == 0,
            pool@.capacity == max_background_sessions,
            pool@.cursor == 0,
            pool@.next_session == 1,
    {
        SessionSshPool {
            main_session: ManagedSession { session: 0, ..established },
            background_sessions: Vec::new(),
            max_background_sessions,
            next_bg_index: 0,
            next_session: 1,
        }
    }

    /// The primary session, reserved for the interactive shell.
    pub fn get_main_session(&self) -> (main: ManagedSession)
        ensures
            main == self@.main,
    {
        self.main_session
    }

    /// The background sessions, in pool order.
    pub fn background_sessions(&self) -> (sessions: Vec<ManagedSession>)
        ensures
            sessions@ == self@.background,
    {
        self.background_sessions.clone()
    }

    /// The capacity of the background list.
    pub fn max_background_sessions(&self) -> (capacity: usize)
        ensures
            capacity == self@.capacity,
    {
        self.max_background_sessions
    }

    /// Whether `get_background_session` may be called: there is a session
    /// to hand out or room to establish one.
    pub fn can_serve(&self) -> (yes: bool)
        ensures
            yes == (self@.background.len() > 0 || self@.capacity > 0),
    {
        self.background_sessions.len() > 0 || self.max_background_sessions > 0
    }

    /// Chooses the session for one background operation. `busy[i]` says
    /// whether the lock of background session `i` is held right now.
    pub fn get_background_session(&mut self, busy: &Vec<bool>) -> (choice: Acquire)
        requires
            wf(old(self)@),
            busy@.len() == old(self)@.background.len(),
            old(self)@.background.len() > 0 || old(self)@.capacity > 0,
        ensures
            choice == spec_acquire(old(self)@, busy@),
            final(self)@ == spec_after_acquire(old(self)@, busy@),
            wf(final(self)@),
    {
        let len = self.background_sessions.len();
        let mut i: usize = 0;
        while i < len
            invariant
                i <= len,
                len == self.background_sessions.len(),
                len == busy@.len(),
                first_idle_from(busy@, i as int) == first_idle_from(busy@, 0),
                *self == *old(self),
                wf(self@),
            decreases len - i,
        {
            if !busy[i] {
                return Acquire::Idle { slot: i, session: self.background_sessions[i] };
            }
            i += 1;
        }
        if len < self.max_background_sessions {
            return Acquire::Grow { pause_millis: if len > 0 { STAGGER_MILLIS } else { 0 } };
        }
        let slot = self.next_bg_index % len;
        self.next_bg_index = (slot + 1) % len;
        Acquire::Shared { slot, session: self.background_sessions[slot] }
    }

    /// Whether `admit_background` may be called.
    pub fn can_admit(&self) -> (yes: bool)
        ensures
            yes == spec_can_admit(self@),
    {
        let room = if self.max_background_sessions == 0 {
            self.background_sessions.len() == 0
        } else {
            self.background_sessions.len() < self.max_background_sessions
        };
        room && self.next_session < u64::MAX
    }

    /// Takes a freshly established session into the background list and
    /// gives it its number, which no session of this pool had before.
    pub fn admit_background(&mut self, established: ManagedSession) -> (admitted: ManagedSession)
        requires
            wf(old(self)@),
            spec_can_admit(old(self)@),
        ensures
            admitted == spec_numbered(old(self)@, established),
            final(self)@ == spec_admit(old(self)@, established),
            wf(final(self)@),
            !spec_holds(old(self)@, admitted.session),
    {
        let admitted = ManagedSession { session: self.next_session, ..established };
        self.background_sessions.push(admitted);
        self.next_session = self.next_session + 1;
        admitted
    }

    /// Whether a probed session counts as alive.
    pub fn is_session_alive(probe: Probe) -> (alive: bool)
        ensures
            alive == (probe == Probe::Answered),
    {
        match probe {
            Probe::Answered => true,
            _ => false,
        }
    }

    /// Drops the background sessions that failed their liveness check.
    /// `alive[i]` says whether background session `i` answered.
    pub fn cleanup_disconnected(&mut self, alive: &Vec<bool>) -> (cleanup: Cleanup)
        requires
            wf(old(self)@),
            alive@.len() == old(self)@.background.len(),
        ensures
            final(self)@ == spec_cleanup(old(self)@, alive@),
            cleanup.evicted@ == spec_select(
                old(self)@.background,
                alive@,
                false,
                old(self)@.background.len() as int,
            ),
            cleanup.replenish == (final(self)@.background.len() == 0),
            wf(final(self)@),
    {
        let mut kept: Vec<ManagedSession> = Vec::new();
        let mut evicted: Vec<ManagedSession> = Vec::new();
        let len = self.background_sessions.len();
        let mut i: usize = 0;
        while i < len
            invariant
                i <= len,
                len == self.background_sessions.len(),
                len == alive@.len(),
                *self == *old(self),
                kept@ == spec_select(self.background_sessions@, alive@, true, i as int),
                evicted@ == spec_select(self.background_sessions@, alive@, false, i as int),
            decreases len - i,
        {
            if alive[i] {
                kept.push(self.background_sessions[i]);
            } else {
                evicted.push(self.background_sessions[i]);
            }
            i += 1;
        }
        proof {
            lemma_cleanup_wf(old(self)@, alive@);
        }
        let replenish = kept.len() == 0;
        self.background_sessions = kept;
        Cleanup { evicted, replenish }
    }

    /// Whether the primary session has to be rebuilt, given its probe.
    /// The background list is repaired by `cleanup_disconnected`.
    pub fn heartbeat_check(&self, main_probe: Probe) -> (rebuild_main: bool)
        ensures
            rebuild_main == (main_probe != Probe::Answered),
    {
        !Self::is_session_alive(main_probe)
    }

    /// Whether a replacement primary session may be numbered.
    pub fn can_rebuild(&self) -> (yes: bool)
        ensures
            yes == (self@.next_session < u64::MAX),
    {
        self.next_session < u64::MAX
    }

    /// Puts a freshly established session in the primary slot and hands
    /// back the one it replaces.
    pub fn rebuild_main(&mut self, established: ManagedSession) -> (replaced: ManagedSession)
        requires
            wf(old(self)@),
            old(self)@.next_session < u64::MAX,
        ensures
            replaced == old(self)@.main,
            final(self)@ == spec_rebuild_main(old(self)@, established),
            wf(final(self)@),
    {
        let replaced = self.main_session;
        self.main_session = ManagedSession { session: self.next_session, ..established };
        self.next_session = self.next_session + 1;
        replaced
    }

    /// Replaces the primary session and empties the background list, which
    /// fills again on demand. Hands back the sessions that left the pool,
    /// the old primary first.
    pub fn rebuild_all(&mut self, established: ManagedSession) -> (replaced: Vec<ManagedSession>)
        requires
            wf(old(self)@),
            old(self)@.next_session < u64::MAX,
        ensures
            replaced@ == seq![old(self)@.main] + old(self)@.background,
            final(self)@ == spec_rebuild_all(old(self)@, established),
            wf(final(self)@),
    {
        let old_main = self.rebuild_main(established);
        let mut replaced: Vec<ManagedSession> = Vec::new();
        replaced.push(old_main);
        let mut old_background: Vec<ManagedSession> = Vec::new();
        std::mem::swap(&mut self.background_sessions, &mut old_background);
        replaced.append(&mut old_background);
        replaced
    }

    /// Closes every session: the release actions of the primary, then those
    /// of each background session in pool order. The background list is
    /// empty afterwards.
    pub fn close_all(&mut self) -> (steps: Vec<TeardownStep>)
        requires
            wf(old(self)@),
        ensures
            steps@ == spec_teardown(old(self)@.main) + spec_teardown_all(
                old(self)@.background,
                old(self)@.background.len() as int,
            ),
            final(self)@ == spec_close_all(old(self)@),
            wf(final(self)@),
    {
        let mut steps: Vec<TeardownStep> = Vec::new();
        self.main_session.teardown_into(&mut steps);
        let len = self.background_sessions.len();
        let mut i: usize = 0;
        while i < len
            invariant
                i <= len,
                len == self.background_sessions.len(),
                self.background_sessions == old(self).background_sessions,
                self.main_session == spec_torn_down(old(self).main_session),
                self.max_background_sessions == old(self).max_background_sessions,
                self.next_bg_index == old(self).next_bg_index,
                self.next_session == old(self).next_session,
                steps@ == spec_teardown(old(self)@.main) + spec_teardown_all(
                    old(self)@.background,
                    i as int,
                ),
            decreases len - i,
        {
            let mut session = self.background_sessions[i];
            let ghost before = steps@;
            session.teardown_into(&mut steps);
            i += 1;
            assert(steps@ =~= spec_teardown(old(self)@.main) + spec_teardown_all(
                old(self)@.background,
                i as int,
            ));
        }
        self.background_sessions = Vec::new();
        steps
    }
}

/// With a capacity of at least one, the background list never holds more
/// sessions than the capacity, and no two of them are the same session.
pub proof fn lemma_background_bounded(p: PoolModel)
    requires
        wf(p),
        p.capacity >= 1,
    ensures
        p.background.len() <= p.capacity,
        forall|i: int, j: int|
            0 <= i < j < p.background.len() ==> p.background[i].session
                != p.background[j].session,
{
}

/// Whatever the locks say, the decision of `get_background_session` and
/// an admission that follows a `Grow` keep the pool within its capacity:
/// every session handed out is one of at most `capacity` sessions.
pub proof fn lemma_acquire_within_capacity(p: PoolModel, busy: Seq<bool>, established: ManagedSession)
    requires
        wf(p),
        p.capacity >= 1,
        busy.len() == p.background.len(),
    ensures
        wf(spec_after_acquire(p, busy)),
        spec_after_acquire(p, busy).background == p.background,
        match spec_acquire(p, busy) {
            Acquire::Idle { slot, session } => slot < p.background.len() && session
                == p.background[slot as int],
            Acquire::Shared { slot, session } => slot < p.background.len() && session
                == p.background[slot as int] && p.background.len() == p.capacity,
            Acquire::Grow { .. } => p.next_session < u64::MAX ==> {
                &&& spec_can_admit(p)
                &&& wf(spec_admit(p, established))
                &&& spec_admit(p, established).background.len() <= p.capacity
            },
        },
{
    lemma_first_idle_bounds(busy, 0);
    let len = p.background.len();
    if spec_acquire(p, busy) is Shared {
        let n = len as int;
        let slot = (p.cursor as int) % n;
        assert(0 <= slot < n) by (nonlinear_arith)
            requires
                n > 0,
                slot == (p.cursor as int) % n,
        ;
        let turn = (slot + 1) % n;
        assert(0 <= turn < n) by (nonlinear_arith)
            requires
                n > 0,
                turn == (slot + 1) % n,
        ;
    }
}

/// A session handed out as idle was not held, and as long as its holder
/// keeps the lock no later decision hands the same session out as idle:
/// a second caller gets another session, is told to establish one, or is
/// told to wait on a lock.
pub proof fn lemma_idle_grant_excludes_held(p: PoolModel, busy: Seq<bool>, later: Seq<bool>)
    requires
        wf(p),
        busy.len() == p.background.len(),
        later.len() == p.background.len(),
        spec_acquire(p, busy) is Idle,
        later[spec_acquire(p, busy)->Idle_slot as int],
    ensures
        !busy[spec_acquire(p, busy)->Idle_slot as int],
        spec_acquire(p, later) matches Acquire::Idle { slot, session } ==> {
            &&& slot != spec_acquire(p, busy)->Idle_slot
            &&& session.session != spec_acquire(p, busy)->Idle_session.session
            &&& !later[slot as int]
        },
{
    lemma_first_idle_bounds(busy, 0);
    lemma_first_idle_bounds(later, 0);
}

/// After `close_all` the pool holds no background session, so the next
/// decision with room to grow is to establish a session, and the session
/// then admitted carries a number that no session of the pool had before
/// the close.
pub proof fn lemma_fresh_after_close(p: PoolModel, established: ManagedSession)
    requires
        wf(p),
        p.capacity >= 1,
        p.next_session < u64::MAX,
    ensures
        wf(spec_close_all(p)),
        spec_acquire(spec_close_all(p), Seq::<bool>::empty()) == (Acquire::Grow {
            pause_millis: 0,
        }),
        spec_can_admit(spec_close_all(p)),
        !spec_holds(p, spec_numbered(spec_close_all(p), established).session),
        spec_admit(spec_close_all(p), established).background == seq![
            spec_numbered(spec_close_all(p), established),
        ],
{
    let c = spec_close_all(p);
    assert(first_idle_from(Seq::<bool>::empty(), 0) == 0);
    assert(spec_admit(c, established).background =~= seq![spec_numbered(c, established)]);
}

} // verus!
