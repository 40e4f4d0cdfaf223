//! Operating modes and the hand-off of crossing permits between them.
//!
//! Each mode has its own coordinator (a fair semaphore) with one permit. The
//! supervisor starts out holding every permit, with lockout on. It then runs
//! a cycle: lockout off, release the permit of the current mode, wait for a
//! mode change, lockout on, and take back every coordinator's permit before
//! the next mode is let go. The semaphores and the waiting belong to the
//! caller; this type decides what to do and keeps exact account of which
//! permits it holds.
use vstd::prelude::*;

verus! {

/// Number of operating modes, and so of permit coordinators.
pub const MODE_COUNT: usize = 4;

#[derive(Clone, Copy, Debug, PartialEq, Eq, Structural)]
pub enum SystemMode {
    Normal,
    Flash,
    PriorityA,
    PriorityB,
}

/// The two approaches of the crossing.
#[derive(Clone, Copy, Debug, PartialEq, Eq, Structural)]
pub enum Lane {
    A,
    B,
}

impl SystemMode {
    /// Position of the mode's coordinator, in collection order.
    pub open spec fn index(self) -> int {
        match self {
            SystemMode::Normal => 0,
            SystemMode::Flash => 1,
            SystemMode::PriorityA => 2,
            SystemMode::PriorityB => 3,
        }
    }

    pub fn ordinal(&self) -> (r: usize)
        ensures
            r == self.index(),
            r < MODE_COUNT,
    {
        match self {
            SystemMode::Normal => 0,
            SystemMode::Flash => 1,
            SystemMode::PriorityA => 2,
            SystemMode::PriorityB => 3,
        }
    }
}

/// The mode selected by the three switch inputs, each `true` when pulled low:
/// none low is Normal; otherwise the first low input picks Flash, PriorityA
/// or PriorityB.
pub open spec fn spec_mode_from_inputs(low0: bool, low1: bool, low2: bool) -> SystemMode {
    if low0 {
        SystemMode::Flash
    } else if low1 {
        SystemMode::PriorityA
    } else if low2 {
        SystemMode::PriorityB
    } else {
        SystemMode::Normal
    }
}

/// Decodes a raw reading of the mode switch. The value must be debounced
/// before it is acted on.
pub fn read_system_mode(low0: bool, low1: bool, low2: bool) -> (r: SystemMode)
    ensures
        r == spec_mode_from_inputs(low0, low1, low2),
{
    match (low0, low1, low2) {
        (false, false, false) => SystemMode::Normal,
        (true, _, _) => SystemMode::Flash,
        (_, true, _) => SystemMode::PriorityA,
        (_, _, true) => SystemMode::PriorityB,
    }
}

/// Number of coordinators whose permit the supervisor does not hold.
pub open spec fn unheld_count(held: Seq<bool>) -> int {
    (if held[0] { 0int } else { 1int }) + (if held[1] { 0int } else { 1int }) + (if held[2] {
        0int
    } else {
        1int
    }) + (if held[3] { 0int } else { 1int })
}

/// The first coordinator, in collection order, whose permit is not held.
pub open spec fn spec_next_to_collect(held: Seq<bool>) -> Option<SystemMode> {
    if !held[0] {
        Some(SystemMode::Normal)
    } else if !held[1] {
        Some(SystemMode::Flash)
    } else if !held[2] {
        Some(SystemMode::PriorityA)
    } else if !held[3] {
        Some(SystemMode::PriorityB)
    } else {
        None
    }
}

pub struct ModeSupervisor {
    mode: SystemMode,
    held: [bool; MODE_COUNT],
    lockout: bool,
}

impl ModeSupervisor {
    pub closed spec fn spec_mode(&self) -> SystemMode {
        self.mode
    }

    /// For each coordinator, whether the supervisor holds its permit.
    pub closed spec fn held(&self) -> Seq<bool> {
        self.held@
    }

    pub closed spec fn lockout_on(&self) -> bool {
        self.lockout
    }

    pub open spec fn all_held(&self) -> bool {
        unheld_count(self.held()) == 0
    }

    /// At most one permit is out of the supervisor's hands; while lockout is
    /// off it is the current mode's.
    pub open spec fn wf(&self) -> bool {
        &&& self.held().len() == MODE_COUNT
        &&& 0 <= unheld_count(self.held()) <= 1
        &&& !self.lockout_on() ==> {
            &&& !self.held()[self.spec_mode().index()]
            &&& unheld_count(self.held()) == 1
        }
    }

    /// Holding every permit, with lockout on: no approach can move until the
    /// first mode is let go.
    pub fn new(start_mode: SystemMode) -> (r: Self)
        ensures
            r.wf(),
            r.spec_mode() == start_mode,
            r.held() == seq![true, true, true, true],
            r.lockout_on(),
    {
        let r = ModeSupervisor { mode: start_mode, held: [true;MODE_COUNT], lockout: true };
        assert(r.held() =~= seq![true, true, true, true]);
        r
    }

    pub fn mode(&self) -> (r: SystemMode)
        ensures
            r == self.spec_mode(),
    {
        self.mode
    }

    pub fn lockout(&self) -> (r: bool)
        ensures
            r == self.lockout_on(),
    {
        self.lockout
    }

    /// Whether every coordinator's permit is back with the supervisor.
    pub fn all_collected(&self) -> (r: bool)
        requires
            self.wf(),
        ensures
            r == self.all_held(),
    {
        self.held[0] && self.held[1] && self.held[2] && self.held[3]
    }

    /// Gives up the permit of one coordinator. Releasing a permit that is not
    /// held would corrupt the count, so it is ruled out.
    fn ensure_released(&mut self, mode: SystemMode)
        requires
            old(self).held()[mode.index()],
            old(self).held().len() == MODE_COUNT,
        ensures
            final(self).held() == old(self).held().update(mode.index(), false),
            final(self).spec_mode() == old(self).spec_mode(),
            final(self).lockout_on() == old(self).lockout_on(),
    {
        self.held[mode.ordinal()] = false;
    }

    /// Lockout off, then let the mode go: the freshest pending request if one
    /// arrived while collecting, else the current mode. Returns the mode
    /// whose coordinator must be given its permit.
    pub fn start_running(&mut self, pending: Option<SystemMode>) -> (r: SystemMode)
        requires
            old(self).wf(),
            old(self).all_held(),
        ensures
            final(self).wf(),
            r == match pending {
                Some(m) => m,
                None => old(self).spec_mode(),
            },
            final(self).spec_mode() == r,
            !final(self).lockout_on(),
            final(self).held() == old(self).held().update(r.index(), false),
    {
        self.lockout = false;
        if let Some(m) = pending {
            self.mode = m;
        }
        let mode = self.mode;
        self.ensure_released(mode);
        mode
    }

    /// A mode change was signalled: lockout on at once, so that approaches
    /// wind down and give their permits back.
    pub fn lock_out(&mut self, mode: SystemMode)
        requires
            old(self).wf(),
        ensures
            final(self).wf(),
            final(self).spec_mode() == mode,
            final(self).lockout_on(),
            final(self).held() == old(self).held(),
    {
        self.lockout = true;
        self.mode = mode;
    }

    /// The coordinator whose permit is to be taken back next, if any.
    pub fn next_to_collect(&self) -> (r: Option<SystemMode>)
        requires
            self.wf(),
        ensures
            r == spec_next_to_collect(self.held()),
            r.is_none() <==> self.all_held(),
    {
        if !self.held[0] {
            Some(SystemMode::Normal)
        } else if !self.held[1] {
            Some(SystemMode::Flash)
        } else if !self.held[2] {
            Some(SystemMode::PriorityA)
        } else if !self.held[3] {
            Some(SystemMode::PriorityB)
        } else {
            None
        }
    }

    /// The permit of `mode`'s coordinator has been acquired back.
    pub fn collected(&mut self, mode: SystemMode)
        requires
            old(self).wf(),
            old(self).lockout_on(),
            !old(self).held()[mode.index()],
        ensures
            final(self).wf(),
            final(self).lockout_on(),
            final(self).spec_mode() == old(self).spec_mode(),
            final(self).held() == old(self).held().update(mode.index(), true),
            unheld_count(final(self).held()) == unheld_count(old(self).held()) - 1,
    {
        self.held[mode.ordinal()] = true;
    }
}

/// The held flags after collecting, one coordinator at a time in the order
/// `next_to_collect` names them, until every permit is back.
pub open spec fn after_collecting(held: Seq<bool>) -> Seq<bool>
    decreases unheld_count(held),
    when held.len() == MODE_COUNT
{
    match spec_next_to_collect(held) {
        None => held,
        Some(m) => after_collecting(held.update(m.index(), true)),
    }
}

/// How many acquisitions collecting takes.
pub open spec fn collect_rounds(held: Seq<bool>) -> nat
    decreases unheld_count(held),
    when held.len() == MODE_COUNT
{
    match spec_next_to_collect(held) {
        None => 0,
        Some(m) => 1 + collect_rounds(held.update(m.index(), true)),
    }
}

/// Each coordinator owns a single permit, which is either held by the
/// supervisor, free in its semaphore, or held by approach tasks:
/// `available[c] + on_tasks[c] + (held[c] ? 1 : 0) == 1`. With that account,
/// in every state the supervisor can be in, the approach tasks together hold
/// at most one permit across all coordinators.
pub proof fn lemma_permits_in_circulation(s: ModeSupervisor, available: Seq<int>, on_tasks: Seq<int>)
    requires
        s.wf(),
        permits_accounted(s.held(), available, on_tasks),
    ensures
        on_tasks[0] + on_tasks[1] + on_tasks[2] + on_tasks[3] <= 1,
{
    assert(available[0] >= 0 && available[1] >= 0 && available[2] >= 0 && available[3] >= 0);
}

/// The permit account of each coordinator, as `lemma_permits_in_circulation`
/// takes it.
pub open spec fn permits_accounted(held: Seq<bool>, available: Seq<int>, on_tasks: Seq<int>) -> bool {
    &&& held.len() == MODE_COUNT
    &&& available.len() == MODE_COUNT
    &&& on_tasks.len() == MODE_COUNT
    &&& forall|c: int|
        0 <= c < MODE_COUNT ==> #[trigger] available[c] >= 0 && on_tasks[c] >= 0 && available[c]
            + on_tasks[c] + (if held[c] {
            1int
        } else {
            0int
        }) == 1
}

/// The supervisor's moves keep the account: releasing `mode` (as
/// `start_running` does) puts its permit into the semaphore, and collecting
/// `mode` (as `collected` records, once an acquisition on a semaphore with a
/// free permit has completed) takes it out.
pub proof fn lemma_account_kept(
    held: Seq<bool>,
    available: Seq<int>,
    on_tasks: Seq<int>,
    mode: SystemMode,
)
    requires
        permits_accounted(held, available, on_tasks),
    ensures
        held[mode.index()] ==> permits_accounted(
            held.update(mode.index(), false),
            available.update(mode.index(), available[mode.index()] + 1),
            on_tasks,
        ),
        !held[mode.index()] && available[mode.index()] >= 1 ==> permits_accounted(
            held.update(mode.index(), true),
            available.update(mode.index(), available[mode.index()] - 1),
            on_tasks,
        ),
{
}

/// Hand-off terminates: taking back the permit that `next_to_collect` names,
/// round after round, ends with every permit held, after one acquisition per
/// permit that was out, and so after at most one. (`lock_out` turns lockout
/// on at the signal, and `collected` keeps it on and the mode unchanged.)
pub proof fn lemma_handoff_terminates(s: ModeSupervisor)
    requires
        s.wf(),
    ensures
        collect_rounds(s.held()) == unheld_count(s.held()),
        collect_rounds(s.held()) <= 1,
        unheld_count(after_collecting(s.held())) == 0,
{
    lemma_collect(s.held());
}

proof fn lemma_collect(held: Seq<bool>)
    requires
        held.len() == MODE_COUNT,
    ensures
        collect_rounds(held) == unheld_count(held),
        unheld_count(after_collecting(held)) == 0,
    decreases unheld_count(held),
{
    match spec_next_to_collect(held) {
        None => {},
        Some(m) => {
            let next = held.update(m.index(), true);
            assert(unheld_count(next) == unheld_count(held) - 1);
            lemma_collect(next);
        },
    }
}

} // verus!
