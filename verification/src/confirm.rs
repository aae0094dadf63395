//! The confirmation-wait state machine.
//!
//! Given a check that answers "has the target event happened, and at what
//! chain height", and a required depth `D`, the machine decides when the
//! event is buried under at least `D` further blocks. It is purely pull
//! based: the driver performs one action at a time — register the block
//! filter, await the next stream item, run the check, fetch the current
//! height — and feeds the observation back as an event. The machine never
//! reports success unless it has observed both the event's height `h` and a
//! later current height `c` with `c >= h + D`, and it directs exactly one
//! filter release per filter it had registered, on success and on failure
//! alike.

use vstd::prelude::*;

use crate::error::Error;
use crate::types::TransactionReceipt;

verus! {

/// One wait, created per call and discarded on completion.
#[derive(Debug, Clone, PartialEq, Eq)]
pub struct ConfirmationRequest {
    /// How many blocks must be mined on top of the event's block.
    pub required_depth: u64,
    /// How long the driver sleeps between two polls of the block stream.
    pub poll_interval_ms: u64,
}

/// Where the wait stands between two observations.
#[derive(Debug, Clone, PartialEq, Eq)]
pub enum WaitPhase {
    /// The block-filter registration is in flight.
    CreatingFilter,
    /// Waiting for the next stream item; the first `remaining` items pass
    /// without a check, since confirmation cannot be reached before that many
    /// blocks have elapsed. A throughput choice only, not needed for
    /// correctness.
    Skipping { remaining: u64 },
    /// The check call is in flight.
    AwaitingCheck,
    /// The event was seen at `event_height`; the current-height call is in
    /// flight.
    AwaitingHeight { event_height: u64 },
    /// The event is buried to the required depth.
    Complete,
    /// The wait aborted; the cause is surfaced, never swallowed.
    Failed(Error),
}

/// What the driver observed, answering the machine's last action.
#[derive(Debug, Clone, PartialEq, Eq)]
pub enum WaitEvent {
    /// The filter registration succeeded.
    FilterCreated,
    /// The filter registration failed.
    FilterFailed(Error),
    /// The block stream yielded an item. Its payload is unused: it is solely
    /// a wake-up signal.
    Tick,
    /// The block stream failed. This must end the wait; counting it as a
    /// confirmation, or as "no new items", would falsify the tracker.
    StreamFailed(Error),
    /// The check answered: the event's height, or nothing yet.
    Checked(Option<u64>),
    /// The check call failed.
    CheckFailed(Error),
    /// The current chain height.
    Height(u64),
    /// The current-height call failed.
    HeightFailed(Error),
}

/// What the driver must do next.
#[derive(Debug, Clone, PartialEq, Eq)]
pub enum WaitAction {
    /// Register a new-blocks filter and report back.
    CreateFilter,
    /// Await the next item of the block stream.
    AwaitTick,
    /// Run the caller's check, after the poll-interval sleep when no stream
    /// drives the cadence.
    RunCheck,
    /// Fetch the current chain height.
    FetchHeight,
    /// The wait is over: release the filter first if one was registered,
    /// then report the terminal phase.
    Finish { release_filter: bool },
}

/// The wait's whole state.
#[derive(Debug, Clone, PartialEq, Eq)]
pub struct ConfirmationWait {
    /// The required confirmation depth, fixed for the wait's lifetime.
    pub depth: u64,
    /// Whether a filter was registered and not yet released.
    pub filter_installed: bool,
    pub phase: WaitPhase,
}

/// A terminal state accepts no further event.
pub open spec fn terminal(s: ConfirmationWait) -> bool {
    s.phase is Complete || s.phase is Failed
}

/// Which observation answers the machine's outstanding action.
pub open spec fn expects(s: ConfirmationWait, ev: WaitEvent) -> bool {
    match s.phase {
        WaitPhase::CreatingFilter => ev is FilterCreated || ev is FilterFailed,
        WaitPhase::Skipping { .. } => ev is Tick || ev is StreamFailed,
        WaitPhase::AwaitingCheck => ev is Checked || ev is CheckFailed,
        WaitPhase::AwaitingHeight { .. } => ev is Height || ev is HeightFailed,
        WaitPhase::Complete => false,
        WaitPhase::Failed(_) => false,
    }
}

/// The initial state and first action. A zero depth needs no block stream at
/// all: the wait degenerates to polling the check until the event is seen.
pub open spec fn spec_start(depth: u64) -> (ConfirmationWait, WaitAction) {
    if depth == 0 {
        (
            ConfirmationWait { depth, filter_installed: false, phase: WaitPhase::AwaitingCheck },
            WaitAction::RunCheck,
        )
    } else {
        (
            ConfirmationWait { depth, filter_installed: false, phase: WaitPhase::CreatingFilter },
            WaitAction::CreateFilter,
        )
    }
}

/// The transition relation, one observation at a time.
pub open spec fn spec_step(s: ConfirmationWait, ev: WaitEvent) -> (ConfirmationWait, WaitAction) {
    match (s.phase, ev) {
        (WaitPhase::CreatingFilter, WaitEvent::FilterCreated) => (
            ConfirmationWait {
                filter_installed: true,
                phase: WaitPhase::Skipping { remaining: s.depth },
                ..s
            },
            WaitAction::AwaitTick,
        ),
        (WaitPhase::CreatingFilter, WaitEvent::FilterFailed(e)) => (
            ConfirmationWait { phase: WaitPhase::Failed(e), ..s },
            WaitAction::Finish { release_filter: s.filter_installed },
        ),
        (WaitPhase::Skipping { remaining }, WaitEvent::Tick) => if remaining > 0 {
            (
                ConfirmationWait { phase: WaitPhase::Skipping { remaining: (remaining - 1) as u64 }, ..s },
                WaitAction::AwaitTick,
            )
        } else {
            (ConfirmationWait { phase: WaitPhase::AwaitingCheck, ..s }, WaitAction::RunCheck)
        },
        (WaitPhase::Skipping { .. }, WaitEvent::StreamFailed(e)) => (
            ConfirmationWait { phase: WaitPhase::Failed(e), ..s },
            WaitAction::Finish { release_filter: s.filter_installed },
        ),
        (WaitPhase::AwaitingCheck, WaitEvent::Checked(found)) => match found {
            None => if s.filter_installed {
                (
                    ConfirmationWait { phase: WaitPhase::Skipping { remaining: 0 }, ..s },
                    WaitAction::AwaitTick,
                )
            } else {
                (ConfirmationWait { phase: WaitPhase::AwaitingCheck, ..s }, WaitAction::RunCheck)
            },
            Some(h) => (
                ConfirmationWait { phase: WaitPhase::AwaitingHeight { event_height: h }, ..s },
                WaitAction::FetchHeight,
            ),
        },
        (WaitPhase::AwaitingCheck, WaitEvent::CheckFailed(e)) => (
            ConfirmationWait { phase: WaitPhase::Failed(e), ..s },
            WaitAction::Finish { release_filter: s.filter_installed },
        ),
        (WaitPhase::AwaitingHeight { event_height }, WaitEvent::Height(current)) => if current
            >= event_height + s.depth {
            (
                ConfirmationWait { phase: WaitPhase::Complete, ..s },
                WaitAction::Finish { release_filter: s.filter_installed },
            )
        } else if s.filter_installed {
            (
                ConfirmationWait { phase: WaitPhase::Skipping { remaining: 0 }, ..s },
                WaitAction::AwaitTick,
            )
        } else {
            (ConfirmationWait { phase: WaitPhase::AwaitingCheck, ..s }, WaitAction::RunCheck)
        },
        (WaitPhase::AwaitingHeight { .. }, WaitEvent::HeightFailed(e)) => (
            ConfirmationWait { phase: WaitPhase::Failed(e), ..s },
            WaitAction::Finish { release_filter: s.filter_installed },
        ),
        _ => (s, WaitAction::AwaitTick),
    }
}

impl ConfirmationWait {
    /// Begins a wait for the given depth and names the driver's first action.
    pub fn start(depth: u64) -> (r: (ConfirmationWait, WaitAction))
        ensures
            r == spec_start(depth),
    {
        if depth == 0 {
            (
                ConfirmationWait { depth, filter_installed: false, phase: WaitPhase::AwaitingCheck },
                WaitAction::RunCheck,
            )
        } else {
            (
                ConfirmationWait {
                    depth,
                    filter_installed: false,
                    phase: WaitPhase::CreatingFilter,
                },
                WaitAction::CreateFilter,
            )
        }
    }

    /// Consumes one observation and names the next action. Success is
    /// reported exactly on a current height `c` observed while the event
    /// stands at height `h` with `c >= h + depth`; every failure becomes the
    /// terminal phase's cause.
    pub fn step(self, ev: WaitEvent) -> (r: (ConfirmationWait, WaitAction))
        requires
            expects(self, ev),
        ensures
            r == spec_step(self, ev),
    {
        let installed = self.filter_installed;
        match (self.phase, ev) {
            (WaitPhase::CreatingFilter, WaitEvent::FilterCreated) => (
                ConfirmationWait {
                    filter_installed: true,
                    phase: WaitPhase::Skipping { remaining: self.depth },
                    ..self
                },
                WaitAction::AwaitTick,
            ),
            (WaitPhase::CreatingFilter, WaitEvent::FilterFailed(e)) => (
                ConfirmationWait { phase: WaitPhase::Failed(e), ..self },
                WaitAction::Finish { release_filter: installed },
            ),
            (WaitPhase::Skipping { remaining }, WaitEvent::Tick) => if remaining > 0 {
                (
                    ConfirmationWait {
                        phase: WaitPhase::Skipping { remaining: remaining - 1 },
                        ..self
                    },
                    WaitAction::AwaitTick,
                )
            } else {
                (
                    ConfirmationWait { phase: WaitPhase::AwaitingCheck, ..self },
                    WaitAction::RunCheck,
                )
            },
            (WaitPhase::Skipping { .. }, WaitEvent::StreamFailed(e)) => (
                ConfirmationWait { phase: WaitPhase::Failed(e), ..self },
                WaitAction::Finish { release_filter: installed },
            ),
            (WaitPhase::AwaitingCheck, WaitEvent::Checked(found)) => match found {
                None => if installed {
                    (
                        ConfirmationWait { phase: WaitPhase::Skipping { remaining: 0 }, ..self },
                        WaitAction::AwaitTick,
                    )
                } else {
                    (
                        ConfirmationWait { phase: WaitPhase::AwaitingCheck, ..self },
                        WaitAction::RunCheck,
                    )
                },
                Some(h) => (
                    ConfirmationWait {
                        phase: WaitPhase::AwaitingHeight { event_height: h },
                        ..self
                    },
                    WaitAction::FetchHeight,
                ),
            },
            (WaitPhase::AwaitingCheck, WaitEvent::CheckFailed(e)) => (
                ConfirmationWait { phase: WaitPhase::Failed(e), ..self },
                WaitAction::Finish { release_filter: installed },
            ),
            (WaitPhase::AwaitingHeight { event_height }, WaitEvent::Height(current)) => if current
                >= event_height && current - event_height >= self.depth {
                (
                    ConfirmationWait { phase: WaitPhase::Complete, ..self },
                    WaitAction::Finish { release_filter: installed },
                )
            } else if installed {
                (
                    ConfirmationWait { phase: WaitPhase::Skipping { remaining: 0 }, ..self },
                    WaitAction::AwaitTick,
                )
            } else {
                (
                    ConfirmationWait { phase: WaitPhase::AwaitingCheck, ..self },
                    WaitAction::RunCheck,
                )
            },
            (WaitPhase::AwaitingHeight { .. }, WaitEvent::HeightFailed(e)) => (
                ConfirmationWait { phase: WaitPhase::Failed(e), ..self },
                WaitAction::Finish { release_filter: installed },
            ),
            (phase, _) => (ConfirmationWait { phase, ..self }, WaitAction::AwaitTick),
        }
    }
}

/// The state after consuming a whole sequence of observations.
pub open spec fn run_state(s: ConfirmationWait, evs: Seq<WaitEvent>) -> ConfirmationWait
    decreases evs.len(),
{
    if evs.len() == 0 {
        s
    } else {
        run_state(spec_step(s, evs[0]).0, evs.skip(1))
    }
}

/// Every observation of the sequence answers the machine's outstanding
/// action; in particular nothing follows a terminal state.
pub open spec fn valid_run(s: ConfirmationWait, evs: Seq<WaitEvent>) -> bool
    decreases evs.len(),
{
    evs.len() == 0 || (expects(s, evs[0]) && valid_run(spec_step(s, evs[0]).0, evs.skip(1)))
}

/// How many steps of the run direct a filter release.
pub open spec fn count_releases(s: ConfirmationWait, evs: Seq<WaitEvent>) -> nat
    decreases evs.len(),
{
    if evs.len() == 0 {
        0
    } else {
        (if spec_step(s, evs[0]).1 == (WaitAction::Finish { release_filter: true }) {
            1nat
        } else {
            0nat
        }) + count_releases(spec_step(s, evs[0]).0, evs.skip(1))
    }
}

/// How many filter registrations the run acknowledged.
pub open spec fn count_creates(evs: Seq<WaitEvent>) -> nat
    decreases evs.len(),
{
    if evs.len() == 0 {
        0
    } else {
        (if evs[0] is FilterCreated {
            1nat
        } else {
            0nat
        }) + count_creates(evs.skip(1))
    }
}

/// States the machine can actually be in: a filter is never already installed
/// while its registration is still in flight.
pub open spec fn wf(s: ConfirmationWait) -> bool {
    s.phase is CreatingFilter ==> !s.filter_installed
}

/// The event at index `i` reported the check finding the event at height `h`.
pub open spec fn checked_at(evs: Seq<WaitEvent>, i: int, h: u64) -> bool {
    evs[i] == WaitEvent::Checked(Some(h))
}

/// The event at index `j` reported the current chain height `c`.
pub open spec fn height_at(evs: Seq<WaitEvent>, j: int, c: u64) -> bool {
    evs[j] == WaitEvent::Height(c)
}

/// The run observed, in this order, the target event at some height `h` and
/// then a current chain height `c` that buries it to the given depth.
pub open spec fn observed_burial(depth: u64, evs: Seq<WaitEvent>) -> bool {
    exists|i: int, j: int, h: u64, c: u64|
        0 <= i < j < evs.len() && #[trigger] checked_at(evs, i, h) && #[trigger] height_at(
            evs,
            j,
            c,
        ) && c >= h + depth
}

/// The event height is already on record, and the run observed a current
/// height that buries it to the given depth.
pub open spec fn pending_burial(s: ConfirmationWait, evs: Seq<WaitEvent>) -> bool {
    match s.phase {
        WaitPhase::AwaitingHeight { event_height } => exists|j: int, c: u64|
            0 <= j < evs.len() && #[trigger] height_at(evs, j, c) && c >= event_height + s.depth,
        _ => false,
    }
}

/// Success is decided exactly by burial depth: with the event at height `h`,
/// an observed current height `c` completes the wait if and only if
/// `c >= h + depth`, never earlier.
pub proof fn lemma_success_iff_buried(s: ConfirmationWait, h: u64, c: u64)
    requires
        s.phase == (WaitPhase::AwaitingHeight { event_height: h }),
    ensures
        spec_step(s, WaitEvent::Height(c)).0.phase is Complete <==> c >= h + s.depth,
{
}

proof fn lemma_step_preserves_wf(s: ConfirmationWait, ev: WaitEvent)
    requires
        wf(s),
    ensures
        wf(spec_step(s, ev).0),
        spec_step(s, ev).0.depth == s.depth,
        s.filter_installed ==> spec_step(s, ev).0.filter_installed,
{
}

/// How one step relates to the run bookkeeping: a terminal state is entered
/// exactly under a finish action that releases the filter iff one was
/// installed, and never on a registration acknowledgement.
proof fn lemma_step_cases(s: ConfirmationWait, ev: WaitEvent)
    requires
        expects(s, ev),
        !terminal(s),
    ensures
        terminal(spec_step(s, ev).0) <==> spec_step(s, ev).1 == (WaitAction::Finish {
            release_filter: s.filter_installed,
        }),
        !terminal(spec_step(s, ev).0) ==> !(spec_step(s, ev).1 is Finish),
        ev is FilterCreated ==> spec_step(s, ev).0.filter_installed,
        !(ev is FilterCreated) ==> spec_step(s, ev).0.filter_installed == s.filter_installed,
        terminal(spec_step(s, ev).0) ==> !(ev is FilterCreated),
{
}

/// A terminal state accepts no further observation, so a valid run from it is
/// empty and directs nothing.
proof fn lemma_run_stops_at_terminal(s: ConfirmationWait, evs: Seq<WaitEvent>)
    requires
        terminal(s),
        valid_run(s, evs),
    ensures
        evs.len() == 0,
        run_state(s, evs) == s,
        count_releases(s, evs) == 0,
        count_creates(evs) == 0,
{
    if evs.len() > 0 {
        assert(!expects(s, evs[0]));
    }
}

/// Once a filter is installed, a valid run never acknowledges another
/// registration: the machine never returns to the registering phase.
proof fn lemma_installed_no_more_creates(s: ConfirmationWait, evs: Seq<WaitEvent>)
    requires
        wf(s),
        s.filter_installed,
        valid_run(s, evs),
    ensures
        count_creates(evs) == 0,
    decreases evs.len(),
{
    if evs.len() > 0 {
        let s1 = spec_step(s, evs[0]).0;
        assert(!(evs[0] is FilterCreated));
        lemma_step_preserves_wf(s, evs[0]);
        lemma_installed_no_more_creates(s1, evs.skip(1));
    }
}

/// At most one registration is ever acknowledged along a valid run.
proof fn lemma_creates_at_most_one(s: ConfirmationWait, evs: Seq<WaitEvent>)
    requires
        wf(s),
        valid_run(s, evs),
    ensures
        count_creates(evs) <= 1,
    decreases evs.len(),
{
    if evs.len() > 0 {
        let s1 = spec_step(s, evs[0]).0;
        lemma_step_preserves_wf(s, evs[0]);
        if evs[0] is FilterCreated {
            lemma_installed_no_more_creates(s1, evs.skip(1));
        } else {
            lemma_creates_at_most_one(s1, evs.skip(1));
        }
    }
}

proof fn lemma_release_balance(s: ConfirmationWait, evs: Seq<WaitEvent>)
    requires
        wf(s),
        !terminal(s),
        valid_run(s, evs),
        terminal(run_state(s, evs)),
    ensures
        count_releases(s, evs) == if s.filter_installed {
            1nat
        } else {
            count_creates(evs)
        },
    decreases evs.len(),
{
    assert(evs.len() > 0);
    let s1 = spec_step(s, evs[0]).0;
    let a1 = spec_step(s, evs[0]).1;
    let rest = evs.skip(1);
    lemma_step_preserves_wf(s, evs[0]);
    lemma_step_cases(s, evs[0]);
    if terminal(s1) {
        lemma_run_stops_at_terminal(s1, rest);
        assert(a1 == (WaitAction::Finish { release_filter: s.filter_installed }));
        assert(!(evs[0] is FilterCreated));
        assert(count_creates(evs) == count_creates(rest));
    } else {
        assert(run_state(s, evs) == run_state(s1, rest));
        lemma_release_balance(s1, rest);
        assert(!(a1 is Finish));
        if evs[0] is FilterCreated {
            assert(s1.filter_installed);
            lemma_installed_no_more_creates(s1, rest);
        } else {
            assert(s1.filter_installed == s.filter_installed);
        }
    }
}

/// Exactly one release per filter registered: a wait driven from its start to
/// a terminal state — success and failure alike — directs as many filter
/// releases as registrations it acknowledged, and that is never more than
/// one.
pub proof fn lemma_filter_released_exactly_once(depth: u64, evs: Seq<WaitEvent>)
    requires
        valid_run(spec_start(depth).0, evs),
        terminal(run_state(spec_start(depth).0, evs)),
    ensures
        count_releases(spec_start(depth).0, evs) == count_creates(evs),
        count_creates(evs) <= 1,
{
    let s = spec_start(depth).0;
    lemma_release_balance(s, evs);
    lemma_creates_at_most_one(s, evs);
}

proof fn lemma_complete_observed_aux(s: ConfirmationWait, evs: Seq<WaitEvent>)
    requires
        !terminal(s),
        valid_run(s, evs),
        run_state(s, evs).phase is Complete,
    ensures
        observed_burial(s.depth, evs) || pending_burial(s, evs),
    decreases evs.len(),
{
    assert(evs.len() > 0);
    let ev0 = evs[0];
    let s1 = spec_step(s, ev0).0;
    let rest = evs.skip(1);
    if s1.phase is Complete {
        // Only the burial decision completes the wait.
        match (s.phase, ev0) {
            (WaitPhase::AwaitingHeight { event_height }, WaitEvent::Height(current)) => {
                assert(current >= event_height + s.depth);
                assert(height_at(evs, 0, current));
                assert(pending_burial(s, evs));
            },
            _ => {
                assert(false);
            },
        }
    } else {
        if terminal(s1) {
            lemma_run_stops_at_terminal(s1, rest);
            assert(run_state(s, evs) == s1);
            assert(false);
        }
        assert(run_state(s, evs) == run_state(s1, rest));
        lemma_complete_observed_aux(s1, rest);
        if observed_burial(s1.depth, rest) {
            let (i, j, h, c) = choose|i: int, j: int, h: u64, c: u64|
                0 <= i < j < rest.len() && #[trigger] checked_at(rest, i, h) && #[trigger] height_at(
                    rest,
                    j,
                    c,
                ) && c >= h + s1.depth;
            assert(evs[i + 1] == rest[i]);
            assert(evs[j + 1] == rest[j]);
            assert(checked_at(evs, i + 1, h));
            assert(height_at(evs, j + 1, c));
            assert(s1.depth == s.depth);
            assert(observed_burial(s.depth, evs));
        } else {
            // The event height recorded in `s1` was observed just now or was
            // already on record in `s`.
            match s1.phase {
                WaitPhase::AwaitingHeight { event_height } => {
                    let (j, c) = choose|j: int, c: u64|
                        0 <= j < rest.len() && #[trigger] height_at(rest, j, c) && c >= event_height
                            + s1.depth;
                    assert(evs[j + 1] == rest[j]);
                    assert(height_at(evs, j + 1, c));
                    match (s.phase, ev0) {
                        (WaitPhase::AwaitingCheck, WaitEvent::Checked(found)) => {
                            assert(found == Some(event_height));
                            assert(checked_at(evs, 0, event_height));
                            assert(observed_burial(s.depth, evs));
                        },
                        _ => {
                            assert(false);
                        },
                    }
                },
                _ => {
                    assert(false);
                },
            }
        }
    }
}

/// The tracker never reports success early: a run that ends complete has
/// observed the target event at some height `h` and, after that, a current
/// chain height `c` with `c >= h + depth`.
pub proof fn lemma_success_only_when_buried(depth: u64, evs: Seq<WaitEvent>)
    requires
        valid_run(spec_start(depth).0, evs),
        run_state(spec_start(depth).0, evs).phase is Complete,
    ensures
        observed_burial(depth, evs),
{
    let s = spec_start(depth).0;
    lemma_complete_observed_aux(s, evs);
    assert(!pending_burial(s, evs));
}

/// The pure half of the receipt-based check: a receipt that names a block
/// means the transaction is mined at that height.
pub fn receipt_block_number(receipt: &Option<TransactionReceipt>) -> (r: Option<u64>)
    ensures
        r == match *receipt {
            Some(rc) => rc.block_number,
            None => None::<u64>,
        },
{
    match receipt {
        Some(rc) => rc.block_number,
        None => None,
    }
}

/// A receipt absent right after a successful confirmation wait breaks an
/// internal invariant. It is surfaced as an error for the caller to act on,
/// never allowed to crash the process.
pub fn receipt_after_wait(receipt: Option<TransactionReceipt>) -> (r: Result<
    TransactionReceipt,
    Error,
>)
    ensures
        receipt matches Some(rc) ==> r == Ok::<TransactionReceipt, Error>(rc),
        receipt is None ==> (r matches Err(e) && e is InvariantViolation),
{
    match receipt {
        Some(rc) => Ok(rc),
        None => Err(
            Error::InvariantViolation(
                String::from_str("receipt absent after a successful confirmation wait"),
            ),
        ),
    }
}

} // verus!
