//! The channel registry, which holds the snapshot being served, and the
//! decisions of the refresher that replaces it on a timer.
//!
//! Readers take the current snapshot without blocking and keep it for the
//! whole request; the refresher installs a new snapshot in one atomic swap,
//! so a reader sees either the old snapshot or the new one, never a mixture.

use vstd::prelude::*;

use std::sync::Arc;

use crate::channel::ChannelConfigView;
use crate::loader::ConfigError;
use crate::snapshot::ChannelsConfig;

verus! {

/// The atomically replaceable reference to the served snapshot. Proofs see
/// it only through `installed_snapshots`: which snapshot a load returns
/// depends on what other threads stored before it.
#[verifier::external_body]
pub struct SnapshotCell {
    cell: arc_swap::ArcSwap<ChannelsConfig>,
}

/// Every snapshot that is held by `cell` at some moment of its lifetime:
/// the one it was created with and each one stored into it.
pub uninterp spec fn installed_snapshots(cell: SnapshotCell) -> Set<Map<Seq<char>, ChannelConfigView>>;

/// Relies on `arc_swap::ArcSwap::from_pointee`: a cell holding `snapshot`.
#[verifier::external_body]
fn new_cell(snapshot: ChannelsConfig) -> (r: SnapshotCell)
    ensures
        installed_snapshots(r).contains(snapshot@),
{
    SnapshotCell { cell: arc_swap::ArcSwap::from_pointee(snapshot) }
}

/// Relies on `arc_swap::ArcSwapAny::load_full`: the snapshot the cell holds
/// at the moment of the call, one of those it ever holds. Another thread may
/// store at any time, so which one is not stated.
#[verifier::external_body]
fn load_cell(cell: &SnapshotCell) -> (r: Arc<ChannelsConfig>)
    ensures
        installed_snapshots(*cell).contains((*r)@),
{
    cell.cell.load_full()
}

/// Relies on `arc_swap::ArcSwapAny::store`: the cell holds `snapshot` from
/// now until the next store. The cell is shared, so nothing is stated.
#[verifier::external_body]
fn store_cell(cell: &SnapshotCell, snapshot: ChannelsConfig) {
    cell.cell.store(Arc::new(snapshot))
}

/// The refresher's decision after a load.
pub enum RefreshAction {
    /// Install this snapshot in the registry.
    Install(ChannelsConfig),
    /// Keep serving the current snapshot; the load failed this way.
    KeepCurrent(ConfigError),
}

pub enum RefreshActionView {
    Install(Map<Seq<char>, ChannelConfigView>),
    KeepCurrent,
}

impl View for RefreshAction {
    type V = RefreshActionView;

    open spec fn view(&self) -> RefreshActionView {
        match self {
            RefreshAction::Install(s) => RefreshActionView::Install(s@),
            RefreshAction::KeepCurrent(_) => RefreshActionView::KeepCurrent,
        }
    }
}

/// The decision after a load that gave `outcome`: install what loaded, or
/// keep what is served.
pub open spec fn refresh_decision(outcome: Result<Map<Seq<char>, ChannelConfigView>, ()>) -> RefreshActionView {
    match outcome {
        Ok(s) => RefreshActionView::Install(s),
        Err(()) => RefreshActionView::KeepCurrent,
    }
}

/// The snapshot served after `action`, when `current` was served before.
pub open spec fn served_after(current: Map<Seq<char>, ChannelConfigView>, action: RefreshActionView) -> Map<Seq<char>, ChannelConfigView> {
    match action {
        RefreshActionView::Install(s) => s,
        RefreshActionView::KeepCurrent => current,
    }
}

pub open spec fn outcome_view(outcome: Result<ChannelsConfig, ConfigError>) -> Result<Map<Seq<char>, ChannelConfigView>, ()> {
    match outcome {
        Ok(s) => Ok(s@),
        Err(_) => Err(()),
    }
}

/// A refresh whose load fails leaves the served snapshot as it was, whatever
/// it was; a refresh whose load succeeds serves exactly what was loaded.
pub proof fn lemma_failed_refresh_keeps_snapshot(
    current: Map<Seq<char>, ChannelConfigView>,
    outcome: Result<Map<Seq<char>, ChannelConfigView>, ()>,
)
    ensures
        outcome is Err ==> served_after(current, refresh_decision(outcome)) == current,
        outcome is Ok ==> served_after(current, refresh_decision(outcome)) == outcome->Ok_0,
{
}

/// The snapshot served after refresh cycles whose loads gave `outcomes`,
/// in order, when `initial` was served before the first.
pub open spec fn served_after_cycles(
    initial: Map<Seq<char>, ChannelConfigView>,
    outcomes: Seq<Result<Map<Seq<char>, ChannelConfigView>, ()>>,
) -> Map<Seq<char>, ChannelConfigView>
    decreases outcomes.len(),
{
    if outcomes.len() == 0 {
        initial
    } else {
        served_after(served_after_cycles(initial, outcomes.drop_last()), refresh_decision(outcomes.last()))
    }
}

/// Over any number of refresh cycles, what is served is what the last
/// successful load gave, or the initial snapshot where no load succeeded:
/// failing cycles never change it.
pub proof fn lemma_served_is_last_success(
    initial: Map<Seq<char>, ChannelConfigView>,
    outcomes: Seq<Result<Map<Seq<char>, ChannelConfigView>, ()>>,
)
    ensures
        (forall|i: int| 0 <= i < outcomes.len() ==> outcomes[i] is Err) ==> served_after_cycles(initial, outcomes)
            == initial,
        forall|i: int|
            0 <= i < outcomes.len() && outcomes[i] is Ok && (forall|j: int| i < j < outcomes.len() ==> outcomes[j] is Err)
                ==> served_after_cycles(initial, outcomes) == outcomes[i]->Ok_0,
    decreases outcomes.len(),
{
    if outcomes.len() > 0 {
        let before = outcomes.drop_last();
        lemma_served_is_last_success(initial, before);
        assert forall|j: int| 0 <= j < before.len() implies before[j] == outcomes[j] by {}
        let n = before.len() as int;
        assert forall|i: int|
            0 <= i < outcomes.len() && outcomes[i] is Ok && (forall|j: int| i < j < outcomes.len() ==> outcomes[j] is Err)
                implies served_after_cycles(initial, outcomes) == outcomes[i]->Ok_0 by {
            if i < n {
                assert(outcomes[n] is Err);
                assert forall|j: int| i < j < before.len() implies before[j] is Err by {
                    assert(outcomes[j] is Err);
                }
            }
        }
        if forall|i: int| 0 <= i < outcomes.len() ==> outcomes[i] is Err {
            assert(outcomes[n] is Err);
            assert forall|i: int| 0 <= i < before.len() implies before[i] is Err by {
                assert(outcomes[i] is Err);
            }
        }
    }
}

/// What to do when the refresh timer fires.
#[derive(Debug, PartialEq, Eq, Structural)]
pub enum TickAction {
    /// Nothing now.
    Wait,
    /// Load the configuration afresh.
    Fetch,
}

/// The refresher: idle or fetching, and whether the next tick is the one
/// that fires as the timer starts.
pub struct Refresher {
    pub fetching: bool,
    pub skip_next_tick: bool,
}

impl Refresher {
    /// The refresher of a registry whose first snapshot was just loaded: the
    /// tick that fires as the timer starts does not load again.
    pub fn after_initial_load() -> (r: Refresher)
        ensures
            !r.fetching,
            r.skip_next_tick,
    {
        Refresher { fetching: false, skip_next_tick: true }
    }

    /// The timer fired.
    pub fn on_tick(&mut self) -> (r: TickAction)
        ensures
            old(self).skip_next_tick ==> r == TickAction::Wait && !final(self).skip_next_tick
                && final(self).fetching == old(self).fetching,
            !old(self).skip_next_tick && old(self).fetching ==> r == TickAction::Wait && *final(self) == *old(self),
            !old(self).skip_next_tick && !old(self).fetching ==> r == TickAction::Fetch && final(self).fetching
                && !final(self).skip_next_tick,
    {
        if self.skip_next_tick {
            self.skip_next_tick = false;
            TickAction::Wait
        } else if self.fetching {
            TickAction::Wait
        } else {
            self.fetching = true;
            TickAction::Fetch
        }
    }

    /// The load asked for has finished with `outcome`.
    pub fn on_loaded(&mut self, outcome: Result<ChannelsConfig, ConfigError>) -> (r: RefreshAction)
        ensures
            !final(self).fetching,
            final(self).skip_next_tick == old(self).skip_next_tick,
            r@ == refresh_decision(outcome_view(outcome)),
    {
        self.fetching = false;
        match outcome {
            Ok(snapshot) => RefreshAction::Install(snapshot),
            Err(e) => RefreshAction::KeepCurrent(e),
        }
    }
}

/// The registry: the snapshot being served, readable without blocking from
/// any number of requests while the refresher replaces it.
pub struct Registry {
    cell: SnapshotCell,
}

/// The snapshot that carrying out `action` stores: the loaded one for an
/// install, none when the current one is kept.
pub fn snapshot_to_install(action: RefreshAction) -> (r: Option<ChannelsConfig>)
    ensures
        match action@ {
            RefreshActionView::Install(s) => r is Some && r->0@ == s,
            RefreshActionView::KeepCurrent => r is None,
        },
{
    match action {
        RefreshAction::Install(snapshot) => Some(snapshot),
        RefreshAction::KeepCurrent(_) => None,
    }
}

impl Registry {
    /// Every snapshot this registry serves at some moment of its lifetime.
    pub closed spec fn installed(&self) -> Set<Map<Seq<char>, ChannelConfigView>> {
        installed_snapshots(self.cell)
    }

    /// A registry serving `initial`.
    pub fn new(initial: ChannelsConfig) -> (r: Registry)
        ensures
            r.installed().contains(initial@),
    {
        Registry { cell: new_cell(initial) }
    }

    /// The snapshot served now, one of those installed. A request takes it
    /// once and keeps it.
    pub fn current(&self) -> (r: Arc<ChannelsConfig>)
        ensures
            self.installed().contains((*r)@),
    {
        load_cell(&self.cell)
    }

    /// Serves `snapshot` from now on; readers holding the former snapshot keep it.
    pub fn replace(&self, snapshot: ChannelsConfig) {
        store_cell(&self.cell, snapshot)
    }

    /// Carries out the refresher's decision: stores exactly the snapshot that
    /// `snapshot_to_install` gives for it, so an install serves the loaded
    /// snapshot in full and a kept outcome stores nothing. Says whether a
    /// snapshot was stored.
    pub fn apply(&self, action: RefreshAction) -> (r: bool)
        ensures
            r == (action@ is Install),
    {
        match snapshot_to_install(action) {
            Some(snapshot) => {
                self.replace(snapshot);
                true
            },
            None => false,
        }
    }
}

} // verus!
