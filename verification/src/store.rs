//! The holder of the one configuration of a process.

use crate::error::{ConfigError, ConfigErrorView};
use crate::loader::outcome_view;
use crate::settings::{AppConfig, AppConfigView};
use vstd::prelude::*;

verus! {

/// What the owner of a store has to do before the next read.
#[derive(Debug, Clone, Copy, PartialEq, Eq)]
pub enum Step {
    /// Nothing was loaded yet: run the loader and record its outcome.
    Load,
    /// The configuration is there: read it.
    Serve,
    /// Loading failed: the process cannot start.
    Abort,
}

#[derive(Debug)]
enum Slot {
    Vacant,
    Ready(AppConfig),
    Failed(ConfigError),
}

/// Holds at most one configuration: the outcome of the first load, which no
/// later outcome replaces.
#[derive(Debug)]
pub struct ConfigStore {
    slot: Slot,
}

/// The mathematical value of a [`ConfigStore`].
pub enum StoreState {
    Vacant,
    Ready(AppConfigView),
    Failed(ConfigErrorView),
}

/// The store after the outcome of a load was offered to it: a vacant store
/// keeps the outcome, any other store stays as it is.
pub open spec fn spec_record(
    store: StoreState,
    outcome: Result<AppConfigView, ConfigErrorView>,
) -> StoreState {
    match store {
        StoreState::Vacant => match outcome {
            Ok(config) => StoreState::Ready(config),
            Err(error) => StoreState::Failed(error),
        },
        _ => store,
    }
}

/// The store after a sequence of outcomes was offered to it, one by one.
pub open spec fn spec_record_all(
    store: StoreState,
    outcomes: Seq<Result<AppConfigView, ConfigErrorView>>,
) -> StoreState
    decreases outcomes.len(),
{
    if outcomes.len() == 0 {
        store
    } else {
        spec_record_all(spec_record(store, outcomes.first()), outcomes.drop_first())
    }
}

/// How many loads a store has kept the outcome of.
pub open spec fn spec_loads(store: StoreState) -> nat {
    match store {
        StoreState::Vacant => 0,
        _ => 1,
    }
}

/// What the owner of a store in this state has to do next.
pub open spec fn spec_next_step(store: StoreState) -> Step {
    match store {
        StoreState::Vacant => Step::Load,
        StoreState::Ready(_) => Step::Serve,
        StoreState::Failed(_) => Step::Abort,
    }
}

impl View for ConfigStore {
    type V = StoreState;

    closed spec fn view(&self) -> StoreState {
        match self.slot {
            Slot::Vacant => StoreState::Vacant,
            Slot::Ready(config) => StoreState::Ready(config@),
            Slot::Failed(error) => StoreState::Failed(error@),
        }
    }
}

impl ConfigStore {
    /// A store that holds nothing yet.
    pub fn new() -> (store: ConfigStore)
        ensures
            store@ == StoreState::Vacant,
    {
        ConfigStore { slot: Slot::Vacant }
    }

    /// What has to happen before the next read.
    pub fn next_step(&self) -> (step: Step)
        ensures
            step == spec_next_step(self@),
    {
        match &self.slot {
            Slot::Vacant => Step::Load,
            Slot::Ready(_) => Step::Serve,
            Slot::Failed(_) => Step::Abort,
        }
    }

    /// Offers the outcome of a load. A vacant store keeps it and answers
    /// `true`; a store that has an outcome keeps that one and answers `false`.
    pub fn record(&mut self, outcome: Result<AppConfig, ConfigError>) -> (kept: bool)
        ensures
            final(self)@ == spec_record(old(self)@, outcome_view(outcome)),
            kept == (old(self)@ is Vacant),
    {
        match &self.slot {
            Slot::Vacant => {
                match outcome {
                    Ok(config) => {
                        self.slot = Slot::Ready(config);
                    },
                    Err(error) => {
                        self.slot = Slot::Failed(error);
                    },
                }
                true
            },
            _ => false,
        }
    }

    /// The configuration, once a load has succeeded.
    pub fn config(&self) -> (held: Option<&AppConfig>)
        ensures
            match held {
                Some(config) => self@ == StoreState::Ready(config@),
                None => !(self@ is Ready),
            },
    {
        match &self.slot {
            Slot::Ready(config) => Some(config),
            _ => None,
        }
    }

    /// The error, once a load has failed.
    pub fn failure(&self) -> (held: Option<&ConfigError>)
        ensures
            match held {
                Some(error) => self@ == StoreState::Failed(error@),
                None => !(self@ is Failed),
            },
    {
        match &self.slot {
            Slot::Failed(error) => Some(error),
            _ => None,
        }
    }

    /// How many loads the store has kept the outcome of: none or one.
    pub fn loads(&self) -> (count: u8)
        ensures
            count == spec_loads(self@),
            count <= 1,
    {
        match &self.slot {
            Slot::Vacant => 0,
            _ => 1,
        }
    }
}

/// A store that has an outcome asks for no further load, and no outcome
/// offered later changes it.
pub proof fn kept_outcome_is_final(
    store: StoreState,
    outcomes: Seq<Result<AppConfigView, ConfigErrorView>>,
)
    requires
        !(store is Vacant),
    ensures
        spec_record_all(store, outcomes) == store,
        spec_next_step(store) != Step::Load,
    decreases outcomes.len(),
{
    if outcomes.len() > 0 {
        kept_outcome_is_final(spec_record(store, outcomes.first()), outcomes.drop_first());
    }
}

/// Whatever outcomes are offered to a new store, it keeps the first: every
/// reader sees that one, and the store counts one load.
pub proof fn first_outcome_wins(outcomes: Seq<Result<AppConfigView, ConfigErrorView>>)
    requires
        outcomes.len() > 0,
    ensures
        spec_record_all(StoreState::Vacant, outcomes) == spec_record(
            StoreState::Vacant,
            outcomes.first(),
        ),
        spec_loads(spec_record_all(StoreState::Vacant, outcomes)) == 1,
{
    kept_outcome_is_final(spec_record(StoreState::Vacant, outcomes.first()), outcomes.drop_first());
}

} // verus!
