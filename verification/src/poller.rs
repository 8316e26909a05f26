//! Per-region polling cycle as a state machine: the decisions of the loop
//! (what to do next after each outside event) are pure and verified here;
//! the runtime around the library performs the actions (fetch, publish,
//! sleep) and hands the resulting event back.

use vstd::prelude::*;
use crate::adapt::{adapt, MetricUpdate};
use crate::errors::FetchError;
use crate::types::{index_ordinal, Region};

verus! {

/// Seconds between the end of one cycle and the start of the next, the same
/// after success and after failure.
pub const POLL_INTERVAL_SECS: u64 = 600;

/// Where one region's loop stands.
#[derive(Clone, Copy, Debug, PartialEq, Eq, Structural)]
pub enum PollerState {
    Idle,
    Fetching,
    Publishing,
    Sleeping,
}

/// What the outside world reports back to the loop.
#[derive(Debug)]
pub enum PollerEvent {
    /// The task has started.
    Started,
    /// The fetch finished, successfully or not.
    FetchDone(Result<Region, FetchError>),
    /// The metric update was written to the exposition sink.
    Published,
    /// The fixed interval elapsed.
    SleepElapsed,
}

/// What the outside world must do next.
#[derive(Debug, Clone, PartialEq, Eq)]
pub enum PollerAction {
    /// Issue the HTTP GET for this region.
    StartFetch,
    /// Write this update into the region's pair of gauges.
    Publish(MetricUpdate),
    /// Wait this many seconds.
    StartSleep(u64),
}

/// One transition of a region's loop: from the current state and the event
/// that ended it, to the next state and the action that enters it.  A pair
/// that no transition of the cycle defines leaves the state unchanged and
/// asks for nothing.
pub fn poller_step(state: PollerState, event: PollerEvent) -> (r: (
    PollerState,
    Option<PollerAction>,
))
    ensures
        state == PollerState::Idle ==> (event matches PollerEvent::Started ==> r == (
            PollerState::Fetching,
            Some(PollerAction::StartFetch),
        )),
        state == PollerState::Fetching ==> (event matches PollerEvent::FetchDone(res) ==> {
            &&& (res matches Ok(region) ==> {
                &&& (region.region_data@.len() > 0 ==> {
                    &&& r.0 == PollerState::Publishing
                    &&& r.1 matches Some(PollerAction::Publish(u))
                    &&& u.postcode@ == region.postcode@
                    &&& u.forecast@ == region.region_data@[0].intensity.forecast@
                    &&& u.index_ordinal as int == index_ordinal(
                        region.region_data@[0].intensity.index,
                    )
                })
                &&& (region.region_data@.len() == 0 ==> r == (
                    PollerState::Sleeping,
                    Some(PollerAction::StartSleep(POLL_INTERVAL_SECS)),
                ))
            })
            &&& (res is Err ==> r == (
                PollerState::Sleeping,
                Some(PollerAction::StartSleep(POLL_INTERVAL_SECS)),
            ))
        }),
        state == PollerState::Publishing ==> (event matches PollerEvent::Published ==> r == (
            PollerState::Sleeping,
            Some(PollerAction::StartSleep(POLL_INTERVAL_SECS)),
        )),
        state == PollerState::Sleeping ==> (event matches PollerEvent::SleepElapsed ==> r == (
            PollerState::Fetching,
            Some(PollerAction::StartFetch),
        )),
        state == PollerState::Idle ==> (!(event matches PollerEvent::Started) ==> r == (
            state,
            None::<PollerAction>,
        )),
        state == PollerState::Fetching ==> (!(event matches PollerEvent::FetchDone(_)) ==> r == (
            state,
            None::<PollerAction>,
        )),
        state == PollerState::Publishing ==> (!(event matches PollerEvent::Published) ==> r == (
            state,
            None::<PollerAction>,
        )),
        state == PollerState::Sleeping ==> (!(event matches PollerEvent::SleepElapsed) ==> r == (
            state,
            None::<PollerAction>,
        )),
{
    match (state, event) {
        (PollerState::Idle, PollerEvent::Started) => (
            PollerState::Fetching,
            Some(PollerAction::StartFetch),
        ),
        (PollerState::Fetching, PollerEvent::FetchDone(res)) => match res {
            Ok(region) => match adapt(&region) {
                Ok(update) => (PollerState::Publishing, Some(PollerAction::Publish(update))),
                Err(_) => (
                    PollerState::Sleeping,
                    Some(PollerAction::StartSleep(POLL_INTERVAL_SECS)),
                ),
            },
            Err(_) => (
                PollerState::Sleeping,
                Some(PollerAction::StartSleep(POLL_INTERVAL_SECS)),
            ),
        },
        (PollerState::Publishing, PollerEvent::Published) => (
            PollerState::Sleeping,
            Some(PollerAction::StartSleep(POLL_INTERVAL_SECS)),
        ),
        (PollerState::Sleeping, PollerEvent::SleepElapsed) => (
            PollerState::Fetching,
            Some(PollerAction::StartFetch),
        ),
        (s, _) => (s, None),
    }
}

/// Last values written to one region's pair of gauges; `None` until the
/// first successful cycle.  This is the library's model of the exposition
/// sink's state for one region.
#[derive(Debug, Clone, PartialEq, Eq)]
pub struct RegionGauges {
    pub forecast: Option<String>,
    pub index_ordinal: Option<u8>,
}

/// The gauge values after performing an action: only a publish changes
/// them, to exactly the update's values.
pub open spec fn gauges_after(g: RegionGauges, a: Option<PollerAction>) -> RegionGauges {
    match a {
        Some(PollerAction::Publish(u)) => RegionGauges {
            forecast: Some(u.forecast),
            index_ordinal: Some(u.index_ordinal),
        },
        _ => g,
    }
}

/// Perform an action's effect on a region's gauge model.
pub fn apply_action(g: &mut RegionGauges, a: &Option<PollerAction>)
    ensures
        *final(g) == gauges_after(*old(g), *a),
{
    match a {
        Some(PollerAction::Publish(u)) => {
            g.forecast = Some(u.forecast.clone());
            g.index_ordinal = Some(u.index_ordinal);
        },
        _ => {},
    }
}

/// Law: an action other than a publish leaves the gauges exactly as they
/// were — in particular, a cycle whose fetch fails (which asks only for a
/// sleep) retains the previous cycle's values; nothing is reset.
pub proof fn lemma_non_publish_retains_gauges(g: RegionGauges, a: Option<PollerAction>)
    requires
        !(a matches Some(PollerAction::Publish(_))),
    ensures
        gauges_after(g, a) == g,
{
}

} // verus!
