//! The connectivity probe: which endpoints are tried, in which order, and
//! what their outcomes say of the network.

use crate::error::{ErrorView, NixosUpgradeError};
use vstd::prelude::*;
use vstd::string::*;

verus! {

/// The seconds one connection attempt may take.
pub const PROBE_TIMEOUT_SECS: u64 = 2;

/// How the attempt on one endpoint ended.
#[derive(Debug, Clone, PartialEq, Eq)]
pub enum ProbeOutcome {
    /// A connection was made.
    Connected,
    /// The attempt was made and no connection came about in time: there
    /// is no way to the endpoint.
    Unreachable,
    /// The attempt could not be carried out, as with an address that
    /// cannot be read; the cause.
    Failed(String),
}

/// A `ProbeOutcome` with its cause as a sequence of characters.
pub enum OutcomeView {
    Connected,
    Unreachable,
    Failed(Seq<char>),
}

impl View for ProbeOutcome {
    type V = OutcomeView;

    open spec fn view(&self) -> OutcomeView {
        match self {
            ProbeOutcome::Connected => OutcomeView::Connected,
            ProbeOutcome::Unreachable => OutcomeView::Unreachable,
            ProbeOutcome::Failed(cause) => OutcomeView::Failed(cause@),
        }
    }
}

/// The outcomes of a run of attempts, each by its view.
pub open spec fn outcome_views(outcomes: Seq<ProbeOutcome>) -> Seq<OutcomeView> {
    Seq::new(outcomes.len(), |i: int| outcomes[i]@)
}

/// The endpoints that are tried, in this order.
pub open spec fn probe_endpoints() -> Seq<Seq<char>> {
    seq!["8.8.8.8:53"@, "1.1.1.1:53"@]
}

/// Some attempt made a connection.
pub open spec fn reached(outcomes: Seq<OutcomeView>) -> bool {
    exists|i: int| 0 <= i < outcomes.len() && outcomes[i] is Connected
}

/// The cause of the last attempt that could not be carried out, if there
/// was one.
pub open spec fn last_failure(outcomes: Seq<OutcomeView>) -> Option<Seq<char>>
    decreases outcomes.len(),
{
    if outcomes.len() == 0 {
        None
    } else {
        match outcomes.last() {
            OutcomeView::Failed(cause) => Some(cause),
            _ => last_failure(outcomes.drop_last()),
        }
    }
}

/// What the outcomes say of the network. One connection shows that it is
/// available. Without one, an attempt that could not be carried out makes
/// the probe itself fail, with the cause of the last such attempt. Where
/// every attempt was carried out and none connected, the network is
/// unavailable.
pub open spec fn network_verdict(outcomes: Seq<OutcomeView>) -> Result<bool, ErrorView> {
    if reached(outcomes) {
        Ok(true)
    } else {
        match last_failure(outcomes) {
            Some(cause) => Err(ErrorView::NetworkCheck(cause)),
            None => Ok(false),
        }
    }
}

/// The endpoint to try after the attempts that gave `outcomes`: the next in
/// order, unless a connection was made or every endpoint has been tried.
pub open spec fn next_attempt(outcomes: Seq<OutcomeView>) -> Option<Seq<char>> {
    if reached(outcomes) || outcomes.len() >= probe_endpoints().len() {
        None
    } else {
        Some(probe_endpoints()[outcomes.len() as int])
    }
}

/// The verdict of a probe, by its view.
pub open spec fn verdict_view(verdict: Result<bool, NixosUpgradeError>) -> Result<
    bool,
    ErrorView,
> {
    match verdict {
        Ok(available) => Ok(available),
        Err(error) => Err(error@),
    }
}

/// Whether one of `outcomes` is a connection.
fn any_connected(outcomes: &Vec<ProbeOutcome>) -> (found: bool)
    ensures
        found == reached(outcome_views(outcomes@)),
{
    let mut i: usize = 0;
    while i < outcomes.len()
        invariant
            i <= outcomes.len(),
            forall|k: int| 0 <= k < i ==> !(outcome_views(outcomes@)[k] is Connected),
        decreases outcomes.len() - i,
    {
        match &outcomes[i] {
            ProbeOutcome::Connected => {
                assert(outcome_views(outcomes@)[i as int] is Connected);
                return true;
            },
            _ => {},
        }
        i = i + 1;
    }
    false
}

/// Which endpoint to try next, given the outcomes of the attempts made so
/// far, in order. `None` ends the probe.
pub fn next_endpoint(outcomes: &Vec<ProbeOutcome>) -> (endpoint: Option<String>)
    ensures
        endpoint.deep_view() == next_attempt(outcome_views(outcomes@)),
{
    if any_connected(outcomes) {
        None
    } else if outcomes.len() == 0 {
        Some(String::from_str("8.8.8.8:53"))
    } else if outcomes.len() == 1 {
        Some(String::from_str("1.1.1.1:53"))
    } else {
        None
    }
}

/// What the outcomes of the attempts, in the order they were made, say of
/// the network.
pub fn check_network_available(outcomes: &Vec<ProbeOutcome>) -> (verdict: Result<
    bool,
    NixosUpgradeError,
>)
    ensures
        verdict_view(verdict) == network_verdict(outcome_views(outcomes@)),
{
    let ghost views = outcome_views(outcomes@);
    let mut last: Option<String> = None;
    let mut i: usize = 0;
    assert(views.take(0) =~= Seq::<OutcomeView>::empty());
    while i < outcomes.len()
        invariant
            i <= outcomes.len(),
            views == outcome_views(outcomes@),
            forall|k: int| 0 <= k < i ==> !(views[k] is Connected),
            last.deep_view() == last_failure(views.take(i as int)),
        decreases outcomes.len() - i,
    {
        assert(views.take(i + 1).drop_last() =~= views.take(i as int));
        assert(views.take(i + 1).last() == views[i as int]);
        match &outcomes[i] {
            ProbeOutcome::Connected => {
                assert(views[i as int] is Connected);
                return Ok(true);
            },
            ProbeOutcome::Unreachable => {},
            ProbeOutcome::Failed(cause) => {
                last = Some(cause.clone());
            },
        }
        i = i + 1;
    }
    assert(views.take(i as int) =~= views);
    match last {
        Some(cause) => Err(NixosUpgradeError::NetworkCheck(cause)),
        None => Ok(false),
    }
}

/// The network is reported available exactly when some attempt connected.
pub proof fn lemma_available_needs_connection(outcomes: Seq<OutcomeView>)
    ensures
        network_verdict(outcomes) == Ok::<bool, ErrorView>(true) <==> reached(outcomes),
{
}

/// Once an attempt has connected no further endpoint is tried.
pub proof fn lemma_probe_stops_at_connection(outcomes: Seq<OutcomeView>)
    requires
        reached(outcomes),
    ensures
        next_attempt(outcomes) is None,
        network_verdict(outcomes) == Ok::<bool, ErrorView>(true),
{
}

/// The probe fails exactly when no attempt connected and some attempt could
/// not be carried out, and then with that attempt's cause. Attempts that
/// found no way to their endpoint never make it fail.
pub proof fn lemma_probe_failure(outcomes: Seq<OutcomeView>)
    ensures
        network_verdict(outcomes) is Err <==> !reached(outcomes) && exists|i: int|
            0 <= i < outcomes.len() && outcomes[i] is Failed,
        network_verdict(outcomes) is Err ==> exists|i: int|
            0 <= i < outcomes.len() && outcomes[i] == OutcomeView::Failed(
                network_verdict(outcomes)->Err_0->NetworkCheck_0,
            ),
{
    lemma_last_failure(outcomes);
}

/// Where every attempt was carried out and none connected, the probe ends
/// without an error and reports the network unavailable.
pub proof fn lemma_unreachable_is_no_error(outcomes: Seq<OutcomeView>)
    requires
        forall|i: int| 0 <= i < outcomes.len() ==> outcomes[i] is Unreachable,
    ensures
        network_verdict(outcomes) == Ok::<bool, ErrorView>(false),
{
    lemma_last_failure(outcomes);
}

/// The last failure is the cause of some attempt that could not be carried
/// out, and there is one whenever there was such an attempt.
proof fn lemma_last_failure(outcomes: Seq<OutcomeView>)
    ensures
        last_failure(outcomes) is Some <==> exists|i: int|
            0 <= i < outcomes.len() && outcomes[i] is Failed,
        last_failure(outcomes) is Some ==> exists|i: int|
            0 <= i < outcomes.len() && outcomes[i] == OutcomeView::Failed(
                last_failure(outcomes)->Some_0,
            ),
    decreases outcomes.len(),
{
    if outcomes.len() > 0 {
        let front = outcomes.drop_last();
        let at = outcomes.len() - 1;
        lemma_last_failure(front);
        match outcomes.last() {
            OutcomeView::Failed(cause) => {
                assert(outcomes[at] is Failed);
                assert(outcomes[at] == OutcomeView::Failed(cause));
            },
            _ => {
                if last_failure(front) is Some {
                    let i = choose|i: int|
                        0 <= i < front.len() && front[i] == OutcomeView::Failed(
                            last_failure(front)->Some_0,
                        );
                    assert(outcomes[i] == front[i]);
                }
                if exists|i: int| 0 <= i < outcomes.len() && outcomes[i] is Failed {
                    let i = choose|i: int| 0 <= i < outcomes.len() && outcomes[i] is Failed;
                    assert(i < at);
                    assert(front[i] is Failed);
                }
            },
        }
    }
}

} // verus!
