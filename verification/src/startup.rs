use vstd::prelude::*;

verus! {

/// The steps of bringing up the API and the indexers: the API runtime (only when the
/// API is enabled), then the indexer gRPC runtime, then the indexer runtime.
#[derive(Debug, Clone, Copy, PartialEq, Eq, Structural)]
pub enum ApiIndexerStep {
    StartApi,
    StartIndexerGrpc,
    StartIndexer,
    Done,
    Failed,
}

/// The first step: the API when it is enabled, else the indexer gRPC runtime.
pub fn api_indexer_first_step(api_enabled: bool) -> (step: ApiIndexerStep)
    ensures
        step == (if api_enabled {
            ApiIndexerStep::StartApi
        } else {
            ApiIndexerStep::StartIndexerGrpc
        }),
        step == api_indexer_first_step_spec(api_enabled),
{
    if api_enabled {
        ApiIndexerStep::StartApi
    } else {
        ApiIndexerStep::StartIndexerGrpc
    }
}

/// The step after `step`, given whether it succeeded: a failure stops the start-up,
/// a success moves on to the next runtime; `Done` and `Failed` stay where they are.
pub open spec fn spec_api_indexer_next_step(step: ApiIndexerStep, succeeded: bool) -> ApiIndexerStep {
    if !succeeded {
        ApiIndexerStep::Failed
    } else {
        match step {
            ApiIndexerStep::StartApi => ApiIndexerStep::StartIndexerGrpc,
            ApiIndexerStep::StartIndexerGrpc => ApiIndexerStep::StartIndexer,
            ApiIndexerStep::StartIndexer => ApiIndexerStep::Done,
            s => s,
        }
    }
}

pub fn api_indexer_next_step(step: ApiIndexerStep, succeeded: bool) -> (next: ApiIndexerStep)
    ensures
        !succeeded ==> next == ApiIndexerStep::Failed,
        succeeded ==> next == (match step {
            ApiIndexerStep::StartApi => ApiIndexerStep::StartIndexerGrpc,
            ApiIndexerStep::StartIndexerGrpc => ApiIndexerStep::StartIndexer,
            ApiIndexerStep::StartIndexer => ApiIndexerStep::Done,
            s => s,
        }),
        next == spec_api_indexer_next_step(step, succeeded),
{
    if !succeeded {
        return ApiIndexerStep::Failed;
    }
    match step {
        ApiIndexerStep::StartApi => ApiIndexerStep::StartIndexerGrpc,
        ApiIndexerStep::StartIndexerGrpc => ApiIndexerStep::StartIndexer,
        ApiIndexerStep::StartIndexer => ApiIndexerStep::Done,
        s => s,
    }
}

/// Where the start-up stands after the steps report the outcomes in `outcomes`, in
/// order, starting from `step`.
pub open spec fn api_indexer_run(step: ApiIndexerStep, outcomes: Seq<bool>) -> ApiIndexerStep
    decreases outcomes.len(),
{
    if outcomes.len() == 0 {
        step
    } else {
        api_indexer_run(spec_api_indexer_next_step(step, outcomes[0]), outcomes.drop_first())
    }
}

/// A run in which every step succeeds.
pub open spec fn all_succeed(n: nat) -> Seq<bool> {
    Seq::new(n, |i: int| true)
}

/// With every step succeeding, the start-up is done after three steps when the API is
/// enabled and after two when it is not, and not a step earlier.
pub proof fn lemma_api_indexer_completes(api_enabled: bool)
    ensures
        api_indexer_run(api_indexer_first_step_spec(api_enabled), all_succeed(if api_enabled { 3 } else { 2 }))
            == ApiIndexerStep::Done,
        api_enabled ==> api_indexer_run(api_indexer_first_step_spec(api_enabled), all_succeed(2))
            != ApiIndexerStep::Done,
        !api_enabled ==> api_indexer_run(api_indexer_first_step_spec(api_enabled), all_succeed(1))
            != ApiIndexerStep::Done,
{
    reveal_with_fuel(api_indexer_run, 4);
    assert(all_succeed(3).drop_first() =~= all_succeed(2));
    assert(all_succeed(2).drop_first() =~= all_succeed(1));
    assert(all_succeed(1).drop_first() =~= all_succeed(0));
}

/// The first step, as a spec function.
pub open spec fn api_indexer_first_step_spec(api_enabled: bool) -> ApiIndexerStep {
    if api_enabled {
        ApiIndexerStep::StartApi
    } else {
        ApiIndexerStep::StartIndexerGrpc
    }
}

/// The API runtime is started only when the API is enabled: from the first step, no
/// run of outcomes reaches `StartApi` unless it is that first step.
pub proof fn lemma_api_started_only_when_enabled(api_enabled: bool, outcomes: Seq<bool>)
    requires
        outcomes.len() > 0,
    ensures
        api_indexer_run(api_indexer_first_step_spec(api_enabled), outcomes)
            != ApiIndexerStep::StartApi,
{
    lemma_run_never_returns_to_api(api_indexer_first_step_spec(api_enabled), outcomes);
}

proof fn lemma_run_never_returns_to_api(step: ApiIndexerStep, outcomes: Seq<bool>)
    requires
        outcomes.len() > 0,
    ensures
        api_indexer_run(step, outcomes) != ApiIndexerStep::StartApi,
    decreases outcomes.len(),
{
    let next = spec_api_indexer_next_step(step, outcomes[0]);
    if outcomes.len() > 1 {
        lemma_run_never_returns_to_api(next, outcomes.drop_first());
    } else {
        assert(outcomes.drop_first().len() == 0);
        assert(api_indexer_run(next, outcomes.drop_first()) == next);
    }
}

/// A failed step is final: once any outcome is a failure, the start-up ends failed,
/// whatever comes after.
pub proof fn lemma_api_indexer_failure_is_final(step: ApiIndexerStep, outcomes: Seq<bool>, k: int)
    requires
        0 <= k < outcomes.len(),
        !outcomes[k],
    ensures
        api_indexer_run(step, outcomes) == ApiIndexerStep::Failed,
    decreases outcomes.len(),
{
    let next = spec_api_indexer_next_step(step, outcomes[0]);
    if k == 0 {
        lemma_failed_stays(outcomes.drop_first());
    } else {
        lemma_api_indexer_failure_is_final(next, outcomes.drop_first(), k - 1);
    }
}

proof fn lemma_failed_stays(outcomes: Seq<bool>)
    ensures
        api_indexer_run(ApiIndexerStep::Failed, outcomes) == ApiIndexerStep::Failed,
    decreases outcomes.len(),
{
    if outcomes.len() > 0 {
        lemma_failed_stays(outcomes.drop_first());
    }
}

/// How the peer monitoring service is run: the name of its runtime, and whether the
/// monitoring client is spawned beside the server.
#[derive(Debug, Clone, Copy, PartialEq, Eq)]
pub struct PeerMonitoringPlan {
    pub runtime_name: &'static str,
    pub spawn_client: bool,
}

/// The server always runs, on a runtime named `peer-mon`; the client runs beside it
/// exactly when the configuration enables it.
pub fn peer_monitoring_plan(enable_peer_monitoring_client: bool) -> (plan: PeerMonitoringPlan)
    ensures
        plan.runtime_name@ == "peer-mon"@,
        plan.spawn_client == enable_peer_monitoring_client,
{
    PeerMonitoringPlan { runtime_name: "peer-mon", spawn_client: enable_peer_monitoring_client }
}

} // verus!
