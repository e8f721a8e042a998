use diem_block_executor::{
    api_indexer_first_step, api_indexer_next_step, peer_monitoring_plan, ApiIndexerStep,
};

fn run(api_enabled: bool, outcomes: &[bool]) -> (ApiIndexerStep, Vec<ApiIndexerStep>) {
    let mut step = api_indexer_first_step(api_enabled);
    let mut visited = vec![step];
    for &ok in outcomes {
        step = api_indexer_next_step(step, ok);
        visited.push(step);
    }
    (step, visited)
}

#[test]
fn first_step_follows_api_flag() {
    assert_eq!(api_indexer_first_step(true), ApiIndexerStep::StartApi);
    assert_eq!(api_indexer_first_step(false), ApiIndexerStep::StartIndexerGrpc);
}

#[test]
fn next_step_on_success() {
    assert_eq!(api_indexer_next_step(ApiIndexerStep::StartApi, true), ApiIndexerStep::StartIndexerGrpc);
    assert_eq!(api_indexer_next_step(ApiIndexerStep::StartIndexerGrpc, true), ApiIndexerStep::StartIndexer);
    assert_eq!(api_indexer_next_step(ApiIndexerStep::StartIndexer, true), ApiIndexerStep::Done);
    assert_eq!(api_indexer_next_step(ApiIndexerStep::Done, true), ApiIndexerStep::Done);
    assert_eq!(api_indexer_next_step(ApiIndexerStep::Failed, true), ApiIndexerStep::Failed);
}

#[test]
fn next_step_on_failure() {
    for step in [
        ApiIndexerStep::StartApi,
        ApiIndexerStep::StartIndexerGrpc,
        ApiIndexerStep::StartIndexer,
        ApiIndexerStep::Done,
        ApiIndexerStep::Failed,
    ] {
        assert_eq!(api_indexer_next_step(step, false), ApiIndexerStep::Failed);
    }
}

#[test]
fn start_up_with_api_takes_three_steps() {
    let (end, visited) = run(true, &[true, true, true]);
    assert_eq!(end, ApiIndexerStep::Done);
    assert_eq!(
        visited,
        vec![
            ApiIndexerStep::StartApi,
            ApiIndexerStep::StartIndexerGrpc,
            ApiIndexerStep::StartIndexer,
            ApiIndexerStep::Done
        ]
    );
    assert_ne!(run(true, &[true, true]).0, ApiIndexerStep::Done);
}

#[test]
fn start_up_without_api_takes_two_steps() {
    let (end, visited) = run(false, &[true, true]);
    assert_eq!(end, ApiIndexerStep::Done);
    assert!(!visited.contains(&ApiIndexerStep::StartApi));
    assert_ne!(run(false, &[true]).0, ApiIndexerStep::Done);
}

#[test]
fn failure_is_final() {
    assert_eq!(run(true, &[false, true, true, true]).0, ApiIndexerStep::Failed);
    assert_eq!(run(true, &[true, true, false, true]).0, ApiIndexerStep::Failed);
    assert_eq!(run(false, &[true, false]).0, ApiIndexerStep::Failed);
}

#[test]
fn peer_monitoring_plan_follows_flag() {
    let with_client = peer_monitoring_plan(true);
    assert_eq!(with_client.runtime_name, "peer-mon");
    assert!(with_client.spawn_client);
    let without_client = peer_monitoring_plan(false);
    assert_eq!(without_client.runtime_name, "peer-mon");
    assert!(!without_client.spawn_client);
}
