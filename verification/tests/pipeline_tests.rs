use fetch_pipeline::batch::{batch_results, combine_outcomes, Fault};
use fetch_pipeline::output::FetchOutcome;
use fetch_pipeline::pipeline::{drain_run, Dispatcher, DrainManager, DrainStatus};

#[test]
fn dispatcher_counts_admitted_batches() {
    let mut dispatcher = Dispatcher::new();
    assert!(dispatcher.is_accepting());
    assert_eq!(dispatcher.admitted(), 0);
    dispatcher.command_admitted();
    dispatcher.command_admitted();
    assert_eq!(dispatcher.admitted(), 2);
    assert!(dispatcher.is_accepting());
}

#[test]
fn exhausted_source_ends_admission() {
    let mut dispatcher = Dispatcher::new();
    dispatcher.command_admitted();
    dispatcher.source_exhausted();
    assert!(!dispatcher.is_accepting());
    assert_eq!(dispatcher.admitted(), 1);
}

#[test]
fn closed_drain_queue_is_a_fatal_admission_fault() {
    let mut dispatcher = Dispatcher::new();
    dispatcher.command_admitted();
    let fault = dispatcher.queue_unavailable();
    assert_eq!(fault, Fault::DrainClosed);
    assert!(!dispatcher.is_accepting());
}

#[test]
fn drain_manager_counts_faultless_batches() {
    let mut manager = DrainManager::new();
    assert!(manager.batch_resolved(Ok(())));
    assert!(manager.batch_resolved(Ok(())));
    assert_eq!(manager.drained(), 2);
    manager.queue_drained();
    assert_eq!(manager.current_status(), DrainStatus::Complete);
    assert_eq!(manager.verdict(), Ok(()));
}

#[test]
fn drain_manager_stops_at_the_first_fault() {
    let mut manager = DrainManager::new();
    assert!(manager.batch_resolved(Ok(())));
    assert!(!manager.batch_resolved(Err(Fault::SinkClosed)));
    assert_eq!(manager.current_status(), DrainStatus::Failed(Fault::SinkClosed));
    assert_eq!(manager.drained(), 1);
    assert_eq!(manager.verdict(), Err(Fault::SinkClosed));
}

#[test]
fn faultless_run_drains_whole() {
    let outcomes = vec![Ok(()), Ok(()), Ok(())];
    let manager = drain_run(&outcomes);
    assert_eq!(manager.current_status(), DrainStatus::Complete);
    assert_eq!(manager.drained(), 3);
    assert_eq!(manager.verdict(), Ok(()));
}

#[test]
fn run_fails_fast_on_the_first_faulted_batch() {
    let outcomes = vec![Ok(()), Err(Fault::SinkClosed), Ok(())];
    let manager = drain_run(&outcomes);
    assert_eq!(manager.current_status(), DrainStatus::Failed(Fault::SinkClosed));
    assert_eq!(manager.drained(), 1);
    assert_eq!(manager.verdict(), Err(Fault::SinkClosed));
}

#[test]
fn mixed_batch_delivers_both_results_without_fault() {
    let urls = vec![
        "http://ok.example".to_string(),
        "http://fail.example".to_string(),
    ];
    let outcomes = vec![
        FetchOutcome::Response {
            status: "200".to_string(),
            body: "hello world".to_string(),
        },
        FetchOutcome::Failed {
            status: None,
            message: "connection error".to_string(),
        },
    ];
    let results = batch_results(&urls, &outcomes);
    assert_eq!(results.len(), 2);
    assert_eq!(results[0].url, "http://ok.example");
    assert!(results[0].output.starts_with("200 hello world"));
    assert_eq!(results[1].url, "http://fail.example");
    assert!(results[1].output.starts_with("<none> "));

    // Every result was delivered, so no worker faulted and the pipeline
    // keeps accepting commands.
    let worker_outcomes = vec![Ok(()), Ok(())];
    assert_eq!(combine_outcomes(&worker_outcomes), Ok(()));
    let mut dispatcher = Dispatcher::new();
    dispatcher.command_admitted();
    assert!(dispatcher.is_accepting());
    dispatcher.command_admitted();
    assert_eq!(dispatcher.admitted(), 2);
}

#[test]
fn slow_and_fast_batches_never_mix_their_results() {
    // Two commands back to back: fetching "a" is slow, "b" is fast, so
    // "b"'s result reaches the sink first; each result still pairs its
    // own URL with its own output.
    let batch_a = batch_results(
        &vec!["a".to_string()],
        &vec![FetchOutcome::Response {
            status: "200".to_string(),
            body: "slow answer".to_string(),
        }],
    );
    let batch_b = batch_results(
        &vec!["b".to_string()],
        &vec![FetchOutcome::Response {
            status: "200".to_string(),
            body: "fast answer".to_string(),
        }],
    );
    let mut sink = Vec::new();
    sink.extend(batch_b);
    sink.extend(batch_a);
    assert_eq!(sink.len(), 2);
    assert_eq!(sink[0].url, "b");
    assert_eq!(sink[0].output, "200 fast answer");
    assert_eq!(sink[1].url, "a");
    assert_eq!(sink[1].output, "200 slow answer");
}
