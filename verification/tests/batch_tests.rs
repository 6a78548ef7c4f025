use fetch_pipeline::batch::{batch_results, combine_outcomes, Fault};
use fetch_pipeline::messages::Command;
use fetch_pipeline::output::FetchOutcome;

#[test]
fn batch_pairs_each_url_with_its_own_outcome() {
    let urls = vec!["http://a.example".to_string(), "http://b.example".to_string()];
    let outcomes = vec![
        FetchOutcome::Response {
            status: "200".to_string(),
            body: "alpha".to_string(),
        },
        FetchOutcome::Response {
            status: "500".to_string(),
            body: "beta".to_string(),
        },
    ];
    let results = batch_results(&urls, &outcomes);
    assert_eq!(results.len(), 2);
    assert_eq!(results[0].url, "http://a.example");
    assert_eq!(results[0].output, "200 alpha");
    assert_eq!(results[1].url, "http://b.example");
    assert_eq!(results[1].output, "500 beta");
}

#[test]
fn empty_command_delivers_nothing_and_succeeds() {
    let cmd = Command::new(Vec::new());
    assert_eq!(cmd.urls.len(), 0);
    let results = batch_results(&cmd.urls, &Vec::new());
    assert_eq!(results.len(), 0);
    let outcome = combine_outcomes(&Vec::new());
    assert_eq!(outcome, Ok(()));
}

#[test]
fn all_successful_workers_make_a_successful_batch() {
    let outcomes = vec![Ok(()), Ok(()), Ok(())];
    assert_eq!(combine_outcomes(&outcomes), Ok(()));
}

#[test]
fn first_fault_wins() {
    let outcomes = vec![Ok(()), Err(Fault::WorkerLost), Err(Fault::SinkClosed)];
    assert_eq!(combine_outcomes(&outcomes), Err(Fault::WorkerLost));
}

#[test]
fn sink_closure_faults_the_batch() {
    let outcomes = vec![Ok(()), Err(Fault::SinkClosed)];
    assert_eq!(combine_outcomes(&outcomes), Err(Fault::SinkClosed));
}

#[test]
fn lost_worker_faults_the_batch() {
    let outcomes = vec![Err(Fault::WorkerLost)];
    assert_eq!(combine_outcomes(&outcomes), Err(Fault::WorkerLost));
}

#[test]
fn batch_covers_submitted_url_set() {
    let cmd = Command::new(vec![
        "http://a.example".to_string(),
        "http://b.example".to_string(),
        "http://a.example".to_string(),
    ]);
    let outcomes: Vec<FetchOutcome> = cmd
        .urls
        .iter()
        .map(|_| FetchOutcome::Failed {
            status: None,
            message: "unreachable host".to_string(),
        })
        .collect();
    let results = batch_results(&cmd.urls, &outcomes);
    assert_eq!(results.len(), cmd.urls.len());
    let mut returned: Vec<&str> = results.iter().map(|r| r.url.as_str()).collect();
    let mut submitted: Vec<&str> = cmd.urls.iter().map(|u| u.as_str()).collect();
    returned.sort();
    submitted.sort();
    assert_eq!(returned, submitted);
}
