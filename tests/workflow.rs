use github_manager::models::Repository;
use github_manager::operations::{delete_outcome, DeleteError};
use github_manager::selection::SelectionError;
use github_manager::workflow::{confirms, Batch, BatchKind, PacingPolicy, Phase};

fn listing(n: usize) -> Vec<Repository> {
    (1..=n)
        .map(|i| {
            Repository::new(
                &format!("repo{}", i),
                "octo",
                &format!("https://github.com/octo/repo{}", i),
            )
        })
        .collect()
}

#[test]
fn phrases_are_exact_and_case_sensitive() {
    assert!(confirms(BatchKind::All, "Delete all"));
    assert!(confirms(BatchKind::All, "  Delete all\n"));
    assert!(!confirms(BatchKind::All, "delete all"));
    assert!(!confirms(BatchKind::All, "DELETE ALL"));
    assert!(confirms(BatchKind::Selected, "DELETE SELECTED\n"));
    assert!(!confirms(BatchKind::Selected, "Delete selected"));
}

#[test]
fn cancel_answer_deletes_nothing() {
    let repos = listing(3);
    let mut batch = Batch::delete_all(&repos, PacingPolicy::standard());
    assert_eq!(batch.phase(), Phase::AwaitConfirmation);
    assert!(batch.next_target().is_none());
    assert!(!batch.confirm("Cancel"));
    assert_eq!(batch.phase(), Phase::Cancelled);
    assert!(batch.next_target().is_none());
    assert!(batch.outcomes().is_empty());
    assert!(!batch.confirm("Delete all"));
    assert_eq!(batch.phase(), Phase::Cancelled);
}

#[test]
fn middle_failure_does_not_stop_batch() {
    let repos = listing(3);
    let mut batch = Batch::delete_all(&repos, PacingPolicy::standard());
    assert!(batch.confirm("Delete all"));
    assert_eq!(batch.phase(), Phase::Executing);
    let statuses = [204u16, 500, 204];
    let mut attempted = Vec::new();
    let mut pauses = Vec::new();
    let mut k = 0;
    while let Some(target) = batch.next_target() {
        attempted.push(target.name.clone());
        let name = target.name.clone();
        let outcome = delete_outcome(&name, Ok(statuses[k]));
        pauses.push(batch.record(outcome));
        k += 1;
    }
    assert_eq!(attempted, vec!["repo1", "repo2", "repo3"]);
    assert_eq!(pauses, vec![500, 500, 500]);
    assert_eq!(batch.phase(), Phase::Completed);
    let outcomes = batch.outcomes();
    assert!(outcomes[0].is_ok());
    assert!(matches!(&outcomes[1], Err(DeleteError::Status { name, status: 500 }) if name == "repo2"));
    assert!(outcomes[2].is_ok());
    assert_eq!(batch.succeeded(), 2);
    assert_eq!(batch.failed(), 1);
}

#[test]
fn pacing_can_skip_failures() {
    let repos = listing(2);
    let pacing = PacingPolicy { interval_ms: 100, after_failure: false };
    let mut batch = Batch::delete_all(&repos, pacing);
    assert!(batch.confirm("Delete all"));
    assert_eq!(batch.record(delete_outcome("repo1", Err("reset".to_string()))), 0);
    assert_eq!(batch.record(delete_outcome("repo2", Ok(200))), 100);
    assert_eq!(batch.phase(), Phase::Completed);
    let immediate = PacingPolicy::immediate();
    assert_eq!(immediate.interval_ms, 0);
}

#[test]
fn empty_listing_completes_at_once() {
    let repos = listing(0);
    let mut batch = Batch::delete_all(&repos, PacingPolicy::standard());
    assert!(batch.confirm("Delete all"));
    assert_eq!(batch.phase(), Phase::Completed);
    assert!(batch.next_target().is_none());
    assert_eq!(batch.succeeded(), 0);
    assert_eq!(batch.failed(), 0);
}

#[test]
fn selected_batch_follows_listing_order() {
    let repos = listing(5);
    let mut batch = Batch::delete_selected(&repos, "4, 2", PacingPolicy::standard()).unwrap();
    assert_eq!(batch.kind(), BatchKind::Selected);
    let names: Vec<&str> = batch.targets().iter().map(|t| t.name.as_str()).collect();
    assert_eq!(names, vec!["repo2", "repo4"]);
    assert!(batch.targets().iter().all(|t| t.owner == "octo"));
    assert!(!batch.confirm("Delete selected"));
    assert_eq!(batch.phase(), Phase::Cancelled);
}

#[test]
fn selected_batch_confirms_with_upper_case_phrase() {
    let repos = listing(3);
    let mut batch = Batch::delete_selected(&repos, "1,99", PacingPolicy::standard()).unwrap();
    assert_eq!(batch.targets().len(), 1);
    assert!(batch.confirm("DELETE SELECTED"));
    assert_eq!(batch.next_target().unwrap().name, "repo1");
}

#[test]
fn malformed_selection_makes_no_batch() {
    let repos = listing(5);
    assert!(matches!(
        Batch::delete_selected(&repos, "1,x,3", PacingPolicy::standard()),
        Err(SelectionError::InvalidFormat)
    ));
    assert!(matches!(
        Batch::delete_selected(&repos, "9", PacingPolicy::standard()),
        Err(SelectionError::NothingSelected)
    ));
}
