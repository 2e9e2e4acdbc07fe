use spt::batch::{
    BatchAction, BatchError, BatchEvent, BatchOutcome, BatchPhase, BatchPolicy, BatchProcessor,
    CheckpointKind, CheckpointRecord,
};
use spt::filter::AccountFilterOptions;
use spt::syspass::Account;

fn account(login: &str) -> Account {
    Account {
        name: format!("Name of {}", login),
        login: login.to_string(),
        category: "Apps".to_string(),
        client: "Acme".to_string(),
    }
}

fn policy(ignore_errors: bool, checkpoint_every: u16) -> BatchPolicy {
    BatchPolicy { ignore_errors, checkpoint_every, checkpoint_kind: CheckpointKind::Collected }
}

/// Drives a processor over one page of candidates; `fails` names the logins
/// on which the operation fails. Returns the logins that were applied, the
/// number of applied items at each checkpoint with what was saved, and the
/// outcome.
fn drive(
    processor: &mut BatchProcessor,
    first: BatchAction,
    page: &[Account],
    fails: &[&str],
) -> (Vec<String>, Vec<(usize, CheckpointRecord)>, BatchOutcome) {
    let mut applied = vec![];
    let mut saved = vec![];
    let mut action = first;
    let mut turned = false;
    loop {
        let event = match action {
            BatchAction::Fetch { cursor } => {
                if !turned && cursor < page.len() {
                    BatchEvent::Candidate(page[cursor].clone())
                } else {
                    BatchEvent::PageExhausted
                }
            }
            BatchAction::TurnPage => {
                turned = true;
                BatchEvent::SourceExhausted
            }
            BatchAction::Apply(item) => {
                applied.push(item.login.clone());
                if fails.contains(&item.login.as_str()) {
                    BatchEvent::Failed
                } else {
                    BatchEvent::Applied { collect: true }
                }
            }
            BatchAction::SaveCheckpoint(record) => {
                saved.push((applied.len(), record));
                BatchEvent::CheckpointWritten
            }
            BatchAction::Stop(outcome) => return (applied, saved, outcome),
        };
        action = processor.step(event).unwrap();
    }
}

fn five() -> Vec<Account> {
    vec![account("a1"), account("a2"), account("a3"), account("a4"), account("a5")]
}

#[test]
fn first_action_fetches_the_first_candidate() {
    let (_, first) = BatchProcessor::new(policy(false, 1), None, None, vec![]);
    assert_eq!(first, BatchAction::Fetch { cursor: 0 });
}

#[test]
fn one_failure_among_five_aborts_without_ignore_errors() {
    let (mut processor, first) = BatchProcessor::new(policy(false, 100), None, None, vec![]);
    let (applied, saved, outcome) = drive(&mut processor, first, &five(), &["a3"]);
    assert_eq!(applied, vec!["a1", "a2", "a3"]);
    assert!(saved.is_empty());
    assert_eq!(outcome, BatchOutcome { succeeded: false, had_errors: true });
    assert_eq!(processor.outcome(), outcome);
    assert_eq!(processor.into_results(), vec![account("a1"), account("a2")]);
}

#[test]
fn one_failure_among_five_goes_on_with_ignore_errors() {
    let (mut processor, first) = BatchProcessor::new(policy(true, 100), None, None, vec![]);
    let (applied, _, outcome) = drive(&mut processor, first, &five(), &["a3"]);
    assert_eq!(applied, vec!["a1", "a2", "a3", "a4", "a5"]);
    assert_eq!(outcome, BatchOutcome { succeeded: true, had_errors: true });
    assert_eq!(
        processor.into_results(),
        vec![account("a1"), account("a2"), account("a4"), account("a5")]
    );
}

#[test]
fn no_failure_succeeds_without_errors() {
    let (mut processor, first) = BatchProcessor::new(policy(false, 100), None, None, vec![]);
    let (applied, _, outcome) = drive(&mut processor, first, &five(), &[]);
    assert_eq!(applied.len(), 5);
    assert_eq!(outcome, BatchOutcome { succeeded: true, had_errors: false });
}

#[test]
fn cadence_two_with_five_successes_writes_twice() {
    let (mut processor, first) = BatchProcessor::new(policy(false, 2), None, None, vec![]);
    let (applied, saved, outcome) = drive(&mut processor, first, &five(), &[]);
    assert_eq!(applied.len(), 5);
    assert_eq!(outcome, BatchOutcome { succeeded: true, had_errors: false });
    assert_eq!(saved.len(), 2);
    assert_eq!(saved[0].0, 2);
    assert_eq!(saved[0].1, CheckpointRecord::Collected(vec![account("a1"), account("a2")]));
    assert_eq!(saved[1].0, 4);
    assert_eq!(
        saved[1].1,
        CheckpointRecord::Collected(vec![
            account("a1"),
            account("a2"),
            account("a3"),
            account("a4")
        ])
    );
}

#[test]
fn cadence_one_and_zero_write_after_every_success() {
    let (mut processor, first) = BatchProcessor::new(policy(false, 1), None, None, vec![]);
    let (_, saved, _) = drive(&mut processor, first, &five(), &[]);
    assert_eq!(saved.iter().map(|s| s.0).collect::<Vec<usize>>(), vec![1, 2, 3, 4, 5]);

    let (mut processor, first) = BatchProcessor::new(policy(false, 0), None, None, vec![]);
    let (_, saved, _) = drive(&mut processor, first, &five(), &[]);
    assert_eq!(saved.iter().map(|s| s.0).collect::<Vec<usize>>(), vec![1, 2, 3, 4, 5]);
}

#[test]
fn latest_checkpoint_holds_the_item_completed_last() {
    let latest = BatchPolicy {
        ignore_errors: false,
        checkpoint_every: 3,
        checkpoint_kind: CheckpointKind::Latest,
    };
    let (mut processor, first) = BatchProcessor::new(latest, None, None, vec![]);
    let (_, saved, _) = drive(&mut processor, first, &five(), &[]);
    assert_eq!(saved, vec![(3, CheckpointRecord::Latest(account("a3")))]);
}

#[test]
fn failures_do_not_count_towards_the_cadence() {
    let (mut processor, first) = BatchProcessor::new(policy(true, 2), None, None, vec![]);
    let (_, saved, _) = drive(&mut processor, first, &five(), &["a2"]);
    assert_eq!(saved.iter().map(|s| s.0).collect::<Vec<usize>>(), vec![3, 5]);
}

#[test]
fn resume_skips_up_to_and_with_the_checkpoint() {
    let (mut processor, first) =
        BatchProcessor::new(policy(false, 100), Some(account("a3")), None, vec![]);
    let (applied, _, outcome) = drive(&mut processor, first, &five(), &[]);
    assert_eq!(applied, vec!["a4", "a5"]);
    assert_eq!(outcome, BatchOutcome { succeeded: true, had_errors: false });
}

#[test]
fn resume_attaches_to_the_first_of_two_equal_candidates() {
    let page = vec![account("a1"), account("a2"), account("a1"), account("a3")];
    let (mut processor, first) =
        BatchProcessor::new(policy(false, 100), Some(account("a1")), None, vec![]);
    let (applied, _, _) = drive(&mut processor, first, &page, &[]);
    assert_eq!(applied, vec!["a2", "a1", "a3"]);
}

#[test]
fn filter_rejects_without_applying() {
    let filter = AccountFilterOptions {
        category_name: String::new(),
        client_name: String::new(),
        login_starts_with: "b".to_string(),
        name_starts_with: String::new(),
    };
    let page = vec![account("a1"), account("b1"), account("a2"), account("b2")];
    let (mut processor, first) =
        BatchProcessor::new(policy(false, 100), None, Some(filter), vec![]);
    let (applied, _, outcome) = drive(&mut processor, first, &page, &[]);
    assert_eq!(applied, vec!["b1", "b2"]);
    assert_eq!(outcome, BatchOutcome { succeeded: true, had_errors: false });
}

#[test]
fn pages_are_turned_and_the_cursor_starts_anew() {
    let (mut processor, first) = BatchProcessor::new(policy(false, 100), None, None, vec![]);
    assert_eq!(first, BatchAction::Fetch { cursor: 0 });
    assert_eq!(
        processor.step(BatchEvent::Candidate(account("a1"))),
        Ok(BatchAction::Apply(account("a1")))
    );
    assert_eq!(
        processor.step(BatchEvent::Applied { collect: false }),
        Ok(BatchAction::Fetch { cursor: 1 })
    );
    assert_eq!(processor.step(BatchEvent::PageExhausted), Ok(BatchAction::TurnPage));
    assert_eq!(processor.step(BatchEvent::PageTurned), Ok(BatchAction::Fetch { cursor: 0 }));
    assert_eq!(
        processor.step(BatchEvent::Candidate(account("a2"))),
        Ok(BatchAction::Apply(account("a2")))
    );
    assert_eq!(
        processor.step(BatchEvent::Applied { collect: true }),
        Ok(BatchAction::Fetch { cursor: 1 })
    );
    assert_eq!(processor.step(BatchEvent::PageExhausted), Ok(BatchAction::TurnPage));
    assert_eq!(
        processor.step(BatchEvent::SourceExhausted),
        Ok(BatchAction::Stop(BatchOutcome { succeeded: true, had_errors: false }))
    );
    assert_eq!(processor.into_results(), vec![account("a2")]);
}

#[test]
fn events_that_do_not_fit_the_phase_are_refused() {
    let (mut processor, _) = BatchProcessor::new(policy(false, 100), None, None, vec![]);
    assert_eq!(processor.step(BatchEvent::Failed), Err(BatchError::UnexpectedEvent));
    assert_eq!(
        processor.step(BatchEvent::Applied { collect: true }),
        Err(BatchError::UnexpectedEvent)
    );
    assert_eq!(processor.step(BatchEvent::CheckpointWritten), Err(BatchError::UnexpectedEvent));
    assert_eq!(processor.step(BatchEvent::PageTurned), Err(BatchError::UnexpectedEvent));
    assert_eq!(processor.step(BatchEvent::SourceExhausted), Err(BatchError::UnexpectedEvent));
    assert_eq!(
        processor.step(BatchEvent::Candidate(account("a1"))),
        Ok(BatchAction::Apply(account("a1")))
    );
    assert_eq!(
        processor.step(BatchEvent::Candidate(account("a2"))),
        Err(BatchError::UnexpectedEvent)
    );
    assert_eq!(processor.step(BatchEvent::PageExhausted), Err(BatchError::UnexpectedEvent));
    assert_eq!(
        processor.step(BatchEvent::Applied { collect: true }),
        Ok(BatchAction::Fetch { cursor: 1 })
    );
    assert_eq!(processor.step(BatchEvent::PageExhausted), Ok(BatchAction::TurnPage));
    assert_eq!(
        processor.step(BatchEvent::Candidate(account("a2"))),
        Err(BatchError::UnexpectedEvent)
    );
}

#[test]
fn unusable_candidate_fails_like_an_item() {
    let (mut processor, _) = BatchProcessor::new(policy(true, 100), None, None, vec![]);
    assert_eq!(processor.step(BatchEvent::Unusable), Ok(BatchAction::Fetch { cursor: 1 }));
    assert_eq!(processor.outcome(), BatchOutcome { succeeded: true, had_errors: true });

    let (mut processor, _) = BatchProcessor::new(policy(false, 100), None, None, vec![]);
    assert_eq!(
        processor.step(BatchEvent::Unusable),
        Ok(BatchAction::Stop(BatchOutcome { succeeded: false, had_errors: true }))
    );
}

#[test]
fn phases_follow_the_run() {
    let (mut processor, _) = BatchProcessor::new(policy(false, 1), None, None, vec![]);
    assert_eq!(processor.phase(), BatchPhase::Scanning);
    assert_eq!(processor.cursor(), 0);
    processor.step(BatchEvent::Candidate(account("a1"))).unwrap();
    assert_eq!(processor.phase(), BatchPhase::Processing);
    processor.step(BatchEvent::Applied { collect: true }).unwrap();
    assert_eq!(processor.phase(), BatchPhase::Checkpointing);
    assert_eq!(processor.successes(), 1);
    assert_eq!(processor.results(), &vec![account("a1")]);
    processor.step(BatchEvent::CheckpointWritten).unwrap();
    assert_eq!(processor.phase(), BatchPhase::Scanning);
    assert_eq!(processor.cursor(), 1);
    processor.step(BatchEvent::PageExhausted).unwrap();
    assert_eq!(processor.phase(), BatchPhase::Scanning);
    processor.step(BatchEvent::SourceExhausted).unwrap();
    assert_eq!(processor.phase(), BatchPhase::Completed);

    let (mut processor, _) = BatchProcessor::new(policy(false, 1), None, None, vec![]);
    processor.step(BatchEvent::Candidate(account("a1"))).unwrap();
    processor.step(BatchEvent::Failed).unwrap();
    assert_eq!(processor.phase(), BatchPhase::Aborted);
    assert_eq!(processor.successes(), 0);
}
