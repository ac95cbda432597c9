use manual_seal::command::SealCommand;
use manual_seal::errors::{SealError, SealOutcome};
use manual_seal::session::{run_manual_session, AttemptScript, ImportResult, ProposalResult};

fn command(ticket: u64) -> SealCommand {
    SealCommand { max_transactions: None, inherent_overrides: None, ticket }
}

fn imported(block_id: Vec<u8>) -> AttemptScript {
    AttemptScript {
        proposal: ProposalResult::Ready { transactions: 1, mandatory_inherents: 1 },
        import: ImportResult::Imported { block_id },
    }
}

#[test]
fn every_command_gets_exactly_one_outcome_in_order() {
    // Three commands, three serial cycles, outcomes reported in submission
    // order on each command's own ticket.
    let commands = vec![command(10), command(20), command(30)];
    let script = vec![
        imported(vec![1]),
        AttemptScript {
            proposal: ProposalResult::TimedOut,
            import: ImportResult::Imported { block_id: vec![99] },
        },
        AttemptScript {
            proposal: ProposalResult::Ready { transactions: 0, mandatory_inherents: 0 },
            import: ImportResult::Rejected { reason: String::from("invalid state transition") },
        },
    ];
    let outcomes = run_manual_session(commands, script);
    assert_eq!(outcomes.len(), 3);
    assert_eq!(
        outcomes[0],
        (10, SealOutcome::Sealed { block_id: vec![1] })
    );
    assert_eq!(
        outcomes[1],
        (20, SealOutcome::Failed { error: SealError::ProposalTimeout })
    );
    assert_eq!(
        outcomes[2],
        (
            30,
            SealOutcome::Failed {
                error: SealError::ImportRejected {
                    reason: String::from("invalid state transition"),
                },
            }
        )
    );
}

#[test]
fn fatal_failure_fails_every_later_command() {
    let commands = vec![command(1), command(2), command(3), command(4)];
    let script = vec![
        imported(vec![7]),
        AttemptScript {
            proposal: ProposalResult::Ready { transactions: 2, mandatory_inherents: 0 },
            import: ImportResult::Fatal,
        },
        // These scripted results are never reached: no attempt starts after
        // the fatal failure.
        imported(vec![8]),
        imported(vec![9]),
    ];
    let outcomes = run_manual_session(commands, script);
    assert_eq!(outcomes.len(), 4);
    assert_eq!(outcomes[0], (1, SealOutcome::Sealed { block_id: vec![7] }));
    assert_eq!(
        outcomes[1],
        (2, SealOutcome::Failed { error: SealError::ClientFatal })
    );
    assert_eq!(
        outcomes[2],
        (3, SealOutcome::Failed { error: SealError::EngineShutdown })
    );
    assert_eq!(
        outcomes[3],
        (4, SealOutcome::Failed { error: SealError::EngineShutdown })
    );
}

#[test]
fn an_empty_session_produces_no_outcome() {
    let outcomes = run_manual_session(Vec::new(), Vec::new());
    assert!(outcomes.is_empty());
}

#[test]
fn transient_failures_do_not_stop_later_commands() {
    let commands = vec![command(1), command(2), command(3)];
    let script = vec![
        AttemptScript { proposal: ProposalResult::TimedOut, import: ImportResult::Fatal },
        AttemptScript {
            proposal: ProposalResult::Ready { transactions: 1, mandatory_inherents: 0 },
            import: ImportResult::Rejected { reason: String::from("stale parent") },
        },
        imported(vec![42]),
    ];
    let outcomes = run_manual_session(commands, script);
    // A timeout never reaches the import, so the scripted Fatal behind it is
    // immaterial; both transient failures leave the engine usable.
    assert_eq!(
        outcomes[0],
        (1, SealOutcome::Failed { error: SealError::ProposalTimeout })
    );
    assert_eq!(
        outcomes[1],
        (
            2,
            SealOutcome::Failed {
                error: SealError::ImportRejected { reason: String::from("stale parent") },
            }
        )
    );
    assert_eq!(outcomes[2], (3, SealOutcome::Sealed { block_id: vec![42] }));
}
