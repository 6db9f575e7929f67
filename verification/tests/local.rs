use solana_verify::digest::get_binary_hash;
use solana_verify::local::{
    account_payload, compare_hashes, exit_code, local_step, verify_local, Comparison, LocalAction,
    LocalError, LocalEvent, LocalSource, LocalState, EXIT_FAILED, EXIT_OK,
};

fn failed(diagnostic: &str) -> LocalEvent {
    LocalEvent::Failed { diagnostic: diagnostic.to_string() }
}

/// Feeds the events to a fresh run and gives back the actions it asked for.
fn run(source: LocalSource, events: Vec<LocalEvent>) -> Vec<LocalAction> {
    let mut state = LocalState::Idle;
    let mut actions = Vec::new();
    for event in events {
        let (next, action) = local_step(source, state, event);
        state = next;
        actions.push(action);
    }
    actions
}

fn released_before_finish(actions: &[LocalAction]) -> bool {
    let mut prepared = false;
    let mut released = false;
    for action in actions {
        match action {
            LocalAction::Prepare => prepared = true,
            LocalAction::Release => released = true,
            LocalAction::Finish { .. } => {
                if prepared && !released {
                    return false;
                }
            }
            _ => {}
        }
    }
    true
}

#[test]
fn padded_on_chain_buffer_matches_the_local_file() {
    let on_chain = vec![0x7f, 0x45, 0x4c, 0x46, 0, 0, 0, 0];
    let local_file = vec![0x7f, 0x45, 0x4c, 0x46];
    let verdict = verify_local(local_file, on_chain);
    let hash = get_binary_hash(vec![0x7f, 0x45, 0x4c, 0x46]);
    assert_eq!(
        verdict,
        Ok(Comparison { executable_hash: hash.clone(), program_hash: hash })
    );
    assert_eq!(exit_code(&verdict), 0);
}

#[test]
fn different_bytes_are_a_verification_mismatch() {
    let on_chain = vec![0x01, 0x02];
    let local_file = vec![0x01, 0x03];
    let verdict = verify_local(local_file, on_chain);
    assert_eq!(
        verdict,
        Err(LocalError::VerificationMismatch {
            executable_hash: get_binary_hash(vec![0x01, 0x03]),
            program_hash: get_binary_hash(vec![0x01, 0x02]),
        })
    );
    assert_ne!(exit_code(&verdict), 0);
}

#[test]
fn hashes_match_exactly_when_they_are_the_same_text() {
    assert_eq!(
        compare_hashes("ab".to_string(), "ab".to_string()),
        Ok(Comparison { executable_hash: "ab".to_string(), program_hash: "ab".to_string() })
    );
    assert_eq!(
        compare_hashes("ab".to_string(), "AB".to_string()),
        Err(LocalError::VerificationMismatch {
            executable_hash: "ab".to_string(),
            program_hash: "AB".to_string(),
        })
    );
    assert_eq!(
        compare_hashes(String::new(), "ab".to_string()),
        Err(LocalError::VerificationMismatch {
            executable_hash: String::new(),
            program_hash: "ab".to_string(),
        })
    );
}

#[test]
fn exit_code_is_zero_after_a_match_only() {
    assert_eq!(EXIT_OK, 0);
    assert_eq!(EXIT_FAILED, 1);
    let good = Ok(Comparison { executable_hash: "h".to_string(), program_hash: "h".to_string() });
    assert_eq!(exit_code(&good), 0);
    assert_eq!(exit_code(&Err(LocalError::OutOfTurn)), 1);
    assert_eq!(exit_code(&Err(LocalError::RpcFailure { diagnostic: "d".to_string() })), 1);
    assert_eq!(exit_code(&Err(LocalError::BuildFailure { diagnostic: "d".to_string() })), 1);
}

#[test]
fn account_payload_starts_behind_the_metadata() {
    assert_eq!(account_payload(vec![9, 9, 9, 1, 2, 0], 3), vec![1, 2, 0]);
    assert_eq!(account_payload(vec![1, 2], 0), vec![1, 2]);
    assert_eq!(account_payload(vec![1, 2], 2), Vec::<u8>::new());
    let mut account = vec![0xff; 45];
    account.extend([0x7f, 0x45, 0x4c, 0x46, 0, 0]);
    assert_eq!(
        get_binary_hash(account_payload(account, 45)),
        get_binary_hash(vec![0x7f, 0x45, 0x4c, 0x46])
    );
}

#[test]
fn repository_run_builds_and_releases() {
    let hash = get_binary_hash(vec![1, 2, 3]);
    let actions = run(
        LocalSource::Repository,
        vec![
            LocalEvent::Started,
            LocalEvent::Prepared,
            LocalEvent::Built,
            LocalEvent::ExecutableRead { bytes: vec![1, 2, 3] },
            LocalEvent::ProgramDataFetched { bytes: vec![1, 2, 3, 0, 0] },
            LocalEvent::Released,
        ],
    );
    assert_eq!(
        actions,
        vec![
            LocalAction::Prepare,
            LocalAction::Build,
            LocalAction::ReadExecutable,
            LocalAction::FetchProgramData,
            LocalAction::Release,
            LocalAction::Finish {
                verdict: Ok(Comparison { executable_hash: hash.clone(), program_hash: hash }),
            },
        ]
    );
}

#[test]
fn image_run_skips_the_build() {
    let actions = run(
        LocalSource::Image,
        vec![
            LocalEvent::Started,
            LocalEvent::Prepared,
            LocalEvent::ExecutableRead { bytes: vec![1, 2] },
            LocalEvent::ProgramDataFetched { bytes: vec![1, 3] },
            LocalEvent::Released,
        ],
    );
    assert_eq!(
        actions,
        vec![
            LocalAction::Prepare,
            LocalAction::ReadExecutable,
            LocalAction::FetchProgramData,
            LocalAction::Release,
            LocalAction::Finish {
                verdict: Err(LocalError::VerificationMismatch {
                    executable_hash: get_binary_hash(vec![1, 2]),
                    program_hash: get_binary_hash(vec![1, 3]),
                }),
            },
        ]
    );
}

#[test]
fn every_failure_releases_the_workspace_first() {
    let cases: Vec<(Vec<LocalEvent>, LocalError)> = vec![
        (vec![LocalEvent::Started, failed("clone")], LocalError::WorkspaceFailure { diagnostic: "clone".to_string() }),
        (
            vec![LocalEvent::Started, LocalEvent::Prepared, failed("cargo")],
            LocalError::BuildFailure { diagnostic: "cargo".to_string() },
        ),
        (
            vec![LocalEvent::Started, LocalEvent::Prepared, LocalEvent::Built, failed("no file")],
            LocalError::ExecutableUnreadable { diagnostic: "no file".to_string() },
        ),
        (
            vec![
                LocalEvent::Started,
                LocalEvent::Prepared,
                LocalEvent::Built,
                LocalEvent::ExecutableRead { bytes: vec![1] },
                failed("rpc"),
            ],
            LocalError::RpcFailure { diagnostic: "rpc".to_string() },
        ),
        (vec![LocalEvent::Started, LocalEvent::Built], LocalError::OutOfTurn),
    ];
    for (mut events, error) in cases {
        events.push(LocalEvent::Released);
        let actions = run(LocalSource::Repository, events);
        let n = actions.len();
        assert_eq!(actions[n - 2], LocalAction::Release);
        assert_eq!(actions[n - 1], LocalAction::Finish { verdict: Err(error) });
        assert!(released_before_finish(&actions));
    }
}

#[test]
fn failed_release_spoils_a_good_verdict_and_keeps_a_bad_one() {
    let good = run(
        LocalSource::Image,
        vec![
            LocalEvent::Started,
            LocalEvent::Prepared,
            LocalEvent::ExecutableRead { bytes: vec![5] },
            LocalEvent::ProgramDataFetched { bytes: vec![5, 0] },
            failed("rm"),
        ],
    );
    assert_eq!(
        good[4],
        LocalAction::Finish { verdict: Err(LocalError::CleanupFailure { diagnostic: "rm".to_string() }) }
    );
    let bad = run(LocalSource::Image, vec![LocalEvent::Started, failed("docker"), failed("rm")]);
    assert_eq!(
        bad,
        vec![
            LocalAction::Prepare,
            LocalAction::Release,
            LocalAction::Finish {
                verdict: Err(LocalError::WorkspaceFailure { diagnostic: "docker".to_string() }),
            },
        ]
    );
}

#[test]
fn no_event_order_finishes_before_the_release() {
    let kinds = 7usize;
    let make = |k: usize| match k {
        0 => LocalEvent::Started,
        1 => LocalEvent::Prepared,
        2 => LocalEvent::Built,
        3 => LocalEvent::ExecutableRead { bytes: vec![1, 0] },
        4 => LocalEvent::ProgramDataFetched { bytes: vec![1] },
        5 => LocalEvent::Released,
        _ => LocalEvent::Failed { diagnostic: "x".to_string() },
    };
    for code in 0..kinds.pow(4) {
        let events: Vec<LocalEvent> = (0..4).map(|i| make(code / kinds.pow(i) % kinds)).collect();
        for source in [LocalSource::Repository, LocalSource::Image] {
            let mut all = vec![LocalEvent::Started];
            all.extend(events.iter().map(|e| match e {
                LocalEvent::Started => LocalEvent::Started,
                LocalEvent::Prepared => LocalEvent::Prepared,
                LocalEvent::Built => LocalEvent::Built,
                LocalEvent::ExecutableRead { bytes } => LocalEvent::ExecutableRead { bytes: bytes.clone() },
                LocalEvent::ProgramDataFetched { bytes } => {
                    LocalEvent::ProgramDataFetched { bytes: bytes.clone() }
                }
                LocalEvent::Released => LocalEvent::Released,
                LocalEvent::Failed { diagnostic } => LocalEvent::Failed { diagnostic: diagnostic.clone() },
            }));
            assert!(released_before_finish(&run(source, all)));
        }
    }
}

#[test]
fn run_that_never_started_finishes_at_once() {
    assert_eq!(
        run(LocalSource::Repository, vec![LocalEvent::Released]),
        vec![LocalAction::Finish { verdict: Err(LocalError::OutOfTurn) }]
    );
    assert_eq!(
        local_step(LocalSource::Image, LocalState::Closed, LocalEvent::Started),
        (LocalState::Closed, LocalAction::Finish { verdict: Err(LocalError::OutOfTurn) })
    );
}

#[test]
fn event_out_of_turn_during_the_release_spoils_a_good_verdict() {
    let good = run(
        LocalSource::Image,
        vec![
            LocalEvent::Started,
            LocalEvent::Prepared,
            LocalEvent::ExecutableRead { bytes: vec![5] },
            LocalEvent::ProgramDataFetched { bytes: vec![5] },
            LocalEvent::Built,
        ],
    );
    assert_eq!(good[4], LocalAction::Finish { verdict: Err(LocalError::OutOfTurn) });
    let bad = run(LocalSource::Image, vec![LocalEvent::Started, failed("docker"), LocalEvent::Built]);
    assert_eq!(
        bad[2],
        LocalAction::Finish {
            verdict: Err(LocalError::WorkspaceFailure { diagnostic: "docker".to_string() }),
        }
    );
}
