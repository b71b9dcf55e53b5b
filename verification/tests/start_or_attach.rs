//! The start-or-attach protocol, driven on concrete observation schedules.

use flox_activations::activations::Activations;
use flox_activations::error::{Error, RestartableReason};
use flox_activations::start_or_attach::{
    check_for_activation_ready_and_attach_pid,
    wait_for_activation_ready_and_attach_pid,
    AttemptObservation,
    PollObservation,
    StartOrAttachArgs,
    ATTACH_TIMEOUT_MS,
    MAX_ATTEMPTS,
};

fn registry_with_record(store_path: &str, pid: u32, ready: bool) -> (Activations, String) {
    let mut activations = Activations::default();
    let id = activations
        .create_activation(store_path, pid)
        .expect("creating the first record should succeed");
    if ready {
        let i = activations
            .index_of_store_path(store_path)
            .expect("the record just created should be found");
        activations.set_ready_at(i);
    }
    (activations, id)
}

#[test]
fn attach_if_activation_exists() {
    let runtime_dir = "/run/user/1000/flox";
    let flox_env = "/path/to/floxenv";
    let store_path = "/store/path";
    let pid = 1234;

    let (activations, id) = registry_with_record(store_path, pid, true);
    let (polled, _) = registry_with_record(store_path, pid, true);

    let args = StartOrAttachArgs {
        pid,
        flox_env: flox_env.to_string(),
        store_path: store_path.to_string(),
    };

    let now = 1_000_000;
    let polls = vec![PollObservation {
        registry: Some(polled),
        now,
        starter_alive: true,
    }];

    let outcome = args
        .handle_inner(runtime_dir, Some(activations), now + ATTACH_TIMEOUT_MS, polls)
        .expect("handle_inner should succeed");

    assert!(outcome.output.contains("_FLOX_ATTACH=true"));
    assert!(outcome.output.contains(&format!(
        "_FLOX_ACTIVATION_STATE_DIR={}",
        flox_activations::activations::activation_state_dir_path(runtime_dir, flox_env, &id)
    )));
    assert!(outcome.output.contains(&format!("_FLOX_ACTIVATION_ID={}", id)));
}

#[test]
fn start_if_activation_does_not_exist() {
    let runtime_dir = "/run/user/1000/flox";
    let flox_env = "/path/to/floxenv";
    let store_path = "/store/path";
    let pid = 1234;

    let args = StartOrAttachArgs {
        pid,
        flox_env: flox_env.to_string(),
        store_path: store_path.to_string(),
    };

    let outcome = args
        .handle_inner(runtime_dir, None, ATTACH_TIMEOUT_MS, Vec::new())
        .expect("handle_inner should succeed");

    let id = outcome.activation_id.clone();
    assert!(outcome.output.contains("_FLOX_ATTACH=false"));
    assert!(outcome.output.contains(&format!(
        "_FLOX_ACTIVATION_STATE_DIR={}",
        flox_activations::activations::activation_state_dir_path(runtime_dir, flox_env, &id)
    )));
    assert!(outcome.output.contains(&format!("_FLOX_ACTIVATION_ID={}", id)));
}

#[test]
fn check_for_activation_not_ready() {
    let store_path = "/store/path";
    let pid = 1234;
    let attaching_pid = 5678;

    let now = 1_000_000;
    let attach_expiration = now + ATTACH_TIMEOUT_MS;

    let (mut activations, _) = registry_with_record(store_path, pid, false);

    let ready = check_for_activation_ready_and_attach_pid(
        &mut activations,
        store_path,
        attaching_pid,
        attach_expiration,
        now,
        true,
    )
    .expect("check_for_activation_ready_and_attach_pid should succeed with not ready");
    assert!(!ready);
}

/// When the activation is ready, the attaching PID should be attached to the
/// activation, and the return value should be true.
#[test]
fn check_for_activation_ready() {
    let store_path = "/store/path";
    let pid = 1234;
    let attaching_pid = 5678;

    let now = 1_000_000;
    let attach_expiration = now + ATTACH_TIMEOUT_MS;

    let (mut activations, _) = registry_with_record(store_path, pid, true);

    let ready = check_for_activation_ready_and_attach_pid(
        &mut activations,
        store_path,
        attaching_pid,
        attach_expiration,
        now,
        true,
    )
    .expect("check_for_activation_ready_and_attach_pid should succeed with not ready");

    assert!(ready, "Activation should be ready");

    let i = activations.index_of_store_path(store_path).unwrap();
    let attached = activations.get(i).attached_pids();
    let attached_pid = attached.iter().find(|p| p.pid == attaching_pid);
    assert!(attached_pid.is_some(), "PID should be attached");
}

#[test]
fn check_for_activation_fails_if_starting_process_is_dead() {
    let store_path = "/store/path";
    let pid = 7777;
    let attaching_pid = 5678;

    let now = 1_000_000;
    let attach_expiration = now + ATTACH_TIMEOUT_MS;

    let (mut activations, _) = registry_with_record(store_path, pid, false);

    let result = check_for_activation_ready_and_attach_pid(
        &mut activations,
        store_path,
        attaching_pid,
        attach_expiration,
        now,
        false,
    );

    assert!(
        result.is_err(),
        "check_for_activation_ready_and_attach_pid should fail"
    );
}

#[test]
fn check_for_activation_fails_if_starting_process_timeout_expires() {
    let store_path = "/store/path";
    let pid = 1234;
    let attaching_pid = 5678;

    let now = 1_000_000;
    // Set the expiration to be in the past
    let attach_expiration = now - ATTACH_TIMEOUT_MS;

    let (mut activations, _) = registry_with_record(store_path, pid, false);

    let result = check_for_activation_ready_and_attach_pid(
        &mut activations,
        store_path,
        attaching_pid,
        attach_expiration,
        now,
        true,
    );

    assert!(
        result.is_err(),
        "check_for_activation_ready_and_attach_pid should fail"
    );
}

#[test]
fn scenario_start_on_empty_registry() {
    // Empty registry, pid 100, build "/store/A": one new record, not attached.
    let args = StartOrAttachArgs {
        pid: 100,
        flox_env: "/env/A".to_string(),
        store_path: "/store/A".to_string(),
    };

    let outcome = args
        .handle_inner("/run/flox", None, ATTACH_TIMEOUT_MS, Vec::new())
        .expect("starting on an empty registry should succeed");

    assert!(!outcome.attached);
    assert_eq!(outcome.activations.len(), 1);
    let record = outcome.activations.get(0);
    assert_eq!(record.store_path().as_str(), "/store/A");
    assert_eq!(record.starter_pid(), 100);
    assert!(!record.ready());
    assert!(record.attached_pids().is_empty());
    assert_eq!(record.id(), &outcome.activation_id);
}

#[test]
fn scenario_attach_to_ready_record() {
    // A ready record for "/store/A": pid 200 attaches to it on the first
    // poll, and the persisted registry lists 200 on that record.
    let store_path = "/store/A";
    let (activations, id) = registry_with_record(store_path, 100, true);
    let (polled, _) = registry_with_record(store_path, 100, true);

    let args = StartOrAttachArgs {
        pid: 200,
        flox_env: "/env/A".to_string(),
        store_path: store_path.to_string(),
    };

    let now = 50_000;
    let polls = vec![PollObservation {
        registry: Some(polled),
        now,
        starter_alive: true,
    }];

    let outcome = args
        .handle_inner("/run/flox", Some(activations), now + ATTACH_TIMEOUT_MS, polls)
        .expect("attaching to a ready record should succeed");

    assert!(outcome.attached);
    assert_eq!(outcome.activation_id, id);
    let i = outcome.activations.index_of_store_path(store_path).unwrap();
    let attached = outcome.activations.get(i).attached_pids();
    assert_eq!(attached.iter().filter(|p| p.pid == 200).count(), 1);
}

#[test]
fn scenario_dead_starter_fails_restartable_after_retries() {
    // A record that is not ready whose starter is dead: every attempt fails
    // restartably, and after the bounded retries that failure surfaces.
    let store_path = "/store/A";

    let args = StartOrAttachArgs {
        pid: 200,
        flox_env: "/env/A".to_string(),
        store_path: store_path.to_string(),
    };

    let now = 50_000;
    let mut attempts = Vec::new();
    for _ in 0..MAX_ATTEMPTS {
        let (registry, _) = registry_with_record(store_path, 7777, false);
        let (polled, _) = registry_with_record(store_path, 7777, false);
        attempts.push(AttemptObservation {
            registry: Some(registry),
            attach_expiration: now + ATTACH_TIMEOUT_MS,
            polls: vec![PollObservation {
                registry: Some(polled),
                now,
                starter_alive: false,
            }],
        });
    }

    let err = args
        .handle("/run/flox", attempts)
        .expect_err("a dead starter should surface a failure");
    assert!(err.is_restartable());
    assert!(!err.is_timeout());
}

#[test]
fn scenario_expired_deadline_times_out_immediately() {
    // Deadline already past, starter alive, record not ready: the first
    // check fails with the fatal timeout, no sleep, no retry.
    let store_path = "/store/A";
    let (polled, _) = registry_with_record(store_path, 100, false);

    let now = 50_000;
    let polls = vec![PollObservation {
        registry: Some(polled),
        now,
        starter_alive: true,
    }];

    let (result, polls_used) =
        wait_for_activation_ready_and_attach_pid(polls, store_path, now - 10_000, 200);

    let err = result.expect_err("an expired deadline should fail the wait");
    assert!(matches!(err, Error::Timeout));
    assert!(!err.is_restartable());
    assert!(err.is_timeout());
    assert_eq!(polls_used, 1);
}

#[test]
fn wait_polls_until_ready_then_attaches() {
    // Two pending polls, then a ready one: the wait consumes exactly three
    // observations and hands back the registry with the caller attached.
    let store_path = "/store/A";
    let now = 50_000;

    let mut polls = Vec::new();
    for k in 0..3 {
        let (polled, _) = registry_with_record(store_path, 100, k == 2);
        polls.push(PollObservation {
            registry: Some(polled),
            now: now + 100 * k,
            starter_alive: true,
        });
    }

    let (result, polls_used) =
        wait_for_activation_ready_and_attach_pid(polls, store_path, now + ATTACH_TIMEOUT_MS, 200);

    let activations = result.expect("the wait should end attached");
    assert_eq!(polls_used, 3);
    let i = activations.index_of_store_path(store_path).unwrap();
    assert!(activations.get(i).attached_pids().iter().any(|p| p.pid == 200));
}

#[test]
fn ready_record_attaches_without_sleep() {
    // A record that is already ready: the wait ends on the very first poll,
    // so the caller never sleeps.
    let store_path = "/store/A";
    let now = 50_000;
    let (polled, _) = registry_with_record(store_path, 100, true);

    let polls = vec![PollObservation {
        registry: Some(polled),
        now,
        starter_alive: true,
    }];

    let (result, polls_used) =
        wait_for_activation_ready_and_attach_pid(polls, store_path, now + ATTACH_TIMEOUT_MS, 200);

    assert!(result.is_ok());
    assert_eq!(polls_used, 1);
}

#[test]
fn wait_fails_restartable_when_record_vanishes() {
    // The record disappeared between the first read and the wait: the prior
    // activation completed before it could be attached to.
    let store_path = "/store/A";
    let now = 50_000;

    let polls = vec![PollObservation {
        registry: Some(Activations::default()),
        now,
        starter_alive: true,
    }];

    let (result, polls_used) =
        wait_for_activation_ready_and_attach_pid(polls, store_path, now + ATTACH_TIMEOUT_MS, 200);

    let err = result.expect_err("a vanished record should fail the wait");
    assert!(err.is_restartable());
    assert_eq!(polls_used, 1);
}

#[test]
fn wait_fails_restartable_when_registry_file_missing() {
    // A re-read that finds no registry document at all fails like a
    // vanished record: restartably, so the whole decision is retried from
    // scratch (and would then start on an empty registry).
    let now = 50_000;
    let polls = vec![PollObservation {
        registry: None,
        now,
        starter_alive: true,
    }];

    let (result, polls_used) =
        wait_for_activation_ready_and_attach_pid(polls, "/store/A", now + ATTACH_TIMEOUT_MS, 200);

    let err = result.expect_err("a missing registry document should fail the wait");
    assert!(matches!(
        err,
        Error::RestartableFailure(RestartableReason::ActivationVanished)
    ));
    assert!(err.is_restartable());
    assert!(!err.is_timeout());
    assert_eq!(polls_used, 1);
}

#[test]
fn attaching_twice_keeps_one_entry() {
    // Attaching the same pid twice is idempotent: the pid is listed once.
    let store_path = "/store/A";
    let (mut activations, _) = registry_with_record(store_path, 100, true);

    let now = 50_000;
    for _ in 0..2 {
        let ready = check_for_activation_ready_and_attach_pid(
            &mut activations,
            store_path,
            5678,
            now + ATTACH_TIMEOUT_MS,
            now,
            true,
        )
        .expect("attaching to a ready record should succeed");
        assert!(ready);
    }

    let i = activations.index_of_store_path(store_path).unwrap();
    let attached = activations.get(i).attached_pids();
    assert_eq!(attached.len(), 1);
    assert_eq!(attached[0].pid, 5678);
}

#[test]
fn first_non_restartable_attempt_decides() {
    // One restartable failure, then a ready record: the retry wrapper
    // settles on the second attempt's success.
    let store_path = "/store/A";
    let now = 50_000;

    let vanished = AttemptObservation {
        registry: Some(registry_with_record(store_path, 100, false).0),
        attach_expiration: now + ATTACH_TIMEOUT_MS,
        polls: vec![PollObservation {
            registry: Some(Activations::default()),
            now,
            starter_alive: true,
        }],
    };
    let (registry, id) = registry_with_record(store_path, 100, true);
    let (polled, _) = registry_with_record(store_path, 100, true);
    let succeeding = AttemptObservation {
        registry: Some(registry),
        attach_expiration: now + ATTACH_TIMEOUT_MS,
        polls: vec![PollObservation {
            registry: Some(polled),
            now,
            starter_alive: true,
        }],
    };
    let spare = AttemptObservation {
        registry: None,
        attach_expiration: now + ATTACH_TIMEOUT_MS,
        polls: Vec::new(),
    };

    let args = StartOrAttachArgs {
        pid: 200,
        flox_env: "/env/A".to_string(),
        store_path: store_path.to_string(),
    };

    let outcome = args
        .handle("/run/flox", vec![vanished, succeeding, spare])
        .expect("the second attempt should succeed");
    assert!(outcome.attached);
    assert_eq!(outcome.activation_id, id);
}
