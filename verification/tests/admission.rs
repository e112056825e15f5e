//! Target admission: CLI shapes, plans, and allowlist seeding.

use sikte::allowlist::{AllowlistError, NUM_ALLOWED_PIDS, PidAllowList};
use sikte::cli::{
    AdmissionError, AdmissionPlan, Cli, Commands, RecordArgs, Target, TargetArgs, TracingOptions,
    add_pids_to_allowlist, admission_plan,
};

#[test]
fn to_target_picks_the_given_form() {
    let args = TargetArgs { pid: Some(vec![1, 2, 3]), command: None };
    match args.to_target() {
        Target::Pid(pids) => assert_eq!(pids, vec![1, 2, 3]),
        other => panic!("expected a pid target, got {:?}", other),
    }
    let args = TargetArgs {
        pid: None,
        command: Some(vec!["sleep".to_string(), "1".to_string()]),
    };
    match args.to_target() {
        Target::Command(cmd) => assert_eq!(cmd, vec!["sleep", "1"]),
        other => panic!("expected a command target, got {:?}", other),
    }
}

#[test]
fn empty_command_is_a_user_error() {
    let target = Target::Command(vec![]);
    match admission_plan(&target) {
        Err(AdmissionError::EmptyCommand) => {}
        other => panic!("expected the empty-command error, got {:?}", other),
    }
}

#[test]
fn command_plan_splits_program_and_args() {
    let target = Target::Command(vec![
        "cat".to_string(),
        "/dev/zero".to_string(),
        "-".to_string(),
    ]);
    match admission_plan(&target).unwrap() {
        AdmissionPlan::Spawn { program, args } => {
            assert_eq!(program, "cat");
            assert_eq!(args, vec!["/dev/zero", "-"]);
        }
        other => panic!("expected a spawn plan, got {:?}", other),
    }
}

#[test]
fn pid_plan_keeps_the_list() {
    let target = Target::Pid(vec![10, 20]);
    match admission_plan(&target).unwrap() {
        AdmissionPlan::InsertPids(pids) => assert_eq!(pids, vec![10, 20]),
        other => panic!("expected an insert plan, got {:?}", other),
    }
}

#[test]
fn seeding_inserts_every_listed_pid() {
    let mut allow = PidAllowList::new();
    add_pids_to_allowlist(&mut allow, &vec![4, 5, 6, 5]).unwrap();
    assert!(allow.contains(4));
    assert!(allow.contains(5));
    assert!(allow.contains(6));
    assert!(!allow.contains(7));
    assert_eq!(allow.len(), 3);
}

/// Seeding succeeds exactly when the seeded set fits the map: a list that
/// would push the allowlist past its 1024 entries is refused as full.
#[test]
fn seeding_fails_exactly_when_capacity_is_exceeded() {
    let mut allow = PidAllowList::new();
    let exactly_full: Vec<i32> = (0..NUM_ALLOWED_PIDS as i32).collect();
    add_pids_to_allowlist(&mut allow, &exactly_full).unwrap();
    // re-seeding the same ids fits (nothing new) and succeeds
    add_pids_to_allowlist(&mut allow, &vec![0, 1, 2]).unwrap();
    // one new id no longer fits
    assert_eq!(
        add_pids_to_allowlist(&mut allow, &vec![0, -1]),
        Err(AllowlistError::Full)
    );
}

#[test]
fn allowlist_rejects_insertion_past_capacity() {
    let mut allow = PidAllowList::new();
    for pid in 0..NUM_ALLOWED_PIDS as i32 {
        allow.insert(pid).unwrap();
    }
    assert_eq!(allow.len(), NUM_ALLOWED_PIDS as usize);
    // a present key still succeeds; a new one is refused
    allow.insert(0).unwrap();
    assert_eq!(allow.insert(-1), Err(AllowlistError::Full));
    // removal frees a slot
    allow.remove(0).unwrap();
    allow.insert(-1).unwrap();
    assert_eq!(allow.remove(12345678), Err(AllowlistError::NotFound));
}

#[test]
fn recording_must_trace_something() {
    let cli = Cli {
        command: Commands::Record(RecordArgs {
            target: TargetArgs { pid: Some(vec![1]), command: None },
            options: TracingOptions { syscalls: false, perf_events: false },
        }),
    };
    assert!(!cli.is_valid());
    let cli = Cli {
        command: Commands::Record(RecordArgs {
            target: TargetArgs { pid: Some(vec![1]), command: None },
            options: TracingOptions { syscalls: true, perf_events: false },
        }),
    };
    assert!(cli.is_valid());
}
