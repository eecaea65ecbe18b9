use base_search::phase::StartupPhase;

#[test]
fn every_phase_survives_the_trip_between_processes() {
    let phases = [
        StartupPhase::CheckingVersion,
        StartupPhase::CheckingFreeSpace,
        StartupPhase::CreatingBackup,
        StartupPhase::VerifyingBackup,
        StartupPhase::UpgradingStructure,
        StartupPhase::RebuildingFingerprints { done: 1_200, total: 5_000 },
        StartupPhase::ComputingTypedColumns { done: 0, total: 90_000 },
        StartupPhase::VerifyingUpgrade,
    ];
    for phase in phases {
        let line = phase.wire_line();
        assert_eq!(
            StartupPhase::parse_wire_line(&line),
            Some(phase),
            "{line} did not survive the round trip"
        );
    }
    // Distinct names, or two phases would be indistinguishable on the wire.
    let mut names: Vec<&str> = phases.iter().map(StartupPhase::wire_name).collect();
    names.sort_unstable();
    let count = names.len();
    names.dedup();
    assert_eq!(names.len(), count, "two phases share a wire name");
}

#[test]
fn ordinary_output_is_not_read_as_a_phase() {
    for line in [
        "[base-search] startup: configuring the database connection took 2.0s",
        "[base-search] phase",
        "[base-search] phase not_a_phase 0 0",
        "[base-search] phase creating_backup x y",
        "warning: something else entirely",
        "",
    ] {
        assert_eq!(
            StartupPhase::parse_wire_line(line),
            None,
            "{line:?} was mistaken for a phase"
        );
    }
}

#[test]
fn only_the_version_check_stays_quiet() {
    assert!(!StartupPhase::CheckingVersion.is_upgrade());
    assert!(StartupPhase::CheckingFreeSpace.is_upgrade());
    assert!(StartupPhase::CreatingBackup.is_upgrade());
    assert!(StartupPhase::VerifyingUpgrade.is_upgrade());
}

#[test]
fn a_phase_line_has_its_name_and_counts() {
    let phase = StartupPhase::RebuildingFingerprints { done: 7, total: u64::MAX };
    assert_eq!(
        phase.wire_line(),
        "[base-search] phase rebuilding_fingerprints 7 18446744073709551615"
    );
    assert_eq!(phase.progress(), Some((7, u64::MAX)));
    assert_eq!(
        StartupPhase::CreatingBackup.wire_line(),
        "[base-search] phase creating_backup 0 0"
    );
    assert_eq!(StartupPhase::CreatingBackup.progress(), None);
}

#[test]
fn a_phase_line_tolerates_blanks_and_further_words() {
    assert_eq!(
        StartupPhase::parse_wire_line("  [base-search] phase  verifying_upgrade\t1 +2 more\r\n"),
        Some(StartupPhase::VerifyingUpgrade)
    );
    assert_eq!(
        StartupPhase::parse_wire_line("[base-search] phase computing_typed_columns 1 18446744073709551616"),
        None
    );
    assert_eq!(StartupPhase::from_wire("creating", 0, 0), None);
}
