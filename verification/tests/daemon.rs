use nixos_updater::daemon::{
    Action, BootLinks, Event, Phase, RebootReport, Step, UpgradeCommand, UpgradeNeeds,
    UpgradeProcess, UpgradeRun, UpgradeState,
};
use nixos_updater::errors::{BuildError, StorePathError, UpdateError, UpgradeError};
use nixos_updater::nix::flake::FlakeConfig;
use nixos_updater::nix::store::StorePath;
use nixos_updater::nix::{BuildOutput, Profile};

const CURRENT: &[u8] = b"/nix/store/aaaa-nixos-system-host-24.05";
const BUILT: &[u8] = b"/nix/store/bbbb-nixos-system-host-24.05";

fn store_path(bytes: &[u8]) -> StorePath {
    StorePath::new(bytes, None).unwrap()
}

fn links(initrd: &str, kernel: &str, modules: &str) -> BootLinks {
    BootLinks {
        initrd: Some(initrd.as_bytes().to_vec()),
        kernel: Some(kernel.as_bytes().to_vec()),
        kernel_modules: Some(modules.as_bytes().to_vec()),
    }
}

fn build_output(path: &[u8]) -> BuildOutput {
    BuildOutput::from_temp(mktemp::Temp::new_path(), Ok(path.to_vec())).unwrap()
}

fn process() -> UpgradeProcess<FlakeConfig> {
    UpgradeProcess::for_flake(FlakeConfig::from_url_and_config_name("/etc/nixos", "host"))
}

/// Hands an event to the run and gathers what was entered.
fn feed(
    run: UpgradeRun<FlakeConfig>,
    event: Event,
    seen: &mut Vec<UpgradeState>,
) -> (UpgradeRun<FlakeConfig>, Action) {
    let (run, step) = run.resume(event);
    let Step { emitted, action } = step.expect("the run waits for this event");
    seen.extend(emitted);
    (run, action)
}

/// Drives a run up to the point where the boot paths were compared.
fn run_to_comparison(
    current: BootLinks,
    candidate: BootLinks,
) -> (UpgradeRun<FlakeConfig>, Action, Vec<UpgradeState>) {
    let (run, first) = process().run();
    let mut seen = first.emitted;
    assert!(matches!(first.action, Action::Update));
    let (run, action) = feed(run, Event::Updated(Ok(true)), &mut seen);
    assert!(matches!(action, Action::Build));
    let (run, action) = feed(run, Event::Built(Ok(build_output(BUILT))), &mut seen);
    match action {
        Action::ResolveProfile(p) => assert_eq!(p, b"/nix/var/nix/profiles/system"),
        other => panic!("unexpected: {:?}", other),
    }
    let (run, action) = feed(run, Event::ProfileResolved(Some(CURRENT.to_vec())), &mut seen);
    match action {
        Action::ResolveBootLinks(from, to) => {
            assert_eq!(from.initrd, [CURRENT, b"/initrd"].concat());
            assert_eq!(from.kernel, [CURRENT, b"/kernel"].concat());
            assert_eq!(from.kernel_modules, [CURRENT, b"/kernel-modules"].concat());
            assert_eq!(to.initrd, [BUILT, b"/initrd"].concat());
            assert_eq!(to.kernel, [BUILT, b"/kernel"].concat());
            assert_eq!(to.kernel_modules, [BUILT, b"/kernel-modules"].concat());
        }
        other => panic!("unexpected: {:?}", other),
    }
    let (run, action) = feed(run, Event::BootLinksResolved(current, candidate), &mut seen);
    (run, action, seen)
}

fn same_boot() -> (BootLinks, BootLinks) {
    (
        links("/nix/store/i-initrd/initrd", "/nix/store/k-linux/bzImage", "/nix/store/m-modules"),
        links("/nix/store/i-initrd/initrd", "/nix/store/k-linux/bzImage", "/nix/store/m-modules"),
    )
}

fn other_kernel() -> (BootLinks, BootLinks) {
    (
        links("/nix/store/i-initrd/initrd", "/nix/store/k-linux/bzImage", "/nix/store/m-modules"),
        links("/nix/store/i-initrd/initrd", "/nix/store/k2-linux/bzImage", "/nix/store/m2-modules"),
    )
}

#[test]
fn compare_is_reflexive() {
    let p = store_path(CURRENT);
    let (a, b) = other_kernel();
    assert_eq!(UpgradeNeeds::compare(&p, &p, a, b).unwrap(), UpgradeNeeds::Nothing);
    let q = store_path(b"/nix/store//aaaa-nixos-system-host-24.05/");
    let (a, b) = same_boot();
    assert_eq!(UpgradeNeeds::compare(&p, &q, a, b).unwrap(), UpgradeNeeds::Nothing);
}

#[test]
fn compare_over_all_combinations_of_equal_boot_paths() {
    let a = store_path(CURRENT);
    let b = store_path(BUILT);
    for bits in 0u8..8 {
        let initrd_same = bits & 1 != 0;
        let kernel_same = bits & 2 != 0;
        let modules_same = bits & 4 != 0;
        let from = links("/nix/store/i1", "/nix/store/k1", "/nix/store/m1");
        let to = links(
            if initrd_same { "/nix/store/i1" } else { "/nix/store/i2" },
            if kernel_same { "/nix/store/k1" } else { "/nix/store/k2" },
            if modules_same { "/nix/store/m1" } else { "/nix/store/m2" },
        );
        let expected = if initrd_same && kernel_same && modules_same {
            UpgradeNeeds::Switch
        } else {
            UpgradeNeeds::Reboot
        };
        assert_eq!(UpgradeNeeds::compare(&a, &b, from, to).unwrap(), expected, "{}", bits);
    }
}

#[test]
fn compare_fails_on_a_boot_path_outside_the_store() {
    let a = store_path(CURRENT);
    let b = store_path(BUILT);
    let from = links("/nix/store/i1", "/boot/kernel", "/nix/store/m1");
    let to = links("/nix/store/i1", "/nix/store/k1", "/nix/store/m1");
    match UpgradeNeeds::compare(&a, &b, from, to) {
        Err(StorePathError::NotInStore(s)) => assert_eq!(s, "/boot/kernel"),
        other => panic!("unexpected: {:?}", other),
    }
}

#[test]
fn compare_does_not_look_past_the_first_difference() {
    let a = store_path(CURRENT);
    let b = store_path(BUILT);
    let from = links("/nix/store/i1", "/boot/kernel", "/nix/store/m1");
    let to = links("/nix/store/i2", "/nix/store/k1", "/nix/store/m1");
    assert_eq!(UpgradeNeeds::compare(&a, &b, from, to).unwrap(), UpgradeNeeds::Reboot);
}

#[test]
fn compare_falls_back_to_the_unresolved_path() {
    let a = store_path(CURRENT);
    let b = store_path(BUILT);
    let unresolved = || BootLinks { initrd: None, kernel: None, kernel_modules: None };
    // Unresolved, each boot path is the path below its own system: all differ.
    assert_eq!(
        UpgradeNeeds::compare(&a, &b, unresolved(), unresolved()).unwrap(),
        UpgradeNeeds::Reboot
    );
}

#[test]
fn sublink_eq_compares_what_the_links_lead_to() {
    let a = store_path(CURRENT);
    let b = store_path(BUILT);
    let same = UpgradeNeeds::sublink_eq(
        &a,
        &b,
        "kernel",
        Some(b"/nix/store/k1/bzImage".to_vec()),
        Some(b"/nix/store/k1/bzImage".to_vec()),
    );
    assert_eq!(same.unwrap(), true);
    let differ = UpgradeNeeds::sublink_eq(
        &a,
        &b,
        "kernel",
        Some(b"/nix/store/k1/bzImage".to_vec()),
        Some(b"/nix/store/k2/bzImage".to_vec()),
    );
    assert_eq!(differ.unwrap(), false);
    match UpgradeNeeds::sublink_eq(&a, &b, "kernel", Some(b"/nix/store/k1".to_vec()), Some(b"/k".to_vec())) {
        Err(StorePathError::NotInStore(s)) => assert_eq!(s, "/k"),
        other => panic!("unexpected: {:?}", other),
    }
}

#[test]
fn run_without_a_change_is_done_after_the_build() {
    let (run, first) = process().run();
    let mut seen = first.emitted;
    assert!(matches!(first.action, Action::Update));
    let (run, action) = feed(run, Event::Updated(Ok(false)), &mut seen);
    assert!(matches!(action, Action::Build));
    let (run, action) = feed(run, Event::Built(Ok(build_output(CURRENT))), &mut seen);
    assert!(matches!(action, Action::ResolveProfile(_)));
    let (run, action) = feed(run, Event::ProfileResolved(Some(CURRENT.to_vec())), &mut seen);
    assert!(matches!(action, Action::Finish(Ok(()))));
    assert_eq!(
        seen,
        vec![UpgradeState::UpdatingInputs, UpgradeState::BuildingOutput, UpgradeState::Done]
    );
    assert!(run.is_finished());
}

#[test]
fn run_that_needs_a_switch_switches_on_command() {
    let (current, candidate) = same_boot();
    let (run, action, mut seen) = run_to_comparison(current, candidate);
    assert!(matches!(action, Action::AwaitCommand));
    assert_eq!(
        seen,
        vec![
            UpgradeState::UpdatingInputs,
            UpgradeState::BuildingOutput,
            UpgradeState::RequiresSwitch
        ]
    );
    assert!(matches!(run.current_phase(), Phase::AwaitingCommand(_, UpgradeNeeds::Switch)));
    seen.clear();
    let (run, action) = feed(run, Event::Command(UpgradeCommand::Switch), &mut seen);
    let mut executed = 0;
    match action {
        Action::Execute(program, argument) => {
            executed += 1;
            assert_eq!(program, [BUILT, b"/bin/switch-to-configuration"].concat());
            assert_eq!(argument, "switch");
        }
        other => panic!("unexpected: {:?}", other),
    }
    let (run, action) = feed(run, Event::Executed(Ok(true)), &mut seen);
    assert!(matches!(action, Action::Finish(Ok(()))));
    assert_eq!(seen, vec![UpgradeState::SwitchingConfiguration, UpgradeState::Done]);
    assert_eq!(executed, 1);
    assert!(run.is_finished());
}

#[test]
fn run_cancelled_at_the_checkpoint_runs_nothing() {
    let (current, candidate) = other_kernel();
    let (run, action, mut seen) = run_to_comparison(current, candidate);
    assert!(matches!(action, Action::AwaitCommand));
    assert_eq!(seen.last(), Some(&UpgradeState::RequiresReboot));
    seen.clear();
    let (run, action) = feed(run, Event::Command(UpgradeCommand::Cancel), &mut seen);
    assert!(matches!(action, Action::Finish(Err(UpgradeError::Cancelled))));
    assert_eq!(seen, vec![UpgradeState::Done]);
    assert!(run.is_finished());
    // Nothing is taken any more, so nothing can be started.
    let (run, step) = run.resume(Event::Command(UpgradeCommand::Switch));
    assert!(step.is_none());
    let (run, step) = run.resume(Event::Executed(Ok(true)));
    assert!(step.is_none());
    assert!(run.is_finished());
}

#[test]
fn run_sets_the_boot_default() {
    let (current, candidate) = other_kernel();
    let (run, _, mut seen) = run_to_comparison(current, candidate);
    seen.clear();
    let (run, action) = feed(run, Event::Command(UpgradeCommand::SetBoot), &mut seen);
    match action {
        Action::Execute(program, argument) => {
            assert_eq!(program, [BUILT, b"/bin/switch-to-configuration"].concat());
            assert_eq!(argument, "boot");
        }
        other => panic!("unexpected: {:?}", other),
    }
    let (run, action) = feed(run, Event::Executed(Ok(true)), &mut seen);
    assert!(matches!(action, Action::Finish(Ok(()))));
    assert_eq!(seen, vec![UpgradeState::SwitchingBoot, UpgradeState::Done]);
    assert!(run.is_finished());
}

#[test]
fn run_reboots_after_setting_the_boot_default() {
    let (current, candidate) = other_kernel();
    let (run, _, mut seen) = run_to_comparison(current, candidate);
    seen.clear();
    let (run, action) = feed(run, Event::Command(UpgradeCommand::Reboot), &mut seen);
    match action {
        Action::Execute(_, argument) => assert_eq!(argument, "boot"),
        other => panic!("unexpected: {:?}", other),
    }
    let (run, action) = feed(run, Event::Executed(Ok(true)), &mut seen);
    match action {
        Action::Reboot(program) => assert_eq!(program, "reboot"),
        other => panic!("unexpected: {:?}", other),
    }
    assert_eq!(seen, vec![UpgradeState::SwitchingBoot, UpgradeState::Rebooting]);
    let report = RebootReport { success: true, stderr: String::new() };
    let (run, action) = feed(run, Event::Rebooted(Ok(report)), &mut seen);
    assert!(matches!(action, Action::Finish(Ok(()))));
    assert_eq!(seen, vec![UpgradeState::SwitchingBoot, UpgradeState::Rebooting]);
    assert!(run.is_finished());
}

#[test]
fn run_reports_a_failed_reboot() {
    let (current, candidate) = other_kernel();
    let (run, _, mut seen) = run_to_comparison(current, candidate);
    let (run, _) = feed(run, Event::Command(UpgradeCommand::Reboot), &mut seen);
    let (run, _) = feed(run, Event::Executed(Ok(true)), &mut seen);
    let report = RebootReport { success: false, stderr: "Failed to talk to init\n".to_string() };
    let (_, action) = feed(run, Event::Rebooted(Ok(report)), &mut seen);
    match action {
        Action::Finish(Err(UpgradeError::RebootFailed(s))) => {
            assert_eq!(s, "Failed to talk to init\n")
        }
        other => panic!("unexpected: {:?}", other),
    }
}

#[test]
fn run_reports_a_reboot_that_could_not_be_started() {
    let (current, candidate) = other_kernel();
    let (run, _, mut seen) = run_to_comparison(current, candidate);
    let (run, _) = feed(run, Event::Command(UpgradeCommand::Reboot), &mut seen);
    let (run, _) = feed(run, Event::Executed(Ok(true)), &mut seen);
    let missing = std::io::Error::new(std::io::ErrorKind::NotFound, "reboot is not there");
    let (_, action) = feed(run, Event::Rebooted(Err(missing)), &mut seen);
    match action {
        Action::Finish(Err(UpgradeError::RebootFailed(s))) => {
            assert_eq!(s, "reboot is not there")
        }
        other => panic!("unexpected: {:?}", other),
    }
}

#[test]
fn run_reports_a_failed_switch() {
    let (current, candidate) = same_boot();
    let (run, _, mut seen) = run_to_comparison(current, candidate);
    seen.clear();
    let (run, _) = feed(run, Event::Command(UpgradeCommand::Switch), &mut seen);
    let (run, action) = feed(run, Event::Executed(Ok(false)), &mut seen);
    assert!(matches!(action, Action::Finish(Err(UpgradeError::SwitchFailed(None)))));
    assert_eq!(seen, vec![UpgradeState::SwitchingConfiguration]);
    assert!(run.is_finished());

    let (current, candidate) = same_boot();
    let (run, _, mut seen) = run_to_comparison(current, candidate);
    let (run, _) = feed(run, Event::Command(UpgradeCommand::SetBoot), &mut seen);
    let denied = std::io::Error::new(std::io::ErrorKind::PermissionDenied, "no");
    let (_, action) = feed(run, Event::Executed(Err(denied)), &mut seen);
    match action {
        Action::Finish(Err(UpgradeError::SwitchFailed(Some(e)))) => {
            assert_eq!(e.kind(), std::io::ErrorKind::PermissionDenied)
        }
        other => panic!("unexpected: {:?}", other),
    }
}

#[test]
fn run_ends_without_a_state_when_the_update_fails() {
    let (run, first) = process().run();
    let mut seen = first.emitted;
    let (run, action) = feed(run, Event::Updated(Err(UpdateError::NixCommandFailed)), &mut seen);
    assert!(matches!(
        action,
        Action::Finish(Err(UpgradeError::UpdateError(UpdateError::NixCommandFailed)))
    ));
    assert_eq!(seen, vec![UpgradeState::UpdatingInputs]);
    assert!(run.is_finished());
}

#[test]
fn run_ends_without_a_state_when_the_build_fails() {
    let (run, first) = process().run();
    let mut seen = first.emitted;
    let (run, _) = feed(run, Event::Updated(Ok(true)), &mut seen);
    let (run, action) = feed(run, Event::Built(Err(BuildError::NixCommandFailed)), &mut seen);
    assert!(matches!(
        action,
        Action::Finish(Err(UpgradeError::BuildError(BuildError::NixCommandFailed)))
    ));
    assert_eq!(seen, vec![UpgradeState::UpdatingInputs, UpgradeState::BuildingOutput]);
    assert!(run.is_finished());
}

#[test]
fn run_ends_when_the_profile_is_not_in_the_store() {
    let (run, first) = process().run();
    let mut seen = first.emitted;
    let (run, _) = feed(run, Event::Updated(Ok(true)), &mut seen);
    let (run, _) = feed(run, Event::Built(Ok(build_output(BUILT))), &mut seen);
    let (run, action) = feed(run, Event::ProfileResolved(None), &mut seen);
    match action {
        Action::Finish(Err(UpgradeError::StorePathError(StorePathError::NotInStore(s)))) => {
            assert_eq!(s, "/nix/var/nix/profiles/system")
        }
        other => panic!("unexpected: {:?}", other),
    }
    assert_eq!(seen, vec![UpgradeState::UpdatingInputs, UpgradeState::BuildingOutput]);
    assert!(run.is_finished());
}

#[test]
fn run_refuses_an_event_that_it_does_not_wait_for() {
    let (run, _) = process().run();
    let (run, step) = run.resume(Event::Command(UpgradeCommand::Switch));
    assert!(step.is_none());
    assert!(matches!(run.current_phase(), Phase::UpdatingInputs));
    let (run, step) = run.resume(Event::Built(Ok(build_output(BUILT))));
    assert!(step.is_none());
    assert!(matches!(run.current_phase(), Phase::UpdatingInputs));
    let (run, step) = run.resume(Event::Updated(Ok(false)));
    assert!(step.is_some());
    assert!(matches!(run.current_phase(), Phase::BuildingOutput));
}

#[test]
fn run_takes_one_command_only() {
    let (current, candidate) = same_boot();
    let (run, _, mut seen) = run_to_comparison(current, candidate);
    let (run, _) = feed(run, Event::Command(UpgradeCommand::Switch), &mut seen);
    let (run, step) = run.resume(Event::Command(UpgradeCommand::Cancel));
    assert!(step.is_none());
    assert!(matches!(run.current_phase(), Phase::Switching(_)));
}

#[test]
fn build_directory_is_released_when_a_later_step_fails() {
    let dir = mktemp::Temp::new_dir().unwrap();
    let path = dir.to_path_buf();
    let output = BuildOutput::from_temp(dir, Ok(BUILT.to_vec())).unwrap();
    let (run, first) = process().run();
    let mut seen = first.emitted;
    let (run, _) = feed(run, Event::Updated(Ok(true)), &mut seen);
    let (run, _) = feed(run, Event::Built(Ok(output)), &mut seen);
    assert!(path.is_dir());
    let (run, action) = feed(run, Event::ProfileResolved(Some(b"/tmp/not-a-system".to_vec())), &mut seen);
    assert!(matches!(action, Action::Finish(Err(UpgradeError::StorePathError(_)))));
    assert!(run.is_finished());
    assert!(!path.exists());
}

#[test]
fn build_directory_is_kept_until_the_run_has_ended() {
    let dir = mktemp::Temp::new_dir().unwrap();
    let path = dir.to_path_buf();
    let output = BuildOutput::from_temp(dir, Ok(BUILT.to_vec())).unwrap();
    let (run, first) = process().run();
    let mut seen = first.emitted;
    let (run, _) = feed(run, Event::Updated(Ok(true)), &mut seen);
    let (run, _) = feed(run, Event::Built(Ok(output)), &mut seen);
    let (run, _) = feed(run, Event::ProfileResolved(Some(CURRENT.to_vec())), &mut seen);
    let (current, candidate) = same_boot();
    let (run, _) = feed(run, Event::BootLinksResolved(current, candidate), &mut seen);
    assert!(path.is_dir());
    let (run, _) = feed(run, Event::Command(UpgradeCommand::Switch), &mut seen);
    assert!(path.is_dir());
    let (run, _) = feed(run, Event::Executed(Ok(true)), &mut seen);
    assert!(run.is_finished());
    assert!(!path.exists());
}

#[test]
fn process_can_be_made_for_another_profile() {
    let process = UpgradeProcess::new(
        FlakeConfig::new("nixpkgs", "hello"),
        Profile::new(b"/nix/var/nix/profiles/per-user/alex/profile"),
    );
    let (run, first) = process.run();
    assert_eq!(run.source().url, "nixpkgs");
    let mut seen = first.emitted;
    let (run, _) = feed(run, Event::Updated(Ok(true)), &mut seen);
    let (_, action) = feed(run, Event::Built(Ok(build_output(BUILT))), &mut seen);
    match action {
        Action::ResolveProfile(p) => assert_eq!(p, b"/nix/var/nix/profiles/per-user/alex/profile"),
        other => panic!("unexpected: {:?}", other),
    }
}
