//! The upgrade process: its phases, what it asks of its host, and what it
//! does with each answer.

use crate::daemon::needs::{compare_spec, BootLinks, BootLinksView, BootPaths, UpgradeNeeds};
use crate::daemon::order::lemma_step_follows_the_order;
use crate::errors::{BuildError, StorePathError, UpdateError, UpgradeError};
use crate::nix::flake::FlakeConfig;
use crate::nix::store::{opt_view, validated, StorePath};
use crate::nix::{BuildOutput, Profile};
use crate::paths::{join, same_components};
use vstd::prelude::*;
use vstd::string::*;

verus! {

/// A command that the operator gives at the checkpoint.
#[derive(Debug, Clone, Copy, PartialEq, Eq, Structural)]
pub enum UpgradeCommand {
    Cancel,
    Switch,
    SetBoot,
    Reboot,
}

/// The states that a run passes through; each is announced when it is
/// entered.
#[derive(Debug, Clone, Copy, PartialEq, Eq, Structural)]
pub enum UpgradeState {
    UpdatingInputs,
    BuildingOutput,
    RequiresSwitch,
    SwitchingBoot,
    RequiresReboot,
    SwitchingConfiguration,
    Rebooting,
    Done,
}

/// What a reboot command left behind when it ended.
#[derive(Debug)]
pub struct RebootReport {
    pub success: bool,
    /// What the command wrote to its error stream.
    pub stderr: String,
}

/// What the host has to do next for a run.
#[derive(Debug)]
pub enum Action {
    /// Update the inputs of the source.
    Update,
    /// Build the source.
    Build,
    /// Resolve the profile's link, whose path this is.
    ResolveProfile(Vec<u8>),
    /// Resolve the boot paths of the running system and of the system that
    /// was built, in this order.
    ResolveBootLinks(BootPaths, BootPaths),
    /// Wait for the operator's command.
    AwaitCommand,
    /// Run the program at this path with this one argument.
    Execute(Vec<u8>, String),
    /// Run the program of this name, which reboots the machine, and keep
    /// what it writes to its error stream.
    Reboot(String),
    /// Nothing: the run has ended, with this result.
    Finish(Result<(), UpgradeError>),
}

/// What the host reports back to a run.
#[derive(Debug)]
pub enum Event {
    /// The update ended: whether the inputs changed, or why it failed.
    Updated(Result<bool, UpdateError>),
    /// The build ended.
    Built(Result<BuildOutput, BuildError>),
    /// The canonical form of the profile's link, where it has one.
    ProfileResolved(Option<Vec<u8>>),
    /// What the boot paths of the running system and of the system that was
    /// built lead to, in this order.
    BootLinksResolved(BootLinks, BootLinks),
    /// The operator's command.
    Command(UpgradeCommand),
    /// The program was run: whether it ended with success, or why it could
    /// not be run.
    Executed(Result<bool, std::io::Error>),
    /// The reboot command was run.
    Rebooted(Result<RebootReport, std::io::Error>),
}

/// Where a run stands: what it waits for, and what it holds meanwhile. The
/// output of the build is held from the moment it is there until the run has
/// ended, and then let go.
#[derive(Debug)]
pub enum Phase {
    /// Waiting for the update to end.
    UpdatingInputs,
    /// Waiting for the build to end.
    BuildingOutput,
    /// Waiting for the profile's link to be resolved.
    ReadingProfile(BuildOutput),
    /// Waiting for the boot paths of the running system, which is the second
    /// value, and of the built one to be resolved.
    ComparingBoot(BuildOutput, StorePath),
    /// At the checkpoint: waiting for the operator's command.
    AwaitingCommand(BuildOutput, UpgradeNeeds),
    /// Waiting for the switch to the new configuration to end.
    Switching(BuildOutput),
    /// Waiting for the new system to be made the boot default; the second
    /// value says whether a reboot follows.
    SettingBoot(BuildOutput, bool),
    /// Waiting for the reboot command to end.
    Rebooting(BuildOutput),
    /// The run has ended.
    Finished,
}

/// One step of a run: the states that were entered, in order, and what the
/// host has to do next.
#[derive(Debug)]
pub struct Step {
    pub emitted: Vec<UpgradeState>,
    pub action: Action,
}

/// An upgrade that has not begun: a source and the profile to compare its
/// build with.
pub struct UpgradeProcess<S> {
    input: S,
    profile: Profile,
}

/// An upgrade that is under way.
pub struct UpgradeRun<S> {
    input: S,
    profile: Profile,
    phase: Phase,
}

/// Whether a run in the phase `phase` waits for the event `event`.
pub open spec fn awaited(phase: Phase, event: Event) -> bool {
    match (phase, event) {
        (Phase::UpdatingInputs, Event::Updated(_)) => true,
        (Phase::BuildingOutput, Event::Built(_)) => true,
        (Phase::ReadingProfile(_), Event::ProfileResolved(_)) => true,
        (Phase::ComparingBoot(_, _), Event::BootLinksResolved(_, _)) => true,
        (Phase::AwaitingCommand(_, _), Event::Command(_)) => true,
        (Phase::Switching(_), Event::Executed(_)) => true,
        (Phase::SettingBoot(_, _), Event::Executed(_)) => true,
        (Phase::Rebooting(_), Event::Rebooted(_)) => true,
        _ => false,
    }
}

/// The run ends here: it enters the states `emitted` and has `result`.
pub open spec fn finishes(next: Phase, step: Step, emitted: Seq<UpgradeState>, result: Result<
    (),
    UpgradeError,
>) -> bool {
    &&& next == Phase::Finished
    &&& step.emitted@ =~= emitted
    &&& step.action == Action::Finish(result)
}

/// The run ends here, without entering a state, because a path did not lie
/// in the store; `text` is that path.
pub open spec fn fails_not_in_store(next: Phase, step: Step, text: Seq<char>) -> bool {
    &&& next == Phase::Finished
    &&& step.emitted@ =~= Seq::<UpgradeState>::empty()
    &&& step.action matches Action::Finish(
        Err(UpgradeError::StorePathError(StorePathError::NotInStore(s))),
    )
    &&& s@ == text
}

/// The path, below a system, of the program that activates it.
pub open spec fn switch_program(system: Seq<u8>) -> Seq<u8> {
    join(system, "bin/switch-to-configuration".spec_bytes())
}

/// The action is to run the switch program of `system` with `argument`.
pub open spec fn executes(action: Action, system: Seq<u8>, argument: Seq<char>) -> bool {
    action matches Action::Execute(program, arg) && program@ == switch_program(system) && arg@
        == argument
}

/// `paths` are the three boot paths below `system`.
pub open spec fn boot_paths_of(paths: BootPaths, system: Seq<u8>) -> bool {
    &&& paths.initrd@ == join(system, "initrd".spec_bytes())
    &&& paths.kernel@ == join(system, "kernel".spec_bytes())
    &&& paths.kernel_modules@ == join(system, "kernel-modules".spec_bytes())
}

/// After the update: on success the build begins; a failure ends the run.
pub open spec fn after_update(result: Result<bool, UpdateError>, next: Phase, step: Step) -> bool {
    match result {
        Ok(_) => {
            &&& next == Phase::BuildingOutput
            &&& step.emitted@ =~= seq![UpgradeState::BuildingOutput]
            &&& step.action == Action::Build
        },
        Err(e) => finishes(next, step, Seq::empty(), Err(UpgradeError::UpdateError(e))),
    }
}

/// After the build: on success the profile is read; a failure ends the run.
pub open spec fn after_build(
    profile: Seq<u8>,
    result: Result<BuildOutput, BuildError>,
    next: Phase,
    step: Step,
) -> bool {
    match result {
        Ok(output) => {
            &&& next == Phase::ReadingProfile(output)
            &&& step.emitted@ =~= Seq::<UpgradeState>::empty()
            &&& step.action matches Action::ResolveProfile(p)
            &&& p@ == profile
        },
        Err(e) => finishes(next, step, Seq::empty(), Err(UpgradeError::BuildError(e))),
    }
}

/// After the profile's link was resolved: where the running system is the
/// one that was built, the run is done; otherwise the boot paths of the two
/// are resolved. A profile that does not lead into the store ends the run.
pub open spec fn after_profile(
    profile: Seq<u8>,
    output: BuildOutput,
    canonical: Option<Seq<u8>>,
    next: Phase,
    step: Step,
) -> bool {
    match validated(profile, canonical) {
        Err(text) => fails_not_in_store(next, step, text),
        Ok(current) => if same_components(current, output.path@) {
            finishes(next, step, seq![UpgradeState::Done], Ok(()))
        } else {
            &&& next matches Phase::ComparingBoot(o, c)
            &&& o == output
            &&& c@ == current
            &&& step.emitted@ =~= Seq::<UpgradeState>::empty()
            &&& step.action matches Action::ResolveBootLinks(from, to)
            &&& boot_paths_of(from, current)
            &&& boot_paths_of(to, output.path@)
        },
    }
}

/// After the boot paths were resolved: the run is done, or it announces what
/// is needed and waits at the checkpoint. A boot path that is looked at and
/// does not lead into the store ends the run.
pub open spec fn after_boot_links(
    output: BuildOutput,
    current: Seq<u8>,
    from_links: BootLinksView,
    to_links: BootLinksView,
    next: Phase,
    step: Step,
) -> bool {
    match compare_spec(current, output.path@, from_links, to_links) {
        Err(text) => fails_not_in_store(next, step, text),
        Ok(UpgradeNeeds::Nothing) => finishes(next, step, seq![UpgradeState::Done], Ok(())),
        Ok(UpgradeNeeds::Switch) => {
            &&& next == Phase::AwaitingCommand(output, UpgradeNeeds::Switch)
            &&& step.emitted@ =~= seq![UpgradeState::RequiresSwitch]
            &&& step.action == Action::AwaitCommand
        },
        Ok(UpgradeNeeds::Reboot) => {
            &&& next == Phase::AwaitingCommand(output, UpgradeNeeds::Reboot)
            &&& step.emitted@ =~= seq![UpgradeState::RequiresReboot]
            &&& step.action == Action::AwaitCommand
        },
    }
}

/// After the operator's command: a cancellation ends the run as cancelled;
/// the other commands start the switch program of the system that was
/// built.
pub open spec fn after_command(output: BuildOutput, command: UpgradeCommand, next: Phase, step: Step) -> bool {
    match command {
        UpgradeCommand::Cancel => finishes(
            next,
            step,
            seq![UpgradeState::Done],
            Err(UpgradeError::Cancelled),
        ),
        UpgradeCommand::Switch => {
            &&& next == Phase::Switching(output)
            &&& step.emitted@ =~= seq![UpgradeState::SwitchingConfiguration]
            &&& executes(step.action, output.path@, "switch"@)
        },
        UpgradeCommand::SetBoot => {
            &&& next == Phase::SettingBoot(output, false)
            &&& step.emitted@ =~= seq![UpgradeState::SwitchingBoot]
            &&& executes(step.action, output.path@, "boot"@)
        },
        UpgradeCommand::Reboot => {
            &&& next == Phase::SettingBoot(output, true)
            &&& step.emitted@ =~= seq![UpgradeState::SwitchingBoot]
            &&& executes(step.action, output.path@, "boot"@)
        },
    }
}

/// After the switch program ended: where it could not be run or did not
/// succeed, the run has failed; where a reboot was asked for, it begins;
/// otherwise the run is done.
pub open spec fn after_execute(
    output: BuildOutput,
    then_reboot: bool,
    result: Result<bool, std::io::Error>,
    next: Phase,
    step: Step,
) -> bool {
    match result {
        Err(e) => finishes(next, step, Seq::empty(), Err(UpgradeError::SwitchFailed(Some(e)))),
        Ok(false) => finishes(next, step, Seq::empty(), Err(UpgradeError::SwitchFailed(None))),
        Ok(true) => if then_reboot {
            &&& next == Phase::Rebooting(output)
            &&& step.emitted@ =~= seq![UpgradeState::Rebooting]
            &&& step.action matches Action::Reboot(program)
            &&& program@ == "reboot"@
        } else {
            finishes(next, step, seq![UpgradeState::Done], Ok(()))
        },
    }
}

/// After the reboot command ended: the run has ended, and no state is
/// entered any more. Where the command did not succeed, the failure holds
/// what it wrote to its error stream; where it could not be run, the
/// failure holds the words in which the reason presents itself.
pub open spec fn after_reboot(result: Result<RebootReport, std::io::Error>, next: Phase, step: Step) -> bool {
    match result {
        Err(e) => {
            &&& next == Phase::Finished
            &&& step.emitted@ =~= Seq::<UpgradeState>::empty()
            &&& step.action matches Action::Finish(Err(UpgradeError::RebootFailed(said)))
            &&& to_string_from_display_ensures::<std::io::Error>(&e, said)
        },
        Ok(report) => if report.success {
            finishes(next, step, Seq::empty(), Ok(()))
        } else {
            finishes(next, step, Seq::empty(), Err(UpgradeError::RebootFailed(report.stderr)))
        },
    }
}

/// What a run does with an event that it waits for: the phase `next` that
/// it goes to, and the step `step` that it hands to the host.
pub open spec fn transition(profile: Seq<u8>, phase: Phase, event: Event, next: Phase, step: Step) -> bool {
    match (phase, event) {
        (Phase::UpdatingInputs, Event::Updated(result)) => after_update(result, next, step),
        (Phase::BuildingOutput, Event::Built(result)) => after_build(profile, result, next, step),
        (Phase::ReadingProfile(output), Event::ProfileResolved(canonical)) => after_profile(
            profile,
            output,
            opt_view(canonical),
            next,
            step,
        ),
        (Phase::ComparingBoot(output, current), Event::BootLinksResolved(from, to)) => after_boot_links(
            output,
            current@,
            from@,
            to@,
            next,
            step,
        ),
        (Phase::AwaitingCommand(output, _), Event::Command(command)) => after_command(
            output,
            command,
            next,
            step,
        ),
        (Phase::Switching(output), Event::Executed(result)) => after_execute(
            output,
            false,
            result,
            next,
            step,
        ),
        (Phase::SettingBoot(output, then_reboot), Event::Executed(result)) => after_execute(
            output,
            then_reboot,
            result,
            next,
            step,
        ),
        (Phase::Rebooting(_), Event::Rebooted(result)) => after_reboot(result, next, step),
        _ => false,
    }
}

/// A run waits at the checkpoint only where something is needed.
pub open spec fn well_formed(phase: Phase) -> bool {
    phase matches Phase::AwaitingCommand(_, needs) ==> needs != UpgradeNeeds::Nothing
}

impl UpgradeProcess<FlakeConfig> {
    /// An upgrade of the running system from a flake.
    pub fn for_flake(flake: FlakeConfig) -> (r: UpgradeProcess<FlakeConfig>)
        ensures
            r.input() == flake,
            r.profile()@ == "/nix/var/nix/profiles/system".spec_bytes(),
    {
        UpgradeProcess { input: flake, profile: Profile::system() }
    }
}

impl<S> UpgradeProcess<S> {
    /// The source that is upgraded from.
    pub closed spec fn input(&self) -> S {
        self.input
    }

    /// The profile that the build is compared with.
    pub closed spec fn profile(&self) -> Profile {
        self.profile
    }

    /// An upgrade from the source `input`, to be compared with `profile`.
    pub fn new(input: S, profile: Profile) -> (r: UpgradeProcess<S>)
        ensures
            r.input() == input,
            r.profile() == profile,
    {
        UpgradeProcess { input, profile }
    }

    /// Begins the run: the inputs are to be updated first.
    pub fn run(self) -> (r: (UpgradeRun<S>, Step))
        ensures
            r.0.input() == self.input(),
            r.0.profile() == self.profile(),
            r.0.phase() == Phase::UpdatingInputs,
            r.1.emitted@ == seq![UpgradeState::UpdatingInputs],
            r.1.action == Action::Update,
    {
        let run = UpgradeRun {
            input: self.input,
            profile: self.profile,
            phase: Phase::UpdatingInputs,
        };
        (run, Step { emitted: vec![UpgradeState::UpdatingInputs], action: Action::Update })
    }
}

/// The step that ends a run.
fn finish(emitted: Vec<UpgradeState>, result: Result<(), UpgradeError>) -> (r: (Phase, Step))
    ensures
        finishes(r.0, r.1, emitted@, result),
{
    (Phase::Finished, Step { emitted, action: Action::Finish(result) })
}

/// The step that ends a run on a path that does not lie in the store.
fn fail_store_path(e: StorePathError) -> (r: (Phase, Step))
    ensures
        e matches StorePathError::NotInStore(s) ==> fails_not_in_store(r.0, r.1, s@),
{
    finish(Vec::new(), Err(UpgradeError::StorePathError(e)))
}

/// The action that starts the switch program of the system that was built,
/// with one argument.
fn exec_switch_to_configuration(out: &BuildOutput, arg: &str) -> (r: Action)
    ensures
        executes(r, out.path@, arg@),
{
    Action::Execute(out.path.subpath("bin/switch-to-configuration"), arg.to_owned())
}

/// The action that switches the running system to the one that was built.
fn switch_to(out: &BuildOutput) -> (r: Action)
    ensures
        executes(r, out.path@, "switch"@),
{
    exec_switch_to_configuration(out, "switch")
}

/// The action that makes the system that was built the one to boot.
fn make_boot_default(out: &BuildOutput) -> (r: Action)
    ensures
        executes(r, out.path@, "boot"@),
{
    exec_switch_to_configuration(out, "boot")
}

/// The action that reboots the machine.
fn reboot() -> (r: Action)
    ensures
        r matches Action::Reboot(program) && program@ == "reboot"@,
{
    Action::Reboot("reboot".to_owned())
}

fn on_updated(result: Result<bool, UpdateError>) -> (r: (Phase, Step))
    ensures
        after_update(result, r.0, r.1),
{
    match result {
        Ok(_) => (
            Phase::BuildingOutput,
            Step { emitted: vec![UpgradeState::BuildingOutput], action: Action::Build },
        ),
        Err(e) => finish(Vec::new(), Err(UpgradeError::UpdateError(e))),
    }
}

fn on_built(profile: &Profile, result: Result<BuildOutput, BuildError>) -> (r: (Phase, Step))
    ensures
        after_build(profile@, result, r.0, r.1),
{
    match result {
        Ok(output) => (
            Phase::ReadingProfile(output),
            Step { emitted: Vec::new(), action: Action::ResolveProfile(profile.to_path()) },
        ),
        Err(e) => finish(Vec::new(), Err(UpgradeError::BuildError(e))),
    }
}

fn on_profile_resolved(profile: &Profile, output: BuildOutput, canonical: Option<Vec<u8>>) -> (r: (
    Phase,
    Step,
))
    ensures
        after_profile(profile@, output, opt_view(canonical), r.0, r.1),
{
    match profile.get_current(canonical) {
        Err(e) => fail_store_path(e),
        Ok(current) => {
            if current == output.path {
                finish(vec![UpgradeState::Done], Ok(()))
            } else {
                let from = UpgradeNeeds::boot_paths(&current);
                let to = UpgradeNeeds::boot_paths(&output.path);
                (
                    Phase::ComparingBoot(output, current),
                    Step { emitted: Vec::new(), action: Action::ResolveBootLinks(from, to) },
                )
            }
        },
    }
}

fn on_boot_links_resolved(output: BuildOutput, current: StorePath, from: BootLinks, to: BootLinks) -> (r:
    (Phase, Step))
    ensures
        after_boot_links(output, current@, from@, to@, r.0, r.1),
{
    match UpgradeNeeds::compare(&current, &output.path, from, to) {
        Err(e) => fail_store_path(e),
        Ok(UpgradeNeeds::Nothing) => finish(vec![UpgradeState::Done], Ok(())),
        Ok(UpgradeNeeds::Switch) => (
            Phase::AwaitingCommand(output, UpgradeNeeds::Switch),
            Step { emitted: vec![UpgradeState::RequiresSwitch], action: Action::AwaitCommand },
        ),
        Ok(UpgradeNeeds::Reboot) => (
            Phase::AwaitingCommand(output, UpgradeNeeds::Reboot),
            Step { emitted: vec![UpgradeState::RequiresReboot], action: Action::AwaitCommand },
        ),
    }
}

fn on_command(output: BuildOutput, command: UpgradeCommand) -> (r: (Phase, Step))
    ensures
        after_command(output, command, r.0, r.1),
{
    match command {
        UpgradeCommand::Cancel => finish(vec![UpgradeState::Done], Err(UpgradeError::Cancelled)),
        UpgradeCommand::Switch => {
            let action = switch_to(&output);
            (
                Phase::Switching(output),
                Step { emitted: vec![UpgradeState::SwitchingConfiguration], action },
            )
        },
        UpgradeCommand::SetBoot => {
            let action = make_boot_default(&output);
            (
                Phase::SettingBoot(output, false),
                Step { emitted: vec![UpgradeState::SwitchingBoot], action },
            )
        },
        UpgradeCommand::Reboot => {
            let action = make_boot_default(&output);
            (
                Phase::SettingBoot(output, true),
                Step { emitted: vec![UpgradeState::SwitchingBoot], action },
            )
        },
    }
}

fn on_executed(output: BuildOutput, then_reboot: bool, result: Result<bool, std::io::Error>) -> (r: (
    Phase,
    Step,
))
    ensures
        after_execute(output, then_reboot, result, r.0, r.1),
{
    match result {
        Err(e) => finish(Vec::new(), Err(UpgradeError::map_switch_io_error(e))),
        Ok(false) => finish(Vec::new(), Err(UpgradeError::SwitchFailed(None))),
        Ok(true) => if then_reboot {
            (
                Phase::Rebooting(output),
                Step { emitted: vec![UpgradeState::Rebooting], action: reboot() },
            )
        } else {
            finish(vec![UpgradeState::Done], Ok(()))
        },
    }
}

fn on_rebooted(result: Result<RebootReport, std::io::Error>) -> (r: (Phase, Step))
    ensures
        after_reboot(result, r.0, r.1),
{
    match result {
        Err(e) => finish(Vec::new(), Err(UpgradeError::map_reboot_failed(e))),
        Ok(report) => if report.success {
            finish(Vec::new(), Ok(()))
        } else {
            finish(Vec::new(), Err(UpgradeError::RebootFailed(report.stderr)))
        },
    }
}

impl<S> UpgradeRun<S> {
    #[verifier::type_invariant]
    spec fn phase_is_well_formed(self) -> bool {
        well_formed(self.phase)
    }

    /// The source that is upgraded from.
    pub closed spec fn input(&self) -> S {
        self.input
    }

    /// The profile that the build is compared with.
    pub closed spec fn profile(&self) -> Profile {
        self.profile
    }

    /// Where the run stands.
    pub closed spec fn phase(&self) -> Phase {
        self.phase
    }

    /// The source of the run, for the host to update and to build.
    pub fn source(&self) -> (r: &S)
        ensures
            *r == self.input(),
    {
        &self.input
    }

    /// Where the run stands.
    pub fn current_phase(&self) -> (r: &Phase)
        ensures
            *r == self.phase(),
            well_formed(*r),
    {
        proof {
            use_type_invariant(self);
        }
        &self.phase
    }

    /// Whether the run has ended.
    pub fn is_finished(&self) -> (r: bool)
        ensures
            r == (self.phase() is Finished),
    {
        match self.phase {
            Phase::Finished => true,
            _ => false,
        }
    }

    /// Hands an event to the run. An event that the run does not wait for is
    /// refused: the run stays as it is and there is no step. Otherwise the
    /// run goes on as `transition` says.
    pub fn resume(self, event: Event) -> (r: (UpgradeRun<S>, Option<Step>))
        ensures
            r.0.input() == self.input(),
            r.0.profile() == self.profile(),
            !awaited(self.phase(), event) ==> r.1 is None && r.0.phase() == self.phase(),
            awaited(self.phase(), event) ==> (r.1 matches Some(step) && transition(
                self.profile()@,
                self.phase(),
                event,
                r.0.phase(),
                step,
            )),
    {
        proof {
            use_type_invariant(&self);
        }
        let ghost before = self.phase;
        let ghost handed = event;
        let UpgradeRun { input, profile, phase } = self;
        let (next, step) = match (phase, event) {
            (Phase::UpdatingInputs, Event::Updated(result)) => on_updated(result),
            (Phase::BuildingOutput, Event::Built(result)) => on_built(&profile, result),
            (Phase::ReadingProfile(output), Event::ProfileResolved(canonical)) => on_profile_resolved(
                &profile,
                output,
                canonical,
            ),
            (
                Phase::ComparingBoot(output, current),
                Event::BootLinksResolved(from, to),
            ) => on_boot_links_resolved(output, current, from, to),
            (Phase::AwaitingCommand(output, _), Event::Command(command)) => on_command(
                output,
                command,
            ),
            (Phase::Switching(output), Event::Executed(result)) => on_executed(output, false, result),
            (Phase::SettingBoot(output, then_reboot), Event::Executed(result)) => on_executed(
                output,
                then_reboot,
                result,
            ),
            (Phase::Rebooting(_), Event::Rebooted(result)) => on_rebooted(result),
            (phase, _) => {
                return (UpgradeRun { input, profile, phase }, None);
            },
        };
        proof {
            lemma_step_follows_the_order(profile@, before, handed, next, step);
        }
        (UpgradeRun { input, profile, phase: next }, Some(step))
    }
}

} // verus!
