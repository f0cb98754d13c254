//! The order of a run: what holds of every step, and of every run as a
//! whole, whatever the host reports.

use crate::daemon::needs::{compare_spec, UpgradeNeeds};
use crate::daemon::process::{
    awaited, executes, switch_program, transition, well_formed, Action, Event, Phase, Step,
    UpgradeCommand, UpgradeState,
};
use crate::errors::UpgradeError;
use crate::nix::BuildOutput;
use crate::nix::store::{in_store, lemma_subpath_in_store, opt_view, validated};
use crate::paths::{join, same_components};
use vstd::prelude::*;
use vstd::string::*;

verus! {

/// How far a run has come: the phases, numbered in the order in which a run
/// passes through them.
pub open spec fn progress(phase: Phase) -> nat {
    match phase {
        Phase::UpdatingInputs => 0,
        Phase::BuildingOutput => 1,
        Phase::ReadingProfile(_) => 2,
        Phase::ComparingBoot(_, _) => 3,
        Phase::AwaitingCommand(_, _) => 4,
        Phase::Switching(_) => 5,
        Phase::SettingBoot(_, _) => 5,
        Phase::Rebooting(_) => 6,
        Phase::Finished => 7,
    }
}

/// The state that a run which stands in `phase` entered last. A run that
/// has ended has none: what it entered last depends on how it ended.
pub open spec fn announced(phase: Phase) -> Option<UpgradeState> {
    match phase {
        Phase::UpdatingInputs => Some(UpgradeState::UpdatingInputs),
        Phase::BuildingOutput => Some(UpgradeState::BuildingOutput),
        Phase::ReadingProfile(_) => Some(UpgradeState::BuildingOutput),
        Phase::ComparingBoot(_, _) => Some(UpgradeState::BuildingOutput),
        Phase::AwaitingCommand(_, UpgradeNeeds::Switch) => Some(UpgradeState::RequiresSwitch),
        Phase::AwaitingCommand(_, UpgradeNeeds::Reboot) => Some(UpgradeState::RequiresReboot),
        Phase::AwaitingCommand(_, UpgradeNeeds::Nothing) => None,
        Phase::Switching(_) => Some(UpgradeState::SwitchingConfiguration),
        Phase::SettingBoot(_, _) => Some(UpgradeState::SwitchingBoot),
        Phase::Rebooting(_) => Some(UpgradeState::Rebooting),
        Phase::Finished => None,
    }
}

/// The order in which the states of a run can be entered: whether `after`
/// can be the state that is entered next after `before`. No state is
/// entered after `Done`, and none after `Rebooting`.
pub open spec fn may_follow(before: UpgradeState, after: UpgradeState) -> bool {
    match before {
        UpgradeState::UpdatingInputs => after == UpgradeState::BuildingOutput,
        UpgradeState::BuildingOutput => after == UpgradeState::RequiresSwitch || after
            == UpgradeState::RequiresReboot || after == UpgradeState::Done,
        UpgradeState::RequiresSwitch | UpgradeState::RequiresReboot => after
            == UpgradeState::SwitchingConfiguration || after == UpgradeState::SwitchingBoot
            || after == UpgradeState::Done,
        UpgradeState::SwitchingConfiguration => after == UpgradeState::Done,
        UpgradeState::SwitchingBoot => after == UpgradeState::Done || after
            == UpgradeState::Rebooting,
        UpgradeState::Rebooting => false,
        UpgradeState::Done => false,
    }
}

/// The output of the build that a run holds while it stands in `phase`.
pub open spec fn held(phase: Phase) -> Option<BuildOutput> {
    match phase {
        Phase::UpdatingInputs => None,
        Phase::BuildingOutput => None,
        Phase::ReadingProfile(output) => Some(output),
        Phase::ComparingBoot(output, _) => Some(output),
        Phase::AwaitingCommand(output, _) => Some(output),
        Phase::Switching(output) => Some(output),
        Phase::SettingBoot(output, _) => Some(output),
        Phase::Rebooting(output) => Some(output),
        Phase::Finished => None,
    }
}

/// A run holds the output of its build, the same one, from the step that
/// is handed it to the step that ends the run, and lets it go with that
/// step: so the directory of the build is there as long as the run may ask
/// for something below it, and is released however the run ends.
pub proof fn lemma_step_keeps_the_output(
    profile: Seq<u8>,
    phase: Phase,
    event: Event,
    next: Phase,
    step: Step,
)
    requires
        transition(profile, phase, event, next, step),
    ensures
        event matches Event::Built(Ok(output)) ==> held(next) == Some(output),
        held(phase) is Some && !(next is Finished) ==> held(next) == held(phase),
        held(next) is Some ==> held(phase) is Some || event matches Event::Built(Ok(_)),
        next is Finished ==> held(next) is None,
        step.action is Execute || step.action is Reboot || step.action is ResolveBootLinks
            ==> held(next) is Some,
{
}

/// How a run ends. A step that fails ends the run without entering a
/// state; the run ends as cancelled, with the state `Done`, exactly on the
/// command to cancel; and it ends with success either with the state `Done`
/// or, without entering a state, after the reboot command.
pub proof fn lemma_step_that_ends(
    profile: Seq<u8>,
    phase: Phase,
    event: Event,
    next: Phase,
    step: Step,
)
    requires
        transition(profile, phase, event, next, step),
        step.action is Finish,
    ensures
        next is Finished,
        (step.action == Action::Finish(Err(UpgradeError::Cancelled))) <==> (event == Event::Command(
            UpgradeCommand::Cancel,
        )),
        step.action matches Action::Finish(Err(e)) && !(e is Cancelled) ==> step.emitted@.len()
            == 0,
        step.action matches Action::Finish(Err(e)) && e is Cancelled ==> step.emitted@ =~= seq![
            UpgradeState::Done,
        ],
        step.action matches Action::Finish(Ok(_)) ==> (if phase is Rebooting {
            step.emitted@.len() == 0
        } else {
            step.emitted@ =~= seq![UpgradeState::Done]
        }),
{
}

/// Every step of a run takes it further, enters at most one state, and
/// enters it in the order that `may_follow` allows; and a run ends exactly
/// with the step that tells the host to finish.
pub proof fn lemma_step_follows_the_order(
    profile: Seq<u8>,
    phase: Phase,
    event: Event,
    next: Phase,
    step: Step,
)
    requires
        well_formed(phase),
        transition(profile, phase, event, next, step),
    ensures
        awaited(phase, event),
        well_formed(next),
        progress(phase) < progress(next),
        step.emitted@.len() <= 1,
        step.emitted@.len() == 1 ==> (announced(phase) matches Some(before) && may_follow(
            before,
            step.emitted@[0],
        )),
        !(next is Finished) ==> announced(next) == (if step.emitted@.len() == 1 {
            Some(step.emitted@[0])
        } else {
            announced(phase)
        }),
        (next is Finished) <==> (step.action is Finish),
        (next is AwaitingCommand) <==> (step.action is AwaitCommand),
        (next is Switching || next is SettingBoot) <==> (step.action is Execute),
        (next is Rebooting) <==> (step.action is Reboot),
        (event is Command) <==> (phase is AwaitingCommand),
{
}

/// A run that has ended takes nothing any more: whatever the host hands to
/// it, no program is started on its account. In particular a run that was
/// cancelled starts none, since a cancellation ends it.
pub proof fn lemma_finished_takes_nothing(event: Event)
    ensures
        !awaited(Phase::Finished, event),
{
}

/// Whatever a run asks the host to run or to resolve below a system lies
/// in the store, as it is written, when the system does: the switch program
/// and the three boot paths.
pub proof fn lemma_asked_paths_in_store(system: Seq<u8>)
    requires
        in_store(system),
    ensures
        in_store(switch_program(system)),
        in_store(join(system, "initrd".spec_bytes())),
        in_store(join(system, "kernel".spec_bytes())),
        in_store(join(system, "kernel-modules".spec_bytes())),
{
    reveal_strlit("bin/switch-to-configuration");
    reveal_strlit("initrd");
    reveal_strlit("kernel");
    reveal_strlit("kernel-modules");
    is_ascii_spec_bytes("bin/switch-to-configuration");
    is_ascii_spec_bytes("initrd");
    is_ascii_spec_bytes("kernel");
    is_ascii_spec_bytes("kernel-modules");
    lemma_subpath_in_store(system, "bin/switch-to-configuration".spec_bytes());
    lemma_subpath_in_store(system, "initrd".spec_bytes());
    lemma_subpath_in_store(system, "kernel".spec_bytes());
    lemma_subpath_in_store(system, "kernel-modules".spec_bytes());
}

/// One step that a run took: the event that it was handed, the phase that
/// it went to, and the step that it handed back.
pub struct Taken {
    pub event: Event,
    pub next: Phase,
    pub step: Step,
}

/// Whether `taken` is a step that a run in the phase `phase` can take.
#[verifier::opaque]
pub open spec fn takes(profile: Seq<u8>, phase: Phase, taken: Taken) -> bool {
    transition(profile, phase, taken.event, taken.next, taken.step)
}

/// Whether `taken` are steps of one run, each from where the one before it
/// led, the first from `phase`.
pub open spec fn steps_from(profile: Seq<u8>, phase: Phase, taken: Seq<Taken>) -> bool
    decreases taken.len(),
{
    taken.len() == 0 || (takes(profile, phase, taken[0]) && steps_from(
        profile,
        taken[0].next,
        taken.drop_first(),
    ))
}

/// The states that the steps `taken` entered, in order.
pub open spec fn states_entered(taken: Seq<Taken>) -> Seq<UpgradeState>
    decreases taken.len(),
{
    if taken.len() == 0 {
        Seq::empty()
    } else {
        taken[0].step.emitted@ + states_entered(taken.drop_first())
    }
}

/// Whether the states `states` are in order after `first`: the first of
/// them may follow `first`, and each of the others may follow the one before
/// it.
pub open spec fn in_order(first: UpgradeState, states: Seq<UpgradeState>) -> bool
    decreases states.len(),
{
    states.len() == 0 || (may_follow(first, states[0]) && in_order(states[0], states.drop_first()))
}

/// What `lemma_step_follows_the_order` says, of a step that was taken.
proof fn lemma_taken_follows_the_order(profile: Seq<u8>, phase: Phase, taken: Taken)
    requires
        well_formed(phase),
        takes(profile, phase, taken),
    ensures
        well_formed(taken.next),
        progress(phase) < progress(taken.next) <= 7,
        taken.step.emitted@.len() <= 1,
        taken.step.emitted@.len() == 1 ==> (announced(phase) matches Some(before) && may_follow(
            before,
            taken.step.emitted@[0],
        )),
        !(taken.next is Finished) ==> announced(taken.next) == (if taken.step.emitted@.len() == 1 {
            Some(taken.step.emitted@[0])
        } else {
            announced(phase)
        }),
        !(taken.next is Finished) ==> announced(taken.next) is Some,
{
    reveal(takes);
    lemma_step_follows_the_order(profile, phase, taken.event, taken.next, taken.step);
}

/// A run that has ended takes no step.
proof fn lemma_no_step_when_finished(profile: Seq<u8>, taken: Taken)
    ensures
        !takes(profile, Phase::Finished, taken),
{
    reveal(takes);
}

/// States that are in order stay in order when a state that may come
/// before them is put in front.
proof fn lemma_in_order_prepend(first: UpgradeState, here: UpgradeState, after: Seq<UpgradeState>)
    requires
        may_follow(first, here),
        in_order(here, after),
    ensures
        in_order(first, seq![here] + after),
{
    let all = seq![here] + after;
    assert(all.drop_first() =~= after);
}

/// Whatever the host reports, and however far a run is followed, the states
/// that it enters come in the order that `may_follow` allows, and the run
/// takes seven steps at most from its beginning.
pub proof fn lemma_run_keeps_the_order(
    profile: Seq<u8>,
    phase: Phase,
    last: UpgradeState,
    taken: Seq<Taken>,
)
    requires
        well_formed(phase),
        announced(phase) == Some(last),
        steps_from(profile, phase, taken),
    ensures
        in_order(last, states_entered(taken)),
        progress(phase) + taken.len() <= 7,
    decreases taken.len(),
{
    if taken.len() > 0 {
        let t = taken[0];
        let rest = taken.drop_first();
        let here = t.step.emitted@;
        let after = states_entered(rest);
        lemma_taken_follows_the_order(profile, phase, t);
        if t.next is Finished {
            assert(rest.len() == 0) by {
                reveal_with_fuel(steps_from, 2);
                if rest.len() > 0 {
                    lemma_no_step_when_finished(profile, rest[0]);
                }
            }
        } else {
            lemma_run_keeps_the_order(profile, t.next, announced(t.next)->0, rest);
        }
        if here.len() == 1 {
            assert(here =~= seq![here[0]]);
            lemma_in_order_prepend(last, here[0], after);
        }
    }
}

/// The phase from which the step at the index `k` of a run was taken.
pub open spec fn origin(phase: Phase, taken: Seq<Taken>, k: int) -> Phase {
    if k == 0 {
        phase
    } else {
        taken[k - 1].next
    }
}

/// Each step of a run is a step from where the step before it led, and
/// leads further than any step before it.
pub proof fn lemma_run_advances(profile: Seq<u8>, phase: Phase, taken: Seq<Taken>, k: int)
    requires
        well_formed(phase),
        steps_from(profile, phase, taken),
        0 <= k < taken.len(),
    ensures
        well_formed(origin(phase, taken, k)),
        takes(profile, origin(phase, taken, k), taken[k]),
        progress(phase) <= progress(origin(phase, taken, k)) < progress(taken[k].next),
        forall|i: int| 0 <= i < k ==> progress(#[trigger] taken[i].next) < progress(taken[k].next),
    decreases taken.len(),
{
    let first = taken[0];
    let rest = taken.drop_first();
    lemma_taken_follows_the_order(profile, phase, first);
    if k > 0 {
        lemma_run_advances(profile, first.next, rest, k - 1);
        assert forall|i: int| 0 <= i < k implies progress(#[trigger] taken[i].next) < progress(
            taken[k].next,
        ) by {
            if i > 0 {
                assert(rest[i - 1] == taken[i]);
            }
        }
    }
}

/// In a run, whatever the host reports, one command is taken at most, the
/// switch program is started once at most, and so is the reboot: of two
/// steps of one run, not both take a command, not both start the switch
/// program, and not both start the reboot.
pub proof fn lemma_once_per_run(profile: Seq<u8>, phase: Phase, taken: Seq<Taken>, i: int, j: int)
    requires
        well_formed(phase),
        steps_from(profile, phase, taken),
        0 <= i < j < taken.len(),
    ensures
        !(taken[i].event is Command && taken[j].event is Command),
        !(taken[i].step.action is Execute && taken[j].step.action is Execute),
        !(taken[i].step.action is Reboot && taken[j].step.action is Reboot),
{
    lemma_run_advances(profile, phase, taken, i);
    lemma_run_advances(profile, phase, taken, j);
    let before_i = origin(phase, taken, i);
    let before_j = origin(phase, taken, j);
    assert(progress(taken[i].next) <= progress(before_j)) by {
        if j - 1 > i {
            assert(progress(taken[i].next) < progress(taken[j - 1].next)) by {
                lemma_run_advances(profile, phase, taken, j - 1);
            }
        }
    }
    reveal(takes);
    lemma_step_follows_the_order(
        profile,
        before_i,
        taken[i].event,
        taken[i].next,
        taken[i].step,
    );
    lemma_step_follows_the_order(
        profile,
        before_j,
        taken[j].event,
        taken[j].next,
        taken[j].step,
    );
}

/// A run that is cancelled at the checkpoint ends there, as cancelled and
/// with the state `Done`, and has started no program: neither before the
/// cancellation nor after it does any of its steps start the switch program
/// or the reboot.
pub proof fn lemma_cancelled_run_starts_nothing(
    profile: Seq<u8>,
    phase: Phase,
    taken: Seq<Taken>,
    k: int,
)
    requires
        well_formed(phase),
        steps_from(profile, phase, taken),
        0 <= k < taken.len(),
        taken[k].event == Event::Command(UpgradeCommand::Cancel),
    ensures
        k == taken.len() - 1,
        taken[k].next is Finished,
        taken[k].step.emitted@ =~= seq![UpgradeState::Done],
        taken[k].step.action == Action::Finish(Err(UpgradeError::Cancelled)),
        forall|i: int|
            0 <= i < taken.len() ==> !((#[trigger] taken[i]).step.action is Execute)
                && !(taken[i].step.action is Reboot),
{
    lemma_run_advances(profile, phase, taken, k);
    let before = origin(phase, taken, k);
    assert(taken[k].next is Finished && before is AwaitingCommand && taken[k].step.emitted@
        =~= seq![UpgradeState::Done] && taken[k].step.action == Action::Finish(
        Err(UpgradeError::Cancelled),
    )) by {
        reveal(takes);
    }
    if k + 1 < taken.len() {
        lemma_run_advances(profile, phase, taken, k + 1);
        lemma_no_step_when_finished(profile, taken[k + 1]);
    }
    assert forall|i: int| 0 <= i < taken.len() implies !((#[trigger] taken[i]).step.action
        is Execute) && !(taken[i].step.action is Reboot) by {
        lemma_run_advances(profile, phase, taken, i);
        if i < k {
            assert(progress(taken[i].next) <= progress(before)) by {
                if i < k - 1 {
                    lemma_run_advances(profile, phase, taken, k - 1);
                }
            }
        }
        reveal(takes);
        lemma_step_follows_the_order(
            profile,
            origin(phase, taken, i),
            taken[i].event,
            taken[i].next,
            taken[i].step,
        );
    }
}

/// A run whose build gives the system that is running is done when it has
/// seen that: after the update and the build it enters `Done`, ends with
/// success, and has asked for no command. This holds whatever the update
/// reported of the inputs.
pub proof fn lemma_run_without_change(profile: Seq<u8>, taken: Seq<Taken>)
    requires
        steps_from(profile, Phase::UpdatingInputs, taken),
        taken.len() >= 3,
        taken[0].event matches Event::Updated(Ok(_)),
        taken[1].event matches Event::Built(Ok(_)),
        taken[2].event is ProfileResolved,
        ({
            let output = taken[1].event->Built_0->Ok_0;
            let canonical = opt_view(taken[2].event->ProfileResolved_0);
            validated(profile, canonical) matches Ok(current) && same_components(
                current,
                output.path@,
            )
        }),
    ensures
        taken.len() == 3,
        states_entered(taken) =~= seq![UpgradeState::BuildingOutput, UpgradeState::Done],
        taken[2].step.action == Action::Finish(Ok(())),
        forall|i: int| 0 <= i < 3 ==> !((#[trigger] taken[i]).step.action is AwaitCommand),
{
    reveal(takes);
    reveal_with_fuel(steps_from, 5);
    reveal_with_fuel(states_entered, 5);
}

/// A run whose build differs from the running system, but not in what is
/// booted, announces that a switch is required and waits; told to switch,
/// it starts the switch program of what was built with the argument
/// `switch`, once, and when that succeeds it enters `Done` and ends with
/// success.
pub proof fn lemma_run_that_switches(profile: Seq<u8>, taken: Seq<Taken>)
    requires
        steps_from(profile, Phase::UpdatingInputs, taken),
        taken.len() >= 6,
        taken[0].event matches Event::Updated(Ok(_)),
        taken[1].event matches Event::Built(Ok(_)),
        taken[2].event is ProfileResolved,
        taken[3].event is BootLinksResolved,
        taken[4].event == Event::Command(UpgradeCommand::Switch),
        taken[5].event matches Event::Executed(Ok(true)),
        ({
            let output = taken[1].event->Built_0->Ok_0;
            let canonical = opt_view(taken[2].event->ProfileResolved_0);
            let from = taken[3].event->BootLinksResolved_0;
            let to = taken[3].event->BootLinksResolved_1;
            validated(profile, canonical) matches Ok(current) && compare_spec(
                current,
                output.path@,
                from@,
                to@,
            ) == Ok::<UpgradeNeeds, Seq<char>>(UpgradeNeeds::Switch)
        }),
    ensures
        taken.len() == 6,
        states_entered(taken) =~= seq![
            UpgradeState::BuildingOutput,
            UpgradeState::RequiresSwitch,
            UpgradeState::SwitchingConfiguration,
            UpgradeState::Done,
        ],
        taken[3].step.action == Action::AwaitCommand,
        executes(taken[4].step.action, (taken[1].event->Built_0->Ok_0).path@, "switch"@),
        taken[5].step.action == Action::Finish(Ok(())),
        forall|i: int| 0 <= i < 6 && i != 4 ==> !((#[trigger] taken[i]).step.action is Execute),
{
    reveal(takes);
    reveal_with_fuel(steps_from, 8);
    reveal_with_fuel(states_entered, 8);
}

} // verus!
