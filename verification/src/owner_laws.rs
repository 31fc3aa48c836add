//! What holds of every run of the owner thread.
//!
//! A run is the row of events that the thread has seen since it was made.
//! The laws speak of [`OwnerThread::action_at`], the thread's answer to each
//! of them.

use crate::command::JoystickThreadCommand;
use crate::error::Error;
use crate::owner::{answers, call_for, start_calls, start_outcome};
use crate::owner::{OwnerAction, OwnerEvent, OwnerPhase, OwnerState, OwnerThread};
use crate::vjoy::{button_is_down, GatewayCall, Stat};
use crate::Button;
use vstd::prelude::*;

verus! {

/// Seeing one event more is one step more.
pub proof fn lemma_one_more_event(owner: OwnerThread, events: Seq<OwnerEvent>, i: int)
    requires
        0 <= i < events.len(),
    ensures
        owner.after(events.take(i + 1)) == owner.after(events.take(i)).next(events[i]).0,
{
    let longer = events.take(i + 1);
    assert(longer.drop_last() == events.take(i));
    assert(longer.last() == events[i]);
}

/// The thread never changes the device it owns.
pub proof fn law_device_is_kept(owner: OwnerThread, events: Seq<OwnerEvent>)
    ensures
        owner.after(events).device == owner.device,
    decreases events.len(),
{
    if events.len() > 0 {
        law_device_is_kept(owner, events.drop_last());
    }
}

/// The thread touches no device but its own: every call it makes that names
/// a device names that one.
pub proof fn law_only_the_own_device_is_touched(
    owner: OwnerThread,
    events: Seq<OwnerEvent>,
    i: int,
)
    requires
        0 <= i < events.len(),
    ensures
        match owner.action_at(events, i) {
            OwnerAction::Call(call) => call.names(owner.device),
            _ => true,
        },
{
    law_device_is_kept(owner, events.take(i));
}

/// A thread that has terminated stays so, and does nothing but leave.
pub proof fn law_terminated_is_final(owner: OwnerThread, events: Seq<OwnerEvent>, i: int)
    requires
        owner.phase == OwnerPhase::Terminated,
        0 <= i < events.len(),
    ensures
        owner.after(events) == owner,
        owner.action_at(events, i) == OwnerAction::Exit,
{
    lemma_stays_terminated(owner, events);
    lemma_stays_terminated(owner, events.take(i));
}

proof fn lemma_stays_terminated(owner: OwnerThread, events: Seq<OwnerEvent>)
    requires
        owner.phase == OwnerPhase::Terminated,
    ensures
        owner.after(events) == owner,
    decreases events.len(),
{
    if events.len() > 0 {
        lemma_stays_terminated(owner, events.drop_last());
    }
}

/// A thread that has terminated in the course of a run is terminated at every
/// later step of it.
proof fn lemma_wind_down(owner: OwnerThread, events: Seq<OwnerEvent>, i: int, j: int)
    requires
        0 <= i <= j <= events.len(),
        owner.phase_at(events, i) == OwnerPhase::Terminated,
    ensures
        owner.phase_at(events, j) == OwnerPhase::Terminated,
    decreases j - i,
{
    if i < j {
        lemma_wind_down(owner, events, i, j - 1);
        lemma_one_more_event(owner, events, j - 1);
    }
}

/// Whether an action is the call that gives a device back.
pub open spec fn gives_back(action: OwnerAction) -> bool {
    action matches OwnerAction::Call(GatewayCall::Relinquish { .. })
}

/// The device is given back at most once, the thread does so only on the
/// command to terminate, and nothing but leaving follows: whatever is sent
/// after that command is never applied.
pub proof fn law_nothing_follows_relinquish(
    owner: OwnerThread,
    events: Seq<OwnerEvent>,
    i: int,
    j: int,
)
    requires
        0 <= i < j < events.len(),
        gives_back(owner.action_at(events, i)),
    ensures
        owner.phase_at(events, i) == OwnerPhase::Listening,
        events[i] == OwnerEvent::Received(JoystickThreadCommand::Terminate),
        owner.action_at(events, i) == OwnerAction::Call(
            GatewayCall::Relinquish { device: owner.device },
        ),
        owner.action_at(events, j) is Exit || owner.action_at(events, j) is Abort,
{
    law_device_is_kept(owner, events.take(i));
    lemma_one_more_event(owner, events, i);
    assert(owner.phase_at(events, i + 1) == OwnerPhase::Relinquishing);
    if j > i + 1 {
        lemma_one_more_event(owner, events, i + 1);
        assert(owner.phase_at(events, i + 2) == OwnerPhase::Terminated);
        lemma_wind_down(owner, events, i + 2, j);
    }
}

/// A device that is neither owned nor free is left alone. The thread asks
/// for its state, announces that state as the reason of the failure, and
/// leaves: it never tries to acquire the device, never resets it, never gives
/// it back, and never waits for a command.
pub proof fn law_unavailable_device_is_left_alone(
    owner: OwnerThread,
    events: Seq<OwnerEvent>,
    stat: Stat,
    i: int,
)
    requires
        owner.phase == OwnerPhase::Starting,
        events.len() >= 2,
        events[0] is Started,
        events[1] == OwnerEvent::Status(stat),
        stat != Stat::Own,
        stat != Stat::Free,
        0 <= i < events.len(),
    ensures
        i == 0 ==> owner.action_at(events, i) == OwnerAction::Call(
            GatewayCall::GetStatus { device: owner.device },
        ),
        i == 1 ==> owner.action_at(events, i) == OwnerAction::Announce(
            Err(Error::CouldNotAcquire(stat)),
        ),
        i >= 2 ==> owner.action_at(events, i) is Exit || owner.action_at(events, i) is Abort,
        owner.phase_at(events, i).state() != OwnerState::Running,
{
    assert(events.take(0) == Seq::<OwnerEvent>::empty());
    lemma_one_more_event(owner, events, 0);
    lemma_one_more_event(owner, events, 1);
    assert(owner.phase_at(events, 2) is AnnouncingFailure);
    if i > 2 {
        lemma_one_more_event(owner, events, 2);
        lemma_wind_down(owner, events, 3, i);
    }
}

/// A free device that cannot be acquired is not reset, and the thread leaves
/// without waiting for a command.
pub proof fn law_failed_acquire_ends_the_thread(
    owner: OwnerThread,
    events: Seq<OwnerEvent>,
    i: int,
)
    requires
        owner.phase == OwnerPhase::Starting,
        events.len() >= 3,
        events[0] is Started,
        events[1] == OwnerEvent::Status(Stat::Free),
        events[2] == OwnerEvent::Flag(false),
        0 <= i < events.len(),
    ensures
        i == 1 ==> owner.action_at(events, i) == OwnerAction::Call(
            GatewayCall::Acquire { device: owner.device },
        ),
        i == 2 ==> owner.action_at(events, i) == OwnerAction::Announce(
            Err(Error::CouldNotAcquire(Stat::Free)),
        ),
        i >= 3 ==> owner.action_at(events, i) is Exit || owner.action_at(events, i) is Abort,
        owner.phase_at(events, i).state() != OwnerState::Running,
{
    assert(events.take(0) == Seq::<OwnerEvent>::empty());
    lemma_one_more_event(owner, events, 0);
    lemma_one_more_event(owner, events, 1);
    lemma_one_more_event(owner, events, 2);
    assert(owner.phase_at(events, 3) is AnnouncingFailure);
    if i > 3 {
        lemma_one_more_event(owner, events, 3);
        lemma_wind_down(owner, events, 4, i);
    }
}

/// Where the loop did as it was told, the thread is always waiting for
/// what comes.
pub proof fn lemma_obeyed_run_is_expected(owner: OwnerThread, events: Seq<OwnerEvent>, i: int)
    requires
        owner.phase == OwnerPhase::Starting,
        owner.obeyed(events),
        0 <= i < events.len(),
    ensures
        owner.phase_at(events, i).expects(events[i]),
{
    if i == 0 {
        assert(events.take(0) == Seq::<OwnerEvent>::empty());
    } else {
        lemma_one_more_event(owner, events, i - 1);
        assert(answers(owner.action_at(events, i - 1), events[i]));
    }
}

/// Where the loop did as it was told, what the thread announces is what the
/// driver's answers come to, and it announces it once.
pub proof fn law_announcement_tells_the_outcome(
    owner: OwnerThread,
    events: Seq<OwnerEvent>,
    i: int,
)
    requires
        owner.phase == OwnerPhase::Starting,
        owner.obeyed(events),
        0 <= i < events.len(),
        owner.action_at(events, i) is Announce,
    ensures
        1 <= i <= 3,
        events[1] is Status,
        owner.action_at(events, i) == OwnerAction::Announce(
            start_outcome(events[1]->Status_0, acquire_succeeded(events)),
        ),
        forall|j: int|
            0 <= j < events.len() && j != i ==> !(#[trigger] owner.action_at(events, j)
                is Announce),
{
    lemma_start_unfolds(owner, events, i);
    assert forall|j: int| 0 <= j < events.len() && j != i implies !(#[trigger] owner.action_at(
        events,
        j,
    ) is Announce) by {
        lemma_start_unfolds(owner, events, j);
    }
}

/// Where the loop did as it was told, the start goes by the driver's answers:
/// the thread makes the calls that these answers ask for, in order and no
/// others, then announces what they come to, and then waits for a command if
/// it holds the device and leaves if it does not.
pub proof fn law_start_goes_by_the_answers(owner: OwnerThread, events: Seq<OwnerEvent>, i: int)
    requires
        owner.phase == OwnerPhase::Starting,
        owner.obeyed(events),
        0 <= i < events.len(),
        events.len() >= 2,
        events[1] == OwnerEvent::Status(Stat::Free) ==> events.len() >= 3,
    ensures
        ({
            let stat = events[1]->Status_0;
            let acquired = acquire_succeeded(events);
            let calls = start_calls(owner.device, stat, acquired);
            let outcome = start_outcome(stat, acquired);
            &&& events[1] is Status
            &&& i < calls.len() ==> owner.action_at(events, i) == OwnerAction::Call(calls[i])
            &&& i == calls.len() ==> owner.action_at(events, i) == OwnerAction::Announce(outcome)
            &&& i == calls.len() + 1 ==> owner.action_at(events, i) == if outcome is Ok {
                OwnerAction::Receive
            } else {
                OwnerAction::Exit
            }
        }),
{
    assert(events.take(0) == Seq::<OwnerEvent>::empty());
    lemma_one_more_event(owner, events, 0);
    assert(answers(owner.action_at(events, 0), events[1]));
    lemma_one_more_event(owner, events, 1);
    if i >= 2 {
        assert(answers(owner.action_at(events, 1), events[2]));
        lemma_one_more_event(owner, events, 2);
    }
    if i >= 3 {
        assert(answers(owner.action_at(events, 2), events[3]));
        lemma_one_more_event(owner, events, 3);
    }
    if i >= 4 {
        assert(answers(owner.action_at(events, 3), events[4]));
        lemma_one_more_event(owner, events, 4);
    }
}

/// Whether the third event of a run says that a call succeeded. Where the
/// device was reported free, that call is the one that acquires it.
pub open spec fn acquire_succeeded(events: Seq<OwnerEvent>) -> bool {
    events.len() > 2 && events[2] == OwnerEvent::Flag(true)
}

/// The first steps of a run in which the loop did as it was told.
proof fn lemma_start_unfolds(owner: OwnerThread, events: Seq<OwnerEvent>, i: int)
    requires
        owner.phase == OwnerPhase::Starting,
        owner.obeyed(events),
        0 <= i < events.len(),
    ensures
        i >= 1 ==> events[1] is Status,
        owner.action_at(events, i) is Announce ==> owner.action_at(events, i)
            == OwnerAction::Announce(
            start_outcome(events[1]->Status_0, acquire_succeeded(events)),
        ),
        owner.action_at(events, i) is Announce <==> i == announcing_step(events),
{
    assert(events.take(0) == Seq::<OwnerEvent>::empty());
    lemma_one_more_event(owner, events, 0);
    if i >= 1 {
        assert(answers(owner.action_at(events, 0), events[1]));
        lemma_one_more_event(owner, events, 1);
    }
    if i >= 2 {
        assert(answers(owner.action_at(events, 1), events[2]));
        lemma_one_more_event(owner, events, 2);
    }
    if i >= 3 {
        assert(answers(owner.action_at(events, 2), events[3]));
        lemma_one_more_event(owner, events, 3);
    }
    if i >= 4 {
        lemma_no_second_announcement(owner, events, 4, i);
    }
}

/// The step of an obeyed run at which the outcome of the start is announced.
spec fn announcing_step(events: Seq<OwnerEvent>) -> int {
    if events.len() < 2 || !(events[1] is Status) {
        -1
    } else if events[1] == OwnerEvent::Status(Stat::Own) {
        2
    } else if events[1] == OwnerEvent::Status(Stat::Free) {
        if events.len() < 3 {
            -1
        } else if events[2] == OwnerEvent::Flag(true) {
            3
        } else {
            2
        }
    } else {
        1
    }
}

/// Whether the thread has made up its mind about the start.
spec fn past_the_start(phase: OwnerPhase) -> bool {
    !(phase is Starting || phase is QueryingStatus || phase is Acquiring || phase is Resetting)
}

proof fn lemma_no_second_announcement(
    owner: OwnerThread,
    events: Seq<OwnerEvent>,
    from: int,
    i: int,
)
    requires
        0 <= from <= i < events.len(),
        past_the_start(owner.phase_at(events, from)),
    ensures
        past_the_start(owner.phase_at(events, i)),
        !(owner.action_at(events, i) is Announce),
    decreases i - from,
{
    if from < i {
        lemma_no_second_announcement(owner, events, from, i - 1);
        lemma_one_more_event(owner, events, i - 1);
    }
}

/// Where the loop did as it was told, every command that arrives is applied
/// at once, by the call that stands for it, and the thread gives up only
/// when the channel has lost its senders.
pub proof fn law_commands_are_applied_as_they_come(
    owner: OwnerThread,
    events: Seq<OwnerEvent>,
    i: int,
)
    requires
        owner.phase == OwnerPhase::Starting,
        owner.obeyed(events),
        0 <= i < events.len(),
    ensures
        events[i] matches OwnerEvent::Received(command) ==> owner.action_at(events, i)
            == OwnerAction::Call(call_for(owner.device, command)),
        owner.action_at(events, i) is Abort <==> events[i] is Disconnected,
        owner.action_at(events, i) matches OwnerAction::Call(GatewayCall::SetButton { .. })
            ==> events[i] is Received,
{
    lemma_obeyed_run_is_expected(owner, events, i);
    law_device_is_kept(owner, events.take(i));
}

/// Where the loop did as it was told, the command to terminate makes the
/// thread give the device back, at once and exactly once: it makes that call
/// at the step at which the command arrives and at no other step of the run.
pub proof fn law_terminate_gives_the_device_back_once(
    owner: OwnerThread,
    events: Seq<OwnerEvent>,
    i: int,
)
    requires
        owner.phase == OwnerPhase::Starting,
        owner.obeyed(events),
        0 <= i < events.len(),
        events[i] == OwnerEvent::Received(JoystickThreadCommand::Terminate),
    ensures
        owner.action_at(events, i) == OwnerAction::Call(
            GatewayCall::Relinquish { device: owner.device },
        ),
        forall|j: int|
            0 <= j < events.len() && j != i ==> !gives_back(#[trigger] owner.action_at(events, j)),
{
    law_commands_are_applied_as_they_come(owner, events, i);
    assert forall|j: int| 0 <= j < events.len() && j != i implies !gives_back(
        #[trigger] owner.action_at(events, j),
    ) by {
        if gives_back(owner.action_at(events, j)) {
            if j < i {
                law_nothing_follows_relinquish(owner, events, j, i);
            } else {
                law_nothing_follows_relinquish(owner, events, i, j);
            }
        }
    }
}

/// A press that arrives before the release of the same button reaches the
/// device before it: the device sees the button go down at the step at which
/// the press arrives and sees it go up at the later step at which the release
/// arrives.
pub proof fn law_press_reaches_the_device_before_release(
    owner: OwnerThread,
    events: Seq<OwnerEvent>,
    button: Button,
    i: int,
    j: int,
)
    requires
        owner.phase == OwnerPhase::Starting,
        owner.obeyed(events),
        0 <= i < j < events.len(),
        events[i] == OwnerEvent::Received(JoystickThreadCommand::PressButton(button)),
        events[j] == OwnerEvent::Received(JoystickThreadCommand::ReleaseButton(button)),
    ensures
        owner.action_at(events, i) == OwnerAction::Call(
            GatewayCall::SetButton { pressed: true, device: owner.device, button },
        ),
        owner.action_at(events, j) == OwnerAction::Call(
            GatewayCall::SetButton { pressed: false, device: owner.device, button },
        ),
{
    law_commands_are_applied_as_they_come(owner, events, i);
    law_commands_are_applied_as_they_come(owner, events, j);
}

/// A release that comes when the button is already up is not seen: after the
/// call that applies it every button of every device is where it was. So a
/// release timer that fires although its button was let go already does no
/// harm.
pub proof fn law_stale_release_is_not_seen(
    calls: Seq<GatewayCall>,
    device: u32,
    button: Button,
    any_device: u32,
    any_button: Button,
)
    requires
        !button_is_down(calls, device, button),
    ensures
        button_is_down(
            calls.push(call_for(device, JoystickThreadCommand::ReleaseButton(button))),
            any_device,
            any_button,
        ) == button_is_down(calls, any_device, any_button),
{
    let release = call_for(device, JoystickThreadCommand::ReleaseButton(button));
    assert(calls.push(release).drop_last() == calls);
    assert(calls.push(release).last() == release);
}

/// A press holds the button down until the release: after the call that
/// applies a press the button is down, and after the call that applies a
/// release it is up, whatever was before.
pub proof fn law_button_follows_the_last_command(
    calls: Seq<GatewayCall>,
    device: u32,
    button: Button,
)
    ensures
        button_is_down(
            calls.push(call_for(device, JoystickThreadCommand::PressButton(button))),
            device,
            button,
        ),
        !button_is_down(
            calls.push(call_for(device, JoystickThreadCommand::ReleaseButton(button))),
            device,
            button,
        ),
{
    let press = call_for(device, JoystickThreadCommand::PressButton(button));
    let release = call_for(device, JoystickThreadCommand::ReleaseButton(button));
    assert(calls.push(press).drop_last() == calls);
    assert(calls.push(press).last() == press);
    assert(calls.push(release).drop_last() == calls);
    assert(calls.push(release).last() == release);
}

} // verus!
