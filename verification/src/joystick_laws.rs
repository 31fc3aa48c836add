//! What holds of every joystick, whatever was done with it.

use crate::command::JoystickThreadCommand;
use crate::joystick::JoystickView;
use crate::Button;
use vstd::prelude::*;

verus! {

/// A joystick that has done nothing yet is in order.
pub proof fn law_fresh_is_in_order(device: u32, delay_ms: i64)
    requires
        -crate::config::MAX_BUTTON_PRESS_DURATION_MS <= delay_ms
            <= crate::config::MAX_BUTTON_PRESS_DURATION_MS,
    ensures
        JoystickView::fresh(device, delay_ms).wf(),
{
}

/// Pressing and closing keep a joystick in order, whether the channel takes
/// the command or not.
pub proof fn law_order_is_kept(joystick: JoystickView, button: Button, taken: bool)
    requires
        joystick.wf(),
        !joystick.closed,
    ensures
        joystick.pressed(button).wf(),
        joystick.refused(JoystickThreadCommand::PressButton(button)).wf(),
        joystick.shut(taken).wf(),
{
}

/// The release of a button is armed only after the press is on the channel,
/// and with the configured delay: the timer that a joystick holds for a
/// button belongs to a press of that button which the channel has taken
/// before the timer was made.
pub proof fn law_release_is_armed_after_its_press(joystick: JoystickView, button: Button)
    requires
        joystick.wf(),
        joystick.releases.contains_key(button),
    ensures
        joystick.releases[button].button == button,
        joystick.releases[button].press < joystick.sent.len(),
        joystick.sent[joystick.releases[button].press as int]
            == JoystickThreadCommand::PressButton(button),
        joystick.releases[button].delay_ms == joystick.delay_ms,
{
}

/// A press puts exactly one command on the channel, the press itself, and
/// leaves the timers of all other buttons as they are.
pub proof fn law_press_sends_the_press_only(joystick: JoystickView, button: Button, other: Button)
    requires
        other != button,
    ensures
        joystick.pressed(button).sent.len() == joystick.sent.len() + 1,
        joystick.pressed(button).sent.last() == JoystickThreadCommand::PressButton(button),
        joystick.pressed(button).sent.drop_last() == joystick.sent,
        joystick.pressed(button).releases.contains_key(other) == joystick.releases.contains_key(
            other,
        ),
        joystick.releases.contains_key(other) ==> joystick.pressed(button).releases[other]
            == joystick.releases[other],
{
}

/// Pressing a button again re-arms its release. After two presses of one
/// button, with presses of other buttons between them or not, the joystick
/// holds one timer for the button, the one of the second press; the timer of
/// the first press is held by nobody any more, which calls it off.
pub proof fn law_second_press_rearms(joystick: JoystickView, button: Button, between: Seq<Button>)
    requires
        joystick.wf(),
        forall|i: int| 0 <= i < between.len() ==> between[i] != button,
    ensures
        ({
            let first = joystick.sent.len();
            let second = first + 1 + between.len();
            let after = pressed_each(joystick.pressed(button), between).pressed(button);
            &&& after.sent[first as int] == JoystickThreadCommand::PressButton(button)
            &&& after.sent[second as int] == JoystickThreadCommand::PressButton(button)
            &&& after.releases[button].press == second
            &&& forall|other: Button| #[trigger]
                after.releases.contains_key(other) ==> after.releases[other].press != first
        }),
{
    let first = joystick.sent.len();
    let once = joystick.pressed(button);
    lemma_pressed_each(once, between);
    let then = pressed_each(once, between);
    let after = then.pressed(button);
    assert(then.sent[first as int] == once.sent[first as int]);
    assert forall|other: Button| #[trigger]
        after.releases.contains_key(other) implies after.releases[other].press != first by {
        if other != button {
            assert(then.releases.contains_key(other));
            if once.releases.contains_key(other) && then.releases[other] == once.releases[other] {
                assert(joystick.releases.contains_key(other));
            }
        }
    }
}

/// The joystick after presses of `buttons`, one after the other, each taken
/// by the channel.
pub open spec fn pressed_each(joystick: JoystickView, buttons: Seq<Button>) -> JoystickView
    decreases buttons.len(),
{
    if buttons.len() == 0 {
        joystick
    } else {
        pressed_each(joystick, buttons.drop_last()).pressed(buttons.last())
    }
}

/// What a row of presses leaves of what was there before: the commands
/// already sent stay where they are, and a button that is not pressed keeps
/// its timer. Every timer that is new belongs to one of the new presses.
proof fn lemma_pressed_each(joystick: JoystickView, buttons: Seq<Button>)
    ensures
        ({
            let after = pressed_each(joystick, buttons);
            &&& after.sent.len() == joystick.sent.len() + buttons.len()
            &&& forall|i: int| 0 <= i < joystick.sent.len() ==> after.sent[i] == joystick.sent[i]
            &&& forall|other: Button| #[trigger]
                after.releases.contains_key(other) ==> {
                    ||| joystick.releases.contains_key(other) && after.releases[other]
                        == joystick.releases[other]
                    ||| after.releases[other].press >= joystick.sent.len() && buttons.contains(
                        other,
                    )
                }
            &&& forall|other: Button|
                joystick.releases.contains_key(other) ==> #[trigger] after.releases.contains_key(
                    other,
                )
        }),
    decreases buttons.len(),
{
    if buttons.len() > 0 {
        let before = pressed_each(joystick, buttons.drop_last());
        lemma_pressed_each(joystick, buttons.drop_last());
        let after = before.pressed(buttons.last());
        assert forall|other: Button| #[trigger] after.releases.contains_key(other) implies {
            ||| joystick.releases.contains_key(other) && after.releases[other]
                == joystick.releases[other]
            ||| after.releases[other].press >= joystick.sent.len() && buttons.contains(other)
        } by {
            if other == buttons.last() {
                assert(buttons[buttons.len() - 1] == other);
            } else {
                assert(before.releases.contains_key(other));
                if !(joystick.releases.contains_key(other) && before.releases[other]
                    == joystick.releases[other]) {
                    let k = choose|k: int|
                        0 <= k < buttons.drop_last().len() && buttons.drop_last()[k] == other;
                    assert(buttons[k] == other);
                }
            }
        }
    }
}

/// The command to terminate is the last thing that a joystick sends, and it
/// sends it once at most: while the joystick is open there is none on the
/// channel, and once it is closed nothing more is sent.
pub proof fn law_terminate_is_sent_last(joystick: JoystickView, i: int)
    requires
        joystick.wf(),
        0 <= i < joystick.sent.len(),
        joystick.sent[i] == JoystickThreadCommand::Terminate,
    ensures
        joystick.closed,
        i == joystick.sent.len() - 1,
        forall|j: int|
            0 <= j < joystick.sent.len() && j != i ==> joystick.sent[j]
                != JoystickThreadCommand::Terminate,
{
}

} // verus!
