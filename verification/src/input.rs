//! What the user's keys mean.

use vstd::prelude::*;

verus! {

/// Milliseconds to wait for an event of the terminal before the screen is drawn again.
pub const INPUT_WAIT_MILLIS: u64 = 200;

/// A key: one that stands for a character, or any other.
#[derive(Debug, Clone, Copy, PartialEq, Eq, Structural)]
pub enum Key {
    Char(char),
    Other,
}

/// What happened to a key.
#[derive(Debug, Clone, Copy, PartialEq, Eq, Structural)]
pub enum KeyChange {
    Press,
    Repeat,
    Release,
}

/// An event of the terminal: one of the keyboard, or any other.
#[derive(Debug, Clone, Copy, PartialEq, Eq, Structural)]
pub enum TerminalEvent {
    Keyboard(KeyChange, Key),
    Other,
}

/// What the user asks for.
#[derive(Debug, Clone, Copy, PartialEq, Eq, Structural)]
pub enum UserAction {
    Nothing,
    Activity,
    Refresh,
    Quit,
}

/// What an event means, where one came in time.
pub fn handle_input(event: Option<TerminalEvent>) -> (action: UserAction)
    ensures
        action == match event {
            Some(TerminalEvent::Keyboard(KeyChange::Press, key)) => if key == Key::Char('q') {
                UserAction::Quit
            } else if key == Key::Char('r') {
                UserAction::Refresh
            } else {
                UserAction::Activity
            },
            _ => UserAction::Nothing,
        },
{
    if let Some(TerminalEvent::Keyboard(KeyChange::Press, key)) = event {
        return match key {
            Key::Char('q') => UserAction::Quit,
            Key::Char('r') => UserAction::Refresh,
            _ => UserAction::Activity,
        };
    }
    UserAction::Nothing
}

/// The user quits just by pressing q, asks for a refresh just by pressing r, and
/// is active just by pressing any other key. Nothing else means anything.
pub proof fn law_keys_mean_what_the_footer_says(event: Option<TerminalEvent>, action: UserAction)
    requires
        call_ensures(handle_input, (event,), action),
    ensures
        action is Quit <==> event == Some(
            TerminalEvent::Keyboard(KeyChange::Press, Key::Char('q')),
        ),
        action is Refresh <==> event == Some(
            TerminalEvent::Keyboard(KeyChange::Press, Key::Char('r')),
        ),
        action is Nothing <==> !(event matches Some(TerminalEvent::Keyboard(change, _))
            && change is Press),
        action is Activity <==> (event matches Some(TerminalEvent::Keyboard(change, key)) && change
            is Press && key != Key::Char('q') && key != Key::Char('r')),
{
}

/// Where no event comes, the screen is drawn again five times a second.
pub proof fn law_screen_is_redrawn()
    ensures
        5 * INPUT_WAIT_MILLIS == 1000,
{
}

} // verus!
