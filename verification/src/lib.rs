//! The backend logic of a minimal desktop shell: a single `notify` command
//! receives a text message from the front-end layer and announces it on the
//! process console. The console line itself is the only computation the
//! backend performs, so this library states and proves exactly what that
//! line holds. Writing the line out, and the windowing runtime around it,
//! are the application's concern, not the library's.

use vstd::prelude::*;
use vstd::string::StringExecFns;

verus! {

/// The fixed prefix that every notification line carries.
pub open spec fn notify_prefix() -> Seq<char> {
    "Notification from renderer: "@
}

/// The console line for a message: the fixed prefix followed by the
/// message itself, character for character.
pub open spec fn notification_line(m: Seq<char>) -> Seq<char> {
    notify_prefix() + m
}

/// Builds the console line for `message`.
///
/// The function is total: it has no precondition, so it accepts every
/// well-formed text message, the empty one and non-ASCII ones included,
/// and cannot fail or panic.
pub fn notify_line(message: &str) -> (line: String)
    ensures
        line@ == notification_line(message@),
{
    let prefix: String = String::from_str("Notification from renderer: ");
    prefix.concat(message)
}

/// Repeated invocations with the same message are idempotent in their
/// observable output: the line is a function of the message alone, so any
/// number of calls produce that many identical lines and no other state.
pub proof fn lemma_repeated_lines_identical(m: Seq<char>, l1: Seq<char>, l2: Seq<char>)
    requires
        l1 == notification_line(m),
        l2 == notification_line(m),
    ensures
        l1 == l2,
{
}

/// The line holds the prefix and the message and nothing else: its length
/// is the sum of theirs, its head is the prefix, and its tail is the
/// message unchanged.
pub proof fn lemma_line_is_prefix_then_message(m: Seq<char>)
    ensures
        notification_line(m).len() == notify_prefix().len() + m.len(),
        notification_line(m).take(notify_prefix().len() as int) == notify_prefix(),
        notification_line(m).skip(notify_prefix().len() as int) == m,
{
    assert(notification_line(m).take(notify_prefix().len() as int) =~= notify_prefix());
    assert(notification_line(m).skip(notify_prefix().len() as int) =~= m);
}

} // verus!
