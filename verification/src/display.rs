//! The lines that a client shows to its user.

use crate::clock::{fmt_ts, stamp_text};
use crate::message::{text_of, MessageView};
use crate::protocol::{Action, ActionView, Event, EventView};
use vstd::prelude::*;
use vstd::string::StringExecFns;

verus! {

/// The menu, line by line.
pub open spec fn menu_text() -> Seq<Seq<char>> {
    seq![
        "  Commands:"@,
        "    @name <message>           send an encrypted message"@,
        "    @name !<hidden> <visible>  send a message with an embedded hidden payload"@,
        "      e.g.  @bob !meet at 9pm Let's catch up sometime"@,
        "    :quit                     disconnect and exit"@,
        ""@,
    ]
}

/// What a client greets its user with.
pub open spec fn banner_text(name: Seq<char>, now: u64) -> Seq<char> {
    "  Secure Chat  |  connected as "@ + name + "  |  "@ + stamp_text(now)
}

/// A time in brackets, in front of a line.
pub open spec fn stamped(time: u64, line: Seq<char>) -> Seq<char> {
    "["@ + stamp_text(time) + "] "@ + line
}

/// What is shown of a message that was sent.
pub open spec fn echo_text(
    target: Seq<char>,
    visible: Seq<char>,
    hidden: Option<Seq<char>>,
) -> Seq<char> {
    match hidden {
        Some(text) => "you -> "@ + target + " [hidden: "@ + text + "] [visible: "@ + visible + "]"@,
        None => "you -> "@ + target + ": "@ + visible,
    }
}

/// What is shown of an action.
pub open spec fn action_text(action: ActionView, now: u64) -> Seq<Seq<char>> {
    match action {
        ActionView::Quit => seq!["Goodbye."@],
        ActionView::Usage => seq!["Usage: @name <message>  or  @name !<hidden> visible"@],
        ActionView::HiddenSyntax => seq!["Hidden syntax: @name !<hidden text> visible text"@],
        ActionView::Unknown => seq!["Unknown command. Use @name <message> or :quit"@],
        ActionView::Exchange { target, .. } => seq![
            stamped(now, "Initiating key exchange with "@ + target + "..."@),
            "  Resend your message once the channel is established."@,
        ],
        ActionView::Deliver { target, visible, hidden, message } => seq![
            stamped(message.timestamp, echo_text(target, visible, hidden)),
        ],
    }
}

/// What is shown of an event; for a message of the system see
/// [`system_line`].
pub open spec fn event_text(event: EventView, now: u64) -> Seq<Seq<char>> {
    match event {
        EventView::Ignored => Seq::empty(),
        EventView::Established { peer, .. } => seq![
            stamped(now, "Secure channel established with "@ + peer),
        ],
        EventView::NoKey { from } => seq![
            stamped(now, "No key for '"@ + from + "', message discarded"@),
        ],
        EventView::Text { from, timestamp, text } => seq![
            stamped(timestamp, from + ": "@ + text),
        ],
        EventView::TextAndHidden { from, timestamp, text, hidden } => seq![
            stamped(timestamp, from + ": "@ + text),
            stamped(timestamp, "*** hidden from "@ + from + ": "@ + hidden),
        ],
        EventView::HiddenFailed { from, timestamp, text } => seq![
            stamped(timestamp, from + ": "@ + text + " [hidden decode failed]"@),
        ],
        EventView::System => Seq::empty(),
    }
}

/// The texts of lines.
pub open spec fn texts_of(lines: Seq<String>) -> Seq<Seq<char>> {
    lines.map_values(|line: String| line@)
}

/// A line alone.
fn one_line(line: String) -> (lines: Vec<String>)
    ensures
        texts_of(lines@) == seq![line@],
{
    let mut lines: Vec<String> = Vec::new();
    lines.push(line);
    assert(texts_of(lines@) =~= seq![line@]);
    lines
}

/// A line and another one.
fn two_lines(first: String, second: String) -> (lines: Vec<String>)
    ensures
        texts_of(lines@) == seq![first@, second@],
{
    let mut lines: Vec<String> = Vec::new();
    lines.push(first);
    lines.push(second);
    assert(texts_of(lines@) =~= seq![first@, second@]);
    lines
}

/// The start of a line: a time in brackets.
fn start_line(time: u64) -> (line: String)
    ensures
        line@ == "["@ + stamp_text(time) + "] "@,
{
    let mut line = String::from_str("[");
    line.append(fmt_ts(time).as_str());
    line.append("] ");
    line
}

/// `from: text` behind a time.
fn text_line(time: u64, from: &str, text: &str) -> (line: String)
    ensures
        line@ == stamped(time, from@ + ": "@ + text@),
{
    let mut line = start_line(time);
    line.append(from);
    line.append(": ");
    line.append(text);
    assert(line@ =~= stamped(time, from@ + ": "@ + text@));
    line
}

/// The commands that a user has, line by line.
pub fn menu() -> (lines: Vec<String>)
    ensures
        texts_of(lines@) == menu_text(),
{
    let mut lines: Vec<String> = Vec::new();
    lines.push(String::from_str("  Commands:"));
    lines.push(String::from_str("    @name <message>           send an encrypted message"));
    lines.push(
        String::from_str(
            "    @name !<hidden> <visible>  send a message with an embedded hidden payload",
        ),
    );
    lines.push(String::from_str("      e.g.  @bob !meet at 9pm Let's catch up sometime"));
    lines.push(String::from_str("    :quit                     disconnect and exit"));
    lines.push(String::from_str(""));
    assert(texts_of(lines@) =~= menu_text());
    lines
}

/// What a client greets its user with.
pub fn banner(name: &str, now: u64) -> (line: String)
    ensures
        line@ == banner_text(name@, now),
{
    let mut line = String::from_str("  Secure Chat  |  connected as ");
    line.append(name);
    line.append("  |  ");
    line.append(fmt_ts(now).as_str());
    line
}

/// What is shown where a message could not be sent.
pub fn unsent_line(reason: &str) -> (line: String)
    ensures
        line@ == "Send failed: "@ + reason@,
{
    let mut line = String::from_str("Send failed: ");
    line.append(reason);
    line
}

/// What is shown of a message of the system, which is written out as a whole.
pub fn system_line(written_out: &str, now: u64) -> (line: String)
    ensures
        line@ == stamped(now, "[system] "@ + written_out@),
{
    let mut line = start_line(now);
    line.append("[system] ");
    line.append(written_out);
    assert(line@ =~= stamped(now, "[system] "@ + written_out@));
    line
}

impl Action {
    /// The lines to show; `now` is when the action is taken.
    pub fn lines(&self, now: u64) -> (lines: Vec<String>)
        ensures
            texts_of(lines@) == action_text(self@, now),
    {
        match self {
            Action::Quit => one_line(String::from_str("Goodbye.")),
            Action::Usage => one_line(
                String::from_str("Usage: @name <message>  or  @name !<hidden> visible"),
            ),
            Action::HiddenSyntax => one_line(
                String::from_str("Hidden syntax: @name !<hidden text> visible text"),
            ),
            Action::Unknown => one_line(
                String::from_str("Unknown command. Use @name <message> or :quit"),
            ),
            Action::Exchange { target, request: _ } => {
                let mut line = start_line(now);
                line.append("Initiating key exchange with ");
                line.append(target.as_str());
                line.append("...");
                assert(line@ =~= stamped(
                    now,
                    "Initiating key exchange with "@ + target@ + "..."@,
                ));
                two_lines(
                    line,
                    String::from_str("  Resend your message once the channel is established."),
                )
            },
            Action::Deliver { target, visible, hidden, message } => {
                let mut line = start_line(message.timestamp);
                line.append("you -> ");
                line.append(target.as_str());
                match hidden {
                    Some(text) => {
                        line.append(" [hidden: ");
                        line.append(text.as_str());
                        line.append("] [visible: ");
                        line.append(visible.as_str());
                        line.append("]");
                    },
                    None => {
                        line.append(": ");
                        line.append(visible.as_str());
                    },
                }
                assert(line@ =~= stamped(
                    message.timestamp,
                    echo_text(target@, visible@, text_of(*hidden)),
                ));
                one_line(line)
            },
        }
    }
}

impl Event {
    /// The lines to show; `now` is when the event is seen.
    pub fn lines(&self, now: u64) -> (lines: Vec<String>)
        ensures
            texts_of(lines@) == event_text(self@, now),
    {
        match self {
            Event::Established { peer, reply: _ } => {
                let mut line = start_line(now);
                line.append("Secure channel established with ");
                line.append(peer.as_str());
                assert(line@ =~= stamped(now, "Secure channel established with "@ + peer@));
                one_line(line)
            },
            Event::NoKey { from } => {
                let mut line = start_line(now);
                line.append("No key for '");
                line.append(from.as_str());
                line.append("', message discarded");
                assert(line@ =~= stamped(now, "No key for '"@ + from@ + "', message discarded"@));
                one_line(line)
            },
            Event::Text { from, timestamp, text } => one_line(
                text_line(*timestamp, from.as_str(), text.as_str()),
            ),
            Event::TextAndHidden { from, timestamp, text, hidden } => {
                let first = text_line(*timestamp, from.as_str(), text.as_str());
                let mut line = start_line(*timestamp);
                line.append("*** hidden from ");
                line.append(from.as_str());
                line.append(": ");
                line.append(hidden.as_str());
                assert(line@ =~= stamped(
                    *timestamp,
                    "*** hidden from "@ + from@ + ": "@ + hidden@,
                ));
                two_lines(first, line)
            },
            Event::HiddenFailed { from, timestamp, text } => {
                let mut line = text_line(*timestamp, from.as_str(), text.as_str());
                line.append(" [hidden decode failed]");
                assert(line@ =~= stamped(
                    *timestamp,
                    from@ + ": "@ + text@ + " [hidden decode failed]"@,
                ));
                one_line(line)
            },
            Event::Ignored | Event::System => {
                let lines: Vec<String> = Vec::new();
                assert(texts_of(lines@) =~= Seq::empty());
                lines
            },
        }
    }
}

/// A chat message is shown in one line, which starts with its time of day in
/// brackets and goes on with its sender, a colon, a space and the whole text.
/// The sentinel bit makes no difference.
pub proof fn text_is_shown(from: Seq<char>, timestamp: u64, text: Seq<char>, now: u64)
    ensures
        ({
            let lines = event_text(EventView::Text { from, timestamp, text }, now);
            &&& lines.len() == 1
            &&& lines[0] == "["@ + stamp_text(timestamp) + "] "@ + from + ": "@ + text
        }),
{
    assert(event_text(EventView::Text { from, timestamp, text }, now)[0] =~= "["@ + stamp_text(
        timestamp,
    ) + "] "@ + from + ": "@ + text);
}

/// Of two chat messages from one sender at one time, what is shown is the same
/// only where the texts are.
pub proof fn texts_are_told_apart(
    from: Seq<char>,
    timestamp: u64,
    text: Seq<char>,
    other: Seq<char>,
    now: u64,
)
    requires
        event_text(EventView::Text { from, timestamp, text }, now) == event_text(
            EventView::Text { from, timestamp, text: other },
            now,
        ),
    ensures
        text == other,
{
    text_is_shown(from, timestamp, text, now);
    text_is_shown(from, timestamp, other, now);
    let start = "["@ + stamp_text(timestamp) + "] "@ + from + ": "@;
    assert(text =~= (start + text).skip(start.len() as int));
    assert(other =~= (start + other).skip(start.len() as int));
}

/// A hidden text is shown in a line of its own, below the visible one, which is
/// shown as it is without a hidden one.
pub proof fn hidden_is_shown(
    from: Seq<char>,
    timestamp: u64,
    text: Seq<char>,
    hidden: Seq<char>,
    now: u64,
)
    ensures
        ({
            let lines = event_text(
                EventView::TextAndHidden { from, timestamp, text, hidden },
                now,
            );
            &&& lines.len() == 2
            &&& lines[0] == event_text(EventView::Text { from, timestamp, text }, now)[0]
            &&& lines[1] == "["@ + stamp_text(timestamp) + "] *** hidden from "@ + from + ": "@
                + hidden
        }),
{
    reveal_strlit("] ");
    reveal_strlit("*** hidden from ");
    reveal_strlit("] *** hidden from ");
    assert("] *** hidden from "@ =~= "] "@ + "*** hidden from "@);
    assert(event_text(EventView::TextAndHidden { from, timestamp, text, hidden }, now)[1] =~= "["@
        + stamp_text(timestamp) + "] *** hidden from "@ + from + ": "@ + hidden);
}

/// Where a hidden text cannot be read, the visible one is shown as ever, and
/// the line says so at its end.
pub proof fn failure_is_shown(from: Seq<char>, timestamp: u64, text: Seq<char>, now: u64)
    ensures
        ({
            let lines = event_text(EventView::HiddenFailed { from, timestamp, text }, now);
            &&& lines.len() == 1
            &&& lines[0] == event_text(EventView::Text { from, timestamp, text }, now)[0]
                + " [hidden decode failed]"@
        }),
{
    assert(event_text(EventView::HiddenFailed { from, timestamp, text }, now)[0] =~= event_text(
        EventView::Text { from, timestamp, text },
        now,
    )[0] + " [hidden decode failed]"@);
}

/// What concerns a peer is shown at the present time and names the peer;
/// whether a reply is owed makes no difference. Of anything else nothing is
/// shown.
pub proof fn peers_are_named(peer: Seq<char>, reply: Option<MessageView>, now: u64)
    ensures
        event_text(EventView::Established { peer, reply }, now) == seq![
            "["@ + stamp_text(now) + "] Secure channel established with "@ + peer,
        ],
        event_text(EventView::NoKey { from: peer }, now) == seq![
            "["@ + stamp_text(now) + "] No key for '"@ + peer + "', message discarded"@,
        ],
        event_text(EventView::Ignored, now).len() == 0,
        event_text(EventView::System, now).len() == 0,
{
    reveal_strlit("] ");
    reveal_strlit("Secure channel established with ");
    reveal_strlit("] Secure channel established with ");
    reveal_strlit("No key for '");
    reveal_strlit("] No key for '");
    assert("] Secure channel established with "@ =~= "] "@ + "Secure channel established with "@);
    assert("] No key for '"@ =~= "] "@ + "No key for '"@);
    assert(event_text(EventView::Established { peer, reply }, now)[0] =~= "["@ + stamp_text(now)
        + "] Secure channel established with "@ + peer);
    assert(event_text(EventView::NoKey { from: peer }, now)[0] =~= "["@ + stamp_text(now)
        + "] No key for '"@ + peer + "', message discarded"@);
}

/// The user is told what was sent to whom, with the time of the message: the
/// visible text, and the hidden one where there is one.
pub proof fn delivery_is_shown(
    target: Seq<char>,
    visible: Seq<char>,
    hidden: Seq<char>,
    message: MessageView,
    now: u64,
)
    ensures
        action_text(ActionView::Deliver { target, visible, hidden: None, message }, now) == seq![
            "["@ + stamp_text(message.timestamp) + "] you -> "@ + target + ": "@ + visible,
        ],
        action_text(
            ActionView::Deliver { target, visible, hidden: Some(hidden), message },
            now,
        ) == seq![
            "["@ + stamp_text(message.timestamp) + "] you -> "@ + target + " [hidden: "@ + hidden
                + "] [visible: "@ + visible + "]"@,
        ],
{
    reveal_strlit("] ");
    reveal_strlit("you -> ");
    reveal_strlit("] you -> ");
    assert("] you -> "@ =~= "] "@ + "you -> "@);
    assert(action_text(ActionView::Deliver { target, visible, hidden: None, message }, now)[0]
        =~= "["@ + stamp_text(message.timestamp) + "] you -> "@ + target + ": "@ + visible);
    assert(action_text(
        ActionView::Deliver { target, visible, hidden: Some(hidden), message },
        now,
    )[0] =~= "["@ + stamp_text(message.timestamp) + "] you -> "@ + target + " [hidden: "@ + hidden
        + "] [visible: "@ + visible + "]"@);
}

/// The user is told with whom a key is asked for, at the present time, and to
/// send the message again.
pub proof fn exchange_is_shown(target: Seq<char>, request: MessageView, now: u64)
    ensures
        action_text(ActionView::Exchange { target, request }, now) == seq![
            "["@ + stamp_text(now) + "] Initiating key exchange with "@ + target + "..."@,
            "  Resend your message once the channel is established."@,
        ],
{
    reveal_strlit("] ");
    reveal_strlit("Initiating key exchange with ");
    reveal_strlit("] Initiating key exchange with ");
    assert("] Initiating key exchange with "@ =~= "] "@ + "Initiating key exchange with "@);
    assert(action_text(ActionView::Exchange { target, request }, now)[0] =~= "["@ + stamp_text(now)
        + "] Initiating key exchange with "@ + target + "..."@);
}

/// What is shown of a command that sends nothing does not depend on the time.
pub proof fn hints_are_shown(now: u64)
    ensures
        action_text(ActionView::Quit, now) == seq!["Goodbye."@],
        action_text(ActionView::Usage, now) == seq![
            "Usage: @name <message>  or  @name !<hidden> visible"@,
        ],
        action_text(ActionView::HiddenSyntax, now) == seq![
            "Hidden syntax: @name !<hidden text> visible text"@,
        ],
        action_text(ActionView::Unknown, now) == seq![
            "Unknown command. Use @name <message> or :quit"@,
        ],
{
}

/// The greeting names the user and the time of day.
pub proof fn banner_is_shown(name: Seq<char>, now: u64)
    ensures
        banner_text(name, now) == "  Secure Chat  |  connected as "@ + name + "  |  "@ + stamp_text(
            now,
        ),
{
}

/// Lines are shown one for one.
pub proof fn lines_are_shown(lines: Seq<String>)
    ensures
        texts_of(lines).len() == lines.len(),
        forall|i: int| 0 <= i < lines.len() ==> #[trigger] texts_of(lines)[i] == lines[i]@,
{
}

} // verus!
