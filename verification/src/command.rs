//! What a user types.

use crate::message::text_of;
use vstd::prelude::*;
use vstd::string::{StrSliceExecFns, StringExecFns};

verus! {

/// The characters that have Unicode's `White_Space` property.
pub open spec fn is_white(c: char) -> bool {
    ||| '\u{9}' <= c <= '\u{d}'
    ||| c == ' '
    ||| c == '\u{85}'
    ||| c == '\u{a0}'
    ||| c == '\u{1680}'
    ||| '\u{2000}' <= c <= '\u{200a}'
    ||| c == '\u{2028}'
    ||| c == '\u{2029}'
    ||| c == '\u{202f}'
    ||| c == '\u{205f}'
    ||| c == '\u{3000}'
}

/// A text without the white space that it starts with.
pub open spec fn trim_start(text: Seq<char>) -> Seq<char>
    decreases text.len(),
{
    if text.len() > 0 && is_white(text[0]) {
        trim_start(text.drop_first())
    } else {
        text
    }
}

/// A text without the white space that it ends with.
pub open spec fn trim_end(text: Seq<char>) -> Seq<char>
    decreases text.len(),
{
    if text.len() > 0 && is_white(text.last()) {
        trim_end(text.drop_last())
    } else {
        text
    }
}

/// A text without the white space around it.
pub open spec fn trimmed(text: Seq<char>) -> Seq<char> {
    trim_end(trim_start(text))
}

/// Where a character first occurs.
pub open spec fn position(text: Seq<char>, c: char) -> Option<int>
    decreases text.len(),
{
    if text.len() == 0 {
        None
    } else if text[0] == c {
        Some(0)
    } else {
        match position(text.drop_first(), c) {
            Some(i) => Some(i + 1),
            None => None,
        }
    }
}

/// What the user wants.
#[derive(Debug, Clone)]
pub enum Command {
    /// Leave.
    Quit,
    /// Send a text, and a hidden one with it where there is one.
    Send { target: String, visible: String, hidden: Option<String> },
    /// A name without a message: to be told how to address someone.
    Usage,
    /// A hidden text without its end: to be told how to hide a text.
    HiddenSyntax,
    /// Neither a command nor a message.
    Unknown,
}

/// The mathematical value of a [`Command`].
#[verifier::ext_equal]
pub enum CommandView {
    Quit,
    Send { target: Seq<char>, visible: Seq<char>, hidden: Option<Seq<char>> },
    Usage,
    HiddenSyntax,
    Unknown,
}

impl View for Command {
    type V = CommandView;

    open spec fn view(&self) -> CommandView {
        match *self {
            Command::Quit => CommandView::Quit,
            Command::Send { target, visible, hidden } => CommandView::Send {
                target: target@,
                visible: visible@,
                hidden: text_of(hidden),
            },
            Command::Usage => CommandView::Usage,
            Command::HiddenSyntax => CommandView::HiddenSyntax,
            Command::Unknown => CommandView::Unknown,
        }
    }
}

/// A message for `target`: behind a `!` and up to the first `>` stands a
/// hidden text, and the visible one follows. A `<` in front of the hidden text
/// is part of it. Where a `!` stands without a `>`, nothing is sent: the user
/// is told how to hide a text.
pub open spec fn message_command(target: Seq<char>, message: Seq<char>) -> CommandView {
    if message.len() > 0 && message[0] == '!' {
        let rest = message.skip(1);
        match position(rest, '>') {
            Some(close) => CommandView::Send {
                target,
                visible: trimmed(rest.skip(close + 1)),
                hidden: Some(rest.take(close)),
            },
            None => CommandView::HiddenSyntax,
        }
    } else {
        CommandView::Send { target, visible: message, hidden: None }
    }
}

/// What a line means: `:quit`, or `@`, a name, a space and a message.
pub open spec fn command_of(input: Seq<char>) -> CommandView {
    let line = trimmed(input);
    if line == ":quit"@ {
        CommandView::Quit
    } else if line.len() > 0 && line[0] == '@' {
        let rest = line.skip(1);
        match position(rest, ' ') {
            Some(space) => message_command(rest.take(space), trimmed(rest.skip(space + 1))),
            None => CommandView::Usage,
        }
    } else {
        CommandView::Unknown
    }
}

/// Whether a character is white space.
pub fn is_white_space(c: char) -> (white: bool)
    ensures
        white == is_white(c),
{
    ('\u{9}' <= c && c <= '\u{d}') || c == ' ' || c == '\u{85}' || c == '\u{a0}' || c == '\u{1680}'
        || ('\u{2000}' <= c && c <= '\u{200a}') || c == '\u{2028}' || c == '\u{2029}' || c
        == '\u{202f}' || c == '\u{205f}' || c == '\u{3000}'
}

/// The characters of a text.
fn chars_of(text: &str) -> (chars: Vec<char>)
    ensures
        chars@ == text@,
{
    let mut chars: Vec<char> = Vec::new();
    for c in it: text.chars()
        invariant
            chars@ == text@.take(it.index()),
            it.seq() == text@,
    {
        chars.push(c);
        assert(chars@ =~= text@.take(it.index() + 1));
    }
    assert(text@.take(text@.len() as int) =~= text@);
    chars
}

/// A text without the white space around it.
pub fn trim(text: &str) -> (inner: &str)
    ensures
        inner@ == trimmed(text@),
{
    let chars = chars_of(text);
    let mut start: usize = 0;
    assert(chars@.skip(0) =~= chars@);
    while start < chars.len() && is_white_space(chars[start])
        invariant
            start <= chars@.len(),
            trim_start(chars@.skip(start as int)) == trim_start(chars@),
        decreases chars.len() - start,
    {
        assert(chars@.skip(start as int).drop_first() =~= chars@.skip(start + 1));
        start += 1;
    }
    let ghost body = chars@.skip(start as int);
    let mut end: usize = chars.len();
    assert(chars@.subrange(start as int, end as int) =~= body);
    while start < end && is_white_space(chars[end - 1])
        invariant
            start <= end <= chars@.len(),
            trim_end(chars@.subrange(start as int, end as int)) == trim_end(body),
        decreases end,
    {
        assert(chars@.subrange(start as int, end as int).drop_last() =~= chars@.subrange(
            start as int,
            end - 1,
        ));
        end -= 1;
    }
    text.substring_char(start, end)
}

/// Where a character first occurs, counted in characters.
fn find(text: &str, c: char) -> (found: Option<usize>)
    ensures
        match found {
            Some(i) => position(text@, c) == Some(i as int) && i < text@.len(),
            None => position(text@, c) is None,
        },
{
    let chars = chars_of(text);
    let mut i: usize = 0;
    assert(chars@.skip(0) =~= chars@);
    while i < chars.len()
        invariant
            i <= chars@.len(),
            chars@ == text@,
            position(chars@, c) == match position(chars@.skip(i as int), c) {
                Some(k) => Some(i + k),
                None => None,
            },
        decreases chars.len() - i,
    {
        if chars[i] == c {
            return Some(i);
        }
        assert(chars@.skip(i as int).drop_first() =~= chars@.skip(i + 1));
        i += 1;
    }
    None
}

/// What follows a character that a text starts with.
fn strip(text: &str, c: char) -> (rest: Option<&str>)
    ensures
        match rest {
            Some(r) => text@.len() > 0 && text@[0] == c && r@ == text@.skip(1),
            None => !(text@.len() > 0 && text@[0] == c),
        },
{
    if text.is_empty() || text.get_char(0) != c {
        return None;
    }
    let len: usize = text.unicode_len();
    Some(text.substring_char(1, len))
}

/// What stands before a character's first occurrence, and what behind it.
fn split(text: &str, c: char) -> (parts: Option<(&str, &str)>)
    ensures
        match parts {
            Some((before, behind)) => position(text@, c) matches Some(i) && before@ == text@.take(i)
                && behind@ == text@.skip(i + 1),
            None => position(text@, c) is None,
        },
{
    match find(text, c) {
        Some(i) => {
            let len: usize = text.unicode_len();
            Some((text.substring_char(0, i), text.substring_char(i + 1, len)))
        },
        None => None,
    }
}

/// The command in a line that a user typed.
pub fn parse_line(input: &str) -> (command: Command)
    ensures
        command@ == command_of(input@),
{
    let line = trim(input);
    if String::from_str(line) == String::from_str(":quit") {
        return Command::Quit;
    }
    let rest = match strip(line, '@') {
        Some(rest) => rest,
        None => {
            return Command::Unknown;
        },
    };
    let (target, remainder) = match split(rest, ' ') {
        Some((target, behind)) => (target, trim(behind)),
        None => {
            return Command::Usage;
        },
    };
    match strip(remainder, '!') {
        Some(bang_rest) => match split(bang_rest, '>') {
            Some((hidden, behind)) => Command::Send {
                target: String::from_str(target),
                visible: String::from_str(trim(behind)),
                hidden: Some(String::from_str(hidden)),
            },
            None => Command::HiddenSyntax,
        },
        None => Command::Send {
            target: String::from_str(target),
            visible: String::from_str(remainder),
            hidden: None,
        },
    }
}

/// A text that neither starts nor ends with white space is its own trimmed
/// form.
proof fn already_trimmed(text: Seq<char>)
    requires
        text.len() > 0,
        !is_white(text[0]),
        !is_white(text.last()),
    ensures
        trimmed(text) == text,
{
}

/// Trimming takes nothing but white space from the two ends.
proof fn trimmed_ends(text: Seq<char>)
    requires
        trimmed(text) == text,
        text.len() > 0,
    ensures
        !is_white(text[0]),
        !is_white(text.last()),
{
    trim_start_shortens(text);
    trim_end_shortens(trim_start(text));
}

/// Trimming the start shortens a text that starts with white space.
proof fn trim_start_shortens(text: Seq<char>)
    ensures
        trim_start(text).len() <= text.len(),
        text.len() > 0 && is_white(text[0]) ==> trim_start(text).len() < text.len(),
    decreases text.len(),
{
    if text.len() > 0 && is_white(text[0]) {
        trim_start_shortens(text.drop_first());
    }
}

/// Trimming the end shortens a text that ends with white space.
proof fn trim_end_shortens(text: Seq<char>)
    ensures
        trim_end(text).len() <= text.len(),
        text.len() > 0 && is_white(text.last()) ==> trim_end(text).len() < text.len(),
    decreases text.len(),
{
    if text.len() > 0 && is_white(text.last()) {
        trim_end_shortens(text.drop_last());
    }
}

/// White space in front of a text is trimmed away.
proof fn trim_gap(gap: Seq<char>, text: Seq<char>)
    requires
        forall|i: int| 0 <= i < gap.len() ==> is_white(#[trigger] gap[i]),
        text.len() > 0 ==> !is_white(text[0]),
    ensures
        trim_start(gap + text) == text,
    decreases gap.len(),
{
    if gap.len() == 0 {
        assert(gap + text =~= text);
    } else {
        assert((gap + text).drop_first() =~= gap.drop_first() + text);
        assert forall|i: int| 0 <= i < gap.drop_first().len() implies is_white(
            #[trigger] gap.drop_first()[i],
        ) by {
            assert(gap.drop_first()[i] == gap[i + 1]);
        }
        trim_gap(gap.drop_first(), text);
    }
}

/// White space behind a text is trimmed away.
proof fn trim_tail(text: Seq<char>, gap: Seq<char>)
    requires
        forall|i: int| 0 <= i < gap.len() ==> is_white(#[trigger] gap[i]),
        text.len() > 0,
        !is_white(text.last()),
    ensures
        trim_end(text + gap) == text,
    decreases gap.len(),
{
    if gap.len() == 0 {
        assert(text + gap =~= text);
    } else {
        assert((text + gap).last() == gap.last());
        assert(is_white(gap[gap.len() - 1]));
        assert((text + gap).drop_last() =~= text + gap.drop_last());
        trim_tail(text, gap.drop_last());
    }
}

/// A character first occurs behind a text that does not contain it.
proof fn position_behind(before: Seq<char>, c: char, behind: Seq<char>)
    requires
        !before.contains(c),
    ensures
        position(before + seq![c] + behind, c) == Some(before.len() as int),
    decreases before.len(),
{
    let text = before + seq![c] + behind;
    if before.len() > 0 {
        assert(text[0] == before[0]);
        assert(text.drop_first() =~= before.drop_first() + seq![c] + behind);
        assert forall|i: int| 0 <= i < before.drop_first().len() implies before.drop_first()[i]
            != c by {
            assert(before.drop_first()[i] == before[i + 1]);
        }
        position_behind(before.drop_first(), c, behind);
    }
}

/// `@`, a name without a space, a space and a text mean that the text goes to
/// that name.
pub proof fn plain_line(target: Seq<char>, text: Seq<char>)
    requires
        !target.contains(' '),
        text.len() > 0,
        trimmed(text) == text,
        text[0] != '!',
    ensures
        command_of(seq!['@'] + target + seq![' '] + text) == (CommandView::Send {
            target,
            visible: text,
            hidden: None,
        }),
{
    let line = seq!['@'] + target + seq![' '] + text;
    trimmed_ends(text);
    assert(line.last() == text.last());
    already_trimmed(line);
    reveal_strlit(":quit");
    assert(line[0] != ":quit"@[0]);
    let rest = line.skip(1);
    assert(rest =~= target + seq![' '] + text);
    position_behind(target, ' ', text);
    assert(rest.take(target.len() as int) =~= target);
    assert(rest.skip(target.len() as int + 1) =~= text);
}

/// `@`, a name without a space, a space, `!`, a text without a `>`, a `>`,
/// white space and another text, which may be empty, mean that both texts go
/// to that name, the first one hidden.
pub proof fn hidden_line(
    target: Seq<char>,
    hidden: Seq<char>,
    gap: Seq<char>,
    visible: Seq<char>,
)
    requires
        !target.contains(' '),
        !hidden.contains('>'),
        forall|i: int| 0 <= i < gap.len() ==> is_white(#[trigger] gap[i]),
        trimmed(visible) == visible,
    ensures
        command_of(
            seq!['@'] + target + seq![' '] + (seq!['!'] + hidden + seq!['>'] + (gap + visible)),
        ) == (CommandView::Send { target, visible, hidden: Some(hidden) }),
{
    let typed = seq!['@'] + target + seq![' '] + (seq!['!'] + hidden + seq!['>'] + (gap + visible));
    // Without a visible text, the white space ends the line and goes with its end.
    let (behind, tail) = if visible.len() > 0 {
        (gap + visible, Seq::empty())
    } else {
        (Seq::empty(), gap)
    };
    let message = seq!['!'] + hidden + seq!['>'] + behind;
    let line = seq!['@'] + target + seq![' '] + message;
    if visible.len() > 0 {
        trimmed_ends(visible);
        assert(message.last() == visible.last());
        trim_gap(gap, visible);
    } else {
        assert(message.last() == '>');
    }
    assert(line.last() == message.last());
    assert(typed =~= line + tail);
    assert(typed[0] == '@');
    trim_tail(line, tail);
    already_trimmed(message);
    reveal_strlit(":quit");
    assert(line[0] != ":quit"@[0]);
    let rest = line.skip(1);
    assert(rest =~= target + seq![' '] + message);
    position_behind(target, ' ', message);
    assert(rest.take(target.len() as int) =~= target);
    assert(rest.skip(target.len() as int + 1) =~= message);
    let inner = message.skip(1);
    assert(inner =~= hidden + seq!['>'] + behind);
    position_behind(hidden, '>', behind);
    assert(inner.take(hidden.len() as int) =~= hidden);
    assert(inner.skip(hidden.len() as int + 1) =~= behind);
}

/// Trimming takes the white space from both ends and nothing else: what starts
/// and ends with another character stays whole.
pub proof fn trimming_leaves_the_inside(before: Seq<char>, inner: Seq<char>, behind: Seq<char>)
    requires
        forall|i: int| 0 <= i < before.len() ==> is_white(#[trigger] before[i]),
        forall|i: int| 0 <= i < behind.len() ==> is_white(#[trigger] behind[i]),
        inner.len() > 0 ==> !is_white(inner[0]) && !is_white(inner.last()),
    ensures
        trimmed(before + inner + behind) == inner,
{
    if inner.len() > 0 {
        assert(before + inner + behind =~= before + (inner + behind));
        trim_gap(before, inner + behind);
        trim_tail(inner, behind);
    } else {
        assert(before + inner + behind =~= (before + behind) + Seq::empty());
        trim_gap(before + behind, Seq::empty());
    }
}

/// A character's first occurrence holds that character, and no place before it
/// does; where there is none, the text does not contain it.
pub proof fn position_is_first(text: Seq<char>, c: char, i: int)
    ensures
        position(text, c) == Some(i) <==> {
            &&& 0 <= i < text.len()
            &&& text[i] == c
            &&& forall|j: int| 0 <= j < i ==> #[trigger] text[j] != c
        },
        position(text, c) is None <==> !text.contains(c),
    decreases text.len(),
{
    if text.len() > 0 {
        let rest = text.drop_first();
        position_is_first(rest, c, i - 1);
        assert(rest.contains(c) ==> text.contains(c)) by {
            if rest.contains(c) {
                let k = choose|k: int| 0 <= k < rest.len() && rest[k] == c;
                assert(text[k + 1] == c);
            }
        }
        assert(text.contains(c) && text[0] != c ==> rest.contains(c)) by {
            if text.contains(c) && text[0] != c {
                let k = choose|k: int| 0 <= k < text.len() && text[k] == c;
                assert(rest[k - 1] == c);
            }
        }
        if text[0] == c {
            if 0 < i && forall|j: int| 0 <= j < i ==> #[trigger] text[j] != c {
                assert(text[0] != c);
            }
        } else {
            let first = {
                &&& 0 <= i < text.len()
                &&& text[i] == c
                &&& forall|j: int| 0 <= j < i ==> #[trigger] text[j] != c
            };
            let first_of_rest = {
                &&& 0 <= i - 1 < rest.len()
                &&& rest[i - 1] == c
                &&& forall|j: int| 0 <= j < i - 1 ==> #[trigger] rest[j] != c
            };
            if first {
                assert forall|j: int| 0 <= j < i - 1 implies #[trigger] rest[j] != c by {
                    assert(text[j + 1] != c);
                }
            }
            if first_of_rest {
                assert forall|j: int| 0 <= j < i implies #[trigger] text[j] != c by {
                    if j > 0 {
                        assert(rest[j - 1] != c);
                    }
                }
            }
            assert(first == first_of_rest);
        }
    }
}

/// White space in front of a text does not change what trimming leaves.
proof fn trim_start_skips(gap: Seq<char>, text: Seq<char>)
    requires
        forall|i: int| 0 <= i < gap.len() ==> is_white(#[trigger] gap[i]),
    ensures
        trim_start(gap + text) == trim_start(text),
    decreases gap.len(),
{
    if gap.len() == 0 {
        assert(gap + text =~= text);
    } else {
        assert((gap + text).drop_first() =~= gap.drop_first() + text);
        assert forall|i: int| 0 <= i < gap.drop_first().len() implies is_white(
            #[trigger] gap.drop_first()[i],
        ) by {
            assert(gap.drop_first()[i] == gap[i + 1]);
        }
        trim_start_skips(gap.drop_first(), text);
    }
}

/// White space behind a text does not change what trimming its end leaves.
proof fn trim_end_skips(text: Seq<char>, gap: Seq<char>)
    requires
        forall|i: int| 0 <= i < gap.len() ==> is_white(#[trigger] gap[i]),
    ensures
        trim_end(text + gap) == trim_end(text),
    decreases gap.len(),
{
    if gap.len() == 0 {
        assert(text + gap =~= text);
    } else {
        assert(is_white(gap[gap.len() - 1]));
        assert((text + gap).drop_last() =~= text + gap.drop_last());
        trim_end_skips(text, gap.drop_last());
    }
}

/// White space behind a text does not change what trimming leaves.
proof fn trimmed_skips(text: Seq<char>, gap: Seq<char>)
    requires
        forall|i: int| 0 <= i < gap.len() ==> is_white(#[trigger] gap[i]),
    ensures
        trimmed(text + gap) == trimmed(text),
    decreases text.len(),
{
    if text.len() == 0 {
        assert(text + gap =~= gap + text);
        trim_start_skips(gap, text);
    } else if is_white(text[0]) {
        assert((text + gap).drop_first() =~= text.drop_first() + gap);
        trimmed_skips(text.drop_first(), gap);
    } else {
        assert((text + gap)[0] == text[0]);
        trim_end_skips(text, gap);
    }
}

/// White space around a line changes nothing of what the line means.
pub proof fn padded_line(before: Seq<char>, line: Seq<char>, behind: Seq<char>)
    requires
        forall|i: int| 0 <= i < before.len() ==> is_white(#[trigger] before[i]),
        forall|i: int| 0 <= i < behind.len() ==> is_white(#[trigger] behind[i]),
    ensures
        command_of(before + line + behind) == command_of(line),
{
    assert(before + line + behind =~= before + (line + behind));
    trim_start_skips(before, line + behind);
    trimmed_skips(line, behind);
}

/// White space in front of a message changes nothing of what its line means.
pub proof fn spaced_line(target: Seq<char>, gap: Seq<char>, message: Seq<char>)
    requires
        !target.contains(' '),
        forall|i: int| 0 <= i < gap.len() ==> is_white(#[trigger] gap[i]),
        message.len() > 0,
        trimmed(message) == message,
    ensures
        command_of(seq!['@'] + target + seq![' '] + (gap + message)) == command_of(
            seq!['@'] + target + seq![' '] + message,
        ),
{
    let spaced = seq!['@'] + target + seq![' '] + (gap + message);
    let plain = seq!['@'] + target + seq![' '] + message;
    trimmed_ends(message);
    assert(spaced.last() == message.last() && plain.last() == message.last());
    already_trimmed(spaced);
    already_trimmed(plain);
    reveal_strlit(":quit");
    assert(spaced[0] != ":quit"@[0] && plain[0] != ":quit"@[0]);
    assert(spaced.skip(1) =~= target + seq![' '] + (gap + message));
    assert(plain.skip(1) =~= target + seq![' '] + message);
    position_behind(target, ' ', gap + message);
    position_behind(target, ' ', message);
    assert(spaced.skip(1).take(target.len() as int) =~= target);
    assert(plain.skip(1).take(target.len() as int) =~= target);
    assert(spaced.skip(1).skip(target.len() as int + 1) =~= gap + message);
    assert(plain.skip(1).skip(target.len() as int + 1) =~= message);
    trim_gap(gap, message);
}

/// A `!` in front of a message without a `>` sends nothing.
pub proof fn unfinished_line(target: Seq<char>, rest: Seq<char>)
    requires
        !target.contains(' '),
        !rest.contains('>'),
        rest.len() > 0 ==> !is_white(rest.last()),
    ensures
        command_of(seq!['@'] + target + seq![' '] + (seq!['!'] + rest))
            == CommandView::HiddenSyntax,
{
    let message = seq!['!'] + rest;
    let line = seq!['@'] + target + seq![' '] + message;
    assert(message.last() == if rest.len() > 0 { rest.last() } else { '!' });
    assert(line.last() == message.last());
    already_trimmed(message);
    already_trimmed(line);
    reveal_strlit(":quit");
    assert(line[0] != ":quit"@[0]);
    assert(line.skip(1) =~= target + seq![' '] + message);
    position_behind(target, ' ', message);
    assert(line.skip(1).take(target.len() as int) =~= target);
    assert(line.skip(1).skip(target.len() as int + 1) =~= message);
    assert(message.skip(1) =~= rest);
    position_is_first(rest, '>', 0);
}

/// The lines that send nothing: `:quit`, a name without a message, and what
/// starts with no `@`.
pub proof fn lines_without_message(line: Seq<char>)
    ensures
        command_of(line) is Quit <==> trimmed(line) == ":quit"@,
        command_of(line) is Usage <==> trimmed(line).len() > 0 && trimmed(line)[0] == '@'
            && !trimmed(line).contains(' '),
        command_of(line) is Unknown <==> trimmed(line) != ":quit"@ && !(trimmed(line).len() > 0
            && trimmed(line)[0] == '@'),
{
    let text = trimmed(line);
    reveal_strlit(":quit");
    if text.len() > 0 && text[0] == '@' {
        let rest = text.skip(1);
        assert(text[0] != ":quit"@[0]);
        position_is_first(rest, ' ', 0);
        if text.contains(' ') {
            let k = choose|k: int| 0 <= k < text.len() && text[k] == ' ';
            assert(rest[k - 1] == ' ');
        }
        if rest.contains(' ') {
            let k = choose|k: int| 0 <= k < rest.len() && rest[k] == ' ';
            assert(text[k + 1] == ' ');
        }
    }
}

/// The value of a command holds each of its parts.
pub proof fn command_parts(command: Command)
    ensures
        command@ is Quit <==> command is Quit,
        command@ is Usage <==> command is Usage,
        command@ is HiddenSyntax <==> command is HiddenSyntax,
        command@ is Unknown <==> command is Unknown,
        command matches Command::Send { target, visible, hidden } ==> {
            &&& command@ matches CommandView::Send { target: t, visible: v, hidden: h }
            &&& t == target@ && v == visible@
            &&& hidden is None ==> h is None
            &&& hidden matches Some(text) ==> h == Some(text@)
        },
{
}

} // verus!
