//! The messages of the log panel.

use vstd::prelude::*;
use vstd::string::StringExecFns;
use crate::decimal::{push_number, text_of};
use crate::text::string_push;

verus! {

/// The number of messages that the log panel keeps.
pub const MAX_LOG_MESSAGES: usize = 1000;

/// The number of rows of the log panel that show messages.
pub const LOG_WINDOW: usize = 6;

/// The messages, oldest first, and the scroll offset of the panel.
#[derive(Debug)]
pub struct LogsState {
    pub messages: Vec<String>,
    pub scroll: usize,
}

/// A message as it is kept: the level in square brackets, a space, and the
/// text.
pub open spec fn log_line(level: Seq<char>, message: Seq<char>) -> Seq<char> {
    "["@ + level + "] "@ + message
}

/// The messages after one more was logged: the new one stands last, and
/// where that makes more than `MAX_LOG_MESSAGES` the oldest one leaves.
pub open spec fn with_log_line(messages: Seq<Seq<char>>, line: Seq<char>) -> Seq<Seq<char>> {
    let all = messages.push(line);
    if all.len() > MAX_LOG_MESSAGES {
        all.drop_first()
    } else {
        all
    }
}

/// The offset at which the last `LOG_WINDOW` of `count` messages are shown.
pub open spec fn bottom_scroll(count: nat) -> nat {
    if count > LOG_WINDOW {
        (count - LOG_WINDOW) as nat
    } else {
        0
    }
}

impl LogsState {
    /// The texts of the messages.
    pub open spec fn lines(&self) -> Seq<Seq<char>> {
        self.messages@.map_values(|m: String| m@)
    }

    pub fn new() -> (r: Self)
        ensures
            r.lines() == Seq::<Seq<char>>::empty(),
            r.scroll == 0,
    {
        let r = LogsState { messages: Vec::new(), scroll: 0 };
        assert(r.lines() =~= Seq::<Seq<char>>::empty());
        r
    }

    /// Logs a message under a level, drops the oldest message where more
    /// than `MAX_LOG_MESSAGES` are kept, and scrolls to the newest.
    pub fn push(&mut self, level: &str, message: &str)
        ensures
            final(self).lines() == with_log_line(old(self).lines(), log_line(level@, message@)),
            final(self).scroll == bottom_scroll(final(self).lines().len()),
    {
        let mut line = "[".to_owned();
        line.append(level);
        line.append("] ");
        line.append(message);
        let ghost before = self.messages@;
        self.messages.push(line);
        assert(self.lines() =~= old(self).lines().push(log_line(level@, message@)));
        if self.messages.len() > MAX_LOG_MESSAGES {
            let ghost longer = self.messages@;
            self.messages.remove(0);
            assert(self.lines() =~= longer.map_values(|m: String| m@).drop_first());
        }
        self.scroll = if self.messages.len() > LOG_WINDOW {
            self.messages.len() - LOG_WINDOW
        } else {
            0
        };
    }
}

/// The width of the rule below the head of a saved log.
pub const RULE_WIDTH: usize = 80;

/// A rule of `RULE_WIDTH` equals signs.
pub open spec fn rule_line() -> Seq<char> {
    Seq::new(RULE_WIDTH as nat, |i: int| '=')
}

/// A message as it is saved: its number, counted from one, in square
/// brackets, a space, and the message.
pub open spec fn saved_line(i: int, message: Seq<char>) -> Seq<char> {
    "["@ + text_of((i + 1) as nat) + "] "@ + message
}

/// The lines of a saved log: a title, the time of saving, the number of
/// messages, a rule, an empty line, and the messages, numbered.
pub open spec fn saved_lines(lines: Seq<Seq<char>>, saved_at: Seq<char>) -> Seq<Seq<char>> {
    seq![
        "Polymarket TUI Logs"@,
        "Saved at: "@ + saved_at,
        "Total entries: "@ + text_of(lines.len()),
        rule_line(),
        Seq::<char>::empty(),
    ] + Seq::new(lines.len(), |i: int| saved_line(i, lines[i]))
}

impl LogsState {
    /// The lines of the file that the log is saved as, where `saved_at`
    /// tells the time of saving: see `saved_lines`.
    pub fn file_lines(&self, saved_at: &str) -> (r: Vec<String>)
        ensures
            r@.map_values(|l: String| l@) == saved_lines(self.lines(), saved_at@),
    {
        let mut out: Vec<String> = Vec::new();
        out.push("Polymarket TUI Logs".to_owned());
        let mut at = "Saved at: ".to_owned();
        at.append(saved_at);
        out.push(at);
        let mut total = "Total entries: ".to_owned();
        let count: usize = self.messages.len();
        push_number(&mut total, count as u64);
        out.push(total);
        let mut rule = String::new();
        let mut k: usize = 0;
        while k < RULE_WIDTH
            invariant
                0 <= k <= RULE_WIDTH,
                rule@ == Seq::new(k as nat, |i: int| '='),
            decreases RULE_WIDTH - k,
        {
            string_push(&mut rule, '=');
            assert(rule@ =~= Seq::new((k + 1) as nat, |i: int| '='));
            k = k + 1;
        }
        out.push(rule);
        out.push(String::new());
        let ghost head = seq![
            "Polymarket TUI Logs"@,
            "Saved at: "@ + saved_at@,
            "Total entries: "@ + text_of(self.lines().len()),
            rule_line(),
            Seq::<char>::empty(),
        ];
        assert(out@.map_values(|l: String| l@) =~= head);
        let mut i: usize = 0;
        while i < self.messages.len()
            invariant
                0 <= i <= self.messages.len(),
                out@.map_values(|l: String| l@) == head + Seq::new(
                    i as nat,
                    |j: int| saved_line(j, self.lines()[j]),
                ),
            decreases self.messages.len() - i,
        {
            let mut line = "[".to_owned();
            push_number(&mut line, (i + 1) as u64);
            line.append("] ");
            line.append(self.messages[i].as_str());
            let ghost before = out@;
            out.push(line);
            assert(line@ == saved_line(i as int, self.lines()[i as int]));
            assert(out@.map_values(|l: String| l@) =~= head + Seq::new(
                (i + 1) as nat,
                |j: int| saved_line(j, self.lines()[j]),
            )) by {
                assert(out@.map_values(|l: String| l@) =~= before.map_values(|l: String| l@).push(
                    line@,
                ));
            }
            i = i + 1;
        }
        out
    }
}

} // verus!
