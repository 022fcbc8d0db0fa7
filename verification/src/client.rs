//! The client session's decisions: what each key press does to the input
//! line, when a message is sent, and how an incoming `"name: body"` line is
//! split for display. The terminal itself — raw mode, drawing, the key
//! event source — stays outside; it feeds plain key presses in and takes
//! plain strings out.

use vstd::prelude::*;
use vstd::string::StrSliceExecFns;
use crate::message::Message;
use crate::text::spec_ascii_upper;
use crate::text::ascii_upper;
use crate::text::spec_trim;
use crate::text::trim_text;

verus! {

/// One key press, already stripped of everything terminal-specific.
pub enum KeyPress {
    /// A printable character, and whether shift was held.
    Char(char, bool),
    Backspace,
    Enter,
    /// The quit chord.
    Quit,
    /// Any key the session ignores.
    Other,
}

/// What the session's loop must do after a key press.
pub enum KeyOutcome {
    /// Send this message to the relay and redraw.
    Send(Message),
    /// Leave the session.
    Quit,
    /// Nothing to send; redraw.
    Continue,
}

/// The client session's own state: the display name it sends under and the
/// line being typed.
pub struct ClientInput {
    pub name: String,
    pub input: Vec<char>,
}

/// Relies on String implementing FromIterator<char>: collecting characters
/// yields the string of exactly those characters in order.
#[verifier::external_body]
fn string_of_chars(chars: &Vec<char>) -> (r: String)
    ensures
        r@ == chars@,
{
    chars.iter().collect()
}

impl ClientInput {
    /// A fresh session for a user typing under `name`.
    pub fn new(name: String) -> (c: ClientInput)
        ensures
            c.name@ == name@,
            c.input@ == Seq::<char>::empty(),
    {
        ClientInput { name, input: Vec::new() }
    }

    /// Apply one key press: characters extend the input line (upper-cased
    /// when shift is held), backspace shortens it, enter turns the whole
    /// line into a message under this session's name and clears it, the
    /// quit chord ends the session, and anything else is ignored.
    pub fn on_key(&mut self, k: KeyPress) -> (r: KeyOutcome)
        ensures
            final(self).name@ == old(self).name@,
            k matches KeyPress::Char(c, shift) ==> (r is Continue && final(self).input@ == old(
                self,
            ).input@.push(if shift {
                spec_ascii_upper(c)
            } else {
                c
            })),
            k is Backspace ==> {
                &&& r is Continue
                &&& old(self).input@.len() > 0 ==> final(self).input@ == old(
                    self,
                ).input@.drop_last()
                &&& old(self).input@.len() == 0 ==> final(self).input@ == old(self).input@
            },
            k is Enter ==> (r matches KeyOutcome::Send(m) && m@.id == 0 && m@.name == old(
                self,
            ).name@ && m@.msg == old(self).input@ && final(self).input@
                == Seq::<char>::empty()),
            k is Quit ==> (r is Quit && final(self).input@ == old(self).input@),
            k is Other ==> (r is Continue && final(self).input@ == old(self).input@),
    {
        match k {
            KeyPress::Char(c, shift) => {
                if shift {
                    self.input.push(ascii_upper(c));
                } else {
                    self.input.push(c);
                }
                KeyOutcome::Continue
            },
            KeyPress::Backspace => {
                if self.input.len() > 0 {
                    self.input.pop();
                    proof {
                        assert(self.input@ =~= old(self).input@.drop_last());
                    }
                }
                KeyOutcome::Continue
            },
            KeyPress::Enter => {
                let msg = string_of_chars(&self.input);
                self.input.clear();
                KeyOutcome::Send(Message { id: 0, name: self.name.clone(), msg })
            },
            KeyPress::Quit => KeyOutcome::Quit,
            KeyPress::Other => KeyOutcome::Continue,
        }
    }
}

/// The index of the first `':'` in `s`, or `s.len()` if there is none.
pub open spec fn first_colon(s: Seq<char>) -> int
    decreases s.len(),
{
    if s.len() == 0 {
        0
    } else if s[0] == ':' {
        0
    } else {
        1 + first_colon(s.drop_first())
    }
}

/// How an incoming `"name: body"` line is split for display: the name is
/// everything before the first colon, the body everything between the
/// first colon and the second (or the end), both trimmed. A line without a
/// colon is not a chat line and yields nothing.
pub open spec fn spec_parse_line(s: Seq<char>) -> Option<(Seq<char>, Seq<char>)> {
    let i = first_colon(s);
    if i == s.len() {
        None
    } else {
        let rest = s.subrange(i + 1, s.len() as int);
        Some((spec_trim(s.subrange(0, i)), spec_trim(rest.subrange(0, first_colon(rest)))))
    }
}

proof fn lemma_first_colon_at(s: Seq<char>, i: int)
    requires
        0 <= i <= s.len(),
        forall|k: int| 0 <= k < i ==> s[k] != ':',
        i < s.len() ==> s[i] == ':',
    ensures
        first_colon(s) == i,
    decreases i,
{
    if i == 0 {
        if s.len() > 0 && s[0] != ':' {
            assert(i == s.len() || s[i] == ':');
        }
    } else {
        let t = s.drop_first();
        assert(forall|k: int| 0 <= k < i - 1 ==> #[trigger] t[k] != ':');
        lemma_first_colon_at(t, i - 1);
    }
}

/// Find the first `':'` at or after `from`, or the end.
fn find_colon_from(s: &str, from: usize, n: usize) -> (i: usize)
    requires
        n == s@.len(),
        from <= n,
    ensures
        from <= i <= n,
        forall|k: int| from <= k < i ==> s@[k] != ':',
        i < n ==> s@[i as int] == ':',
{
    let mut i: usize = from;
    while i < n && s.get_char(i) != ':'
        invariant
            from <= i <= n,
            n == s@.len(),
            forall|k: int| from <= k < i ==> s@[k] != ':',
        decreases n - i,
    {
        i += 1;
    }
    i
}

/// Split an incoming line into a display name and a body, as
/// `spec_parse_line` says; `None` when the line carries no colon at all.
pub fn parse_line(line: &str) -> (r: Option<(String, String)>)
    ensures
        r is Some <==> spec_parse_line(line@) is Some,
        r matches Some((name, body)) ==> spec_parse_line(line@) == Some((name@, body@)),
{
    let n: usize = line.unicode_len();
    let i = find_colon_from(line, 0, n);
    proof {
        lemma_first_colon_at(line@, i as int);
    }
    if i == n {
        return None;
    }
    let j = find_colon_from(line, i + 1, n);
    proof {
        let rest = line@.subrange(i + 1, n as int);
        assert(forall|k: int| 0 <= k < j - (i + 1) ==> #[trigger] rest[k] != ':');
        assert(j < n ==> rest[j - (i + 1)] == ':');
        lemma_first_colon_at(rest, j - (i + 1));
        assert(rest.subrange(0, j - (i + 1)) =~= line@.subrange(i + 1, j as int));
    }
    let name = trim_text(line.substring_char(0, i));
    let body = trim_text(line.substring_char(i + 1, j));
    Some((name, body))
}

} // verus!
