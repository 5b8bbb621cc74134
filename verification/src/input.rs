//! What the dashboard does with the keyboard and the clock between redraws:
//! typed characters collect on a command line, Enter either quits (on "q") or
//! clears it, Backspace removes the last character; and the screen is redrawn
//! at least once a second.
use vstd::prelude::*;

verus! {

/// A key as the dashboard tells keys apart.
#[derive(Clone, Copy, Debug, PartialEq, Eq, Structural)]
pub enum KeyInput {
    Char(char),
    Enter,
    Backspace,
    Other,
}

/// Whether to keep running after a key.
#[derive(Clone, Copy, Debug, PartialEq, Eq, Structural)]
pub enum Control {
    Continue,
    Quit,
}

/// The Unicode `White_Space` characters (PropList.txt): tab, line feed, vertical
/// tab, form feed, carriage return, space, next line, no-break space, ogham space
/// mark, the eleven spaces from en quad to hair space, line and paragraph
/// separator, narrow no-break space, medium mathematical space, ideographic space.
pub open spec fn white_space(c: char) -> bool {
    ||| c == '\u{9}'
    ||| c == '\u{a}'
    ||| c == '\u{b}'
    ||| c == '\u{c}'
    ||| c == '\u{d}'
    ||| c == '\u{20}'
    ||| c == '\u{85}'
    ||| c == '\u{a0}'
    ||| c == '\u{1680}'
    ||| c == '\u{2000}'
    ||| c == '\u{2001}'
    ||| c == '\u{2002}'
    ||| c == '\u{2003}'
    ||| c == '\u{2004}'
    ||| c == '\u{2005}'
    ||| c == '\u{2006}'
    ||| c == '\u{2007}'
    ||| c == '\u{2008}'
    ||| c == '\u{2009}'
    ||| c == '\u{200a}'
    ||| c == '\u{2028}'
    ||| c == '\u{2029}'
    ||| c == '\u{202f}'
    ||| c == '\u{205f}'
    ||| c == '\u{3000}'
}

/// `s` without its leading white space.
pub open spec fn trim_start_of(s: Seq<char>) -> Seq<char>
    decreases s.len(),
{
    if s.len() > 0 && white_space(s[0]) {
        trim_start_of(s.drop_first())
    } else {
        s
    }
}

/// `s` without its trailing white space.
pub open spec fn trim_end_of(s: Seq<char>) -> Seq<char>
    decreases s.len(),
{
    if s.len() > 0 && white_space(s.last()) {
        trim_end_of(s.drop_last())
    } else {
        s
    }
}

/// `s` without leading and trailing white space.
pub open spec fn trimmed_of(s: Seq<char>) -> Seq<char> {
    trim_end_of(trim_start_of(s))
}

/// The command line after a key, and whether to go on. Only key presses count.
/// A character is appended; Enter quits when the line, trimmed, is "q", and
/// otherwise empties it; Backspace removes the last character, if any; other
/// keys change nothing.
pub open spec fn key_step(line: Seq<char>, key: KeyInput, pressed: bool) -> (Seq<char>, Control) {
    if !pressed {
        (line, Control::Continue)
    } else {
        match key {
            KeyInput::Char(c) => (line.push(c), Control::Continue),
            KeyInput::Enter => if trimmed_of(line) == seq!['q'] {
                (line, Control::Quit)
            } else {
                (Seq::empty(), Control::Continue)
            },
            KeyInput::Backspace => (
                if line.len() > 0 { line.drop_last() } else { line },
                Control::Continue,
            ),
            KeyInput::Other => (line, Control::Continue),
        }
    }
}

/// `String::push`: appends `c`.
#[verifier::external_body]
fn push_char(s: &mut String, c: char)
    ensures
        final(s)@ == old(s)@.push(c),
{
    s.push(c);
}

/// `String::pop`: removes and returns the last character, or returns `None` and
/// leaves an empty string as it is.
#[verifier::external_body]
fn pop_char(s: &mut String) -> (r: Option<char>)
    ensures
        old(s)@.len() == 0 ==> r is None && final(s)@ == old(s)@,
        old(s)@.len() > 0 ==> r == Some(old(s)@.last()) && final(s)@ == old(s)@.drop_last(),
{
    s.pop()
}

/// `str::trim`: the string without leading and trailing white space, white space
/// being the Unicode `White_Space` property, as its documentation states.
#[verifier::external_body]
fn trim_text(s: &str) -> (r: &str)
    ensures
        r@ == trimmed_of(s@),
{
    s.trim()
}

/// The characters typed since the last Enter.
pub struct CommandLine {
    buffer: String,
}

impl View for CommandLine {
    type V = Seq<char>;

    closed spec fn view(&self) -> Seq<char> {
        self.buffer@
    }
}

impl CommandLine {
    /// An empty command line.
    pub fn new() -> (c: CommandLine)
        ensures
            c@ == Seq::<char>::empty(),
    {
        CommandLine { buffer: String::new() }
    }

    /// What has been typed.
    pub fn text(&self) -> (s: &str)
        ensures
            s@ == self@,
    {
        self.buffer.as_str()
    }

    /// Takes one key event; `pressed` is false for releases and repeats.
    pub fn handle_key(&mut self, key: KeyInput, pressed: bool) -> (r: Control)
        ensures
            (final(self)@, r) == key_step(old(self)@, key, pressed),
    {
        if !pressed {
            return Control::Continue;
        }
        match key {
            KeyInput::Char(c) => {
                push_char(&mut self.buffer, c);
                Control::Continue
            },
            KeyInput::Enter => {
                let t = trim_text(self.buffer.as_str());
                if t.unicode_len() == 1 && t.get_char(0) == 'q' {
                    assert(t@ =~= seq!['q']);
                    Control::Quit
                } else {
                    assert(t@ != seq!['q']);
                    self.buffer = String::new();
                    Control::Continue
                }
            },
            KeyInput::Backspace => {
                pop_char(&mut self.buffer);
                Control::Continue
            },
            KeyInput::Other => Control::Continue,
        }
    }
}

/// How often the readings are refreshed, in nanoseconds: once a second.
pub const TICK_NANOS: u128 = 1_000_000_000;

/// How long to wait for a key, given the time since the last tick: what is left
/// of the tick, or nothing once it is over.
pub open spec fn timeout_of(elapsed: int) -> int {
    if elapsed < TICK_NANOS as int { TICK_NANOS as int - elapsed } else { 0 }
}

/// The wait for a key, in nanoseconds.
pub fn poll_timeout_nanos(elapsed: u128) -> (t: u128)
    ensures
        t as int == timeout_of(elapsed as int),
{
    if elapsed < TICK_NANOS {
        TICK_NANOS - elapsed
    } else {
        0
    }
}

/// Whether a new tick starts, given the time since the last one.
pub fn tick_due(elapsed: u128) -> (due: bool)
    ensures
        due == (elapsed >= TICK_NANOS),
{
    elapsed >= TICK_NANOS
}

proof fn lemma_trim_start_white_prefix(w: Seq<char>, rest: Seq<char>)
    requires
        forall|i: int| 0 <= i < w.len() ==> white_space(#[trigger] w[i]),
    ensures
        trim_start_of(w + rest) == trim_start_of(rest),
    decreases w.len(),
{
    if w.len() > 0 {
        assert((w + rest).drop_first() =~= w.drop_first() + rest);
        lemma_trim_start_white_prefix(w.drop_first(), rest);
    } else {
        assert(w + rest =~= rest);
    }
}

/// Typing "q" and Enter quits, whatever white space was typed before.
pub proof fn law_q_then_enter_quits(line: Seq<char>)
    requires
        forall|i: int| 0 <= i < line.len() ==> white_space(#[trigger] line[i]),
    ensures
        key_step(key_step(line, KeyInput::Char('q'), true).0, KeyInput::Enter, true).1
            == Control::Quit,
{
    lemma_trim_start_white_prefix(line, seq!['q']);
    assert(line.push('q') =~= line + seq!['q']);
    assert(seq!['q'].drop_first() =~= Seq::<char>::empty());
    assert(trim_start_of(seq!['q']) == seq!['q']);
    assert(trim_end_of(seq!['q']) == seq!['q']);
}

/// Only Enter quits, and only when pressed.
pub proof fn law_only_enter_quits(line: Seq<char>, key: KeyInput, pressed: bool)
    ensures
        key_step(line, key, pressed).1 == Control::Quit ==> key == KeyInput::Enter && pressed,
{
}

/// An Enter that does not quit leaves an empty command line.
pub proof fn law_enter_clears(line: Seq<char>)
    ensures
        key_step(line, KeyInput::Enter, true).1 == Control::Continue ==> key_step(
            line,
            KeyInput::Enter,
            true,
        ).0 == Seq::<char>::empty(),
{
}

/// Backspace takes back the character just typed.
pub proof fn law_backspace_undoes_char(line: Seq<char>, c: char)
    ensures
        key_step(key_step(line, KeyInput::Char(c), true).0, KeyInput::Backspace, true) == (
            line,
            Control::Continue,
        ),
{
    assert(line.push(c).drop_last() =~= line);
}

/// Key releases and repeats change nothing.
pub proof fn law_releases_ignored(line: Seq<char>, key: KeyInput)
    ensures
        key_step(line, key, false) == (line, Control::Continue),
{
}

/// The wait for a key never exceeds one tick, and is over once a tick is due.
pub proof fn law_timeout_within_tick(elapsed: int)
    requires
        elapsed >= 0,
    ensures
        0 <= timeout_of(elapsed) <= TICK_NANOS as int,
        elapsed >= TICK_NANOS as int ==> timeout_of(elapsed) == 0,
{
}

} // verus!
