//! The counter a player stops: its state and how it steps, the keys that stop
//! it, and the answers a player types between turns.

use vstd::prelude::*;

verus! {

/// The counter counts 0, 1, ..., 99 and then starts over at 0.
pub const COUNTER_CYCLE: u32 = 100;

/// Message of the error returned for an answer that is not a number from 0 to 255.
pub const INVALID_CHOICE_MESSAGE: &'static str = "Choix invalide";

/// Message of the error returned for a number other than 1 and 2.
pub const CHOICE_RANGE_MESSAGE: &'static str = "Le choix doit être 1 ou 2.";

/// Message of the error returned for an answer that is neither yes nor no.
pub const INVALID_ANSWER_MESSAGE: &'static str = "Réponse invalide. Entrez Y ou N.";

/// Where the counter stood when a player stopped it for one objective.
#[derive(Debug, Clone, Copy)]
pub struct CounterResult {
    /// Value of the counter when it was stopped (0 to 99).
    pub counter_value: u32,
    /// Number of times the counter went past 99 and started over.
    pub miss_count: u32,
}

/// The state of the running counter, shared by the task that steps it, the
/// task that displays it and the task that waits for the player's key.
#[derive(Debug)]
pub struct SharedCounterState {
    /// Current value of the counter.
    pub counter: u32,
    /// Number of times the counter started over.
    pub miss: u32,
    /// Set when the player stopped the counter.
    pub stopped: bool,
    /// Set when every task must end.
    pub terminated: bool,
}

/// The counter value after one step from `counter`.
pub open spec fn next_counter(counter: int) -> int {
    if counter + 1 >= 100 {
        0
    } else {
        counter + 1
    }
}

/// The miss count after one step from `counter` with `miss` misses.
pub open spec fn next_miss(counter: int, miss: int) -> int {
    if counter + 1 >= 100 {
        miss + 1
    } else {
        miss
    }
}

/// The (counter, miss) pair after `n` steps from a fresh counter.
pub open spec fn after_steps(n: nat) -> (int, int)
    decreases n,
{
    if n == 0 {
        (0, 0)
    } else {
        let prev = after_steps((n - 1) as nat);
        (next_counter(prev.0), next_miss(prev.0, prev.1))
    }
}

impl SharedCounterState {
    /// A counter at 0 with no miss, neither stopped nor terminated.
    pub fn new() -> (s: Self)
        ensures
            s.counter == 0,
            s.miss == 0,
            !s.stopped,
            !s.terminated,
    {
        SharedCounterState { counter: 0, miss: 0, stopped: false, terminated: false }
    }

    /// Puts the counter back to 0 with no miss and clears the stop flag, for a
    /// new objective.
    pub fn reset(&mut self)
        ensures
            final(self).counter == 0,
            final(self).miss == 0,
            !final(self).stopped,
            final(self).terminated == old(self).terminated,
    {
        self.counter = 0;
        self.miss = 0;
        self.stopped = false;
    }

    /// One step of the counter: it grows by one and, on reaching 100, goes
    /// back to 0 and counts one more miss.
    pub fn increment(&mut self)
        requires
            old(self).counter < u32::MAX,
            old(self).counter + 1 >= 100 ==> old(self).miss < u32::MAX,
        ensures
            final(self).counter == next_counter(old(self).counter as int),
            final(self).miss == next_miss(old(self).counter as int, old(self).miss as int),
            final(self).stopped == old(self).stopped,
            final(self).terminated == old(self).terminated,
            old(self).counter + 1 < 100 ==> final(self).counter == old(self).counter + 1
                && final(self).miss == old(self).miss,
            old(self).counter + 1 >= 100 ==> final(self).counter == 0 && final(self).miss == old(
                self,
            ).miss + 1,
    {
        self.counter = self.counter + 1;
        if self.counter >= COUNTER_CYCLE {
            self.counter = 0;
            self.miss = self.miss + 1;
        }
    }

    /// The result to keep once the counter has stopped.
    pub fn result(&self) -> (r: CounterResult)
        ensures
            r.counter_value == self.counter,
            r.miss_count == self.miss,
    {
        CounterResult { counter_value: self.counter, miss_count: self.miss }
    }
}

/// A step keeps the counter below 100 and adds exactly one to
/// `100 * miss + counter`, the number of steps taken.
pub proof fn lemma_step_counts_one(counter: int, miss: int)
    requires
        0 <= counter < 100,
    ensures
        0 <= next_counter(counter) < 100,
        100 * next_miss(counter, miss) + next_counter(counter) == 100 * miss + counter + 1,
{
}

/// After `n` steps from a fresh counter, the counter shows `n % 100` and the
/// miss count is `n / 100`.
pub proof fn lemma_after_steps(n: nat)
    ensures
        after_steps(n).0 == n % 100,
        after_steps(n).1 == n / 100,
    decreases n,
{
    if n > 0 {
        lemma_after_steps((n - 1) as nat);
        let prev = after_steps((n - 1) as nat);
        lemma_step_counts_one(prev.0, prev.1);
        assert(100 * after_steps(n).1 + after_steps(n).0 == n);
        assert(0 <= after_steps(n).0 < 100);
        vstd::arithmetic::div_mod::lemma_fundamental_div_mod_converse(
            n as int,
            100,
            after_steps(n).1,
            after_steps(n).0,
        );
    }
}

/// The key of a keyboard event, as far as the game tells keys apart.
#[derive(Debug, Clone, Copy, PartialEq, Eq, Structural)]
pub enum KeyCodeInput {
    Enter,
    Char(char),
    Other,
}

/// A keyboard event, as far as the game reads it.
#[derive(Debug, Clone, Copy, PartialEq, Eq, Structural)]
pub struct KeyInput {
    /// The key.
    pub code: KeyCodeInput,
    /// Whether the modifiers held are exactly CONTROL.
    pub control_only: bool,
    /// Whether the key was pressed (rather than repeated or released).
    pub press: bool,
}

/// What the game does with a terminal event.
#[derive(Debug, Clone, Copy, PartialEq, Eq, Structural)]
pub enum KeyAction {
    /// CTRL+C was pressed: the game is interrupted.
    Interrupt,
    /// ENTER was pressed: the counter stops, or the turn starts.
    Confirm,
    /// Anything else is ignored.
    Ignore,
}

/// The action of an event: `None` stands for an event that is not a key.
pub open spec fn key_action(event: Option<KeyInput>) -> KeyAction {
    match event {
        Some(k) => if k.press && k.code == KeyCodeInput::Char('c') && k.control_only {
            KeyAction::Interrupt
        } else if k.press && k.code == KeyCodeInput::Enter {
            KeyAction::Confirm
        } else {
            KeyAction::Ignore
        },
        None => KeyAction::Ignore,
    }
}

/// Only a pressed ENTER confirms; only a pressed CTRL+c (exactly the CONTROL
/// modifier) interrupts; every other event, key or not, is ignored.
pub proof fn lemma_key_actions(event: Option<KeyInput>)
    ensures
        key_action(event) == KeyAction::Confirm <==> (event matches Some(k) && k.press && k.code
            == KeyCodeInput::Enter),
        key_action(event) == KeyAction::Interrupt <==> (event matches Some(k) && k.press
            && k.control_only && k.code == KeyCodeInput::Char('c')),
        event matches Some(k) && k.code != KeyCodeInput::Enter && k.code != KeyCodeInput::Char(
            'c',
        ) ==> key_action(event) == KeyAction::Ignore,
        event is None ==> key_action(event) == KeyAction::Ignore,
{
}

/// Decides what a terminal event means while the game waits for ENTER:
/// CTRL+C (pressed, with exactly the CONTROL modifier) interrupts the game,
/// a press of ENTER confirms, anything else is ignored.
pub fn classify_key(event: Option<KeyInput>) -> (r: KeyAction)
    ensures
        r == key_action(event),
        r == KeyAction::Confirm <==> (event matches Some(k) && k.press && k.code
            == KeyCodeInput::Enter),
        r == KeyAction::Interrupt <==> (event matches Some(k) && k.press && k.control_only
            && k.code == KeyCodeInput::Char('c')),
{
    match event {
        Some(k) => {
            if k.press && k.control_only && match k.code {
                KeyCodeInput::Char(c) => c == 'c',
                _ => false,
            } {
                KeyAction::Interrupt
            } else if k.press && match k.code {
                KeyCodeInput::Enter => true,
                _ => false,
            } {
                KeyAction::Confirm
            } else {
                KeyAction::Ignore
            }
        },
        None => KeyAction::Ignore,
    }
}

/// White space as `char::is_whitespace` knows it (the Unicode White_Space property).
pub open spec fn is_white_space(c: char) -> bool {
    let n = c as u32;
    ||| 9 <= n <= 13
    ||| n == 32
    ||| n == 0x85
    ||| n == 0xA0
    ||| n == 0x1680
    ||| 0x2000 <= n <= 0x200A
    ||| n == 0x2028
    ||| n == 0x2029
    ||| n == 0x202F
    ||| n == 0x205F
    ||| n == 0x3000
}

/// `s` without its leading white space.
pub open spec fn trim_start(s: Seq<char>) -> Seq<char>
    decreases s.len(),
{
    if s.len() > 0 && is_white_space(s[0]) {
        trim_start(s.drop_first())
    } else {
        s
    }
}

/// `s` without its trailing white space.
pub open spec fn trim_end(s: Seq<char>) -> Seq<char>
    decreases s.len(),
{
    if s.len() > 0 && is_white_space(s.last()) {
        trim_end(s.drop_last())
    } else {
        s
    }
}

/// `s` without leading and trailing white space.
pub open spec fn trim(s: Seq<char>) -> Seq<char> {
    trim_end(trim_start(s))
}

/// An ASCII decimal digit.
pub open spec fn is_digit(c: char) -> bool {
    48 <= c as u32 <= 57
}

/// The value of a sequence of decimal digits (0 for the empty sequence).
pub open spec fn digits_value(s: Seq<char>) -> int
    decreases s.len(),
{
    if s.len() == 0 {
        0
    } else {
        digits_value(s.drop_last()) * 10 + (s.last() as u32 - 48)
    }
}

/// `s` without a leading `+` sign.
pub open spec fn unsigned_part(s: Seq<char>) -> Seq<char> {
    if s.len() > 0 && s[0] == '+' {
        s.drop_first()
    } else {
        s
    }
}

/// What parsing `s` as a `u8` gives: an optional `+`, then at least one
/// decimal digit and nothing else, of a value at most 255.
pub open spec fn parsed_u8(s: Seq<char>) -> Option<u8> {
    let d = unsigned_part(s);
    if d.len() > 0 && (forall|k: int| 0 <= k < d.len() ==> is_digit(#[trigger] d[k]))
        && digits_value(d) <= 255 {
        Some(digits_value(d) as u8)
    } else {
        None
    }
}

/// The choice typed on a line: the number written there if it is 1 or 2.
pub open spec fn choice_of(line: Seq<char>) -> Option<u8> {
    match parsed_u8(trim(line)) {
        Some(c) => if c == 1 || c == 2 {
            Some(c)
        } else {
            None
        },
        None => None,
    }
}

/// A character with its ASCII capital letter, if it is one, made small.
pub open spec fn ascii_lower(c: char) -> char {
    if 65 <= c as u32 <= 90 {
        (c as u32 + 32) as char
    } else {
        c
    }
}

/// The answer typed on a line, compared without regard to letter case:
/// `y`, `yes`, `o`, `oui` mean yes; `n`, `no`, `non` mean no.
///
/// No character outside ASCII lowercases to one of the letters of these
/// words, so this is also the comparison after a full Unicode lowercasing.
pub open spec fn answer_of(line: Seq<char>) -> Option<bool> {
    let w = trim(line).map_values(|c: char| ascii_lower(c));
    if w == seq!['y'] || w == seq!['y', 'e', 's'] || w == seq!['o'] || w == seq!['o', 'u', 'i'] {
        Some(true)
    } else if w == seq!['n'] || w == seq!['n', 'o'] || w == seq!['n', 'o', 'n'] {
        Some(false)
    } else {
        None
    }
}

fn white_space(c: char) -> (r: bool)
    ensures
        r == is_white_space(c),
{
    let n = c as u32;
    (9 <= n && n <= 13) || n == 32 || n == 0x85 || n == 0xA0 || n == 0x1680 || (0x2000 <= n && n
        <= 0x200A) || n == 0x2028 || n == 0x2029 || n == 0x202F || n == 0x205F || n == 0x3000
}

/// The bounds of `s` without its leading and trailing white space.
fn trim_bounds(s: &str) -> (r: (usize, usize))
    ensures
        r.0 <= r.1 <= s@.len(),
        trim(s@) == s@.subrange(r.0 as int, r.1 as int),
{
    let n = s.unicode_len();
    let mut i: usize = 0;
    assert(s@.subrange(0, n as int) =~= s@);
    while i < n && white_space(s.get_char(i))
        invariant
            i <= n,
            n == s@.len(),
            trim_start(s@) == trim_start(s@.subrange(i as int, n as int)),
        decreases n - i,
    {
        assert(s@.subrange(i as int, n as int).drop_first() =~= s@.subrange(i + 1, n as int));
        i = i + 1;
    }
    assert(s@.subrange(0, n as int) =~= s@);
    assert(trim_start(s@) == s@.subrange(i as int, n as int));
    let mut j: usize = n;
    while j > i && white_space(s.get_char(j - 1))
        invariant
            i <= j <= n,
            n == s@.len(),
            trim_end(s@.subrange(i as int, n as int)) == trim_end(s@.subrange(i as int, j as int)),
        decreases j - i,
    {
        assert(s@.subrange(i as int, j as int).drop_last() =~= s@.subrange(i as int, j - 1));
        j = j - 1;
    }
    (i, j)
}

/// Parses the characters of `s` from `i` to `j` as a `u8`.
fn parse_u8_between(s: &str, i: usize, j: usize) -> (r: Option<u8>)
    requires
        i <= j <= s@.len(),
    ensures
        r == parsed_u8(s@.subrange(i as int, j as int)),
{
    let ghost t = s@.subrange(i as int, j as int);
    let mut k = i;
    if k < j && s.get_char(k) == '+' {
        k = k + 1;
        assert(t.drop_first() =~= s@.subrange(k as int, j as int));
    } else {
        assert(t =~= s@.subrange(k as int, j as int));
    }
    let ghost d = s@.subrange(k as int, j as int);
    assert(unsigned_part(t) == d);
    if k == j {
        return None;
    }
    let mut acc: u32 = 0;
    let mut m = k;
    while m < j
        invariant
            i <= k <= m <= j,
            j <= s@.len(),
            t == s@.subrange(i as int, j as int),
            d == s@.subrange(k as int, j as int),
            unsigned_part(t) == d,
            forall|q: int| k <= q < m ==> is_digit(#[trigger] s@[q]),
            acc as int == (if digits_value(s@.subrange(k as int, m as int)) <= 1000 {
                digits_value(s@.subrange(k as int, m as int))
            } else {
                1000
            }),
            digits_value(s@.subrange(k as int, m as int)) >= 0,
        decreases j - m,
    {
        let c = s.get_char(m);
        let code = c as u32;
        if code < 48 || code > 57 {
            assert(d[m - k] == c);
            return None;
        }
        let ghost prefix = s@.subrange(k as int, m + 1);
        assert(prefix.drop_last() =~= s@.subrange(k as int, m as int));
        assert(prefix.last() == c);
        let next = acc * 10 + (code - 48);
        acc = if next > 1000 { 1000 } else { next };
        m = m + 1;
    }
    assert(s@.subrange(k as int, m as int) =~= d);
    assert forall|q: int| 0 <= q < d.len() implies is_digit(#[trigger] d[q]) by {
        assert(d[q] == s@[k + q]);
    }
    if acc > 255 {
        None
    } else {
        Some(acc as u8)
    }
}

/// Reads the choice a player typed on a line: after trimming white space,
/// the line must hold a number from 0 to 255 (else the error "Choix
/// invalide"), and that number must be 1 or 2 (else "Le choix doit être 1 ou 2.").
pub fn parse_choice(line: &str) -> (r: Result<u8, String>)
    ensures
        r is Ok <==> choice_of(line@) is Some,
        r matches Ok(c) ==> choice_of(line@) == Some(c),
        r matches Err(e) ==> e@ == (if parsed_u8(trim(line@)) is None {
            INVALID_CHOICE_MESSAGE@
        } else {
            CHOICE_RANGE_MESSAGE@
        }),
{
    let (i, j) = trim_bounds(line);
    match parse_u8_between(line, i, j) {
        None => Err(String::from_str(INVALID_CHOICE_MESSAGE)),
        Some(c) => {
            if c != 1 && c != 2 {
                Err(String::from_str(CHOICE_RANGE_MESSAGE))
            } else {
                Ok(c)
            }
        },
    }
}

fn lower_is(c: char, small: char) -> (r: bool)
    requires
        97 <= small as u32 <= 122,
    ensures
        r == (ascii_lower(c) == small),
{
    let n = c as u32;
    let m = small as u32;
    proof {
        if 65 <= n <= 90 {
            assert((n + 32) as char == small <==> n + 32 == m);
        }
    }
    n == m || n + 32 == m
}

/// Reads a yes/no answer typed on a line: after trimming white space and
/// without regard to letter case, `y`, `yes`, `o`, `oui` mean yes and `n`,
/// `no`, `non` mean no; anything else is the error "Réponse invalide. Entrez Y ou N.".
pub fn parse_yes_no(line: &str) -> (r: Result<bool, String>)
    ensures
        r is Ok <==> answer_of(line@) is Some,
        r matches Ok(b) ==> answer_of(line@) == Some(b),
        r matches Err(e) ==> e@ == INVALID_ANSWER_MESSAGE@,
{
    let (i, j) = trim_bounds(line);
    let ghost w = trim(line@).map_values(|c: char| ascii_lower(c));
    assert(w.len() == j - i);
    assert(forall|q: int| 0 <= q < w.len() ==> #[trigger] w[q] == ascii_lower(line@[i + q]));
    let len = j - i;
    if len == 1 {
        let a = line.get_char(i);
        if lower_is(a, 'y') {
            assert(w =~= seq!['y']);
            return Ok(true);
        }
        if lower_is(a, 'o') {
            assert(w =~= seq!['o']);
            assert(seq!['y'][0] == 'y');
            return Ok(true);
        }
        if lower_is(a, 'n') {
            assert(w =~= seq!['n']);
            assert(seq!['y'][0] == 'y' && seq!['o'][0] == 'o');
            return Ok(false);
        }
        assert(w[0] != 'y' && w[0] != 'o' && w[0] != 'n');
    } else if len == 2 {
        let a = line.get_char(i);
        let b = line.get_char(i + 1);
        if lower_is(a, 'n') && lower_is(b, 'o') {
            assert(w =~= seq!['n', 'o']);
            return Ok(false);
        }
        assert(!(w[0] == 'n' && w[1] == 'o'));
    } else if len == 3 {
        let a = line.get_char(i);
        let b = line.get_char(i + 1);
        let c = line.get_char(i + 2);
        if lower_is(a, 'y') && lower_is(b, 'e') && lower_is(c, 's') {
            assert(w =~= seq!['y', 'e', 's']);
            return Ok(true);
        }
        if lower_is(a, 'o') && lower_is(b, 'u') && lower_is(c, 'i') {
            assert(w =~= seq!['o', 'u', 'i']);
            assert(seq!['y', 'e', 's'][0] == 'y');
            return Ok(true);
        }
        if lower_is(a, 'n') && lower_is(b, 'o') && lower_is(c, 'n') {
            assert(w =~= seq!['n', 'o', 'n']);
            assert(seq!['y', 'e', 's'][0] == 'y' && seq!['o', 'u', 'i'][0] == 'o');
            return Ok(false);
        }
        assert(!(w[0] == 'y' && w[1] == 'e' && w[2] == 's'));
        assert(!(w[0] == 'o' && w[1] == 'u' && w[2] == 'i'));
        assert(!(w[0] == 'n' && w[1] == 'o' && w[2] == 'n'));
    }
    Err(String::from_str(INVALID_ANSWER_MESSAGE))
}

/// Two characters that are equal up to the case of an ASCII letter.
pub open spec fn same_up_to_case(c: char, d: char) -> bool {
    ||| c == d
    ||| 65 <= c as u32 <= 90 && d as u32 == c as u32 + 32
    ||| 97 <= c as u32 <= 122 && d as u32 + 32 == c as u32
}

/// Two lines that differ at most in the case of ASCII letters.
pub open spec fn same_line_up_to_case(s: Seq<char>, t: Seq<char>) -> bool {
    &&& s.len() == t.len()
    &&& forall|i: int| 0 <= i < s.len() ==> same_up_to_case(#[trigger] s[i], t[i])
}

proof fn lemma_char_case(c: char, d: char)
    requires
        same_up_to_case(c, d),
    ensures
        is_white_space(c) == is_white_space(d),
        ascii_lower(c) == ascii_lower(d),
{
}

proof fn lemma_trim_start_case(s: Seq<char>, t: Seq<char>)
    requires
        same_line_up_to_case(s, t),
    ensures
        same_line_up_to_case(trim_start(s), trim_start(t)),
    decreases s.len(),
{
    if s.len() > 0 {
        lemma_char_case(s[0], t[0]);
        if is_white_space(s[0]) {
            assert forall|i: int| 0 <= i < s.len() - 1 implies same_up_to_case(
                #[trigger] s.drop_first()[i],
                t.drop_first()[i],
            ) by {
                assert(s.drop_first()[i] == s[i + 1]);
                assert(t.drop_first()[i] == t[i + 1]);
            }
            lemma_trim_start_case(s.drop_first(), t.drop_first());
        }
    }
}

proof fn lemma_trim_end_case(s: Seq<char>, t: Seq<char>)
    requires
        same_line_up_to_case(s, t),
    ensures
        same_line_up_to_case(trim_end(s), trim_end(t)),
    decreases s.len(),
{
    if s.len() > 0 {
        lemma_char_case(s.last(), t.last());
        if is_white_space(s.last()) {
            assert forall|i: int| 0 <= i < s.len() - 1 implies same_up_to_case(
                #[trigger] s.drop_last()[i],
                t.drop_last()[i],
            ) by {
                assert(s.drop_last()[i] == s[i]);
                assert(t.drop_last()[i] == t[i]);
            }
            lemma_trim_end_case(s.drop_last(), t.drop_last());
        }
    }
}

/// The yes/no answer ignores the case of letters: two lines that differ only
/// in the case of ASCII letters give the same answer (so `YES`, `Yes` and
/// `yes` all mean yes).
pub proof fn lemma_answer_ignores_case(s: Seq<char>, t: Seq<char>)
    requires
        same_line_up_to_case(s, t),
    ensures
        answer_of(s) == answer_of(t),
{
    lemma_trim_start_case(s, t);
    lemma_trim_end_case(trim_start(s), trim_start(t));
    let ts = trim(s);
    let tt = trim(t);
    let ws = ts.map_values(|c: char| ascii_lower(c));
    let wt = tt.map_values(|c: char| ascii_lower(c));
    assert forall|i: int| 0 <= i < ws.len() implies ws[i] == wt[i] by {
        lemma_char_case(ts[i], tt[i]);
    }
    assert(ws =~= wt);
}

/// Once trimmed, a case variant of `y`, `yes`, `o` or `oui` means yes and a
/// case variant of `n`, `no` or `non` means no.
pub proof fn lemma_answer_words(s: Seq<char>)
    ensures
        same_line_up_to_case(trim(s), seq!['y']) ==> answer_of(s) == Some(true),
        same_line_up_to_case(trim(s), seq!['y', 'e', 's']) ==> answer_of(s) == Some(true),
        same_line_up_to_case(trim(s), seq!['o']) ==> answer_of(s) == Some(true),
        same_line_up_to_case(trim(s), seq!['o', 'u', 'i']) ==> answer_of(s) == Some(true),
        same_line_up_to_case(trim(s), seq!['n']) ==> answer_of(s) == Some(false),
        same_line_up_to_case(trim(s), seq!['n', 'o']) ==> answer_of(s) == Some(false),
        same_line_up_to_case(trim(s), seq!['n', 'o', 'n']) ==> answer_of(s) == Some(false),
{
    let t = trim(s);
    let w = t.map_values(|c: char| ascii_lower(c));
    assert forall|word: Seq<char>|
        same_line_up_to_case(t, word) && (forall|i: int| 0 <= i < word.len() ==> 97 <= #[trigger] word[i] as u32 <= 122)
        implies w =~= word by {
        assert forall|i: int| 0 <= i < w.len() implies w[i] == word[i] by {
            lemma_char_case(t[i], word[i]);
        }
    }
    let y = seq!['y'];
    let yes = seq!['y', 'e', 's'];
    let o = seq!['o'];
    let oui = seq!['o', 'u', 'i'];
    let n = seq!['n'];
    let no = seq!['n', 'o'];
    let non = seq!['n', 'o', 'n'];
    assert(y[0] == 'y' && o[0] == 'o' && n[0] == 'n');
    assert(yes[0] == 'y' && yes[1] == 'e' && yes[2] == 's');
    assert(oui[0] == 'o' && oui[1] == 'u' && oui[2] == 'i');
    assert(no[0] == 'n' && no[1] == 'o');
    assert(non[0] == 'n' && non[1] == 'o' && non[2] == 'n');
}

/// `10` to the power `n`.
pub open spec fn pow10(n: nat) -> int
    decreases n,
{
    if n == 0 {
        1
    } else {
        10 * pow10((n - 1) as nat)
    }
}

/// Decimal digits are read most significant first: a single digit is worth
/// its own value, and the digits of `a` followed by those of `b` are worth
/// `a`'s value shifted by the length of `b`, plus `b`'s value.
pub proof fn lemma_digits_value_concat(a: Seq<char>, b: Seq<char>)
    ensures
        digits_value(a + b) == digits_value(a) * pow10(b.len()) + digits_value(b),
        b.len() == 1 ==> digits_value(b) == b[0] as u32 - 48,
    decreases b.len(),
{
    if b.len() == 0 {
        assert(a + b =~= a);
    } else {
        assert((a + b).drop_last() =~= a + b.drop_last());
        assert((a + b).last() == b.last());
        lemma_digits_value_concat(a, b.drop_last());
        let p = pow10((b.len() - 1) as nat);
        assert(digits_value(a) * p * 10 == digits_value(a) * (10 * p)) by (nonlinear_arith);
        if b.len() == 1 {
            assert(b.drop_last().len() == 0);
        }
    }
}

proof fn lemma_trim_start_shape(s: Seq<char>)
    ensures
        trim_start(s).len() <= s.len(),
        trim_start(s) =~= s.subrange(s.len() - trim_start(s).len(), s.len() as int),
        forall|i: int| 0 <= i < s.len() - trim_start(s).len() ==> is_white_space(#[trigger] s[i]),
        trim_start(s).len() > 0 ==> !is_white_space(trim_start(s)[0]),
    decreases s.len(),
{
    if s.len() > 0 && is_white_space(s[0]) {
        lemma_trim_start_shape(s.drop_first());
        let l = trim_start(s).len() as int;
        assert(s.drop_first().subrange(s.len() - 1 - l, s.len() - 1) =~= s.subrange(
            s.len() - l,
            s.len() as int,
        ));
        assert forall|i: int| 0 <= i < s.len() - trim_start(s).len() implies is_white_space(
            #[trigger] s[i],
        ) by {
            if i > 0 {
                assert(s[i] == s.drop_first()[i - 1]);
            }
        }
    } else {
        assert(s.subrange(0, s.len() as int) =~= s);
    }
}

proof fn lemma_trim_end_shape(s: Seq<char>)
    ensures
        trim_end(s).len() <= s.len(),
        trim_end(s) =~= s.subrange(0, trim_end(s).len() as int),
        forall|i: int| trim_end(s).len() <= i < s.len() ==> is_white_space(#[trigger] s[i]),
        trim_end(s).len() > 0 ==> !is_white_space(trim_end(s).last()),
    decreases s.len(),
{
    if s.len() > 0 && is_white_space(s.last()) {
        lemma_trim_end_shape(s.drop_last());
        let l = trim_end(s).len() as int;
        assert(s.drop_last().subrange(0, l) =~= s.subrange(0, l));
        assert forall|i: int| trim_end(s).len() <= i < s.len() implies is_white_space(
            #[trigger] s[i],
        ) by {
            if i < s.len() - 1 {
                assert(s[i] == s.drop_last()[i]);
            }
        }
    } else {
        assert(s.subrange(0, s.len() as int) =~= s);
    }
}

/// Trimming keeps a contiguous part of the line and removes only white space
/// around it: everything before and after the kept part is white space, and
/// the kept part neither starts nor ends with white space.
pub proof fn lemma_trim_shape(s: Seq<char>)
    ensures
        exists|a: int, b: int|
            #![trigger s.subrange(a, b)]
            {
                &&& 0 <= a <= b <= s.len()
                &&& trim(s) == s.subrange(a, b)
                &&& forall|i: int| 0 <= i < a ==> is_white_space(#[trigger] s[i])
                &&& forall|i: int| b <= i < s.len() ==> is_white_space(#[trigger] s[i])
            },
        trim(s).len() > 0 ==> !is_white_space(trim(s)[0]) && !is_white_space(trim(s).last()),
{
    lemma_trim_start_shape(s);
    let t = trim_start(s);
    lemma_trim_end_shape(t);
    let a = s.len() - t.len();
    let b = a + trim(s).len();
    assert(t =~= s.subrange(a, s.len() as int));
    assert(trim(s) == trim_end(t));
    assert(t.subrange(0, trim(s).len() as int) =~= s.subrange(a, b));
    assert(trim(s) =~= s.subrange(a, b));
    assert forall|i: int| b <= i < s.len() implies is_white_space(#[trigger] s[i]) by {
        assert(s[i] == t[i - a]);
    }
    if trim(s).len() > 0 {
        lemma_trim_start_shape(t);
        assert(trim(s)[0] == t[0]);
    }
}

/// Only 1 and 2 are choices, and a line whose trimmed text is the decimal
/// digits of 1 or 2 (with leading zeros or a `+` sign allowed) gives that
/// choice.
pub proof fn lemma_choice_digits(line: Seq<char>, d: Seq<char>)
    ensures
        choice_of(line) matches Some(c) ==> c == 1 || c == 2,
        d.len() > 0 && (forall|k: int| 0 <= k < d.len() ==> is_digit(#[trigger] d[k])) && (
        digits_value(d) == 1 || digits_value(d) == 2) && (trim(line) == d || trim(line) == seq![
            '+',
        ] + d) ==> choice_of(line) == Some(digits_value(d) as u8),
{
    if d.len() > 0 && d[0] != '+' && trim(line) == d {
        assert(unsigned_part(trim(line)) == d);
    }
    if d.len() > 0 && trim(line) == seq!['+'] + d {
        assert((seq!['+'] + d).drop_first() =~= d);
    }
    if d.len() > 0 && (forall|k: int| 0 <= k < d.len() ==> is_digit(#[trigger] d[k])) {
        assert(!is_digit('+'));
        assert(d[0] != '+') by {
            assert(is_digit(d[0]));
        }
    }
}

} // verus!
