//! The ritual's state machine: welcome, eighteen casts, assembling, the reveal,
//! the result and its reading, and back to the start.

use vstd::prelude::*;
use vstd::string::*;
use std::time::{Duration, Instant};
use crate::clock::{duration_as_millis, instant_elapsed, instant_now};
use crate::entropy::{answer_of, Answer, AnswerLog, EntropyError, EntropySample, EntropySource,
    RequestLog, SystemEntropy,
};
use crate::text::{push_decimal, push_pad2, spec_decimal, spec_pad2};
use crate::yijing::{
    analyze_hexagram, line_label, line_symbol, spec_changing_indices, spec_hexagram_index,
    spec_line_label, spec_line_symbol, spec_name_of, spec_transformed_lines, HexagramResult,
    LINE_POSITIONS,
};

verus! {

/// Number of throws in one ritual: three digits for each of six lines.
pub const TOTAL_THROWS: usize = 18;

/// Most journal entries kept; older ones are dropped first.
pub const JOURNAL_LIMIT: usize = 48;

/// How long a pulse message stays, in milliseconds.
pub const PULSE_MILLIS: u128 = 1400;

/// The stages of the ritual, in order.
#[derive(Clone, Copy, Debug, Eq, PartialEq, Structural)]
pub enum AppPhase {
    Welcome,
    Casting,
    Assembling,
    ReverseConfirm,
    Result,
}

/// A key as the ritual sees it.
#[derive(Clone, Copy, Debug, Eq, PartialEq, Structural)]
pub enum KeyCode {
    Char(char),
    Enter,
    Esc,
    Other,
}

/// A key press: the key and whether Control was held.
#[derive(Clone, Copy, Debug, Eq, PartialEq, Structural)]
pub struct KeyEvent {
    pub code: KeyCode,
    pub control: bool,
}

impl KeyEvent {
    pub fn new(code: KeyCode, control: bool) -> (r: KeyEvent)
        ensures
            r == (KeyEvent { code, control }),
    {
        KeyEvent { code, control }
    }
}

impl From<KeyCode> for KeyEvent {
    fn from(code: KeyCode) -> (r: KeyEvent) {
        KeyEvent { code, control: false }
    }
}

impl vstd::std_specs::convert::FromSpecImpl<KeyCode> for KeyEvent {
    open spec fn obeys_from_spec() -> bool {
        true
    }

    open spec fn from_spec(code: KeyCode) -> KeyEvent {
        KeyEvent { code, control: false }
    }
}

/// A short message at the foot of the screen, shown for `PULSE_MILLIS`.
pub struct RitualPulse {
    message: String,
    set_at: Instant,
}

impl View for RitualPulse {
    type V = Seq<char>;

    closed spec fn view(&self) -> Seq<char> {
        self.message@
    }
}

impl RitualPulse {
    pub fn message(&self) -> (r: &str)
        ensures
            r@ == self@,
    {
        self.message.as_str()
    }

    fn expired(&self) -> bool {
        pulse_expired_after(duration_as_millis(&instant_elapsed(&self.set_at)))
    }
}

/// Whether a pulse set `elapsed_ms` milliseconds ago has run out: it stays for
/// `PULSE_MILLIS`.
pub fn pulse_expired_after(elapsed_ms: u128) -> (r: bool)
    ensures
        r == (elapsed_ms >= PULSE_MILLIS),
{
    elapsed_ms >= PULSE_MILLIS
}

/// What the state machine holds, as plain values.
#[verifier::ext_equal]
pub struct AppView {
    pub phase: AppPhase,
    pub raw_digits: Seq<u8>,
    pub line_sums: Seq<u8>,
    pub journal: Seq<Seq<char>>,
    pub pulse: Option<Seq<char>>,
    pub should_quit: bool,
    pub tick_count: u64,
    pub last_entropy: Option<(Seq<char>, u8)>,
    pub interpretation_revealed: bool,
    /// Whether a cast has been taken since the last (re)start.
    pub has_cast: bool,
}

// ── Specification of the state machine ────────────────────────────────────

/// The state of a fresh ritual.
pub open spec fn initial_view() -> AppView {
    AppView {
        phase: AppPhase::Welcome,
        raw_digits: seq![],
        line_sums: seq![],
        journal: seq!["等待落子。"@],
        pulse: None,
        should_quit: false,
        tick_count: 0,
        last_entropy: None,
        interpretation_revealed: false,
        has_cast: false,
    }
}

/// The line formed by throws `3 * i .. 3 * i + 3`: the sum of their digits.
pub open spec fn trio_sum(raw: Seq<u8>, i: int) -> int {
    raw[3 * i] + raw[3 * i + 1] + raw[3 * i + 2]
}

impl AppView {
    /// The invariant that every reachable state keeps.
    pub open spec fn is_valid(self) -> bool {
        &&& self.raw_digits.len() <= TOTAL_THROWS
        &&& forall|i: int|
            0 <= i < self.raw_digits.len() ==> #[trigger] self.raw_digits[i] == 2
                || self.raw_digits[i] == 3
        &&& self.line_sums.len() == self.raw_digits.len() / 3
        &&& forall|i: int|
            0 <= i < self.line_sums.len() ==> #[trigger] self.line_sums[i] == trio_sum(
                self.raw_digits,
                i,
            )
        &&& 1 <= self.journal.len() <= JOURNAL_LIMIT
        &&& match self.phase {
            AppPhase::Welcome => self.raw_digits.len() == 0,
            AppPhase::Casting => self.raw_digits.len() < TOTAL_THROWS,
            _ => self.raw_digits.len() == TOTAL_THROWS,
        }
        &&& self.interpretation_revealed ==> self.phase == AppPhase::Result
    }
}

/// The journal after appending `entry`, keeping only the last `JOURNAL_LIMIT` entries.
pub open spec fn journal_push(journal: Seq<Seq<char>>, entry: Seq<char>) -> Seq<Seq<char>> {
    let pushed = journal.push(entry);
    if pushed.len() > JOURNAL_LIMIT {
        pushed.skip(pushed.len() - JOURNAL_LIMIT)
    } else {
        pushed
    }
}

/// The first ten characters of a fingerprint (all of it if shorter).
pub open spec fn short_fingerprint(fp: Seq<char>) -> Seq<char> {
    if fp.len() <= 10 {
        fp
    } else {
        fp.take(10)
    }
}

/// Journal entry of a throw: "#NN → d".
pub open spec fn throw_entry(throw_no: nat, digit: u8) -> Seq<char> {
    "#"@ + spec_pad2(throw_no) + " → "@ + spec_decimal(digit as nat)
}

/// Journal entry of a completed line: "<position> [a b c] = sum".
pub open spec fn line_entry(line_idx: int, a: u8, b: u8, c: u8, sum: u8) -> Seq<char> {
    LINE_POSITIONS@[line_idx]@ + " ["@ + spec_decimal(a as nat) + " "@ + spec_decimal(b as nat)
        + " "@ + spec_decimal(c as nat) + "] = "@ + spec_decimal(sum as nat)
}

/// The state after throw number `raw_digits.len() + 1` gave `digit` with fingerprint `fp`.
pub open spec fn spec_record_cast(v: AppView, digit: u8, fp: Seq<char>) -> AppView {
    let throw_no = v.raw_digits.len() + 1;
    let raw = v.raw_digits.push(digit);
    let base = AppView {
        raw_digits: raw,
        journal: journal_push(v.journal, throw_entry(throw_no, digit)),
        pulse: Some(short_fingerprint(fp) + " · "@ + spec_decimal(digit as nat)),
        last_entropy: Some((fp, digit)),
        has_cast: true,
        ..v
    };
    if raw.len() % 3 == 0 {
        let line_idx = v.line_sums.len() as int;
        let (a, b, c) = (raw[raw.len() - 3], raw[raw.len() - 2], raw[raw.len() - 1]);
        let sum = (a + b + c) as u8;
        let with_line = AppView {
            line_sums: v.line_sums.push(sum),
            journal: journal_push(base.journal, line_entry(line_idx, a, b, c, sum)),
            ..base
        };
        if with_line.line_sums.len() == 6 {
            AppView {
                phase: AppPhase::Assembling,
                journal: journal_push(with_line.journal, "六爻已备。"@),
                pulse: Some("六爻已备。"@),
                ..with_line
            }
        } else {
            with_line
        }
    } else {
        base
    }
}

/// The pulse shown when the hexagram of `lines` is revealed.
pub open spec fn reveal_pulse(lines: Seq<u8>) -> Seq<char> {
    let t = spec_transformed_lines(lines);
    if spec_changing_indices(lines).len() == 0 {
        "已显现 · "@ + spec_name_of(lines) + " ("@ + spec_pad2(spec_hexagram_index(lines)) + ")"@
    } else {
        "已显现 · "@ + spec_name_of(lines) + " -> "@ + spec_name_of(t) + " ("@ + spec_pad2(
            spec_hexagram_index(lines),
        ) + " -> "@ + spec_pad2(spec_hexagram_index(t)) + ")"@
    }
}

/// The state after Enter in a phase that draws no digit.
pub open spec fn spec_enter_without_cast(v: AppView) -> AppView {
    match v.phase {
        AppPhase::Assembling => AppView {
            phase: AppPhase::ReverseConfirm,
            journal: journal_push(v.journal, "收束完成。"@),
            pulse: Some("收束完成。"@),
            ..v
        },
        AppPhase::ReverseConfirm => AppView {
            phase: AppPhase::Result,
            journal: journal_push(v.journal, "本卦显形："@ + spec_name_of(v.line_sums)),
            pulse: Some(reveal_pulse(v.line_sums)),
            ..v
        },
        AppPhase::Result => if !v.interpretation_revealed {
            AppView {
                interpretation_revealed: true,
                journal: journal_push(v.journal, "解读显现。"@),
                pulse: Some("解读显现。"@),
                ..v
            }
        } else {
            initial_view()
        },
        _ => v,
    }
}

/// The state in which Enter draws its digit: Welcome moves on to Casting first.
pub open spec fn casting_view(v: AppView) -> AppView {
    if v.phase == AppPhase::Welcome {
        AppView { phase: AppPhase::Casting, ..v }
    } else {
        v
    }
}

/// Whether Enter in state `v` draws a digit: it does while welcoming or casting.
pub open spec fn enter_draws(v: AppView) -> bool {
    v.phase == AppPhase::Welcome || v.phase == AppPhase::Casting
}

/// What a draw leads to from state `mid`, where the entropy source, asked for
/// throw number `mid.raw_digits.len() + 1`, gave `answer` and `r` is what Enter
/// returned: a digit is recorded and `Ok` returned; an error leaves the state
/// as it is and is returned as the source gave it.
pub open spec fn draw_outcome(
    mid: AppView,
    r: Result<(), EntropyError>,
    after: AppView,
    answer: Answer,
) -> bool {
    match answer {
        Ok((digit, fp)) => r is Ok && after == spec_record_cast(mid, digit, fp),
        Err(msg) => r matches Err(e) && e.message@ == msg && after == mid,
    }
}

/// What Enter leads to in state `v`, where `answer` is what the entropy source
/// answered if Enter drew a digit, and `r` is what Enter returned.
pub open spec fn enter_outcome(
    v: AppView,
    r: Result<(), EntropyError>,
    after: AppView,
    answer: Answer,
) -> bool {
    if enter_draws(v) {
        draw_outcome(casting_view(v), r, after, answer)
    } else {
        r is Ok && after == spec_enter_without_cast(v)
    }
}

/// Whether a key press asks to leave: q, Esc, or Control-C.
pub open spec fn is_quit_key(key: KeyEvent) -> bool {
    key.code == KeyCode::Char('q') || key.code == KeyCode::Esc || (key.code == KeyCode::Char('c')
        && key.control)
}

/// The instruction line of each stage.
pub open spec fn spec_instruction(v: AppView) -> Seq<char> {
    match v.phase {
        AppPhase::Welcome => "心中默问。Enter 落子。"@,
        AppPhase::Casting => spec_pad2(v.raw_digits.len() + 1) + " / 18"@,
        AppPhase::Assembling => "Enter 收束。"@,
        AppPhase::ReverseConfirm => "Enter 显卦。"@,
        AppPhase::Result => if v.interpretation_revealed {
            "再问一次？Enter。"@
        } else {
            "Enter 解读。"@
        },
    }
}

/// The caption under the instruction.
pub open spec fn spec_focus_caption(v: AppView) -> Seq<char> {
    match v.phase {
        AppPhase::Casting => "第 "@ + spec_decimal(v.raw_digits.len() / 3 + 1) + " 爻"@,
        AppPhase::Assembling => "六爻已备。"@,
        _ => seq![],
    }
}

/// Digits in decimal, separated by single spaces.
pub open spec fn joined_digits(d: Seq<u8>) -> Seq<char>
    decreases d.len(),
{
    if d.len() == 0 {
        seq![]
    } else if d.len() == 1 {
        spec_decimal(d[0] as nat)
    } else {
        joined_digits(d.drop_last()) + " "@ + spec_decimal(d.last() as nat)
    }
}

/// History row of line `idx` while casting: its digits so far, and once
/// complete its sum and description.
pub open spec fn casting_row(v: AppView, idx: int) -> Seq<char> {
    let end = if 3 * idx + 3 <= v.raw_digits.len() {
        3 * idx + 3
    } else {
        v.raw_digits.len() as int
    };
    let chunk = v.raw_digits.subrange(3 * idx, end);
    if chunk.len() == 3 {
        LINE_POSITIONS@[idx]@ + ": ["@ + joined_digits(chunk) + "] -> "@ + spec_decimal(
            v.line_sums[idx] as nat,
        ) + " / "@ + spec_line_label(v.line_sums[idx])
    } else {
        LINE_POSITIONS@[idx]@ + ": ["@ + joined_digits(chunk) + "]"@
    }
}

/// History row of a completed line once all six are cast.
pub open spec fn line_row(idx: int, value: u8) -> Seq<char> {
    LINE_POSITIONS@[idx]@ + ": "@ + spec_decimal(value as nat) + " / "@ + spec_line_symbol(value)
        + " / "@ + spec_line_label(value)
}

/// The history panel.
pub open spec fn spec_history(v: AppView) -> Seq<Seq<char>> {
    if v.phase == AppPhase::Welcome || v.phase == AppPhase::Casting {
        if v.raw_digits.len() == 0 {
            seq!["尚未落子。"@]
        } else {
            Seq::new(((v.raw_digits.len() + 2) / 3) as nat, |idx: int| casting_row(v, idx))
        }
    } else {
        Seq::new(v.line_sums.len(), |idx: int| line_row(idx, v.line_sums[idx]))
    }
}

// ── The machine ───────────────────────────────────────────────────────────

/// Everything the ritual holds apart from its entropy source.
struct RitualState {
    phase: AppPhase,
    phase_started_at: Instant,
    raw_digits: Vec<u8>,
    line_sums: Vec<u8>,
    journal: Vec<String>,
    pulse: Option<RitualPulse>,
    should_quit: bool,
    tick_count: u64,
    last_cast_at: Option<Instant>,
    last_entropy: Option<(String, u8)>,
    /// In the Result stage: whether the reading is shown. The first Enter shows
    /// it, the second starts over.
    interpretation_revealed: bool,
}

impl View for RitualState {
    type V = AppView;

    closed spec fn view(&self) -> AppView {
        AppView {
            phase: self.phase,
            raw_digits: self.raw_digits@,
            line_sums: self.line_sums@,
            journal: self.journal@.map_values(|s: String| s@),
            pulse: match self.pulse {
                Some(p) => Some(p@),
                None => None,
            },
            should_quit: self.should_quit,
            tick_count: self.tick_count,
            last_entropy: match self.last_entropy {
                Some((fp, d)) => Some((fp@, d)),
                None => None,
            },
            interpretation_revealed: self.interpretation_revealed,
            has_cast: self.last_cast_at is Some,
        }
    }
}

impl RitualState {
    /// The state of a fresh ritual.
    fn fresh() -> (r: RitualState)
        ensures
            r@ == initial_view(),
    {
        let mut journal: Vec<String> = Vec::new();
        journal.push(String::from_str("等待落子。"));
        let r = RitualState {
            phase: AppPhase::Welcome,
            phase_started_at: instant_now(),
            raw_digits: Vec::new(),
            line_sums: Vec::new(),
            journal,
            pulse: None,
            should_quit: false,
            tick_count: 0,
            last_cast_at: None,
            last_entropy: None,
            interpretation_revealed: false,
        };
        assert(r@.journal =~= initial_view().journal);
        assert(r@.raw_digits =~= seq![]);
        assert(r@.line_sums =~= seq![]);
        r
    }

    /// Enter in a stage that draws no digit.
    fn enter_without_cast(&mut self)
        requires
            old(self)@.is_valid(),
            !enter_draws(old(self)@),
        ensures
            final(self)@ == spec_enter_without_cast(old(self)@),
    {
        match self.phase {
            AppPhase::Assembling => {
                self.transition_to(AppPhase::ReverseConfirm);
                self.push_journal(String::from_str("收束完成。"));
                self.set_pulse(String::from_str("收束完成。"));
            },
            AppPhase::ReverseConfirm => {
                self.transition_to(AppPhase::Result);
                let result = analyze_hexagram(self.line_sums.as_slice());
                self.push_journal(String::from_str("本卦显形：").concat(result.primary.name));
                let mut pulse = String::from_str("已显现 · ");
                pulse.append(result.primary.name);
                match result.relating {
                    Some(relating) => {
                        pulse.append(" -> ");
                        pulse.append(relating.name);
                        pulse.append(" (");
                        push_pad2(&mut pulse, result.primary.index as u64);
                        pulse.append(" -> ");
                        push_pad2(&mut pulse, relating.index as u64);
                        pulse.append(")");
                    },
                    None => {
                        pulse.append(" (");
                        push_pad2(&mut pulse, result.primary.index as u64);
                        pulse.append(")");
                    },
                }
                proof {
                    assert(pulse@ =~= reveal_pulse(old(self)@.line_sums));
                }
                self.set_pulse(pulse);
            },
            AppPhase::Result => {
                if !self.interpretation_revealed {
                    self.interpretation_revealed = true;
                    self.push_journal(String::from_str("解读显现。"));
                    self.set_pulse(String::from_str("解读显现。"));
                } else {
                    self.restart();
                }
            },
            _ => {},
        }
    }

    /// Advances the animation counter (wrapping) and drops the pulse when `pulse_expired`.
    fn tick(&mut self, pulse_expired: bool)
        ensures
            final(self)@ == (AppView {
                tick_count: vstd::wrapping::u64_specs::wrapping_add(old(self)@.tick_count, 1),
                pulse: if pulse_expired {
                    None
                } else {
                    old(self)@.pulse
                },
                ..old(self)@
            }),
    {
        self.tick_count = self.tick_count.wrapping_add(1);
        if pulse_expired {
            self.pulse = None;
        }
    }

    /// Whether the pulse has been shown for `PULSE_MILLIS`; false when there is none.
    fn pulse_expired(&self) -> bool {
        match &self.pulse {
            Some(p) => p.expired(),
            None => false,
        }
    }

    /// Starts a new ritual.
    fn restart(&mut self)
        ensures
            final(self)@ == initial_view(),
    {
        let mut journal: Vec<String> = Vec::new();
        journal.push(String::from_str("等待落子。"));
        self.phase = AppPhase::Welcome;
        self.phase_started_at = instant_now();
        self.raw_digits = Vec::new();
        self.line_sums = Vec::new();
        self.journal = journal;
        self.pulse = None;
        self.should_quit = false;
        self.tick_count = 0;
        self.last_cast_at = None;
        self.last_entropy = None;
        self.interpretation_revealed = false;
        assert(self@.journal =~= initial_view().journal);
        assert(self@.raw_digits =~= seq![]);
        assert(self@.line_sums =~= seq![]);
    }

    fn record_cast(&mut self, sample: EntropySample)
        requires
            old(self)@.is_valid(),
            old(self)@.phase == AppPhase::Casting,
            sample.digit == 2 || sample.digit == 3,
        ensures
            final(self)@.is_valid(),
            final(self)@ == spec_record_cast(old(self)@, sample.digit, sample.fingerprint@),
    {
        let ghost v = self@;
        let throw_no = self.raw_digits.len() + 1;
        let digit = sample.digit;
        self.raw_digits.push(digit);
        self.last_cast_at = Some(instant_now());
        let mut entry = String::from_str("#");
        push_pad2(&mut entry, throw_no as u64);
        entry.append(" → ");
        push_decimal(&mut entry, digit as u64);
        self.push_journal(entry);
        let fp_len = sample.fingerprint.as_str().unicode_len();
        let keep = if fp_len < 10 {
            fp_len
        } else {
            10
        };
        let mut pulse = String::from_str(sample.fingerprint.as_str().substring_char(0, keep));
        pulse.append(" · ");
        push_decimal(&mut pulse, digit as u64);
        proof {
            assert(sample.fingerprint@.subrange(0, keep as int) =~= short_fingerprint(sample.fingerprint@));
        }
        self.set_pulse(pulse);
        self.last_entropy = Some((sample.fingerprint, digit));
        let ghost base = self@;
        if self.raw_digits.len().is_multiple_of(3) {
            let line_idx = self.line_sums.len();
            let n = self.raw_digits.len();
            let a = self.raw_digits[n - 3];
            let b = self.raw_digits[n - 2];
            let c = self.raw_digits[n - 1];
            let sum = a + b + c;
            self.line_sums.push(sum);
            let mut entry = String::from_str(LINE_POSITIONS[line_idx]);
            entry.append(" [");
            push_decimal(&mut entry, a as u64);
            entry.append(" ");
            push_decimal(&mut entry, b as u64);
            entry.append(" ");
            push_decimal(&mut entry, c as u64);
            entry.append("] = ");
            push_decimal(&mut entry, sum as u64);
            self.push_journal(entry);
            if self.line_sums.len() == 6 {
                self.transition_to(AppPhase::Assembling);
                self.push_journal(String::from_str("六爻已备。"));
                self.set_pulse(String::from_str("六爻已备。"));
            }
        }
        proof {
            assert(self@ =~= spec_record_cast(v, digit, sample.fingerprint@));
        }
    }

    fn push_journal(&mut self, entry: String)
        requires
            old(self)@.journal.len() <= JOURNAL_LIMIT,
        ensures
            final(self)@ == (AppView { journal: journal_push(old(self)@.journal, entry@), ..old(self)@ }),
    {
        let ghost before = self.journal@;
        self.journal.push(entry);
        if self.journal.len() > JOURNAL_LIMIT {
            self.journal.remove(0);
            assert(self.journal@.map_values(|s: String| s@) =~= before.push(entry).map_values(
                |s: String| s@,
            ).skip(1));
        }
        assert(self@ =~= (AppView { journal: journal_push(old(self)@.journal, entry@), ..old(self)@ }));
    }

    fn set_pulse(&mut self, message: String)
        ensures
            final(self)@ == (AppView { pulse: Some(message@), ..old(self)@ }),
    {
        self.pulse = Some(RitualPulse { message, set_at: instant_now() });
    }

    fn transition_to(&mut self, phase: AppPhase)
        ensures
            final(self)@ == (AppView { phase, ..old(self)@ }),
    {
        self.phase = phase;
        self.phase_started_at = instant_now();
    }
}

/// The running ritual: its state and the entropy source it draws from.
pub struct App {
    state: RitualState,
    entropy: Box<dyn EntropySource>,
}

impl View for App {
    type V = AppView;

    closed spec fn view(&self) -> AppView {
        self.state@
    }
}

impl Default for App {
    fn default() -> (r: App)
        ensures
            r@ == initial_view(),
    {
        App::new(Box::new(SystemEntropy::new()))
    }
}

impl App {
    /// Every ritual keeps the invariant of its state.
    #[verifier::type_invariant]
    pub open spec fn well_formed(self) -> bool {
        self@.is_valid()
    }

    /// The entropy source the ritual draws from.
    pub closed spec fn source(self) -> Box<dyn EntropySource> {
        self.entropy
    }

    /// The throw numbers the ritual's entropy source has been asked for.
    pub closed spec fn source_asked(self) -> RequestLog {
        self.entropy.asked()
    }

    /// What the ritual's entropy source answered to each request.
    pub closed spec fn source_answers(self) -> AnswerLog {
        self.entropy.answers()
    }

    /// A fresh ritual drawing its digits from `entropy`.
    pub fn new(entropy: Box<dyn EntropySource>) -> (r: App)
        ensures
            r@ == initial_view(),
            r.source_asked() == entropy.asked(),
            r.source_answers() == entropy.answers(),
    {
        let mut r = App { state: RitualState::fresh(), entropy: Box::new(SystemEntropy::new()) };
        let mut e = entropy;
        std::mem::swap(&mut r.entropy, &mut e);
        r
    }

    pub fn should_quit(&self) -> (r: bool)
        ensures
            r == self@.should_quit,
    {
        self.state.should_quit
    }

    pub fn phase(&self) -> (r: AppPhase)
        ensures
            r == self@.phase,
    {
        self.state.phase
    }

    /// Time since the current stage began.
    pub fn phase_elapsed(&self) -> Duration {
        instant_elapsed(&self.state.phase_started_at)
    }

    pub fn tick_count(&self) -> (r: u64)
        ensures
            r == self@.tick_count,
    {
        self.state.tick_count
    }

    /// Time since the last throw, if one was taken since the (re)start.
    pub fn last_cast_elapsed(&self) -> (r: Option<Duration>)
        ensures
            r is Some == self@.has_cast,
    {
        match &self.state.last_cast_at {
            Some(t) => Some(instant_elapsed(t)),
            None => None,
        }
    }

    /// Fingerprint and digit of the last throw.
    pub fn last_entropy(&self) -> (r: Option<(&str, u8)>)
        ensures
            r is Some == self@.last_entropy is Some,
            r matches Some((fp, d)) ==> self@.last_entropy == Some((fp@, d)),
    {
        match &self.state.last_entropy {
            Some((fp, d)) => Some((fp.as_str(), *d)),
            None => None,
        }
    }

    /// Throws taken so far.
    pub fn casts_completed(&self) -> (r: usize)
        ensures
            r == self@.raw_digits.len(),
    {
        self.state.raw_digits.len()
    }

    /// Lines formed so far.
    pub fn completed_lines(&self) -> (r: usize)
        ensures
            r == self@.line_sums.len(),
    {
        self.state.line_sums.len()
    }

    pub fn pulse(&self) -> (r: Option<&RitualPulse>)
        ensures
            r is Some == self@.pulse is Some,
            r matches Some(p) ==> self@.pulse == Some(p@),
    {
        match &self.state.pulse {
            Some(p) => Some(p),
            None => None,
        }
    }

    pub fn journal_entries(&self) -> (r: &[String])
        ensures
            r@.map_values(|s: String| s@) == self@.journal,
    {
        self.state.journal.as_slice()
    }

    pub fn line_sums(&self) -> (r: &[u8])
        ensures
            r@ == self@.line_sums,
    {
        self.state.line_sums.as_slice()
    }

    pub fn interpretation_revealed(&self) -> (r: bool)
        ensures
            r == self@.interpretation_revealed,
    {
        self.state.interpretation_revealed
    }

    /// The instruction for the current stage.
    pub fn instruction(&self) -> (r: String)
        ensures
            r@ == spec_instruction(self@),
    {
        proof {
            use_type_invariant(self);
        }
        match self.state.phase {
            AppPhase::Welcome => String::from_str("心中默问。Enter 落子。"),
            AppPhase::Casting => {
                let mut s = String::new();
                push_pad2(&mut s, self.state.raw_digits.len() as u64 + 1);
                s.append(" / 18");
                s
            },
            AppPhase::Assembling => String::from_str("Enter 收束。"),
            AppPhase::ReverseConfirm => String::from_str("Enter 显卦。"),
            AppPhase::Result => if self.state.interpretation_revealed {
                String::from_str("再问一次？Enter。")
            } else {
                String::from_str("Enter 解读。")
            },
        }
    }

    /// The caption under the instruction: the line being cast, or that all six are ready.
    pub fn focus_caption(&self) -> (r: String)
        ensures
            r@ == spec_focus_caption(self@),
    {
        proof {
            use_type_invariant(self);
        }
        match self.state.phase {
            AppPhase::Casting => {
                let line_no = self.state.raw_digits.len() / 3 + 1;
                let mut s = String::from_str("第 ");
                push_decimal(&mut s, line_no as u64);
                s.append(" 爻");
                s
            },
            AppPhase::Assembling => String::from_str("六爻已备。"),
            _ => String::new(),
        }
    }

    /// The hexagram of the six lines, once all six are cast.
    pub fn current_result(&self) -> (r: Option<HexagramResult>)
        ensures
            r is Some == (self@.line_sums.len() == 6),
            r matches Some(res) ==> res.is_analysis_of(self@.line_sums),
    {
        if self.state.line_sums.len() == 6 {
            Some(analyze_hexagram(self.state.line_sums.as_slice()))
        } else {
            None
        }
    }

    /// The history panel: digits per line while casting, the six lines afterwards.
    pub fn history_snapshot(&self) -> (r: Vec<String>)
        ensures
            r@.map_values(|s: String| s@) == spec_history(self@),
    {
        proof {
            use_type_invariant(self);
        }
        let ghost v = self@;
        let mut rows: Vec<String> = Vec::new();
        match self.state.phase {
            AppPhase::Welcome | AppPhase::Casting => {
                let n = self.state.raw_digits.len();
                if n == 0 {
                    rows.push(String::from_str("尚未落子。"));
                } else {
                    let count = (n + 2) / 3;
                    let mut idx: usize = 0;
                    while idx < count
                        invariant
                            v == self@,
                            v.is_valid(),
                            v.phase == AppPhase::Welcome || v.phase == AppPhase::Casting,
                            n == v.raw_digits.len(),
                            count == (n + 2) / 3,
                            idx <= count,
                            rows@.len() == idx,
                            forall|j: int| 0 <= j < idx ==> #[trigger] rows@[j]@ == casting_row(v, j),
                        decreases count - idx,
                    {
                        let start = 3 * idx;
                        let end = if start + 3 <= n {
                            start + 3
                        } else {
                            n
                        };
                        let mut joined = String::new();
                        let mut k = start;
                        while k < end
                            invariant
                                v == self@,
                                start <= k <= end <= n,
                                n == v.raw_digits.len(),
                                joined@ == joined_digits(v.raw_digits.subrange(start as int, k as int)),
                            decreases end - k,
                        {
                            if k > start {
                                joined.append(" ");
                            }
                            push_decimal(&mut joined, self.state.raw_digits[k] as u64);
                            proof {
                                let sub = v.raw_digits.subrange(start as int, k + 1);
                                assert(sub.drop_last() =~= v.raw_digits.subrange(start as int, k as int));
                                assert(sub.last() == v.raw_digits[k as int]);
                                reveal_strlit(" ");
                            }
                            k += 1;
                        }
                        let mut row = String::from_str(LINE_POSITIONS[idx]);
                        row.append(": [");
                        row.append(joined.as_str());
                        if end - start == 3 {
                            row.append("] -> ");
                            push_decimal(&mut row, self.state.line_sums[idx] as u64);
                            row.append(" / ");
                            row.append(line_label(self.state.line_sums[idx]));
                        } else {
                            row.append("]");
                        }
                        proof {
                            assert(row@ =~= casting_row(v, idx as int));
                        }
                        rows.push(row);
                        idx += 1;
                    }
                }
            },
            _ => {
                let mut idx: usize = 0;
                while idx < self.state.line_sums.len()
                    invariant
                        v == self@,
                        v.is_valid(),
                        idx <= v.line_sums.len(),
                        rows@.len() == idx,
                        forall|j: int|
                            0 <= j < idx ==> #[trigger] rows@[j]@ == line_row(j, v.line_sums[j]),
                    decreases v.line_sums.len() - idx,
                {
                    let value = self.state.line_sums[idx];
                    let mut row = String::from_str(LINE_POSITIONS[idx]);
                    row.append(": ");
                    push_decimal(&mut row, value as u64);
                    row.append(" / ");
                    row.append(line_symbol(value));
                    row.append(" / ");
                    row.append(line_label(value));
                    rows.push(row);
                    idx += 1;
                }
            },
        }
        assert(rows@.map_values(|s: String| s@) =~= spec_history(v));
        rows
    }

    /// Handles one key press: q, Esc and Control-C ask to quit, Enter moves the
    /// ritual on, every other key is ignored.
    ///
    /// Enter while welcoming or casting asks the entropy source for exactly one
    /// digit, that of throw number "throws so far + 1", and records what it
    /// answered; any other key, and Enter in a later stage, asks it nothing.
    pub fn handle_key(&mut self, key: KeyEvent) -> (r: Result<(), EntropyError>)
        ensures
            final(self)@.is_valid(),
            is_quit_key(key) ==> r is Ok && final(self)@ == (AppView { should_quit: true, ..old(self)@ }),
            !is_quit_key(key) && key.code == KeyCode::Enter && enter_draws(old(self)@) ==> {
                &&& final(self).source_asked() == old(self).source_asked().push(
                    (old(self)@.raw_digits.len() + 1) as usize,
                )
                &&& final(self).source_answers().len() == old(self).source_answers().len() + 1
                &&& final(self).source_answers().drop_last() == old(self).source_answers()
                &&& draw_outcome(
                    casting_view(old(self)@),
                    r,
                    final(self)@,
                    final(self).source_answers().last(),
                )
            },
            !is_quit_key(key) && key.code == KeyCode::Enter && !enter_draws(old(self)@) ==> r is Ok
                && final(self)@ == spec_enter_without_cast(old(self)@),
            !is_quit_key(key) && key.code != KeyCode::Enter ==> r is Ok && final(self)@ == old(self)@,
            !(!is_quit_key(key) && key.code == KeyCode::Enter && enter_draws(old(self)@))
                ==> {
                &&& final(self).source() == old(self).source()
                &&& final(self).source_asked() == old(self).source_asked()
                &&& final(self).source_answers() == old(self).source_answers()
            },
    {
        proof {
            use_type_invariant(&*self);
        }
        match key.code {
            KeyCode::Char('q') | KeyCode::Esc => {
                self.state.should_quit = true;
            },
            KeyCode::Char('c') if key.control => {
                self.state.should_quit = true;
            },
            KeyCode::Enter => {
                let r = self.handle_enter();
                proof {
                    use_type_invariant(&*self);
                }
                return r;
            },
            _ => {},
        }
        proof {
            use_type_invariant(&*self);
        }
        Ok(())
    }

    /// Advances the animation counter (wrapping) and drops the pulse once it has
    /// been shown for `PULSE_MILLIS`.
    pub fn tick(&mut self)
        ensures
            final(self)@ == (AppView {
                tick_count: vstd::wrapping::u64_specs::wrapping_add(old(self)@.tick_count, 1),
                pulse: final(self)@.pulse,
                ..old(self)@
            }),
            final(self)@.pulse == old(self)@.pulse || final(self)@.pulse is None,
            final(self)@.is_valid(),
            final(self).source() == old(self).source(),
            final(self).source_asked() == old(self).source_asked(),
            final(self).source_answers() == old(self).source_answers(),
    {
        let expired = self.state.pulse_expired();
        self.tick_with(expired);
    }

    /// Advances the animation counter (wrapping) and drops the pulse when
    /// `pulse_expired`: the step that `tick` takes once it has read the clock.
    pub fn tick_with(&mut self, pulse_expired: bool)
        ensures
            final(self)@ == (AppView {
                tick_count: vstd::wrapping::u64_specs::wrapping_add(old(self)@.tick_count, 1),
                pulse: if pulse_expired {
                    None
                } else {
                    old(self)@.pulse
                },
                ..old(self)@
            }),
            final(self)@.is_valid(),
            final(self).source() == old(self).source(),
            final(self).source_asked() == old(self).source_asked(),
            final(self).source_answers() == old(self).source_answers(),
    {
        proof {
            use_type_invariant(&*self);
        }
        let mut state = self.take_state();
        state.tick(pulse_expired);
        self.state = state;
    }

    /// Moves the state out, leaving a fresh one in its place.
    fn take_state(&mut self) -> (r: RitualState)
        ensures
            r@ == old(self)@,
            r@.is_valid(),
            final(self)@ == initial_view(),
            final(self).entropy == old(self).entropy,
    {
        proof {
            use_type_invariant(&*self);
        }
        let mut state = RitualState::fresh();
        std::mem::swap(&mut state, &mut self.state);
        state
    }

    fn handle_enter(&mut self) -> (r: Result<(), EntropyError>)
        ensures
            enter_draws(old(self)@) ==> {
                &&& final(self).source_asked() == old(self).source_asked().push(
                    (old(self)@.raw_digits.len() + 1) as usize,
                )
                &&& final(self).source_answers() == old(self).source_answers().push(
                    final(self).source_answers().last(),
                )
                &&& draw_outcome(
                    casting_view(old(self)@),
                    r,
                    final(self)@,
                    final(self).source_answers().last(),
                )
            },
            !enter_draws(old(self)@) ==> r is Ok && final(self)@ == spec_enter_without_cast(old(self)@)
                && final(self).entropy == old(self).entropy,
    {
        let throw_no = self.next_throw_no();
        let mut state = self.take_state();
        if state.phase == AppPhase::Welcome || state.phase == AppPhase::Casting {
            if state.phase == AppPhase::Welcome {
                state.transition_to(AppPhase::Casting);
            }
            let answer = self.ask_source(throw_no);
            match answer {
                Ok(sample) => {
                    state.record_cast(sample);
                    self.state = state;
                    Ok(())
                },
                Err(e) => {
                    self.state = state;
                    Err(e)
                },
            }
        } else {
            state.enter_without_cast();
            self.state = state;
            Ok(())
        }
    }

    /// The number of the next throw: one more than the throws taken.
    pub fn next_throw_no(&self) -> (r: usize)
        ensures
            r == self@.raw_digits.len() + 1,
    {
        proof {
            use_type_invariant(self);
        }
        self.state.raw_digits.len() + 1
    }

    /// Asks the entropy source for throw number `throw_no`; the state is untouched.
    fn ask_source(&mut self, throw_no: usize) -> (r: Result<EntropySample, EntropyError>)
        ensures
            final(self)@ == old(self)@,
            r matches Ok(s) ==> (s.digit == 2 || s.digit == 3),
            final(self).source_asked() == old(self).source_asked().push(throw_no),
            final(self).source_answers() == old(self).source_answers().push(answer_of(r)),
    {
        proof {
            use_type_invariant(&*self);
        }
        let mut source: Box<dyn EntropySource> = Box::new(SystemEntropy::new());
        std::mem::swap(&mut source, &mut self.entropy);
        let r = source.next_digit(throw_no);
        std::mem::swap(&mut source, &mut self.entropy);
        r
    }

    /// Records `sample` as throw number `raw_digits.len() + 1`, forming a line
    /// after every third throw and assembling after the eighteenth.
    pub fn record_cast(&mut self, sample: EntropySample)
        requires
            old(self)@.phase == AppPhase::Casting,
            sample.digit == 2 || sample.digit == 3,
        ensures
            final(self)@ == spec_record_cast(old(self)@, sample.digit, sample.fingerprint@),
            final(self).source() == old(self).source(),
            final(self).source_asked() == old(self).source_asked(),
            final(self).source_answers() == old(self).source_answers(),
    {
        let mut state = self.take_state();
        state.record_cast(sample);
        self.state = state;
    }
}

// ── Laws ──────────────────────────────────────────────────────────────────

/// Recording a throw keeps every invariant of the ritual.
pub proof fn law_record_cast_keeps_valid(v: AppView, digit: u8, fp: Seq<char>)
    requires
        v.is_valid(),
        v.phase == AppPhase::Casting,
        digit == 2 || digit == 3,
    ensures
        spec_record_cast(v, digit, fp).is_valid(),
{
    let after = spec_record_cast(v, digit, fp);
    let raw = v.raw_digits.push(digit);
    assert forall|i: int| 0 <= i < after.line_sums.len() implies #[trigger] after.line_sums[i]
        == trio_sum(after.raw_digits, i) by {
        if i < v.line_sums.len() {
            assert(v.line_sums[i] == trio_sum(v.raw_digits, i));
        }
    }
}

/// Enter, whatever the entropy source answers, keeps every invariant of the ritual.
pub proof fn law_enter_keeps_valid(
    v: AppView,
    r: Result<(), EntropyError>,
    after: AppView,
    answer: Answer,
)
    requires
        v.is_valid(),
        enter_outcome(v, r, after, answer),
        answer matches Ok((d, _)) ==> (d == 2 || d == 3),
    ensures
        after.is_valid(),
{
    if enter_draws(v) {
        match answer {
            Ok((digit, fp)) => {
                law_record_cast_keeps_valid(casting_view(v), digit, fp);
            },
            Err(_) => {},
        }
    } else {
        let w = spec_enter_without_cast(v);
        assert(w.is_valid());
    }
}

/// Every line of a valid ritual is a line value: 6, 7, 8 or 9, the sum of its three digits.
pub proof fn law_lines_are_line_values(v: AppView)
    requires
        v.is_valid(),
    ensures
        forall|i: int|
            0 <= i < v.line_sums.len() ==> 6 <= #[trigger] v.line_sums[i] <= 9,
{
    assert forall|i: int| 0 <= i < v.line_sums.len() implies 6 <= #[trigger] v.line_sums[i] <= 9 by {
        assert(v.line_sums[i] == trio_sum(v.raw_digits, i));
        assert(v.raw_digits[3 * i] == 2 || v.raw_digits[3 * i] == 3);
        assert(v.raw_digits[3 * i + 1] == 2 || v.raw_digits[3 * i + 1] == 3);
        assert(v.raw_digits[3 * i + 2] == 2 || v.raw_digits[3 * i + 2] == 3);
    }
}

/// Past the casting stage all six lines stand, so a hexagram can be read; while
/// welcoming or casting fewer than six do.
pub proof fn law_hexagram_exactly_after_casting(v: AppView)
    requires
        v.is_valid(),
    ensures
        (v.line_sums.len() == 6) <==> (v.phase != AppPhase::Welcome && v.phase != AppPhase::Casting),
{
}

/// What every ritual reached by key presses and ticks shows: one line for each
/// three throws, at most eighteen throws, all of them exactly past the casting
/// stage, none while welcoming, the reading only in the result stage, and a
/// journal of one to `JOURNAL_LIMIT` entries.
pub proof fn law_ritual_counts(v: AppView)
    requires
        v.is_valid(),
    ensures
        v.line_sums.len() == v.raw_digits.len() / 3,
        v.raw_digits.len() <= TOTAL_THROWS,
        (v.raw_digits.len() == TOTAL_THROWS) <==> (v.phase != AppPhase::Welcome && v.phase
            != AppPhase::Casting),
        v.phase == AppPhase::Welcome ==> v.raw_digits.len() == 0,
        v.interpretation_revealed ==> v.phase == AppPhase::Result,
        1 <= v.journal.len() <= JOURNAL_LIMIT,
{
}

/// The eighteenth throw completes the sixth line and moves on to assembling;
/// any earlier throw keeps casting.
pub proof fn law_eighteenth_throw_assembles(v: AppView, digit: u8, fp: Seq<char>)
    requires
        v.is_valid(),
        v.phase == AppPhase::Casting,
        digit == 2 || digit == 3,
    ensures
        v.raw_digits.len() + 1 == TOTAL_THROWS ==> spec_record_cast(v, digit, fp).phase
            == AppPhase::Assembling && spec_record_cast(v, digit, fp).line_sums.len() == 6,
        v.raw_digits.len() + 1 < TOTAL_THROWS ==> spec_record_cast(v, digit, fp).phase
            == AppPhase::Casting,
{
}

/// In the result stage the first Enter shows the reading and stays; the second
/// starts a fresh ritual with a clean state.
pub proof fn law_reveal_then_restart(v: AppView)
    requires
        v.is_valid(),
        v.phase == AppPhase::Result,
        !v.interpretation_revealed,
    ensures
        spec_enter_without_cast(v).phase == AppPhase::Result,
        spec_enter_without_cast(v).interpretation_revealed,
        spec_enter_without_cast(v).raw_digits == v.raw_digits,
        spec_enter_without_cast(spec_enter_without_cast(v)) == initial_view(),
{
}

/// A drawing Enter records exactly the digit and fingerprint that the source
/// answered, after the earlier throws, and returns `Ok`; when the source fails,
/// its error is returned and no throw is recorded. An Enter that draws nothing
/// records no throw: it keeps the throws, or starts over from the fresh state.
pub proof fn law_one_digit_per_enter(
    v: AppView,
    r: Result<(), EntropyError>,
    after: AppView,
    answer: Answer,
)
    requires
        v.is_valid(),
        enter_outcome(v, r, after, answer),
    ensures
        enter_draws(v) ==> (r is Ok <==> answer is Ok),
        enter_draws(v) && answer is Ok ==> {
            let (digit, fp) = answer->Ok_0;
            &&& after.raw_digits == v.raw_digits.push(digit)
            &&& after.last_entropy == Some((fp, digit))
            &&& after.has_cast
        },
        enter_draws(v) && answer is Err ==> {
            &&& r matches Err(e) && e.message@ == answer->Err_0
            &&& after.raw_digits == v.raw_digits
        },
        !enter_draws(v) ==> r is Ok && (after.raw_digits == v.raw_digits || after == initial_view()),
{
}

/// While casting, the caption names the line that the next throw belongs to:
/// one more than the lines already formed.
pub proof fn law_caption_names_the_line_in_progress(v: AppView)
    requires
        v.is_valid(),
        v.phase == AppPhase::Casting,
    ensures
        spec_focus_caption(v) == "第 "@ + spec_decimal(v.line_sums.len() + 1) + " 爻"@,
        v.line_sums.len() < 6,
{
}

/// Before all six lines stand, the history has one row for each line that has
/// at least one throw, and no row for a line without one: with `t > 0` throws,
/// the rows cover lines `0 .. rows`, and `3 * (rows - 1) < t <= 3 * rows`.
pub proof fn law_history_rows_are_the_started_lines(v: AppView)
    requires
        v.is_valid(),
        v.phase == AppPhase::Welcome || v.phase == AppPhase::Casting,
        v.raw_digits.len() > 0,
    ensures
        3 * (spec_history(v).len() - 1) < v.raw_digits.len() <= 3 * spec_history(v).len(),
{
}

/// A fresh ritual is valid.
pub proof fn law_initial_is_valid()
    ensures
        initial_view().is_valid(),
{
}

} // verus!
