//! What the screen shows, as plain styled text: the stage track, the casting
//! formation, the trace panel, the revealed hexagram and its notes.
//!
//! Each line is a sequence of segments; each segment carries its text, one of
//! three tones and a bold flag. Drawing them is left to the terminal front end.

use vstd::prelude::*;
use vstd::string::*;
use crate::app::{App, AppPhase};
use crate::clock::{duration_as_millis, instant_elapsed};
use crate::text::{push_decimal, push_pad2, spec_decimal, spec_pad2};
use crate::yijing::{
    interpretation, law_analysis_is_readable, law_reading_of_analysis, spec_reading, is_yang, spec_changing_indices, spec_changing_label, spec_hexagram_index, spec_name_of,
    spec_is_changing, spec_is_yang, spec_transformed_lines, HexagramResult,
};
use crate::app::{spec_focus_caption, spec_history, spec_instruction, AppView};

verus! {

/// The three colours of the screen, and the terminal's own.
#[derive(Clone, Copy, Debug, Eq, PartialEq, Structural)]
pub enum Tone {
    /// Near-white body text.
    Text,
    /// Warm highlight.
    Warm,
    /// Dark grey for secondary text.
    Dim,
    /// No colour of its own.
    Plain,
}

/// A run of text in one tone.
pub struct Segment {
    pub text: String,
    pub tone: Tone,
    pub bold: bool,
}

impl View for Segment {
    type V = (Seq<char>, Tone, bool);

    open spec fn view(&self) -> (Seq<char>, Tone, bool) {
        (self.text@, self.tone, self.bold)
    }
}

/// One line of segments, viewed as plain values.
pub open spec fn line_view(line: Vec<Segment>) -> Seq<(Seq<char>, Tone, bool)> {
    line@.map_values(|s: Segment| s@)
}

/// Lines of segments, viewed as plain values.
pub open spec fn lines_view(lines: Seq<Vec<Segment>>) -> Seq<Seq<(Seq<char>, Tone, bool)>> {
    lines.map_values(|l: Vec<Segment>| line_view(l))
}

fn segment(text: String, tone: Tone, bold: bool) -> (r: Segment)
    ensures
        r@ == (text@, tone, bold),
{
    Segment { text, tone, bold }
}

fn single(text: String, tone: Tone, bold: bool) -> (r: Vec<Segment>)
    ensures
        line_view(r) == seq![(text@, tone, bold)],
{
    let mut line = Vec::new();
    line.push(segment(text, tone, bold));
    assert(line_view(line) =~= seq![(text@, tone, bold)]);
    line
}

/// An empty line.
pub open spec fn blank_line() -> Seq<(Seq<char>, Tone, bool)> {
    seq![(seq![], Tone::Plain, false)]
}

fn blank() -> (r: Vec<Segment>)
    ensures
        line_view(r) == blank_line(),
{
    single(String::new(), Tone::Plain, false)
}

// ── Small pieces ──────────────────────────────────────────────────────────

/// Position of a stage on the track.
pub open spec fn spec_phase_order(phase: AppPhase) -> nat {
    match phase {
        AppPhase::Welcome => 0,
        AppPhase::Casting => 1,
        AppPhase::Assembling => 2,
        AppPhase::ReverseConfirm => 3,
        AppPhase::Result => 4,
    }
}

pub fn phase_order(phase: AppPhase) -> (r: usize)
    ensures
        r == spec_phase_order(phase),
{
    match phase {
        AppPhase::Welcome => 0,
        AppPhase::Casting => 1,
        AppPhase::Assembling => 2,
        AppPhase::ReverseConfirm => 3,
        AppPhase::Result => 4,
    }
}

pub open spec fn spec_line_slot(idx: int) -> Seq<char> {
    if idx == 0 {
        "初爻"@
    } else if idx == 1 {
        "二爻"@
    } else if idx == 2 {
        "三爻"@
    } else if idx == 3 {
        "四爻"@
    } else if idx == 4 {
        "五爻"@
    } else if idx == 5 {
        "上爻"@
    } else {
        "?"@
    }
}

/// Name of the line position `idx`, bottom first.
pub fn line_slot(idx: usize) -> (r: &'static str)
    ensures
        r@ == spec_line_slot(idx as int),
{
    match idx {
        0 => "初爻",
        1 => "二爻",
        2 => "三爻",
        3 => "四爻",
        4 => "五爻",
        5 => "上爻",
        _ => "?",
    }
}

pub open spec fn spec_line_meta(value: u8) -> Seq<char> {
    if value == 6 {
        "老阴 *"@
    } else if value == 7 {
        "少阳"@
    } else if value == 8 {
        "少阴"@
    } else if value == 9 {
        "老阳 *"@
    } else {
        "?"@
    }
}

/// Short description of a line value; changing lines are starred.
pub fn line_meta(value: u8) -> (r: &'static str)
    ensures
        r@ == spec_line_meta(value),
{
    match value {
        6 => "老阴 *",
        7 => "少阳",
        8 => "少阴",
        9 => "老阳 *",
        _ => "?",
    }
}

pub open spec fn spec_wide_glyph(value: u8) -> Seq<char> {
    if spec_is_yang(value) {
        "━━━━━━━━━━━"@
    } else {
        "━━━━   ━━━━"@
    }
}

/// Wide line picture for the casting scene.
pub fn wide_glyph(value: u8) -> (r: &'static str)
    ensures
        r@ == spec_wide_glyph(value),
{
    if is_yang(value) {
        "━━━━━━━━━━━"
    } else {
        "━━━━   ━━━━"
    }
}

pub open spec fn spec_hero_glyph(value: u8) -> Seq<char> {
    if spec_is_yang(value) {
        "━━━━━━━━━━━━━━━━━"@
    } else {
        "━━━━━━━   ━━━━━━━"@
    }
}

/// Wider line picture for the result scene.
pub fn hero_glyph(value: u8) -> (r: &'static str)
    ensures
        r@ == spec_hero_glyph(value),
{
    if is_yang(value) {
        "━━━━━━━━━━━━━━━━━"
    } else {
        "━━━━━━━   ━━━━━━━"
    }
}

/// The characters of `s` with two spaces between neighbours.
pub open spec fn spec_hero_name(s: Seq<char>) -> Seq<char>
    decreases s.len(),
{
    if s.len() <= 1 {
        s
    } else {
        spec_hero_name(s.drop_last()) + "  "@ + seq![s.last()]
    }
}

/// A hexagram name spread out for large display.
pub fn hero_name(s: &str) -> (r: String)
    ensures
        r@ == spec_hero_name(s@),
{
    let n = s.unicode_len();
    let mut out = String::new();
    let mut i: usize = 0;
    while i < n
        invariant
            n == s@.len(),
            i <= n,
            out@ == spec_hero_name(s@.take(i as int)),
        decreases n - i,
    {
        if i > 0 {
            out.append("  ");
        }
        out.append(s.substring_char(i, i + 1));
        proof {
            let t = s@.take(i + 1);
            assert(t.drop_last() =~= s@.take(i as int));
            assert(s@.subrange(i as int, i + 1) =~= seq![t.last()]);
            if i == 0 {
                assert(out@ =~= t);
            }
        }
        i += 1;
    }
    assert(s@.take(n as int) =~= s@);
    out
}

// ── Reveal timing ─────────────────────────────────────────────────────────

/// Stage of the result reveal after `ms` milliseconds: a breathing dot, the
/// name, the lines one by one, the relating hexagram, everything.
pub open spec fn spec_reveal_stage(ms: u128) -> u8 {
    if ms < 400 {
        0
    } else if ms < 900 {
        1
    } else if ms < 1500 {
        2
    } else if ms < 2200 {
        3
    } else {
        4
    }
}

pub fn reveal_stage_at(ms: u128) -> (r: u8)
    ensures
        r == spec_reveal_stage(ms),
{
    if ms < 400 {
        0
    } else if ms < 900 {
        1
    } else if ms < 1500 {
        2
    } else if ms < 2200 {
        3
    } else {
        4
    }
}

/// Stage of the reveal for the time spent in the current stage.
pub fn reveal_stage(app: &App) -> (r: u8)
    ensures
        r <= 4,
{
    reveal_stage_at(duration_as_millis(&app.phase_elapsed()))
}

/// Lines shown after `ms` milliseconds: none before 900, then one more every 100, at most six.
pub open spec fn spec_lines_to_reveal(ms: u128) -> nat {
    if ms < 900 {
        0
    } else if (ms - 900) / 100 + 1 >= 6 {
        6
    } else {
        ((ms - 900) / 100 + 1) as nat
    }
}

pub fn lines_to_reveal_at(ms: u128) -> (r: usize)
    ensures
        r == spec_lines_to_reveal(ms),
{
    if ms < 900 {
        return 0;
    }
    let shown = (ms - 900) / 100 + 1;
    if shown >= 6 {
        6
    } else {
        shown as usize
    }
}

/// Lines shown for the time spent in the current stage.
pub fn lines_to_reveal(app: &App) -> (r: usize)
    ensures
        r <= 6,
{
    lines_to_reveal_at(duration_as_millis(&app.phase_elapsed()))
}

/// Whether a throw taken `elapsed_ms` milliseconds ago, if any, still flashes:
/// it does for less than 250 ms.
pub fn flash_after(elapsed_ms: Option<u128>) -> (r: bool)
    ensures
        r == (elapsed_ms matches Some(ms) && ms < 250),
{
    match elapsed_ms {
        Some(ms) => ms < 250,
        None => false,
    }
}

/// Whether the last throw happened less than 250 ms ago.
pub fn cast_flash(app: &App) -> (r: bool)
    ensures
        r ==> app@.has_cast,
{
    let elapsed_ms = match app.last_cast_elapsed() {
        Some(d) => Some(duration_as_millis(&d)),
        None => None,
    };
    flash_after(elapsed_ms)
}

// ── Header, track and footer ──────────────────────────────────────────────

pub open spec fn spec_stage_label(k: int) -> Seq<char> {
    if k == 0 {
        "静场"@
    } else if k == 1 {
        "起数"@
    } else if k == 2 {
        "收束"@
    } else if k == 3 {
        "显卦"@
    } else {
        "结果"@
    }
}

fn stage_label(k: usize) -> (r: &'static str)
    ensures
        r@ == spec_stage_label(k as int),
{
    match k {
        0 => "静场",
        1 => "起数",
        2 => "收束",
        3 => "显卦",
        _ => "结果",
    }
}

/// Track entry `k`: passed stages dim, the current one warm and bold, later ones hollow.
pub open spec fn stage_segment(k: int, current: int) -> (Seq<char>, Tone, bool) {
    let dot = if k < current {
        "◉"@
    } else if k == current {
        "●"@
    } else {
        "○"@
    };
    (dot + " "@ + spec_stage_label(k), if k == current {
        Tone::Warm
    } else {
        Tone::Dim
    }, k == current)
}

/// The stage track: a leading space, then the five stages joined by " ─ ".
pub open spec fn spec_stage_dots(phase: AppPhase) -> Seq<(Seq<char>, Tone, bool)> {
    Seq::new(
        10,
        |k: int|
            if k == 0 {
                (" "@, Tone::Plain, false)
            } else if k % 2 == 1 {
                stage_segment((k - 1) / 2, spec_phase_order(phase) as int)
            } else {
                (" ─ "@, Tone::Dim, false)
            },
    )
}

fn push_stage(line: &mut Vec<Segment>, k: usize, current: usize)
    requires
        k < 5,
    ensures
        line_view(*final(line)) == line_view(*old(line)).push(stage_segment(k as int, current as int)),
{
    let dot = if k < current {
        "◉"
    } else if k == current {
        "●"
    } else {
        "○"
    };
    let mut text = String::from_str(dot);
    text.append(" ");
    text.append(stage_label(k));
    let tone = if k == current {
        Tone::Warm
    } else {
        Tone::Dim
    };
    line.push(segment(text, tone, k == current));
    assert(line_view(*line) =~= line_view(*old(line)).push(stage_segment(k as int, current as int)));
}

fn push_separator(line: &mut Vec<Segment>)
    ensures
        line_view(*final(line)) == line_view(*old(line)).push((" ─ "@, Tone::Dim, false)),
{
    line.push(segment(String::from_str(" ─ "), Tone::Dim, false));
    assert(line_view(*line) =~= line_view(*old(line)).push((" ─ "@, Tone::Dim, false)));
}

/// The stage track of the current stage.
pub fn stage_dots(app: &App) -> (r: Vec<Segment>)
    ensures
        line_view(r) == spec_stage_dots(app@.phase),
{
    let current = phase_order(app.phase());
    let mut line: Vec<Segment> = Vec::new();
    line.push(segment(String::from_str(" "), Tone::Plain, false));
    push_stage(&mut line, 0, current);
    push_separator(&mut line);
    push_stage(&mut line, 1, current);
    push_separator(&mut line);
    push_stage(&mut line, 2, current);
    push_separator(&mut line);
    push_stage(&mut line, 3, current);
    push_separator(&mut line);
    push_stage(&mut line, 4, current);
    assert(line_view(line) =~= spec_stage_dots(app@.phase));
    line
}

/// The title line: the title, and after the welcome the throw and line counts.
pub open spec fn spec_header(v: AppView) -> Seq<(Seq<char>, Tone, bool)> {
    let title = seq![(" 数字起卦"@, Tone::Text, true)];
    if v.phase == AppPhase::Welcome {
        title
    } else {
        title.push(
            (
                "  "@ + spec_pad2(v.raw_digits.len()) + "/18 · "@ + spec_decimal(v.line_sums.len())
                    + "/6爻"@,
                Tone::Dim,
                false,
            ),
        )
    }
}

pub fn header_line(app: &App) -> (r: Vec<Segment>)
    ensures
        line_view(r) == spec_header(app@),
{
    let mut line: Vec<Segment> = Vec::new();
    line.push(segment(String::from_str(" 数字起卦"), Tone::Text, true));
    if app.phase() != AppPhase::Welcome {
        let mut text = String::from_str("  ");
        push_pad2(&mut text, app.casts_completed() as u64);
        text.append("/18 · ");
        push_decimal(&mut text, app.completed_lines() as u64);
        text.append("/6爻");
        line.push(segment(text, Tone::Dim, false));
    }
    assert(line_view(line) =~= spec_header(app@));
    line
}

/// The footer: the pulse while it lasts, otherwise the key help of the stage.
pub open spec fn spec_footer(v: AppView) -> (Seq<char>, Tone, bool) {
    match v.pulse {
        Some(m) => (m, Tone::Warm, false),
        None => (
            match v.phase {
                AppPhase::Welcome => "Enter 开始  ·  q 退出"@,
                AppPhase::Result => "Enter 再问  ·  q 退出"@,
                _ => "Enter 继续  ·  q 退出"@,
            },
            Tone::Dim,
            false,
        ),
    }
}

pub fn footer_segment(app: &App) -> (r: Segment)
    ensures
        r@ == spec_footer(app@),
{
    match app.pulse() {
        Some(pulse) => segment(String::from_str(pulse.message()), Tone::Warm, false),
        None => {
            let text = match app.phase() {
                AppPhase::Welcome => "Enter 开始  ·  q 退出",
                AppPhase::Result => "Enter 再问  ·  q 退出",
                _ => "Enter 继续  ·  q 退出",
            };
            segment(String::from_str(text), Tone::Dim, false)
        },
    }
}

/// The welcome prompt breathes: warm for 26 ticks, dim for 14.
pub fn welcome_tone(tick: u64) -> (r: Tone)
    ensures
        r == if tick % 40 < 26 {
            Tone::Warm
        } else {
            Tone::Dim
        },
{
    if tick % 40 < 26 {
        Tone::Warm
    } else {
        Tone::Dim
    }
}

/// Before the name appears the result shows a dot, warm and dim by turns of ten ticks.
pub fn result_dot_tone(tick: u64) -> (r: Tone)
    ensures
        r == if (tick / 10) % 2 == 0 {
            Tone::Warm
        } else {
            Tone::Dim
        },
{
    if (tick / 10) % 2 == 0 {
        Tone::Warm
    } else {
        Tone::Dim
    }
}

/// The focus of the ritual scene: the instruction in bold, then the caption, each if not empty.
pub open spec fn spec_focus_lines(v: AppView) -> Seq<Seq<(Seq<char>, Tone, bool)>> {
    let i = spec_instruction(v);
    let c = spec_focus_caption(v);
    (if i.len() > 0 {
        seq![seq![(i, Tone::Text, true)]]
    } else {
        seq![]
    }) + (if c.len() > 0 {
        seq![seq![(c, Tone::Dim, false)]]
    } else {
        seq![]
    })
}

pub fn focus_lines(app: &App) -> (r: Vec<Vec<Segment>>)
    ensures
        lines_view(r@) == spec_focus_lines(app@),
{
    proof {
        use_type_invariant(app);
    }
    let mut lines: Vec<Vec<Segment>> = Vec::new();
    let instruction = app.instruction();
    if instruction.as_str().unicode_len() > 0 {
        lines.push(single(instruction, Tone::Text, true));
    }
    let caption = app.focus_caption();
    if caption.as_str().unicode_len() > 0 {
        lines.push(single(caption, Tone::Dim, false));
    }
    assert(lines_view(lines@) =~= spec_focus_lines(app@));
    lines
}

// ── Ritual scene ──────────────────────────────────────────────────────────

/// `s` padded with spaces on the right to four characters.
pub open spec fn pad_right4(s: Seq<char>) -> Seq<char> {
    if s.len() < 4 {
        s + Seq::new((4 - s.len()) as nat, |i: int| ' ')
    } else {
        s
    }
}

fn push_padded4(out: &mut String, s: &str)
    ensures
        final(out)@ == old(out)@ + pad_right4(s@),
{
    out.append(s);
    let n = s.unicode_len();
    let mut k = n;
    proof {
        reveal_strlit(" ");
    }
    while k < 4
        invariant
            n == s@.len(),
            n <= k <= 4 || (n > 4 && k == n),
            out@ == old(out)@ + s@ + Seq::new((k - n) as nat, |i: int| ' '),
        decreases 4 - k,
    {
        out.append(" ");
        proof {
            reveal_strlit(" ");
        }
        assert(Seq::new((k + 1 - n) as nat, |i: int| ' ') =~= Seq::new((k - n) as nat, |i: int| ' ')
            + " "@);
        k += 1;
    }
    assert(out@ =~= old(out)@ + pad_right4(s@));
}

/// A formed line while casting or assembling: position, wide picture, description.
pub open spec fn formation_row(idx: int, value: u8, highlight: bool) -> Seq<(Seq<char>, Tone, bool)> {
    seq![
        (pad_right4(spec_line_slot(idx)) + "  "@, Tone::Dim, false),
        (spec_wide_glyph(value), if highlight {
            Tone::Warm
        } else {
            Tone::Text
        }, highlight),
        ("  "@ + spec_line_meta(value), Tone::Dim, false),
    ]
}

fn formation_row_exec(idx: usize, value: u8, highlight: bool) -> (r: Vec<Segment>)
    ensures
        line_view(r) == formation_row(idx as int, value, highlight),
{
    let mut slot = String::new();
    push_padded4(&mut slot, line_slot(idx));
    slot.append("  ");
    let mut meta = String::from_str("  ");
    meta.append(line_meta(value));
    let tone = if highlight {
        Tone::Warm
    } else {
        Tone::Text
    };
    let mut line: Vec<Segment> = Vec::new();
    line.push(segment(slot, Tone::Dim, false));
    line.push(segment(String::from_str(wide_glyph(value)), tone, highlight));
    line.push(segment(meta, Tone::Dim, false));
    assert(line_view(line) =~= formation_row(idx as int, value, highlight));
    line
}

/// The dots of the throws of the line in progress.
pub open spec fn trio_indicator(slot: nat) -> Seq<char> {
    if slot == 1 {
        "● ○ ○"@
    } else if slot == 2 {
        "● ● ○"@
    } else {
        "○ ○ ○"@
    }
}

/// The formed lines, top line first; while casting the newest one flashes and
/// the line in progress follows with its throw dots.
pub open spec fn spec_formation(v: AppView, flash: bool) -> Seq<Seq<(Seq<char>, Tone, bool)>> {
    let n = v.line_sums.len();
    match v.phase {
        AppPhase::Casting => {
            let rows = Seq::new(
                n,
                |k: int| formation_row(n - 1 - k, v.line_sums[n - 1 - k], k == 0 && flash),
            );
            if n < 6 {
                rows + (if n > 0 {
                    seq![blank_line()]
                } else {
                    seq![]
                }) + seq![
                    seq![
                        (
                            spec_line_slot(n as int) + "  "@ + trio_indicator(v.raw_digits.len() % 3),
                            Tone::Warm,
                            flash,
                        ),
                    ],
                ]
            } else {
                rows
            }
        },
        AppPhase::Assembling | AppPhase::ReverseConfirm => Seq::new(
            n,
            |k: int| formation_row(n - 1 - k, v.line_sums[n - 1 - k], false),
        ),
        _ => seq![],
    }
}

/// The formation panel; `flash` marks a throw taken a moment ago.
pub fn formation_lines(app: &App, flash: bool) -> (r: Vec<Vec<Segment>>)
    ensures
        lines_view(r@) == spec_formation(app@, flash),
{
    proof {
        use_type_invariant(app);
    }
    let ghost v = app@;
    let phase = app.phase();
    let mut lines: Vec<Vec<Segment>> = Vec::new();
    if phase == AppPhase::Welcome || phase == AppPhase::Result {
        assert(lines_view(lines@) =~= spec_formation(v, flash));
        return lines;
    }
    let sums = app.line_sums();
    let n = sums.len();
    let casting = phase == AppPhase::Casting;
    let mut k: usize = 0;
    while k < n
        invariant
            v == app@,
            sums@ == v.line_sums,
            n == sums@.len(),
            k <= n,
            lines@.len() == k,
            forall|j: int|
                0 <= j < k ==> #[trigger] line_view(lines@[j]) == formation_row(
                    n - 1 - j,
                    v.line_sums[n - 1 - j],
                    j == 0 && flash && casting,
                ),
        decreases n - k,
    {
        let idx = n - 1 - k;
        lines.push(formation_row_exec(idx, sums[idx], k == 0 && flash && casting));
        k += 1;
    }
    if casting && n < 6 {
        let slot = app.casts_completed() % 3;
        let indicator = if slot == 1 {
            "● ○ ○"
        } else if slot == 2 {
            "● ● ○"
        } else {
            "○ ○ ○"
        };
        if n > 0 {
            lines.push(blank());
        }
        let mut text = String::from_str(line_slot(n));
        text.append("  ");
        text.append(indicator);
        lines.push(single(text, Tone::Warm, flash));
    }
    assert(lines_view(lines@) =~= spec_formation(v, flash));
    lines
}

/// The tempo panel: next throw and line while casting, a word while assembling or revealing.
pub open spec fn spec_tempo(v: AppView) -> Seq<Seq<(Seq<char>, Tone, bool)>> {
    match v.phase {
        AppPhase::Casting => seq![
            seq![("数位  "@ + spec_pad2(v.raw_digits.len() + 1), Tone::Text, false)],
            seq![("第 "@ + spec_decimal(v.raw_digits.len() / 3 + 1) + " 爻"@, Tone::Dim, false)],
        ],
        AppPhase::Assembling => seq![seq![("收束"@, Tone::Text, false)]],
        AppPhase::ReverseConfirm => seq![seq![("显卦前夜"@, Tone::Text, false)]],
        _ => seq![],
    }
}

pub fn tempo_lines(app: &App) -> (r: Vec<Vec<Segment>>)
    ensures
        lines_view(r@) == spec_tempo(app@),
{
    proof {
        use_type_invariant(app);
    }
    let mut lines: Vec<Vec<Segment>> = Vec::new();
    match app.phase() {
        AppPhase::Casting => {
            let casts = app.casts_completed();
            let mut next = String::from_str("数位  ");
            push_pad2(&mut next, casts as u64 + 1);
            let mut line = String::from_str("第 ");
            push_decimal(&mut line, (casts / 3 + 1) as u64);
            line.append(" 爻");
            lines.push(single(next, Tone::Text, false));
            lines.push(single(line, Tone::Dim, false));
        },
        AppPhase::Assembling => {
            lines.push(single(String::from_str("收束"), Tone::Text, false));
        },
        AppPhase::ReverseConfirm => {
            lines.push(single(String::from_str("显卦前夜"), Tone::Text, false));
        },
        _ => {},
    }
    assert(lines_view(lines@) =~= spec_tempo(app@));
    lines
}

// ── Trace panel ───────────────────────────────────────────────────────────

/// Counters, and the fingerprint of the last throw (warm while it flashes).
pub open spec fn spec_trace_summary(v: AppView, flash: bool) -> Seq<Seq<(Seq<char>, Tone, bool)>> {
    let counts = seq![
        seq![("取数  "@ + spec_pad2(v.raw_digits.len()) + "/18"@, Tone::Text, false)],
        seq![("成爻  "@ + spec_pad2(v.line_sums.len()) + "/06"@, Tone::Text, false)],
    ];
    match v.last_entropy {
        Some((fp, _)) => counts.push(
            seq![("熵印  "@ + fp, if flash {
                Tone::Warm
            } else {
                Tone::Dim
            }, false)],
        ),
        None => counts,
    }
}

pub fn trace_summary_lines(app: &App, flash: bool) -> (r: Vec<Vec<Segment>>)
    ensures
        lines_view(r@) == spec_trace_summary(app@, flash),
{
    let mut lines: Vec<Vec<Segment>> = Vec::new();
    let mut casts = String::from_str("取数  ");
    push_pad2(&mut casts, app.casts_completed() as u64);
    casts.append("/18");
    lines.push(single(casts, Tone::Text, false));
    let mut formed = String::from_str("成爻  ");
    push_pad2(&mut formed, app.completed_lines() as u64);
    formed.append("/06");
    lines.push(single(formed, Tone::Text, false));
    match app.last_entropy() {
        Some((fingerprint, _)) => {
            let mut text = String::from_str("熵印  ");
            text.append(fingerprint);
            let tone = if flash {
                Tone::Warm
            } else {
                Tone::Dim
            };
            lines.push(single(text, tone, false));
        },
        None => {},
    }
    assert(lines_view(lines@) =~= spec_trace_summary(app@, flash));
    lines
}

/// The log: up to six history rows, a blank line, then the newest journal
/// entries (seven in the result stage, ten otherwise), newest first and warm while it flashes.
pub open spec fn spec_trace_log(v: AppView, flash: bool) -> Seq<Seq<(Seq<char>, Tone, bool)>> {
    let hist = spec_history(v);
    let shown = if hist.len() <= 6 {
        hist.len()
    } else {
        6
    };
    let limit: nat = if v.phase == AppPhase::Result {
        7
    } else {
        10
    };
    let jn = v.journal.len();
    let entries = if jn <= limit {
        jn
    } else {
        limit
    };
    Seq::new(shown, |i: int| seq![(hist[i], Tone::Dim, false)]) + (if shown > 0 {
        seq![blank_line()]
    } else {
        seq![]
    }) + Seq::new(
        entries,
        |i: int|
            seq![
                ("· "@, Tone::Dim, false),
                (v.journal[jn - 1 - i], if i == 0 && flash {
                    Tone::Warm
                } else {
                    Tone::Text
                }, false),
            ],
    )
}

pub fn trace_log_lines(app: &App, flash: bool) -> (r: Vec<Vec<Segment>>)
    ensures
        lines_view(r@) == spec_trace_log(app@, flash),
{
    proof {
        use_type_invariant(app);
    }
    let ghost v = app@;
    let history = app.history_snapshot();
    let ghost hist = spec_history(v);
    assert(history@.len() == hist.len());
    let shown = if history.len() <= 6 {
        history.len()
    } else {
        6
    };
    let mut lines: Vec<Vec<Segment>> = Vec::new();
    let mut i: usize = 0;
    while i < shown
        invariant
            history@.map_values(|s: String| s@) == hist,
            shown <= history@.len(),
            i <= shown,
            lines@.len() == i,
            forall|j: int| 0 <= j < i ==> #[trigger] line_view(lines@[j]) == seq![(hist[j], Tone::Dim, false)],
        decreases shown - i,
    {
        assert(history@[i as int]@ == hist[i as int]);
        lines.push(single(history[i].clone(), Tone::Dim, false));
        i += 1;
    }
    if shown > 0 {
        lines.push(blank());
    }
    let ghost head = Seq::new(shown as nat, |i: int| seq![(hist[i], Tone::Dim, false)]) + (if shown
        > 0 {
        seq![blank_line()]
    } else {
        seq![]
    });
    assert(lines_view(lines@) =~= head);
    let limit: usize = if app.phase() == AppPhase::Result {
        7
    } else {
        10
    };
    let journal = app.journal_entries();
    let jn = journal.len();
    let entries = if jn <= limit {
        jn
    } else {
        limit
    };
    let base = lines.len();
    let mut i: usize = 0;
    while i < entries
        invariant
            v == app@,
            journal@.map_values(|s: String| s@) == v.journal,
            jn == journal@.len(),
            entries <= jn,
            i <= entries,
            lines@.len() == base + i,
            base == head.len(),
            forall|j: int| 0 <= j < base ==> #[trigger] line_view(lines@[j]) == head[j],
            forall|j: int|
                0 <= j < i ==> #[trigger] line_view(lines@[base + j]) == seq![
                    ("· "@, Tone::Dim, false),
                    (v.journal[jn - 1 - j], if j == 0 && flash {
                        Tone::Warm
                    } else {
                        Tone::Text
                    }, false),
                ],
        decreases entries - i,
    {
        let entry = &journal[jn - 1 - i];
        assert(entry@ == v.journal[jn - 1 - i]);
        let tone = if i == 0 && flash {
            Tone::Warm
        } else {
            Tone::Text
        };
        let mut line: Vec<Segment> = Vec::new();
        line.push(segment(String::from_str("· "), Tone::Dim, false));
        line.push(segment(entry.clone(), tone, false));
        proof {
            assert(line_view(line) =~= seq![
                ("· "@, Tone::Dim, false),
                (v.journal[jn - 1 - i], tone, false),
            ]);
        }
        lines.push(line);
        i += 1;
    }
    let ghost tail = Seq::new(
        entries as nat,
        |i: int|
            seq![
                ("· "@, Tone::Dim, false),
                (v.journal[jn - 1 - i], if i == 0 && flash {
                    Tone::Warm
                } else {
                    Tone::Text
                }, false),
            ],
    );
    assert forall|k: int| base <= k < lines@.len() implies #[trigger] line_view(lines@[k]) == tail[k
        - base] by {
        let j = k - base;
        assert(line_view(lines@[base + j]) == tail[j]);
    }
    assert(lines_view(lines@) =~= head + tail);
    assert(spec_trace_log(v, flash) =~= head + tail);
    lines
}

// ── Result scene ──────────────────────────────────────────────────────────

/// The heading of the result: the primary name spread out, and the relating one after an arrow.
pub open spec fn spec_result_heading(result: HexagramResult) -> Seq<char> {
    match result.relating {
        Some(relating) => spec_hero_name(result.primary.name@) + "  →  "@ + spec_hero_name(
            relating.name@,
        ),
        None => spec_hero_name(result.primary.name@),
    }
}

pub fn result_heading(result: &HexagramResult) -> (r: String)
    ensures
        r@ == spec_result_heading(*result),
{
    match result.relating {
        Some(relating) => {
            let mut heading = hero_name(result.primary.name);
            heading.append("  →  ");
            heading.append(hero_name(relating.name).as_str());
            heading
        },
        None => hero_name(result.primary.name),
    }
}

/// "#NN" and the number of changing lines of the primary hexagram.
pub open spec fn primary_subtitle(lines: Seq<u8>) -> Seq<char> {
    let n = spec_changing_indices(lines).len();
    if n == 0 {
        "#"@ + spec_pad2(spec_hexagram_index(lines)) + "  无变爻"@
    } else {
        "#"@ + spec_pad2(spec_hexagram_index(lines)) + "  "@ + spec_decimal(n) + " 个变爻"@
    }
}

/// A line of the primary hexagram: position, wide picture, and for a changing
/// line a marker and a pulse (warm and bold two thirds of the time).
pub open spec fn hero_row(idx: int, value: u8, tick: u64) -> Seq<(Seq<char>, Tone, bool)> {
    let changing = spec_is_changing(value);
    let pulse_on = (tick / 8) % 3 != 0;
    seq![
        (spec_line_slot(idx) + " "@, Tone::Dim, false),
        (spec_hero_glyph(value), if !changing {
            Tone::Text
        } else if pulse_on {
            Tone::Warm
        } else {
            Tone::Dim
        }, changing && pulse_on),
        (if changing {
            "  ◄"@
        } else {
            seq![]
        }, Tone::Warm, false),
    ]
}

/// The primary hexagram panel: the subtitle, and from stage 2 the six lines top
/// first, of which the first `visible` are drawn and the rest left blank.
pub open spec fn spec_primary_lines(v: AppView, stage: u8, visible: nat) -> Seq<
    Seq<(Seq<char>, Tone, bool)>,
> {
    let lines = v.line_sums;
    if lines.len() != 6 {
        seq![]
    } else if stage < 2 {
        seq![seq![(primary_subtitle(lines), Tone::Dim, false)]]
    } else {
        seq![seq![(primary_subtitle(lines), Tone::Dim, false)], blank_line()] + Seq::new(
            6,
            |d: int|
                if d >= visible {
                    blank_line()
                } else {
                    hero_row(5 - d, lines[5 - d], v.tick_count)
                },
        )
    }
}

fn hero_row_exec(idx: usize, value: u8, tick: u64) -> (r: Vec<Segment>)
    ensures
        line_view(r) == hero_row(idx as int, value, tick),
{
    let changing = value == 6 || value == 9;
    let pulse_on = (tick / 8) % 3 != 0;
    let tone = if !changing {
        Tone::Text
    } else if pulse_on {
        Tone::Warm
    } else {
        Tone::Dim
    };
    let mut slot = String::from_str(line_slot(idx));
    slot.append(" ");
    let mark = if changing {
        String::from_str("  ◄")
    } else {
        String::new()
    };
    let mut line: Vec<Segment> = Vec::new();
    line.push(segment(slot, Tone::Dim, false));
    line.push(segment(String::from_str(hero_glyph(value)), tone, changing && pulse_on));
    line.push(segment(mark, Tone::Warm, false));
    assert(line_view(line) =~= hero_row(idx as int, value, tick));
    line
}

pub fn primary_hexagram_lines(app: &App, stage: u8, lines_visible: usize) -> (r: Vec<Vec<Segment>>)
    ensures
        lines_view(r@) == spec_primary_lines(app@, stage, lines_visible as nat),
{
    proof {
        use_type_invariant(app);
    }
    let ghost v = app@;
    let mut output: Vec<Vec<Segment>> = Vec::new();
    let result = match app.current_result() {
        Some(result) => result,
        None => {
            assert(lines_view(output@) =~= spec_primary_lines(v, stage, lines_visible as nat));
            return output;
        },
    };
    let mut subtitle = String::from_str("#");
    push_pad2(&mut subtitle, result.primary.index as u64);
    if result.changing_lines.len() == 0 {
        subtitle.append("  无变爻");
    } else {
        subtitle.append("  ");
        push_decimal(&mut subtitle, result.changing_lines.len() as u64);
        subtitle.append(" 个变爻");
    }
    assert(subtitle@ =~= primary_subtitle(v.line_sums));
    output.push(single(subtitle, Tone::Dim, false));
    if stage < 2 {
        assert(lines_view(output@) =~= spec_primary_lines(v, stage, lines_visible as nat));
        return output;
    }
    output.push(blank());
    let sums = app.line_sums();
    let mut d: usize = 0;
    while d < 6
        invariant
            v == app@,
            sums@ == v.line_sums,
            v.line_sums.len() == 6,
            d <= 6,
            output@.len() == 2 + d,
            line_view(output@[0]) == seq![(primary_subtitle(v.line_sums), Tone::Dim, false)],
            line_view(output@[1]) == blank_line(),
            forall|j: int|
                0 <= j < d ==> #[trigger] line_view(output@[2 + j]) == if j >= lines_visible {
                    blank_line()
                } else {
                    hero_row(5 - j, v.line_sums[5 - j], v.tick_count)
                },
        decreases 6 - d,
    {
        let idx = 5 - d;
        if d >= lines_visible {
            output.push(blank());
        } else {
            output.push(hero_row_exec(idx, sums[idx], app.tick_count()));
        }
        d += 1;
    }
    let ghost spec = spec_primary_lines(v, stage, lines_visible as nat);
    assert forall|k: int| 0 <= k < 8 implies #[trigger] line_view(output@[k]) == spec[k] by {
        if k >= 2 {
            let j = k - 2;
            assert(line_view(output@[2 + j]) == spec[2 + j]);
        }
    }
    assert(lines_view(output@) =~= spec);
    output
}

/// `parts` joined with `sep` between neighbours.
pub open spec fn join_with(parts: Seq<Seq<char>>, sep: Seq<char>) -> Seq<char>
    decreases parts.len(),
{
    if parts.len() == 0 {
        seq![]
    } else if parts.len() == 1 {
        parts[0]
    } else {
        join_with(parts.drop_last(), sep) + sep + parts.last()
    }
}

/// The names of the changing lines of `lines`, bottom first.
pub open spec fn changing_labels(lines: Seq<u8>) -> Seq<Seq<char>> {
    let idx = spec_changing_indices(lines);
    Seq::new(idx.len(), |k: int| spec_changing_label((idx[k] + 1) as nat, lines[idx[k] as int]))
}

/// The relating panel: folded before stage 3; then the relating hexagram (or
/// none), the changing lines, and from stage 4 the transformed lines top first.
pub open spec fn spec_relating_lines(v: AppView, stage: u8) -> Seq<Seq<(Seq<char>, Tone, bool)>> {
    let lines = v.line_sums;
    if lines.len() != 6 {
        seq![]
    } else if stage < 3 {
        seq![seq![("变化层尚未展开。"@, Tone::Dim, false)]]
    } else {
        let idx = spec_changing_indices(lines);
        let head = if idx.len() == 0 {
            seq![seq![("之卦  无"@, Tone::Warm, true)]]
        } else {
            let t = spec_transformed_lines(lines);
            seq![
                seq![("之卦  "@ + spec_name_of(t), Tone::Warm, true)],
                seq![("#"@ + spec_pad2(spec_hexagram_index(t)), Tone::Dim, false)],
            ]
        };
        let changing = if idx.len() == 0 {
            "变爻  无"@
        } else {
            "变爻  "@ + join_with(changing_labels(lines), " · "@)
        };
        let notes = head + seq![blank_line(), seq![(changing, Tone::Text, false)]];
        if stage >= 4 {
            let t = spec_transformed_lines(lines);
            notes + seq![blank_line(), seq![("变后六爻"@, Tone::Warm, false)]] + Seq::new(
                6,
                |d: int|
                    seq![
                        (spec_line_slot(5 - d) + " "@, Tone::Dim, false),
                        (spec_wide_glyph(t[5 - d]), Tone::Text, false),
                    ],
            )
        } else {
            notes
        }
    }
}

fn transformed_row(idx: usize, value: u8) -> (r: Vec<Segment>)
    ensures
        line_view(r) == seq![
            (spec_line_slot(idx as int) + " "@, Tone::Dim, false),
            (spec_wide_glyph(value), Tone::Text, false),
        ],
{
    let mut slot = String::from_str(line_slot(idx));
    slot.append(" ");
    let mut line: Vec<Segment> = Vec::new();
    line.push(segment(slot, Tone::Dim, false));
    line.push(segment(String::from_str(wide_glyph(value)), Tone::Text, false));
    assert(line_view(line) =~= seq![
        (spec_line_slot(idx as int) + " "@, Tone::Dim, false),
        (spec_wide_glyph(value), Tone::Text, false),
    ]);
    line
}

pub fn relating_and_notes_lines(app: &App, stage: u8) -> (r: Vec<Vec<Segment>>)
    ensures
        lines_view(r@) == spec_relating_lines(app@, stage),
{
    proof {
        use_type_invariant(app);
    }
    let ghost v = app@;
    let mut lines: Vec<Vec<Segment>> = Vec::new();
    let result = match app.current_result() {
        Some(result) => result,
        None => {
            assert(lines_view(lines@) =~= spec_relating_lines(v, stage));
            return lines;
        },
    };
    if stage < 3 {
        lines.push(single(String::from_str("变化层尚未展开。"), Tone::Dim, false));
        assert(lines_view(lines@) =~= spec_relating_lines(v, stage));
        return lines;
    }
    match result.relating {
        Some(relating) => {
            let mut name = String::from_str("之卦  ");
            name.append(relating.name);
            lines.push(single(name, Tone::Warm, true));
            let mut index = String::from_str("#");
            push_pad2(&mut index, relating.index as u64);
            lines.push(single(index, Tone::Dim, false));
        },
        None => {
            lines.push(single(String::from_str("之卦  无"), Tone::Warm, true));
        },
    }
    lines.push(blank());
    let ghost labels = changing_labels(v.line_sums);
    let n = result.changing_lines.len();
    let changing = if n == 0 {
        String::from_str("变爻  无")
    } else {
        let mut joined = String::new();
        let mut k: usize = 0;
        while k < n
            invariant
                n == result.changing_lines@.len(),
                n == labels.len(),
                result.is_analysis_of(v.line_sums),
                labels == changing_labels(v.line_sums),
                k <= n,
                joined@ == join_with(labels.take(k as int), " · "@),
            decreases n - k,
        {
            if k > 0 {
                joined.append(" · ");
            }
            joined.append(result.changing_lines[k].as_str());
            proof {
                let t = labels.take(k + 1);
                assert(t.drop_last() =~= labels.take(k as int));
                assert(result.changing_lines@[k as int]@ == labels[k as int]);
                if k == 0 {
                    assert(joined@ =~= t[0]);
                }
            }
            k += 1;
        }
        assert(labels.take(n as int) =~= labels);
        String::from_str("变爻  ").concat(joined.as_str())
    };
    lines.push(single(changing, Tone::Text, false));
    if stage >= 4 {
        lines.push(blank());
        lines.push(single(String::from_str("变后六爻"), Tone::Warm, false));
        let base = lines.len();
        let ghost before = lines@;
        let mut d: usize = 0;
        while d < 6
            invariant
                result.is_analysis_of(v.line_sums),
                v.line_sums.len() == 6,
                d <= 6,
                lines@.len() == base + d,
                forall|j: int|
                    0 <= j < d ==> #[trigger] line_view(lines@[base + j]) == seq![
                        (spec_line_slot(5 - j) + " "@, Tone::Dim, false),
                        (spec_wide_glyph(spec_transformed_lines(v.line_sums)[5 - j]), Tone::Text, false),
                    ],
                before.len() == base,
                forall|j: int| 0 <= j < base ==> #[trigger] lines@[j] == before[j],
            decreases 6 - d,
        {
            let idx = 5 - d;
            lines.push(transformed_row(idx, result.transformed_lines[idx]));
            d += 1;
        }
        let ghost t = spec_transformed_lines(v.line_sums);
        let ghost tail = Seq::new(
            6,
            |d: int|
                seq![
                    (spec_line_slot(5 - d) + " "@, Tone::Dim, false),
                    (spec_wide_glyph(t[5 - d]), Tone::Text, false),
                ],
        );
        assert forall|k: int| base <= k < lines@.len() implies #[trigger] line_view(lines@[k])
            == tail[k - base] by {
            let j = k - base;
            assert(line_view(lines@[base + j]) == tail[j]);
        }
        assert(lines_view(lines@) =~= lines_view(before) + tail);
    }
    assert(lines_view(lines@) =~= spec_relating_lines(v, stage));
    lines
}

/// The reading once it is revealed: a blank line, then for each entry its label
/// (warm, bold), its classic text and its gloss (dim), one line each. Empty
/// before the reading is revealed.
pub open spec fn spec_reading_lines(v: AppView) -> Seq<Seq<(Seq<char>, Tone, bool)>> {
    if !v.interpretation_revealed || v.line_sums.len() != 6 {
        seq![]
    } else {
        let entries = spec_reading(v.line_sums);
        seq![blank_line()] + Seq::new(
            3 * entries.len(),
            |i: int|
                {
                    let e = entries[i / 3];
                    if i % 3 == 0 {
                        seq![(e.0, Tone::Warm, true)]
                    } else if i % 3 == 1 {
                        seq![(e.1, Tone::Text, false)]
                    } else {
                        seq![(e.2, Tone::Dim, false)]
                    }
                },
        )
    }
}

pub fn reading_lines(app: &App) -> (r: Vec<Vec<Segment>>)
    ensures
        lines_view(r@) == spec_reading_lines(app@),
{
    proof {
        use_type_invariant(app);
    }
    let ghost v = app@;
    let mut lines: Vec<Vec<Segment>> = Vec::new();
    if !app.interpretation_revealed() {
        assert(lines_view(lines@) =~= spec_reading_lines(v));
        return lines;
    }
    let result = match app.current_result() {
        Some(result) => result,
        None => {
            assert(lines_view(lines@) =~= spec_reading_lines(v));
            return lines;
        },
    };
    proof {
        law_analysis_is_readable(result, v.line_sums);
        law_reading_of_analysis(result, v.line_sums);
    }
    let entries = interpretation(&result);
    let ghost spec_entries = spec_reading(v.line_sums);
    lines.push(blank());
    let n = entries.len();
    let mut k: usize = 0;
    while k < n
        invariant
            n == entries@.len(),
            n == spec_entries.len(),
            forall|j: int| 0 <= j < n ==> #[trigger] entries@[j]@ == spec_entries[j],
            k <= n,
            lines@.len() == 1 + 3 * k,
            line_view(lines@[0]) == blank_line(),
            forall|i: int|
                0 <= i < 3 * k ==> #[trigger] line_view(lines@[1 + i]) == (if i % 3 == 0 {
                    seq![(spec_entries[i / 3].0, Tone::Warm, true)]
                } else if i % 3 == 1 {
                    seq![(spec_entries[i / 3].1, Tone::Text, false)]
                } else {
                    seq![(spec_entries[i / 3].2, Tone::Dim, false)]
                }),
        decreases n - k,
    {
        let entry = &entries[k];
        assert(entry@ == spec_entries[k as int]);
        lines.push(single(entry.label.clone(), Tone::Warm, true));
        lines.push(single(entry.classic.clone(), Tone::Text, false));
        lines.push(single(entry.gloss.clone(), Tone::Dim, false));
        proof {
            assert forall|i: int| 0 <= i < 3 * (k + 1) implies #[trigger] line_view(lines@[1 + i]) == (
            if i % 3 == 0 {
                seq![(spec_entries[i / 3].0, Tone::Warm, true)]
            } else if i % 3 == 1 {
                seq![(spec_entries[i / 3].1, Tone::Text, false)]
            } else {
                seq![(spec_entries[i / 3].2, Tone::Dim, false)]
            }) by {
                if i >= 3 * k {
                    assert(i / 3 == k);
                }
            }
        }
        k += 1;
    }
    let ghost target = spec_reading_lines(v);
    assert forall|i: int| 0 <= i < lines@.len() implies #[trigger] line_view(lines@[i]) == target[i] by {
        if i > 0 {
            let j = i - 1;
            assert(line_view(lines@[1 + j]) == target[1 + j]);
        }
    }
    assert(lines_view(lines@) =~= target);
    lines
}

// ── Laws ──────────────────────────────────────────────────────────────────

/// The formed lines are listed from the top line down, while casting as once
/// all six stand: with `n` lines formed, row `k` names line `n - 1 - k` and
/// shows that line's picture.
pub proof fn law_formation_lists_top_line_first(v: AppView, flash: bool)
    requires
        v.is_valid(),
        v.phase == AppPhase::Casting || v.phase == AppPhase::Assembling || v.phase
            == AppPhase::ReverseConfirm,
    ensures
        spec_formation(v, flash).len() >= v.line_sums.len(),
        forall|k: int|
            0 <= k < v.line_sums.len() ==> {
                let row = #[trigger] spec_formation(v, flash)[k];
                &&& row[0].0 == pad_right4(spec_line_slot(v.line_sums.len() - 1 - k)) + "  "@
                &&& row[1].0 == spec_wide_glyph(v.line_sums[v.line_sums.len() - 1 - k])
            },
{
}

/// While casting, the tempo panel names the same line as the caption under the
/// instruction: the line in progress, one more than the lines formed.
pub proof fn law_tempo_names_the_caption_line(v: AppView)
    requires
        v.is_valid(),
        v.phase == AppPhase::Casting,
    ensures
        spec_tempo(v)[1] == seq![(spec_focus_caption(v), Tone::Dim, false)],
        spec_focus_caption(v) == "第 "@ + spec_decimal(v.line_sums.len() + 1) + " 爻"@,
{
}

/// Under "变后六爻" the six lines are drawn top first as they stand after the
/// change: each line flips polarity exactly when it is a changing line (old yin
/// 6 is drawn solid, old yang 9 broken), so the picture is that of the relating
/// hexagram.
pub proof fn law_lines_after_change_are_flipped(v: AppView, stage: u8)
    requires
        v.line_sums.len() == 6,
        stage >= 4,
    ensures
        spec_relating_lines(v, stage).len() >= 7,
        spec_relating_lines(v, stage)[spec_relating_lines(v, stage).len() - 7] == seq![
            ("变后六爻"@, Tone::Warm, false),
        ],
        forall|d: int|
            0 <= d < 6 ==> {
                let x = v.line_sums[5 - d];
                let row = #[trigger] spec_relating_lines(v, stage)[spec_relating_lines(v, stage).len()
                    - 6 + d];
                &&& row[0].0 == spec_line_slot(5 - d) + " "@
                &&& row[1].0 == (if spec_is_yang(x) != spec_is_changing(x) {
                    "━━━━━━━━━━━"@
                } else {
                    "━━━━   ━━━━"@
                })
            },
{
}

} // verus!
