//! Casting arithmetic of the Zhouyi: line values, the hexagram that six lines
//! form, the changing lines, the relating hexagram, and the reading taken
//! from the classic text.
//!
//! A line value is the sum of three yarrow digits, each 2 or 3:
//! 6 old yin (changing), 7 young yang, 8 young yin, 9 old yang (changing).

use vstd::prelude::*;
use vstd::string::*;
use crate::texts::{
    table_entry, table_field, HEXAGRAM_NAMES, JUDGMENT_CLASSICS, JUDGMENT_GLOSSES, LINE_CLASSICS,
    LINE_GLOSSES,
};

verus! {

/// The six line positions, bottom to top.
pub const LINE_POSITIONS: [&'static str; 6] = ["初爻", "二爻", "三爻", "四爻", "五爻", "上爻"];

// ── Specification ─────────────────────────────────────────────────────────

/// A line value that can come out of a cast.
pub open spec fn is_line_value(value: u8) -> bool {
    6 <= value <= 9
}

pub open spec fn spec_is_yang(value: u8) -> bool {
    value == 7 || value == 9
}

pub open spec fn spec_is_changing(value: u8) -> bool {
    value == 6 || value == 9
}

/// Old lines turn into their opposite young line; other values stay.
pub open spec fn spec_transformed(value: u8) -> u8 {
    if value == 6 {
        7
    } else if value == 9 {
        8
    } else {
        value
    }
}

pub open spec fn yang_bit(value: u8) -> nat {
    if spec_is_yang(value) {
        1
    } else {
        0
    }
}

/// The trigram number of three lines, bottom line in bit 0.
pub open spec fn spec_trigram(a: u8, b: u8, c: u8) -> nat {
    yang_bit(a) + 2 * yang_bit(b) + 4 * yang_bit(c)
}

/// The hexagram index of six lines: upper trigram times eight plus lower trigram.
pub open spec fn spec_hexagram_index(lines: Seq<u8>) -> nat {
    8 * spec_trigram(lines[3], lines[4], lines[5]) + spec_trigram(lines[0], lines[1], lines[2])
}

/// The name of the hexagram with the given index.
pub open spec fn spec_hexagram_name(index: nat) -> Seq<char> {
    table_entry(HEXAGRAM_NAMES@, index as int)
}

/// The name of the hexagram of six lines.
pub open spec fn spec_name_of(lines: Seq<u8>) -> Seq<char> {
    spec_hexagram_name(spec_hexagram_index(lines))
}

/// Each line replaced by its transformed value.
pub open spec fn spec_transformed_lines(lines: Seq<u8>) -> Seq<u8> {
    Seq::new(lines.len(), |i: int| spec_transformed(lines[i]))
}

/// Positions (0-based) of the changing lines among the first `k` lines, in order.
pub open spec fn changing_prefix(lines: Seq<u8>, k: nat) -> Seq<usize>
    decreases k,
{
    if k == 0 {
        seq![]
    } else {
        let before = changing_prefix(lines, (k - 1) as nat);
        if spec_is_changing(lines[k - 1]) {
            before.push((k - 1) as usize)
        } else {
            before
        }
    }
}

/// Positions (0-based) of the changing lines of a hexagram, bottom to top.
pub open spec fn spec_changing_indices(lines: Seq<u8>) -> Seq<usize> {
    changing_prefix(lines, 6)
}

/// "九" for old yang, "六" otherwise.
pub open spec fn spec_polarity(value: u8) -> Seq<char> {
    if value == 9 {
        "九"@
    } else {
        "六"@
    }
}

/// Traditional name of a changing line at 1-based `position`.
pub open spec fn spec_changing_label(position: nat, value: u8) -> Seq<char> {
    let p = spec_polarity(value);
    if position == 1 {
        "初"@ + p
    } else if position == 2 {
        p + "二"@
    } else if position == 3 {
        p + "三"@
    } else if position == 4 {
        p + "四"@
    } else if position == 5 {
        p + "五"@
    } else if position == 6 {
        "上"@ + p
    } else {
        "未知变爻"@
    }
}

pub open spec fn spec_line_symbol(value: u8) -> Seq<char> {
    if value == 6 {
        "--x--"@
    } else if value == 7 {
        "-----"@
    } else if value == 8 {
        "-- --"@
    } else if value == 9 {
        "--o--"@
    } else {
        "?????"@
    }
}

pub open spec fn spec_line_label(value: u8) -> Seq<char> {
    if value == 6 {
        "老阴 / 变爻"@
    } else if value == 7 {
        "少阳 / 静爻"@
    } else if value == 8 {
        "少阴 / 静爻"@
    } else if value == 9 {
        "老阳 / 变爻"@
    } else {
        "未知"@
    }
}

// ── Types ─────────────────────────────────────────────────────────────────

/// A hexagram: its index (0..64) and its name.
#[derive(Clone, Copy, Debug, Eq, PartialEq)]
pub struct HexagramIdentity {
    pub index: usize,
    pub name: &'static str,
}

impl HexagramIdentity {
    /// `self` is the hexagram that six lines form.
    pub open spec fn is_hexagram_of(self, lines: Seq<u8>) -> bool {
        &&& self.index == spec_hexagram_index(lines)
        &&& self.name@ == spec_name_of(lines)
    }
}

/// Everything one complete cast determines.
#[derive(Clone, Debug, Eq, PartialEq)]
pub struct HexagramResult {
    pub primary: HexagramIdentity,
    pub relating: Option<HexagramIdentity>,
    pub changing_lines: Vec<String>,
    pub changing_indices: Vec<usize>,
    pub transformed_lines: [u8; 6],
}

impl HexagramResult {
    /// `self` is what `analyze_hexagram` gives for `lines`.
    pub open spec fn is_analysis_of(self, lines: Seq<u8>) -> bool {
        let idx = spec_changing_indices(lines);
        &&& self.primary.is_hexagram_of(lines)
        &&& self.changing_indices@ == idx
        &&& self.changing_lines@.len() == idx.len()
        &&& forall|k: int|
            0 <= k < idx.len() ==> #[trigger] self.changing_lines@[k]@ == spec_changing_label(
                (idx[k] + 1) as nat,
                lines[idx[k] as int],
            )
        &&& self.transformed_lines@ == spec_transformed_lines(lines)
        &&& if idx.len() == 0 {
            self.relating is None
        } else {
            self.relating matches Some(r) && r.is_hexagram_of(spec_transformed_lines(lines))
        }
    }

    /// The fields that `interpretation` reads are within the text tables: the
    /// primary index always; with all six lines changing, the relating index;
    /// otherwise each changing position that is paired with a line name.
    pub open spec fn is_readable(self) -> bool {
        let idx = self.changing_indices@;
        let paired = if idx.len() <= self.changing_lines@.len() {
            idx.len()
        } else {
            self.changing_lines@.len()
        };
        &&& self.primary.index < 64
        &&& idx.len() == 6 ==> (self.relating is Some && self.relating.unwrap().index < 64)
        &&& idx.len() != 6 ==> forall|k: int| 0 <= k < paired ==> #[trigger] idx[k] < 6
    }
}

// ── Lines ─────────────────────────────────────────────────────────────────

/// A yang line counts as 1, a yin line as 0.
pub fn is_yang(value: u8) -> (r: bool)
    ensures
        r == spec_is_yang(value),
{
    value == 7 || value == 9
}

/// Short line picture for the terminal.
pub fn line_symbol(value: u8) -> (r: &'static str)
    ensures
        r@ == spec_line_symbol(value),
{
    match value {
        6 => "--x--",
        7 => "-----",
        8 => "-- --",
        9 => "--o--",
        _ => "?????",
    }
}

/// Readable description of 6, 7, 8 and 9.
pub fn line_label(value: u8) -> (r: &'static str)
    ensures
        r@ == spec_line_label(value),
{
    match value {
        6 => "老阴 / 变爻",
        7 => "少阳 / 静爻",
        8 => "少阴 / 静爻",
        9 => "老阳 / 变爻",
        _ => "未知",
    }
}

/// The static line that a line of the primary hexagram becomes in the relating one.
pub fn transformed_line_value(value: u8) -> (r: u8)
    ensures
        r == spec_transformed(value),
{
    match value {
        6 => 7,
        7 => 7,
        8 => 8,
        9 => 8,
        _ => value,
    }
}

fn yang_weight(value: u8, weight: usize) -> (r: usize)
    requires
        weight <= 4,
    ensures
        r == weight * yang_bit(value),
{
    if is_yang(value) {
        weight
    } else {
        0
    }
}

fn hexagram_identity(line_sums: &[u8]) -> (r: HexagramIdentity)
    requires
        line_sums@.len() == 6,
    ensures
        r.is_hexagram_of(line_sums@),
        r.index < 64,
{
    let lower = yang_weight(line_sums[0], 1) + yang_weight(line_sums[1], 2) + yang_weight(
        line_sums[2],
        4,
    );
    let upper = yang_weight(line_sums[3], 1) + yang_weight(line_sums[4], 2) + yang_weight(
        line_sums[5],
        4,
    );
    let index = upper * 8 + lower;
    HexagramIdentity { index, name: table_field(HEXAGRAM_NAMES, index) }
}

/// Traditional name of a changing line: position 1..6 and value 9 (九) or else 六.
pub fn format_changing_line(position: usize, value: u8) -> (r: String)
    ensures
        r@ == spec_changing_label(position as nat, value),
{
    let yin_or_yang = if value == 9 {
        "九"
    } else {
        "六"
    };
    match position {
        1 => String::from_str("初").concat(yin_or_yang),
        2 => String::from_str(yin_or_yang).concat("二"),
        3 => String::from_str(yin_or_yang).concat("三"),
        4 => String::from_str(yin_or_yang).concat("四"),
        5 => String::from_str(yin_or_yang).concat("五"),
        6 => String::from_str("上").concat(yin_or_yang),
        _ => String::from_str("未知变爻"),
    }
}

/// The primary hexagram of six lines, its changing lines and the relating hexagram.
pub fn analyze_hexagram(line_sums: &[u8]) -> (r: HexagramResult)
    requires
        line_sums@.len() == 6,
    ensures
        r.is_analysis_of(line_sums@),
{
    let primary = hexagram_identity(line_sums);
    let mut changing_lines: Vec<String> = Vec::new();
    let mut changing_indices: Vec<usize> = Vec::new();
    let mut idx: usize = 0;
    while idx < 6
        invariant
            line_sums@.len() == 6,
            idx <= 6,
            changing_indices@ == changing_prefix(line_sums@, idx as nat),
            changing_lines@.len() == changing_indices@.len(),
            forall|k: int|
                0 <= k < changing_indices@.len() ==> #[trigger] changing_lines@[k]@
                    == spec_changing_label(
                    (changing_indices@[k] + 1) as nat,
                    line_sums@[changing_indices@[k] as int],
                ),
        decreases 6 - idx,
    {
        let value = line_sums[idx];
        if value == 6 || value == 9 {
            changing_lines.push(format_changing_line(idx + 1, value));
            changing_indices.push(idx);
        }
        idx += 1;
    }
    let transformed_lines = [
        transformed_line_value(line_sums[0]),
        transformed_line_value(line_sums[1]),
        transformed_line_value(line_sums[2]),
        transformed_line_value(line_sums[3]),
        transformed_line_value(line_sums[4]),
        transformed_line_value(line_sums[5]),
    ];
    assert(transformed_lines@ =~= spec_transformed_lines(line_sums@));
    let relating = if changing_lines.len() > 0 {
        Some(hexagram_identity(transformed_lines.as_slice()))
    } else {
        None
    };
    HexagramResult { primary, relating, changing_lines, changing_indices, transformed_lines }
}

// ── Classic text and reading ──────────────────────────────────────────────

/// One judgment or line statement: the classic text and a plain gloss.
pub struct LineText {
    pub classic: &'static str,
    pub gloss: &'static str,
}

/// The text of one hexagram: its judgment and its six line statements, bottom first.
pub struct HexagramText {
    pub judgment: LineText,
    pub lines: [LineText; 6],
}

fn line_text(index: usize, line: usize) -> (r: LineText)
    requires
        index < 64,
        line < 6,
    ensures
        r.classic@ == table_entry(LINE_CLASSICS@, 6 * index + line),
        r.gloss@ == table_entry(LINE_GLOSSES@, 6 * index + line),
{
    LineText {
        classic: table_field(LINE_CLASSICS, 6 * index + line),
        gloss: table_field(LINE_GLOSSES, 6 * index + line),
    }
}

/// The text of the hexagram with the given index.
pub fn hexagram_text(index: usize) -> (r: HexagramText)
    requires
        index < 64,
    ensures
        r.judgment.classic@ == table_entry(JUDGMENT_CLASSICS@, index as int),
        r.judgment.gloss@ == table_entry(JUDGMENT_GLOSSES@, index as int),
        forall|line: int|
            0 <= line < 6 ==> (#[trigger] r.lines@[line]).classic@ == table_entry(
                LINE_CLASSICS@,
                6 * index + line,
            ) && r.lines@[line].gloss@ == table_entry(LINE_GLOSSES@, 6 * index + line),
{
    HexagramText {
        judgment: LineText {
            classic: table_field(JUDGMENT_CLASSICS, index),
            gloss: table_field(JUDGMENT_GLOSSES, index),
        },
        lines: [
            line_text(index, 0),
            line_text(index, 1),
            line_text(index, 2),
            line_text(index, 3),
            line_text(index, 4),
            line_text(index, 5),
        ],
    }
}

/// One entry of a reading: a label ("卦辞" or a changing line's name), the classic text, a gloss.
pub struct InterpretationEntry {
    pub label: String,
    pub classic: String,
    pub gloss: String,
}

impl View for InterpretationEntry {
    type V = (Seq<char>, Seq<char>, Seq<char>);

    open spec fn view(&self) -> (Seq<char>, Seq<char>, Seq<char>) {
        (self.label@, self.classic@, self.gloss@)
    }
}

/// The judgment of hexagram `index`, labelled "卦辞".
pub open spec fn judgment_entry(index: int) -> (Seq<char>, Seq<char>, Seq<char>) {
    ("卦辞"@, table_entry(JUDGMENT_CLASSICS@, index), table_entry(JUDGMENT_GLOSSES@, index))
}

/// The reading of a cast by the traditional rule: no changing line, the judgment
/// of the primary hexagram; all six changing, the judgment of the relating
/// hexagram; otherwise the statement of each changing line of the primary
/// hexagram, labelled with that line's name (pairing positions with names in order).
pub open spec fn spec_interpretation(r: HexagramResult) -> Seq<(Seq<char>, Seq<char>, Seq<char>)> {
    let idx = r.changing_indices@;
    let primary = r.primary.index as int;
    if idx.len() == 6 {
        seq![judgment_entry(r.relating.unwrap().index as int)]
    } else if idx.len() == 0 {
        seq![judgment_entry(primary)]
    } else {
        let n = if idx.len() <= r.changing_lines@.len() {
            idx.len()
        } else {
            r.changing_lines@.len()
        };
        Seq::new(
            n,
            |k: int|
                (
                    r.changing_lines@[k]@,
                    table_entry(LINE_CLASSICS@, 6 * primary + idx[k]),
                    table_entry(LINE_GLOSSES@, 6 * primary + idx[k]),
                ),
        )
    }
}

/// The reading of six lines by the traditional rule: no changing line, the
/// judgment of the primary hexagram; all six changing, the judgment of the
/// relating hexagram; otherwise each changing line's statement in the primary
/// hexagram, labelled with the line's name, bottom first.
pub open spec fn spec_reading(lines: Seq<u8>) -> Seq<(Seq<char>, Seq<char>, Seq<char>)> {
    let idx = spec_changing_indices(lines);
    let primary = spec_hexagram_index(lines) as int;
    if idx.len() == 6 {
        seq![judgment_entry(spec_hexagram_index(spec_transformed_lines(lines)) as int)]
    } else if idx.len() == 0 {
        seq![judgment_entry(primary)]
    } else {
        Seq::new(
            idx.len(),
            |k: int|
                (
                    spec_changing_label((idx[k] + 1) as nat, lines[idx[k] as int]),
                    table_entry(LINE_CLASSICS@, 6 * primary + idx[k]),
                    table_entry(LINE_GLOSSES@, 6 * primary + idx[k]),
                ),
        )
    }
}

/// The reading of an analysis depends on its lines alone.
pub proof fn law_reading_of_analysis(r: HexagramResult, lines: Seq<u8>)
    requires
        lines.len() == 6,
        r.is_analysis_of(lines),
    ensures
        spec_interpretation(r) == spec_reading(lines),
{
    let idx = spec_changing_indices(lines);
    if idx.len() != 6 && idx.len() != 0 {
        assert(spec_interpretation(r) =~= spec_reading(lines));
    }
}

fn judgment_of(index: usize) -> (r: InterpretationEntry)
    requires
        index < 64,
    ensures
        r@ == judgment_entry(index as int),
{
    let text = hexagram_text(index);
    InterpretationEntry {
        label: String::from_str("卦辞"),
        classic: String::from_str(text.judgment.classic),
        gloss: String::from_str(text.judgment.gloss),
    }
}

/// The reading of a cast, by the traditional rule (see `spec_interpretation`).
pub fn interpretation(result: &HexagramResult) -> (r: Vec<InterpretationEntry>)
    requires
        result.is_readable(),
    ensures
        r@.len() == spec_interpretation(*result).len(),
        forall|k: int| 0 <= k < r@.len() ==> #[trigger] r@[k]@ == spec_interpretation(*result)[k],
{
    let text = hexagram_text(result.primary.index);
    if result.changing_indices.len() == 6 {
        let relating = match result.relating {
            Some(relating) => relating,
            None => {
                assert(false);
                result.primary
            },
        };
        let mut entries = Vec::new();
        entries.push(judgment_of(relating.index));
        return entries;
    }
    if result.changing_indices.len() == 0 {
        let mut entries = Vec::new();
        entries.push(judgment_of(result.primary.index));
        return entries;
    }
    let n = if result.changing_indices.len() <= result.changing_lines.len() {
        result.changing_indices.len()
    } else {
        result.changing_lines.len()
    };
    assert(result.changing_indices@.len() != 6 && result.changing_indices@.len() != 0);
    let ghost spec_entries = spec_interpretation(*result);
    let mut entries: Vec<InterpretationEntry> = Vec::new();
    let mut k: usize = 0;
    while k < n
        invariant
            result.is_readable(),
            result.changing_indices@.len() != 6 && result.changing_indices@.len() != 0,
            n == spec_entries.len(),
            spec_entries == spec_interpretation(*result),
            k <= n,
            entries@.len() == k,
            forall|j: int| 0 <= j < k ==> #[trigger] entries@[j]@ == spec_entries[j],
            forall|line: int|
                0 <= line < 6 ==> (#[trigger] text.lines@[line]).classic@ == table_entry(
                    LINE_CLASSICS@,
                    6 * result.primary.index + line,
                ) && text.lines@[line].gloss@ == table_entry(
                    LINE_GLOSSES@,
                    6 * result.primary.index + line,
                ),
        decreases n - k,
    {
        let idx = result.changing_indices[k];
        assert(idx < 6);
        let line = &text.lines[idx];
        entries.push(
            InterpretationEntry {
                label: result.changing_lines[k].clone(),
                classic: String::from_str(line.classic),
                gloss: String::from_str(line.gloss),
            },
        );
        k += 1;
    }
    entries
}

// ── Laws ──────────────────────────────────────────────────────────────────

/// Transforming a line twice is the same as transforming it once.
pub proof fn law_transform_idempotent(value: u8)
    ensures
        spec_transformed(spec_transformed(value)) == spec_transformed(value),
{
}

/// A transformed line value is always a young (static) line, 7 or 8.
pub proof fn law_transformed_is_static(value: u8)
    requires
        is_line_value(value),
    ensures
        spec_transformed(value) == 7 || spec_transformed(value) == 8,
        !spec_is_changing(spec_transformed(value)),
{
}

/// A line changes polarity in the relating hexagram exactly when it is a changing line.
pub proof fn law_transform_flips_exactly_changing_lines(value: u8)
    requires
        is_line_value(value),
    ensures
        spec_is_yang(spec_transformed(value)) == (spec_is_yang(value) != spec_is_changing(value)),
{
}

/// Every six-line cast names one of the sixty-four hexagrams.
pub proof fn law_index_in_range(lines: Seq<u8>)
    requires
        lines.len() == 6,
    ensures
        spec_hexagram_index(lines) < 64,
{
}

/// Two casts give the same hexagram exactly when their lines agree in polarity.
pub proof fn law_index_determined_by_polarity(a: Seq<u8>, b: Seq<u8>)
    requires
        a.len() == 6,
        b.len() == 6,
    ensures
        (spec_hexagram_index(a) == spec_hexagram_index(b)) <==> (forall|i: int|
            0 <= i < 6 ==> spec_is_yang(#[trigger] a[i]) == spec_is_yang(b[i])),
{
    if spec_hexagram_index(a) == spec_hexagram_index(b) {
        assert(yang_bit(a[0]) == yang_bit(b[0]));
        assert(yang_bit(a[1]) == yang_bit(b[1]));
        assert(yang_bit(a[2]) == yang_bit(b[2]));
        assert(yang_bit(a[3]) == yang_bit(b[3]));
        assert(yang_bit(a[4]) == yang_bit(b[4]));
        assert(yang_bit(a[5]) == yang_bit(b[5]));
        assert forall|i: int| 0 <= i < 6 implies spec_is_yang(#[trigger] a[i]) == spec_is_yang(b[i]) by {
            assert(i == 0 || i == 1 || i == 2 || i == 3 || i == 4 || i == 5);
        }
    } else {
        if forall|i: int| 0 <= i < 6 ==> spec_is_yang(#[trigger] a[i]) == spec_is_yang(b[i]) {
            assert(spec_is_yang(a[0]) == spec_is_yang(b[0]));
            assert(spec_is_yang(a[1]) == spec_is_yang(b[1]));
            assert(spec_is_yang(a[2]) == spec_is_yang(b[2]));
            assert(spec_is_yang(a[3]) == spec_is_yang(b[3]));
            assert(spec_is_yang(a[4]) == spec_is_yang(b[4]));
            assert(spec_is_yang(a[5]) == spec_is_yang(b[5]));
        }
    }
}

proof fn lemma_changing_prefix_bounded(lines: Seq<u8>, k: nat)
    ensures
        changing_prefix(lines, k).len() <= k,
        forall|j: int|
            0 <= j < changing_prefix(lines, k).len() ==> #[trigger] changing_prefix(lines, k)[j] < k,
    decreases k,
{
    if k > 0 {
        lemma_changing_prefix_bounded(lines, (k - 1) as nat);
    }
}

/// Every analysis can be read: its indices lie within the text tables, and
/// when all six lines change there is a relating hexagram.
pub proof fn law_analysis_is_readable(r: HexagramResult, lines: Seq<u8>)
    requires
        lines.len() == 6,
        r.is_analysis_of(lines),
    ensures
        r.is_readable(),
{
    lemma_changing_prefix_bounded(lines, 6);
    law_index_in_range(lines);
    law_index_in_range(spec_transformed_lines(lines));
}

/// When all six lines change, the relating hexagram is the complement of the
/// primary one (every line flips): its index is 63 minus the primary index.
pub proof fn law_all_changing_gives_complement(lines: Seq<u8>)
    requires
        lines.len() == 6,
        forall|i: int| 0 <= i < 6 ==> spec_is_changing(#[trigger] lines[i]),
    ensures
        spec_changing_indices(lines).len() == 6,
        spec_hexagram_index(spec_transformed_lines(lines)) + spec_hexagram_index(lines) == 63,
{
    reveal_with_fuel(changing_prefix, 7);
    let t = spec_transformed_lines(lines);
    assert(spec_is_changing(lines[0]) && spec_is_changing(lines[1]) && spec_is_changing(lines[2]));
    assert(spec_is_changing(lines[3]) && spec_is_changing(lines[4]) && spec_is_changing(lines[5]));
    assert(t[0] == spec_transformed(lines[0]) && t[1] == spec_transformed(lines[1]) && t[2]
        == spec_transformed(lines[2]));
    assert(t[3] == spec_transformed(lines[3]) && t[4] == spec_transformed(lines[4]) && t[5]
        == spec_transformed(lines[5]));
}

/// With no changing line there is no relating hexagram, and the transformed
/// lines are the lines themselves.
pub proof fn law_no_changing_keeps_lines(lines: Seq<u8>)
    requires
        lines.len() == 6,
        forall|i: int| 0 <= i < 6 ==> !spec_is_changing(#[trigger] lines[i]),
    ensures
        spec_changing_indices(lines).len() == 0,
        spec_transformed_lines(lines) == lines,
{
    reveal_with_fuel(changing_prefix, 7);
    assert(!spec_is_changing(lines[0]) && !spec_is_changing(lines[1]) && !spec_is_changing(lines[2]));
    assert(!spec_is_changing(lines[3]) && !spec_is_changing(lines[4]) && !spec_is_changing(lines[5]));
    assert(spec_transformed_lines(lines) =~= lines);
}

/// The changing positions among the first `k` lines are listed once each, in
/// increasing order, and nothing else is listed.
proof fn lemma_changing_prefix_exact(lines: Seq<u8>, k: nat)
    requires
        k <= 6,
    ensures
        forall|j: int|
            0 <= j < changing_prefix(lines, k).len() ==> #[trigger] changing_prefix(lines, k)[j] < k
                && spec_is_changing(lines[changing_prefix(lines, k)[j] as int]),
        forall|i: int, j: int|
            0 <= i < j < changing_prefix(lines, k).len() ==> #[trigger] changing_prefix(lines, k)[i]
                < #[trigger] changing_prefix(lines, k)[j],
        forall|p: int|
            0 <= p < k && spec_is_changing(#[trigger] lines[p]) ==> exists|j: int|
                0 <= j < changing_prefix(lines, k).len() && changing_prefix(lines, k)[j] == p,
    decreases k,
{
    if k > 0 {
        lemma_changing_prefix_exact(lines, (k - 1) as nat);
        let before = changing_prefix(lines, (k - 1) as nat);
        let now = changing_prefix(lines, k);
        assert forall|p: int| 0 <= p < k && spec_is_changing(#[trigger] lines[p]) implies exists|j: int|
            0 <= j < now.len() && now[j] == p by {
            if p == k - 1 {
                assert(now[before.len() as int] == p);
            } else {
                let j = choose|j: int| 0 <= j < before.len() && before[j] == p;
                assert(now[j] == p);
            }
        }
    }
}

/// The changing positions of six lines: exactly the lines that are 6 or 9,
/// each once, bottom to top.
pub proof fn law_changing_indices_are_the_changing_lines(lines: Seq<u8>)
    requires
        lines.len() == 6,
    ensures
        forall|j: int|
            0 <= j < spec_changing_indices(lines).len() ==> #[trigger] spec_changing_indices(lines)[j]
                < 6 && spec_is_changing(lines[spec_changing_indices(lines)[j] as int]),
        forall|i: int, j: int|
            0 <= i < j < spec_changing_indices(lines).len() ==> #[trigger] spec_changing_indices(
                lines,
            )[i] < #[trigger] spec_changing_indices(lines)[j],
        forall|p: int|
            0 <= p < 6 && spec_is_changing(#[trigger] lines[p]) ==> exists|j: int|
                0 <= j < spec_changing_indices(lines).len() && spec_changing_indices(lines)[j] == p,
        spec_changing_indices(lines).len() <= 6,
{
    let idx = spec_changing_indices(lines);
    lemma_changing_prefix_exact(lines, 6);
    lemma_changing_prefix_bounded(lines, 6);
    assert forall|p: int| 0 <= p < 6 && spec_is_changing(#[trigger] lines[p]) implies exists|j: int|
        0 <= j < idx.len() && idx[j] == p by {
        let j = choose|j: int|
            0 <= j < changing_prefix(lines, 6).len() && changing_prefix(lines, 6)[j] == p;
        assert(idx[j] == p);
    }
}

/// The entry that reads line `p` (0-based) of the hexagram with index
/// `primary`: the line's traditional name, then its statement and gloss.
pub open spec fn line_statement_entry(primary: int, p: int, value: u8) -> (Seq<char>, Seq<char>, Seq<char>) {
    (
        spec_changing_label((p + 1) as nat, value),
        table_entry(LINE_CLASSICS@, 6 * primary + p),
        table_entry(LINE_GLOSSES@, 6 * primary + p),
    )
}

/// The traditional reading rule, stated on the lines themselves. With no
/// changing line the reading is the judgment (卦辞) of the primary hexagram;
/// with all six changing it is the judgment of the relating hexagram, the
/// complement of the primary one; otherwise (some lines change, some do not) it
/// has one entry per changing line, bottom to top (see
/// `law_changing_indices_are_the_changing_lines`), each the line's own
/// statement in the primary hexagram under the line's traditional name.
pub proof fn law_reading_follows_the_changing_lines(r: HexagramResult, lines: Seq<u8>)
    requires
        lines.len() == 6,
        r.is_analysis_of(lines),
    ensures
        (forall|p: int| 0 <= p < 6 ==> !spec_is_changing(#[trigger] lines[p])) ==> spec_interpretation(r)
            == seq![("卦辞"@, table_entry(JUDGMENT_CLASSICS@, spec_hexagram_index(lines) as int),
            table_entry(JUDGMENT_GLOSSES@, spec_hexagram_index(lines) as int))],
        (forall|p: int| 0 <= p < 6 ==> spec_is_changing(#[trigger] lines[p])) ==> spec_interpretation(r)
            == seq![("卦辞"@, table_entry(JUDGMENT_CLASSICS@, 63 - spec_hexagram_index(lines)),
            table_entry(JUDGMENT_GLOSSES@, 63 - spec_hexagram_index(lines)))],
        (exists|p: int| 0 <= p < 6 && spec_is_changing(#[trigger] lines[p])) && (exists|q: int|
            0 <= q < 6 && !spec_is_changing(#[trigger] lines[q])) ==> {
            &&& spec_interpretation(r).len() == spec_changing_indices(lines).len()
            &&& forall|k: int|
                0 <= k < spec_interpretation(r).len() ==> #[trigger] spec_interpretation(r)[k]
                    == line_statement_entry(
                    spec_hexagram_index(lines) as int,
                    spec_changing_indices(lines)[k] as int,
                    lines[spec_changing_indices(lines)[k] as int],
                )
        },
{
    if forall|p: int| 0 <= p < 6 ==> !spec_is_changing(#[trigger] lines[p]) {
        law_no_changing_keeps_lines(lines);
    }
    if forall|p: int| 0 <= p < 6 ==> spec_is_changing(#[trigger] lines[p]) {
        law_all_changing_gives_complement(lines);
    }
    if (exists|p: int| 0 <= p < 6 && spec_is_changing(#[trigger] lines[p])) && (exists|q: int|
        0 <= q < 6 && !spec_is_changing(#[trigger] lines[q])) {
        lemma_some_but_not_all_change(lines);
        law_reading_of_analysis(r, lines);
    }
}

/// When some lines change and some do not, between one and five positions are listed.
proof fn lemma_some_but_not_all_change(lines: Seq<u8>)
    requires
        lines.len() == 6,
        exists|p: int| 0 <= p < 6 && spec_is_changing(#[trigger] lines[p]),
        exists|q: int| 0 <= q < 6 && !spec_is_changing(#[trigger] lines[q]),
    ensures
        0 < spec_changing_indices(lines).len() < 6,
{
    let idx = spec_changing_indices(lines);
    law_changing_indices_are_the_changing_lines(lines);
    let p0 = choose|p: int| 0 <= p < 6 && spec_is_changing(#[trigger] lines[p]);
    let q0 = choose|q: int| 0 <= q < 6 && !spec_is_changing(#[trigger] lines[q]);
    assert(spec_is_changing(lines[p0]));
    if idx.len() == 6 {
        assert(idx[0] < idx[1] && idx[1] < idx[2] && idx[2] < idx[3] && idx[3] < idx[4] && idx[4]
            < idx[5]);
        assert(idx[5] < 6);
        assert(idx[q0] == q0);
        assert(spec_is_changing(lines[idx[q0] as int]));
    }
}

pub open spec fn changing_bit(value: u8) -> nat {
    if spec_is_changing(value) {
        1
    } else {
        0
    }
}

/// The changing lines as a bit mask: bit `i` is set when line `i` changes.
pub open spec fn spec_changing_mask(lines: Seq<u8>) -> nat {
    changing_bit(lines[0]) + 2 * changing_bit(lines[1]) + 4 * changing_bit(lines[2]) + 8
        * changing_bit(lines[3]) + 16 * changing_bit(lines[4]) + 32 * changing_bit(lines[5])
}

proof fn lemma_xor_of_bit_sums(
    a0: u8,
    a1: u8,
    a2: u8,
    a3: u8,
    a4: u8,
    a5: u8,
    c0: u8,
    c1: u8,
    c2: u8,
    c3: u8,
    c4: u8,
    c5: u8,
)
    by (bit_vector)
    requires
        a0 <= 1 && a1 <= 1 && a2 <= 1 && a3 <= 1 && a4 <= 1 && a5 <= 1,
        c0 <= 1 && c1 <= 1 && c2 <= 1 && c3 <= 1 && c4 <= 1 && c5 <= 1,
    ensures
        ((a0 + 2 * a1 + 4 * a2 + 8 * a3 + 16 * a4 + 32 * a5) as u8) ^ ((c0 + 2 * c1 + 4 * c2 + 8 * c3
            + 16 * c4 + 32 * c5) as u8) == (((a0 ^ c0) + 2 * (a1 ^ c1) + 4 * (a2 ^ c2) + 8 * (a3
            ^ c3) + 16 * (a4 ^ c4) + 32 * (a5 ^ c5)) as u8),
{
}

proof fn lemma_bit_xor(a: u8, c: u8)
    by (bit_vector)
    requires
        a <= 1,
        c <= 1,
    ensures
        a ^ c == if a == c {
            0u8
        } else {
            1u8
        },
{
}

proof fn lemma_transformed_bit(value: u8)
    ensures
        yang_bit(spec_transformed(value)) as u8 == (yang_bit(value) as u8) ^ (changing_bit(value) as u8),
        !spec_is_changing(spec_transformed(value)),
{
    lemma_bit_xor(yang_bit(value) as u8, changing_bit(value) as u8);
}

proof fn lemma_transformed_has_no_changing_line(lines: Seq<u8>)
    requires
        lines.len() == 6,
    ensures
        spec_changing_indices(spec_transformed_lines(lines)).len() == 0,
{
    let t = spec_transformed_lines(lines);
    lemma_transformed_bit(lines[0]);
    lemma_transformed_bit(lines[1]);
    lemma_transformed_bit(lines[2]);
    lemma_transformed_bit(lines[3]);
    lemma_transformed_bit(lines[4]);
    lemma_transformed_bit(lines[5]);
    reveal_with_fuel(changing_prefix, 7);
    assert(!spec_is_changing(t[0]) && !spec_is_changing(t[1]) && !spec_is_changing(t[2]));
    assert(!spec_is_changing(t[3]) && !spec_is_changing(t[4]) && !spec_is_changing(t[5]));
}

/// The relating hexagram is the primary one with exactly the changing lines
/// flipped: its index is the primary index xor the mask of changing lines. No
/// line of the relating hexagram changes.
#[verifier::rlimit(40)]
pub proof fn law_relating_flips_changing_bits(lines: Seq<u8>)
    requires
        lines.len() == 6,
    ensures
        spec_hexagram_index(spec_transformed_lines(lines)) == ((spec_hexagram_index(lines) as u8)
            ^ (spec_changing_mask(lines) as u8)) as nat,
        spec_changing_indices(spec_transformed_lines(lines)).len() == 0,
{
    let t = spec_transformed_lines(lines);
    let a0 = yang_bit(lines[0]) as u8;
    let a1 = yang_bit(lines[1]) as u8;
    let a2 = yang_bit(lines[2]) as u8;
    let a3 = yang_bit(lines[3]) as u8;
    let a4 = yang_bit(lines[4]) as u8;
    let a5 = yang_bit(lines[5]) as u8;
    let c0 = changing_bit(lines[0]) as u8;
    let c1 = changing_bit(lines[1]) as u8;
    let c2 = changing_bit(lines[2]) as u8;
    let c3 = changing_bit(lines[3]) as u8;
    let c4 = changing_bit(lines[4]) as u8;
    let c5 = changing_bit(lines[5]) as u8;
    lemma_xor_of_bit_sums(a0, a1, a2, a3, a4, a5, c0, c1, c2, c3, c4, c5);
    lemma_transformed_bit(lines[0]);
    lemma_transformed_bit(lines[1]);
    lemma_transformed_bit(lines[2]);
    lemma_transformed_bit(lines[3]);
    lemma_transformed_bit(lines[4]);
    lemma_transformed_bit(lines[5]);
    assert(t[0] == spec_transformed(lines[0]) && t[1] == spec_transformed(lines[1]) && t[2]
        == spec_transformed(lines[2]));
    assert(t[3] == spec_transformed(lines[3]) && t[4] == spec_transformed(lines[4]) && t[5]
        == spec_transformed(lines[5]));
    lemma_transformed_has_no_changing_line(lines);
}

} // verus!
