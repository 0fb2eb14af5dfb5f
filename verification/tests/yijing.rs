use cyber_divination::texts::{
    table_field, HEXAGRAM_NAMES, JUDGMENT_CLASSICS, JUDGMENT_GLOSSES, LINE_CLASSICS, LINE_GLOSSES,
};
use cyber_divination::yijing::{
    analyze_hexagram, format_changing_line, hexagram_text, interpretation, is_yang, line_label,
    line_symbol, transformed_line_value, LINE_POSITIONS,
};

#[test]
fn maps_all_yang_to_qian() {
    let result = analyze_hexagram(&[7, 7, 7, 7, 7, 7]);
    assert_eq!(result.primary.index, 63);
    assert_eq!(result.primary.name, "乾为天");
    assert!(result.changing_lines.is_empty());
    assert_eq!(result.relating, None);
}

#[test]
fn maps_water_thunder_zhun_correctly() {
    let result = analyze_hexagram(&[7, 8, 8, 8, 7, 8]);
    assert_eq!(result.primary.index, 17);
    assert_eq!(result.primary.name, "水雷屯");
}

#[test]
fn changing_lines_use_traditional_labels() {
    let result = analyze_hexagram(&[6, 7, 8, 9, 8, 7]);
    assert_eq!(
        result.changing_lines,
        vec!["初六".to_string(), "九四".to_string()]
    );
    assert_eq!(format_changing_line(6, 6), "上六");
    assert_eq!(result.primary.name, "火水未济");
    assert_eq!(result.relating.expect("relating").name, "山泽损");
    assert_eq!(result.transformed_lines, [7, 7, 8, 8, 8, 7]);
}

#[test]
fn line_descriptions_match_symbols() {
    assert_eq!(line_symbol(6), "--x--");
    assert_eq!(line_symbol(9), "--o--");
    assert_eq!(line_label(7), "少阳 / 静爻");
    assert_eq!(line_label(8), "少阴 / 静爻");
}

#[test]
fn transformed_lines_collapse_to_static_yin_yang() {
    assert_eq!(transformed_line_value(6), 7);
    assert_eq!(transformed_line_value(7), 7);
    assert_eq!(transformed_line_value(8), 8);
    assert_eq!(transformed_line_value(9), 8);
}

struct Case {
    label: &'static str,
    lines: [u8; 6],
    primary_index: usize,
    primary_name: &'static str,
    changing: Vec<String>,
    relating_name: Option<&'static str>,
    transformed: [u8; 6],
}

#[test]
fn parameterized_hexagram_mapping() {
    let cases = [
        Case {
            label: "全少阴为坤",
            lines: [8, 8, 8, 8, 8, 8],
            primary_index: 0,
            primary_name: "坤为地",
            changing: vec![],
            relating_name: None,
            transformed: [8, 8, 8, 8, 8, 8],
        },
        Case {
            label: "下乾上坤为泰",
            lines: [7, 7, 7, 8, 8, 8],
            primary_index: 7,
            primary_name: "地天泰",
            changing: vec![],
            relating_name: None,
            transformed: [7, 7, 7, 8, 8, 8],
        },
        Case {
            label: "下坤上乾为否",
            lines: [8, 8, 8, 7, 7, 7],
            primary_index: 56,
            primary_name: "天地否",
            changing: vec![],
            relating_name: None,
            transformed: [8, 8, 8, 7, 7, 7],
        },
        Case {
            label: "双坎为水",
            lines: [8, 7, 8, 8, 7, 8],
            primary_index: 18,
            primary_name: "坎为水",
            changing: vec![],
            relating_name: None,
            transformed: [8, 7, 8, 8, 7, 8],
        },
        Case {
            label: "全老阳本乾之坤",
            lines: [9, 9, 9, 9, 9, 9],
            primary_index: 63,
            primary_name: "乾为天",
            changing: vec![
                "初九".to_string(),
                "九二".to_string(),
                "九三".to_string(),
                "九四".to_string(),
                "九五".to_string(),
                "上九".to_string(),
            ],
            relating_name: Some("坤为地"),
            transformed: [8, 8, 8, 8, 8, 8],
        },
        Case {
            label: "全老阴本坤之乾",
            lines: [6, 6, 6, 6, 6, 6],
            primary_index: 0,
            primary_name: "坤为地",
            changing: vec![
                "初六".to_string(),
                "六二".to_string(),
                "六三".to_string(),
                "六四".to_string(),
                "六五".to_string(),
                "上六".to_string(),
            ],
            relating_name: Some("乾为天"),
            transformed: [7, 7, 7, 7, 7, 7],
        },
        Case {
            label: "含变爻初九六四",
            lines: [9, 8, 7, 6, 8, 7],
            primary_index: 37,
            primary_name: "山火贲",
            changing: vec!["初九".to_string(), "六四".to_string()],
            relating_name: Some("火山旅"),
            transformed: [8, 8, 7, 7, 8, 7],
        },
    ];

    for case in cases {
        let result = analyze_hexagram(&case.lines);
        assert_eq!(
            result.primary.index, case.primary_index,
            "{}: primary index",
            case.label
        );
        assert_eq!(
            result.primary.name, case.primary_name,
            "{}: primary name",
            case.label
        );
        assert_eq!(
            result.changing_lines, case.changing,
            "{}: changing lines",
            case.label
        );
        assert_eq!(
            result.relating.map(|r| r.name),
            case.relating_name,
            "{}: relating name",
            case.label
        );
        assert_eq!(
            result.transformed_lines, case.transformed,
            "{}: transformed lines",
            case.label
        );
    }
}

#[test]
fn hexagram_texts_complete() {
    assert_eq!(JUDGMENT_CLASSICS.split('|').count(), 64);
    assert_eq!(JUDGMENT_GLOSSES.split('|').count(), 64);
    assert_eq!(HEXAGRAM_NAMES.split('|').count(), 64);
    assert_eq!(LINE_CLASSICS.split('|').count(), 6 * 64);
    assert_eq!(LINE_GLOSSES.split('|').count(), 6 * 64);
    let mut total = 0usize;
    for idx in 0..64 {
        let hex = hexagram_text(idx);
        assert!(!hex.judgment.classic.is_empty(), "judgment classic @{}", idx);
        assert!(!hex.judgment.gloss.is_empty(), "judgment gloss @{}", idx);
        total += 1;
        for (l, line) in hex.lines.iter().enumerate() {
            assert!(!line.classic.is_empty(), "line {} classic @{}", l, idx);
            assert!(!line.gloss.is_empty(), "line {} gloss @{}", l, idx);
            total += 1;
        }
    }
    assert_eq!(total, 448);
}

#[test]
fn interpretation_no_changing_returns_judgment() {
    let result = analyze_hexagram(&[7, 7, 7, 7, 7, 7]);
    let entries = interpretation(&result);
    assert_eq!(entries.len(), 1);
    assert_eq!(entries[0].label, "卦辞");
    assert!(!entries[0].classic.is_empty());
    assert!(!entries[0].gloss.is_empty());
}

#[test]
fn interpretation_with_changing_returns_line_texts() {
    let result = analyze_hexagram(&[6, 7, 8, 9, 8, 7]);
    assert_eq!(result.changing_lines, vec!["初六".to_string(), "九四".to_string()]);
    assert_eq!(result.changing_indices, vec![0, 3]);
    let entries = interpretation(&result);
    assert_eq!(entries.len(), 2);
    assert_eq!(entries[0].label, "初六");
    assert_eq!(entries[1].label, "九四");
    let text = hexagram_text(42);
    assert_eq!(entries[0].classic, text.lines[0].classic);
    assert_eq!(entries[1].classic, text.lines[3].classic);
    assert!(!entries[0].gloss.is_empty());
    assert!(!entries[1].gloss.is_empty());
}

#[test]
fn interpretation_all_changing_returns_relating_judgment() {
    let result = analyze_hexagram(&[9, 9, 9, 9, 9, 9]);
    assert_eq!(result.changing_indices.len(), 6);
    let relating = result.relating.expect("relating exists for all changing");
    assert_eq!(relating.name, "坤为地");
    let entries = interpretation(&result);
    assert_eq!(entries.len(), 1);
    assert_eq!(entries[0].label, "卦辞");
    let kun_text = hexagram_text(relating.index);
    assert_eq!(entries[0].classic, kun_text.judgment.classic);
    assert_eq!(entries[0].gloss, kun_text.judgment.gloss);
}

// ── Further checks ───────────────────────────────────────────────────────

#[test]
fn every_hexagram_index_names_its_own_pattern() {
    // Each of the 64 yin/yang patterns gets a distinct index, and the index
    // reads the lines as bits, bottom line first.
    let mut seen = [false; 64];
    for pattern in 0usize..64 {
        let mut lines = [8u8; 6];
        for (bit, line) in lines.iter_mut().enumerate() {
            if pattern & (1 << bit) != 0 {
                *line = 7;
            }
        }
        let result = analyze_hexagram(&lines);
        assert_eq!(result.primary.index, pattern);
        assert_eq!(result.primary.name, table_field(HEXAGRAM_NAMES, pattern));
        assert!(!seen[pattern]);
        seen[pattern] = true;
    }
}

#[test]
fn all_changing_relates_to_the_complement() {
    let result = analyze_hexagram(&[6, 9, 9, 6, 6, 9]);
    let relating = result.relating.expect("relating");
    assert_eq!(result.primary.index + relating.index, 63);
    assert_eq!(result.changing_indices, vec![0, 1, 2, 3, 4, 5]);
}

#[test]
fn static_lines_keep_their_values() {
    let result = analyze_hexagram(&[7, 8, 7, 8, 7, 8]);
    assert_eq!(result.transformed_lines, [7, 8, 7, 8, 7, 8]);
    assert!(result.changing_indices.is_empty());
    assert_eq!(result.relating, None);
}

#[test]
fn transform_is_idempotent_and_flips_only_old_lines() {
    for value in 6u8..=9 {
        let once = transformed_line_value(value);
        assert_eq!(transformed_line_value(once), once);
        assert!(once == 7 || once == 8);
        let changing = value == 6 || value == 9;
        assert_eq!(is_yang(once), is_yang(value) != changing);
    }
    assert_eq!(transformed_line_value(0), 0);
    assert_eq!(transformed_line_value(12), 12);
}

#[test]
fn unknown_values_and_positions() {
    assert_eq!(line_symbol(7), "-----");
    assert_eq!(line_symbol(8), "-- --");
    assert_eq!(line_symbol(5), "?????");
    assert_eq!(line_label(6), "老阴 / 变爻");
    assert_eq!(line_label(9), "老阳 / 变爻");
    assert_eq!(line_label(10), "未知");
    assert_eq!(format_changing_line(1, 9), "初九");
    assert_eq!(format_changing_line(2, 6), "六二");
    assert_eq!(format_changing_line(5, 9), "九五");
    assert_eq!(format_changing_line(0, 9), "未知变爻");
    assert_eq!(format_changing_line(7, 6), "未知变爻");
    assert_eq!(LINE_POSITIONS[0], "初爻");
    assert_eq!(LINE_POSITIONS[5], "上爻");
}

#[test]
fn interpretation_reads_each_changing_line_of_the_primary() {
    let result = analyze_hexagram(&[7, 9, 8, 8, 6, 7]);
    assert_eq!(result.changing_lines, vec!["九二".to_string(), "六五".to_string()]);
    let entries = interpretation(&result);
    let text = hexagram_text(result.primary.index);
    assert_eq!(entries.len(), 2);
    assert_eq!(entries[0].classic, text.lines[1].classic);
    assert_eq!(entries[0].gloss, text.lines[1].gloss);
    assert_eq!(entries[1].classic, text.lines[4].classic);
    let plain = analyze_hexagram(&[8, 8, 8, 8, 8, 8]);
    let entries = interpretation(&plain);
    assert_eq!(entries[0].classic, hexagram_text(0).judgment.classic);
}

#[test]
fn table_fields_split_on_bars() {
    assert_eq!(table_field(HEXAGRAM_NAMES, 0), "坤为地");
    assert_eq!(table_field(HEXAGRAM_NAMES, 63), "乾为天");
    assert_eq!(table_field(HEXAGRAM_NAMES, 64), "");
    assert_eq!(table_field(HEXAGRAM_NAMES, 1000), "");
    assert!(table_field(LINE_CLASSICS, 383).starts_with("亢龙有悔"));
}

#[test]
fn all_changing_reading_needs_only_the_relating_hexagram() {
    let mut result = analyze_hexagram(&[9, 9, 9, 9, 9, 9]);
    // Positions beyond the table are never read when all six lines change.
    result.changing_indices = vec![9, 9, 9, 9, 9, 9];
    let entries = interpretation(&result);
    assert_eq!(entries.len(), 1);
    assert_eq!(entries[0].classic, hexagram_text(0).judgment.classic);
}

#[test]
fn relating_index_flips_exactly_the_changing_bits() {
    for lines in [[6u8, 7, 8, 9, 8, 7], [9, 8, 7, 6, 8, 7], [6, 6, 7, 7, 9, 8], [9, 9, 9, 9, 9, 9]] {
        let result = analyze_hexagram(&lines);
        let mask: usize = result.changing_indices.iter().map(|i| 1usize << i).sum();
        let relating = result.relating.expect("relating");
        assert_eq!(relating.index, result.primary.index ^ mask);
        assert!(analyze_hexagram(&result.transformed_lines).changing_indices.is_empty());
    }
}
