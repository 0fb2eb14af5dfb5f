use cyber_divination::app::{pulse_expired_after, App, AppPhase, KeyCode};
use cyber_divination::entropy::{
    AnswerLog, EntropyError, EntropySample, EntropySource, RequestLog,
};
use cyber_divination::view::{
    flash_after, footer_segment, reading_lines, formation_lines, header_line, hero_glyph, hero_name, line_meta, line_slot,
    lines_to_reveal_at, phase_order, primary_hexagram_lines, relating_and_notes_lines,
    result_dot_tone, result_heading, reveal_stage_at, stage_dots, tempo_lines,
    trace_log_lines, trace_summary_lines, welcome_tone, wide_glyph, Segment, Tone,
};

struct ScriptedEntropy {
    digits: Vec<u8>,
    cursor: usize,
}

impl EntropySource for ScriptedEntropy {
    // The request records exist for the verifier only and are never called.
    fn asked(&self) -> RequestLog {
        unreachable!()
    }

    fn answers(&self) -> AnswerLog {
        unreachable!()
    }

    fn next_digit(&mut self, throw_no: usize) -> Result<EntropySample, EntropyError> {
        let digit = self.digits[self.cursor];
        self.cursor += 1;
        Ok(EntropySample { digit, fingerprint: format!("snap-{throw_no:02}") })
    }
}

const PATTERN: [u8; 18] = [2, 2, 2, 2, 2, 3, 2, 3, 3, 3, 3, 3, 2, 2, 3, 2, 3, 2];

fn app_after(presses: usize) -> App {
    let mut app = App::new(Box::new(ScriptedEntropy { digits: PATTERN.to_vec(), cursor: 0 }));
    for _ in 0..presses {
        app.handle_key(KeyCode::Enter.into()).expect("enter");
    }
    app
}

fn texts(line: &[Segment]) -> Vec<String> {
    line.iter().map(|s| s.text.clone()).collect()
}

#[test]
fn reveal_timing_steps() {
    assert_eq!(reveal_stage_at(0), 0);
    assert_eq!(reveal_stage_at(399), 0);
    assert_eq!(reveal_stage_at(400), 1);
    assert_eq!(reveal_stage_at(899), 1);
    assert_eq!(reveal_stage_at(900), 2);
    assert_eq!(reveal_stage_at(1499), 2);
    assert_eq!(reveal_stage_at(1500), 3);
    assert_eq!(reveal_stage_at(2199), 3);
    assert_eq!(reveal_stage_at(2200), 4);
    assert_eq!(lines_to_reveal_at(899), 0);
    assert_eq!(lines_to_reveal_at(900), 1);
    assert_eq!(lines_to_reveal_at(1099), 2);
    assert_eq!(lines_to_reveal_at(1400), 6);
    assert_eq!(lines_to_reveal_at(100_000), 6);
}

#[test]
fn glyphs_slots_and_names() {
    assert_eq!(hero_name("天水讼"), "天  水  讼");
    assert_eq!(hero_name("乾"), "乾");
    assert_eq!(hero_name(""), "");
    assert_eq!(wide_glyph(7), "━━━━━━━━━━━");
    assert_eq!(wide_glyph(6), "━━━━   ━━━━");
    assert_eq!(hero_glyph(9), "━━━━━━━━━━━━━━━━━");
    assert_eq!(hero_glyph(8), "━━━━━━━   ━━━━━━━");
    assert_eq!(line_slot(0), "初爻");
    assert_eq!(line_slot(5), "上爻");
    assert_eq!(line_slot(6), "?");
    assert_eq!(line_meta(6), "老阴 *");
    assert_eq!(line_meta(7), "少阳");
    assert_eq!(line_meta(1), "?");
    assert_eq!(phase_order(AppPhase::Welcome), 0);
    assert_eq!(phase_order(AppPhase::Result), 4);
    assert_eq!(welcome_tone(25), Tone::Warm);
    assert_eq!(welcome_tone(26), Tone::Dim);
    assert_eq!(welcome_tone(40), Tone::Warm);
    assert_eq!(result_dot_tone(9), Tone::Warm);
    assert_eq!(result_dot_tone(10), Tone::Dim);
}

#[test]
fn track_header_and_footer() {
    let app = app_after(0);
    let dots = stage_dots(&app);
    assert_eq!(
        texts(&dots),
        vec![" ", "● 静场", " ─ ", "○ 起数", " ─ ", "○ 收束", " ─ ", "○ 显卦", " ─ ", "○ 结果"]
    );
    assert!(dots[1].bold && dots[1].tone == Tone::Warm);
    assert_eq!(texts(&header_line(&app)), vec![" 数字起卦"]);
    let footer = footer_segment(&app);
    assert_eq!(footer.text, "Enter 开始  ·  q 退出");
    assert_eq!(footer.tone, Tone::Dim);

    let app = app_after(4);
    let dots = stage_dots(&app);
    assert_eq!(dots[1].text, "◉ 静场");
    assert_eq!(dots[3].text, "● 起数");
    assert_eq!(texts(&header_line(&app)), vec![" 数字起卦", "  04/18 · 1/6爻"]);
    let footer = footer_segment(&app);
    assert_eq!(footer.text, "snap-04 · 2");
    assert_eq!(footer.tone, Tone::Warm);
}

#[test]
fn casting_formation_and_tempo() {
    let app = app_after(4);
    let lines = formation_lines(&app, true);
    assert_eq!(lines.len(), 3);
    assert_eq!(texts(&lines[0]), vec!["初爻    ", "━━━━   ━━━━", "  老阴 *"]);
    assert_eq!(lines[0][1].tone, Tone::Warm);
    assert_eq!(texts(&lines[1]), vec![""]);
    assert_eq!(texts(&lines[2]), vec!["二爻  ● ○ ○"]);
    assert!(lines[2][0].bold);
    let calm = formation_lines(&app, false);
    assert_eq!(calm[0][1].tone, Tone::Text);
    let tempo = tempo_lines(&app);
    assert_eq!(texts(&tempo[0]), vec!["数位  05"]);
    assert_eq!(texts(&tempo[1]), vec!["第 2 爻"]);
    let summary = trace_summary_lines(&app, false);
    assert_eq!(texts(&summary[0]), vec!["取数  04/18"]);
    assert_eq!(texts(&summary[1]), vec!["成爻  01/06"]);
    assert_eq!(texts(&summary[2]), vec!["熵印  snap-04"]);
    assert_eq!(summary[2][0].tone, Tone::Dim);
    let log = trace_log_lines(&app, true);
    assert_eq!(texts(&log[0]), vec!["初爻: [2 2 2] -> 6 / 老阴 / 变爻"]);
    assert_eq!(texts(&log[1]), vec!["二爻: [2]"]);
    assert_eq!(texts(&log[2]), vec![""]);
    assert_eq!(texts(&log[3]), vec!["· ", "#04 → 2"]);
    assert_eq!(log[3][1].tone, Tone::Warm);
    assert_eq!(log.len(), 3 + 6);
}

#[test]
fn assembled_formation_lists_six_lines_top_first() {
    let app = app_after(18);
    assert_eq!(app.phase(), AppPhase::Assembling);
    let lines = formation_lines(&app, true);
    assert_eq!(lines.len(), 6);
    assert_eq!(texts(&lines[0]), vec!["上爻    ", "━━━━━━━━━━━", "  少阳"]);
    assert_eq!(texts(&lines[5]), vec!["初爻    ", "━━━━   ━━━━", "  老阴 *"]);
    assert_eq!(lines[0][1].tone, Tone::Text);
    assert_eq!(texts(&tempo_lines(&app)[0]), vec!["收束"]);
    let log = trace_log_lines(&app, false);
    assert_eq!(log.len(), 6 + 1 + 10);
}

#[test]
fn result_panels_by_stage() {
    let app = app_after(20);
    assert_eq!(app.phase(), AppPhase::Result);
    let result = app.current_result().unwrap();
    assert_eq!(result_heading(&result), "天  水  讼  →  风  泽  中  孚");

    let early = primary_hexagram_lines(&app, 1, 0);
    assert_eq!(early.len(), 1);
    assert_eq!(texts(&early[0]), vec![format!("#{:02}  2 个变爻", result.primary.index)]);

    let partial = primary_hexagram_lines(&app, 2, 2);
    assert_eq!(partial.len(), 8);
    assert_eq!(texts(&partial[2]), vec!["上爻 ", "━━━━━━━━━━━━━━━━━", ""]);
    assert_eq!(texts(&partial[4]), vec![""]);
    let full = primary_hexagram_lines(&app, 4, 6);
    assert_eq!(texts(&full[4]), vec!["四爻 ", "━━━━━━━━━━━━━━━━━", "  ◄"]);
    assert_eq!(texts(&full[7]), vec!["初爻 ", "━━━━━━━   ━━━━━━━", "  ◄"]);

    let folded = relating_and_notes_lines(&app, 2);
    assert_eq!(texts(&folded[0]), vec!["变化层尚未展开。"]);
    let notes = relating_and_notes_lines(&app, 3);
    assert_eq!(texts(&notes[0]), vec!["之卦  风泽中孚"]);
    assert_eq!(texts(&notes[3]), vec!["变爻  初六 · 九四"]);
    assert_eq!(notes.len(), 4);
    let all = relating_and_notes_lines(&app, 4);
    assert_eq!(all.len(), 4 + 2 + 6);
    assert_eq!(texts(&all[5]), vec!["变后六爻"]);
    assert_eq!(texts(&all[6]), vec!["上爻 ", "━━━━━━━━━━━"]);
    let footer = footer_segment(&app);
    assert_eq!(footer.tone, Tone::Warm);
}

#[test]
fn panels_before_the_result_are_empty() {
    let app = app_after(3);
    assert!(primary_hexagram_lines(&app, 4, 6).is_empty());
    assert!(relating_and_notes_lines(&app, 4).is_empty());
    let welcome = app_after(0);
    assert!(formation_lines(&welcome, false).is_empty());
    assert!(tempo_lines(&welcome).is_empty());
    assert_eq!(trace_summary_lines(&welcome, false).len(), 2);
}

#[test]
fn flash_lasts_a_quarter_second() {
    assert!(flash_after(Some(0)));
    assert!(flash_after(Some(249)));
    assert!(!flash_after(Some(250)));
    assert!(!flash_after(None));
}

#[test]
fn reading_appears_after_the_first_enter_in_the_result() {
    let app = app_after(20);
    assert!(reading_lines(&app).is_empty());
    let app = app_after(21);
    assert!(app.interpretation_revealed());
    let reading = reading_lines(&app);
    // A blank line, then label, classic and gloss for 初六 and 九四.
    assert_eq!(reading.len(), 1 + 3 * 2);
    assert_eq!(texts(&reading[0]), vec![""]);
    assert_eq!(texts(&reading[1]), vec!["初六"]);
    assert_eq!(reading[1][0].tone, Tone::Warm);
    assert_eq!(texts(&reading[4]), vec!["九四"]);
    let result = app.current_result().unwrap();
    let entries = cyber_divination::yijing::interpretation(&result);
    assert_eq!(reading[2][0].text, entries[0].classic);
    assert_eq!(reading[6][0].text, entries[1].gloss);
}

#[test]
fn pulse_lasts_fourteen_hundred_milliseconds() {
    assert!(!pulse_expired_after(0));
    assert!(!pulse_expired_after(1399));
    assert!(pulse_expired_after(1400));
    assert!(pulse_expired_after(5000));
}
