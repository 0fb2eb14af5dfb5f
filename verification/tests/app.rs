use cyber_divination::app::{App, AppPhase, KeyCode, KeyEvent};
use cyber_divination::entropy::{
    AnswerLog, EntropyError, EntropySample, EntropySource, RequestLog,
};

struct ScriptedEntropy {
    digits: Vec<u8>,
    cursor: usize,
}

impl ScriptedEntropy {
    fn new(digits: Vec<u8>) -> Self {
        Self { digits, cursor: 0 }
    }
}

impl EntropySource for ScriptedEntropy {
    // The request records exist for the verifier only and are never called.
    fn asked(&self) -> RequestLog {
        unreachable!()
    }

    fn answers(&self) -> AnswerLog {
        unreachable!()
    }

    fn next_digit(&mut self, throw_no: usize) -> Result<EntropySample, EntropyError> {
        let digit = self.digits[self.cursor];
        self.cursor += 1;
        Ok(EntropySample {
            digit,
            fingerprint: format!("test-{throw_no:02}"),
        })
    }
}

struct FailingEntropy;

impl EntropySource for FailingEntropy {
    // The request records exist for the verifier only and are never called.
    fn asked(&self) -> RequestLog {
        unreachable!()
    }

    fn answers(&self) -> AnswerLog {
        unreachable!()
    }

    fn next_digit(&mut self, _throw_no: usize) -> Result<EntropySample, EntropyError> {
        Err(EntropyError { message: "no entropy".to_string() })
    }
}

const PATTERN: [u8; 18] = [2, 2, 2, 2, 2, 3, 2, 3, 3, 3, 3, 3, 2, 2, 3, 2, 3, 2];

#[test]
fn full_ritual_reaches_result_phase() {
    let mut app = App::new(Box::new(ScriptedEntropy::new(PATTERN.to_vec())));

    app.handle_key(KeyCode::Enter.into())
        .expect("welcome -> first cast");
    for _ in 1..18 {
        app.handle_key(KeyCode::Enter.into()).expect("casting");
    }

    assert_eq!(app.phase(), AppPhase::Assembling);
    assert_eq!(app.line_sums(), &[6, 7, 8, 9, 7, 7]);

    app.handle_key(KeyCode::Enter.into()).expect("assembling");
    assert_eq!(app.phase(), AppPhase::ReverseConfirm);

    app.handle_key(KeyCode::Enter.into()).expect("reverse confirm");
    assert_eq!(app.phase(), AppPhase::Result);

    let result = app.current_result().expect("hexagram result");
    assert_eq!(
        result.changing_lines,
        vec!["初六".to_string(), "九四".to_string()]
    );
    assert_eq!(result.primary.name, "天水讼");
    assert_eq!(result.relating.expect("relating").name, "风泽中孚");
}

#[test]
fn ctrl_c_quits_the_ritual() {
    let mut app = App::new(Box::new(ScriptedEntropy::new(vec![2; 18])));
    assert!(!app.should_quit());
    app.handle_key(KeyEvent::new(KeyCode::Char('c'), true))
        .expect("ctrl+c");
    assert!(app.should_quit());
}

#[test]
fn plain_c_does_not_quit() {
    let mut app = App::new(Box::new(ScriptedEntropy::new(vec![2; 18])));
    app.handle_key(KeyEvent::new(KeyCode::Char('c'), false))
        .expect("plain c");
    assert!(!app.should_quit());
}

#[test]
fn restart_returns_to_welcome_with_clean_state() {
    let pattern = PATTERN.to_vec();
    let mut app = App::new(Box::new(ScriptedEntropy::new(pattern.repeat(2))));

    app.handle_key(KeyCode::Enter.into())
        .expect("welcome -> first cast");
    for _ in 1..18 {
        app.handle_key(KeyCode::Enter.into()).expect("casting");
    }
    app.handle_key(KeyCode::Enter.into()).expect("assembling");
    app.handle_key(KeyCode::Enter.into()).expect("reverse confirm");
    assert_eq!(app.phase(), AppPhase::Result);
    assert_eq!(app.casts_completed(), 18);
    assert_eq!(app.completed_lines(), 6);

    assert!(!app.interpretation_revealed());
    app.handle_key(KeyCode::Enter.into()).expect("reveal interpretation");
    assert!(app.interpretation_revealed());
    assert_eq!(app.phase(), AppPhase::Result);

    app.handle_key(KeyCode::Enter.into()).expect("restart");
    assert_eq!(app.phase(), AppPhase::Welcome);
    assert_eq!(app.casts_completed(), 0);
    assert_eq!(app.completed_lines(), 0);
    assert_eq!(app.journal_entries().len(), 1);
    assert_eq!(app.journal_entries()[0], "等待落子。");

    app.handle_key(KeyCode::Enter.into())
        .expect("restart welcome -> cast");
    assert_eq!(app.phase(), AppPhase::Casting);
    assert_eq!(app.casts_completed(), 1);

    for _ in 1..18 {
        app.handle_key(KeyCode::Enter.into()).expect("restart casting");
    }
    app.handle_key(KeyCode::Enter.into())
        .expect("restart assembling");
    app.handle_key(KeyCode::Enter.into())
        .expect("restart reverse confirm");
    assert_eq!(app.phase(), AppPhase::Result);
    let result = app.current_result().expect("second hexagram");
    assert_eq!(result.primary.name, "天水讼");
}

#[test]
fn result_enter_reveals_then_restarts() {
    let mut app = App::new(Box::new(ScriptedEntropy::new(PATTERN.to_vec())));

    app.handle_key(KeyCode::Enter.into()).expect("welcome -> cast");
    for _ in 1..18 {
        app.handle_key(KeyCode::Enter.into()).expect("casting");
    }
    app.handle_key(KeyCode::Enter.into()).expect("assembling");
    app.handle_key(KeyCode::Enter.into()).expect("reverse confirm");
    assert_eq!(app.phase(), AppPhase::Result);
    assert!(!app.interpretation_revealed());

    app.handle_key(KeyCode::Enter.into()).expect("reveal interpretation");
    assert_eq!(app.phase(), AppPhase::Result);
    assert!(app.interpretation_revealed());

    app.handle_key(KeyCode::Enter.into()).expect("restart");
    assert_eq!(app.phase(), AppPhase::Welcome);
    assert_eq!(app.casts_completed(), 0);
    assert!(!app.interpretation_revealed());
}

// ── Further checks ───────────────────────────────────────────────────────

#[test]
fn q_and_esc_quit_other_keys_do_nothing() {
    let mut app = App::new(Box::new(ScriptedEntropy::new(vec![2; 18])));
    app.handle_key(KeyCode::Other.into()).expect("other");
    app.handle_key(KeyCode::Char('x').into()).expect("x");
    assert!(!app.should_quit());
    assert_eq!(app.phase(), AppPhase::Welcome);
    assert_eq!(app.casts_completed(), 0);
    app.handle_key(KeyCode::Char('q').into()).expect("q");
    assert!(app.should_quit());
    assert_eq!(app.phase(), AppPhase::Welcome);

    let mut app = App::new(Box::new(ScriptedEntropy::new(vec![2; 18])));
    app.handle_key(KeyCode::Esc.into()).expect("esc");
    assert!(app.should_quit());
}

#[test]
fn journal_pulse_and_history_while_casting() {
    let mut app = App::new(Box::new(ScriptedEntropy::new(PATTERN.to_vec())));
    assert_eq!(app.instruction(), "心中默问。Enter 落子。");
    assert_eq!(app.focus_caption(), "");
    assert_eq!(app.history_snapshot(), vec!["尚未落子。".to_string()]);
    assert!(app.pulse().is_none());
    assert!(app.last_entropy().is_none());
    assert!(app.last_cast_elapsed().is_none());

    app.handle_key(KeyCode::Enter.into()).expect("first");
    assert_eq!(app.phase(), AppPhase::Casting);
    assert_eq!(app.journal_entries().last().unwrap(), "#01 → 2");
    assert_eq!(app.pulse().unwrap().message(), "test-01 · 2");
    assert_eq!(app.last_entropy(), Some(("test-01", 2)));
    assert!(app.last_cast_elapsed().is_some());
    assert_eq!(app.instruction(), "02 / 18");
    assert_eq!(app.focus_caption(), "第 1 爻");

    app.handle_key(KeyCode::Enter.into()).expect("second");
    app.handle_key(KeyCode::Enter.into()).expect("third");
    let journal = app.journal_entries();
    assert_eq!(journal[journal.len() - 2], "#03 → 2");
    assert_eq!(journal[journal.len() - 1], "初爻 [2 2 2] = 6");
    assert_eq!(app.line_sums(), &[6]);
    assert_eq!(app.focus_caption(), "第 2 爻");

    app.handle_key(KeyCode::Enter.into()).expect("fourth");
    assert_eq!(
        app.history_snapshot(),
        vec!["初爻: [2 2 2] -> 6 / 老阴 / 变爻".to_string(), "二爻: [2]".to_string()]
    );
}

#[test]
fn assembled_history_and_reveal_pulse() {
    let mut app = App::new(Box::new(ScriptedEntropy::new(PATTERN.to_vec())));
    for _ in 0..18 {
        app.handle_key(KeyCode::Enter.into()).expect("cast");
    }
    assert_eq!(app.instruction(), "Enter 收束。");
    assert_eq!(app.focus_caption(), "六爻已备。");
    assert_eq!(app.pulse().unwrap().message(), "六爻已备。");
    let history = app.history_snapshot();
    assert_eq!(history.len(), 6);
    assert_eq!(history[0], "初爻: 6 / --x-- / 老阴 / 变爻");
    assert_eq!(history[3], "四爻: 9 / --o-- / 老阳 / 变爻");
    app.handle_key(KeyCode::Enter.into()).expect("assemble");
    assert_eq!(app.instruction(), "Enter 显卦。");
    assert_eq!(app.journal_entries().last().unwrap(), "收束完成。");
    app.handle_key(KeyCode::Enter.into()).expect("reveal");
    assert_eq!(app.journal_entries().last().unwrap(), "本卦显形：天水讼");
    let result = app.current_result().unwrap();
    let relating = result.relating.unwrap();
    assert_eq!(
        app.pulse().unwrap().message(),
        format!(
            "已显现 · 天水讼 -> 风泽中孚 ({:02} -> {:02})",
            result.primary.index, relating.index
        )
    );
    assert_eq!(app.instruction(), "Enter 解读。");
    app.handle_key(KeyCode::Enter.into()).expect("read");
    assert_eq!(app.instruction(), "再问一次？Enter。");
    assert_eq!(app.journal_entries().last().unwrap(), "解读显现。");
    assert_eq!(app.journal_entries().len(), 29);
}

#[test]
fn failed_draw_keeps_the_throw_count() {
    let mut app = App::new(Box::new(FailingEntropy));
    let err = app.handle_key(KeyCode::Enter.into()).unwrap_err();
    assert_eq!(err.message, "no entropy");
    assert_eq!(app.phase(), AppPhase::Casting);
    assert_eq!(app.casts_completed(), 0);
    assert_eq!(app.journal_entries().len(), 1);
}

#[test]
fn tick_counts_up() {
    let mut app = App::new(Box::new(ScriptedEntropy::new(vec![2; 18])));
    assert_eq!(app.tick_count(), 0);
    app.tick();
    app.tick();
    assert_eq!(app.tick_count(), 2);
    app.handle_key(KeyCode::Enter.into()).expect("cast");
    app.tick();
    // The pulse lasts well beyond a single tick.
    assert!(app.pulse().is_some());
}

#[test]
fn throw_numbers_restart_with_the_same_source() {
    let mut app = App::new(Box::new(ScriptedEntropy::new(PATTERN.repeat(2))));
    assert_eq!(app.next_throw_no(), 1);
    for _ in 0..22 {
        app.handle_key(KeyCode::Enter.into()).expect("enter");
    }
    assert_eq!(app.phase(), AppPhase::Welcome);
    assert_eq!(app.next_throw_no(), 1);
    app.handle_key(KeyCode::Enter.into()).expect("first throw again");
    assert_eq!(app.last_entropy(), Some(("test-01", 2)));
    assert_eq!(app.next_throw_no(), 2);
}

#[test]
fn recording_a_sample_directly() {
    let mut app = App::new(Box::new(FailingEntropy));
    let _ = app.handle_key(KeyCode::Enter.into());
    assert_eq!(app.phase(), AppPhase::Casting);
    app.record_cast(EntropySample { digit: 3, fingerprint: "0x0123456789ABCDEF".to_string() });
    assert_eq!(app.casts_completed(), 1);
    assert_eq!(app.last_entropy(), Some(("0x0123456789ABCDEF", 3)));
    assert_eq!(app.pulse().unwrap().message(), "0x01234567 · 3");
    assert_eq!(app.journal_entries().last().unwrap(), "#01 → 3");
}

struct RecordingEntropy {
    asked: std::rc::Rc<std::cell::RefCell<Vec<usize>>>,
}

impl EntropySource for RecordingEntropy {
    // The request records exist for the verifier only and are never called.
    fn asked(&self) -> RequestLog {
        unreachable!()
    }

    fn answers(&self) -> AnswerLog {
        unreachable!()
    }

    fn next_digit(&mut self, throw_no: usize) -> Result<EntropySample, EntropyError> {
        self.asked.borrow_mut().push(throw_no);
        Ok(EntropySample { digit: 3, fingerprint: format!("rec-{throw_no:02}") })
    }
}

#[test]
fn each_drawing_enter_asks_the_source_once_for_the_next_throw() {
    let asked = std::rc::Rc::new(std::cell::RefCell::new(Vec::new()));
    let mut app = App::new(Box::new(RecordingEntropy { asked: asked.clone() }));
    app.tick();
    app.handle_key(KeyCode::Other.into()).expect("other");
    assert!(asked.borrow().is_empty());
    for _ in 0..18 {
        app.handle_key(KeyCode::Enter.into()).expect("cast");
    }
    let expected: Vec<usize> = (1..=18).collect();
    assert_eq!(*asked.borrow(), expected);
    // Assembling, reveal, reading and restart ask nothing.
    for _ in 0..4 {
        app.handle_key(KeyCode::Enter.into()).expect("later stage");
    }
    assert_eq!(asked.borrow().len(), 18);
    assert_eq!(app.phase(), AppPhase::Welcome);
    app.handle_key(KeyCode::Enter.into()).expect("first throw again");
    assert_eq!(asked.borrow().last(), Some(&1));
    assert_eq!(app.last_entropy(), Some(("rec-01", 3)));
}

#[test]
fn tick_with_drops_the_pulse_only_when_expired() {
    let mut app = App::new(Box::new(ScriptedEntropy::new(vec![2; 18])));
    app.handle_key(KeyCode::Enter.into()).expect("cast");
    app.tick_with(false);
    assert_eq!(app.tick_count(), 1);
    assert!(app.pulse().is_some());
    app.tick_with(true);
    assert_eq!(app.tick_count(), 2);
    assert!(app.pulse().is_none());
    assert_eq!(app.casts_completed(), 1);
}
