use cathode::fileio::{save_mode, StoreError};
use cathode::lifecycle::{
    add_mode, advance, apply_mode, begin, keep_answer, snapshot_for, Operation, Outcome, Step,
};
use cathode::mode::{gen_cvt_mode, new_mode, CvtMode, InputMode, ModeError};
use cathode::protocol::{test_mode, Action, Event};
use cathode::util::filename_or_default;

const CVT_OUTPUT: &str = "# 1920x1080 59.96 Hz (CVT 2.07M9) hsync: 67.16 kHz; pclk: 173.00 MHz\nModeline \"1920x1080_60.00\"  173.00  1920 2048 2248 2576  1080 1083 1088 1120 -hsync +vsync\n";

fn current() -> Vec<InputMode> {
    vec![
        InputMode::new("1920", "1080", "60", "HDMI-1", "1920x1080"),
        InputMode::new("1280", "720", "50", "DP-1", "1280x720"),
    ]
}

#[test]
fn add_mode_without_flags_uses_the_active_mode() {
    let (req, fallback) = add_mode(None, None, None, None, None, &current()).unwrap();
    assert_eq!(fallback.display, "HDMI-1");
    assert_eq!(fallback.name, "1920x1080");
    assert_eq!(req.name, "1920x1080_60");
    assert_eq!(req.width, "1920");
    assert_eq!(req.height, "1080");
    assert_eq!(req.rate, "60");
    assert_eq!(req.display, "HDMI-1");

    let mode = gen_cvt_mode(&req, CVT_OUTPUT).unwrap();
    assert_eq!(mode.name, "1920x1080_60");
    for field in [
        &mode.clock,
        &mode.h_disp,
        &mode.h_sync_start,
        &mode.h_sync_end,
        &mode.h_total,
        &mode.v_disp,
        &mode.v_sync_start,
        &mode.v_sync_end,
        &mode.v_total,
    ] {
        assert!(!field.is_empty());
    }
    assert_eq!(mode.flags.split(' ').count(), 2);

    let op = Operation::Add { test: false, save: true };
    assert_eq!(begin(op), Step::Register);
    let (define, attach) = new_mode(&mode, &req.display);
    assert_eq!(define[0], "--newmode");
    assert_eq!(define[1], "1920x1080_60");
    assert_eq!(attach, vec!["--addmode", "HDMI-1", "1920x1080_60"]);
    assert_eq!(advance(op, Step::Register, Outcome::Succeeded), Step::Save);
    let store = save_mode(&mode, Vec::new());
    assert_eq!(store.len(), 1);
    assert_eq!(store[0].name, "1920x1080_60");
    assert_eq!(advance(op, Step::Save, Outcome::Succeeded), Step::Done);
}

#[test]
fn add_mode_takes_what_is_given() {
    let (req, fallback) = add_mode(Some("2560"), None, Some("75"), Some("DP-3"), None, &current()).unwrap();
    assert_eq!(req.name, "2560x1080_75");
    assert_eq!(req.display, "DP-3");
    assert_eq!(fallback.display, "HDMI-1");
    let (req, _) = add_mode(None, Some("1200"), None, None, Some("mine"), &current()).unwrap();
    assert_eq!(req.name, "mine");
    assert_eq!(req.width, "1920");
    assert_eq!(req.height, "1200");
}

#[test]
fn add_mode_fills_from_the_named_output() {
    let (req, fallback) = add_mode(None, None, Some("60"), Some("DP-1"), None, &current()).unwrap();
    assert_eq!(req.width, "1280");
    assert_eq!(req.height, "720");
    assert_eq!(req.name, "1280x720_60");
    assert_eq!(req.display, "DP-1");
    assert_eq!(fallback.display, "DP-1");
    assert_eq!(fallback.rate, "50");
}

#[test]
fn snapshot_of_an_output() {
    let modes = current();
    assert_eq!(snapshot_for(None, &modes), Some(0));
    assert_eq!(snapshot_for(Some("HDMI-1"), &modes), Some(0));
    assert_eq!(snapshot_for(Some("DP-1"), &modes), Some(1));
    assert_eq!(snapshot_for(Some("VGA-1"), &modes), Some(0));
    assert_eq!(snapshot_for(Some("DP-1"), &Vec::new()), None);
    assert_eq!(snapshot_for(None, &Vec::new()), None);
}

#[test]
fn add_mode_needs_a_connected_output() {
    let r = add_mode(Some("1"), Some("2"), Some("3"), Some("d"), Some("n"), &Vec::new());
    assert_eq!(r.unwrap_err(), ModeError::NoConnectedOutput);
}

#[test]
fn add_steps_in_order() {
    let op = Operation::Add { test: true, save: true };
    assert_eq!(advance(op, Step::Register, Outcome::Succeeded), Step::Test);
    assert_eq!(advance(op, Step::Test, Outcome::Succeeded), Step::Save);
    assert_eq!(advance(op, Step::Save, Outcome::Succeeded), Step::Done);
    let op = Operation::Add { test: true, save: false };
    assert_eq!(advance(op, Step::Test, Outcome::Succeeded), Step::Done);
    let op = Operation::Add { test: false, save: false };
    assert_eq!(advance(op, Step::Register, Outcome::Succeeded), Step::Done);
}

#[test]
fn a_failed_step_ends_the_operation() {
    let op = Operation::Add { test: true, save: true };
    assert_eq!(advance(op, Step::Register, Outcome::Failed), Step::Failed);
    let op = Operation::Apply { test: false, persist: true };
    assert_eq!(advance(op, Step::Switch, Outcome::Failed), Step::Failed);
}

#[test]
fn apply_missing_mode_is_not_found() {
    let empty: Vec<CvtMode> = Vec::new();
    let r = apply_mode("missing", &empty, false, false);
    assert_eq!(r.unwrap_err(), StoreError::NotFound);
    let r = apply_mode("missing", &empty, true, true);
    assert_eq!(r.unwrap_err(), StoreError::NotFound);
}

#[test]
fn apply_with_test_and_timeout() {
    let req = InputMode::new("1920", "1080", "60", "HDMI-1", "fast");
    let target = gen_cvt_mode(&req, CVT_OUTPUT).unwrap();
    let store = save_mode(&target, Vec::new());
    let (mode, first) = apply_mode("fast", &store, true, false).unwrap();
    assert_eq!(first, Step::Test);

    let default_req = InputMode::new("1920", "1080", "60.00", "HDMI-1", "1920x1080");
    let default_mode = gen_cvt_mode(&default_req, CVT_OUTPUT).unwrap();
    let mut run = test_mode(&mode, &default_mode, "HDMI-1", Some("2"));
    let mut log: Vec<String> = Vec::new();
    for ev in [
        Event::Start,
        Event::SwitchReturned { ok: true },
        Event::TimerElapsed,
        Event::RevertReturned { ok: true },
    ] {
        let action = run.step(ev);
        match action {
            Action::SwitchToTarget { secs } => log.push(format!("timer {}", secs)),
            Action::AwaitTimer => log.push("wait".to_string()),
            Action::Finish { ok } => log.push(format!("finish {}", ok)),
            _ => {}
        }
        if let Some(args) = run.command(action) {
            log.push(args.join(" "));
        }
    }
    assert_eq!(
        log,
        vec![
            "timer 2",
            "--output HDMI-1 --mode fast",
            "wait",
            "--output HDMI-1 --mode 1920x1080",
            "finish true"
        ]
    );
    let op = Operation::Apply { test: true, persist: false };
    assert_eq!(advance(op, Step::Test, Outcome::Succeeded), Step::Prompt);
    assert_eq!(advance(op, Step::Prompt, keep_answer("ok\n")), Step::Prompt);
    assert_eq!(advance(op, Step::Prompt, keep_answer("y\n")), Step::Switch);
    assert_eq!(advance(op, Step::Prompt, keep_answer("n\n")), Step::Done);
    assert_eq!(advance(op, Step::Switch, Outcome::Succeeded), Step::Done);
}

#[test]
fn apply_without_test_switches_at_once() {
    let op = Operation::Apply { test: false, persist: true };
    assert_eq!(begin(op), Step::Switch);
    assert_eq!(advance(op, Step::Switch, Outcome::Succeeded), Step::Persist);
    assert_eq!(advance(op, Step::Persist, Outcome::Succeeded), Step::Done);
}

#[test]
fn answers_to_the_prompt() {
    assert_eq!(keep_answer("y"), Outcome::Keep);
    assert_eq!(keep_answer("n"), Outcome::Discard);
    assert_eq!(keep_answer("yes and no"), Outcome::Discard);
    assert_eq!(keep_answer(""), Outcome::Undecided);
    assert_eq!(keep_answer("ok\n"), Outcome::Undecided);
}

#[test]
fn store_path_as_given() {
    let p = filename_or_default(Some("/tmp/m.yml"), Some("/cfg"), Some("/home/u")).unwrap();
    assert_eq!(p.base, "/tmp/m.yml");
    assert!(p.segments.is_empty());
}

#[test]
fn store_path_under_config_home() {
    let p = filename_or_default(None, Some("/cfg"), Some("/home/u")).unwrap();
    assert_eq!(p.base, "/cfg");
    assert_eq!(p.segments, vec!["cathode", "modes.yml"]);
}

#[test]
fn store_path_under_home() {
    let p = filename_or_default(None, None, Some("/home/u")).unwrap();
    assert_eq!(p.base, "/home/u");
    assert_eq!(p.segments, vec![".config", "cathode", "modes.yml"]);
}

#[test]
fn store_path_unknown() {
    assert!(filename_or_default(None, None, None).is_none());
}
