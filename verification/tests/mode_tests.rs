use cathode::mode::{cvt_args, gen_cvt_mode, new_mode, switch_mode, CvtMode, InputMode, ModeError};

const CVT_OUTPUT: &str = "# 1920x1080 59.96 Hz (CVT 2.07M9) hsync: 67.16 kHz; pclk: 173.00 MHz\nModeline \"1920x1080_60.00\"  173.00  1920 2048 2248 2576  1080 1083 1088 1120 -hsync +vsync\n";

fn request() -> InputMode {
    InputMode::new("1920", "1080", "60", "HDMI-1", "1920x1080_60")
}

#[test]
fn input_mode_new_keeps_each_field() {
    let m = InputMode::new("1920", "1080", "60", "HDMI-1", "mine");
    assert_eq!(m.width, "1920");
    assert_eq!(m.height, "1080");
    assert_eq!(m.rate, "60");
    assert_eq!(m.display, "HDMI-1");
    assert_eq!(m.name, "mine");
}

#[test]
fn cvt_args_are_width_height_rate() {
    assert_eq!(cvt_args(&request()), vec!["1920", "1080", "60"]);
}

#[test]
fn gen_cvt_mode_reads_the_timing_line() {
    let m = gen_cvt_mode(&request(), CVT_OUTPUT).unwrap();
    assert_eq!(m.get_name(), "1920x1080_60");
    assert_eq!(m.clock, "173.00");
    assert_eq!(m.h_disp, "1920");
    assert_eq!(m.h_sync_start, "2048");
    assert_eq!(m.h_sync_end, "2248");
    assert_eq!(m.h_total, "2576");
    assert_eq!(m.v_disp, "1080");
    assert_eq!(m.v_sync_start, "1083");
    assert_eq!(m.v_sync_end, "1088");
    assert_eq!(m.v_total, "1120");
    assert_eq!(m.flags, "-hsync +vsync");
}

#[test]
fn gen_cvt_mode_fails_on_ten_tokens() {
    let out = "Modeline \"m\"  173.00  1920 2048 2248 2576  1080 1083 1088 1120 -hsync\n";
    assert_eq!(gen_cvt_mode(&request(), out).unwrap_err(), ModeError::MalformedCollaboratorOutput);
}

#[test]
fn gen_cvt_mode_fails_on_twelve_tokens() {
    let out = "Modeline \"m\"  173.00  1920 2048 2248 2576  1080 1083 1088 1120 -hsync +vsync extra\n";
    assert_eq!(gen_cvt_mode(&request(), out).unwrap_err(), ModeError::MalformedCollaboratorOutput);
}

#[test]
fn gen_cvt_mode_fails_without_quotes() {
    assert_eq!(gen_cvt_mode(&request(), "").unwrap_err(), ModeError::MalformedCollaboratorOutput);
    assert_eq!(
        gen_cvt_mode(&request(), "Modeline \"m 1 2 3 4 5 6 7 8 9 10 11").unwrap_err(),
        ModeError::MalformedCollaboratorOutput
    );
}

#[test]
fn gen_cvt_mode_fails_on_short_line() {
    assert_eq!(gen_cvt_mode(&request(), "a\"b\"cd").unwrap_err(), ModeError::MalformedCollaboratorOutput);
    assert_eq!(gen_cvt_mode(&request(), "a\"b\"").unwrap_err(), ModeError::MalformedCollaboratorOutput);
}

#[test]
fn gen_cvt_mode_drops_prefix_and_last_character() {
    // The first two characters and the last one of the line are not read.
    let out = "x\"y\"zz1 2 3 4 5 6 7 8 9 a bQ";
    let m = gen_cvt_mode(&request(), out).unwrap();
    assert_eq!(m.clock, "1");
    assert_eq!(m.flags, "a b");
}

#[test]
fn switch_mode_arguments() {
    assert_eq!(switch_mode("fast", "HDMI-1"), vec!["--output", "HDMI-1", "--mode", "fast"]);
}

#[test]
fn new_mode_arguments() {
    let m: CvtMode = gen_cvt_mode(&request(), CVT_OUTPUT).unwrap();
    let (define, attach) = new_mode(&m, "HDMI-1");
    assert_eq!(
        define,
        vec![
            "--newmode", "1920x1080_60", "173.00", "1920", "2048", "2248", "2576", "1080", "1083", "1088",
            "1120", "-hsync +vsync"
        ]
    );
    assert_eq!(attach, vec!["--addmode", "HDMI-1", "1920x1080_60"]);
}

#[test]
fn clone_keeps_every_field() {
    let m = gen_cvt_mode(&request(), CVT_OUTPUT).unwrap();
    let c = m.clone();
    assert_eq!(format!("{:?}", m), format!("{:?}", c));
}
