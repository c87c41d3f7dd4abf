use cathode::mode::{InputMode, ModeError};
use cathode::status::{
    find_modes, get_current_modes, get_default_modes, get_modes_helper, modes_from_captures, parse_modes,
    pattern_for, ModeKind,
};

const REPORT: &str = "Screen 0: minimum 320 x 200, current 3840 x 1080, maximum 16384 x 16384\n\
HDMI-1 connected primary 1920x1080+0+0 (normal left inverted right x axis y axis) 527mm x 296mm\n   \
1920x1080     60.00*+  50.00    59.94\n   1280x720      60.00    50.00\n\
DP-1 disconnected (normal left inverted right x axis y axis)\n\
DP-2 connected 1920x1080+1920+0 (normal left inverted right x axis y axis) 527mm x 296mm\n   \
2560x1440     59.95*\n   1920x1080     74.97 +\n";

fn fields(m: &InputMode) -> (String, String, String, String, String) {
    (m.display.clone(), m.width.clone(), m.height.clone(), m.rate.clone(), m.name.clone())
}

fn owned(d: &str, w: &str, h: &str, r: &str, n: &str) -> (String, String, String, String, String) {
    (d.to_string(), w.to_string(), h.to_string(), r.to_string(), n.to_string())
}

#[test]
fn active_modes_of_a_report() {
    let modes = get_current_modes(Some(REPORT)).unwrap();
    assert!(!modes.is_empty());
    assert_eq!(fields(&modes[0]), owned("HDMI-1", "1920", "1080", "60.00", "1920x1080"));
}

#[test]
fn default_modes_of_a_report() {
    let modes = get_default_modes(Some(REPORT)).unwrap();
    assert!(!modes.is_empty());
    assert_eq!(fields(&modes[0]), owned("HDMI-1", "1920", "1080", "60.00", "1920x1080"));
}

#[test]
fn parse_modes_goes_by_kind() {
    let a = parse_modes(Some(REPORT), ModeKind::Active).unwrap();
    let b = get_current_modes(Some(REPORT)).unwrap();
    assert_eq!(a.len(), b.len());
    let d = parse_modes(Some(REPORT), ModeKind::Default).unwrap();
    let e = get_default_modes(Some(REPORT)).unwrap();
    assert_eq!(d.len(), e.len());
}

#[test]
fn report_without_connected_output_has_no_modes() {
    let report = "Screen 0: minimum 320 x 200\nDP-1 disconnected (normal left inverted)\n";
    assert!(get_current_modes(Some(report)).unwrap().is_empty());
    assert!(get_default_modes(Some(report)).unwrap().is_empty());
    assert!(get_current_modes(Some("")).unwrap().is_empty());
}

#[test]
fn no_report_means_no_modes() {
    assert!(get_current_modes(None).unwrap().is_empty());
    assert!(get_default_modes(None).unwrap().is_empty());
}

#[test]
fn every_connected_output_is_reported_in_order() {
    let active = get_current_modes(Some(REPORT)).unwrap();
    let shown: Vec<(String, String, String, String, String)> = active.iter().map(fields).collect();
    assert_eq!(
        shown,
        vec![
            owned("HDMI-1", "1920", "1080", "60.00", "1920x1080"),
            owned("DP-2", "2560", "1440", "59.95", "2560x1440"),
        ]
    );
    let defaults = get_default_modes(Some(REPORT)).unwrap();
    let shown: Vec<(String, String, String, String, String)> = defaults.iter().map(fields).collect();
    assert_eq!(shown, vec![owned("HDMI-1", "1920", "1080", "60.00", "1920x1080")]);
}

#[test]
fn helper_reads_groups_of_any_expression() {
    let re = regex::Regex::new("(\\w+):(\\d+)x(\\d+)@(\\d+)").unwrap();
    let modes = get_modes_helper(&re, "a:1x2@3 junk b:40x50@60");
    assert_eq!(modes.len(), 2);
    assert_eq!(fields(&modes[0]), owned("a", "1", "2", "3", "1x2"));
    assert_eq!(fields(&modes[1]), owned("b", "40", "50", "60", "40x50"));
}

#[test]
fn helper_skips_matches_that_lack_a_group() {
    let re = regex::Regex::new("(\\w+):(\\d+)x(\\d+)(?:@(\\d+))?").unwrap();
    let modes = get_modes_helper(&re, "a:1x2 b:4x5@6");
    assert_eq!(modes.len(), 1);
    assert_eq!(fields(&modes[0]), owned("b", "4", "5", "6", "4x5"));
}

#[test]
fn rows_become_modes() {
    let s = |t: &str| Some(t.to_string());
    let rows = vec![
        vec![s("whole"), s("HDMI-1"), s("1920"), s("1080"), s("60.00")],
        vec![s("short"), s("HDMI-2")],
        vec![s("hole"), s("DP-1"), None, s("1080"), s("60.00")],
        vec![s("more"), s("DP-2"), s("800"), s("600"), s("75.0"), s("extra")],
    ];
    let modes = modes_from_captures(&rows);
    assert_eq!(modes.len(), 2);
    assert_eq!(fields(&modes[0]), owned("HDMI-1", "1920", "1080", "60.00", "1920x1080"));
    assert_eq!(fields(&modes[1]), owned("DP-2", "800", "600", "75.0", "800x600"));
}

#[test]
fn patterns_are_accepted() {
    assert!(regex::Regex::new(pattern_for(ModeKind::Active)).is_ok());
    assert!(regex::Regex::new(pattern_for(ModeKind::Default)).is_ok());
    assert_ne!(pattern_for(ModeKind::Active), pattern_for(ModeKind::Default));
}

#[test]
fn a_rejected_pattern_is_reported() {
    assert_eq!(find_modes("(", Some(REPORT)).unwrap_err(), ModeError::PatternRejected);
    assert_eq!(find_modes("(", None).unwrap_err(), ModeError::PatternRejected);
}

#[test]
fn find_modes_with_a_pattern_of_its_own() {
    let modes = find_modes("(\\w+)=(\\d+)x(\\d+)@(\\d+)", Some("left=800x600@75 right=640x480@60")).unwrap();
    assert_eq!(modes.len(), 2);
    assert_eq!(fields(&modes[0]), owned("left", "800", "600", "75", "800x600"));
    assert_eq!(fields(&modes[1]), owned("right", "640", "480", "60", "640x480"));
    assert!(find_modes("(\\w+)=(\\d+)x(\\d+)@(\\d+)", None).unwrap().is_empty());
}

#[test]
fn helper_goes_by_the_compiled_expression() {
    let pattern = "(out):(\\d+)x(\\d+)@(\\d+)";
    let plain = regex::Regex::new(pattern).unwrap();
    let relaxed = regex::RegexBuilder::new(pattern).case_insensitive(true).build().unwrap();
    assert_eq!(plain.as_str(), relaxed.as_str());
    let report = "OUT:1x2@3 out:4x5@6";
    let strict = get_modes_helper(&plain, report);
    assert_eq!(strict.len(), 1);
    assert_eq!(fields(&strict[0]), owned("out", "4", "5", "6", "4x5"));
    let loose = get_modes_helper(&relaxed, report);
    assert_eq!(loose.len(), 2);
    assert_eq!(fields(&loose[0]), owned("OUT", "1", "2", "3", "1x2"));
    let found = find_modes(pattern, Some(report)).unwrap();
    assert_eq!(found.len(), 1);
    assert_eq!(fields(&found[0]), owned("out", "4", "5", "6", "4x5"));
}
