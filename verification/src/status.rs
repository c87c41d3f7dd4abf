//! The status parser: the modes that a display status report marks as active
//! or as default, one per connected output, in the order of the report.
use vstd::prelude::*;
use vstd::string::*;
use crate::mode::{InputMode, InputModeView, ModeError};
use crate::text::text_of;

verus! {

/// A compiled regular expression of the `regex` crate.
#[verifier::external_type_specification]
#[verifier::external_body]
pub struct ExRegex(regex::Regex);

/// The error with which the `regex` crate refuses a pattern.
#[verifier::external_type_specification]
#[verifier::external_body]
pub struct ExRegexError(regex::Error);

/// Whether `regex::Regex::new` accepts the pattern.
pub uninterp spec fn regex_accepts(pattern: Seq<char>) -> bool;

/// What `Regex::captures_iter` yields for a compiled expression on a text:
/// one row for each match, in order; in a row one entry for each group of
/// the expression, the whole match first, holding the text that the group
/// matched, if it took part in the match. The rows go by the expression as
/// it was compiled, with whatever options its builder was given, not by
/// its pattern text alone.
pub uninterp spec fn regex_rows(re: regex::Regex, text: Seq<char>) -> Seq<Seq<Option<Seq<char>>>>;

/// The rows that the expression which `regex::Regex::new` makes of a
/// pattern yields on a text. It says nothing of an expression that was
/// made in another way from the same pattern.
pub uninterp spec fn regex_captures(pattern: Seq<char>, text: Seq<char>) -> Seq<
    Seq<Option<Seq<char>>>,
>;

/// The text of a group.
pub open spec fn group_view(g: Option<String>) -> Option<Seq<char>> {
    match g {
        Some(s) => Some(s@),
        None => None,
    }
}

/// The texts of a row of groups.
pub open spec fn row_view(row: Vec<Option<String>>) -> Seq<Option<Seq<char>>> {
    Seq::new(row@.len(), |i: int| group_view(row@[i]))
}

/// The texts of the rows.
pub open spec fn rows_view(rows: Seq<Vec<Option<String>>>) -> Seq<Seq<Option<Seq<char>>>> {
    Seq::new(rows.len(), |i: int| row_view(rows[i]))
}

/// The values of a list of modes.
pub open spec fn mode_views(v: Seq<InputMode>) -> Seq<InputModeView> {
    Seq::new(v.len(), |i: int| v[i]@)
}

/// Calls `regex::Regex::new`. The contract claims that the same pattern is
/// always accepted or always refused, and that the expression made of an
/// accepted pattern, with the default options that `new` uses, finds on
/// every text what depends on the pattern and the text alone.
#[verifier::external_body]
pub(crate) fn compile(pattern: &str) -> (r: Result<regex::Regex, regex::Error>)
    ensures
        r is Ok <==> regex_accepts(pattern@),
        r matches Ok(re) ==> (forall|text: Seq<char>|
            #[trigger] regex_rows(re, text) == regex_captures(pattern@, text)),
{
    regex::Regex::new(pattern)
}

/// Calls `Regex::captures_iter` and copies out the text of every group of
/// every match. The contract claims that the rows depend on the compiled
/// expression and the text alone. It claims nothing of two expressions
/// with the same pattern text: options given to a builder change what is
/// found.
#[verifier::external_body]
pub(crate) fn captures(re: &regex::Regex, text: &str) -> (rows: Vec<Vec<Option<String>>>)
    ensures
        rows_view(rows@) == regex_rows(*re, text@),
{
    re.captures_iter(text).map(
        |c| c.iter().map(|g| g.map(|m| m.as_str().to_string())).collect(),
    ).collect()
}

/// Which of an output's modes is asked for.
#[derive(Debug, Clone, Copy, PartialEq, Eq, Structural)]
pub enum ModeKind {
    /// The mode that drives the output now.
    Active,
    /// The mode that the output suggests as its own.
    Default,
}

/// The pattern that finds, for a connected output, the line of the mode of
/// the given kind. Its groups are the output, the width, the height and the
/// rate.
pub open spec fn pattern_text(kind: ModeKind) -> Seq<char> {
    match kind {
        ModeKind::Active =>
            "(\\S+)\\s+connected.*\\n[[a-zA-Z0-9\\.]*\\n]*\\s*([0-9]+)x([0-9]+)\\s*([0-9]+\\.[0-9]+)\\*"@,
        ModeKind::Default =>
            "(\\S+)\\s+connected.*\\n[[a-zA-Z0-9\\.]*\\n]*\\s*([0-9]+)x([0-9]+)\\s*([0-9]+\\.[0-9]+)[\\*]?\\+"@,
    }
}

/// The pattern for a kind of mode.
pub fn pattern_for(kind: ModeKind) -> (pattern: &'static str)
    ensures
        pattern@ == pattern_text(kind),
{
    match kind {
        ModeKind::Active =>
            "(\\S+)\\s+connected.*\\n[[a-zA-Z0-9\\.]*\\n]*\\s*([0-9]+)x([0-9]+)\\s*([0-9]+\\.[0-9]+)\\*",
        ModeKind::Default =>
            "(\\S+)\\s+connected.*\\n[[a-zA-Z0-9\\.]*\\n]*\\s*([0-9]+)x([0-9]+)\\s*([0-9]+\\.[0-9]+)[\\*]?\\+",
    }
}

/// Whether a row names an output, a width, a height and a rate: groups one
/// to four took part in the match.
pub open spec fn row_complete(row: Seq<Option<Seq<char>>>) -> bool {
    row.len() >= 5 && row[1] is Some && row[2] is Some && row[3] is Some && row[4] is Some
}

/// The mode that a complete row reports: the output from the first group,
/// then width, height and rate; its name is width, `x`, height.
pub open spec fn mode_of_row(row: Seq<Option<Seq<char>>>) -> InputModeView
    recommends
        row_complete(row),
{
    InputModeView {
        width: row[2].unwrap(),
        height: row[3].unwrap(),
        rate: row[4].unwrap(),
        name: row[2].unwrap() + seq!['x'] + row[3].unwrap(),
        display: row[1].unwrap(),
    }
}

/// The modes that the rows report, in their order. A row that is not
/// complete reports none.
pub open spec fn modes_of_rows(rows: Seq<Seq<Option<Seq<char>>>>) -> Seq<InputModeView>
    decreases rows.len(),
{
    if rows.len() == 0 {
        Seq::<InputModeView>::empty()
    } else if row_complete(rows.last()) {
        modes_of_rows(rows.drop_last()).push(mode_of_row(rows.last()))
    } else {
        modes_of_rows(rows.drop_last())
    }
}

/// The mode that one row of groups reports, if the row is complete.
pub fn mode_from_row(row: &Vec<Option<String>>) -> (m: Option<InputMode>)
    ensures
        match m {
            Some(mode) => row_complete(row_view(*row)) && mode@ == mode_of_row(row_view(*row)),
            None => !row_complete(row_view(*row)),
        },
{
    if row.len() < 5 {
        return None;
    }
    match (&row[1], &row[2], &row[3], &row[4]) {
        (Some(display), Some(width), Some(height), Some(rate)) => {
            let mut name = width.clone();
            name.append("x");
            name.append(height.as_str());
            proof {
                reveal_strlit("x");
                assert("x"@ =~= seq!['x']);
                assert(row_view(*row)[1] == Some(display@));
                assert(row_view(*row)[2] == Some(width@));
                assert(row_view(*row)[3] == Some(height@));
                assert(row_view(*row)[4] == Some(rate@));
            }
            Some(
                InputMode {
                    width: width.clone(),
                    height: height.clone(),
                    rate: rate.clone(),
                    name,
                    display: display.clone(),
                },
            )
        },
        _ => {
            proof {
                assert(row_view(*row)[1] == group_view(row@[1]));
                assert(row_view(*row)[2] == group_view(row@[2]));
                assert(row_view(*row)[3] == group_view(row@[3]));
                assert(row_view(*row)[4] == group_view(row@[4]));
            }
            None
        },
    }
}

/// The modes that the rows of a search report, in the order of the rows.
pub fn modes_from_captures(rows: &Vec<Vec<Option<String>>>) -> (modes: Vec<InputMode>)
    ensures
        mode_views(modes@) == modes_of_rows(rows_view(rows@)),
{
    let mut modes: Vec<InputMode> = Vec::new();
    let mut i: usize = 0;
    assert(rows_view(rows@).take(0) =~= Seq::<Seq<Option<Seq<char>>>>::empty());
    assert(mode_views(modes@) =~= Seq::<InputModeView>::empty());
    while i < rows.len()
        invariant
            i <= rows.len(),
            mode_views(modes@) == modes_of_rows(rows_view(rows@).take(i as int)),
        decreases rows.len() - i,
    {
        let ghost before = mode_views(modes@);
        proof {
            assert(rows_view(rows@).take(i + 1).drop_last() =~= rows_view(rows@).take(i as int));
            assert(rows_view(rows@).take(i + 1).last() == row_view(rows[i as int]));
        }
        match mode_from_row(&rows[i]) {
            Some(mode) => {
                let ghost value = mode@;
                modes.push(mode);
                assert(mode_views(modes@) =~= before.push(value));
            },
            None => {},
        }
        i = i + 1;
    }
    assert(rows_view(rows@).take(rows.len() as int) =~= rows_view(rows@));
    modes
}

/// The modes that the matches of `re` in the report describe, in the order
/// in which they are found. Outputs for which nothing matches are left out.
/// What matches is decided by the expression as it was compiled.
pub fn get_modes_helper(re: &regex::Regex, report: &str) -> (modes: Vec<InputMode>)
    ensures
        mode_views(modes@) == modes_of_rows(regex_rows(*re, report@)),
{
    let rows = captures(re, report);
    modes_from_captures(&rows)
}

/// The view of the outcome of a status parse.
pub open spec fn parsed_view(r: Result<Vec<InputMode>, ModeError>) -> Result<
    Seq<InputModeView>,
    ModeError,
> {
    match r {
        Ok(v) => Ok(mode_views(v@)),
        Err(e) => Err(e),
    }
}

/// What a search of a report owes: the modes that the matches of the
/// pattern describe; none where there is no report, as on a system without
/// the display tool; `PatternRejected` where the pattern is not accepted.
pub open spec fn modes_matching(pattern: Seq<char>, report: Option<Seq<char>>) -> Result<
    Seq<InputModeView>,
    ModeError,
> {
    if regex_accepts(pattern) {
        match report {
            Some(text) => Ok(modes_of_rows(regex_captures(pattern, text))),
            None => Ok(Seq::<InputModeView>::empty()),
        }
    } else {
        Err(ModeError::PatternRejected)
    }
}

/// What a status parse owes for a kind of mode and a report: the search
/// with the kind's pattern.
pub open spec fn modes_in_report(kind: ModeKind, report: Option<Seq<char>>) -> Result<
    Seq<InputModeView>,
    ModeError,
> {
    modes_matching(pattern_text(kind), report)
}

/// The modes that the matches of a pattern in a report describe. The
/// pattern's first four groups are the output, the width, the height and
/// the rate.
pub fn find_modes(pattern: &str, report: Option<&str>) -> (r: Result<Vec<InputMode>, ModeError>)
    ensures
        parsed_view(r) == modes_matching(pattern@, text_of(report)),
{
    match compile(pattern) {
        Ok(re) => match report {
            Some(text) => Ok(get_modes_helper(&re, text)),
            None => {
                let modes: Vec<InputMode> = Vec::new();
                assert(mode_views(modes@) =~= Seq::<InputModeView>::empty());
                Ok(modes)
            },
        },
        Err(_) => Err(ModeError::PatternRejected),
    }
}

/// The modes of the given kind that a status report shows, one for each
/// connected output that has such a line, in the order of the report.
/// Without a report there are none.
pub fn parse_modes(report: Option<&str>, kind: ModeKind) -> (r: Result<Vec<InputMode>, ModeError>)
    ensures
        parsed_view(r) == modes_in_report(kind, text_of(report)),
{
    find_modes(pattern_for(kind), report)
}

/// The modes that are in use, by the report.
pub fn get_current_modes(report: Option<&str>) -> (r: Result<Vec<InputMode>, ModeError>)
    ensures
        parsed_view(r) == modes_in_report(ModeKind::Active, text_of(report)),
{
    parse_modes(report, ModeKind::Active)
}

/// The modes that the outputs suggest as their own, by the report.
pub fn get_default_modes(report: Option<&str>) -> (r: Result<Vec<InputMode>, ModeError>)
    ensures
        parsed_view(r) == modes_in_report(ModeKind::Default, text_of(report)),
{
    parse_modes(report, ModeKind::Default)
}

} // verus!
