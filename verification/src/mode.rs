//! Mode requests, timing modes, and the arguments handed to the display tools.
use vstd::prelude::*;
use vstd::string::*;
use crate::text::{views, split, split_on, tokens, tokens_of, is_word, lemma_tokens_of, Separator};

verus! {

/// What can go wrong while a mode is prepared.
#[derive(Debug, Clone, Copy, PartialEq, Eq)]
pub enum ModeError {
    /// The timing tool's output does not have the expected shape.
    MalformedCollaboratorOutput,
    /// No connected output was reported, so nothing can fill a missing field.
    NoConnectedOutput,
    /// The pattern for the status report was not accepted as a regular
    /// expression.
    PatternRejected,
}

/// A requested or reported mode: resolution, refresh rate, output and name.
#[derive(Debug)]
pub struct InputMode {
    pub width: String,
    pub height: String,
    pub rate: String,
    pub name: String,
    pub display: String,
}

/// The mathematical value of an [`InputMode`].
pub struct InputModeView {
    pub width: Seq<char>,
    pub height: Seq<char>,
    pub rate: Seq<char>,
    pub name: Seq<char>,
    pub display: Seq<char>,
}

impl View for InputMode {
    type V = InputModeView;

    open spec fn view(&self) -> InputModeView {
        InputModeView {
            width: self.width@,
            height: self.height@,
            rate: self.rate@,
            name: self.name@,
            display: self.display@,
        }
    }
}

impl Clone for InputMode {
    fn clone(&self) -> (m: InputMode)
        ensures
            m@ == self@,
    {
        InputMode {
            width: self.width.clone(),
            height: self.height.clone(),
            rate: self.rate.clone(),
            name: self.name.clone(),
            display: self.display.clone(),
        }
    }
}

impl InputMode {
    /// A mode with the given fields.
    pub fn new(width: &str, height: &str, rate: &str, display: &str, name: &str) -> (m: InputMode)
        ensures
            m@ == (InputModeView {
                width: width@,
                height: height@,
                rate: rate@,
                name: name@,
                display: display@,
            }),
    {
        InputMode {
            width: String::from_str(width),
            height: String::from_str(height),
            rate: String::from_str(rate),
            display: String::from_str(display),
            name: String::from_str(name),
        }
    }
}

/// A named set of timing parameters. The parameters are kept as text and
/// never interpreted.
#[derive(Debug)]
pub struct CvtMode {
    pub name: String,
    pub clock: String,
    pub h_disp: String,
    pub h_sync_start: String,
    pub h_sync_end: String,
    pub h_total: String,
    pub v_disp: String,
    pub v_sync_start: String,
    pub v_sync_end: String,
    pub v_total: String,
    pub flags: String,
}

/// The mathematical value of a [`CvtMode`].
pub struct CvtModeView {
    pub name: Seq<char>,
    pub clock: Seq<char>,
    pub h_disp: Seq<char>,
    pub h_sync_start: Seq<char>,
    pub h_sync_end: Seq<char>,
    pub h_total: Seq<char>,
    pub v_disp: Seq<char>,
    pub v_sync_start: Seq<char>,
    pub v_sync_end: Seq<char>,
    pub v_total: Seq<char>,
    pub flags: Seq<char>,
}

impl View for CvtMode {
    type V = CvtModeView;

    open spec fn view(&self) -> CvtModeView {
        CvtModeView {
            name: self.name@,
            clock: self.clock@,
            h_disp: self.h_disp@,
            h_sync_start: self.h_sync_start@,
            h_sync_end: self.h_sync_end@,
            h_total: self.h_total@,
            v_disp: self.v_disp@,
            v_sync_start: self.v_sync_start@,
            v_sync_end: self.v_sync_end@,
            v_total: self.v_total@,
            flags: self.flags@,
        }
    }
}

impl Clone for CvtMode {
    fn clone(&self) -> (m: CvtMode)
        ensures
            m@ == self@,
    {
        CvtMode {
            name: self.name.clone(),
            clock: self.clock.clone(),
            h_disp: self.h_disp.clone(),
            h_sync_start: self.h_sync_start.clone(),
            h_sync_end: self.h_sync_end.clone(),
            h_total: self.h_total.clone(),
            v_disp: self.v_disp.clone(),
            v_sync_start: self.v_sync_start.clone(),
            v_sync_end: self.v_sync_end.clone(),
            v_total: self.v_total.clone(),
            flags: self.flags.clone(),
        }
    }
}

impl CvtMode {
    /// The name under which the mode is known.
    pub fn get_name(&self) -> (name: &str)
        ensures
            name@ == self.name@,
    {
        self.name.as_str()
    }
}

/// The view of the outcome of a mode generation.
pub open spec fn generated_view(r: Result<CvtMode, ModeError>) -> Result<CvtModeView, ModeError> {
    match r {
        Ok(m) => Ok(m@),
        Err(e) => Err(e),
    }
}

/// The tokens of the timing line in the timing tool's output: the text after
/// the second double quote, up to the third if there is one, without its
/// first two characters and its last one. `None` where the output has fewer
/// than two double quotes or that text has fewer than three characters.
pub open spec fn timing_tokens(output: Seq<char>) -> Option<Seq<Seq<char>>> {
    let parts = split_on(output, Separator::Char('"'));
    if parts.len() < 3 || parts[2].len() < 3 {
        None
    } else {
        Some(tokens_of(parts[2].subrange(2, parts[2].len() - 1)))
    }
}

/// The mode that a timing line of exactly eleven tokens describes: nine
/// numeric fields in order, then the two flag tokens joined by one space.
pub open spec fn mode_of_tokens(name: Seq<char>, t: Seq<Seq<char>>) -> CvtModeView
    recommends
        t.len() == 11,
{
    CvtModeView {
        name,
        clock: t[0],
        h_disp: t[1],
        h_sync_start: t[2],
        h_sync_end: t[3],
        h_total: t[4],
        v_disp: t[5],
        v_sync_start: t[6],
        v_sync_end: t[7],
        v_total: t[8],
        flags: t[9] + seq![' '] + t[10],
    }
}

/// The mode that the timing tool's output describes, under the given name, or
/// the failure where the output does not hold exactly eleven tokens.
pub open spec fn cvt_mode_of(name: Seq<char>, output: Seq<char>) -> Result<CvtModeView, ModeError> {
    match timing_tokens(output) {
        Some(t) => if t.len() == 11 {
            Ok(mode_of_tokens(name, t))
        } else {
            Err(ModeError::MalformedCollaboratorOutput)
        },
        None => Err(ModeError::MalformedCollaboratorOutput),
    }
}

/// Whether each of the nine numeric fields is one word, and the flags are
/// two words with one space between them.
pub open spec fn fields_filled(m: CvtModeView) -> bool {
    &&& is_word(m.clock)
    &&& is_word(m.h_disp)
    &&& is_word(m.h_sync_start)
    &&& is_word(m.h_sync_end)
    &&& is_word(m.h_total)
    &&& is_word(m.v_disp)
    &&& is_word(m.v_sync_start)
    &&& is_word(m.v_sync_end)
    &&& is_word(m.v_total)
    &&& exists|a: Seq<char>, b: Seq<char>|
        is_word(a) && is_word(b) && #[trigger] (a + seq![' '] + b) == m.flags
}

/// Whether the timing line of the output holds exactly eleven tokens.
pub open spec fn has_timing_line(output: Seq<char>) -> bool {
    timing_tokens(output) is Some && timing_tokens(output).unwrap().len() == 11
}

/// An output whose timing line is missing, or holds fewer or more than
/// eleven tokens, gives no mode: nothing is cut short or filled in.
pub proof fn lemma_token_count_decides(name: Seq<char>, output: Seq<char>)
    ensures
        cvt_mode_of(name, output) is Ok <==> has_timing_line(output),
        !has_timing_line(output) ==> cvt_mode_of(name, output) == Err::<CvtModeView, ModeError>(
            ModeError::MalformedCollaboratorOutput,
        ),
        timing_tokens(output) is Some && timing_tokens(output).unwrap().len() < 11
            ==> cvt_mode_of(name, output) is Err,
{
}

/// A mode that was read from the timing tool's output has every field
/// filled: nine words and two flags.
pub proof fn lemma_generated_fields_filled(name: Seq<char>, output: Seq<char>)
    requires
        cvt_mode_of(name, output) is Ok,
    ensures
        fields_filled(cvt_mode_of(name, output).unwrap()),
{
    let parts = split_on(output, Separator::Char('"'));
    let t = timing_tokens(output).unwrap();
    lemma_tokens_of(parts[2].subrange(2, parts[2].len() - 1));
    let m = cvt_mode_of(name, output).unwrap();
    assert(is_word(t[0]) && is_word(t[1]) && is_word(t[2]) && is_word(t[3]) && is_word(t[4]));
    assert(is_word(t[5]) && is_word(t[6]) && is_word(t[7]) && is_word(t[8]));
    assert(is_word(t[9]) && is_word(t[10]));
    assert(t[9] + seq![' '] + t[10] == m.flags);
}

/// The arguments that make the display tool switch an output to a mode.
pub open spec fn switch_args(name: Seq<char>, display: Seq<char>) -> Seq<Seq<char>> {
    seq!["--output"@, display, "--mode"@, name]
}

/// The arguments that make the display tool define a mode: the command word,
/// the name, the nine numeric fields in order, and the flags.
pub open spec fn define_args(m: CvtModeView) -> Seq<Seq<char>> {
    seq![
        "--newmode"@,
        m.name,
        m.clock,
        m.h_disp,
        m.h_sync_start,
        m.h_sync_end,
        m.h_total,
        m.v_disp,
        m.v_sync_start,
        m.v_sync_end,
        m.v_total,
        m.flags,
    ]
}

/// The arguments that make the display tool offer a defined mode on an output.
pub open spec fn attach_args(name: Seq<char>, display: Seq<char>) -> Seq<Seq<char>> {
    seq!["--addmode"@, display, name]
}

/// The arguments of the command that switches `display` to the mode `name`.
pub fn switch_mode(name: &str, display: &str) -> (args: Vec<String>)
    ensures
        views(args@) == switch_args(name@, display@),
{
    let mut args: Vec<String> = Vec::new();
    args.push(String::from_str("--output"));
    args.push(String::from_str(display));
    args.push(String::from_str("--mode"));
    args.push(String::from_str(name));
    assert(views(args@) =~= switch_args(name@, display@));
    args
}

/// The arguments of the two commands that register a mode: the one that
/// defines it, then the one that offers it on `display`. The second is to be
/// run only after the first has succeeded.
pub fn new_mode(mode: &CvtMode, display: &str) -> (cmds: (Vec<String>, Vec<String>))
    ensures
        views(cmds.0@) == define_args(mode@),
        views(cmds.1@) == attach_args(mode.name@, display@),
{
    let mut define: Vec<String> = Vec::new();
    define.push(String::from_str("--newmode"));
    define.push(mode.name.clone());
    define.push(mode.clock.clone());
    define.push(mode.h_disp.clone());
    define.push(mode.h_sync_start.clone());
    define.push(mode.h_sync_end.clone());
    define.push(mode.h_total.clone());
    define.push(mode.v_disp.clone());
    define.push(mode.v_sync_start.clone());
    define.push(mode.v_sync_end.clone());
    define.push(mode.v_total.clone());
    define.push(mode.flags.clone());
    let mut attach: Vec<String> = Vec::new();
    attach.push(String::from_str("--addmode"));
    attach.push(String::from_str(display));
    attach.push(mode.name.clone());
    assert(views(define@) =~= define_args(mode@));
    assert(views(attach@) =~= attach_args(mode.name@, display@));
    (define, attach)
}

/// The arguments for the timing tool: width, height and rate, in this order.
pub fn cvt_args(input: &InputMode) -> (args: Vec<String>)
    ensures
        views(args@) == seq![input.width@, input.height@, input.rate@],
{
    let mut args: Vec<String> = Vec::new();
    args.push(input.width.clone());
    args.push(input.height.clone());
    args.push(input.rate.clone());
    assert(views(args@) =~= seq![input.width@, input.height@, input.rate@]);
    args
}

/// Reads the timing tool's output into a mode named after the request.
///
/// Fails unless the timing line holds exactly eleven tokens.
pub fn gen_cvt_mode(input: &InputMode, output: &str) -> (r: Result<CvtMode, ModeError>)
    ensures
        generated_view(r) == cvt_mode_of(input.name@, output@),
        r is Ok <==> has_timing_line(output@),
        r matches Err(e) ==> e == ModeError::MalformedCollaboratorOutput,
        r matches Ok(m) ==> fields_filled(m@),
{
    proof {
        if cvt_mode_of(input.name@, output@) is Ok {
            lemma_generated_fields_filled(input.name@, output@);
        }
    }
    let parts = split(output, Separator::Char('"'));
    if parts.len() < 3 {
        return Err(ModeError::MalformedCollaboratorOutput);
    }
    let section = parts[2].as_str();
    let len: usize = section.unicode_len();
    if len < 3 {
        return Err(ModeError::MalformedCollaboratorOutput);
    }
    let t = tokens(section.substring_char(2, len - 1));
    if t.len() != 11 {
        return Err(ModeError::MalformedCollaboratorOutput);
    }
    let mut flags = t[9].clone();
    flags.append(" ");
    flags.append(t[10].as_str());
    proof {
        reveal_strlit(" ");
        assert(" "@ =~= seq![' ']);
    }
    Ok(
        CvtMode {
            name: input.name.clone(),
            clock: t[0].clone(),
            h_disp: t[1].clone(),
            h_sync_start: t[2].clone(),
            h_sync_end: t[3].clone(),
            h_total: t[4].clone(),
            v_disp: t[5].clone(),
            v_sync_start: t[6].clone(),
            v_sync_end: t[7].clone(),
            v_total: t[8].clone(),
            flags,
        },
    )
}

} // verus!
