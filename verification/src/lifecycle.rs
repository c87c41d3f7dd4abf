//! The two operations, add a mode and apply a saved mode, as decisions: what
//! is asked for, and which step follows which.
use vstd::prelude::*;
use vstd::string::*;
use crate::mode::{CvtMode, CvtModeView, InputMode, InputModeView, ModeError};
use crate::fileio::{StoreError, get_mode, records, find_named};
use crate::text::text_of;
use crate::status::mode_views;

verus! {

/// A step of an operation. The caller carries it out and reports how it went.
#[derive(Debug, Clone, Copy, PartialEq, Eq, Structural)]
pub enum Step {
    /// Define the mode and offer it on the output.
    Register,
    /// Try the mode for a while and go back to the fallback mode.
    Test,
    /// Ask whether the tried mode is to be kept.
    Prompt,
    /// Switch the output to the mode.
    Switch,
    /// Save the mode into the collection.
    Save,
    /// Arrange for the mode to be set at login.
    Persist,
    /// Nothing is left to do.
    Done,
    /// The operation stops where it failed; what was done stays done.
    Failed,
}

/// How a step went.
#[derive(Debug, Clone, Copy, PartialEq, Eq, Structural)]
pub enum Outcome {
    /// The step succeeded.
    Succeeded,
    /// The step failed.
    Failed,
    /// The answer to the prompt: keep the mode.
    Keep,
    /// The answer to the prompt: do not keep the mode.
    Discard,
    /// The answer to the prompt says neither.
    Undecided,
}

/// An operation with its options.
#[derive(Debug, Clone, Copy, PartialEq, Eq, Structural)]
pub enum Operation {
    /// Add a mode; try it first if `test`, save it if `save`.
    Add { test: bool, save: bool },
    /// Apply a saved mode; try it first if `test`, set it at login if `persist`.
    Apply { test: bool, persist: bool },
}

/// The step with which an operation begins.
pub open spec fn first_step(op: Operation) -> Step {
    match op {
        Operation::Add { test, save } => Step::Register,
        Operation::Apply { test, persist } => if test {
            Step::Test
        } else {
            Step::Switch
        },
    }
}

/// The step that follows `done`, given how it went.
///
/// A failed step ends the operation as failed. Adding runs register, then
/// the test if asked for, then the save if asked for. Applying runs the test
/// and the prompt if a test is asked for, then the switch unless the answer
/// was to discard, then the login entry if asked for. A prompt without a
/// clear answer is asked again. With a step that the operation does not
/// have, or that ends it, the operation is over.
pub open spec fn step_after(op: Operation, done: Step, outcome: Outcome) -> Step {
    if outcome == Outcome::Failed {
        Step::Failed
    } else {
        match op {
            Operation::Add { test, save } => match done {
                Step::Register => if test {
                    Step::Test
                } else if save {
                    Step::Save
                } else {
                    Step::Done
                },
                Step::Test => if save {
                    Step::Save
                } else {
                    Step::Done
                },
                Step::Failed => Step::Failed,
                _ => Step::Done,
            },
            Operation::Apply { test, persist } => match done {
                Step::Test => Step::Prompt,
                Step::Prompt => match outcome {
                    Outcome::Keep => Step::Switch,
                    Outcome::Discard => Step::Done,
                    _ => Step::Prompt,
                },
                Step::Switch => if persist {
                    Step::Persist
                } else {
                    Step::Done
                },
                Step::Failed => Step::Failed,
                _ => Step::Done,
            },
        }
    }
}

/// The step with which an operation begins.
pub fn begin(op: Operation) -> (step: Step)
    ensures
        step == first_step(op),
{
    match op {
        Operation::Add { test, save } => Step::Register,
        Operation::Apply { test, persist } => if test {
            Step::Test
        } else {
            Step::Switch
        },
    }
}

/// The step that follows `done`, given how it went.
pub fn advance(op: Operation, done: Step, outcome: Outcome) -> (step: Step)
    ensures
        step == step_after(op, done, outcome),
{
    match outcome {
        Outcome::Failed => {
            return Step::Failed;
        },
        _ => {},
    }
    match op {
        Operation::Add { test, save } => match done {
            Step::Register => if test {
                Step::Test
            } else if save {
                Step::Save
            } else {
                Step::Done
            },
            Step::Test => if save {
                Step::Save
            } else {
                Step::Done
            },
            Step::Failed => Step::Failed,
            _ => Step::Done,
        },
        Operation::Apply { test, persist } => match done {
            Step::Test => Step::Prompt,
            Step::Prompt => match outcome {
                Outcome::Keep => Step::Switch,
                Outcome::Discard => Step::Done,
                _ => Step::Prompt,
            },
            Step::Switch => if persist {
                Step::Persist
            } else {
                Step::Done
            },
            Step::Failed => Step::Failed,
            _ => Step::Done,
        },
    }
}

/// What an answer to the prompt says: to discard if it holds an `n`, else to
/// keep if it holds a `y`, else nothing.
pub open spec fn answer_of(input: Seq<char>) -> Outcome {
    if input.contains('n') {
        Outcome::Discard
    } else if input.contains('y') {
        Outcome::Keep
    } else {
        Outcome::Undecided
    }
}

/// Whether the text holds the character.
pub fn has_char(s: &str, c: char) -> (found: bool)
    ensures
        found == s@.contains(c),
{
    let n: usize = s.unicode_len();
    let mut i: usize = 0;
    while i < n
        invariant
            n == s@.len(),
            i <= n,
            forall|j: int| 0 <= j < i ==> s@[j] != c,
        decreases n - i,
    {
        if s.get_char(i) == c {
            return true;
        }
        i = i + 1;
    }
    false
}

/// Reads the answer to the prompt out of all that was typed so far.
pub fn keep_answer(input: &str) -> (outcome: Outcome)
    ensures
        outcome == answer_of(input@),
{
    if has_char(input, 'n') {
        Outcome::Discard
    } else if has_char(input, 'y') {
        Outcome::Keep
    } else {
        Outcome::Undecided
    }
}

/// A given value, or the one to fall back on.
pub open spec fn or_else(given: Option<Seq<char>>, fallback: Seq<char>) -> Seq<char> {
    match given {
        Some(s) => s,
        None => fallback,
    }
}

/// The request that the options and a reported mode make: each of
/// width, height, rate and output is the given one, or that of the reported
/// mode; the name is the given one, or width, `x`, height, `_`, rate.
pub open spec fn resolved(
    w: Option<Seq<char>>,
    h: Option<Seq<char>>,
    r: Option<Seq<char>>,
    d: Option<Seq<char>>,
    n: Option<Seq<char>>,
    current: InputModeView,
) -> InputModeView {
    let width = or_else(w, current.width);
    let height = or_else(h, current.height);
    let rate = or_else(r, current.rate);
    InputModeView {
        width,
        height,
        rate,
        name: or_else(n, width + seq!['x'] + height + seq!['_'] + rate),
        display: or_else(d, current.display),
    }
}

/// The position of the first mode on the output, or the number of modes
/// where none is on it.
pub open spec fn first_on(modes: Seq<InputModeView>, display: Seq<char>) -> int
    decreases modes.len(),
{
    if modes.len() == 0 {
        0
    } else if modes[0].display == display {
        0
    } else {
        1 + first_on(modes.skip(1), display)
    }
}

/// The position of the mode that stands for an output: the first mode on
/// the named output, if one is named and reported; otherwise the first mode
/// of all.
pub open spec fn snapshot_index(modes: Seq<InputModeView>, display: Option<Seq<char>>) -> int {
    match display {
        Some(d) => if first_on(modes, d) < modes.len() {
            first_on(modes, d)
        } else {
            0
        },
        None => 0,
    }
}

/// The first mode on an output is at `k` where no earlier mode is on it and
/// the mode at `k` is, or `k` is past the last mode.
pub proof fn lemma_first_on(modes: Seq<InputModeView>, display: Seq<char>, k: int)
    requires
        0 <= k <= modes.len(),
        forall|j: int| 0 <= j < k ==> (#[trigger] modes[j]).display != display,
        k < modes.len() ==> modes[k].display == display,
    ensures
        first_on(modes, display) == k,
    decreases modes.len(),
{
    if modes.len() > 0 && k > 0 {
        assert(modes[0].display != display);
        assert forall|j: int| 0 <= j < k - 1 implies (#[trigger] modes.skip(1)[j]).display
            != display by {
            assert(modes.skip(1)[j] == modes[j + 1]);
        }
        lemma_first_on(modes.skip(1), display, k - 1);
    }
}

/// The position of the mode that stands for an output, if any mode is
/// reported.
pub fn snapshot_for(display: Option<&str>, modes: &Vec<InputMode>) -> (at: Option<usize>)
    ensures
        match at {
            Some(i) => i < modes@.len() && i == snapshot_index(mode_views(modes@), text_of(display)),
            None => modes@.len() == 0,
        },
{
    if modes.len() == 0 {
        return None;
    }
    match display {
        Some(d) => {
            let key = String::from_str(d);
            let mut i: usize = 0;
            while i < modes.len()
                invariant
                    i <= modes.len(),
                    key@ == d@,
                    text_of(display) == Some(d@),
                    forall|j: int| 0 <= j < i ==> (#[trigger] mode_views(modes@)[j]).display != d@,
                decreases modes.len() - i,
            {
                if modes[i].display == key {
                    proof {
                        assert(mode_views(modes@)[i as int].display == d@);
                        assert(mode_views(modes@).len() == modes@.len());
                        lemma_first_on(mode_views(modes@), d@, i as int);
                    }
                    return Some(i);
                }
                proof {
                    assert(mode_views(modes@)[i as int].display != d@);
                }
                i = i + 1;
            }
            proof {
                lemma_first_on(mode_views(modes@), d@, modes@.len() as int);
            }
            Some(0)
        },
        None => Some(0),
    }
}

/// A given text, or a copy of the one to fall back on.
pub fn pick(given: Option<&str>, fallback: &String) -> (s: String)
    ensures
        s@ == or_else(text_of(given), fallback@),
{
    match given {
        Some(g) => String::from_str(g),
        None => fallback.clone(),
    }
}

/// The view of the outcome of a resolution: the request, and the mode to
/// fall back on.
pub open spec fn request_view(r: Result<(InputMode, InputMode), ModeError>) -> Result<
    (InputModeView, InputModeView),
    ModeError,
> {
    match r {
        Ok((m, f)) => Ok((m@, f@)),
        Err(e) => Err(e),
    }
}

/// What the beginning of an addition owes: the request resolved against the
/// mode that stands for the output, and that mode as the one to fall back
/// on; `NoConnectedOutput` where no mode is reported.
pub open spec fn add_request(
    w: Option<Seq<char>>,
    h: Option<Seq<char>>,
    r: Option<Seq<char>>,
    d: Option<Seq<char>>,
    n: Option<Seq<char>>,
    modes: Seq<InputModeView>,
) -> Result<(InputModeView, InputModeView), ModeError> {
    if modes.len() == 0 {
        Err(ModeError::NoConnectedOutput)
    } else {
        let current = modes[snapshot_index(modes, d)];
        Ok((resolved(w, h, r, d, n, current), current))
    }
}

/// Begins the addition of a mode: resolves what is asked for against the
/// modes now in use. The mode of the named output, or the first mode where
/// no output is named or the named one is not reported, fills what was not
/// given and is the mode to fall back on in a test.
///
/// Fails with `NoConnectedOutput` exactly where no mode is in use.
pub fn add_mode(
    w: Option<&str>,
    h: Option<&str>,
    r: Option<&str>,
    d: Option<&str>,
    n: Option<&str>,
    current_modes: &Vec<InputMode>,
) -> (request: Result<(InputMode, InputMode), ModeError>)
    ensures
        request_view(request) == add_request(
            text_of(w),
            text_of(h),
            text_of(r),
            text_of(d),
            text_of(n),
            mode_views(current_modes@),
        ),
{
    let at = match snapshot_for(d, current_modes) {
        Some(i) => i,
        None => {
            return Err(ModeError::NoConnectedOutput);
        },
    };
    let current = &current_modes[at];
    let width = pick(w, &current.width);
    let height = pick(h, &current.height);
    let rate = pick(r, &current.rate);
    let display = pick(d, &current.display);
    let name = match n {
        Some(given) => String::from_str(given),
        None => {
            let mut made = width.clone();
            made.append("x");
            made.append(height.as_str());
            made.append("_");
            made.append(rate.as_str());
            proof {
                reveal_strlit("x");
                reveal_strlit("_");
                assert("x"@ =~= seq!['x']);
                assert("_"@ =~= seq!['_']);
            }
            made
        },
    };
    Ok((InputMode { width, height, rate, name, display }, current.clone()))
}

/// The view of the outcome of the lookup that begins an application.
pub open spec fn applied_view(r: Result<(CvtMode, Step), StoreError>) -> Result<
    (CvtModeView, Step),
    StoreError,
> {
    match r {
        Ok((m, s)) => Ok((m@, s)),
        Err(e) => Err(e),
    }
}

/// Begins the application of a saved mode: finds it by name and says which
/// step comes first, the test or the switch.
///
/// Fails with `NotFound` exactly where no saved mode has the name; no step
/// is then handed out, so nothing is done to the display.
pub fn apply_mode(n: &str, modes: &Vec<CvtMode>, test: bool, persist: bool) -> (r: Result<
    (CvtMode, Step),
    StoreError,
>)
    ensures
        applied_view(r) == match find_named(records(modes@), n@) {
            Some(m) => Ok::<(CvtModeView, Step), StoreError>(
                (m, first_step(Operation::Apply { test, persist })),
            ),
            None => Err::<(CvtModeView, Step), StoreError>(StoreError::NotFound),
        },
{
    match get_mode(n, modes) {
        Ok(mode) => Ok((mode, begin(Operation::Apply { test, persist }))),
        Err(_) => Err(StoreError::NotFound),
    }
}

} // verus!
