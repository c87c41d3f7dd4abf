//! The collection of saved modes: at most one record per name, the latest
//! save of a name replacing the earlier one.
use vstd::prelude::*;
use vstd::string::*;
use crate::mode::{CvtMode, CvtModeView, attach_args, define_args, new_mode, switch_args, switch_mode};
use crate::text::views;

verus! {

/// What can go wrong while the collection is consulted.
#[derive(Debug, Clone, Copy, PartialEq, Eq)]
pub enum StoreError {
    /// No saved mode has the requested name.
    NotFound,
}

/// The records of a collection, as mathematical values.
pub open spec fn records(v: Seq<CvtMode>) -> Seq<CvtModeView> {
    Seq::new(v.len(), |i: int| v[i]@)
}

/// How many records carry the name.
pub open spec fn count_named(s: Seq<CvtModeView>, name: Seq<char>) -> nat
    decreases s.len(),
{
    if s.len() == 0 {
        0
    } else if s.last().name == name {
        count_named(s.drop_last(), name) + 1
    } else {
        count_named(s.drop_last(), name)
    }
}

/// The collection without the records that carry the name, the others in
/// their order.
pub open spec fn without_name(s: Seq<CvtModeView>, name: Seq<char>) -> Seq<CvtModeView>
    decreases s.len(),
{
    if s.len() == 0 {
        Seq::<CvtModeView>::empty()
    } else if s.last().name == name {
        without_name(s.drop_last(), name)
    } else {
        without_name(s.drop_last(), name).push(s.last())
    }
}

/// The collection after a save: the records of other names, then the saved one.
pub open spec fn saved(s: Seq<CvtModeView>, m: CvtModeView) -> Seq<CvtModeView> {
    without_name(s, m.name).push(m)
}

/// The first record that carries the name, if any does.
pub open spec fn find_named(s: Seq<CvtModeView>, name: Seq<char>) -> Option<CvtModeView>
    decreases s.len(),
{
    if s.len() == 0 {
        None
    } else if s[0].name == name {
        Some(s[0])
    } else {
        find_named(s.skip(1), name)
    }
}

/// No name is carried by two records.
pub open spec fn unique_names(s: Seq<CvtModeView>) -> bool {
    forall|name: Seq<char>| #[trigger] count_named(s, name) <= 1
}

/// The collection that a run of saves builds, starting from nothing.
pub open spec fn after_saves(saves: Seq<CvtModeView>) -> Seq<CvtModeView>
    decreases saves.len(),
{
    if saves.len() == 0 {
        Seq::<CvtModeView>::empty()
    } else {
        saved(after_saves(saves.drop_last()), saves.last())
    }
}

/// The view of the outcome of a lookup.
pub open spec fn found_view(r: Result<CvtMode, StoreError>) -> Result<CvtModeView, StoreError> {
    match r {
        Ok(m) => Ok(m@),
        Err(e) => Err(e),
    }
}

/// The outcome that a lookup owes: the first record of that name, or `NotFound`.
pub open spec fn lookup(s: Seq<CvtModeView>, name: Seq<char>) -> Result<CvtModeView, StoreError> {
    match find_named(s, name) {
        Some(m) => Ok(m),
        None => Err(StoreError::NotFound),
    }
}

/// The collection that a file's content stands for: the list it parsed to,
/// or the empty collection where it did not parse.
pub fn import_all_modes(parsed: Option<Vec<CvtMode>>) -> (modes: Vec<CvtMode>)
    ensures
        match parsed {
            Some(v) => modes == v,
            None => modes@.len() == 0,
        },
{
    match parsed {
        Some(v) => v,
        None => Vec::new(),
    }
}

/// Saves `mode` into the collection: every record of the same name leaves,
/// and the mode is appended.
pub fn save_mode(mode: &CvtMode, modes: Vec<CvtMode>) -> (out: Vec<CvtMode>)
    ensures
        records(out@) == saved(records(modes@), mode@),
        unique_names(records(modes@)) ==> unique_names(records(out@)),
        count_named(records(out@), mode.name@) == 1,
{
    let mut out: Vec<CvtMode> = Vec::new();
    let mut i: usize = 0;
    assert(records(modes@).take(0) =~= Seq::<CvtModeView>::empty());
    assert(records(out@) =~= Seq::<CvtModeView>::empty());
    while i < modes.len()
        invariant
            i <= modes.len(),
            records(out@) == without_name(records(modes@).take(i as int), mode.name@),
        decreases modes.len() - i,
    {
        let ghost before = records(out@);
        proof {
            assert(records(modes@).take(i + 1).drop_last() =~= records(modes@).take(i as int));
            assert(records(modes@).take(i + 1).last() == modes[i as int]@);
        }
        if !(modes[i].name == mode.name) {
            out.push(modes[i].clone());
            assert(records(out@) =~= before.push(modes[i as int]@));
        }
        i = i + 1;
    }
    let ghost kept = records(out@);
    out.push(mode.clone());
    proof {
        assert(records(modes@).take(modes.len() as int) =~= records(modes@));
        assert(records(out@) =~= kept.push(mode@));
        lemma_save_counts(records(modes@), mode@);
        if unique_names(records(modes@)) {
            lemma_save_keeps_unique(records(modes@), mode@);
        }
    }
    out
}

/// Looks a mode up by its exact name: the first record that carries it.
pub fn get_mode(name: &str, modes: &Vec<CvtMode>) -> (r: Result<CvtMode, StoreError>)
    ensures
        found_view(r) == lookup(records(modes@), name@),
{
    let key = String::from_str(name);
    let mut i: usize = 0;
    assert(records(modes@).skip(0) =~= records(modes@));
    while i < modes.len()
        invariant
            i <= modes.len(),
            key@ == name@,
            find_named(records(modes@), name@) == find_named(records(modes@).skip(i as int), name@),
        decreases modes.len() - i,
    {
        proof {
            assert(records(modes@).skip(i as int)[0] == modes[i as int]@);
            assert(records(modes@).skip(i as int).skip(1) =~= records(modes@).skip(i + 1));
        }
        if modes[i].name == key {
            return Ok(modes[i].clone());
        }
        i = i + 1;
    }
    Err(StoreError::NotFound)
}

/// The line of a script that runs the display tool with the arguments: the
/// tool's name, then each argument after one space.
pub open spec fn command_line(args: Seq<Seq<char>>) -> Seq<char>
    decreases args.len(),
{
    if args.len() == 0 {
        "xrandr"@
    } else {
        command_line(args.drop_last()) + seq![' '] + args.last()
    }
}

/// The lines that set a mode on an output at login: the one that defines
/// the mode, the one that offers it on the output, and the one that
/// switches the output to it.
pub open spec fn activation_record(m: CvtModeView, display: Seq<char>) -> Seq<Seq<char>> {
    seq![
        command_line(define_args(m)),
        command_line(attach_args(m.name, display)),
        command_line(switch_args(m.name, display)),
    ]
}

/// The line of a script that runs the display tool with the arguments.
pub fn command_text(args: &Vec<String>) -> (line: String)
    ensures
        line@ == command_line(views(args@)),
{
    let mut line = String::from_str("xrandr");
    let mut i: usize = 0;
    assert(views(args@).take(0).len() == 0);
    while i < args.len()
        invariant
            i <= args.len(),
            line@ == command_line(views(args@).take(i as int)),
        decreases args.len() - i,
    {
        proof {
            reveal_strlit(" ");
            assert(" "@ =~= seq![' ']);
            assert(views(args@).take(i + 1).drop_last() =~= views(args@).take(i as int));
            assert(views(args@).take(i + 1).last() == args[i as int]@);
        }
        line.append(" ");
        line.append(args[i].as_str());
        i = i + 1;
    }
    assert(views(args@).take(args.len() as int) =~= views(args@));
    line
}

/// The lines to append to the login script so that `mode` is set on
/// `display` at login.
pub fn save_mode_persistent(mode: &CvtMode, display: &str) -> (lines: Vec<String>)
    ensures
        views(lines@) == activation_record(mode@, display@),
{
    let (define, attach) = new_mode(mode, display);
    let switch = switch_mode(mode.get_name(), display);
    let mut lines: Vec<String> = Vec::new();
    lines.push(command_text(&define));
    lines.push(command_text(&attach));
    lines.push(command_text(&switch));
    assert(views(lines@) =~= activation_record(mode@, display@));
    lines
}

/// Counting after a removal: the removed name is gone, every other name
/// keeps its count.
pub proof fn lemma_without_name_counts(s: Seq<CvtModeView>, name: Seq<char>, other: Seq<char>)
    ensures
        count_named(without_name(s, name), other) == if other == name {
            0
        } else {
            count_named(s, other)
        },
    decreases s.len(),
{
    if s.len() > 0 {
        lemma_without_name_counts(s.drop_last(), name, other);
        if s.last().name != name {
            assert(without_name(s.drop_last(), name).push(s.last()).drop_last() =~= without_name(
                s.drop_last(),
                name,
            ));
        }
    }
}

/// Counting after a save: the saved name occurs once, every other name
/// keeps its count.
pub proof fn lemma_save_counts(s: Seq<CvtModeView>, m: CvtModeView)
    ensures
        count_named(saved(s, m), m.name) == 1,
        forall|other: Seq<char>|
            other != m.name ==> #[trigger] count_named(saved(s, m), other) == count_named(s, other),
{
    assert(saved(s, m).drop_last() =~= without_name(s, m.name));
    lemma_without_name_counts(s, m.name, m.name);
    assert forall|other: Seq<char>| other != m.name implies #[trigger] count_named(
        saved(s, m),
        other,
    ) == count_named(s, other) by {
        lemma_without_name_counts(s, m.name, other);
    }
}

/// A save into a collection without repeated names leaves none repeated.
pub proof fn lemma_save_keeps_unique(s: Seq<CvtModeView>, m: CvtModeView)
    requires
        unique_names(s),
    ensures
        unique_names(saved(s, m)),
{
    lemma_save_counts(s, m);
    assert forall|name: Seq<char>| #[trigger] count_named(saved(s, m), name) <= 1 by {
        if name != m.name {
            assert(count_named(s, name) <= 1);
        }
    }
}

/// Whatever is saved, in whatever order, the collection built from nothing
/// never holds two records of one name.
pub proof fn lemma_saves_unique(saves: Seq<CvtModeView>)
    ensures
        unique_names(after_saves(saves)),
    decreases saves.len(),
{
    if saves.len() > 0 {
        lemma_saves_unique(saves.drop_last());
        lemma_save_keeps_unique(after_saves(saves.drop_last()), saves.last());
    }
}

/// A record at some position makes the count of its name at least one.
pub proof fn lemma_count_positive(s: Seq<CvtModeView>, i: int)
    requires
        0 <= i < s.len(),
    ensures
        count_named(s, s[i].name) >= 1,
    decreases s.len(),
{
    if i < s.len() - 1 {
        lemma_count_positive(s.drop_last(), i);
    }
}

/// In a collection without repeated names, records at two different
/// positions differ in name.
pub proof fn lemma_unique_names_distinct(s: Seq<CvtModeView>, i: int, j: int)
    requires
        unique_names(s),
        0 <= i < j < s.len(),
    ensures
        s[i].name != s[j].name,
    decreases s.len(),
{
    if j < s.len() - 1 {
        assert forall|name: Seq<char>| #[trigger] count_named(s.drop_last(), name) <= 1 by {
            assert(count_named(s, name) <= 1);
        }
        lemma_unique_names_distinct(s.drop_last(), i, j);
    } else {
        lemma_count_positive(s.drop_last(), i);
        assert(count_named(s, s[j].name) <= 1);
    }
}

/// A record appended to a collection that lacks its name is the one that a
/// lookup of the name finds.
pub proof fn lemma_find_appended(s: Seq<CvtModeView>, m: CvtModeView)
    requires
        count_named(s, m.name) == 0,
    ensures
        find_named(s.push(m), m.name) == Some(m),
    decreases s.len(),
{
    if s.len() > 0 {
        lemma_count_positive(s, 0);
        assert(s[0].name != m.name);
        assert(s.push(m).skip(1) =~= s.skip(1).push(m));
        assert(count_named(s.skip(1), m.name) == 0) by {
            lemma_count_skip_first(s, m.name);
        }
        lemma_find_appended(s.skip(1), m);
    }
}

/// Dropping the first record lowers the count of its name by one and leaves
/// the other counts.
pub proof fn lemma_count_skip_first(s: Seq<CvtModeView>, name: Seq<char>)
    requires
        s.len() > 0,
    ensures
        count_named(s, name) == count_named(s.skip(1), name) + if s[0].name == name {
            1nat
        } else {
            0nat
        },
    decreases s.len(),
{
    if s.len() == 1 {
        assert(s.skip(1) =~= s.drop_last());
    } else {
        lemma_count_skip_first(s.drop_last(), name);
        assert(s.drop_last().skip(1) =~= s.skip(1).drop_last());
    }
}

/// A saved mode is the one that a lookup of its name finds, equal to it in
/// every field.
pub proof fn lemma_save_then_find(s: Seq<CvtModeView>, m: CvtModeView)
    ensures
        lookup(saved(s, m), m.name) == Ok::<CvtModeView, StoreError>(m),
{
    lemma_without_name_counts(s, m.name, m.name);
    lemma_find_appended(without_name(s, m.name), m);
}

/// Two saves under one name leave the record of the second and none of the
/// first: the collection is the one that the second save alone gives.
pub proof fn lemma_save_twice(s: Seq<CvtModeView>, first: CvtModeView, second: CvtModeView)
    requires
        first.name == second.name,
    ensures
        saved(saved(s, first), second) == saved(s, second),
        count_named(saved(saved(s, first), second), second.name) == 1,
        lookup(saved(saved(s, first), second), second.name) == Ok::<CvtModeView, StoreError>(second),
{
    lemma_without_name_twice(s, first.name);
    assert(saved(s, first).drop_last() =~= without_name(s, first.name));
    lemma_save_counts(saved(s, first), second);
    lemma_save_then_find(saved(s, first), second);
}

/// Removing a name twice removes no more than removing it once.
pub proof fn lemma_without_name_twice(s: Seq<CvtModeView>, name: Seq<char>)
    ensures
        without_name(without_name(s, name), name) == without_name(s, name),
    decreases s.len(),
{
    if s.len() > 0 {
        lemma_without_name_twice(s.drop_last(), name);
        if s.last().name != name {
            assert(without_name(s.drop_last(), name).push(s.last()).drop_last() =~= without_name(
                s.drop_last(),
                name,
            ));
        }
    }
}

} // verus!
