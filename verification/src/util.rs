//! Where the collection of saved modes is kept.
use vstd::prelude::*;
use vstd::string::*;
use crate::text::{views, text_of};

verus! {

/// The place of the file of saved modes: a base path, and the path segments
/// to append to it one after the other. With no segments the base is the
/// file itself; otherwise the last segment is the file and those before it
/// are directories.
#[derive(Debug)]
pub struct StorePath {
    pub base: String,
    pub segments: Vec<String>,
}

/// The base and the segments of the place that is chosen: the given file
/// name as it is; else the configuration directory, `cathode`, `modes.yml`;
/// else the home directory, `.config`, `cathode`, `modes.yml`; and nothing
/// where none of the three is known.
pub open spec fn chosen_path(
    given: Option<Seq<char>>,
    config_home: Option<Seq<char>>,
    home: Option<Seq<char>>,
) -> Option<(Seq<char>, Seq<Seq<char>>)> {
    match given {
        Some(f) => Some((f, Seq::<Seq<char>>::empty())),
        None => match config_home {
            Some(dir) => Some((dir, seq!["cathode"@, "modes.yml"@])),
            None => match home {
                Some(dir) => Some((dir, seq![".config"@, "cathode"@, "modes.yml"@])),
                None => None,
            },
        },
    }
}

/// The view of a chosen place.
pub open spec fn path_view(p: Option<StorePath>) -> Option<(Seq<char>, Seq<Seq<char>>)> {
    match p {
        Some(sp) => Some((sp.base@, views(sp.segments@))),
        None => None,
    }
}

/// Chooses the file of saved modes from a given file name and the two
/// directories that the environment may name.
pub fn filename_or_default(f: Option<&str>, config_home: Option<&str>, home: Option<&str>) -> (p:
    Option<StorePath>)
    ensures
        path_view(p) == chosen_path(text_of(f), text_of(config_home), text_of(home)),
{
    match f {
        Some(name) => {
            let segments: Vec<String> = Vec::new();
            assert(views(segments@) =~= Seq::<Seq<char>>::empty());
            Some(StorePath { base: String::from_str(name), segments })
        },
        None => {
            let mut segments: Vec<String> = Vec::new();
            let base = match config_home {
                Some(dir) => String::from_str(dir),
                None => match home {
                    Some(dir) => {
                        segments.push(String::from_str(".config"));
                        String::from_str(dir)
                    },
                    None => {
                        return None;
                    },
                },
            };
            segments.push(String::from_str("cathode"));
            segments.push(String::from_str("modes.yml"));
            proof {
                if config_home is Some {
                    assert(views(segments@) =~= seq!["cathode"@, "modes.yml"@]);
                } else {
                    assert(views(segments@) =~= seq![".config"@, "cathode"@, "modes.yml"@]);
                }
            }
            Some(StorePath { base, segments })
        },
    }
}

} // verus!
