//! The watched file and where its backup goes.
use vstd::prelude::*;
use crate::paths::{base_name, file_name_of, join_path, joined};

verus! {

/// The file that is watched, the directory it is mirrored into, and the
/// backup file path derived from the two once at startup.
pub struct WatchTarget {
    pub source_path: String,
    pub destination_dir: String,
    pub destination_file_path: String,
}

/// The backup path of `source` in `dir`: the directory joined with the
/// source's file name.
pub open spec fn backup_path_of(source: Seq<char>, dir: Seq<char>) -> Option<Seq<char>> {
    match file_name_of(source) {
        Some(n) => Some(joined(dir, n)),
        None => None,
    }
}

impl WatchTarget {
    /// The backup file path is the destination directory joined with the
    /// source's file name.
    pub open spec fn wf(&self) -> bool {
        backup_path_of(self.source_path@, self.destination_dir@) == Some(
            self.destination_file_path@,
        )
    }

    /// The target for `source` and `destination_dir`; none when the source
    /// path has no file name.
    pub fn new(source: &str, destination_dir: &str) -> (r: Option<WatchTarget>)
        ensures
            r is Some <==> backup_path_of(source@, destination_dir@) is Some,
            r matches Some(t) ==> t.wf() && t.source_path@ == source@ && t.destination_dir@
                == destination_dir@,
    {
        match base_name(source) {
            Some(name) => {
                let dest = join_path(destination_dir, name.as_str());
                Some(
                    WatchTarget {
                        source_path: String::from_str(source),
                        destination_dir: String::from_str(destination_dir),
                        destination_file_path: dest,
                    },
                )
            },
            None => None,
        }
    }
}

} // verus!
