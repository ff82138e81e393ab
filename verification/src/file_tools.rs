//! A file-tools skeleton: a current directory and a selection of files
//! under it. Paths are kept as plain strings; whoever constructs the
//! tools passes the user's home directory in, when there is one.

use vstd::prelude::*;
use crate::song::{join_path, join_under};

verus! {

pub struct FileTools {
    pub current_dir: String,
    pub selected_files: Vec<String>,
}

impl FileTools {
    /// Fresh tools rooted at the home directory, or at the filesystem
    /// root when none is known.
    pub fn new(home: Option<String>) -> (r: Self)
        ensures
            r.current_dir@ == match home {
                Some(h) => h@,
                None => "/"@,
            },
            r.selected_files@.len() == 0,
    {
        FileTools {
            current_dir: match home {
                Some(h) => h,
                None => "/".to_owned(),
            },
            selected_files: Vec::new(),
        }
    }

    /// Changing directory is not offered yet; nothing moves.
    pub fn change_directory(&mut self, _path: &str)
        ensures
            *final(self) == *old(self),
    {
    }

    /// Renaming in bulk is not offered yet; nothing is renamed.
    pub fn bulk_rename(&mut self, _pattern: &str, _replacement: &str)
        ensures
            *final(self) == *old(self),
    {
    }

    /// Adds the named file, resolved under the current directory, to the
    /// selection.
    pub fn select_file(&mut self, filename: &str)
        ensures
            final(self).current_dir == old(self).current_dir,
            final(self).selected_files@.len() == old(self).selected_files@.len() + 1,
            final(self).selected_files@.last()@ == join_under(
                old(self).current_dir@,
                filename@,
            ),
            forall|i: int|
                0 <= i < old(self).selected_files@.len() ==> final(self).selected_files@[i] == old(
                    self,
                ).selected_files@[i],
    {
        let path = join_path(self.current_dir.as_str(), filename);
        self.selected_files.push(path);
    }
}

} // verus!
