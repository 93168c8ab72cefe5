use vstd::prelude::*;
use vstd::string::*;
use crate::dirpath::{joined, DirPath};

verus! {

/// The text of the shell hand-off line for a path: a change-directory
/// instruction naming the path, for the invoking shell to evaluate.
pub open spec fn handoff_text(p: Seq<Seq<char>>) -> Seq<char> {
    "cd \""@ + joined(p) + "\""@
}

/// The one line the navigator may print for the invoking shell after the
/// loop has exited: the change-directory instruction for the last confirmed
/// path. It exists exactly when an entry was confirmed and that path
/// denotes a directory (`is_directory` is the caller's answer for the
/// recorded path); a confirmed file never produces a line.
pub fn handoff_line(selected: &Option<DirPath>, is_directory: bool) -> (r: Option<String>)
    ensures
        match selected {
            Some(p) => if is_directory {
                r matches Some(s) && s@ == handoff_text(p@)
            } else {
                r is None
            },
            None => r is None,
        },
{
    match selected {
        Some(p) => {
            if is_directory {
                let mut s = "cd \"".to_owned();
                let shown = p.display_string();
                s.append(shown.as_str());
                s.append("\"");
                Some(s)
            } else {
                None
            }
        },
        None => None,
    }
}

} // verus!
