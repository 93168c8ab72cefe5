use vstd::prelude::*;
use crate::dirpath::DirPath;
use crate::listing::DirEntry;
use crate::state::AppState;

verus! {

/// A full description of one frame: two side-by-side panes, each a titled
/// list of entries with an optionally highlighted index. Drawing it is the
/// surrounding loop's business; computing it never changes the state.
pub struct Frame {
    pub left_title: String,
    pub left_entries: Vec<DirEntry>,
    pub left_selected: Option<usize>,
    pub right_title: String,
    pub right_entries: Vec<DirEntry>,
    pub right_selected: Option<usize>,
}

/// The directory the right pane previews: the selected entry's path when
/// the selection is a valid index and that entry is a directory, and
/// nothing otherwise. The caller lists the returned path (with the usual
/// fallback) and hands the result to `compute_frame`.
pub fn preview_target(state: &AppState, contents: &Vec<DirEntry>) -> (r: Option<DirPath>)
    ensures
        match state.left_selected {
            Some(i) => if i < contents@.len() && contents@[i as int].is_directory {
                r matches Some(p) && p@ == state.current_dir@.push(contents@[i as int].name@)
            } else {
                r is None
            },
            None => r is None,
        },
{
    if let Some(i) = state.left_selected {
        if i < contents.len() {
            let entry = &contents[i];
            if entry.is_directory {
                return Some(state.current_dir.join(entry.name.as_str()));
            }
        }
    }
    None
}

/// Builds the frame for the current state: the left pane holds the current
/// directory's entries with the selection highlighted, the right pane holds
/// the previewed directory's entries when there is a preview and is empty
/// otherwise.
pub fn compute_frame(state: &AppState, contents: Vec<DirEntry>, preview: Option<Vec<DirEntry>>)
    -> (f: Frame)
    ensures
        f.left_title@ == "Current Directory"@,
        f.right_title@ == "Selected Directory"@,
        f.left_entries@ == contents@,
        f.left_selected == state.left_selected,
        f.right_selected == state.right_selected,
        preview matches Some(v) ==> f.right_entries@ == v@,
        preview is None ==> f.right_entries@.len() == 0,
{
    let right_entries = match preview {
        Some(v) => v,
        None => Vec::new(),
    };
    Frame {
        left_title: "Current Directory".to_owned(),
        left_entries: contents,
        left_selected: state.left_selected,
        right_title: "Selected Directory".to_owned(),
        right_entries,
        right_selected: state.right_selected,
    }
}

} // verus!
