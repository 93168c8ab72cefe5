use vstd::prelude::*;
use crate::dirpath::DirPath;

verus! {

/// The navigator's whole mutable state. `current_dir` is the directory the
/// left pane lists; `left_selected` is the highlighted index into that
/// listing, when any; `right_selected` is reserved for the right pane and is
/// never set by any key the navigator knows; `selected_path` remembers the
/// last entry confirmed with the enter key, read once after the loop exits
/// to emit the shell hand-off line.
pub struct AppState {
    pub current_dir: DirPath,
    pub left_selected: Option<usize>,
    pub right_selected: Option<usize>,
    pub selected_path: Option<DirPath>,
}

/// The abstract value of the state: paths as component sequences and
/// selections as mathematical indices.
pub ghost struct StateModel {
    pub current_dir: Seq<Seq<char>>,
    pub left_selected: Option<int>,
    pub right_selected: Option<int>,
    pub selected_path: Option<Seq<Seq<char>>>,
}

/// The state every run starts from: the working directory `.`, the first
/// entry selected, nothing previewed and nothing confirmed yet.
pub open spec fn initial_model() -> StateModel {
    StateModel {
        current_dir: seq!["."@],
        left_selected: Some(0),
        right_selected: None,
        selected_path: None,
    }
}

impl AppState {
    pub open spec fn model(&self) -> StateModel {
        StateModel {
            current_dir: self.current_dir@,
            left_selected: match self.left_selected {
                Some(i) => Some(i as int),
                None => None,
            },
            right_selected: match self.right_selected {
                Some(i) => Some(i as int),
                None => None,
            },
            selected_path: match self.selected_path {
                Some(p) => Some(p@),
                None => None,
            },
        }
    }

    /// A fresh state, as the navigator starts.
    pub fn new() -> (r: AppState)
        ensures
            r.model() == initial_model(),
    {
        AppState {
            current_dir: DirPath::new("."),
            left_selected: Some(0),
            right_selected: None,
            selected_path: None,
        }
    }
}

} // verus!
