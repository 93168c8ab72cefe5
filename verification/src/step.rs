use vstd::prelude::*;
use vstd::arithmetic::div_mod::{lemma_add_mod_noop, lemma_mod_multiples_vanish, lemma_small_mod};
use crate::dirpath::DirPath;
use crate::listing::{listing_model, DirEntry, EntryModel};
use crate::state::{AppState, StateModel};

verus! {

/// One keyboard event, as the loop understands it. Every key the navigator
/// does not know collapses to `Other`.
#[derive(Clone, Copy, PartialEq, Eq, Structural, Debug)]
pub enum Key {
    Quit,
    Down,
    Up,
    Enter,
    Backspace,
    Other,
}

/// What one step asks the surrounding loop to do: stop, and/or hand a path
/// to the OS default handler. A failure of that handler is logged by the
/// loop and never comes back to the state machine.
pub struct StepOutcome {
    pub quit: bool,
    pub open_target: Option<DirPath>,
}

/// The abstract value of a step's outcome.
pub ghost struct OutcomeModel {
    pub quit: bool,
    pub open_target: Option<Seq<Seq<char>>>,
}

impl StepOutcome {
    pub open spec fn model(&self) -> OutcomeModel {
        OutcomeModel {
            quit: self.quit,
            open_target: match self.open_target {
                Some(p) => Some(p@),
                None => None,
            },
        }
    }
}

/// An outcome that neither stops the loop nor opens anything.
pub open spec fn no_action() -> OutcomeModel {
    OutcomeModel { quit: false, open_target: None }
}

/// The navigator's whole transition table: what one key does to the state,
/// given the listing of the current directory read at the moment the key is
/// processed.
///
/// Down and up move the selection cyclically through a non-empty listing
/// and do nothing on an empty one. Enter on a valid selection records the
/// selected entry's path and asks to open it; when the entry is a
/// directory it also descends into it and selects its first entry.
/// Backspace pops the last path component unless the path is already a
/// root. Every other key changes nothing.
pub open spec fn step_model(pre: StateModel, key: Key, listing: Seq<EntryModel>) -> (StateModel,
    OutcomeModel) {
    let n = listing.len() as int;
    match key {
        Key::Quit => (pre, OutcomeModel { quit: true, open_target: None }),
        Key::Down => match pre.left_selected {
            Some(i) => if n > 0 {
                (
                    StateModel {
                        current_dir: pre.current_dir,
                        left_selected: Some((i + 1) % n),
                        right_selected: None,
                        selected_path: pre.selected_path,
                    },
                    no_action(),
                )
            } else {
                (pre, no_action())
            },
            None => (pre, no_action()),
        },
        Key::Up => match pre.left_selected {
            Some(i) => if n > 0 {
                (
                    StateModel {
                        current_dir: pre.current_dir,
                        left_selected: Some((i - 1 + n) % n),
                        right_selected: None,
                        selected_path: pre.selected_path,
                    },
                    no_action(),
                )
            } else {
                (pre, no_action())
            },
            None => (pre, no_action()),
        },
        Key::Enter => match pre.left_selected {
            Some(i) => if 0 <= i < n {
                let target = pre.current_dir.push(listing[i].name);
                if listing[i].is_directory {
                    (
                        StateModel {
                            current_dir: target,
                            left_selected: Some(0),
                            right_selected: None,
                            selected_path: Some(target),
                        },
                        OutcomeModel { quit: false, open_target: Some(target) },
                    )
                } else {
                    (
                        StateModel {
                            current_dir: pre.current_dir,
                            left_selected: pre.left_selected,
                            right_selected: pre.right_selected,
                            selected_path: Some(target),
                        },
                        OutcomeModel { quit: false, open_target: Some(target) },
                    )
                }
            } else {
                (pre, no_action())
            },
            None => (pre, no_action()),
        },
        Key::Backspace => if pre.current_dir.len() > 1 {
            (
                StateModel {
                    current_dir: pre.current_dir.drop_last(),
                    left_selected: Some(0),
                    right_selected: None,
                    selected_path: pre.selected_path,
                },
                no_action(),
            )
        } else {
            (pre, no_action())
        },
        Key::Other => (pre, no_action()),
    }
}

/// Stepping a selection index forward through `n` entries can be computed
/// on machine integers by reducing the index first.
proof fn lemma_down_index(i: int, n: int)
    requires
        0 <= i,
        n > 0,
    ensures
        (i % n + 1) % n == (i + 1) % n,
{
    if n == 1 {
        assert((i % n + 1) % n == (i + 1) % n) by (nonlinear_arith)
            requires
                n == 1,
                i >= 0,
        ;
    } else {
        lemma_small_mod(1, n as nat);
        lemma_add_mod_noop(i, 1, n);
    }
}

/// Stepping a selection index backward: at index zero the selection wraps
/// to the last entry, and otherwise moves one up.
proof fn lemma_up_index(i: int, n: int)
    requires
        0 <= i,
        n > 0,
    ensures
        i == 0 ==> (i - 1 + n) % n == n - 1,
        i > 0 ==> (i - 1 + n) % n == (i - 1) % n,
{
    if i == 0 {
        lemma_small_mod((n - 1) as nat, n as nat);
    } else {
        lemma_mod_multiples_vanish(1, i - 1, n);
    }
}

/// Applies one key event to the state, against the listing of the current
/// directory read for this very step, and returns what the loop should do
/// next. The whole effect is `step_model` of the state's abstract value.
pub fn apply_input(state: &mut AppState, key: Key, contents: &Vec<DirEntry>) -> (out: StepOutcome)
    ensures
        final(state).model() == step_model(old(state).model(), key, listing_model(contents@)).0,
        out.model() == step_model(old(state).model(), key, listing_model(contents@)).1,
{
    match key {
        Key::Quit => StepOutcome { quit: true, open_target: None },
        Key::Down => {
            if let Some(i) = state.left_selected {
                let n = contents.len();
                if n > 0 {
                    let j = (i % n + 1) % n;
                    proof {
                        lemma_down_index(i as int, n as int);
                    }
                    state.left_selected = Some(j);
                    state.right_selected = None;
                }
            }
            StepOutcome { quit: false, open_target: None }
        },
        Key::Up => {
            if let Some(i) = state.left_selected {
                let n = contents.len();
                if n > 0 {
                    let j = if i == 0 {
                        n - 1
                    } else {
                        (i - 1) % n
                    };
                    proof {
                        lemma_up_index(i as int, n as int);
                    }
                    state.left_selected = Some(j);
                    state.right_selected = None;
                }
            }
            StepOutcome { quit: false, open_target: None }
        },
        Key::Enter => {
            let mut open_target: Option<DirPath> = None;
            if let Some(i) = state.left_selected {
                if i < contents.len() {
                    let entry = &contents[i];
                    let recorded = state.current_dir.join(entry.name.as_str());
                    let to_open = state.current_dir.join(entry.name.as_str());
                    if entry.is_directory {
                        state.current_dir.push(entry.name.clone());
                        state.left_selected = Some(0);
                        state.right_selected = None;
                    }
                    state.selected_path = Some(recorded);
                    open_target = Some(to_open);
                }
            }
            StepOutcome { quit: false, open_target }
        },
        Key::Backspace => {
            let popped = state.current_dir.pop();
            if popped {
                state.left_selected = Some(0);
                state.right_selected = None;
            }
            StepOutcome { quit: false, open_target: None }
        },
        Key::Other => StepOutcome { quit: false, open_target: None },
    }
}

/// The state after `k` presses of the down key, each applied against the
/// same listing.
pub open spec fn down_presses(m: StateModel, listing: Seq<EntryModel>, k: nat) -> StateModel
    decreases k,
{
    if k == 0 {
        m
    } else {
        step_model(down_presses(m, listing, (k - 1) as nat), Key::Down, listing).0
    }
}

/// After `k` presses of the down key the selection stands `k` entries
/// further, modulo the listing length.
proof fn lemma_down_presses_selected(m: StateModel, listing: Seq<EntryModel>, k: nat)
    requires
        listing.len() >= 1,
        m.left_selected is Some,
        0 <= m.left_selected.unwrap() < listing.len(),
    ensures
        down_presses(m, listing, k).left_selected == Some(
            (m.left_selected.unwrap() + k) % listing.len() as int,
        ),
    decreases k,
{
    let n = listing.len() as int;
    let i = m.left_selected.unwrap();
    if k == 0 {
        lemma_small_mod(i as nat, n as nat);
    } else {
        lemma_down_presses_selected(m, listing, (k - 1) as nat);
        lemma_down_index(i + (k - 1), n);
    }
}

/// Law: with a non-empty listing of `N` entries and a valid selection,
/// pressing the down key `N` times returns the selection to where it
/// started.
pub proof fn lemma_down_full_cycle(m: StateModel, listing: Seq<EntryModel>)
    requires
        listing.len() >= 1,
        m.left_selected is Some,
        0 <= m.left_selected.unwrap() < listing.len(),
    ensures
        down_presses(m, listing, listing.len()).left_selected == m.left_selected,
{
    let n = listing.len() as int;
    let i = m.left_selected.unwrap();
    lemma_down_presses_selected(m, listing, listing.len());
    lemma_mod_multiples_vanish(1, i, n);
    lemma_small_mod(i as nat, n as nat);
}

/// Law: pressing the up key with the first entry selected wraps the
/// selection to the last entry.
pub proof fn lemma_up_wraps_to_last(m: StateModel, listing: Seq<EntryModel>)
    requires
        listing.len() >= 1,
        m.left_selected == Some(0int),
    ensures
        step_model(m, Key::Up, listing).0.left_selected == Some(listing.len() - 1),
{
    let n = listing.len() as int;
    lemma_small_mod((n - 1) as nat, n as nat);
}

/// Law: with an empty listing, the down and up keys leave the state exactly
/// as it was; in particular the selection is well defined and unchanged.
pub proof fn lemma_empty_listing_keeps_state(m: StateModel, key: Key, listing: Seq<EntryModel>)
    requires
        listing.len() == 0,
        key == Key::Down || key == Key::Up,
    ensures
        step_model(m, key, listing).0 == m,
{
}

/// Law: the backspace key at a root path (a single component, so no parent
/// to pop) leaves the whole state unchanged.
pub proof fn lemma_backspace_at_root(m: StateModel, listing: Seq<EntryModel>)
    requires
        m.current_dir.len() <= 1,
    ensures
        step_model(m, Key::Backspace, listing).0 == m,
{
}

/// Law: the enter key on a directory entry appends that entry's name to
/// the current directory and selects the first entry of the new listing.
pub proof fn lemma_enter_directory_descends(m: StateModel, listing: Seq<EntryModel>)
    requires
        m.left_selected is Some,
        0 <= m.left_selected.unwrap() < listing.len(),
        listing[m.left_selected.unwrap()].is_directory,
    ensures
        step_model(m, Key::Enter, listing).0.current_dir == m.current_dir.push(
            listing[m.left_selected.unwrap()].name,
        ),
        step_model(m, Key::Enter, listing).0.left_selected == Some(0int),
{
}

} // verus!
