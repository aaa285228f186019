//! The decisions of the interactive view, on plain values: which action each
//! key triggers, how the selection cursor moves, and what each pane shows for
//! the current state of the data.

use vstd::prelude::*;
use crate::loadable::Loadable;
use crate::resource_groups::ResourceGroupRecord;
use crate::resource_groups::RoleAssignmentRecord;
use crate::resource_groups::assignments_for_scope;

verus! {

/// The fixed tick of the cooperative loop, in milliseconds: each iteration
/// drains pending messages, polls for input, redraws, and then sleeps this
/// long, bounding the redraw and polling rate.
pub const TICK_MILLIS: u64 = 50;

/// The keys the interactive view reacts to, as plain values.
#[derive(Clone, Copy, Debug, PartialEq, Eq, Structural)]
pub enum KeyInput {
    Escape,
    CharQ,
    Down,
    Up,
    PageDown,
    PageUp,
    Home,
    End,
    Other,
}

/// What one key press does to the local interaction state.
#[derive(Clone, Copy, Debug, PartialEq, Eq, Structural)]
pub enum UiAction {
    Quit,
    MoveDown { steps: usize },
    MoveUp { steps: usize },
    JumpFirst,
    JumpLast,
    NoChange,
}

/// The action each key triggers: escape or `q` quits, the arrow keys move by
/// one, page keys by ten, and the home and end keys jump to the last and the
/// first entry.
pub open spec fn spec_action_of_key(key: KeyInput) -> UiAction {
    match key {
        KeyInput::Escape => UiAction::Quit,
        KeyInput::CharQ => UiAction::Quit,
        KeyInput::Down => UiAction::MoveDown { steps: 1 },
        KeyInput::Up => UiAction::MoveUp { steps: 1 },
        KeyInput::PageDown => UiAction::MoveDown { steps: 10 },
        KeyInput::PageUp => UiAction::MoveUp { steps: 10 },
        KeyInput::Home => UiAction::JumpLast,
        KeyInput::End => UiAction::JumpFirst,
        KeyInput::Other => UiAction::NoChange,
    }
}

pub fn action_of_key(key: KeyInput) -> (a: UiAction)
    ensures
        a == spec_action_of_key(key),
{
    match key {
        KeyInput::Escape => UiAction::Quit,
        KeyInput::CharQ => UiAction::Quit,
        KeyInput::Down => UiAction::MoveDown { steps: 1 },
        KeyInput::Up => UiAction::MoveUp { steps: 1 },
        KeyInput::PageDown => UiAction::MoveDown { steps: 10 },
        KeyInput::PageUp => UiAction::MoveUp { steps: 10 },
        KeyInput::Home => UiAction::JumpLast,
        KeyInput::End => UiAction::JumpFirst,
        KeyInput::Other => UiAction::NoChange,
    }
}

/// The cursor after moving down `n` entries in a list of `len`: entered at
/// the top when nothing was selected, and never past the last entry.
pub open spec fn spec_moved_down(sel: Option<usize>, len: usize, n: usize) -> Option<usize> {
    if len == 0 {
        None
    } else if n == 0 {
        sel
    } else {
        let start: int = match sel {
            None => -1,
            Some(i) => i as int,
        };
        let target: int = start + n;
        Some((if target > len - 1 { len - 1 } else { target }) as usize)
    }
}

/// The cursor after moving up `n` entries in a list of `len`: entered at the
/// bottom when nothing was selected, never before the first entry, and a
/// stale cursor beyond the end is first pulled back to the last entry.
pub open spec fn spec_moved_up(sel: Option<usize>, len: usize, n: usize) -> Option<usize> {
    if len == 0 {
        None
    } else if n == 0 {
        sel
    } else {
        match sel {
            None => Some((len - 1) as usize),
            Some(i) => {
                let base: int = if i as int > len - 1 { len - 1 } else { i as int };
                let target: int = base - n;
                Some((if target < 0 { 0 } else { target }) as usize)
            },
        }
    }
}

/// The selection after one action on a list of `len` entries.
pub open spec fn spec_applied(sel: Option<usize>, a: UiAction, len: usize) -> Option<usize> {
    match a {
        UiAction::Quit => sel,
        UiAction::MoveDown { steps } => spec_moved_down(sel, len, steps),
        UiAction::MoveUp { steps } => spec_moved_up(sel, len, steps),
        UiAction::JumpFirst => if len == 0 { None } else { Some(0usize) },
        UiAction::JumpLast => if len == 0 { None } else { Some((len - 1) as usize) },
        UiAction::NoChange => sel,
    }
}

/// The local interaction state of the list: which entry the cursor is on.
#[derive(Clone, Copy, Debug, PartialEq, Eq, Structural)]
pub struct Selection {
    pub selected: Option<usize>,
}

impl Selection {
    /// Nothing selected yet.
    pub fn new() -> (r: Self)
        ensures
            r.selected is None,
    {
        Selection { selected: None }
    }

    /// Apply one action to the cursor, for a list of `len` entries. Returns
    /// whether the action asks the loop to exit; the cursor is unchanged in
    /// that case.
    pub fn apply_action(&mut self, a: UiAction, len: usize) -> (quit: bool)
        ensures
            quit <==> a is Quit,
            final(self).selected == spec_applied(old(self).selected, a, len),
    {
        match a {
            UiAction::Quit => true,
            UiAction::MoveDown { steps } => {
                self.selected = moved_down(self.selected, len, steps);
                false
            },
            UiAction::MoveUp { steps } => {
                self.selected = moved_up(self.selected, len, steps);
                false
            },
            UiAction::JumpFirst => {
                self.selected = if len == 0 { None } else { Some(0) };
                false
            },
            UiAction::JumpLast => {
                self.selected = if len == 0 { None } else { Some(len - 1) };
                false
            },
            UiAction::NoChange => false,
        }
    }

    /// One key press of the loop: decide the action and apply it.
    pub fn handle_key(&mut self, key: KeyInput, len: usize) -> (quit: bool)
        ensures
            quit <==> spec_action_of_key(key) is Quit,
            final(self).selected == spec_applied(
                old(self).selected,
                spec_action_of_key(key),
                len,
            ),
    {
        let a = action_of_key(key);
        self.apply_action(a, len)
    }
}

fn moved_down(sel: Option<usize>, len: usize, n: usize) -> (r: Option<usize>)
    ensures
        r == spec_moved_down(sel, len, n),
{
    if len == 0 {
        None
    } else if n == 0 {
        sel
    } else {
        let cap = len - 1;
        match sel {
            None => if n - 1 >= cap {
                Some(cap)
            } else {
                Some(n - 1)
            },
            Some(i) => if i >= cap {
                Some(cap)
            } else if n > cap - i {
                Some(cap)
            } else {
                Some(i + n)
            },
        }
    }
}

fn moved_up(sel: Option<usize>, len: usize, n: usize) -> (r: Option<usize>)
    ensures
        r == spec_moved_up(sel, len, n),
{
    if len == 0 {
        None
    } else if n == 0 {
        sel
    } else {
        let cap = len - 1;
        match sel {
            None => Some(cap),
            Some(i) => {
                let base = if i > cap {
                    cap
                } else {
                    i
                };
                if n > base {
                    Some(0)
                } else {
                    Some(base - n)
                }
            },
        }
    }
}

/// The kinds of directory principal the view distinguishes.
#[derive(Clone, Copy, Debug, PartialEq, Eq, Structural)]
pub enum PrincipalKind {
    User,
    ServicePrincipal,
    SecurityGroup,
}

/// One directory principal, reduced to what the view reads.
#[derive(Debug, PartialEq)]
pub struct PrincipalRecord {
    pub id: String,
    pub display_name: String,
}

/// The display entries to remember for one loaded batch of principals: for
/// each principal, in order, its id together with the batch's kind and the
/// principal's name. The lookup by id that resolves an assignment's
/// principal to a tagged display string is fed from these entries.
pub fn principal_entries(principals: &Vec<PrincipalRecord>, kind: PrincipalKind) -> (r: Vec<
    (String, PrincipalKind, String),
>)
    ensures
        r@.len() == principals@.len(),
        forall|i: int| #![trigger r@[i]]
            0 <= i < r@.len() ==> r@[i].0@ == principals@[i].id@ && r@[i].1 == kind
                && r@[i].2@ == principals@[i].display_name@,
{
    let mut r: Vec<(String, PrincipalKind, String)> = Vec::new();
    let mut i: usize = 0;
    while i < principals.len()
        invariant
            i <= principals@.len(),
            r@.len() == i,
            forall|k: int| #![trigger r@[k]]
                0 <= k < r@.len() ==> r@[k].0@ == principals@[k].id@ && r@[k].1 == kind
                    && r@[k].2@ == principals@[k].display_name@,
        decreases principals@.len() - i,
    {
        let p = &principals[i];
        r.push((p.id.clone(), kind, p.display_name.clone()));
        i += 1;
    }
    r
}

/// What the resource-group list pane shows.
#[derive(Debug, PartialEq)]
pub enum RgListView {
    NotLoadedMessage,
    LoadingMessage,
    ErrorMessage(String),
    Names(Vec<String>),
}

/// The list pane for the current state of the resource-group slot: a message
/// while nothing is loaded yet, the error once loading failed, and the group
/// names, in order, once loading succeeded.
pub fn rg_list_view(rgs: &Loadable<Vec<ResourceGroupRecord>>) -> (v: RgListView)
    ensures
        match v {
            RgListView::NotLoadedMessage => *rgs is NotLoaded,
            RgListView::LoadingMessage => *rgs is Loading,
            RgListView::ErrorMessage(e) => *rgs is Failed && e@ == rgs.spec_error_message().unwrap()@,
            RgListView::Names(names) => *rgs is Loaded && {
                let groups = rgs.spec_loaded_value().unwrap()@;
                names@.len() == groups.len() && forall|i: int|
                    0 <= i < names@.len() ==> (#[trigger] names@[i])@ == groups[i].name@
            },
        },
{
    match rgs {
        Loadable::NotLoaded => RgListView::NotLoadedMessage,
        Loadable::Loading { .. } => RgListView::LoadingMessage,
        Loadable::Failed { error, .. } => RgListView::ErrorMessage(error.clone()),
        Loadable::Loaded { value, .. } => {
            let mut names: Vec<String> = Vec::new();
            let mut i: usize = 0;
            while i < value.len()
                invariant
                    i <= value@.len(),
                    names@.len() == i,
                    forall|k: int| 0 <= k < i ==> (#[trigger] names@[k])@ == value@[k].name@,
                decreases value@.len() - i,
            {
                names.push(value[i].name.clone());
                i += 1;
            }
            RgListView::Names(names)
        },
    }
}

/// What the role-assignment pane shows.
#[derive(Debug, PartialEq)]
pub enum PanelView {
    NotLoadedMessage,
    LoadingMessage,
    ErrorMessage(String),
    NoSelection,
    NoAssignments,
    Assignments(Vec<usize>),
}

/// The assignment pane for the current state of both data slots and the
/// cursor. While either slot is still loading that takes precedence; then a
/// failure of either is shown; with both loaded, the pane shows the
/// assignments whose scope is the selected group's scope — their indices into
/// the loaded assignment list, in order — or says that there are none, or
/// that no group is selected.
pub fn panel_view(
    rgs: &Loadable<Vec<ResourceGroupRecord>>,
    assignments: &Loadable<Vec<RoleAssignmentRecord>>,
    sel: Option<usize>,
) -> (v: PanelView)
    ensures
        match v {
            PanelView::LoadingMessage => *rgs is Loading || *assignments is Loading,
            PanelView::ErrorMessage(e) => !(*rgs is Loading) && !(*assignments is Loading) && (
            *rgs is Failed || *assignments is Failed) && (if *rgs is Failed {
                e@ == rgs.spec_error_message().unwrap()@
            } else {
                e@ == assignments.spec_error_message().unwrap()@
            }),
            PanelView::NotLoadedMessage => !(*rgs is Loaded && *assignments is Loaded)
                && !(*rgs is Loading) && !(*assignments is Loading) && !(*rgs is Failed) && !(
            *assignments is Failed),
            PanelView::NoSelection => *rgs is Loaded && *assignments is Loaded && (match sel {
                None => true,
                Some(idx) => idx as int >= rgs.spec_loaded_value().unwrap()@.len(),
            }),
            PanelView::NoAssignments => *rgs is Loaded && *assignments is Loaded && (match sel {
                None => false,
                Some(idx) => (idx as int) < rgs.spec_loaded_value().unwrap()@.len()
                    && forall|j: int|
                        0 <= j < assignments.spec_loaded_value().unwrap()@.len()
                            ==> (#[trigger] assignments.spec_loaded_value().unwrap()@[j]).scope@
                            != rgs.spec_loaded_value().unwrap()@[idx as int].scope@,
            }),
            PanelView::Assignments(found) => *rgs is Loaded && *assignments is Loaded
                && found@.len() > 0 && (match sel {
                None => false,
                Some(idx) => (idx as int) < rgs.spec_loaded_value().unwrap()@.len() && {
                    let all = assignments.spec_loaded_value().unwrap()@;
                    let scope = rgs.spec_loaded_value().unwrap()@[idx as int].scope@;
                    (forall|k: int| #![trigger found@[k]]
                        0 <= k < found@.len() ==> found@[k] < all.len()
                            && all[found@[k] as int].scope@ == scope) && (forall|k1: int, k2: int|
                        0 <= k1 < k2 < found@.len() ==> found@[k1] < found@[k2]) && (forall|j: int|
                        0 <= j < all.len() && (#[trigger] all[j]).scope@ == scope
                            ==> found@.contains(j as usize))
                },
            }),
        },
{
    match (rgs, assignments) {
        (Loadable::Loaded { value: groups, .. }, Loadable::Loaded { value: all, .. }) => {
            match sel {
                Some(idx) => {
                    if idx < groups.len() {
                        let found = assignments_for_scope(all, &groups[idx].scope);
                        if found.len() == 0 {
                            PanelView::NoAssignments
                        } else {
                            PanelView::Assignments(found)
                        }
                    } else {
                        PanelView::NoSelection
                    }
                },
                None => PanelView::NoSelection,
            }
        },
        (Loadable::Loading { .. }, _) => PanelView::LoadingMessage,
        (_, Loadable::Loading { .. }) => PanelView::LoadingMessage,
        (Loadable::Failed { error, .. }, _) => PanelView::ErrorMessage(error.clone()),
        (_, Loadable::Failed { error, .. }) => PanelView::ErrorMessage(error.clone()),
        _ => PanelView::NotLoadedMessage,
    }
}

} // verus!
