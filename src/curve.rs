//! The state of a curve-key editor that does not depend on geometry: which
//! keys are selected, what a click selects, which keys a drag moves, what a
//! delete or a change of kind does to the keys, and how two neighbouring
//! keys are joined when the curve is drawn.
//!
//! Coordinates and tangents are of a type parameter `T`; the editor only
//! stores and moves them, all arithmetic on them is done by the caller.
use std::collections::HashSet;
use crate::handle::Handle;
use vstd::prelude::*;

verus! {

/// A point or a vector in the plane of the curve.
#[derive(Clone, Copy, Debug, PartialEq)]
pub struct Vec2<T> {
    pub x: T,
    pub y: T,
}

/// How a key continues the curve towards the next key.
#[derive(Clone, Copy, Debug, PartialEq)]
pub enum CurveKeyKind<T> {
    /// The value holds until the next key.
    Constant,
    /// A straight line to the next key.
    Linear,
    /// A Hermite spline with the given tangents on each side of the key.
    Cubic { left_tangent: T, right_tangent: T },
}

/// A key as the editor shows it.
#[derive(Clone, Copy, Debug, PartialEq)]
pub struct CurveKeyView<T> {
    pub position: Vec2<T>,
    pub kind: CurveKeyKind<T>,
    pub id: u128,
}

/// What is selected in the editor: a set of keys (by index), or one of the
/// two tangent handles of a key.
#[derive(Debug)]
pub enum Selection {
    Keys { keys: HashSet<usize> },
    LeftTangent { key: usize },
    RightTangent { key: usize },
}

/// What lies under the cursor: a key, or one of its tangent handles.
#[derive(Clone, Copy, Debug, PartialEq, Eq, Structural)]
pub enum PickResult {
    Key(usize),
    LeftTangent(usize),
    RightTangent(usize),
}

impl Selection {
    /// The indices of the keys that are drawn as selected: the chosen keys,
    /// or the key whose tangent handle is chosen.
    pub open spec fn selected(&self) -> Set<usize> {
        match self {
            Selection::Keys { keys } => keys@,
            Selection::LeftTangent { key } => set![*key],
            Selection::RightTangent { key } => set![*key],
        }
    }

    /// A selection of the one key `key`.
    pub fn single_key(key: usize) -> (r: Self)
        ensures
            r is Keys,
            r.selected() == set![key],
    {
        let mut keys: HashSet<usize> = HashSet::new();
        keys.insert(key);
        proof {
            assert(keys@ =~= set![key]);
        }
        Selection::Keys { keys }
    }

    /// Whether key `i` is drawn as selected.
    pub fn is_key_selected(&self, i: usize) -> (r: bool)
        ensures
            r == self.selected().contains(i),
    {
        match self {
            Selection::Keys { keys } => keys.contains(&i),
            Selection::LeftTangent { key } => *key == i,
            Selection::RightTangent { key } => *key == i,
        }
    }
}

/// `s` is a selection of exactly the keys `keys`.
pub open spec fn selects_keys(s: Option<Selection>, keys: Set<usize>) -> bool {
    match s {
        Some(Selection::Keys { keys: k }) => k@ == keys,
        _ => false,
    }
}

/// The selection after a press of the left button on what `picked` names.
///
/// Nothing under the cursor clears the selection, and a tangent handle is
/// selected alone. A key joins a selection of keys when `control` is held;
/// without it a key that is already selected keeps the selection as it is
/// (so that all of it can be dragged), and any other key is selected alone.
pub fn selection_after_click(current: Option<Selection>, picked: Option<PickResult>, control: bool) -> (r: Option<Selection>)
    ensures
        picked is None ==> r is None,
        forall|k: usize| picked == Some(PickResult::LeftTangent(k))
            ==> r == Some(Selection::LeftTangent { key: k }),
        forall|k: usize| picked == Some(PickResult::RightTangent(k))
            ==> r == Some(Selection::RightTangent { key: k }),
        forall|k: usize| #![auto] picked == Some(PickResult::Key(k)) ==> {
            match current {
                Some(Selection::Keys { keys }) => {
                    if control {
                        selects_keys(r, keys@.insert(k))
                    } else if keys@.contains(k) {
                        r == current
                    } else {
                        selects_keys(r, set![k])
                    }
                },
                _ => selects_keys(r, set![k]),
            }
        },
{
    match picked {
        None => None,
        Some(PickResult::LeftTangent(k)) => Some(Selection::LeftTangent { key: k }),
        Some(PickResult::RightTangent(k)) => Some(Selection::RightTangent { key: k }),
        Some(PickResult::Key(k)) => {
            match current {
                Some(Selection::Keys { keys }) => {
                    let mut keys = keys;
                    if control {
                        keys.insert(k);
                    }
                    if keys.contains(&k) {
                        Some(Selection::Keys { keys })
                    } else {
                        Some(Selection::single_key(k))
                    }
                },
                _ => Some(Selection::single_key(k)),
            }
        },
    }
}

/// A key that a drag moves, with the position it had when the drag began.
#[derive(Clone, Copy, Debug, PartialEq)]
pub struct DragEntry<T> {
    pub key: usize,
    pub initial_position: Vec2<T>,
}

/// What a drag with the mouse is doing.
#[derive(Clone, Debug, PartialEq)]
pub enum OperationContext<T> {
    /// Moving keys; `initial_mouse_pos` is in the space of the keys.
    DragKeys { initial_mouse_pos: Vec2<T>, entries: Vec<DragEntry<T>> },
    /// Moving the view; `initial_mouse_pos` is in screen space.
    MoveView { initial_mouse_pos: Vec2<T>, initial_view_pos: Vec2<T> },
    /// Turning one tangent of a key.
    DragTangent { key: usize, left: bool },
}

impl<T> OperationContext<T> {
    /// Whether ending this operation has changed the curve, so that the
    /// new curve is to be sent to the owner of the editor.
    pub fn changes_curve(&self) -> (r: bool)
        ensures
            r == !(self is MoveView),
    {
        match self {
            OperationContext::MoveView { .. } => false,
            _ => true,
        }
    }
}

/// The keys of the first `n` indices that `sel` leaves out, in order.
pub open spec fn unselected_prefix<T>(keys: Seq<CurveKeyView<T>>, sel: Set<usize>, n: nat) -> Seq<CurveKeyView<T>>
    decreases n,
{
    if n == 0 {
        seq![]
    } else {
        let rest = unselected_prefix(keys, sel, (n - 1) as nat);
        if sel.contains((n - 1) as usize) {
            rest
        } else {
            rest.push(keys[n - 1])
        }
    }
}

/// The keys that `sel` leaves out, in order.
pub open spec fn unselected<T>(keys: Seq<CurveKeyView<T>>, sel: Set<usize>) -> Seq<CurveKeyView<T>> {
    unselected_prefix(keys, sel, keys.len())
}

/// A drag entry for each of the first `n` keys that `sel` holds, in order.
pub open spec fn drag_entries_prefix<T>(keys: Seq<CurveKeyView<T>>, sel: Set<usize>, n: nat) -> Seq<DragEntry<T>>
    decreases n,
{
    if n == 0 {
        seq![]
    } else {
        let rest = drag_entries_prefix(keys, sel, (n - 1) as nat);
        if sel.contains((n - 1) as usize) {
            rest.push(DragEntry { key: (n - 1) as usize, initial_position: keys[n - 1].position })
        } else {
            rest
        }
    }
}

/// A drag entry for each selected key, in the order of the keys.
pub open spec fn drag_entries_of<T>(keys: Seq<CurveKeyView<T>>, sel: Set<usize>) -> Seq<DragEntry<T>> {
    drag_entries_prefix(keys, sel, keys.len())
}

/// `key` with its kind replaced by `kind`.
pub open spec fn with_kind<T>(key: CurveKeyView<T>, kind: CurveKeyKind<T>) -> CurveKeyView<T> {
    CurveKeyView { position: key.position, kind, id: key.id }
}

/// The keys of a curve editor and what is selected among them.
///
/// A selection may name indices that no key has (after the keys were
/// replaced from outside); such indices are passed over.
#[derive(Debug)]
pub struct CurveKeys<T> {
    pub keys: Vec<CurveKeyView<T>>,
    pub selection: Option<Selection>,
}

impl<T: Copy> CurveKeys<T> {
    /// Keys with nothing selected.
    pub fn new(keys: Vec<CurveKeyView<T>>) -> (r: Self)
        ensures
            r.keys@ == keys@,
            r.selection is None,
    {
        CurveKeys { keys, selection: None }
    }

    /// Whether key `i` is drawn as selected.
    pub open spec fn is_key_selected_spec(&self, i: usize) -> bool {
        match self.selection {
            Some(s) => s.selected().contains(i),
            None => false,
        }
    }

    /// Whether key `i` is drawn as selected.
    pub fn is_key_selected(&self, i: usize) -> (r: bool)
        ensures
            r == self.is_key_selected_spec(i),
    {
        match &self.selection {
            Some(s) => s.is_key_selected(i),
            None => false,
        }
    }

    /// Removes the selected keys when keys (not a tangent) are selected, and
    /// then clears the selection. Returns whether it did so: the curve has
    /// then changed.
    pub fn remove_selection(&mut self) -> (r: bool)
        ensures
            r == (old(self).selection matches Some(Selection::Keys { .. })),
            r ==> final(self).keys@ == unselected(old(self).keys@, old(self).selection->Some_0.selected()),
            r ==> final(self).selection is None,
            !r ==> *final(self) == *old(self),
    {
        let removed = match &self.selection {
            Some(Selection::Keys { keys }) => {
                let mut kept: Vec<CurveKeyView<T>> = Vec::new();
                let n = self.keys.len();
                let mut i: usize = 0;
                while i < n
                    invariant
                        n == self.keys@.len(),
                        0 <= i <= n,
                        kept@ == unselected_prefix(self.keys@, keys@, i as nat),
                    decreases n - i,
                {
                    if !keys.contains(&i) {
                        kept.push(self.keys[i]);
                    }
                    i = i + 1;
                }
                Some(kept)
            },
            _ => None,
        };
        match removed {
            Some(kept) => {
                self.keys = kept;
                self.selection = None;
                true
            },
            None => false,
        }
    }

    /// Gives every selected key the kind `kind` when keys (not a tangent)
    /// are selected. Returns whether it did so: the curve has then changed.
    pub fn change_selected_keys_kind(&mut self, kind: CurveKeyKind<T>) -> (r: bool)
        ensures
            r == (old(self).selection matches Some(Selection::Keys { .. })),
            final(self).selection == old(self).selection,
            final(self).keys@.len() == old(self).keys@.len(),
            forall|i: int| 0 <= i < old(self).keys@.len() ==> #[trigger] final(self).keys@[i] == if r
                && old(self).selection->Some_0.selected().contains(i as usize) {
                with_kind(old(self).keys@[i], kind)
            } else {
                old(self).keys@[i]
            },
    {
        match &self.selection {
            Some(Selection::Keys { keys }) => {
                let n = self.keys.len();
                let mut i: usize = 0;
                while i < n
                    invariant
                        n == self.keys@.len(),
                        n == old(self).keys@.len(),
                        0 <= i <= n,
                        self.selection == old(self).selection,
                        self.selection == Some(Selection::Keys { keys: *keys }),
                        forall|j: int| 0 <= j < n ==> #[trigger] self.keys@[j] == if j < i
                            && keys@.contains(j as usize) {
                            with_kind(old(self).keys@[j], kind)
                        } else {
                            old(self).keys@[j]
                        },
                    decreases n - i,
                {
                    if keys.contains(&i) {
                        let mut key = self.keys[i];
                        key.kind = kind;
                        self.keys.set(i, key);
                    }
                    i = i + 1;
                }
                true
            },
            _ => false,
        }
    }

    /// The operation that a drag with the left button starts from the
    /// current selection, with the cursor at `local_mouse_pos` in the space
    /// of the keys: selected keys are moved together, a selected tangent is
    /// turned, and with nothing selected no operation starts.
    pub fn begin_drag(&self, local_mouse_pos: Vec2<T>) -> (r: Option<OperationContext<T>>)
        ensures
            match self.selection {
                None => r is None,
                Some(Selection::Keys { keys }) => r == Some(
                    OperationContext::DragKeys {
                        initial_mouse_pos: local_mouse_pos,
                        entries: r->Some_0->DragKeys_entries,
                    },
                ) && r->Some_0->DragKeys_entries@ == drag_entries_of(self.keys@, keys@),
                Some(Selection::LeftTangent { key }) => r == Some(
                    OperationContext::<T>::DragTangent { key, left: true },
                ),
                Some(Selection::RightTangent { key }) => r == Some(
                    OperationContext::<T>::DragTangent { key, left: false },
                ),
            },
    {
        match &self.selection {
            None => None,
            Some(Selection::Keys { keys }) => {
                let mut entries: Vec<DragEntry<T>> = Vec::new();
                let n = self.keys.len();
                let mut i: usize = 0;
                while i < n
                    invariant
                        n == self.keys@.len(),
                        0 <= i <= n,
                        entries@ == drag_entries_prefix(self.keys@, keys@, i as nat),
                    decreases n - i,
                {
                    if keys.contains(&i) {
                        entries.push(DragEntry { key: i, initial_position: self.keys[i].position });
                    }
                    i = i + 1;
                }
                Some(OperationContext::DragKeys { initial_mouse_pos: local_mouse_pos, entries })
            },
            Some(Selection::LeftTangent { key }) => Some(OperationContext::DragTangent { key: *key, left: true }),
            Some(Selection::RightTangent { key }) => Some(OperationContext::DragTangent { key: *key, left: false }),
        }
    }

    /// The tangents whose handles are drawn at key `i`: those of a cubic key
    /// that is selected.
    pub fn shown_tangents(&self, i: usize) -> (r: Option<(T, T)>)
        requires
            i < self.keys@.len(),
        ensures
            r == match self.keys@[i as int].kind {
                CurveKeyKind::Cubic { left_tangent, right_tangent } => if self.is_key_selected_spec(i) {
                    Some((left_tangent, right_tangent))
                } else {
                    None
                },
                _ => None,
            },
    {
        if self.is_key_selected(i) {
            match self.keys[i].kind {
                CurveKeyKind::Cubic { left_tangent, right_tangent } => Some((left_tangent, right_tangent)),
                _ => None,
            }
        } else {
            None
        }
    }
}

/// What the cursor touches at one key: the key's square, the handle of its
/// left tangent, the handle of its right tangent. Handles exist only on
/// cubic keys, so for other keys the last two are false.
#[derive(Clone, Copy, Debug, PartialEq, Eq, Structural)]
pub struct KeyHit {
    pub key: bool,
    pub left_tangent: bool,
    pub right_tangent: bool,
}

/// What the cursor picks at key `i`: the key before its left handle, the
/// left handle before the right one.
pub open spec fn pick_at(h: KeyHit, i: usize) -> Option<PickResult> {
    if h.key {
        Some(PickResult::Key(i))
    } else if h.left_tangent {
        Some(PickResult::LeftTangent(i))
    } else if h.right_tangent {
        Some(PickResult::RightTangent(i))
    } else {
        None
    }
}

/// What the cursor picks among the keys of `hits`: the first key, in order,
/// at which it touches anything.
pub open spec fn first_pick(hits: Seq<KeyHit>) -> Option<PickResult>
    decreases hits.len(),
{
    if hits.len() == 0 {
        None
    } else {
        match first_pick(hits.drop_last()) {
            Some(p) => Some(p),
            None => pick_at(hits.last(), (hits.len() - 1) as usize),
        }
    }
}

/// Picks among the keys, given at each key (in the order of the keys) what
/// the cursor touches there.
pub fn pick(hits: &Vec<KeyHit>) -> (r: Option<PickResult>)
    ensures
        r == first_pick(hits@),
{
    let n = hits.len();
    let mut i: usize = 0;
    while i < n
        invariant
            n == hits@.len(),
            0 <= i <= n,
            first_pick(hits@.subrange(0, i as int)) is None,
        decreases n - i,
    {
        let h = hits[i];
        proof {
            assert(hits@.subrange(0, i + 1).drop_last() =~= hits@.subrange(0, i as int));
        }
        if h.key {
            proof { lemma_first_pick_extends(hits@, (i + 1) as nat); }
            return Some(PickResult::Key(i));
        } else if h.left_tangent {
            proof { lemma_first_pick_extends(hits@, (i + 1) as nat); }
            return Some(PickResult::LeftTangent(i));
        } else if h.right_tangent {
            proof { lemma_first_pick_extends(hits@, (i + 1) as nat); }
            return Some(PickResult::RightTangent(i));
        }
        i = i + 1;
    }
    proof {
        assert(hits@.subrange(0, n as int) =~= hits@);
    }
    None
}

/// A pick made in a prefix of the keys stays the pick of all of them.
proof fn lemma_first_pick_extends(hits: Seq<KeyHit>, n: nat)
    requires
        n <= hits.len(),
        first_pick(hits.subrange(0, n as int)) is Some,
    ensures
        first_pick(hits) == first_pick(hits.subrange(0, n as int)),
    decreases hits.len() - n,
{
    if n < hits.len() {
        assert(hits.subrange(0, (n + 1) as int).drop_last() =~= hits.subrange(0, n as int));
        lemma_first_pick_extends(hits, n + 1);
    } else {
        assert(hits.subrange(0, n as int) =~= hits);
    }
}

/// How the curve is drawn between two neighbouring keys.
#[derive(Clone, Copy, Debug, PartialEq)]
pub enum Segment<T> {
    /// Across at the height of the left key, then up or down to the right key.
    Step,
    /// A straight line.
    Line,
    /// A Hermite spline leaving the left key with `left_tangent` and reaching
    /// the right key with `right_tangent`, or flat where that is `None`.
    Hermite { left_tangent: T, right_tangent: Option<T> },
}

/// How the curve is drawn from a key of kind `left` to the next key, of
/// kind `right`: the left key decides, and a cubic left key uses its right
/// tangent and, if the right key is cubic too, that key's left tangent.
pub fn segment_between<T: Copy>(left: &CurveKeyKind<T>, right: &CurveKeyKind<T>) -> (r: Segment<T>)
    ensures
        r == match *left {
            CurveKeyKind::Constant => Segment::Step,
            CurveKeyKind::Linear => Segment::Line,
            CurveKeyKind::Cubic { right_tangent: out_tangent, .. } => Segment::Hermite {
                left_tangent: out_tangent,
                right_tangent: match *right {
                    CurveKeyKind::Cubic { left_tangent: in_tangent, .. } => Some(in_tangent),
                    _ => None,
                },
            },
        },
{
    match left {
        CurveKeyKind::Constant => Segment::Step,
        CurveKeyKind::Linear => Segment::Line,
        CurveKeyKind::Cubic { right_tangent: out_tangent, .. } => {
            let in_tangent = match right {
                CurveKeyKind::Cubic { left_tangent, .. } => Some(*left_tangent),
                _ => None,
            };
            Segment::Hermite { left_tangent: *out_tangent, right_tangent: in_tangent }
        },
    }
}

/// The items of the editor's context menu.
#[derive(Clone, Copy, Debug, PartialEq, Eq, Structural)]
pub struct ContextMenu {
    pub widget: Handle,
    pub add_key: Handle,
    pub remove: Handle,
    pub key: Handle,
    pub make_constant: Handle,
    pub make_linear: Handle,
    pub make_cubic: Handle,
}

/// What a click on an item of the context menu asks the editor to do.
#[derive(Clone, Copy, Debug, PartialEq, Eq, Structural)]
pub enum MenuAction {
    RemoveSelection,
    MakeConstant,
    MakeLinear,
    MakeCubic,
    AddKey,
}

impl ContextMenu {
    /// The request that a click on the menu item `destination` makes, the
    /// items being tried in the order remove, constant, linear, cubic, add.
    pub fn action_for_click(&self, destination: Handle) -> (r: Option<MenuAction>)
        ensures
            r == if destination == self.remove {
                Some(MenuAction::RemoveSelection)
            } else if destination == self.make_constant {
                Some(MenuAction::MakeConstant)
            } else if destination == self.make_linear {
                Some(MenuAction::MakeLinear)
            } else if destination == self.make_cubic {
                Some(MenuAction::MakeCubic)
            } else if destination == self.add_key {
                Some(MenuAction::AddKey)
            } else {
                None
            },
    {
        if destination == self.remove {
            Some(MenuAction::RemoveSelection)
        } else if destination == self.make_constant {
            Some(MenuAction::MakeConstant)
        } else if destination == self.make_linear {
            Some(MenuAction::MakeLinear)
        } else if destination == self.make_cubic {
            Some(MenuAction::MakeCubic)
        } else if destination == self.add_key {
            Some(MenuAction::AddKey)
        } else {
            None
        }
    }
}

} // verus!
