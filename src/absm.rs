//! Keeping the views of a state-machine graph editor in step with the
//! machine it edits: which states (or transitions) need a view, which views
//! show an item that the machine no longer has, and which view shows a
//! given state; and what its context menus ask for.
use crate::handle::Handle;
use vstd::prelude::*;

verus! {

/// A view on the canvas and the item of the machine that it shows.
#[derive(Clone, Copy, Debug, PartialEq, Eq, Structural)]
pub struct ViewLink {
    pub view: Handle,
    pub model: Handle,
}

/// The items that the views show, in the order of the views.
pub open spec fn shown_models(views: Seq<ViewLink>) -> Seq<Handle> {
    views.map_values(|l: ViewLink| l.model)
}

/// Of the first `n` items, those that neither `shown` nor an earlier item
/// of the result holds, in order.
pub open spec fn missing_prefix(shown: Seq<Handle>, models: Seq<Handle>, n: nat) -> Seq<Handle>
    decreases n,
{
    if n == 0 {
        seq![]
    } else {
        let rest = missing_prefix(shown, models, (n - 1) as nat);
        let m = models[n - 1];
        if shown.contains(m) || rest.contains(m) {
            rest
        } else {
            rest.push(m)
        }
    }
}

/// The items of `models` that no view shows, each once, in order.
pub open spec fn missing(views: Seq<ViewLink>, models: Seq<Handle>) -> Seq<Handle> {
    missing_prefix(shown_models(views), models, models.len())
}

/// Of the first `n` views, those whose item `models` does not hold, in order.
pub open spec fn stale_prefix(views: Seq<ViewLink>, models: Seq<Handle>, n: nat) -> Seq<Handle>
    decreases n,
{
    if n == 0 {
        seq![]
    } else {
        let rest = stale_prefix(views, models, (n - 1) as nat);
        if models.contains(views[n - 1].model) {
            rest
        } else {
            rest.push(views[n - 1].view)
        }
    }
}

/// The views whose item `models` does not hold, in order.
pub open spec fn stale(views: Seq<ViewLink>, models: Seq<Handle>) -> Seq<Handle> {
    stale_prefix(views, models, views.len())
}

/// What bringing the views in step with the machine takes: views to make
/// for the items in `add`, and the views in `remove` to take away.
#[derive(Clone, Debug, PartialEq, Eq)]
pub struct SyncPlan {
    pub add: Vec<Handle>,
    pub remove: Vec<Handle>,
}

/// Whether `h` is among `v`.
fn contains_handle(v: &Vec<Handle>, h: Handle) -> (r: bool)
    ensures
        r == v@.contains(h),
{
    let mut i: usize = 0;
    while i < v.len()
        invariant
            0 <= i <= v@.len(),
            forall|j: int| 0 <= j < i ==> v@[j] != h,
        decreases v@.len() - i,
    {
        if v[i] == h {
            return true;
        }
        i = i + 1;
    }
    false
}

/// Whether a view of `views` shows `model`.
fn shows_model(views: &Vec<ViewLink>, model: Handle) -> (r: bool)
    ensures
        r == shown_models(views@).contains(model),
{
    let mut i: usize = 0;
    while i < views.len()
        invariant
            0 <= i <= views@.len(),
            forall|j: int| 0 <= j < i ==> views@[j].model != model,
        decreases views@.len() - i,
    {
        if views[i].model == model {
            proof {
                assert(shown_models(views@)[i as int] == model);
            }
            return true;
        }
        i = i + 1;
    }
    proof {
        assert forall|j: int| 0 <= j < shown_models(views@).len() implies shown_models(views@)[j] != model by {
            assert(shown_models(views@)[j] == views@[j].model);
        }
    }
    false
}

/// What brings the views of one kind of item (states, or transitions) in
/// step with the items `models` that the machine has.
///
/// The counts decide: with fewer views than items, each item that no view
/// shows gets one; with more, each view whose item is gone is removed; with
/// as many, nothing is done.
pub fn plan_sync(views: &Vec<ViewLink>, models: &Vec<Handle>) -> (r: SyncPlan)
    ensures
        views@.len() < models@.len() ==> r.add@ == missing(views@, models@) && r.remove@.len() == 0,
        views@.len() > models@.len() ==> r.add@.len() == 0 && r.remove@ == stale(views@, models@),
        views@.len() == models@.len() ==> r.add@.len() == 0 && r.remove@.len() == 0,
{
    let mut add: Vec<Handle> = Vec::new();
    let mut remove: Vec<Handle> = Vec::new();
    if views.len() < models.len() {
        let n = models.len();
        let mut i: usize = 0;
        while i < n
            invariant
                n == models@.len(),
                0 <= i <= n,
                add@ == missing_prefix(shown_models(views@), models@, i as nat),
                remove@.len() == 0,
            decreases n - i,
        {
            let m = models[i];
            if !shows_model(views, m) && !contains_handle(&add, m) {
                add.push(m);
            }
            i = i + 1;
        }
    } else if views.len() > models.len() {
        let n = views.len();
        let mut i: usize = 0;
        while i < n
            invariant
                n == views@.len(),
                0 <= i <= n,
                remove@ == stale_prefix(views@, models@, i as nat),
                add@.len() == 0,
            decreases n - i,
        {
            if !contains_handle(models, views[i].model) {
                remove.push(views[i].view);
            }
            i = i + 1;
        }
    }
    SyncPlan { add, remove }
}

/// The view that shows the state `state`: the first such of `states`, or the
/// handle that refers to nothing where none does.
pub fn find_state_view(state: Handle, states: &Vec<ViewLink>) -> (r: Handle)
    ensures
        (forall|i: int| 0 <= i < states@.len() ==> states@[i].model != state) ==> r == Handle::none_spec(),
        forall|i: int|
            0 <= i < states@.len() && states@[i].model == state && (forall|j: int| 0 <= j < i ==> states@[j].model != state)
                ==> r == states@[i].view,
{
    let mut i: usize = 0;
    while i < states.len()
        invariant
            0 <= i <= states@.len(),
            forall|j: int| 0 <= j < i ==> states@[j].model != state,
        decreases states@.len() - i,
    {
        if states[i].model == state {
            return states[i].view;
        }
        i = i + 1;
    }
    Handle::none()
}

/// The context menu of the canvas, with its one item, which creates a state.
#[derive(Clone, Copy, Debug, PartialEq, Eq, Structural)]
pub struct CanvasContextMenu {
    pub create_state: Handle,
    pub menu: Handle,
    pub canvas: Handle,
    pub node_context_menu: Handle,
}

impl CanvasContextMenu {
    /// Whether a click on the menu item `clicked` asks for a new state (at
    /// the place where the menu was opened).
    pub fn handle_ui_message(&self, clicked: Handle) -> (r: bool)
        ensures
            r == (clicked == self.create_state),
    {
        clicked == self.create_state
    }
}

/// What the context menu of a state hears of.
#[derive(Clone, Copy, Debug, PartialEq, Eq, Structural)]
pub enum NodeMenuMessage {
    /// The menu item `destination` was clicked.
    Click { destination: Handle },
    /// The popup `destination` was opened at the cursor, over `target`.
    PlacedAtCursor { destination: Handle, target: Handle },
}

/// The context menu of a state, with its one item, which starts drawing a
/// transition from the state that the menu was opened over.
#[derive(Clone, Copy, Debug, PartialEq, Eq, Structural)]
pub struct NodeContextMenu {
    pub create_transition: Handle,
    pub menu: Handle,
    pub canvas: Handle,
    pub placement_target: Handle,
}

impl NodeContextMenu {
    /// Follows what the menu hears of. Opening the menu over a view records
    /// that view; a click on its item returns the view from which a new
    /// transition is to be drawn.
    pub fn handle_ui_message(&mut self, message: NodeMenuMessage) -> (r: Option<Handle>)
        ensures
            r == match message {
                NodeMenuMessage::Click { destination } => if destination == old(self).create_transition {
                    Some(old(self).placement_target)
                } else {
                    None
                },
                _ => None,
            },
            *final(self) == match message {
                NodeMenuMessage::PlacedAtCursor { destination, target } if destination
                    == old(self).menu => NodeContextMenu { placement_target: target, ..*old(self) },
                _ => *old(self),
            },
    {
        match message {
            NodeMenuMessage::Click { destination } => {
                if destination == self.create_transition {
                    Some(self.placement_target)
                } else {
                    None
                }
            },
            NodeMenuMessage::PlacedAtCursor { destination, target } => {
                if destination == self.menu {
                    self.placement_target = target;
                }
                None
            },
        }
    }
}

} // verus!
