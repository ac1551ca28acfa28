//! Verified decision logic of a game editor's panels: the curve-key editor
//! (selection, picking, dragging, deleting and retyping keys, and how
//! neighbouring keys are joined), the state-machine graph editor (keeping
//! views in step with the machine, and its context menus), and the
//! particle-system panel (the chosen emitter, and what each edit asks of the
//! scene). Widgets, drawing and all arithmetic on coordinates stay with the
//! host; it hands this library plain values and acts on what comes back.
pub mod absm;
pub mod curve;
pub mod handle;
pub mod particle;
