//! The decisions of the particle-system panel: which emitter stays chosen
//! when the system changes, and what each edit on the panel asks of the
//! scene.
use crate::handle::Handle;
use vstd::prelude::*;

verus! {

/// The shapes of emitter that the panel can add and list.
#[derive(Clone, Copy, Debug, PartialEq, Eq, Structural)]
pub enum EmitterKind {
    Box,
    Sphere,
    Cylinder,
}

impl EmitterKind {
    /// The name under which an emitter of this shape is listed.
    pub fn label(&self) -> (r: &'static str)
        ensures
            r@ == match *self {
                EmitterKind::Box => "Box"@,
                EmitterKind::Sphere => "Sphere"@,
                EmitterKind::Cylinder => "Cylinder"@,
            },
    {
        match self {
            EmitterKind::Box => "Box",
            EmitterKind::Sphere => "Sphere",
            EmitterKind::Cylinder => "Cylinder",
        }
    }
}

/// The emitter that stays chosen when the system has `count` emitters: a
/// chosen index past the end is dropped, and with none chosen the first
/// emitter is taken if there is one.
pub open spec fn kept_emitter_index(index: Option<usize>, count: usize) -> Option<usize> {
    match index {
        Some(i) => if i >= count {
            None
        } else {
            Some(i)
        },
        None => if count > 0 {
            Some(0)
        } else {
            None
        },
    }
}

/// An edit on the panel, as far as the panel's decisions need it.
#[derive(Clone, Copy, Debug, PartialEq, Eq, Structural)]
pub enum SectionMessage {
    /// A vector editor at `destination` holds a new value; `differs` tells
    /// whether it differs from the system's acceleration.
    Vec3Changed { destination: Handle, differs: bool },
    /// The button at `destination` was clicked.
    ButtonClicked { destination: Handle },
    /// The delete button of the listed emitter `emitter` was clicked.
    EmitterDeleted { emitter: usize },
    /// The drop-down list at `destination` now has `selection` chosen.
    SelectionChanged { destination: Handle, selection: Option<usize> },
}

/// What the panel asks of the scene in answer to an edit.
#[derive(Clone, Copy, Debug, PartialEq, Eq, Structural)]
pub enum SectionCommand {
    /// Give the system the acceleration that was entered.
    SetAcceleration,
    /// Add an emitter of this shape to the system.
    AddEmitter(EmitterKind),
    /// Delete the emitter at this index.
    DeleteEmitter(usize),
    /// Show the system again, with the emitter now chosen.
    SyncToModel,
}

/// The controls of the particle-system panel and the emitter chosen in it.
#[derive(Clone, Copy, Debug, PartialEq, Eq, Structural)]
pub struct ParticleSystemSection {
    pub section: Handle,
    pub acceleration: Handle,
    pub add_box_emitter: Handle,
    pub add_sphere_emitter: Handle,
    pub add_cylinder_emitter: Handle,
    pub emitters: Handle,
    pub emitter_index: Option<usize>,
}

impl ParticleSystemSection {
    /// Keeps the chosen emitter in step with a system of `count` emitters.
    pub fn sync_emitter_index(&mut self, count: usize)
        ensures
            final(self).emitter_index == kept_emitter_index(old(self).emitter_index, count),
            *final(self) == (ParticleSystemSection { emitter_index: final(self).emitter_index, ..*old(self) }),
    {
        match self.emitter_index {
            Some(i) => {
                if i >= count {
                    self.emitter_index = None;
                }
            },
            None => {
                if count > 0 {
                    self.emitter_index = Some(0);
                }
            },
        }
    }

    /// The command that an edit on the panel gives, if any.
    ///
    /// A new acceleration that differs from the system's is set; the three
    /// add buttons add an emitter of their shape; a deleted emitter is
    /// deleted; a new choice in the list of emitters is kept and the panel
    /// shown again. Only the last changes the panel.
    pub fn handle_message(&mut self, message: SectionMessage) -> (r: Option<SectionCommand>)
        ensures
            r == match message {
                SectionMessage::Vec3Changed { destination, differs } => if differs && destination
                    == old(self).acceleration {
                    Some(SectionCommand::SetAcceleration)
                } else {
                    None
                },
                SectionMessage::ButtonClicked { destination } => if destination
                    == old(self).add_box_emitter {
                    Some(SectionCommand::AddEmitter(EmitterKind::Box))
                } else if destination == old(self).add_sphere_emitter {
                    Some(SectionCommand::AddEmitter(EmitterKind::Sphere))
                } else if destination == old(self).add_cylinder_emitter {
                    Some(SectionCommand::AddEmitter(EmitterKind::Cylinder))
                } else {
                    None
                },
                SectionMessage::EmitterDeleted { emitter } => Some(
                    SectionCommand::DeleteEmitter(emitter),
                ),
                SectionMessage::SelectionChanged { destination, .. } => if destination
                    == old(self).emitters {
                    Some(SectionCommand::SyncToModel)
                } else {
                    None
                },
            },
            *final(self) == match message {
                SectionMessage::SelectionChanged { destination, selection } if destination
                    == old(self).emitters => ParticleSystemSection {
                    emitter_index: selection,
                    ..*old(self)
                },
                _ => *old(self),
            },
    {
        match message {
            SectionMessage::Vec3Changed { destination, differs } => {
                if differs && destination == self.acceleration {
                    Some(SectionCommand::SetAcceleration)
                } else {
                    None
                }
            },
            SectionMessage::ButtonClicked { destination } => {
                if destination == self.add_box_emitter {
                    Some(SectionCommand::AddEmitter(EmitterKind::Box))
                } else if destination == self.add_sphere_emitter {
                    Some(SectionCommand::AddEmitter(EmitterKind::Sphere))
                } else if destination == self.add_cylinder_emitter {
                    Some(SectionCommand::AddEmitter(EmitterKind::Cylinder))
                } else {
                    None
                }
            },
            SectionMessage::EmitterDeleted { emitter } => Some(SectionCommand::DeleteEmitter(emitter)),
            SectionMessage::SelectionChanged { destination, selection } => {
                if destination == self.emitters {
                    self.emitter_index = selection;
                    Some(SectionCommand::SyncToModel)
                } else {
                    None
                }
            },
        }
    }
}

} // verus!
