use editor_panels::handle::Handle;
use editor_panels::particle::{
    EmitterKind, ParticleSystemSection, SectionCommand, SectionMessage,
};

fn h(index: u32) -> Handle {
    Handle { index, generation: 1 }
}

fn section(emitter_index: Option<usize>) -> ParticleSystemSection {
    ParticleSystemSection {
        section: h(1),
        acceleration: h(2),
        add_box_emitter: h(3),
        add_sphere_emitter: h(4),
        add_cylinder_emitter: h(5),
        emitters: h(6),
        emitter_index,
    }
}

#[test]
fn emitter_labels() {
    assert_eq!(EmitterKind::Box.label(), "Box");
    assert_eq!(EmitterKind::Sphere.label(), "Sphere");
    assert_eq!(EmitterKind::Cylinder.label(), "Cylinder");
}

#[test]
fn chosen_emitter_past_end_is_dropped() {
    let mut s = section(Some(3));
    s.sync_emitter_index(3);
    assert_eq!(s, section(None));
}

#[test]
fn chosen_emitter_in_range_is_kept() {
    let mut s = section(Some(2));
    s.sync_emitter_index(3);
    assert_eq!(s, section(Some(2)));
}

#[test]
fn first_emitter_is_chosen_when_none_was() {
    let mut s = section(None);
    s.sync_emitter_index(2);
    assert_eq!(s, section(Some(0)));
}

#[test]
fn no_emitter_is_chosen_in_empty_system() {
    let mut s = section(None);
    s.sync_emitter_index(0);
    assert_eq!(s, section(None));
    let mut s = section(Some(0));
    s.sync_emitter_index(0);
    assert_eq!(s, section(None));
}

#[test]
fn changed_acceleration_is_set() {
    let mut s = section(None);
    let m = SectionMessage::Vec3Changed { destination: h(2), differs: true };
    assert_eq!(s.handle_message(m), Some(SectionCommand::SetAcceleration));
    let m = SectionMessage::Vec3Changed { destination: h(2), differs: false };
    assert_eq!(s.handle_message(m), None);
    let m = SectionMessage::Vec3Changed { destination: h(9), differs: true };
    assert_eq!(s.handle_message(m), None);
    assert_eq!(s, section(None));
}

#[test]
fn add_buttons_add_emitters() {
    let mut s = section(Some(0));
    let click = |d| SectionMessage::ButtonClicked { destination: h(d) };
    assert_eq!(s.handle_message(click(3)), Some(SectionCommand::AddEmitter(EmitterKind::Box)));
    assert_eq!(s.handle_message(click(4)), Some(SectionCommand::AddEmitter(EmitterKind::Sphere)));
    assert_eq!(
        s.handle_message(click(5)),
        Some(SectionCommand::AddEmitter(EmitterKind::Cylinder))
    );
    assert_eq!(s.handle_message(click(2)), None);
    assert_eq!(s, section(Some(0)));
}

#[test]
fn deleted_emitter_is_deleted() {
    let mut s = section(Some(1));
    let m = SectionMessage::EmitterDeleted { emitter: 1 };
    assert_eq!(s.handle_message(m), Some(SectionCommand::DeleteEmitter(1)));
    assert_eq!(s, section(Some(1)));
}

#[test]
fn new_choice_in_list_is_kept() {
    let mut s = section(Some(1));
    let m = SectionMessage::SelectionChanged { destination: h(6), selection: Some(2) };
    assert_eq!(s.handle_message(m), Some(SectionCommand::SyncToModel));
    assert_eq!(s, section(Some(2)));
    let m = SectionMessage::SelectionChanged { destination: h(6), selection: None };
    assert_eq!(s.handle_message(m), Some(SectionCommand::SyncToModel));
    assert_eq!(s, section(None));
}

#[test]
fn choice_in_other_list_is_ignored() {
    let mut s = section(Some(1));
    let m = SectionMessage::SelectionChanged { destination: h(7), selection: Some(0) };
    assert_eq!(s.handle_message(m), None);
    assert_eq!(s, section(Some(1)));
}
