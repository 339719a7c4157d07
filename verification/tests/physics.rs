use live2d_render::physics::{
    default_io_type, io_type_of, output_particles, IoType, PhysicsDictionaryEntry, PhysicsTarget,
};

#[test]
fn default_io_type_is_angle() {
    assert_eq!(default_io_type(), "Angle");
    assert_eq!(io_type_of(&default_io_type()), IoType::Angle);
}

#[test]
fn io_type_names() {
    assert_eq!(io_type_of(&"X".to_string()), IoType::X);
    assert_eq!(io_type_of(&"Y".to_string()), IoType::Y);
    assert_eq!(io_type_of(&"Angle".to_string()), IoType::Angle);
    assert_eq!(io_type_of(&"x".to_string()), IoType::Angle);
    assert_eq!(io_type_of(&String::new()), IoType::Angle);
}

#[test]
fn position_range_for_translations_only() {
    assert!(IoType::X.uses_position_range());
    assert!(IoType::Y.uses_position_range());
    assert!(!IoType::Angle.uses_position_range());
}

#[test]
fn only_parameter_targets_are_driven() {
    let p = PhysicsTarget { target: "Parameter".to_string(), id: "ParamHairFront".to_string() };
    let o = PhysicsTarget { target: "PartOpacity".to_string(), id: "PartHair".to_string() };
    assert!(p.is_parameter());
    assert!(!o.is_parameter());
}

#[test]
fn output_vertex_index_is_one_based() {
    assert_eq!(output_particles(0, 3), None);
    assert_eq!(output_particles(1, 3), Some((1, 0)));
    assert_eq!(output_particles(2, 3), Some((2, 1)));
    assert_eq!(output_particles(3, 3), None);
    assert_eq!(output_particles(1, 1), None);
    assert_eq!(output_particles(1, 0), None);
}

#[test]
fn dictionary_entry_holds_names() {
    let e = PhysicsDictionaryEntry { id: "PhysicsSetting1".to_string(), name: "Hair front".to_string() };
    assert_eq!(e.clone(), e);
}
