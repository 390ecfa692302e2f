use effect_viewer::effects::{load_shader, UniformName, UniformValue};
use effect_viewer::shader_program::{ShaderProgram, UniformWrite};
use effect_viewer::SelectShader;

#[test]
fn uniforms_resolve_to_their_registered_locations() {
    let mut p = ShaderProgram::new(42);
    assert_eq!(p.handle(), 42);
    assert!(!p.is_registered(UniformName::Resolution));
    assert_eq!(p.find_location(UniformName::Resolution), None);

    p.register_uniform(UniformName::Resolution, 3);
    p.register_uniform(UniformName::CellSize, 5);
    assert!(p.is_registered(UniformName::Resolution));
    assert!(p.is_registered(UniformName::CellSize));
    assert!(!p.is_registered(UniformName::Time));
    assert_eq!(p.find_location(UniformName::Resolution), Some(3));
    assert_eq!(p.find_location(UniformName::CellSize), Some(5));

    let w = p.set_vec2(UniformName::Resolution, 800, 600);
    assert_eq!(w, UniformWrite { location: 3, value: UniformValue::Vec2(800, 600) });
    let w = p.set_float(UniformName::CellSize, 8);
    assert_eq!(w, UniformWrite { location: 5, value: UniformValue::Float(8) });
}

#[test]
fn re_registration_takes_the_latest_location() {
    let mut p = ShaderProgram::new(1);
    p.register_uniform(UniformName::Time, 2);
    p.register_uniform(UniformName::Time, 9);
    assert_eq!(p.find_location(UniformName::Time), Some(9));
    let w = p.set_float(UniformName::Time, 0);
    assert_eq!(w, UniformWrite { location: 9, value: UniformValue::Float(0) });
}

#[test]
fn typed_setters_produce_typed_writes() {
    let mut p = ShaderProgram::new(1);
    p.register_uniform(UniformName::FontGrid, 4);
    p.register_uniform(UniformName::GlyphCount, 6);
    let w = p.set_ivec2(UniformName::FontGrid, 15, 1);
    assert_eq!(w, UniformWrite { location: 4, value: UniformValue::IVec2(15, 1) });
    let w = p.set_int(UniformName::GlyphCount, 15);
    assert_eq!(w, UniformWrite { location: 6, value: UniformValue::Int(15) });
}

#[test]
fn writes_for_needs_every_name_registered() {
    let mut p = ShaderProgram::new(1);
    p.register_uniform(UniformName::Resolution, 7);
    let uniforms = load_shader(&SelectShader::Pixel, (800, 600)).uniforms;

    // CellSize is not registered yet: the batch is refused whole.
    assert_eq!(p.writes_for(&uniforms), None);

    p.register_uniform(UniformName::CellSize, 8);
    let writes = p.writes_for(&uniforms).unwrap();
    assert_eq!(
        writes,
        vec![
            UniformWrite { location: 7, value: UniformValue::Vec2(800, 600) },
            UniformWrite { location: 8, value: UniformValue::Vec2(8, 8) },
        ]
    );
}

#[test]
fn installing_a_recipe_registers_and_writes_in_order() {
    // A fresh program for the Ascii recipe at 1024x768, with the backend
    // having resolved one location per uniform name.
    let cfg = load_shader(&SelectShader::Ascii, (1024, 768));
    let locations: Vec<i32> = vec![10, 11, 12, 13, 14, 15];
    let mut p = ShaderProgram::new(3);
    let writes = p.install_recipe(&cfg.uniforms, &locations);

    assert_eq!(writes.len(), cfg.uniforms.len());
    for (i, w) in writes.iter().enumerate() {
        assert_eq!(*w, UniformWrite { location: locations[i], value: cfg.uniforms[i].value });
    }
    for u in cfg.uniforms.iter() {
        assert!(p.is_registered(u.name));
    }
    assert_eq!(p.find_location(UniformName::Resolution), Some(12));

    // A replacement program starts from an empty table: no carry-over.
    let fresh = ShaderProgram::new(4);
    assert!(!fresh.is_registered(UniformName::Resolution));
}
