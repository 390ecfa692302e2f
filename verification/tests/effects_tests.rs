use effect_viewer::effects::{
    ascii_glyph_atlas, frame_refresh, load_shader, uniform_name_str, UniformName, UniformValue,
};
use effect_viewer::SelectShader;

#[test]
fn next_effect_cycles_through_all_five() {
    let order = [
        SelectShader::PassThrough,
        SelectShader::Test,
        SelectShader::Pixel,
        SelectShader::Ascii,
        SelectShader::EdgeDetect,
    ];
    for (i, e) in order.iter().enumerate() {
        assert_eq!(e.next(), order[(i + 1) % 5]);
    }
}

#[test]
fn five_advances_return_to_the_start() {
    for start in [
        SelectShader::PassThrough,
        SelectShader::Test,
        SelectShader::Pixel,
        SelectShader::Ascii,
        SelectShader::EdgeDetect,
    ] {
        let e = start.next().next().next().next().next();
        assert_eq!(e, start);
    }
    assert_eq!(SelectShader::EdgeDetect.next(), SelectShader::PassThrough);
}

#[test]
fn pixel_recipe_at_800_by_600() {
    let cfg = load_shader(&SelectShader::Pixel, (800, 600));
    assert_eq!(cfg.vertex_path, "shaders/pixel/vertex_shader.glsl");
    assert_eq!(cfg.fragment_path, "shaders/pixel/fragment_shader.glsl");
    assert_eq!(cfg.uniforms.len(), 2);
    assert_eq!(cfg.uniforms[0].name, UniformName::Resolution);
    assert_eq!(cfg.uniforms[0].value, UniformValue::Vec2(800, 600));
    assert_eq!(cfg.uniforms[1].name, UniformName::CellSize);
    assert_eq!(cfg.uniforms[1].value, UniformValue::Vec2(8, 8));
}

#[test]
fn pixel_frame_refresh_is_identical_every_frame() {
    let first = frame_refresh(&SelectShader::Pixel, (800, 600));
    let second = frame_refresh(&SelectShader::Pixel, (800, 600));
    assert_eq!(first.uniforms, second.uniforms);
    assert_eq!(first.uniforms.len(), 1);
    assert_eq!(first.uniforms[0].name, UniformName::Resolution);
    assert_eq!(first.uniforms[0].value, UniformValue::Vec2(800, 600));
    assert!(!first.needs_time);
    assert!(!first.bind_glyph_atlas);
}

#[test]
fn pass_through_recipe_has_no_uniforms() {
    let cfg = load_shader(&SelectShader::PassThrough, (640, 480));
    assert_eq!(cfg.vertex_path, "shaders/none/vertex_shader.glsl");
    assert_eq!(cfg.fragment_path, "shaders/none/fragment_shader.glsl");
    assert!(cfg.uniforms.is_empty());
    let r = frame_refresh(&SelectShader::PassThrough, (640, 480));
    assert!(r.uniforms.is_empty());
    assert!(!r.needs_time);
    assert!(!r.bind_glyph_atlas);
}

#[test]
fn test_effect_animates_time() {
    let cfg = load_shader(&SelectShader::Test, (640, 480));
    assert_eq!(cfg.vertex_path, "shaders/test/vertex_shader.glsl");
    assert_eq!(cfg.uniforms.len(), 1);
    assert_eq!(cfg.uniforms[0].name, UniformName::Time);
    assert_eq!(cfg.uniforms[0].value, UniformValue::Float(0));
    let r = frame_refresh(&SelectShader::Test, (640, 480));
    assert!(r.uniforms.is_empty());
    assert!(r.needs_time);
    assert!(!r.bind_glyph_atlas);
}

#[test]
fn ascii_recipe_matches_its_glyph_atlas() {
    let atlas = ascii_glyph_atlas();
    assert_eq!(atlas.path, "shaders/ascii/glyph_texture_v2-edge_(16x16x15).png");
    assert_eq!((atlas.columns, atlas.rows), (15, 1));

    let cfg = load_shader(&SelectShader::Ascii, (1024, 768));
    assert_eq!(cfg.vertex_path, "shaders/ascii/vertex_shader.glsl");
    assert_eq!(cfg.fragment_path, "shaders/ascii/fragment_shader_with_edge.glsl");
    assert_eq!(cfg.uniforms.len(), 6);
    assert_eq!(cfg.uniforms[0].name, UniformName::ImgTexture);
    assert_eq!(cfg.uniforms[0].value, UniformValue::Int(0));
    assert_eq!(cfg.uniforms[1].name, UniformName::FontTexture);
    assert_eq!(cfg.uniforms[1].value, UniformValue::Int(1));
    assert_eq!(cfg.uniforms[2].name, UniformName::Resolution);
    assert_eq!(cfg.uniforms[2].value, UniformValue::Vec2(1024, 768));
    assert_eq!(cfg.uniforms[3].name, UniformName::CellSize);
    assert_eq!(cfg.uniforms[3].value, UniformValue::Vec2(8, 8));
    // The grid metadata is derived from the atlas, never set independently.
    assert_eq!(cfg.uniforms[4].name, UniformName::FontGrid);
    assert_eq!(cfg.uniforms[4].value, UniformValue::IVec2(atlas.columns, atlas.rows));
    assert_eq!(cfg.uniforms[5].name, UniformName::GlyphCount);
    assert_eq!(cfg.uniforms[5].value, UniformValue::Int(atlas.columns));

    let r = frame_refresh(&SelectShader::Ascii, (1024, 768));
    assert_eq!(r.uniforms.len(), 1);
    assert!(r.bind_glyph_atlas);
    assert!(!r.needs_time);
}

#[test]
fn edge_detect_recipe_has_resolution_only() {
    let cfg = load_shader(&SelectShader::EdgeDetect, (320, 200));
    assert_eq!(cfg.vertex_path, "shaders/edge_detect/vertex_shader.glsl");
    assert_eq!(cfg.fragment_path, "shaders/edge_detect/fragment_shader.glsl");
    assert_eq!(cfg.uniforms.len(), 1);
    assert_eq!(cfg.uniforms[0].name, UniformName::Resolution);
    assert_eq!(cfg.uniforms[0].value, UniformValue::Vec2(320, 200));
}

#[test]
fn uniform_names_spell_as_the_shaders_expect() {
    assert_eq!(uniform_name_str(UniformName::Time), "time");
    assert_eq!(uniform_name_str(UniformName::Resolution), "resolution");
    assert_eq!(uniform_name_str(UniformName::CellSize), "cell_size");
    assert_eq!(uniform_name_str(UniformName::ImgTexture), "img_texture");
    assert_eq!(uniform_name_str(UniformName::FontTexture), "font_texture");
    assert_eq!(uniform_name_str(UniformName::FontGrid), "font_grid");
    assert_eq!(uniform_name_str(UniformName::GlyphCount), "glyph_count");
}
