//! Effect recipes: each effect is a pure function of the viewport size to a
//! shader source pair and an ordered uniform-initialization list, plus the
//! per-frame refresh behavior that keeps time- and size-dependent uniforms
//! current.
//!
//! Effects are stateless descriptors, not resources: selecting one rebuilds a
//! fresh shader program from its recipe, with no uniform carry-over.
//!
//! The graphics backend takes some of these values as floats. Every such
//! value in a recipe is an exact small integer (a viewport extent, a cell
//! edge, a texture unit), so the recipes carry integers and the unverified
//! shell converts on the way to the backend.

use vstd::prelude::*;
use crate::select_shader::SelectShader;

verus! {

/// The uniform names the five effects use.
#[derive(Clone, Copy, Debug, PartialEq, Eq, Structural)]
pub enum UniformName {
    Time,
    Resolution,
    CellSize,
    ImgTexture,
    FontTexture,
    FontGrid,
    GlyphCount,
}

/// A typed uniform value. `Float` and `Vec2` are pushed to the backend as
/// floats; the carried integers are their exact values.
#[derive(Clone, Copy, Debug, PartialEq, Eq, Structural)]
pub enum UniformValue {
    Float(i32),
    Vec2(i32, i32),
    IVec2(i32, i32),
    Int(i32),
}

/// One entry of an ordered uniform-initialization list.
#[derive(Clone, Copy, Debug, PartialEq, Eq, Structural)]
pub struct UniformInit {
    pub name: UniformName,
    pub value: UniformValue,
}

/// A glyph atlas and its grid metadata as one unit, so the atlas choice and
/// the `FontGrid`/`GlyphCount` uniforms that describe it cannot drift apart.
pub struct GlyphAtlas {
    pub path: &'static str,
    pub columns: i32,
    pub rows: i32,
}

/// A shader-program configuration recipe: which source files to compile and
/// which uniforms to initialize, in order, with what values.
pub struct ShaderConfig {
    pub vertex_path: &'static str,
    pub fragment_path: &'static str,
    pub uniforms: Vec<UniformInit>,
}

/// The spelling of a uniform name in the shader sources.
pub open spec fn uniform_name_text(n: UniformName) -> Seq<char> {
    match n {
        UniformName::Time => "time"@,
        UniformName::Resolution => "resolution"@,
        UniformName::CellSize => "cell_size"@,
        UniformName::ImgTexture => "img_texture"@,
        UniformName::FontTexture => "font_texture"@,
        UniformName::FontGrid => "font_grid"@,
        UniformName::GlyphCount => "glyph_count"@,
    }
}

/// The uniform name as the shader sources spell it.
pub fn uniform_name_str(n: UniformName) -> (s: &'static str)
    ensures
        s@ == uniform_name_text(n),
{
    match n {
        UniformName::Time => "time",
        UniformName::Resolution => "resolution",
        UniformName::CellSize => "cell_size",
        UniformName::ImgTexture => "img_texture",
        UniformName::FontTexture => "font_texture",
        UniformName::FontGrid => "font_grid",
        UniformName::GlyphCount => "glyph_count",
    }
}

/// Each effect's vertex-stage source path.
pub open spec fn vertex_path_of(e: SelectShader) -> Seq<char> {
    match e {
        SelectShader::PassThrough => "shaders/none/vertex_shader.glsl"@,
        SelectShader::Test => "shaders/test/vertex_shader.glsl"@,
        SelectShader::Pixel => "shaders/pixel/vertex_shader.glsl"@,
        SelectShader::Ascii => "shaders/ascii/vertex_shader.glsl"@,
        SelectShader::EdgeDetect => "shaders/edge_detect/vertex_shader.glsl"@,
    }
}

/// Each effect's fragment-stage source path.
pub open spec fn fragment_path_of(e: SelectShader) -> Seq<char> {
    match e {
        SelectShader::PassThrough => "shaders/none/fragment_shader.glsl"@,
        SelectShader::Test => "shaders/test/fragment_shader.glsl"@,
        SelectShader::Pixel => "shaders/pixel/fragment_shader.glsl"@,
        SelectShader::Ascii => "shaders/ascii/fragment_shader_with_edge.glsl"@,
        SelectShader::EdgeDetect => "shaders/edge_detect/fragment_shader.glsl"@,
    }
}

/// The glyph atlas the `Ascii` effect renders with: 15 glyph columns in one
/// row. `FontGrid` and `GlyphCount` in the recipe are derived from these
/// fields, never set independently.
pub open spec fn ascii_atlas() -> (Seq<char>, i32, i32) {
    ("shaders/ascii/glyph_texture_v2-edge_(16x16x15).png"@, 15, 1)
}

/// The glyph atlas for the `Ascii` effect, with its grid metadata.
pub fn ascii_glyph_atlas() -> (a: GlyphAtlas)
    ensures
        a.path@ == ascii_atlas().0,
        a.columns == ascii_atlas().1,
        a.rows == ascii_atlas().2,
{
    GlyphAtlas { path: "shaders/ascii/glyph_texture_v2-edge_(16x16x15).png", columns: 15, rows: 1 }
}

/// The side of the square sampling cell the pixelation and glyph effects
/// use, in pixels.
pub open spec fn cell_edge() -> i32 {
    8
}

/// The ordered uniform-initialization list of each effect's recipe at the
/// given viewport size.
pub open spec fn recipe_uniforms(e: SelectShader, width: i32, height: i32) -> Seq<UniformInit> {
    match e {
        SelectShader::PassThrough => Seq::<UniformInit>::empty(),
        SelectShader::Test => seq![
            UniformInit { name: UniformName::Time, value: UniformValue::Float(0) },
        ],
        SelectShader::Pixel => seq![
            UniformInit {
                name: UniformName::Resolution,
                value: UniformValue::Vec2(width, height),
            },
            UniformInit {
                name: UniformName::CellSize,
                value: UniformValue::Vec2(cell_edge(), cell_edge()),
            },
        ],
        SelectShader::Ascii => seq![
            UniformInit { name: UniformName::ImgTexture, value: UniformValue::Int(0) },
            UniformInit { name: UniformName::FontTexture, value: UniformValue::Int(1) },
            UniformInit {
                name: UniformName::Resolution,
                value: UniformValue::Vec2(width, height),
            },
            UniformInit {
                name: UniformName::CellSize,
                value: UniformValue::Vec2(cell_edge(), cell_edge()),
            },
            UniformInit {
                name: UniformName::FontGrid,
                value: UniformValue::IVec2(ascii_atlas().1, ascii_atlas().2),
            },
            UniformInit { name: UniformName::GlyphCount, value: UniformValue::Int(ascii_atlas().1) },
        ],
        SelectShader::EdgeDetect => seq![
            UniformInit {
                name: UniformName::Resolution,
                value: UniformValue::Vec2(width, height),
            },
        ],
    }
}

/// The recipe of the given effect at the given viewport size: the shader
/// source pair to compile and the ordered uniform-initialization list. A
/// pure mapping: the same effect at the same size always yields the same
/// configuration.
pub fn load_shader(selected_shader: &SelectShader, size: (i32, i32)) -> (cfg: ShaderConfig)
    ensures
        cfg.vertex_path@ == vertex_path_of(*selected_shader),
        cfg.fragment_path@ == fragment_path_of(*selected_shader),
        cfg.uniforms@ == recipe_uniforms(*selected_shader, size.0, size.1),
{
    match selected_shader {
        SelectShader::PassThrough => {
            let cfg = ShaderConfig {
                vertex_path: "shaders/none/vertex_shader.glsl",
                fragment_path: "shaders/none/fragment_shader.glsl",
                uniforms: Vec::new(),
            };
            proof {
                assert(cfg.uniforms@ =~= recipe_uniforms(*selected_shader, size.0, size.1));
            }
            cfg
        },
        SelectShader::Test => {
            let mut uniforms: Vec<UniformInit> = Vec::new();
            uniforms.push(UniformInit { name: UniformName::Time, value: UniformValue::Float(0) });
            let cfg = ShaderConfig {
                vertex_path: "shaders/test/vertex_shader.glsl",
                fragment_path: "shaders/test/fragment_shader.glsl",
                uniforms,
            };
            proof {
                assert(cfg.uniforms@ =~= recipe_uniforms(*selected_shader, size.0, size.1));
            }
            cfg
        },
        SelectShader::Pixel => {
            let mut uniforms: Vec<UniformInit> = Vec::new();
            uniforms.push(UniformInit {
                name: UniformName::Resolution,
                value: UniformValue::Vec2(size.0, size.1),
            });
            uniforms.push(UniformInit {
                name: UniformName::CellSize,
                value: UniformValue::Vec2(8, 8),
            });
            let cfg = ShaderConfig {
                vertex_path: "shaders/pixel/vertex_shader.glsl",
                fragment_path: "shaders/pixel/fragment_shader.glsl",
                uniforms,
            };
            proof {
                assert(cfg.uniforms@ =~= recipe_uniforms(*selected_shader, size.0, size.1));
            }
            cfg
        },
        SelectShader::Ascii => {
            let atlas = ascii_glyph_atlas();
            let mut uniforms: Vec<UniformInit> = Vec::new();
            uniforms.push(UniformInit {
                name: UniformName::ImgTexture,
                value: UniformValue::Int(0),
            });
            uniforms.push(UniformInit {
                name: UniformName::FontTexture,
                value: UniformValue::Int(1),
            });
            uniforms.push(UniformInit {
                name: UniformName::Resolution,
                value: UniformValue::Vec2(size.0, size.1),
            });
            uniforms.push(UniformInit {
                name: UniformName::CellSize,
                value: UniformValue::Vec2(8, 8),
            });
            uniforms.push(UniformInit {
                name: UniformName::FontGrid,
                value: UniformValue::IVec2(atlas.columns, atlas.rows),
            });
            uniforms.push(UniformInit {
                name: UniformName::GlyphCount,
                value: UniformValue::Int(atlas.columns),
            });
            let cfg = ShaderConfig {
                vertex_path: "shaders/ascii/vertex_shader.glsl",
                fragment_path: "shaders/ascii/fragment_shader_with_edge.glsl",
                uniforms,
            };
            proof {
                assert(cfg.uniforms@ =~= recipe_uniforms(*selected_shader, size.0, size.1));
            }
            cfg
        },
        SelectShader::EdgeDetect => {
            let mut uniforms: Vec<UniformInit> = Vec::new();
            uniforms.push(UniformInit {
                name: UniformName::Resolution,
                value: UniformValue::Vec2(size.0, size.1),
            });
            let cfg = ShaderConfig {
                vertex_path: "shaders/edge_detect/vertex_shader.glsl",
                fragment_path: "shaders/edge_detect/fragment_shader.glsl",
                uniforms,
            };
            proof {
                assert(cfg.uniforms@ =~= recipe_uniforms(*selected_shader, size.0, size.1));
            }
            cfg
        },
    }
}

/// The uniform values an effect re-pushes every frame even without a chord
/// event: the viewport resolution for the size-dependent effects, nothing
/// for the others.
pub open spec fn frame_refresh_uniforms(e: SelectShader, width: i32, height: i32) -> Seq<
    UniformInit,
> {
    match e {
        SelectShader::PassThrough => Seq::<UniformInit>::empty(),
        SelectShader::Test => Seq::<UniformInit>::empty(),
        _ => seq![
            UniformInit {
                name: UniformName::Resolution,
                value: UniformValue::Vec2(width, height),
            },
        ],
    }
}

/// Whether an effect re-pushes the wall-clock time every frame.
pub open spec fn frame_needs_time(e: SelectShader) -> bool {
    e is Test
}

/// Whether an effect re-binds the glyph atlas on texture unit 1 every frame.
pub open spec fn frame_binds_atlas(e: SelectShader) -> bool {
    e is Ascii
}

/// The per-frame uniform refresh an effect asks for.
pub struct FrameRefresh {
    /// Uniform values to re-push this frame, in order.
    pub uniforms: Vec<UniformInit>,
    /// Whether to re-push the accumulated wall-clock time as the `Time`
    /// uniform this frame.
    pub needs_time: bool,
    /// Whether to re-bind the glyph atlas on texture unit 1 this frame.
    pub bind_glyph_atlas: bool,
}

/// The per-frame refresh of the given effect at the given viewport size.
/// A pure mapping: with no input in between, every frame re-pushes
/// identical values.
pub fn frame_refresh(selected_shader: &SelectShader, size: (i32, i32)) -> (r: FrameRefresh)
    ensures
        r.uniforms@ == frame_refresh_uniforms(*selected_shader, size.0, size.1),
        r.needs_time == frame_needs_time(*selected_shader),
        r.bind_glyph_atlas == frame_binds_atlas(*selected_shader),
{
    let mut uniforms: Vec<UniformInit> = Vec::new();
    let needs_time: bool;
    let bind_glyph_atlas: bool;
    match selected_shader {
        SelectShader::PassThrough => {
            needs_time = false;
            bind_glyph_atlas = false;
        },
        SelectShader::Test => {
            needs_time = true;
            bind_glyph_atlas = false;
        },
        SelectShader::Pixel => {
            uniforms.push(UniformInit {
                name: UniformName::Resolution,
                value: UniformValue::Vec2(size.0, size.1),
            });
            needs_time = false;
            bind_glyph_atlas = false;
        },
        SelectShader::Ascii => {
            uniforms.push(UniformInit {
                name: UniformName::Resolution,
                value: UniformValue::Vec2(size.0, size.1),
            });
            needs_time = false;
            bind_glyph_atlas = true;
        },
        SelectShader::EdgeDetect => {
            uniforms.push(UniformInit {
                name: UniformName::Resolution,
                value: UniformValue::Vec2(size.0, size.1),
            });
            needs_time = false;
            bind_glyph_atlas = false;
        },
    }
    let r = FrameRefresh { uniforms, needs_time, bind_glyph_atlas };
    proof {
        assert(r.uniforms@ =~= frame_refresh_uniforms(*selected_shader, size.0, size.1));
    }
    r
}

} // verus!
