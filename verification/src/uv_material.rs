//! Materials for forward rendering, and the material that shows the uv
//! coordinates of a surface as colors.

use vstd::prelude::*;
use crate::context::CoreError;

verus! {

/// Which channels a draw writes.
#[derive(Clone, Copy, Debug, PartialEq, Eq, Structural)]
pub struct WriteMask {
    pub red: bool,
    pub green: bool,
    pub blue: bool,
    pub alpha: bool,
    pub depth: bool,
}

/// When a fragment passes the depth test, by its depth against the stored
/// one.
#[derive(Clone, Copy, Debug, PartialEq, Eq, Structural)]
pub enum DepthTest {
    Never,
    Less,
    Equal,
    LessOrEqual,
    Greater,
    NotEqual,
    GreaterOrEqual,
    Always,
}

/// Which faces are left out.
#[derive(Clone, Copy, Debug, PartialEq, Eq, Structural)]
pub enum Cull {
    Nothing,
    Back,
    Front,
    FrontAndBack,
}

/// How a fragment is combined with what is drawn already.
#[derive(Clone, Copy, Debug, PartialEq, Eq, Structural)]
pub enum Blend {
    /// The fragment replaces it.
    Disabled,
    /// The fragment is laid over it by its alpha.
    Transparency,
    /// The fragment is added to it.
    Add,
}

/// The state of the pipeline for one draw.
#[derive(Clone, Copy, Debug, PartialEq, Eq, Structural)]
pub struct RenderStates {
    pub write_mask: WriteMask,
    pub depth_test: DepthTest,
    pub cull: Cull,
    pub blend: Blend,
}

impl RenderStates {
    /// The usual states of an opaque draw: every channel written, nearer
    /// fragments win, no face left out, no blending.
    pub open spec fn opaque() -> RenderStates {
        RenderStates {
            write_mask: WriteMask { red: true, green: true, blue: true, alpha: true, depth: true },
            depth_test: DepthTest::Less,
            cull: Cull::Nothing,
            blend: Blend::Disabled,
        }
    }
}

impl Default for RenderStates {
    fn default() -> (states: RenderStates)
        ensures
            states == RenderStates::opaque(),
    {
        RenderStates {
            write_mask: WriteMask { red: true, green: true, blue: true, alpha: true, depth: true },
            depth_test: DepthTest::Less,
            cull: Cull::Nothing,
            blend: Blend::Disabled,
        }
    }
}

/// A material that a mesh can be drawn with in a forward pass. `P` is a
/// compiled program and `C` a camera.
pub trait ForwardMaterial {
    /// The source of the fragment shader, with or without vertex colors.
    fn fragment_shader_source(&self, use_vertex_colors: bool) -> String;

    /// Binds what the material needs to the program.
    fn bind<P, C>(&self, program: &P, camera: &C) -> Result<(), CoreError>;

    /// The pipeline states for a draw of an opaque or a transparent surface.
    fn render_states(&self, transparent: bool) -> RenderStates;

    /// Whether surfaces of this material are transparent.
    fn is_transparent(&self) -> bool;
}

/// The fragment shader of [`UVMaterial`]: the uv coordinates go into the red
/// and green channels of an opaque color.
pub open spec fn uv_fragment_shader() -> Seq<char> {
    "in vec2 uvs;\n\nlayout (location = 0) out vec4 outColor;\n\nvoid main()\n{\n    outColor = vec4(uvs, 0.0, 1.0);\n}\n"@
}

/// A material that shows the uv coordinates of a surface as colors.
#[derive(Clone, Copy, Debug, PartialEq, Eq, Structural)]
pub struct UVMaterial {
    /// The pipeline states that the material is drawn with.
    pub render_states: RenderStates,
}

impl Default for UVMaterial {
    fn default() -> (material: UVMaterial)
        ensures
            material.render_states == RenderStates::opaque(),
    {
        UVMaterial { render_states: RenderStates::default() }
    }
}

impl ForwardMaterial for UVMaterial {
    /// The same shader with and without vertex colors.
    fn fragment_shader_source(&self, use_vertex_colors: bool) -> (source: String)
        ensures
            source@ == uv_fragment_shader(),
    {
        "in vec2 uvs;\n\nlayout (location = 0) out vec4 outColor;\n\nvoid main()\n{\n    outColor = vec4(uvs, 0.0, 1.0);\n}\n".to_owned()
    }

    /// The material binds nothing, and so cannot fail.
    fn bind<P, C>(&self, program: &P, camera: &C) -> (res: Result<(), CoreError>)
        ensures
            res is Ok,
    {
        Ok(())
    }

    /// The states of the material, transparent or not.
    fn render_states(&self, transparent: bool) -> (states: RenderStates)
        ensures
            states == self.render_states,
    {
        self.render_states
    }

    /// Never transparent.
    fn is_transparent(&self) -> (transparent: bool)
        ensures
            !transparent,
    {
        false
    }
}

} // verus!
