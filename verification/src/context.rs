//! The graphics context: a device handle and the resources shared by
//! everything that draws with it.
//!
//! The context keeps the compiled programs and the image effects, each built
//! once for its shader source, a camera for drawing in two dimensions and a
//! placeholder texture, each built on first use. Building is the caller's
//! part: every operation takes the closure that does it, hands the device
//! handle to it, and calls it only where the resource is missing.

use vstd::prelude::*;
use vstd::string::StringExecFns;
use crate::cache::{lendings, resource_at_hand, served, slot_served, KeyedResourceCache};

verus! {

/// What can go wrong in the core of the renderer.
#[derive(Debug)]
pub enum CoreError {
    /// A new shader could not be created.
    ShaderCreation,
    /// A shader of the named kind did not compile; the second field is the
    /// compiler's message.
    ShaderCompilation(String, String),
    /// A program did not link; the field is the linker's message.
    ShaderLink(String),
    /// The named uniform is sent to a shader that never uses it.
    UnusedUniform(String),
    /// The named attribute is sent to a shader that never uses it.
    UnusedAttribute(String),
    /// A new render target could not be created.
    RenderTargetCreation,
    /// The first field cannot be copied from a texture of the second kind.
    RenderTargetCopy(String, String),
    /// Color was read from a texture that is not RGBA.
    ReadWrongFormat,
    /// A new texture could not be created.
    TextureCreation,
    /// Texture data has the first number of pixels where the second was
    /// expected.
    InvalidTextureLength(usize, usize),
    /// A render call needs the named vertex buffer, which the mesh lacks.
    MissingMeshBuffer(String),
    /// The length of the named buffer, the second field, is not divisible by
    /// three.
    InvalidBufferLength(String, usize),
    /// An index buffer holds a value that is not below the number of vertices,
    /// which is the field.
    InvalidIndexBuffer(usize),
    /// Without indices the number of positions, the field, must be divisible
    /// by nine.
    InvalidPositionBuffer(usize),
    /// The data of the element at the first field has the second length where
    /// the third was expected.
    InvalidUniformBufferElementLength(u32, usize, usize),
    /// The first field is an index outside the range from zero to the second.
    IndexOutOfRange(usize, usize),
    /// A minimum distance is negative.
    NegativeDistance,
    /// A minimum is larger than its maximum.
    MinimumLargerThanMaximum,
}

/// A rectangle of pixels on a render target.
#[derive(Clone, Copy, Debug, PartialEq, Eq, Structural)]
pub struct Viewport {
    /// The distance of the left edge from the left edge of the target.
    pub x: i32,
    /// The distance of the bottom edge from the bottom edge of the target.
    pub y: i32,
    /// The width in pixels.
    pub width: u32,
    /// The height in pixels.
    pub height: u32,
}

/// Three whole coordinates.
#[derive(Clone, Copy, Debug, PartialEq, Eq, Structural)]
pub struct Triple {
    pub x: i64,
    pub y: i64,
    pub z: i64,
}

/// Where an orthographic camera stands and what it sees. Positions are given
/// in halves of a unit, so that the centre of a viewport of odd size is exact.
#[derive(Clone, Copy, Debug, PartialEq, Eq, Structural)]
pub struct OrthographicView {
    /// The viewport that the camera draws into.
    pub viewport: Viewport,
    /// The eye, each coordinate in halves of a unit.
    pub position_halves: Triple,
    /// The point looked at, each coordinate in halves of a unit.
    pub target_halves: Triple,
    /// The direction that is up on the screen.
    pub up: Triple,
    /// The height of the visible part of the scene, in units.
    pub height: u32,
    /// The distance to the near plane.
    pub z_near: u32,
    /// The distance to the far plane.
    pub z_far: u32,
}

impl OrthographicView {
    /// The view that the 2D camera is built with: one unit high, at one unit
    /// before the origin, with the y axis pointing down the screen.
    pub open spec fn initial(viewport: Viewport) -> OrthographicView {
        OrthographicView {
            viewport,
            position_halves: Triple { x: 0, y: 0, z: -2i64 },
            target_halves: Triple { x: 0, y: 0, z: 0 },
            up: Triple { x: 0, y: -1i64, z: 0 },
            height: 1,
            z_near: 0,
            z_far: 10,
        }
    }

    /// The view of the 2D camera for a viewport: as high as the viewport, one
    /// unit before its centre, looking at its centre, with the y axis pointing
    /// down the screen. One unit of the scene is one pixel.
    pub open spec fn covering(viewport: Viewport) -> OrthographicView {
        OrthographicView {
            viewport,
            position_halves: Triple {
                x: viewport.width as i64,
                y: viewport.height as i64,
                z: -2i64,
            },
            target_halves: Triple { x: viewport.width as i64, y: viewport.height as i64, z: 0 },
            up: Triple { x: 0, y: -1i64, z: 0 },
            height: viewport.height,
            z_near: 0,
            z_far: 10,
        }
    }

    /// Computes [`OrthographicView::initial`].
    pub fn new_initial(viewport: Viewport) -> (view: OrthographicView)
        ensures
            view == Self::initial(viewport),
    {
        OrthographicView {
            viewport,
            position_halves: Triple { x: 0, y: 0, z: -2i64 },
            target_halves: Triple { x: 0, y: 0, z: 0 },
            up: Triple { x: 0, y: -1i64, z: 0 },
            height: 1,
            z_near: 0,
            z_far: 10,
        }
    }

    /// Computes [`OrthographicView::covering`].
    pub fn new_covering(viewport: Viewport) -> (view: OrthographicView)
        ensures
            view == Self::covering(viewport),
    {
        OrthographicView {
            viewport,
            position_halves: Triple {
                x: viewport.width as i64,
                y: viewport.height as i64,
                z: -2i64,
            },
            target_halves: Triple { x: viewport.width as i64, y: viewport.height as i64, z: 0 },
            up: Triple { x: 0, y: -1i64, z: 0 },
            height: viewport.height,
            z_near: 0,
            z_far: 10,
        }
    }
}

/// Whether `camera`, handed to a refresh of which `refreshes` holds, can leave
/// the slot holding `after` with the result `res`: the camera as the refresh
/// left it is stored in any case; where the refresh succeeded it is lent to
/// the callback, and where it failed the failure is the result.
pub open spec fn camera_refreshed<C, E, R>(
    camera: C,
    refreshes: spec_fn(C, (C, Result<(), E>)) -> bool,
    lends: spec_fn(C, Result<R, E>) -> bool,
    after: Option<C>,
    res: Result<R, E>,
) -> bool {
    exists|refreshed: (C, Result<(), E>)|
        {
            &&& #[trigger] refreshes(camera, refreshed)
            &&& after == Some(refreshed.0)
            &&& match refreshed.1 {
                Ok(_) => lends(refreshed.0, res),
                Err(e) => res == Err::<R, E>(e),
            }
        }
}

/// Whether a request for the 2D camera on a slot holding `before` can leave it
/// holding `after` and return `res`. A stored camera is refreshed and lent.
/// An empty slot is first filled by the factory; where that fails the slot
/// stays empty and the failure is the result.
pub open spec fn camera_served<C, E, R>(
    before: Option<C>,
    builds: spec_fn(Result<C, E>) -> bool,
    refreshes: spec_fn(C, (C, Result<(), E>)) -> bool,
    lends: spec_fn(C, Result<R, E>) -> bool,
    after: Option<C>,
    res: Result<R, E>,
) -> bool {
    match before {
        Some(camera) => camera_refreshed(camera, refreshes, lends, after, res),
        None => exists|built: Result<C, E>|
            {
                &&& #[trigger] builds(built)
                &&& match built {
                    Ok(camera) => camera_refreshed(camera, refreshes, lends, after, res),
                    Err(e) => after is None && res == Err::<R, E>(e),
                }
            },
    }
}

/// A device handle with the resources shared by all that draw with it.
///
/// `G` is the device handle, `P` a compiled program, `F` an image effect, `C`
/// a camera and `T` a texture.
pub struct Context<G, P, F, C, T> {
    context: G,
    programs: KeyedResourceCache<P>,
    effects: KeyedResourceCache<F>,
    camera2d: Option<C>,
    dummy_tex: Option<T>,
}

/// What a program compiler can return for the given device and sources.
pub open spec fn compilations<G, P, E, B>(
    compile: B,
    device: G,
    vertex_shader_source: &str,
    fragment_shader_source: &str,
) -> spec_fn(Result<P, E>) -> bool where B: FnOnce(&G, &str, &str) -> Result<P, E> {
    |built: Result<P, E>|
        call_ensures(compile, (&device, vertex_shader_source, fragment_shader_source), built)
}

/// What an effect builder can return for the given device and source.
pub open spec fn effect_builds<G, F, E, B>(
    build: B,
    device: G,
    fragment_shader_source: &str,
) -> spec_fn(Result<F, E>) -> bool where B: FnOnce(&G, &str) -> Result<F, E> {
    |built: Result<F, E>| call_ensures(build, (&device, fragment_shader_source), built)
}

/// What a camera factory can return for the given device and view.
pub open spec fn camera_builds<G, C, E, B>(build: B, device: G, view: OrthographicView) -> spec_fn(
    Result<C, E>,
) -> bool where B: FnOnce(&G, &OrthographicView) -> Result<C, E> {
    |built: Result<C, E>| call_ensures(build, (&device, &view), built)
}

/// What a camera refresh can return for each camera handed to it with the
/// given view: the camera as it leaves it, and whether it succeeded.
pub open spec fn camera_refreshes<C, E, U>(refresh: U, view: OrthographicView) -> spec_fn(
    C,
    (C, Result<(), E>),
) -> bool where U: FnOnce(C, &OrthographicView) -> (C, Result<(), E>) {
    |camera: C, refreshed: (C, Result<(), E>)| call_ensures(refresh, (camera, &view), refreshed)
}

/// What a texture factory can return for the given device.
pub open spec fn texture_builds<G, T, E, B>(build: B, device: G) -> spec_fn(Result<T, E>) -> bool where
    B: FnOnce(&G) -> Result<T, E>,
 {
    |built: Result<T, E>| call_ensures(build, (&device,), built)
}

/// What binding a texture to `program` under `name` can return for each
/// texture.
pub open spec fn texture_bindings<P, T, E, U>(bind: U, program: &P, name: &str) -> spec_fn(
    T,
    Result<(), E>,
) -> bool where U: FnOnce(&P, &str, &T) -> Result<(), E> {
    |texture: T, r: Result<(), E>| call_ensures(bind, (program, name, &texture), r)
}

impl<G, P, F, C, T> Context<G, P, F, C, T> {
    /// The caches are in order.
    pub closed spec fn wf(self) -> bool {
        self.programs.wf() && self.effects.wf()
    }

    /// The device handle.
    pub closed spec fn device(self) -> G {
        self.context
    }

    /// The compiled programs, each under its vertex shader source followed by
    /// its fragment shader source.
    pub closed spec fn programs(self) -> Map<Seq<char>, P> {
        self.programs@
    }

    /// The image effects, each under its fragment shader source.
    pub closed spec fn effects(self) -> Map<Seq<char>, F> {
        self.effects@
    }

    /// The 2D camera, once it has been built.
    pub closed spec fn camera(self) -> Option<C> {
        self.camera2d
    }

    /// The placeholder texture, once it has been built.
    pub closed spec fn dummy_texture(self) -> Option<T> {
        self.dummy_tex
    }

    /// A context for the given device handle, with nothing built yet.
    pub fn new_from_gl_context(context: G) -> (created: Self)
        ensures
            created.wf(),
            created.device() == context,
            created.programs() == Map::<Seq<char>, P>::empty(),
            created.effects() == Map::<Seq<char>, F>::empty(),
            created.camera() is None,
            created.dummy_texture() is None,
    {
        Context {
            context,
            programs: KeyedResourceCache::new(),
            effects: KeyedResourceCache::new(),
            camera2d: None,
            dummy_tex: None,
        }
    }

    /// The device handle.
    pub fn gl_context(&self) -> (device: &G)
        ensures
            *device == self.device(),
    {
        &self.context
    }

    /// Lends the program for the two shader sources to `callback` and returns
    /// what the callback returns. The program is stored under the vertex
    /// shader source followed by the fragment shader source. Where none is
    /// stored yet, `compile` is called with the device handle and the two
    /// sources: the program that it returns is stored and lent, its failure is
    /// returned and nothing is stored. Nothing else in the context changes.
    pub fn program<E, R, B, L>(
        &mut self,
        vertex_shader_source: &str,
        fragment_shader_source: &str,
        compile: B,
        callback: L,
    ) -> (res: Result<R, E>) where
        B: FnOnce(&G, &str, &str) -> Result<P, E>,
        L: FnOnce(&P) -> Result<R, E>,

        requires
            old(self).wf(),
            !old(self).programs().contains_key(vertex_shader_source@ + fragment_shader_source@)
                ==> call_requires(
                compile,
                (&old(self).device(), vertex_shader_source, fragment_shader_source),
            ),
            old(self).programs().contains_key(vertex_shader_source@ + fragment_shader_source@)
                ==> call_requires(
                callback,
                (&old(self).programs()[vertex_shader_source@ + fragment_shader_source@],),
            ),
            forall|program: P|
                call_ensures(
                    compile,
                    (&old(self).device(), vertex_shader_source, fragment_shader_source),
                    Ok::<P, E>(program),
                ) ==> call_requires(callback, (&program,)),
        ensures
            final(self).wf(),
            final(self).device() == old(self).device(),
            final(self).effects() == old(self).effects(),
            final(self).camera() == old(self).camera(),
            final(self).dummy_texture() == old(self).dummy_texture(),
            served(
                old(self).programs(),
                vertex_shader_source@ + fragment_shader_source@,
                compilations(
                    compile,
                    old(self).device(),
                    vertex_shader_source,
                    fragment_shader_source,
                ),
                lendings(callback),
                final(self).programs(),
                res,
            ),
    {
        let key = vertex_shader_source.to_owned().concat(fragment_shader_source);
        if !self.programs.contains_key(key.as_str()) {
            let built = compile(&self.context, vertex_shader_source, fragment_shader_source);
            assert(compilations(
                compile,
                self.context,
                vertex_shader_source,
                fragment_shader_source,
            )(built));
            match self.programs.store(key.as_str(), built) {
                Ok(()) => {},
                Err(e) => {
                    return Err(e);
                },
            }
        }
        match self.programs.get(key.as_str()) {
            Some(program) => callback(program),
            None => {
                proof {
                    assert(false);
                }
                vstd::pervasive::unreached()
            },
        }
    }

    /// Lends the image effect for the fragment shader source to `callback` and
    /// returns what the callback returns. The effect is stored under the
    /// source. Where none is stored yet, `build` is called with the device
    /// handle and the source: the effect that it returns is stored and lent,
    /// its failure is returned and nothing is stored. Nothing else in the
    /// context changes.
    pub fn effect<E, R, B, L>(&mut self, fragment_shader_source: &str, build: B, callback: L) -> (res:
        Result<R, E>) where B: FnOnce(&G, &str) -> Result<F, E>, L: FnOnce(&F) -> Result<R, E>
        requires
            old(self).wf(),
            !old(self).effects().contains_key(fragment_shader_source@) ==> call_requires(
                build,
                (&old(self).device(), fragment_shader_source),
            ),
            old(self).effects().contains_key(fragment_shader_source@) ==> call_requires(
                callback,
                (&old(self).effects()[fragment_shader_source@],),
            ),
            forall|effect: F|
                call_ensures(
                    build,
                    (&old(self).device(), fragment_shader_source),
                    Ok::<F, E>(effect),
                ) ==> call_requires(callback, (&effect,)),
        ensures
            final(self).wf(),
            final(self).device() == old(self).device(),
            final(self).programs() == old(self).programs(),
            final(self).camera() == old(self).camera(),
            final(self).dummy_texture() == old(self).dummy_texture(),
            served(
                old(self).effects(),
                fragment_shader_source@,
                effect_builds(build, old(self).device(), fragment_shader_source),
                lendings(callback),
                final(self).effects(),
                res,
            ),
    {
        if !self.effects.contains_key(fragment_shader_source) {
            let built = build(&self.context, fragment_shader_source);
            assert(effect_builds(build, self.context, fragment_shader_source)(built));
            match self.effects.store(fragment_shader_source, built) {
                Ok(()) => {},
                Err(e) => {
                    return Err(e);
                },
            }
        }
        match self.effects.get(fragment_shader_source) {
            Some(effect) => callback(effect),
            None => {
                proof {
                    assert(false);
                }
                vstd::pervasive::unreached()
            },
        }
    }

    /// Lends the camera for drawing in two dimensions to `callback` and
    /// returns what the callback returns. The camera is built once, by
    /// `create` with the device handle and [`OrthographicView::initial`], and
    /// kept. On every request it is first handed to `refresh` with
    /// [`OrthographicView::covering`], which returns it fitted to the viewport;
    /// the camera is stored as the refresh returned it. A failure of `create`
    /// or of `refresh` is returned and the callback is not called. Nothing else
    /// in the context changes.
    pub fn camera2d<E, R, B, U, L>(
        &mut self,
        viewport: Viewport,
        create: B,
        refresh: U,
        callback: L,
    ) -> (res: Result<R, E>) where
        B: FnOnce(&G, &OrthographicView) -> Result<C, E>,
        U: FnOnce(C, &OrthographicView) -> (C, Result<(), E>),
        L: FnOnce(&C) -> Result<R, E>,

        requires
            old(self).wf(),
            old(self).camera() is None ==> call_requires(
                create,
                (&old(self).device(), &OrthographicView::initial(viewport)),
            ),
            forall|camera: C| #[trigger]
                resource_at_hand(
                    old(self).camera(),
                    camera_builds(create, old(self).device(), OrthographicView::initial(viewport)),
                    camera,
                ) ==> call_requires(refresh, (camera, &OrthographicView::covering(viewport))),
            forall|camera: C, refreshed: (C, Result<(), E>)|
                resource_at_hand(
                    old(self).camera(),
                    camera_builds(create, old(self).device(), OrthographicView::initial(viewport)),
                    camera,
                ) && #[trigger] call_ensures(
                    refresh,
                    (camera, &OrthographicView::covering(viewport)),
                    refreshed,
                ) && refreshed.1 is Ok ==> call_requires(callback, (&refreshed.0,)),
        ensures
            final(self).wf(),
            final(self).device() == old(self).device(),
            final(self).programs() == old(self).programs(),
            final(self).effects() == old(self).effects(),
            final(self).dummy_texture() == old(self).dummy_texture(),
            camera_served(
                old(self).camera(),
                camera_builds(create, old(self).device(), OrthographicView::initial(viewport)),
                camera_refreshes(refresh, OrthographicView::covering(viewport)),
                lendings(callback),
                final(self).camera(),
                res,
            ),
    {
        let ghost builds = camera_builds(
            create,
            self.context,
            OrthographicView::initial(viewport),
        );
        let ghost refreshes = camera_refreshes(refresh, OrthographicView::covering(viewport));
        let camera = match self.camera2d.take() {
            Some(camera) => camera,
            None => {
                let initial = OrthographicView::new_initial(viewport);
                let built = create(&self.context, &initial);
                assert(builds(built));
                match built {
                    Ok(camera) => camera,
                    Err(e) => {
                        return Err(e);
                    },
                }
            },
        };
        assert(resource_at_hand(old(self).camera(), builds, camera));
        let covering = OrthographicView::new_covering(viewport);
        let (fitted, refreshed) = refresh(camera, &covering);
        assert(refreshes(camera, (fitted, refreshed)));
        self.camera2d = Some(fitted);
        match refreshed {
            Ok(()) => match &self.camera2d {
                Some(stored) => {
                    assert(call_ensures(refresh, (camera, &covering), (fitted, refreshed)));
                    callback(stored)
                },
                None => {
                    proof {
                        assert(false);
                    }
                    vstd::pervasive::unreached()
                },
            },
            Err(e) => Err(e),
        }
    }

    /// Binds the placeholder texture to `program` under `name`, by `bind`, and
    /// returns what `bind` returns. The texture is built once, by `create` with
    /// the device handle, and kept; where `create` fails, its failure is
    /// returned, nothing is stored and `bind` is not called. Nothing else in the
    /// context changes.
    pub fn use_texture_dummy<E, B, U>(&mut self, program: &P, name: &str, create: B, bind: U) -> (res:
        Result<(), E>) where B: FnOnce(&G) -> Result<T, E>, U: FnOnce(&P, &str, &T) -> Result<(), E>
        requires
            old(self).wf(),
            old(self).dummy_texture() is None ==> call_requires(create, (&old(self).device(),)),
            forall|texture: T| #[trigger]
                resource_at_hand(
                    old(self).dummy_texture(),
                    texture_builds(create, old(self).device()),
                    texture,
                ) ==> call_requires(bind, (program, name, &texture)),
        ensures
            final(self).wf(),
            final(self).device() == old(self).device(),
            final(self).programs() == old(self).programs(),
            final(self).effects() == old(self).effects(),
            final(self).camera() == old(self).camera(),
            slot_served(
                old(self).dummy_texture(),
                texture_builds(create, old(self).device()),
                texture_bindings(bind, program, name),
                final(self).dummy_texture(),
                res,
            ),
    {
        if self.dummy_tex.is_none() {
            let built = create(&self.context);
            assert(texture_builds(create, self.context)(built));
            match built {
                Ok(texture) => {
                    self.dummy_tex = Some(texture);
                },
                Err(e) => {
                    return Err(e);
                },
            }
        }
        match &self.dummy_tex {
            Some(texture) => {
                assert(resource_at_hand(
                    old(self).dummy_texture(),
                    texture_builds(create, old(self).device()),
                    *texture,
                ));
                bind(program, name, texture)
            },
            None => {
                proof {
                    assert(false);
                }
                vstd::pervasive::unreached()
            },
        }
    }
}

} // verus!
