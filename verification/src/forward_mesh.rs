//! Meshes drawn in one forward pass with Phong lighting.
//!
//! All such meshes share four shader programs, one for each combination of
//! color source and lighting, through a [`ProgramPopulationCache`]. Every
//! mesh counts as a consumer of that cache from its creation to its release.
//! Uploading, compiling and drawing are the caller's part and come in as
//! closures; what is decided here is which program a pass uses, what is bound
//! to it, and which requests are refused.

use vstd::prelude::*;
use vstd::string::StringExecFns;
use crate::cache::{resource_at_hand, slot_after_request};
use crate::context::CoreError;
use crate::mesh::{normal_name, uv_name, CPUMesh};
use crate::population::{
    lemma_one_more_registration,
    lemma_registrations_count,
    Population,
    ProgramPopulationCache,
    ProgramSlot,
};

verus! {

/// Why a mesh could not be created or drawn.
#[derive(Debug)]
pub enum Error {
    /// The mesh lacks what the request needs; the message says what.
    FailedToCreateMesh { message: String },
    /// A failure of the GPU layer.
    Core(CoreError),
}

/// The message for a mesh without normals.
pub open spec fn missing_normals_message() -> Seq<char> {
    "Cannot create a mesh without normals. Consider calling compute_normals on the CPUMesh before creating the mesh."@
}

/// The message for a textured material on a mesh without uv coordinates.
pub open spec fn missing_uvs_message() -> Seq<char> {
    "Cannot use a texture as color source without uv coordinates."@
}

/// A color with four channels.
#[derive(Clone, Copy, Debug, PartialEq, Eq, Structural)]
pub struct Color {
    pub r: u8,
    pub g: u8,
    pub b: u8,
    pub a: u8,
}

/// Where the color of a surface comes from.
#[derive(Clone, Copy, Debug, PartialEq, Eq, Structural)]
pub enum ColorSource {
    /// One color for the whole surface.
    Color(Color),
    /// The texture that the caller keeps under the given handle.
    Texture(u32),
}

/// A Phong material, as far as the choice of program depends on it.
#[derive(Debug)]
pub struct PhongMaterial {
    /// The name by which meshes ask for the material.
    pub name: String,
    /// Where the color comes from.
    pub color_source: ColorSource,
}

/// The name of the material that a mesh gets where it asks for none, or for
/// one that is not there.
pub open spec fn default_material_name() -> Seq<char> {
    "default"@
}

impl PhongMaterial {
    /// Whether this is the default material: opaque white under the default
    /// name.
    pub open spec fn is_default(self) -> bool {
        &&& self.name@ == default_material_name()
        &&& self.color_source == ColorSource::Color(Color { r: 255, g: 255, b: 255, a: 255 })
    }
}

impl Clone for PhongMaterial {
    /// A copy of the material.
    fn clone(&self) -> (copy: PhongMaterial)
        ensures
            copy == *self,
    {
        PhongMaterial { name: self.name.clone(), color_source: self.color_source }
    }
}

impl Default for PhongMaterial {
    /// The default material.
    fn default() -> (material: PhongMaterial)
        ensures
            material.is_default(),
    {
        PhongMaterial {
            name: "default".to_owned(),
            color_source: ColorSource::Color(Color { r: 255, g: 255, b: 255, a: 255 }),
        }
    }
}

/// Whether `place` is the place in `materials` of the material for a mesh
/// that asks for `material_name`: the place of the last material of that
/// name, and none where the mesh asks for no material or for one that is not
/// there. Such a mesh gets the default material.
pub open spec fn selected_material(
    material_name: Option<String>,
    materials: Seq<PhongMaterial>,
    place: Option<usize>,
) -> bool {
    match place {
        Some(at) => {
            &&& material_name is Some
            &&& at < materials.len()
            &&& materials[at as int].name@ == material_name->Some_0@
            &&& forall|j: int| at < j < materials.len() ==> (#[trigger] materials[j]).name@
                != material_name->Some_0@
        },
        None => material_name is Some ==> forall|j: int|
            0 <= j < materials.len() ==> (#[trigger] materials[j]).name@ != material_name->Some_0@,
    }
}

/// Finds the material for a mesh that asks for `material_name`.
pub fn select_material(material_name: &Option<String>, materials: &[PhongMaterial]) -> (place:
    Option<usize>)
    ensures
        selected_material(*material_name, materials@, place),
{
    match material_name {
        Some(wanted) => {
            let mut i: usize = materials.len();
            while i > 0
                invariant
                    i <= materials@.len(),
                    *material_name == Some(*wanted),
                    forall|j: int| i <= j < materials@.len() ==> (#[trigger] materials@[j]).name@
                        != wanted@,
                decreases i,
            {
                i -= 1;
                if materials[i].name == *wanted {
                    return Some(i);
                }
            }
            None
        },
        None => None,
    }
}

/// The texts of the fragment shaders of the forward pass.
pub struct ForwardShaders {
    /// Plain color, ambient light.
    pub colored_forward_ambient: String,
    /// Texture, ambient light.
    pub textured_forward_ambient: String,
    /// What the shaders with directional light share; it stands before them.
    pub light_shared: String,
    /// Plain color, ambient and directional light.
    pub colored_forward_ambient_directional: String,
    /// Texture, ambient and directional light.
    pub textured_forward_ambient_directional: String,
}

impl ForwardShaders {
    /// The fragment shader source of the program in the given slot. With
    /// directional light it is the shared part, a line break and the part of
    /// the slot.
    pub open spec fn source(self, slot: ProgramSlot) -> Seq<char> {
        match slot {
            ProgramSlot::ColorAmbient => self.colored_forward_ambient@,
            ProgramSlot::TextureAmbient => self.textured_forward_ambient@,
            ProgramSlot::ColorAmbientDirectional => self.light_shared@ + seq!['\n']
                + self.colored_forward_ambient_directional@,
            ProgramSlot::TextureAmbientDirectional => self.light_shared@ + seq!['\n']
                + self.textured_forward_ambient_directional@,
        }
    }

    /// Computes [`ForwardShaders::source`].
    pub fn fragment_source(&self, slot: ProgramSlot) -> (text: String)
        ensures
            text@ == self.source(slot),
    {
        proof {
            reveal_strlit("\n");
            assert("\n"@ =~= seq!['\n']);
        }
        match slot {
            ProgramSlot::ColorAmbient => self.colored_forward_ambient.clone(),
            ProgramSlot::TextureAmbient => self.textured_forward_ambient.clone(),
            ProgramSlot::ColorAmbientDirectional => self.light_shared.clone().concat("\n").concat(
                self.colored_forward_ambient_directional.as_str(),
            ),
            ProgramSlot::TextureAmbientDirectional => self.light_shared.clone().concat(
                "\n",
            ).concat(self.textured_forward_ambient_directional.as_str()),
        }
    }
}

/// The lights of a forward pass.
#[derive(Clone, Copy, Debug, PartialEq, Eq, Structural)]
pub enum Lighting {
    /// Ambient light only: the given one, or the default ambient light where
    /// only depth matters.
    Ambient { default_light: bool },
    /// Ambient and directional light.
    AmbientDirectional,
}

/// What one forward pass binds to its program before the mesh is drawn.
///
/// With ambient light: the uniform `ambientColor`, the color of the light
/// times its intensity; then the uniform `surfaceColor` for a plain color, or
/// the texture `tex` for a textured material.
///
/// With ambient and directional light: the uniform `ambientColor`; the
/// uniform `eyePosition`, the position of the camera; the texture
/// `shadowMap` and the uniform block `DirectionalLightUniform` of the
/// directional light; then what the material binds itself, which depends on
/// whether the mesh has uv coordinates.
#[derive(Clone, Copy, Debug, PartialEq, Eq, Structural)]
pub struct ForwardPass {
    /// The slot of the program.
    pub slot: ProgramSlot,
    /// The lights.
    pub lighting: Lighting,
    /// Where the color of the surface comes from.
    pub color_source: ColorSource,
    /// Whether the mesh has uv coordinates.
    pub has_uvs: bool,
}

/// The slot of the program for a color source and a lighting.
pub open spec fn slot_for(color_source: ColorSource, lighting: Lighting) -> ProgramSlot {
    match (color_source, lighting) {
        (ColorSource::Color(_), Lighting::Ambient { .. }) => ProgramSlot::ColorAmbient,
        (ColorSource::Texture(_), Lighting::Ambient { .. }) => ProgramSlot::TextureAmbient,
        (ColorSource::Color(_), Lighting::AmbientDirectional) => ProgramSlot::ColorAmbientDirectional,
        (ColorSource::Texture(_), Lighting::AmbientDirectional) =>
            ProgramSlot::TextureAmbientDirectional,
    }
}

/// Whether a pass is refused before anything is drawn: an ambient pass with a
/// texture on a mesh without uv coordinates.
pub open spec fn pass_refused(pass: ForwardPass) -> bool {
    pass.lighting is Ambient && pass.color_source is Texture && !pass.has_uvs
}

/// What a compiler can return for a fragment shader source.
pub open spec fn fragment_compilations<P, B: FnOnce(&str) -> Result<P, Error>>(
    compile: B,
    source: Seq<char>,
) -> spec_fn(Result<P, Error>) -> bool {
    |built: Result<P, Error>|
        exists|text: &str| text@ == source && #[trigger] call_ensures(compile, (text,), built)
}

/// Whether a pass with `program` can end with `res`: a refused pass with the
/// refusal, any other with what the draw returns.
pub open spec fn pass_drawn<M, P, D: FnOnce(&P, &M, ForwardPass) -> Result<(), Error>>(
    draw: D,
    program: P,
    mesh: M,
    pass: ForwardPass,
    res: Result<(), Error>,
) -> bool {
    if pass_refused(pass) {
        res matches Err(Error::FailedToCreateMesh { message }) && message@ == missing_uvs_message()
    } else {
        call_ensures(draw, (&program, &mesh, pass), res)
    }
}

/// Whether a forward pass can leave the cache `after` and return `res`, where
/// `builds` holds of what the compiler can return for the program of the
/// pass.
///
/// The program of the pass is taken from its slot. An empty slot is filled
/// first; where the compiler fails, the slot stays empty and the failure is
/// the result. With the program at hand the pass is drawn, or refused. The
/// other slots and the number of consumers stay.
pub open spec fn pass_rendered<M, P, D: FnOnce(&P, &M, ForwardPass) -> Result<(), Error>>(
    builds: spec_fn(Result<P, Error>) -> bool,
    draw: D,
    mesh: M,
    pass: ForwardPass,
    before: Population<P>,
    after: Population<P>,
    res: Result<(), Error>,
) -> bool {
    match before.slot(pass.slot) {
        Some(program) => after == before && pass_drawn(draw, program, mesh, pass, res),
        None => exists|built: Result<P, Error>|
            {
                &&& #[trigger] builds(built)
                &&& after == before.with_slot(pass.slot, slot_after_request(None, built))
                &&& match built {
                    Ok(program) => pass_drawn(draw, program, mesh, pass, res),
                    Err(e) => res == Err::<(), Error>(e),
                }
            },
    }
}

/// A mesh on the GPU with its Phong material. `M` is the uploaded mesh.
pub struct PhongForwardMesh<M> {
    /// The name of the mesh.
    pub name: String,
    /// The uploaded mesh.
    pub mesh: M,
    /// The material that the mesh is drawn with.
    pub material: PhongMaterial,
    /// Whether the mesh has uv coordinates.
    pub has_uvs: bool,
}

/// What an upload can return for the given mesh.
pub open spec fn uploads<M, U: FnOnce(&CPUMesh) -> Result<M, Error>>(
    upload: U,
    cpu_mesh: CPUMesh,
) -> spec_fn(Result<M, Error>) -> bool {
    |built: Result<M, Error>| call_ensures(upload, (&cpu_mesh,), built)
}

/// Whether `res` is the refusal of a mesh without normals.
pub open spec fn refused_for_normals<T>(res: Result<T, Error>) -> bool {
    res matches Err(Error::FailedToCreateMesh { message }) && message@ == missing_normals_message()
}

/// Whether creating a forward mesh from `cpu_mesh` with `material` can leave
/// the cache `after` and return `res`, where `builds` holds of what the
/// upload can return.
///
/// A mesh without normals is refused and nothing is uploaded or counted.
/// Otherwise the mesh is uploaded; where that fails, the failure is the
/// result and nothing is counted. The created mesh has the name of the mesh
/// in main memory and a copy of the material, and counts as one consumer
/// more.
pub open spec fn mesh_created<M, P>(
    cpu_mesh: CPUMesh,
    material: PhongMaterial,
    builds: spec_fn(Result<M, Error>) -> bool,
    before: Population<P>,
    after: Population<P>,
    res: Result<PhongForwardMesh<M>, Error>,
) -> bool {
    if !cpu_mesh.has_attribute(normal_name()) {
        after == before && refused_for_normals(res)
    } else {
        exists|built: Result<M, Error>|
            {
                &&& #[trigger] builds(built)
                &&& match built {
                    Ok(mesh) => {
                        &&& after == before.registered()
                        &&& res matches Ok(created) && created.made_of(cpu_mesh, material, mesh)
                    },
                    Err(e) => after == before && res == Err::<PhongForwardMesh<M>, Error>(e),
                }
            }
    }
}

/// Whether `material` is what a mesh asking for `material_name` gets out of
/// `materials`: the last material of that name, or the default material.
pub open spec fn material_chosen(
    material_name: Option<String>,
    materials: Seq<PhongMaterial>,
    material: PhongMaterial,
) -> bool {
    exists|place: Option<usize>|
        {
            &&& #[trigger] selected_material(material_name, materials, place)
            &&& match place {
                Some(at) => material == materials[at as int],
                None => material.is_default(),
            }
        }
}

/// Whether creating forward meshes for all of `cpu_meshes` can leave the
/// cache `after` and return `res`.
///
/// The meshes are taken in order. On success there is one forward mesh for
/// each, in the same order, each uploaded by `upload` and each with the
/// material that it asks for, and each counts as a consumer. The first mesh
/// without normals, or whose upload fails, ends the work with that failure;
/// the forward meshes created until then are released again.
pub open spec fn meshes_created<M, P, U: Fn(&CPUMesh) -> Result<M, Error>>(
    cpu_meshes: Seq<CPUMesh>,
    materials: Seq<PhongMaterial>,
    upload: U,
    before: Population<P>,
    after: Population<P>,
    res: Result<Vec<PhongForwardMesh<M>>, Error>,
) -> bool {
    match res {
        Ok(meshes) => {
            &&& meshes@.len() == cpu_meshes.len()
            &&& after == before.registered_times(cpu_meshes.len())
            &&& forall|i: int|
                0 <= i < cpu_meshes.len() ==> (#[trigger] meshes@[i]).created_in_row(
                    cpu_meshes[i],
                    materials,
                    upload,
                )
        },
        Err(e) => exists|k: int| #[trigger] row_failed_at(cpu_meshes, upload, before, after, e, k),
    }
}

/// Whether a row of meshes can fail with `e` at the mesh at place `k`, leaving
/// the cache `after`: the meshes before it have normals and were counted and
/// released again, and the mesh itself has no normals or its upload failed
/// with `e`.
pub open spec fn row_failed_at<M, P, U: Fn(&CPUMesh) -> Result<M, Error>>(
    cpu_meshes: Seq<CPUMesh>,
    upload: U,
    before: Population<P>,
    after: Population<P>,
    e: Error,
    k: int,
) -> bool {
    &&& 0 <= k < cpu_meshes.len()
    &&& after == before.registered_times(k as nat).released_times(k as nat)
    &&& forall|i: int| 0 <= i < k ==> (#[trigger] cpu_meshes[i]).has_attribute(normal_name())
    &&& if cpu_meshes[k].has_attribute(normal_name()) {
        call_ensures(upload, (&cpu_meshes[k],), Err::<M, Error>(e))
    } else {
        refused_for_normals(Err::<M, Error>(e))
    }
}

impl<M> PhongForwardMesh<M> {
    /// Whether this is the forward mesh for `cpu_mesh`, uploaded as `mesh`,
    /// with `material`.
    pub open spec fn made_of(self, cpu_mesh: CPUMesh, material: PhongMaterial, mesh: M) -> bool {
        &&& self.name@ == cpu_mesh.name@
        &&& self.mesh == mesh
        &&& self.material == material
        &&& self.has_uvs == cpu_mesh.has_attribute(uv_name())
    }

    /// Whether this is the forward mesh that a row of meshes gives for
    /// `cpu_mesh`: uploaded by `upload`, with the material that the mesh asks
    /// for out of `materials`.
    pub open spec fn created_in_row<U: Fn(&CPUMesh) -> Result<M, Error>>(
        self,
        cpu_mesh: CPUMesh,
        materials: Seq<PhongMaterial>,
        upload: U,
    ) -> bool {
        &&& cpu_mesh.has_attribute(normal_name())
        &&& call_ensures(upload, (&cpu_mesh,), Ok::<M, Error>(self.mesh))
        &&& self.name@ == cpu_mesh.name@
        &&& self.has_uvs == cpu_mesh.has_attribute(uv_name())
        &&& material_chosen(cpu_mesh.material_name, materials, self.material)
    }

    /// Puts a forward mesh together.
    fn assemble(cpu_mesh: &CPUMesh, material: PhongMaterial, mesh: M) -> (created: Self)
        ensures
            created.made_of(*cpu_mesh, material, mesh),
    {
        PhongForwardMesh {
            name: cpu_mesh.name.clone(),
            mesh,
            material,
            has_uvs: cpu_mesh.has_uvs(),
        }
    }

    /// Creates the forward mesh for `cpu_mesh`, which `upload` brings to the
    /// GPU, and counts it as a consumer of `cache`. A mesh without normals is
    /// refused before anything is uploaded.
    pub fn new<P, U>(
        cache: &mut ProgramPopulationCache<P>,
        cpu_mesh: &CPUMesh,
        material: &PhongMaterial,
        upload: U,
    ) -> (res: Result<Self, Error>) where U: FnOnce(&CPUMesh) -> Result<M, Error>
        requires
            old(cache)@.consumers < u32::MAX,
            cpu_mesh.has_attribute(normal_name()) ==> call_requires(upload, (cpu_mesh,)),
        ensures
            mesh_created(
                *cpu_mesh,
                *material,
                uploads(upload, *cpu_mesh),
                old(cache)@,
                final(cache)@,
                res,
            ),
    {
        if !cpu_mesh.has_normals() {
            return Err(
                Error::FailedToCreateMesh {
                    message: "Cannot create a mesh without normals. Consider calling compute_normals on the CPUMesh before creating the mesh.".to_owned(),
                },
            );
        }
        let built = upload(cpu_mesh);
        assert(uploads(upload, *cpu_mesh)(built));
        match built {
            Ok(mesh) => {
                cache.register_consumer();
                Ok(Self::assemble(cpu_mesh, material.clone(), mesh))
            },
            Err(e) => Err(e),
        }
    }

    /// Creates the forward meshes for `cpu_meshes`, in order. Each mesh gets
    /// the last material in `materials` of the name that it asks for, and the
    /// default material where it asks for none or for one that is not there.
    /// The first failure ends the work: the meshes created until then are
    /// released, and the failure is returned.
    pub fn new_meshes<P, U>(
        cache: &mut ProgramPopulationCache<P>,
        cpu_meshes: &[CPUMesh],
        materials: &[PhongMaterial],
        upload: U,
    ) -> (res: Result<Vec<Self>, Error>) where U: Fn(&CPUMesh) -> Result<M, Error>
        requires
            old(cache)@.consumers + cpu_meshes@.len() <= u32::MAX,
            forall|i: int|
                0 <= i < cpu_meshes@.len() ==> call_requires(upload, (&#[trigger] cpu_meshes@[i],)),
        ensures
            meshes_created(cpu_meshes@, materials@, upload, old(cache)@, final(cache)@, res),
    {
        let mut meshes: Vec<Self> = Vec::new();
        let mut i: usize = 0;
        while i < cpu_meshes.len()
            invariant
                i <= cpu_meshes@.len(),
                meshes@.len() == i,
                old(cache)@.consumers + cpu_meshes@.len() <= u32::MAX,
                cache@ == old(cache)@.registered_times(i as nat),
                forall|j: int|
                    0 <= j < cpu_meshes@.len() ==> call_requires(
                        upload,
                        (&#[trigger] cpu_meshes@[j],),
                    ),
                forall|j: int|
                    0 <= j < i ==> (#[trigger] cpu_meshes@[j]).has_attribute(normal_name()),
                forall|j: int|
                    0 <= j < i ==> (#[trigger] meshes@[j]).created_in_row(
                        cpu_meshes@[j],
                        materials@,
                        upload,
                    ),
            decreases cpu_meshes.len() - i,
        {
            let cpu_mesh = &cpu_meshes[i];
            proof {
                lemma_registrations_count(old(cache)@, i as nat);
                lemma_one_more_registration(old(cache)@, i as nat);
            }
            if !cpu_mesh.has_normals() {
                cache.release_consumers(i);
                let e = Error::FailedToCreateMesh {
                    message: "Cannot create a mesh without normals. Consider calling compute_normals on the CPUMesh before creating the mesh.".to_owned(),
                };
                assert(row_failed_at(cpu_meshes@, upload, old(cache)@, cache@, e, i as int));
                return Err(e);
            }
            let place = select_material(&cpu_mesh.material_name, materials);
            let material = match place {
                Some(at) => materials[at].clone(),
                None => PhongMaterial::default(),
            };
            match upload(cpu_mesh) {
                Ok(mesh) => {
                    cache.register_consumer();
                    let created = Self::assemble(cpu_mesh, material, mesh);
                    assert(created.created_in_row(cpu_meshes@[i as int], materials@, upload));
                    meshes.push(created);
                },
                Err(e) => {
                    cache.release_consumers(i);
                    assert(row_failed_at(cpu_meshes@, upload, old(cache)@, cache@, e, i as int));
                    return Err(e);
                },
            }
            i += 1;
        }
        Ok(meshes)
    }

    /// Ends the life of the mesh: it no longer counts as a consumer of
    /// `cache`, and where it was the last one every program of the cache is
    /// dropped. Returns the uploaded mesh.
    pub fn release<P>(self, cache: &mut ProgramPopulationCache<P>) -> (mesh: M)
        ensures
            mesh == self.mesh,
            final(cache)@ == old(cache)@.released(),
    {
        let _ = cache.release_consumer();
        self.mesh
    }

    /// The pass that draws this mesh with the given lights.
    pub open spec fn pass(self, lighting: Lighting) -> ForwardPass {
        ForwardPass {
            slot: slot_for(self.material.color_source, lighting),
            lighting,
            color_source: self.material.color_source,
            has_uvs: self.has_uvs,
        }
    }

    /// Computes [`PhongForwardMesh::pass`].
    pub fn forward_pass(&self, lighting: Lighting) -> (pass: ForwardPass)
        ensures
            pass == self.pass(lighting),
    {
        let slot = match (self.material.color_source, lighting) {
            (ColorSource::Color(_), Lighting::Ambient { .. }) => ProgramSlot::ColorAmbient,
            (ColorSource::Texture(_), Lighting::Ambient { .. }) => ProgramSlot::TextureAmbient,
            (ColorSource::Color(_), Lighting::AmbientDirectional) =>
                ProgramSlot::ColorAmbientDirectional,
            (ColorSource::Texture(_), Lighting::AmbientDirectional) =>
                ProgramSlot::TextureAmbientDirectional,
        };
        ForwardPass {
            slot,
            lighting,
            color_source: self.material.color_source,
            has_uvs: self.has_uvs,
        }
    }

    /// Draws the mesh in one pass with the given lights: takes the program of
    /// the pass from `cache`, which `compile` builds from its fragment shader
    /// source where the slot is empty, refuses a textured ambient pass on a
    /// mesh without uv coordinates, and hands program, mesh and pass to
    /// `draw`.
    fn render<P, B, D>(
        &self,
        cache: &mut ProgramPopulationCache<P>,
        shaders: &ForwardShaders,
        lighting: Lighting,
        compile: B,
        draw: D,
    ) -> (res: Result<(), Error>) where
        B: FnOnce(&str) -> Result<P, Error>,
        D: FnOnce(&P, &M, ForwardPass) -> Result<(), Error>,

        requires
            self.renderable(old(cache)@, *shaders, lighting, compile, draw),
        ensures
            pass_rendered(
                fragment_compilations(compile, shaders.source(self.pass(lighting).slot)),
                draw,
                self.mesh,
                self.pass(lighting),
                old(cache)@,
                final(cache)@,
                res,
            ),
    {
        let pass = self.forward_pass(lighting);
        if cache.get(pass.slot).is_none() {
            let text = shaders.fragment_source(pass.slot);
            let built = compile(text.as_str());
            assert(fragment_compilations(compile, shaders.source(pass.slot))(built));
            match cache.fill(pass.slot, built) {
                Ok(()) => {},
                Err(e) => {
                    return Err(e);
                },
            }
        }
        let program = match cache.get(pass.slot) {
            Some(program) => program,
            None => {
                proof {
                    assert(false);
                }
                vstd::pervasive::unreached()
            },
        };
        match (pass.lighting, pass.color_source) {
            (Lighting::Ambient { .. }, ColorSource::Texture(_)) => {
                if !pass.has_uvs {
                    return Err(
                        Error::FailedToCreateMesh {
                            message: "Cannot use a texture as color source without uv coordinates.".to_owned(),
                        },
                    );
                }
            },
            _ => {},
        }
        assert(resource_at_hand(
            old(cache)@.slot(pass.slot),
            fragment_compilations(compile, shaders.source(pass.slot)),
            *program,
        ));
        draw(program, &self.mesh, pass)
    }

    /// Whether the closures of a pass can be called where the pass calls
    /// them: the compiler on the source of the program where its slot is
    /// empty, and the draw on the program of the slot, or on one that the
    /// compiler can return, unless the pass is refused.
    pub open spec fn renderable<P, B, D>(
        self,
        before: Population<P>,
        shaders: ForwardShaders,
        lighting: Lighting,
        compile: B,
        draw: D,
    ) -> bool where
        B: FnOnce(&str) -> Result<P, Error>,
        D: FnOnce(&P, &M, ForwardPass) -> Result<(), Error>,
     {
        let pass = self.pass(lighting);
        &&& before.slot(pass.slot) is None ==> forall|text: &str|
            text@ == shaders.source(pass.slot) ==> #[trigger] call_requires(compile, (text,))
        &&& !pass_refused(pass) ==> forall|program: P| #[trigger]
            resource_at_hand(
                before.slot(pass.slot),
                fragment_compilations(compile, shaders.source(pass.slot)),
                program,
            ) ==> call_requires(draw, (&program, &self.mesh, pass))
    }

    /// Draws the mesh for its depth only: an ambient pass with the default
    /// ambient light.
    pub fn render_depth<P, B, D>(
        &self,
        cache: &mut ProgramPopulationCache<P>,
        shaders: &ForwardShaders,
        compile: B,
        draw: D,
    ) -> (res: Result<(), Error>) where
        B: FnOnce(&str) -> Result<P, Error>,
        D: FnOnce(&P, &M, ForwardPass) -> Result<(), Error>,

        requires
            self.renderable(
                old(cache)@,
                *shaders,
                Lighting::Ambient { default_light: true },
                compile,
                draw,
            ),
        ensures
            pass_rendered(
                fragment_compilations(
                    compile,
                    shaders.source(self.pass(Lighting::Ambient { default_light: true }).slot),
                ),
                draw,
                self.mesh,
                self.pass(Lighting::Ambient { default_light: true }),
                old(cache)@,
                final(cache)@,
                res,
            ),
    {
        self.render(cache, shaders, Lighting::Ambient { default_light: true }, compile, draw)
    }

    /// Draws the mesh lit by the caller's ambient light. A textured material
    /// on a mesh without uv coordinates is refused.
    pub fn render_with_ambient<P, B, D>(
        &self,
        cache: &mut ProgramPopulationCache<P>,
        shaders: &ForwardShaders,
        compile: B,
        draw: D,
    ) -> (res: Result<(), Error>) where
        B: FnOnce(&str) -> Result<P, Error>,
        D: FnOnce(&P, &M, ForwardPass) -> Result<(), Error>,

        requires
            self.renderable(
                old(cache)@,
                *shaders,
                Lighting::Ambient { default_light: false },
                compile,
                draw,
            ),
        ensures
            pass_rendered(
                fragment_compilations(
                    compile,
                    shaders.source(self.pass(Lighting::Ambient { default_light: false }).slot),
                ),
                draw,
                self.mesh,
                self.pass(Lighting::Ambient { default_light: false }),
                old(cache)@,
                final(cache)@,
                res,
            ),
    {
        self.render(cache, shaders, Lighting::Ambient { default_light: false }, compile, draw)
    }

    /// Draws the mesh lit by the caller's ambient and directional light.
    pub fn render_with_ambient_and_directional<P, B, D>(
        &self,
        cache: &mut ProgramPopulationCache<P>,
        shaders: &ForwardShaders,
        compile: B,
        draw: D,
    ) -> (res: Result<(), Error>) where
        B: FnOnce(&str) -> Result<P, Error>,
        D: FnOnce(&P, &M, ForwardPass) -> Result<(), Error>,

        requires
            self.renderable(old(cache)@, *shaders, Lighting::AmbientDirectional, compile, draw),
        ensures
            pass_rendered(
                fragment_compilations(
                    compile,
                    shaders.source(self.pass(Lighting::AmbientDirectional).slot),
                ),
                draw,
                self.mesh,
                self.pass(Lighting::AmbientDirectional),
                old(cache)@,
                final(cache)@,
                res,
            ),
    {
        self.render(cache, shaders, Lighting::AmbientDirectional, compile, draw)
    }
}

} // verus!
