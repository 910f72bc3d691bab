use forward_render::context::CoreError;
use forward_render::forward_mesh::{
    select_material, Color, ColorSource, Error, ForwardPass, ForwardShaders, Lighting,
    PhongForwardMesh, PhongMaterial,
};
use forward_render::mesh::{Attribute, CPUMesh};
use forward_render::population::{ProgramPopulationCache, ProgramSlot};
use std::cell::{Cell, RefCell};

const WHITE: Color = Color { r: 255, g: 255, b: 255, a: 255 };
const RED: Color = Color { r: 255, g: 0, b: 0, a: 255 };

fn cpu_mesh(name: &str, material_name: Option<&str>, attributes: &[&str]) -> CPUMesh {
    CPUMesh {
        name: name.to_string(),
        material_name: material_name.map(|n| n.to_string()),
        indices: None,
        no_vertices: 3,
        attributes: attributes
            .iter()
            .map(|n| Attribute { name: n.to_string(), no_components: 3 })
            .collect(),
    }
}

fn material(name: &str, color_source: ColorSource) -> PhongMaterial {
    PhongMaterial { name: name.to_string(), color_source }
}

fn shaders() -> ForwardShaders {
    ForwardShaders {
        colored_forward_ambient: "CA".to_string(),
        textured_forward_ambient: "TA".to_string(),
        light_shared: "SHARED".to_string(),
        colored_forward_ambient_directional: "CAD".to_string(),
        textured_forward_ambient_directional: "TAD".to_string(),
    }
}

fn forward_mesh(
    cache: &mut ProgramPopulationCache<String>,
    attributes: &[&str],
    color_source: ColorSource,
) -> PhongForwardMesh<u32> {
    PhongForwardMesh::new(
        cache,
        &cpu_mesh("mesh", None, attributes),
        &material("m", color_source),
        |_| Ok(7),
    )
    .unwrap()
}

#[test]
fn default_material_is_white_and_named_default() {
    let material = PhongMaterial::default();
    assert_eq!(material.name, "default");
    assert_eq!(material.color_source, ColorSource::Color(WHITE));
}

#[test]
fn clone_copies_name_and_color_source() {
    let first = material("metal", ColorSource::Texture(12));
    let copy = first.clone();
    assert_eq!(copy.name, "metal");
    assert_eq!(copy.color_source, ColorSource::Texture(12));
}

#[test]
fn last_material_of_the_name_is_selected() {
    let materials = vec![
        material("a", ColorSource::Color(RED)),
        material("b", ColorSource::Color(WHITE)),
        material("a", ColorSource::Texture(1)),
        material("c", ColorSource::Texture(2)),
    ];
    assert_eq!(select_material(&Some("a".to_string()), &materials), Some(2));
    assert_eq!(select_material(&Some("b".to_string()), &materials), Some(1));
    assert_eq!(select_material(&Some("c".to_string()), &materials), Some(3));
    assert_eq!(select_material(&Some("d".to_string()), &materials), None);
    assert_eq!(select_material(&None, &materials), None);
    assert_eq!(select_material(&Some("a".to_string()), &[]), None);
}

#[test]
fn mesh_without_normals_is_refused_before_upload() {
    let uploaded = Cell::new(false);
    let mut cache: ProgramPopulationCache<String> = ProgramPopulationCache::new();
    let r: Result<PhongForwardMesh<u32>, Error> = PhongForwardMesh::new(
        &mut cache,
        &cpu_mesh("bare", None, &["position", "uv_coordinates"]),
        &PhongMaterial::default(),
        |_| {
            uploaded.set(true);
            Ok(1)
        },
    );
    match r {
        Err(Error::FailedToCreateMesh { message }) => assert_eq!(
            message,
            "Cannot create a mesh without normals. Consider calling compute_normals on the CPUMesh before creating the mesh."
        ),
        _ => panic!("a mesh without normals was not refused"),
    }
    assert!(!uploaded.get());
    assert_eq!(cache.population(), 0);
}

#[test]
fn created_mesh_counts_as_a_consumer() {
    let mut cache: ProgramPopulationCache<String> = ProgramPopulationCache::new();
    let mesh: PhongForwardMesh<u32> = PhongForwardMesh::new(
        &mut cache,
        &cpu_mesh("cube", None, &["position", "normal", "uv_coordinates"]),
        &material("brick", ColorSource::Texture(3)),
        |cpu| Ok(cpu.attributes.len() as u32),
    )
    .unwrap();
    assert_eq!(cache.population(), 1);
    assert_eq!(mesh.name, "cube");
    assert_eq!(mesh.mesh, 3);
    assert_eq!(mesh.material.name, "brick");
    assert_eq!(mesh.material.color_source, ColorSource::Texture(3));
    assert!(mesh.has_uvs);

    let plain = forward_mesh(&mut cache, &["position", "normal"], ColorSource::Color(RED));
    assert!(!plain.has_uvs);
    assert_eq!(cache.population(), 2);
}

#[test]
fn failed_upload_counts_no_consumer() {
    let mut cache: ProgramPopulationCache<String> = ProgramPopulationCache::new();
    let r: Result<PhongForwardMesh<u32>, Error> = PhongForwardMesh::new(
        &mut cache,
        &cpu_mesh("cube", None, &["normal"]),
        &PhongMaterial::default(),
        |_| Err(Error::Core(CoreError::InvalidPositionBuffer(10))),
    );
    assert!(matches!(r, Err(Error::Core(CoreError::InvalidPositionBuffer(10)))));
    assert_eq!(cache.population(), 0);
}

#[test]
fn release_of_the_last_mesh_drops_the_programs() {
    let mut cache: ProgramPopulationCache<String> = ProgramPopulationCache::new();
    let first = forward_mesh(&mut cache, &["normal"], ColorSource::Color(RED));
    let second = forward_mesh(&mut cache, &["normal"], ColorSource::Color(RED));
    first
        .render_with_ambient(&mut cache, &shaders(), |text| Ok(text.to_string()), |_, _, _| Ok(()))
        .unwrap();
    assert!(cache.get(ProgramSlot::ColorAmbient).is_some());

    assert_eq!(first.release(&mut cache), 7);
    assert_eq!(cache.population(), 1);
    assert!(cache.get(ProgramSlot::ColorAmbient).is_some());

    assert_eq!(second.release(&mut cache), 7);
    assert_eq!(cache.population(), 0);
    assert!(cache.get(ProgramSlot::ColorAmbient).is_none());
}

#[test]
fn new_meshes_gives_each_mesh_its_material() {
    let materials = vec![
        material("wood", ColorSource::Color(RED)),
        material("stone", ColorSource::Texture(5)),
        material("wood", ColorSource::Texture(9)),
    ];
    let cpu_meshes = vec![
        cpu_mesh("table", Some("wood"), &["normal"]),
        cpu_mesh("wall", Some("stone"), &["normal", "uv_coordinates"]),
        cpu_mesh("ghost", Some("ectoplasm"), &["normal"]),
        cpu_mesh("plain", None, &["normal"]),
    ];
    let mut cache: ProgramPopulationCache<String> = ProgramPopulationCache::new();
    let meshes: Vec<PhongForwardMesh<String>> = PhongForwardMesh::new_meshes(
        &mut cache,
        &cpu_meshes,
        &materials,
        |cpu| Ok(format!("gpu {}", cpu.name)),
    )
    .unwrap();
    assert_eq!(meshes.len(), 4);
    assert_eq!(cache.population(), 4);

    assert_eq!(meshes[0].name, "table");
    assert_eq!(meshes[0].mesh, "gpu table");
    assert_eq!(meshes[0].material.name, "wood");
    assert_eq!(meshes[0].material.color_source, ColorSource::Texture(9));
    assert!(!meshes[0].has_uvs);

    assert_eq!(meshes[1].name, "wall");
    assert_eq!(meshes[1].material.color_source, ColorSource::Texture(5));
    assert!(meshes[1].has_uvs);

    assert_eq!(meshes[2].material.name, "default");
    assert_eq!(meshes[2].material.color_source, ColorSource::Color(WHITE));
    assert_eq!(meshes[3].material.name, "default");
    assert_eq!(meshes[3].material.color_source, ColorSource::Color(WHITE));
}

#[test]
fn new_meshes_of_nothing_is_nothing() {
    let mut cache: ProgramPopulationCache<String> = ProgramPopulationCache::new();
    let meshes: Vec<PhongForwardMesh<u32>> =
        PhongForwardMesh::new_meshes(&mut cache, &[], &[], |_| Ok(1)).unwrap();
    assert!(meshes.is_empty());
    assert_eq!(cache.population(), 0);
}

#[test]
fn new_meshes_releases_what_it_created_when_one_fails() {
    let uploads = Cell::new(0u32);
    let cpu_meshes = vec![
        cpu_mesh("a", None, &["normal"]),
        cpu_mesh("b", None, &["normal"]),
        cpu_mesh("c", None, &["position"]),
        cpu_mesh("d", None, &["normal"]),
    ];
    let mut cache: ProgramPopulationCache<String> = ProgramPopulationCache::new();
    cache.register_consumer();
    let _ = cache.ensure(ProgramSlot::ColorAmbient, || Ok::<String, ()>("kept".to_string()));

    let r: Result<Vec<PhongForwardMesh<u32>>, Error> =
        PhongForwardMesh::new_meshes(&mut cache, &cpu_meshes, &[], |_| {
            uploads.set(uploads.get() + 1);
            Ok(uploads.get())
        });
    assert!(matches!(r, Err(Error::FailedToCreateMesh { .. })));
    assert_eq!(uploads.get(), 2);
    assert_eq!(cache.population(), 1);
    assert_eq!(cache.get(ProgramSlot::ColorAmbient).map(|p| p.as_str()), Some("kept"));

    let r: Result<Vec<PhongForwardMesh<u32>>, Error> =
        PhongForwardMesh::new_meshes(&mut cache, &cpu_meshes[..2], &[], |cpu| {
            if cpu.name == "b" {
                Err(Error::Core(CoreError::TextureCreation))
            } else {
                Ok(1)
            }
        });
    assert!(matches!(r, Err(Error::Core(CoreError::TextureCreation))));
    assert_eq!(cache.population(), 1);
}

#[test]
fn fragment_source_joins_the_shared_part_with_a_line_break() {
    let shaders = shaders();
    assert_eq!(shaders.fragment_source(ProgramSlot::ColorAmbient), "CA");
    assert_eq!(shaders.fragment_source(ProgramSlot::TextureAmbient), "TA");
    assert_eq!(shaders.fragment_source(ProgramSlot::ColorAmbientDirectional), "SHARED\nCAD");
    assert_eq!(shaders.fragment_source(ProgramSlot::TextureAmbientDirectional), "SHARED\nTAD");
}

#[test]
fn pass_names_slot_lights_and_color_source() {
    let mut cache: ProgramPopulationCache<String> = ProgramPopulationCache::new();
    let colored = forward_mesh(&mut cache, &["normal"], ColorSource::Color(RED));
    let textured = forward_mesh(&mut cache, &["normal", "uv_coordinates"], ColorSource::Texture(4));

    let ambient = Lighting::Ambient { default_light: false };
    assert_eq!(
        colored.forward_pass(ambient),
        ForwardPass {
            slot: ProgramSlot::ColorAmbient,
            lighting: ambient,
            color_source: ColorSource::Color(RED),
            has_uvs: false,
        }
    );
    assert_eq!(textured.forward_pass(ambient).slot, ProgramSlot::TextureAmbient);
    assert_eq!(
        colored.forward_pass(Lighting::AmbientDirectional).slot,
        ProgramSlot::ColorAmbientDirectional
    );
    assert_eq!(
        textured.forward_pass(Lighting::AmbientDirectional),
        ForwardPass {
            slot: ProgramSlot::TextureAmbientDirectional,
            lighting: Lighting::AmbientDirectional,
            color_source: ColorSource::Texture(4),
            has_uvs: true,
        }
    );
}

#[test]
fn program_of_a_pass_is_compiled_once_for_all_meshes() {
    let compiled = RefCell::new(Vec::new());
    let drawn = RefCell::new(Vec::new());
    let mut cache: ProgramPopulationCache<String> = ProgramPopulationCache::new();
    let first = forward_mesh(&mut cache, &["normal"], ColorSource::Color(RED));
    let second = forward_mesh(&mut cache, &["normal"], ColorSource::Color(WHITE));
    for mesh in [&first, &second, &first] {
        mesh.render_with_ambient(
            &mut cache,
            &shaders(),
            |text| {
                compiled.borrow_mut().push(text.to_string());
                Ok(format!("program of {}", text))
            },
            |program, gpu_mesh, pass| {
                drawn.borrow_mut().push((program.clone(), *gpu_mesh, pass.color_source));
                Ok(())
            },
        )
        .unwrap();
    }
    assert_eq!(*compiled.borrow(), vec!["CA".to_string()]);
    assert_eq!(
        *drawn.borrow(),
        vec![
            ("program of CA".to_string(), 7, ColorSource::Color(RED)),
            ("program of CA".to_string(), 7, ColorSource::Color(WHITE)),
            ("program of CA".to_string(), 7, ColorSource::Color(RED)),
        ]
    );
}

#[test]
fn each_pass_uses_the_program_of_its_slot() {
    let compiled = RefCell::new(Vec::new());
    let mut cache: ProgramPopulationCache<String> = ProgramPopulationCache::new();
    let colored = forward_mesh(&mut cache, &["normal"], ColorSource::Color(RED));
    let textured = forward_mesh(&mut cache, &["normal", "uv_coordinates"], ColorSource::Texture(4));
    let compile = |text: &str| -> Result<String, Error> {
        compiled.borrow_mut().push(text.to_string());
        Ok(text.to_string())
    };
    let draw = |_: &String, _: &u32, _: ForwardPass| -> Result<(), Error> { Ok(()) };

    colored.render_with_ambient(&mut cache, &shaders(), compile, draw).unwrap();
    textured.render_with_ambient(&mut cache, &shaders(), compile, draw).unwrap();
    colored.render_with_ambient_and_directional(&mut cache, &shaders(), compile, draw).unwrap();
    textured.render_with_ambient_and_directional(&mut cache, &shaders(), compile, draw).unwrap();
    colored.render_depth(&mut cache, &shaders(), compile, draw).unwrap();

    assert_eq!(*compiled.borrow(), vec!["CA", "TA", "SHARED\nCAD", "SHARED\nTAD"]);
    assert_eq!(cache.get(ProgramSlot::ColorAmbient).map(|p| p.as_str()), Some("CA"));
    assert_eq!(cache.get(ProgramSlot::TextureAmbient).map(|p| p.as_str()), Some("TA"));
    assert_eq!(
        cache.get(ProgramSlot::ColorAmbientDirectional).map(|p| p.as_str()),
        Some("SHARED\nCAD")
    );
    assert_eq!(
        cache.get(ProgramSlot::TextureAmbientDirectional).map(|p| p.as_str()),
        Some("SHARED\nTAD")
    );
}

#[test]
fn render_depth_uses_the_default_ambient_light() {
    let seen = Cell::new(None);
    let mut cache: ProgramPopulationCache<String> = ProgramPopulationCache::new();
    let mesh = forward_mesh(&mut cache, &["normal"], ColorSource::Color(RED));
    mesh.render_depth(
        &mut cache,
        &shaders(),
        |text| Ok(text.to_string()),
        |_, _, pass| {
            seen.set(Some(pass.lighting));
            Ok(())
        },
    )
    .unwrap();
    assert_eq!(seen.get(), Some(Lighting::Ambient { default_light: true }));

    mesh.render_with_ambient(
        &mut cache,
        &shaders(),
        |text| Ok(text.to_string()),
        |_, _, pass| {
            seen.set(Some(pass.lighting));
            Ok(())
        },
    )
    .unwrap();
    assert_eq!(seen.get(), Some(Lighting::Ambient { default_light: false }));
}

#[test]
fn texture_without_uv_coordinates_is_refused_in_an_ambient_pass() {
    let drawn = Cell::new(false);
    let mut cache: ProgramPopulationCache<String> = ProgramPopulationCache::new();
    let mesh = forward_mesh(&mut cache, &["normal"], ColorSource::Texture(4));
    let r = mesh.render_with_ambient(
        &mut cache,
        &shaders(),
        |text| Ok(text.to_string()),
        |_, _, _| {
            drawn.set(true);
            Ok(())
        },
    );
    match r {
        Err(Error::FailedToCreateMesh { message }) => {
            assert_eq!(message, "Cannot use a texture as color source without uv coordinates.")
        }
        _ => panic!("a textured pass without uv coordinates was not refused"),
    }
    assert!(!drawn.get());
    // The program was built before the pass was refused.
    assert_eq!(cache.get(ProgramSlot::TextureAmbient).map(|p| p.as_str()), Some("TA"));

    // With directional light the material decides when it binds.
    let r = mesh.render_with_ambient_and_directional(
        &mut cache,
        &shaders(),
        |text| Ok(text.to_string()),
        |_, _, pass| {
            drawn.set(true);
            assert!(!pass.has_uvs);
            Ok(())
        },
    );
    assert!(r.is_ok());
    assert!(drawn.get());
}

#[test]
fn compile_failure_is_returned_and_the_slot_stays_empty() {
    let drawn = Cell::new(false);
    let mut cache: ProgramPopulationCache<String> = ProgramPopulationCache::new();
    let mesh = forward_mesh(&mut cache, &["normal"], ColorSource::Color(RED));
    let r = mesh.render_with_ambient(
        &mut cache,
        &shaders(),
        |_| Err(Error::Core(CoreError::ShaderLink("unresolved".to_string()))),
        |_, _, _| {
            drawn.set(true);
            Ok(())
        },
    );
    assert!(matches!(r, Err(Error::Core(CoreError::ShaderLink(msg))) if msg == "unresolved"));
    assert!(!drawn.get());
    assert!(cache.get(ProgramSlot::ColorAmbient).is_none());
}

#[test]
fn draw_failure_is_returned() {
    let mut cache: ProgramPopulationCache<String> = ProgramPopulationCache::new();
    let mesh = forward_mesh(&mut cache, &["normal"], ColorSource::Color(RED));
    let r = mesh.render_with_ambient(
        &mut cache,
        &shaders(),
        |text| Ok(text.to_string()),
        |_, _, _| Err(Error::Core(CoreError::UnusedUniform("ambientColor".to_string()))),
    );
    assert!(matches!(r, Err(Error::Core(CoreError::UnusedUniform(name))) if name == "ambientColor"));
    assert_eq!(cache.population(), 1);
    assert_eq!(cache.get(ProgramSlot::ColorAmbient).map(|p| p.as_str()), Some("CA"));
}
