use forward_render::context::{Context, CoreError, OrthographicView, Triple, Viewport};
use std::cell::Cell;

type TestContext = Context<&'static str, String, String, Vec<OrthographicView>, u32>;

fn viewport(width: u32, height: u32) -> Viewport {
    Viewport { x: 0, y: 0, width, height }
}

#[test]
fn new_context_holds_the_device() {
    let context: TestContext = Context::new_from_gl_context("device");
    assert_eq!(*context.gl_context(), "device");
}

#[test]
fn program_is_compiled_once_for_its_sources() {
    let compiled = Cell::new(0u32);
    let mut context: TestContext = Context::new_from_gl_context("device");
    for _ in 0..2 {
        let r: Result<String, CoreError> = context.program(
            "vs",
            "fs",
            |device, vs, fs| {
                compiled.set(compiled.get() + 1);
                Ok(format!("{}:{}:{}", device, vs, fs))
            },
            |program| Ok(program.clone()),
        );
        assert_eq!(r.unwrap(), "device:vs:fs");
    }
    assert_eq!(compiled.get(), 1);
}

#[test]
fn program_key_is_vertex_source_followed_by_fragment_source() {
    let compiled = Cell::new(0u32);
    let mut context: TestContext = Context::new_from_gl_context("device");
    let mut request = |vs: &str, fs: &str| -> String {
        context
            .program(
                vs,
                fs,
                |_, vs, fs| {
                    compiled.set(compiled.get() + 1);
                    Ok(format!("{}|{}", vs, fs))
                },
                |program: &String| Ok::<String, CoreError>(program.clone()),
            )
            .unwrap()
    };
    assert_eq!(request("ab", "c"), "ab|c");
    // Same concatenation, so the stored program is lent again.
    assert_eq!(request("a", "bc"), "ab|c");
    assert_eq!(request("c", "ab"), "c|ab");
    assert_eq!(compiled.get(), 2);
}

#[test]
fn program_failure_is_returned_and_nothing_is_stored() {
    let mut context: TestContext = Context::new_from_gl_context("device");
    let r: Result<(), CoreError> = context.program(
        "vs",
        "fs",
        |_, _, _| Err(CoreError::ShaderCompilation("fragment".to_string(), "syntax".to_string())),
        |_| Ok(()),
    );
    assert!(matches!(r, Err(CoreError::ShaderCompilation(stage, msg)) if stage == "fragment" && msg == "syntax"));

    let r: Result<u32, CoreError> =
        context.program("vs", "fs", |_, _, _| Ok("second".to_string()), |p| Ok(p.len() as u32));
    assert_eq!(r.unwrap(), 6);
}

#[test]
fn effect_is_built_once_for_its_source() {
    let built = Cell::new(0u32);
    let mut context: TestContext = Context::new_from_gl_context("device");
    for source in ["blur", "fog", "blur"] {
        let r: Result<String, CoreError> = context.effect(
            source,
            |device, fs| {
                built.set(built.get() + 1);
                Ok(format!("{}/{}", device, fs))
            },
            |effect| Ok(effect.clone()),
        );
        assert_eq!(r.unwrap(), format!("device/{}", source));
    }
    assert_eq!(built.get(), 2);
}

#[test]
fn effects_and_programs_are_kept_apart() {
    let mut context: TestContext = Context::new_from_gl_context("device");
    let _: Result<(), CoreError> =
        context.program("", "same", |_, _, _| Ok("program".to_string()), |_| Ok(()));
    let r: Result<String, CoreError> =
        context.effect("same", |_, _| Ok("effect".to_string()), |e| Ok(e.clone()));
    assert_eq!(r.unwrap(), "effect");
}

#[test]
fn initial_view_is_one_unit_before_the_origin() {
    let view = OrthographicView::new_initial(viewport(640, 480));
    assert_eq!(view.viewport, viewport(640, 480));
    assert_eq!(view.position_halves, Triple { x: 0, y: 0, z: -2 });
    assert_eq!(view.target_halves, Triple { x: 0, y: 0, z: 0 });
    assert_eq!(view.up, Triple { x: 0, y: -1, z: 0 });
    assert_eq!(view.height, 1);
    assert_eq!(view.z_near, 0);
    assert_eq!(view.z_far, 10);
}

#[test]
fn covering_view_looks_at_the_centre_of_the_viewport() {
    let view = OrthographicView::new_covering(viewport(641, 480));
    assert_eq!(view.position_halves, Triple { x: 641, y: 480, z: -2 });
    assert_eq!(view.target_halves, Triple { x: 641, y: 480, z: 0 });
    assert_eq!(view.up, Triple { x: 0, y: -1, z: 0 });
    assert_eq!(view.height, 480);
    assert_eq!(view.z_near, 0);
    assert_eq!(view.z_far, 10);

    let largest = OrthographicView::new_covering(viewport(u32::MAX, u32::MAX));
    assert_eq!(largest.position_halves.x, 4294967295);
    assert_eq!(largest.height, u32::MAX);
}

#[test]
fn camera2d_is_created_once_and_refreshed_on_every_request() {
    let created = Cell::new(0u32);
    let mut context: TestContext = Context::new_from_gl_context("device");
    for (n, width) in [(1usize, 100u32), (2, 200), (3, 300)] {
        let r: Result<Vec<OrthographicView>, CoreError> = context.camera2d(
            viewport(width, 50),
            |_, initial| {
                created.set(created.get() + 1);
                Ok(vec![*initial])
            },
            |mut camera, covering| {
                camera.push(*covering);
                (camera, Ok(()))
            },
            |camera| Ok(camera.clone()),
        );
        let history = r.unwrap();
        // The initial view of the first request, then one refresh for each request.
        assert_eq!(history.len(), n + 1);
        assert_eq!(history[0], OrthographicView::new_initial(viewport(100, 50)));
        assert_eq!(history[n], OrthographicView::new_covering(viewport(width, 50)));
    }
    assert_eq!(created.get(), 1);
}

#[test]
fn camera2d_creation_failure_is_returned() {
    let refreshed = Cell::new(false);
    let mut context: TestContext = Context::new_from_gl_context("device");
    let r: Result<(), CoreError> = context.camera2d(
        viewport(10, 10),
        |_, _| Err(CoreError::RenderTargetCreation),
        |camera, _| {
            refreshed.set(true);
            (camera, Ok(()))
        },
        |_| Ok(()),
    );
    assert!(matches!(r, Err(CoreError::RenderTargetCreation)));
    assert!(!refreshed.get());

    // Nothing was stored: the next request creates.
    let r: Result<usize, CoreError> = context.camera2d(
        viewport(10, 10),
        |_, initial| Ok(vec![*initial]),
        |camera, _| (camera, Ok(())),
        |camera| Ok(camera.len()),
    );
    assert_eq!(r.unwrap(), 1);
}

#[test]
fn camera2d_refresh_failure_keeps_the_camera() {
    let created = Cell::new(0u32);
    let called = Cell::new(false);
    let mut context: TestContext = Context::new_from_gl_context("device");
    let r: Result<(), CoreError> = context.camera2d(
        viewport(10, 10),
        |_, initial| {
            created.set(created.get() + 1);
            Ok(vec![*initial])
        },
        |camera, _| (camera, Err(CoreError::NegativeDistance)),
        |_| {
            called.set(true);
            Ok(())
        },
    );
    assert!(matches!(r, Err(CoreError::NegativeDistance)));
    assert!(!called.get());

    let r: Result<usize, CoreError> = context.camera2d(
        viewport(10, 10),
        |_, initial| {
            created.set(created.get() + 1);
            Ok(vec![*initial])
        },
        |mut camera, covering| {
            camera.push(*covering);
            (camera, Ok(()))
        },
        |camera| Ok(camera.len()),
    );
    assert_eq!(r.unwrap(), 2);
    assert_eq!(created.get(), 1);
}

#[test]
fn dummy_texture_is_created_once() {
    let created = Cell::new(0u32);
    let mut context: TestContext = Context::new_from_gl_context("device");
    let bound = Cell::new(0u32);
    for name in ["tex", "shadowMap"] {
        let program = "program".to_string();
        let r: Result<(), CoreError> = context.use_texture_dummy(
            &program,
            name,
            |_| {
                created.set(created.get() + 1);
                Ok(40 + created.get())
            },
            |p, n, texture| {
                assert_eq!(p, "program");
                assert_eq!(n, name);
                bound.set(*texture);
                Ok(())
            },
        );
        assert!(r.is_ok());
        assert_eq!(bound.get(), 41);
    }
    assert_eq!(created.get(), 1);
}

#[test]
fn dummy_texture_failure_is_returned_without_binding() {
    let bound = Cell::new(false);
    let mut context: TestContext = Context::new_from_gl_context("device");
    let program = "program".to_string();
    let r: Result<(), CoreError> = context.use_texture_dummy(
        &program,
        "tex",
        |_| Err(CoreError::TextureCreation),
        |_, _, _| {
            bound.set(true);
            Ok(())
        },
    );
    assert!(matches!(r, Err(CoreError::TextureCreation)));
    assert!(!bound.get());
}
