use volumetric_renderer::app_state::AppState;
use volumetric_renderer::app_state::MouseButton;
use volumetric_renderer::app_state::ScreenPos;
use volumetric_renderer::volumetric_3d::Dims;
use volumetric_renderer::volumetric_3d::Error;
use volumetric_renderer::volumetric_3d::ProgramOutcome;
use volumetric_renderer::volumetric_3d::ProgramReady;
use volumetric_renderer::volumetric_3d::ShaderOutcome;
use volumetric_renderer::volumetric_3d::TextureOutcome;
use volumetric_renderer::volumetric_3d::UniformsFound;
use volumetric_renderer::volumetric_3d::cube_strip;
use volumetric_renderer::volumetric_3d::default_colormap;
use volumetric_renderer::volumetric_3d::density_upload_buffer;
use volumetric_renderer::volumetric_3d::new_empty_state;
use volumetric_renderer::volumetric_3d::perspective_params;

fn ok_shader() -> ShaderOutcome {
    ShaderOutcome {
        created: true,
        status: Some(true),
        log: None,
    }
}

fn all_uniforms() -> UniformsFound {
    UniformsFound {
        proj_view: true,
        eye_pos: true,
        colormap: true,
        dt_scale: true,
        volume: true,
        volume_dims: true,
        volume_scale: true,
    }
}

fn ok_program() -> ProgramOutcome {
    ProgramOutcome {
        vertex: ok_shader(),
        fragment: ok_shader(),
        program_created: true,
        link_status: Some(true),
        uniforms: all_uniforms(),
    }
}

fn ok_textures() -> TextureOutcome {
    TextureOutcome {
        colormap_created: true,
        colormap_uploaded: true,
        volume_created: true,
        volume_uploaded: true,
    }
}

/// Drives the pipeline through every stage with successful platform
/// outcomes, a 64-byte density buffer and 4x4x4 dimensions.
fn build_ready() -> ProgramReady {
    let empty = new_empty_state();
    let strip = cube_strip();
    let vertex_initialised = empty.init(&strip, true, true).unwrap();
    let compiled = vertex_initialised
        .assemble_volumetric_3d_program(ok_program())
        .unwrap();
    let _fixed = compiled.init();
    let colormap = default_colormap();
    let density: Vec<u8> = vec![9; 64];
    let dims = Dims { x: 4, y: 4, z: 4 };
    let with_textures = compiled
        .build_textures(&colormap, &density, dims, &ok_textures())
        .unwrap();
    assert!(with_textures.size_matched());
    with_textures.set_volume_metadata(dims)
}

#[test]
fn cube_strip_is_the_fixed_14_vertex_strip() {
    let strip = cube_strip();
    assert_eq!(strip.len(), 42);
    assert_eq!(
        strip,
        vec![
            255, 255, 0, 0, 255, 0, 255, 255, 255, 0, 255, 255, 0, 0, 255, 0, 255, 0, 0, 0, 0,
            255, 255, 0, 255, 0, 0, 255, 255, 255, 255, 0, 255, 0, 0, 255, 255, 0, 0, 0, 0, 0,
        ]
    );
}

#[test]
fn colormap_has_256_rgba_entries() {
    let c = default_colormap();
    assert_eq!(c.len(), 1024);
    for i in 0..256usize {
        assert_eq!(c[4 * i], i as u8);
        assert_eq!(c[4 * i + 1], i as u8);
        assert_eq!(c[4 * i + 2], 10);
        assert_eq!(c[4 * i + 3], 1);
    }
}

#[test]
fn init_reports_missing_vertex_array() {
    let empty = new_empty_state();
    let strip = cube_strip();
    match empty.init(&strip, false, true) {
        Err(err) => assert_eq!(err, "Couldn't instantiate Vertex Array Object"),
        Ok(_) => panic!("a failed allocation must abort the setup"),
    }
}

#[test]
fn init_reports_missing_buffer() {
    let empty = new_empty_state();
    let strip = cube_strip();
    match empty.init(&strip, true, false) {
        Err(err) => assert_eq!(err, "Couldn't instantiate Buffer"),
        Ok(_) => panic!("a failed allocation must abort the setup"),
    }
}

#[test]
fn compile_reports_compiler_log() {
    let empty = new_empty_state();
    let strip = cube_strip();
    let stage = empty.init(&strip, true, true).unwrap();
    let failed = ShaderOutcome {
        created: true,
        status: Some(false),
        log: Some(String::from("bad shader: line 3")),
    };
    match stage.compile_shader(failed) {
        Err(Error::Message(m)) => assert_eq!(m, "bad shader: line 3"),
        _other => panic!("expected the compiler log"),
    }
    let no_log = ShaderOutcome {
        created: true,
        status: Some(false),
        log: None,
    };
    match stage.compile_shader(no_log) {
        Err(Error::Message(m)) => assert_eq!(m, "No compiler log"),
        _other => panic!("expected a fixed note"),
    }
    let not_created = ShaderOutcome {
        created: false,
        status: None,
        log: None,
    };
    assert!(matches!(stage.compile_shader(not_created), Err(Error::Missing)));
    let no_status = ShaderOutcome {
        created: true,
        status: None,
        log: None,
    };
    assert!(matches!(stage.compile_shader(no_status), Err(Error::Missing)));
}

#[test]
fn assemble_reports_link_failure() {
    let empty = new_empty_state();
    let strip = cube_strip();
    let stage = empty.init(&strip, true, true).unwrap();
    let outcome = ProgramOutcome {
        link_status: Some(false),
        ..ok_program()
    };
    match stage.assemble_volumetric_3d_program(outcome) {
        Err(Error::Message(m)) => assert_eq!(m, "Failed to attach shaders to program"),
        _other => panic!("expected the link error"),
    }
}

#[test]
fn assemble_names_the_first_missing_uniform() {
    let empty = new_empty_state();
    let strip = cube_strip();
    let stage = empty.init(&strip, true, true).unwrap();
    let outcome = ProgramOutcome {
        uniforms: UniformsFound {
            volume_dims: false,
            volume_scale: false,
            ..all_uniforms()
        },
        ..ok_program()
    };
    match stage.assemble_volumetric_3d_program(outcome) {
        Err(Error::Message(m)) => assert_eq!(m, "volume_dims"),
        _other => panic!("expected the uniform name"),
    }
}

#[test]
fn assemble_fails_on_vertex_shader_first() {
    let empty = new_empty_state();
    let strip = cube_strip();
    let stage = empty.init(&strip, true, true).unwrap();
    let outcome = ProgramOutcome {
        vertex: ShaderOutcome {
            created: true,
            status: Some(false),
            log: Some(String::from("vertex broke")),
        },
        fragment: ShaderOutcome {
            created: false,
            status: None,
            log: None,
        },
        ..ok_program()
    };
    match stage.assemble_volumetric_3d_program(outcome) {
        Err(Error::Message(m)) => assert_eq!(m, "vertex broke"),
        _other => panic!("expected the vertex diagnostic"),
    }
}

#[test]
fn matching_density_buffer_is_uploaded_unchanged() {
    let density: Vec<u8> = (0..64).map(|i| i as u8).collect();
    let (buffer, matched) = density_upload_buffer(&density, Dims { x: 4, y: 4, z: 4 });
    assert!(matched);
    assert_eq!(buffer, density);
}

#[test]
fn short_density_buffer_is_zero_padded() {
    let density: Vec<u8> = vec![7, 8, 9];
    let (buffer, matched) = density_upload_buffer(&density, Dims { x: 2, y: 2, z: 2 });
    assert!(!matched);
    assert_eq!(buffer, vec![7, 8, 9, 0, 0, 0, 0, 0]);
}

#[test]
fn long_density_buffer_is_truncated() {
    let density: Vec<u8> = vec![1, 2, 3, 4, 5, 6];
    let (buffer, matched) = density_upload_buffer(&density, Dims { x: 2, y: 2, z: 1 });
    assert!(!matched);
    assert_eq!(buffer, vec![1, 2, 3, 4]);
}

#[test]
fn texture_failures_are_reported_in_order() {
    let colormap = default_colormap();
    let density: Vec<u8> = vec![0; 8];
    let dims = Dims { x: 2, y: 2, z: 2 };

    let no_colormap = TextureOutcome {
        colormap_created: false,
        ..ok_textures()
    };
    let stage = new_empty_state()
        .init(&cube_strip(), true, true)
        .unwrap()
        .assemble_volumetric_3d_program(ok_program())
        .unwrap();
    assert!(matches!(
        stage.build_textures(&colormap, &density, dims, &no_colormap),
        Err(Error::Missing)
    ));

    let bad_colormap_upload = TextureOutcome {
        colormap_uploaded: false,
        ..ok_textures()
    };
    let stage = new_empty_state()
        .init(&cube_strip(), true, true)
        .unwrap()
        .assemble_volumetric_3d_program(ok_program())
        .unwrap();
    match stage.build_textures(&colormap, &density, dims, &bad_colormap_upload) {
        Err(Error::Message(m)) => assert_eq!(m, "Js"),
        _other => panic!("expected the upload error"),
    }

    let no_volume = TextureOutcome {
        volume_created: false,
        ..ok_textures()
    };
    let stage = new_empty_state()
        .init(&cube_strip(), true, true)
        .unwrap()
        .assemble_volumetric_3d_program(ok_program())
        .unwrap();
    assert!(matches!(
        stage.build_textures(&colormap, &density, dims, &no_volume),
        Err(Error::Missing)
    ));

    let bad_volume_upload = TextureOutcome {
        volume_uploaded: false,
        ..ok_textures()
    };
    let stage = new_empty_state()
        .init(&cube_strip(), true, true)
        .unwrap()
        .assemble_volumetric_3d_program(ok_program())
        .unwrap();
    match stage.build_textures(&colormap, &density, dims, &bad_volume_upload) {
        Err(Error::Message(m)) => assert_eq!(m, ""),
        _other => panic!("expected the upload error"),
    }
}

#[test]
fn ready_pipeline_reports_its_metadata() {
    let ready = build_ready();
    assert_eq!(ready.dims(), Dims { x: 4, y: 4, z: 4 });
    assert_eq!(ready.volume_scale(), (1, 1, 1));
    let persp = perspective_params();
    assert_eq!(persp.fovy_deg, 65);
    assert_eq!(persp.near, 1);
    assert_eq!(persp.far, 200);
}

#[test]
fn fixed_function_defaults() {
    let stage = new_empty_state()
        .init(&cube_strip(), true, true)
        .unwrap()
        .assemble_volumetric_3d_program(ok_program())
        .unwrap();
    let fixed = stage.init();
    assert_eq!(fixed.volume_texture_unit, 0);
    assert_eq!(fixed.colormap_texture_unit, 1);
    assert_eq!(fixed.dt_scale_num, 1);
    assert_eq!(fixed.dt_scale_den, 1);
}

#[test]
fn render_is_gated_by_the_dirty_flag() {
    let ready = build_ready();
    let mut state = AppState::new();

    // No input yet: no draw call at all.
    assert!(ready.render_from_state(&mut state).draw.is_none());
    assert!(ready.render_from_state(&mut state).draw.is_none());

    // One camera input: exactly one draw on the next tick, none after.
    state.scroll_to_zoom(5);
    let first = ready.render_from_state(&mut state);
    assert!(first.draw.is_some());
    assert!(ready.render_from_state(&mut state).draw.is_none());

    // Another input re-arms the draw.
    state.update_mouse_down(ScreenPos { x: 0, y: 0 }, Some(MouseButton::Right));
    state.update_mouse_pos(ScreenPos { x: 4, y: 4 });
    assert!(ready.render_from_state(&mut state).draw.is_some());
    assert!(ready.render_from_state(&mut state).draw.is_none());
}

#[test]
fn full_setup_then_one_draw_after_a_left_drag() {
    // The whole chain on an 800x800 canvas: vertex setup with the fixed
    // cube strip, shader assembly with all seven uniforms, a 256x1 RGBA
    // colormap, a 64-byte density volume with dims (4,4,4), metadata
    // binding, then a synthetic left drag and one render tick.
    let mut state = AppState::new();
    state.update_canvas(800, 800);

    let empty = new_empty_state();
    let strip = cube_strip();
    assert_eq!(strip.len(), 14 * 3);
    let vertex_initialised = empty.init(&strip, true, true).unwrap();
    let compiled = vertex_initialised
        .assemble_volumetric_3d_program(ok_program())
        .unwrap();
    compiled.init();
    let colormap = default_colormap();
    assert_eq!(colormap.len(), 256 * 4);
    let density: Vec<u8> = vec![1; 64];
    let dims = Dims { x: 4, y: 4, z: 4 };
    let (upload, matched) = density_upload_buffer(&density, dims);
    assert!(matched);
    assert_eq!(upload.len(), 64);
    let with_textures = compiled
        .build_textures(&colormap, &density, dims, &ok_textures())
        .unwrap();
    let ready = with_textures.set_volume_metadata(dims);

    state.update_mouse_down(ScreenPos { x: 100, y: 100 }, Some(MouseButton::Left));
    let action = state.update_mouse_pos(ScreenPos { x: 140, y: 120 });
    assert!(action.is_some());

    let outcome = ready.render_from_state(&mut state);
    let draw = outcome.draw.expect("a dirty state must draw");
    assert_eq!(draw.first, 0);
    assert_eq!(draw.vertex_count, 14);
    // The one draw consumed the staleness: the next tick is silent.
    assert!(ready.render_from_state(&mut state).draw.is_none());
}
