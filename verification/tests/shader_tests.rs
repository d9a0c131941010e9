use block_lighting::shader::{
    BuildReport, ShaderError, ShaderKind, compile_shader, fragment_shader_source, link_program,
    vertex_shader_source,
};

fn ok_report(handle: u32) -> BuildReport {
    BuildReport { created: Some(handle), status_ok: Some(true), info_log: None }
}

#[test]
fn valid_source_compiles_to_a_usable_shader() {
    let r = compile_shader(ShaderKind::Vertex, ok_report(7));
    match r {
        Ok(shader) => {
            assert_eq!(shader.handle, 7);
            assert_eq!(shader.kind, ShaderKind::Vertex);
        }
        Err(_) => panic!("expected a compiled shader"),
    }
}

#[test]
fn failed_compile_carries_the_backend_diagnostic() {
    let report = BuildReport {
        created: Some(3),
        status_ok: Some(false),
        info_log: Some("ERROR: 0:1: 'vod' : syntax error".to_string()),
    };
    match compile_shader(ShaderKind::Fragment, report) {
        Err(ShaderError::CompileFailed(log)) => {
            assert!(!log.is_empty());
            assert_eq!(log, "ERROR: 0:1: 'vod' : syntax error");
        }
        _ => panic!("expected a compile failure"),
    }
}

#[test]
fn missing_log_falls_back_to_the_documented_text() {
    let report = BuildReport { created: Some(3), status_ok: Some(false), info_log: None };
    match compile_shader(ShaderKind::Vertex, report) {
        Err(ShaderError::CompileFailed(log)) => {
            assert_eq!(log, "Unknown error creating shader");
        }
        _ => panic!("expected a compile failure"),
    }
}

#[test]
fn missing_status_boolean_counts_as_failure() {
    let report = BuildReport {
        created: Some(3),
        status_ok: None,
        info_log: Some("no boolean status".to_string()),
    };
    assert!(matches!(
        compile_shader(ShaderKind::Vertex, report),
        Err(ShaderError::CompileFailed(_))
    ));
}

#[test]
fn allocation_failure_is_distinct_from_compile_failure() {
    let report = BuildReport { created: None, status_ok: None, info_log: None };
    assert!(matches!(
        compile_shader(ShaderKind::Vertex, report),
        Err(ShaderError::ResourceCreationFailed)
    ));
}

#[test]
fn linking_two_valid_shaders_yields_a_program() {
    let vert = compile_shader(ShaderKind::Vertex, ok_report(1)).unwrap();
    let frag = compile_shader(ShaderKind::Fragment, ok_report(2)).unwrap();
    let shaders = vec![vert, frag];
    match link_program(&shaders, ok_report(9)) {
        Ok(program) => {
            assert_eq!(program.handle, 9);
            // Attachment order is the given order.
            assert_eq!(program.attached, vec![1, 2]);
        }
        Err(_) => panic!("expected a linked program"),
    }
}

#[test]
fn link_failure_carries_the_backend_diagnostic() {
    let vert = compile_shader(ShaderKind::Vertex, ok_report(1)).unwrap();
    let frag = compile_shader(ShaderKind::Fragment, ok_report(2)).unwrap();
    let shaders = vec![vert, frag];
    let report = BuildReport {
        created: Some(9),
        status_ok: Some(false),
        info_log: Some("ERROR: linking failed".to_string()),
    };
    match link_program(&shaders, report) {
        Err(ShaderError::LinkFailed(log)) => {
            assert!(!log.is_empty());
            assert_eq!(log, "ERROR: linking failed");
        }
        _ => panic!("expected a link failure"),
    }
}

#[test]
fn link_allocation_failure_is_distinct() {
    let vert = compile_shader(ShaderKind::Vertex, ok_report(1)).unwrap();
    let shaders = vec![vert];
    let report = BuildReport { created: None, status_ok: None, info_log: None };
    assert!(matches!(
        link_program(&shaders, report),
        Err(ShaderError::ResourceCreationFailed)
    ));
}

#[test]
fn builtin_sources_carry_their_kind_tags() {
    let vert = vertex_shader_source();
    let frag = fragment_shader_source();
    assert_eq!(vert.kind, ShaderKind::Vertex);
    assert_eq!(frag.kind, ShaderKind::Fragment);
    assert!(vert.text.contains("gl_Position"));
    assert!(frag.text.contains("gl_FragColor"));
}
