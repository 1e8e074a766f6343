use render_gl::buffer::{
    render_calls, vertex_array_setup, vertex_attrib_pointers, vertex_count, ArrayBuffer,
    VertexArray,
};
use render_gl::context::{GlCall, GL_TRIANGLES};
use render_gl::data::{AttribKind, AttribLayout};
use render_gl::shader::{Error, Program, Shader, ShaderKind, NO_FRAGMENT_STAGE};
use render_gl::viewport::Viewport;

fn compiled(id: u32, kind: ShaderKind) -> Shader {
    match Shader::from_compile_status(id, kind, true, String::new()) {
        (Ok(s), calls) => {
            assert!(calls.is_empty());
            s
        }
        (Err(e), _) => panic!("unexpected error {:?}", e),
    }
}

#[test]
fn failed_compile_reports_log_and_releases_handle() {
    let log = String::from("0:1(1): error: syntax error, unexpected IDENTIFIER");
    let (r, calls) = Shader::from_compile_status(3, ShaderKind::Vertex, false, log.clone());
    match r {
        Err(Error::CompileError { log: got }) => {
            assert!(!got.is_empty());
            assert!(got.contains("syntax error"));
            assert_eq!(got, log);
        }
        _ => panic!("expected a compile error"),
    }
    assert_eq!(calls, vec![GlCall::DeleteShader { shader: 3 }]);
}

#[test]
fn failed_compile_of_empty_handle_deletes_nothing() {
    let (r, calls) = Shader::from_compile_status(0, ShaderKind::Fragment, false, String::from("x"));
    assert!(matches!(r, Err(Error::CompileError { .. })));
    assert!(calls.is_empty());
}

#[test]
fn compiled_shader_keeps_handle_and_stage() {
    let s = compiled(4, ShaderKind::Fragment);
    assert_eq!(s.id(), 4);
    assert_eq!(s.kind(), ShaderKind::Fragment);
    assert_eq!(s.kind().gl_enum(), gl::FRAGMENT_SHADER);
    assert_eq!(ShaderKind::Vertex.gl_enum(), gl::VERTEX_SHADER);
    assert_eq!(s.delete_calls(), vec![GlCall::DeleteShader { shader: 4 }]);
}

#[test]
fn link_attaches_each_shader_then_links() {
    let shaders = vec![compiled(1, ShaderKind::Vertex), compiled(2, ShaderKind::Fragment)];
    let calls = Program::link_calls(9, &shaders);
    assert_eq!(
        calls,
        vec![
            GlCall::AttachShader { program: 9, shader: 1 },
            GlCall::AttachShader { program: 9, shader: 2 },
            GlCall::LinkProgram { program: 9 },
        ]
    );
}

#[test]
fn successful_link_detaches_shaders() {
    let shaders = vec![compiled(1, ShaderKind::Vertex), compiled(2, ShaderKind::Fragment)];
    let (r, calls) = Program::from_link_status(9, &shaders, true, String::new());
    let p = r.unwrap();
    assert_eq!(p.id(), 9);
    assert_eq!(
        calls,
        vec![
            GlCall::DetachShader { program: 9, shader: 1 },
            GlCall::DetachShader { program: 9, shader: 2 },
        ]
    );
    assert_eq!(p.set_used(), GlCall::UseProgram { program: 9 });
    assert_eq!(p.delete_calls(), vec![GlCall::DeleteProgram { program: 9 }]);
}

#[test]
fn failed_link_of_vertex_only_set_releases_program() {
    let shaders = vec![compiled(1, ShaderKind::Vertex)];
    let (r, calls) = Program::from_link_status(9, &shaders, false, String::from("link failed"));
    match r {
        Err(Error::LinkError { log }) => assert_eq!(log, NO_FRAGMENT_STAGE),
        _ => panic!("expected a link error"),
    }
    assert_eq!(calls, vec![GlCall::DeleteProgram { program: 9 }]);
}

#[test]
fn vertex_only_set_is_refused_even_when_the_driver_links_it() {
    let shaders = vec![compiled(1, ShaderKind::Vertex)];
    let (r, calls) = Program::from_link_status(9, &shaders, true, String::new());
    match r {
        Err(Error::LinkError { log }) => {
            assert!(!log.is_empty());
            assert_eq!(log, NO_FRAGMENT_STAGE);
        }
        _ => panic!("expected a link error"),
    }
    assert_eq!(calls, vec![GlCall::DeleteProgram { program: 9 }]);
}

#[test]
fn failed_link_hands_back_the_driver_log() {
    let shaders = vec![compiled(1, ShaderKind::Vertex), compiled(2, ShaderKind::Fragment)];
    let log = String::from("error: varying `color` not written by vertex shader");
    let (r, calls) = Program::from_link_status(9, &shaders, false, log.clone());
    match r {
        Err(Error::LinkError { log: got }) => assert_eq!(got, log),
        _ => panic!("expected a link error"),
    }
    assert_eq!(calls, vec![GlCall::DeleteProgram { program: 9 }]);
}

#[test]
fn vertex_record_layouts() {
    let layouts = vertex_attrib_pointers(&vec![AttribKind::Float3, AttribKind::Packed2101010]);
    assert_eq!(layouts.len(), 2);
    assert_eq!(layouts[0], AttribLayout::new(AttribKind::Float3, 16, 0, 0));
    assert_eq!(layouts[1], AttribLayout::new(AttribKind::Packed2101010, 16, 1, 12));
}

#[test]
fn empty_vertex_record_has_no_layouts() {
    assert!(vertex_attrib_pointers(&vec![]).is_empty());
}

#[test]
fn vertex_array_setup_binds_configures_and_unbinds() {
    let layouts = vertex_attrib_pointers(&vec![AttribKind::Float3, AttribKind::Packed2101010]);
    let calls = vertex_array_setup(5, 6, &layouts);
    assert_eq!(
        calls,
        vec![
            GlCall::BindArrayBuffer { buffer: 6 },
            GlCall::BindVertexArray { array: 5 },
            GlCall::EnableVertexAttribArray { index: 0 },
            GlCall::VertexAttribPointer { layout: layouts[0] },
            GlCall::EnableVertexAttribArray { index: 1 },
            GlCall::VertexAttribPointer { layout: layouts[1] },
            GlCall::BindArrayBuffer { buffer: 0 },
            GlCall::BindVertexArray { array: 0 },
        ]
    );
}

#[test]
fn triangle_renders_three_vertices_in_one_draw() {
    let shaders = vec![compiled(1, ShaderKind::Vertex), compiled(2, ShaderKind::Fragment)];
    let program = Program::from_link_status(7, &shaders, true, String::new()).0.unwrap();
    let layouts = vertex_attrib_pointers(&vec![AttribKind::Float3, AttribKind::Packed2101010]);
    let record = layouts[0].stride as usize;
    let count = vertex_count(3 * record, record);
    assert_eq!(count, 3);
    let calls = render_calls(&program, 8, count);
    assert_eq!(
        calls,
        vec![
            GlCall::UseProgram { program: 7 },
            GlCall::BindVertexArray { array: 8 },
            GlCall::DrawArrays { mode: GL_TRIANGLES, first: 0, count: 3 },
        ]
    );
    let draws = calls.iter().filter(|c| matches!(c, GlCall::DrawArrays { .. })).count();
    assert_eq!(draws, 1);
}

#[test]
fn vertex_count_rounds_down() {
    assert_eq!(vertex_count(50, 16), 3);
    assert_eq!(vertex_count(0, 16), 0);
}

#[test]
fn buffer_and_array_release_once_and_never_handle_zero() {
    let b = ArrayBuffer::new(3);
    assert_eq!(b.bind(), GlCall::BindArrayBuffer { buffer: 3 });
    assert_eq!(b.unbind(), GlCall::BindArrayBuffer { buffer: 0 });
    assert_eq!(b.delete_calls(), vec![GlCall::DeleteBuffer { buffer: 3 }]);
    assert!(ArrayBuffer::new(0).delete_calls().is_empty());
    let a = VertexArray::new(4);
    assert_eq!(a.bind(), GlCall::BindVertexArray { array: 4 });
    assert_eq!(a.delete_calls(), vec![GlCall::DeleteVertexArray { array: 4 }]);
    assert!(VertexArray::new(0).delete_calls().is_empty());
}

#[test]
fn viewport_for_window_and_resize() {
    let mut v = Viewport::for_window(1280, 720);
    assert_eq!(v, Viewport { x: 0, y: 0, w: 1280, h: 720 });
    v.update_size(800, 600);
    assert_eq!(v.set_used(), GlCall::Viewport { x: 0, y: 0, w: 800, h: 600 });
}

#[test]
fn viewport_set_used_twice_issues_the_same_call() {
    let v = Viewport::for_window(640, 480);
    assert_eq!(v.set_used(), v.set_used());
}
