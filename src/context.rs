use vstd::prelude::*;

use crate::data::AttribLayout;

verus! {

/// `GL_TRIANGLES`.
pub const GL_TRIANGLES: u32 = 0x0004;

/// `GL_VERTEX_SHADER`.
pub const GL_VERTEX_SHADER: u32 = 0x8B31;

/// `GL_FRAGMENT_SHADER`.
pub const GL_FRAGMENT_SHADER: u32 = 0x8B30;

/// One call into the graphics context that the library decides on. The caller that
/// owns the context performs the calls in the order they are handed out.
#[derive(Copy, Clone, Debug, PartialEq, Eq, Structural)]
pub enum GlCall {
    Viewport { x: i32, y: i32, w: i32, h: i32 },
    UseProgram { program: u32 },
    BindVertexArray { array: u32 },
    BindArrayBuffer { buffer: u32 },
    EnableVertexAttribArray { index: u32 },
    VertexAttribPointer { layout: AttribLayout },
    DrawArrays { mode: u32, first: i32, count: i32 },
    AttachShader { program: u32, shader: u32 },
    DetachShader { program: u32, shader: u32 },
    LinkProgram { program: u32 },
    DeleteShader { shader: u32 },
    DeleteProgram { program: u32 },
    DeleteBuffer { buffer: u32 },
    DeleteVertexArray { array: u32 },
}

/// A draw call as the context saw it: its arguments and what was active then.
pub struct DrawRecord {
    pub mode: u32,
    pub first: i32,
    pub count: i32,
    pub program: u32,
    pub vertex_array: u32,
}

/// The part of the graphics context's state that the library's calls change.
pub struct ContextModel {
    pub viewport: (i32, i32, i32, i32),
    pub program: u32,
    pub vertex_array: u32,
    pub array_buffer: u32,
    /// Live shader objects.
    pub shaders: Set<u32>,
    /// Live program objects.
    pub programs: Set<u32>,
    /// (program, shader) pairs that are attached.
    pub attached: Set<(u32, u32)>,
    /// (vertex array, index) pairs whose attribute array is enabled.
    pub enabled: Set<(u32, u32)>,
    /// How each (vertex array, index) attribute is read.
    pub attribs: Map<(u32, u32), AttribLayout>,
    pub buffers: Set<u32>,
    pub vertex_arrays: Set<u32>,
    /// Every draw call issued so far, oldest first.
    pub draws: Seq<DrawRecord>,
}

/// The state after the context performs `c`.
pub open spec fn step(m: ContextModel, c: GlCall) -> ContextModel {
    match c {
        GlCall::Viewport { x, y, w, h } => ContextModel { viewport: (x, y, w, h), ..m },
        GlCall::UseProgram { program } => ContextModel { program, ..m },
        GlCall::BindVertexArray { array } => ContextModel { vertex_array: array, ..m },
        GlCall::BindArrayBuffer { buffer } => ContextModel { array_buffer: buffer, ..m },
        GlCall::EnableVertexAttribArray { index } => ContextModel {
            enabled: m.enabled.insert((m.vertex_array, index)),
            ..m
        },
        GlCall::VertexAttribPointer { layout } => ContextModel {
            attribs: m.attribs.insert((m.vertex_array, layout.location), layout),
            ..m
        },
        GlCall::DrawArrays { mode, first, count } => ContextModel {
            draws: m.draws.push(
                DrawRecord { mode, first, count, program: m.program, vertex_array: m.vertex_array },
            ),
            ..m
        },
        GlCall::AttachShader { program, shader } => ContextModel {
            attached: m.attached.insert((program, shader)),
            ..m
        },
        GlCall::DetachShader { program, shader } => ContextModel {
            attached: m.attached.remove((program, shader)),
            ..m
        },
        GlCall::LinkProgram { program } => m,
        GlCall::DeleteShader { shader } => ContextModel { shaders: m.shaders.remove(shader), ..m },
        GlCall::DeleteProgram { program } => ContextModel {
            programs: m.programs.remove(program),
            attached: m.attached.filter(|p: (u32, u32)| p.0 != program),
            ..m
        },
        GlCall::DeleteBuffer { buffer } => ContextModel { buffers: m.buffers.remove(buffer), ..m },
        GlCall::DeleteVertexArray { array } => ContextModel {
            vertex_arrays: m.vertex_arrays.remove(array),
            ..m
        },
    }
}

/// The state after the context performs `calls` in order.
pub open spec fn run(m: ContextModel, calls: Seq<GlCall>) -> ContextModel
    decreases calls.len(),
{
    if calls.len() == 0 {
        m
    } else {
        run(step(m, calls[0]), calls.drop_first())
    }
}

/// Performing two runs of calls one after the other is performing their concatenation.
pub proof fn lemma_run_append(m: ContextModel, a: Seq<GlCall>, b: Seq<GlCall>)
    ensures
        run(m, a + b) == run(run(m, a), b),
    decreases a.len(),
{
    if a.len() == 0 {
        assert(a + b =~= b);
    } else {
        assert((a + b).drop_first() =~= a.drop_first() + b);
        lemma_run_append(step(m, a[0]), a.drop_first(), b);
    }
}

} // verus!
