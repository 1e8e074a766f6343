use vstd::prelude::*;

use crate::context::{lemma_run_append, run, step, ContextModel, DrawRecord, GlCall, GL_TRIANGLES};
use crate::data::{AttribKind, AttribLayout};
use crate::shader::Program;

verus! {

/// Bytes of a vertex record holding `kinds` one after the other.
pub open spec fn record_size(kinds: Seq<AttribKind>) -> nat
    decreases kinds.len(),
{
    if kinds.len() == 0 {
        0
    } else {
        record_size(kinds.drop_last()) + kinds.last().size_spec()
    }
}

proof fn lemma_prefix_size_le(kinds: Seq<AttribKind>, i: int)
    requires
        0 <= i <= kinds.len(),
    ensures
        record_size(kinds.take(i)) <= record_size(kinds),
    decreases kinds.len(),
{
    if i == kinds.len() {
        assert(kinds.take(i) =~= kinds);
    } else {
        assert(kinds.take(i) =~= kinds.drop_last().take(i));
        lemma_prefix_size_le(kinds.drop_last(), i);
    }
}

/// The layout of each attribute of a vertex record holding `kinds` in order: the
/// attribute at position `i` is read from shader input `i`, at the bytes that the
/// attributes before it take, with the whole record as the stride.
pub fn vertex_attrib_pointers(kinds: &Vec<AttribKind>) -> (r: Vec<AttribLayout>)
    requires
        record_size(kinds@) <= i32::MAX,
        kinds.len() <= u32::MAX,
    ensures
        r.len() == kinds.len(),
        forall|i: int|
            0 <= i < r.len() ==> #[trigger] r[i].describes(
                kinds[i],
                record_size(kinds@) as int,
                i,
                record_size(kinds@.take(i)) as int,
            ),
{
    let mut stride: usize = 0;
    let mut i: usize = 0;
    while i < kinds.len()
        invariant
            0 <= i <= kinds.len(),
            record_size(kinds@) <= i32::MAX,
            stride == record_size(kinds@.take(i as int)),
        decreases kinds.len() - i,
    {
        proof {
            assert(kinds@.take(i + 1).drop_last() =~= kinds@.take(i as int));
            lemma_prefix_size_le(kinds@, i + 1);
        }
        stride = stride + kinds[i].byte_size();
        i = i + 1;
    }
    proof {
        assert(kinds@.take(i as int) =~= kinds@);
    }
    let mut r: Vec<AttribLayout> = Vec::new();
    let mut offset: usize = 0;
    let mut j: usize = 0;
    while j < kinds.len()
        invariant
            0 <= j <= kinds.len(),
            kinds.len() <= u32::MAX,
            stride == record_size(kinds@) <= i32::MAX,
            offset == record_size(kinds@.take(j as int)),
            r.len() == j,
            forall|k: int|
                0 <= k < j ==> #[trigger] r[k].describes(
                    kinds[k],
                    record_size(kinds@) as int,
                    k,
                    record_size(kinds@.take(k)) as int,
                ),
        decreases kinds.len() - j,
    {
        proof {
            assert(kinds@.take(j + 1).drop_last() =~= kinds@.take(j as int));
            lemma_prefix_size_le(kinds@, j + 1);
        }
        r.push(AttribLayout::new(kinds[j], stride, j, offset));
        offset = offset + kinds[j].byte_size();
        j = j + 1;
    }
    r
}

/// Enabling and describing each attribute of `layouts`, in order.
pub open spec fn attrib_setup_calls(layouts: Seq<AttribLayout>) -> Seq<GlCall>
    decreases layouts.len(),
{
    if layouts.len() == 0 {
        seq![]
    } else {
        attrib_setup_calls(layouts.drop_last()) + seq![
            GlCall::EnableVertexAttribArray { index: layouts.last().location },
            GlCall::VertexAttribPointer { layout: layouts.last() },
        ]
    }
}

/// Binding `buffer` and `array`, configuring each attribute of `layouts` on them,
/// and unbinding both.
pub open spec fn vertex_array_calls(array: u32, buffer: u32, layouts: Seq<AttribLayout>) -> Seq<
    GlCall,
> {
    seq![GlCall::BindArrayBuffer { buffer }, GlCall::BindVertexArray { array }] + attrib_setup_calls(
        layouts,
    ) + seq![GlCall::BindArrayBuffer { buffer: 0 }, GlCall::BindVertexArray { array: 0 }]
}

/// The calls that configure the vertex array `array` to read the attributes of
/// `layouts` out of `buffer`.
pub fn vertex_array_setup(array: u32, buffer: u32, layouts: &Vec<AttribLayout>) -> (r: Vec<GlCall>)
    ensures
        r@ == vertex_array_calls(array, buffer, layouts@),
{
    let mut r: Vec<GlCall> = Vec::new();
    r.push(GlCall::BindArrayBuffer { buffer });
    r.push(GlCall::BindVertexArray { array });
    let ghost head = r@;
    let mut i: usize = 0;
    while i < layouts.len()
        invariant
            0 <= i <= layouts.len(),
            head == seq![GlCall::BindArrayBuffer { buffer }, GlCall::BindVertexArray { array }],
            r@ == head + attrib_setup_calls(layouts@.take(i as int)),
        decreases layouts.len() - i,
    {
        let l = layouts[i];
        r.push(GlCall::EnableVertexAttribArray { index: l.location });
        r.push(GlCall::VertexAttribPointer { layout: l });
        proof {
            assert(layouts@.take(i + 1).drop_last() =~= layouts@.take(i as int));
            assert(r@ =~= head + attrib_setup_calls(layouts@.take(i + 1)));
        }
        i = i + 1;
    }
    proof {
        assert(layouts@.take(i as int) =~= layouts@);
    }
    r.push(GlCall::BindArrayBuffer { buffer: 0 });
    r.push(GlCall::BindVertexArray { array: 0 });
    proof {
        assert(r@ =~= vertex_array_calls(array, buffer, layouts@));
    }
    r
}

/// After the setup calls, the bound vertex array has each attribute of `layouts`
/// enabled, and reads each as described when no two share a location.
pub proof fn lemma_attrib_setup(m: ContextModel, layouts: Seq<AttribLayout>)
    ensures
        run(m, attrib_setup_calls(layouts)).vertex_array == m.vertex_array,
        run(m, attrib_setup_calls(layouts)).draws == m.draws,
        forall|i: int|
            0 <= i < layouts.len() ==> run(m, attrib_setup_calls(layouts)).enabled.contains(
                (m.vertex_array, #[trigger] layouts[i].location),
            ),
        (forall|i: int, j: int|
            0 <= i < j < layouts.len() ==> layouts[i].location != layouts[j].location) ==> forall|
            i: int,
        |
            0 <= i < layouts.len() ==> run(m, attrib_setup_calls(layouts)).attribs[(
                m.vertex_array,
                #[trigger] layouts[i].location,
            )] == layouts[i],
    decreases layouts.len(),
{
    if layouts.len() > 0 {
        let init = layouts.drop_last();
        let l = layouts.last();
        let tail = seq![
            GlCall::EnableVertexAttribArray { index: l.location },
            GlCall::VertexAttribPointer { layout: l },
        ];
        lemma_attrib_setup(m, init);
        lemma_run_append(m, attrib_setup_calls(init), tail);
        let mid = run(m, attrib_setup_calls(init));
        reveal_with_fuel(run, 3);
        assert(tail.drop_first().drop_first() =~= Seq::<GlCall>::empty());
        assert(tail.drop_first() =~= seq![GlCall::VertexAttribPointer { layout: l }]);
        let end = run(m, attrib_setup_calls(layouts));
        assert(forall|i: int| 0 <= i < init.len() ==> #[trigger] init[i] == layouts[i]);
        assert forall|i: int| 0 <= i < layouts.len() implies end.enabled.contains(
            (m.vertex_array, #[trigger] layouts[i].location),
        ) by {
            if i < init.len() {
                assert(mid.enabled.contains((m.vertex_array, init[i].location)));
            }
        }
        if forall|i: int, j: int|
            0 <= i < j < layouts.len() ==> layouts[i].location != layouts[j].location {
            assert forall|i: int| 0 <= i < layouts.len() implies end.attribs[(
                m.vertex_array,
                #[trigger] layouts[i].location,
            )] == layouts[i] by {
                if i < init.len() {
                    assert(layouts[i].location != layouts[layouts.len() - 1].location);
                    assert(mid.attribs[(m.vertex_array, init[i].location)] == init[i]);
                }
            }
        }
    }
}

/// A vertex buffer object. It owns its handle: releasing it is up to its owner, once.
#[derive(Debug)]
pub struct ArrayBuffer {
    id: u32,
}

impl ArrayBuffer {
    pub closed spec fn handle(&self) -> u32 {
        self.id
    }

    /// Takes ownership of the buffer handle `id` that the driver created.
    pub fn new(id: u32) -> (r: ArrayBuffer)
        ensures
            r.handle() == id,
    {
        ArrayBuffer { id }
    }

    pub fn id(&self) -> (r: u32)
        ensures
            r == self.handle(),
    {
        self.id
    }

    pub fn bind(&self) -> (r: GlCall)
        ensures
            r == (GlCall::BindArrayBuffer { buffer: self.handle() }),
    {
        GlCall::BindArrayBuffer { buffer: self.id }
    }

    pub fn unbind(&self) -> (r: GlCall)
        ensures
            r == (GlCall::BindArrayBuffer { buffer: 0 }),
    {
        GlCall::BindArrayBuffer { buffer: 0 }
    }

    /// The calls that release the handle; none for the empty handle 0.
    pub fn delete_calls(&self) -> (r: Vec<GlCall>)
        ensures
            self.handle() == 0 ==> r@ == Seq::<GlCall>::empty(),
            self.handle() != 0 ==> r@ == seq![GlCall::DeleteBuffer { buffer: self.handle() }],
    {
        let mut r: Vec<GlCall> = Vec::new();
        if self.id != 0 {
            r.push(GlCall::DeleteBuffer { buffer: self.id });
        }
        proof {
            if self.id != 0 {
                assert(r@ =~= seq![GlCall::DeleteBuffer { buffer: self.handle() }]);
            }
        }
        r
    }
}

/// A vertex array object. It owns its handle: releasing it is up to its owner, once.
#[derive(Debug)]
pub struct VertexArray {
    id: u32,
}

impl VertexArray {
    pub closed spec fn handle(&self) -> u32 {
        self.id
    }

    /// Takes ownership of the vertex array handle `id` that the driver created.
    pub fn new(id: u32) -> (r: VertexArray)
        ensures
            r.handle() == id,
    {
        VertexArray { id }
    }

    pub fn id(&self) -> (r: u32)
        ensures
            r == self.handle(),
    {
        self.id
    }

    pub fn bind(&self) -> (r: GlCall)
        ensures
            r == (GlCall::BindVertexArray { array: self.handle() }),
    {
        GlCall::BindVertexArray { array: self.id }
    }

    pub fn unbind(&self) -> (r: GlCall)
        ensures
            r == (GlCall::BindVertexArray { array: 0 }),
    {
        GlCall::BindVertexArray { array: 0 }
    }

    /// The calls that release the handle; none for the empty handle 0.
    pub fn delete_calls(&self) -> (r: Vec<GlCall>)
        ensures
            self.handle() == 0 ==> r@ == Seq::<GlCall>::empty(),
            self.handle() != 0 ==> r@ == seq![GlCall::DeleteVertexArray { array: self.handle() }],
    {
        let mut r: Vec<GlCall> = Vec::new();
        if self.id != 0 {
            r.push(GlCall::DeleteVertexArray { array: self.id });
        }
        proof {
            if self.id != 0 {
                assert(r@ =~= seq![GlCall::DeleteVertexArray { array: self.handle() }]);
            }
        }
        r
    }
}

/// How many vertices a buffer of `byte_len` bytes holds, at `record_size` bytes each.
pub fn vertex_count(byte_len: usize, record_size: usize) -> (r: usize)
    requires
        record_size > 0,
    ensures
        r == byte_len / record_size,
{
    byte_len / record_size
}

/// Activating `program` and `array`, then drawing `count` vertices as triangles.
pub open spec fn render_seq(program: u32, array: u32, count: i32) -> Seq<GlCall> {
    seq![
        GlCall::UseProgram { program },
        GlCall::BindVertexArray { array },
        GlCall::DrawArrays { mode: GL_TRIANGLES, first: 0, count },
    ]
}

/// The calls of one frame of a drawable made of `program` and the vertex array `array`
/// over `count` vertices.
pub fn render_calls(program: &Program, array: u32, count: usize) -> (r: Vec<GlCall>)
    requires
        count <= i32::MAX,
    ensures
        r@ == render_seq(program.handle(), array, count as i32),
{
    let mut r: Vec<GlCall> = Vec::new();
    r.push(program.set_used());
    r.push(GlCall::BindVertexArray { array });
    r.push(GlCall::DrawArrays { mode: GL_TRIANGLES, first: 0, count: count as i32 });
    proof {
        assert(r@ =~= render_seq(program.handle(), array, count as i32));
    }
    r
}

/// A frame issues exactly one draw call, of `count` vertices, while `program` is
/// active and `array` is bound.
pub proof fn lemma_render_draws_once(m: ContextModel, program: u32, array: u32, count: i32)
    ensures
        run(m, render_seq(program, array, count)).draws == m.draws.push(
            DrawRecord { mode: GL_TRIANGLES, first: 0, count, program, vertex_array: array },
        ),
        run(m, render_seq(program, array, count)).program == program,
        run(m, render_seq(program, array, count)).vertex_array == array,
        run(m, render_seq(program, array, count)).attribs == m.attribs,
        run(m, render_seq(program, array, count)).enabled == m.enabled,
{
    let s = render_seq(program, array, count);
    reveal_with_fuel(run, 4);
    assert(s.drop_first().drop_first().drop_first() =~= Seq::<GlCall>::empty());
    assert(s.drop_first().drop_first() =~= seq![
        GlCall::DrawArrays { mode: GL_TRIANGLES, first: 0, count },
    ]);
    assert(s.drop_first() =~= seq![
        GlCall::BindVertexArray { array },
        GlCall::DrawArrays { mode: GL_TRIANGLES, first: 0, count },
    ]);
}


/// Configuring a vertex array and then rendering one frame from it issues exactly one
/// draw call, of `count` vertices, with `program` active and `array` bound, and at
/// that point `array` reads each attribute as its layout says.
pub proof fn lemma_setup_then_render(
    m: ContextModel,
    array: u32,
    buffer: u32,
    layouts: Seq<AttribLayout>,
    program: u32,
    count: i32,
)
    requires
        forall|i: int, j: int|
            0 <= i < j < layouts.len() ==> layouts[i].location != layouts[j].location,
    ensures
        ({
            let end = run(m, vertex_array_calls(array, buffer, layouts) + render_seq(program, array, count));
            &&& end.draws == m.draws.push(
                DrawRecord { mode: GL_TRIANGLES, first: 0, count, program, vertex_array: array },
            )
            &&& forall|i: int|
                0 <= i < layouts.len() ==> end.enabled.contains((array, #[trigger] layouts[i].location))
                    && end.attribs[(array, layouts[i].location)] == layouts[i]
        }),
{
    let bind = seq![GlCall::BindArrayBuffer { buffer }, GlCall::BindVertexArray { array }];
    let unbind = seq![GlCall::BindArrayBuffer { buffer: 0 }, GlCall::BindVertexArray { array: 0 }];
    let setup = attrib_setup_calls(layouts);
    let frame = render_seq(program, array, count);
    assert(vertex_array_calls(array, buffer, layouts) + frame =~= bind + (setup + (unbind + frame)));
    lemma_run_append(m, bind, setup + (unbind + frame));
    let m1 = run(m, bind);
    reveal_with_fuel(run, 3);
    assert(bind.drop_first().drop_first() =~= Seq::<GlCall>::empty());
    assert(bind.drop_first() =~= seq![GlCall::BindVertexArray { array }]);
    assert(m1.vertex_array == array && m1.draws == m.draws);
    lemma_run_append(m1, setup, unbind + frame);
    lemma_attrib_setup(m1, layouts);
    let m2 = run(m1, setup);
    lemma_run_append(m2, unbind, frame);
    assert(unbind.drop_first().drop_first() =~= Seq::<GlCall>::empty());
    assert(unbind.drop_first() =~= seq![GlCall::BindVertexArray { array: 0 }]);
    let m3 = run(m2, unbind);
    assert(m3.attribs == m2.attribs && m3.enabled == m2.enabled && m3.draws == m.draws);
    lemma_render_draws_once(m3, program, array, count);
}

} // verus!
