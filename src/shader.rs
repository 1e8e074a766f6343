use vstd::prelude::*;

use crate::context::{lemma_run_append, run, ContextModel, GlCall, GL_FRAGMENT_SHADER, GL_VERTEX_SHADER};

verus! {

/// The failures that building the scene's GPU objects can end in.
#[derive(Debug)]
pub enum Error {
    /// The named asset does not exist.
    ResourceNotFound { name: String },
    /// The driver rejected a shader's source; `log` is its diagnostic text.
    CompileError { log: String },
    /// The driver could not link a program; `log` is its diagnostic text.
    LinkError { log: String },
    /// A call into the window system or the driver failed.
    ContextError { message: String },
}

#[derive(Copy, Clone, Debug, PartialEq, Eq, Structural)]
pub enum ShaderKind {
    Vertex,
    Fragment,
}

impl ShaderKind {
    pub open spec fn gl_enum_spec(self) -> u32 {
        match self {
            ShaderKind::Vertex => GL_VERTEX_SHADER,
            ShaderKind::Fragment => GL_FRAGMENT_SHADER,
        }
    }

    pub fn gl_enum(&self) -> (r: u32)
        ensures
            r == self.gl_enum_spec(),
    {
        match self {
            ShaderKind::Vertex => GL_VERTEX_SHADER,
            ShaderKind::Fragment => GL_FRAGMENT_SHADER,
        }
    }
}

/// The calls that release a shader handle; none for the empty handle 0.
pub open spec fn release_shader_calls(id: u32) -> Seq<GlCall> {
    if id == 0 {
        seq![]
    } else {
        seq![GlCall::DeleteShader { shader: id }]
    }
}

/// The calls that release a program handle; none for the empty handle 0.
pub open spec fn release_program_calls(id: u32) -> Seq<GlCall> {
    if id == 0 {
        seq![]
    } else {
        seq![GlCall::DeleteProgram { program: id }]
    }
}

/// A compiled shader stage. It owns its handle: releasing it is up to its owner, once.
#[derive(Debug)]
pub struct Shader {
    id: u32,
    kind: ShaderKind,
}

impl Shader {
    pub closed spec fn handle(&self) -> u32 {
        self.id
    }

    pub closed spec fn stage(&self) -> ShaderKind {
        self.kind
    }

    /// Decides on a compile: `id` is the handle the driver created, `compiled` its
    /// compile status and `log` its diagnostic text. On failure the handle is released
    /// and the log is handed back as it came.
    pub fn from_compile_status(id: u32, kind: ShaderKind, compiled: bool, log: String) -> (r: (
        Result<Shader, Error>,
        Vec<GlCall>,
    ))
        ensures
            compiled ==> r.0 is Ok && r.0->Ok_0.handle() == id && r.0->Ok_0.stage() == kind
                && r.1@ == Seq::<GlCall>::empty(),
            !compiled ==> r.0 == Err::<Shader, Error>(Error::CompileError { log })
                && r.1@ == release_shader_calls(id),
    {
        if compiled {
            (Ok(Shader { id, kind }), Vec::new())
        } else {
            (Err(Error::CompileError { log }), release_shader_calls_exec(id))
        }
    }

    pub fn id(&self) -> (r: u32)
        ensures
            r == self.handle(),
    {
        self.id
    }

    pub fn kind(&self) -> (r: ShaderKind)
        ensures
            r == self.stage(),
    {
        self.kind
    }

    /// The calls that release this shader's handle.
    pub fn delete_calls(&self) -> (r: Vec<GlCall>)
        ensures
            r@ == release_shader_calls(self.handle()),
    {
        release_shader_calls_exec(self.id)
    }
}

fn release_shader_calls_exec(id: u32) -> (r: Vec<GlCall>)
    ensures
        r@ == release_shader_calls(id),
{
    let mut r: Vec<GlCall> = Vec::new();
    if id != 0 {
        r.push(GlCall::DeleteShader { shader: id });
    }
    proof {
        assert(r@ =~= release_shader_calls(id));
    }
    r
}

fn release_program_calls_exec(id: u32) -> (r: Vec<GlCall>)
    ensures
        r@ == release_program_calls(id),
{
    let mut r: Vec<GlCall> = Vec::new();
    if id != 0 {
        r.push(GlCall::DeleteProgram { program: id });
    }
    proof {
        assert(r@ =~= release_program_calls(id));
    }
    r
}

/// The text of the link error for a set of shaders without a fragment stage.
pub const NO_FRAGMENT_STAGE: &'static str = "the program has no fragment stage";

/// Whether one of `shaders` is a fragment stage.
pub open spec fn has_fragment(shaders: Seq<Shader>) -> bool {
    exists|i: int| 0 <= i < shaders.len() && #[trigger] shaders[i].stage() == ShaderKind::Fragment
}

fn has_fragment_stage(shaders: &Vec<Shader>) -> (r: bool)
    ensures
        r == has_fragment(shaders@),
{
    let mut i: usize = 0;
    while i < shaders.len()
        invariant
            0 <= i <= shaders.len(),
            forall|k: int| 0 <= k < i ==> #[trigger] shaders@[k].stage() != ShaderKind::Fragment,
        decreases shaders.len() - i,
    {
        if shaders[i].kind() == ShaderKind::Fragment {
            return true;
        }
        i = i + 1;
    }
    false
}

pub open spec fn handles(shaders: Seq<Shader>) -> Seq<u32> {
    shaders.map_values(|s: Shader| s.handle())
}

/// Attaching each shader to `program`, in order.
pub open spec fn attach_calls(program: u32, shaders: Seq<u32>) -> Seq<GlCall> {
    Seq::new(shaders.len(), |i: int| GlCall::AttachShader { program, shader: shaders[i] })
}

/// Detaching each shader from `program`, in order.
pub open spec fn detach_calls(program: u32, shaders: Seq<u32>) -> Seq<GlCall> {
    Seq::new(shaders.len(), |i: int| GlCall::DetachShader { program, shader: shaders[i] })
}

/// A linked program. It owns its handle: releasing it is up to its owner, once.
#[derive(Debug)]
pub struct Program {
    id: u32,
}

impl Program {
    pub closed spec fn handle(&self) -> u32 {
        self.id
    }

    /// The calls that link the program `id` out of `shaders`: each is attached, then
    /// the program is linked.
    pub fn link_calls(id: u32, shaders: &Vec<Shader>) -> (r: Vec<GlCall>)
        requires
            shaders.len() >= 1,
        ensures
            r@ == attach_calls(id, handles(shaders@)).push(GlCall::LinkProgram { program: id }),
    {
        let mut r: Vec<GlCall> = Vec::new();
        let mut i: usize = 0;
        while i < shaders.len()
            invariant
                0 <= i <= shaders.len(),
                r@ == attach_calls(id, handles(shaders@.take(i as int))),
            decreases shaders.len() - i,
        {
            r.push(GlCall::AttachShader { program: id, shader: shaders[i].id() });
            proof {
                assert(handles(shaders@.take(i + 1)) =~= handles(shaders@.take(i as int)).push(
                    shaders@[i as int].handle(),
                ));
                assert(r@ =~= attach_calls(id, handles(shaders@.take(i + 1))));
            }
            i = i + 1;
        }
        proof {
            assert(shaders@.take(i as int) =~= shaders@);
        }
        r.push(GlCall::LinkProgram { program: id });
        r
    }

    /// Decides on a link: `linked` is the link status of the program `id` that
    /// `link_calls` built out of `shaders`, and `log` the driver's diagnostic text.
    /// A set without a fragment stage is refused whatever the driver said. On
    /// success the shaders are detached again, as they stay owned by their
    /// `Shader`s; on failure the program handle is released.
    pub fn from_link_status(id: u32, shaders: &Vec<Shader>, linked: bool, log: String) -> (r: (
        Result<Program, Error>,
        Vec<GlCall>,
    ))
        ensures
            linked && has_fragment(shaders@) ==> r.0 is Ok && r.0->Ok_0.handle() == id
                && r.1@ == detach_calls(id, handles(shaders@)),
            !linked && has_fragment(shaders@) ==> r.0 == Err::<Program, Error>(
                Error::LinkError { log },
            ) && r.1@ == release_program_calls(id),
            !has_fragment(shaders@) ==> r.0 is Err && r.0->Err_0 is LinkError
                && r.0->Err_0->LinkError_log@ == NO_FRAGMENT_STAGE@
                && r.1@ == release_program_calls(id),
    {
        if !has_fragment_stage(shaders) {
            return (
                Err(Error::LinkError { log: NO_FRAGMENT_STAGE.to_owned() }),
                release_program_calls_exec(id),
            );
        }
        if !linked {
            return (Err(Error::LinkError { log }), release_program_calls_exec(id));
        }
        let mut r: Vec<GlCall> = Vec::new();
        let mut i: usize = 0;
        while i < shaders.len()
            invariant
                0 <= i <= shaders.len(),
                r@ == detach_calls(id, handles(shaders@.take(i as int))),
            decreases shaders.len() - i,
        {
            r.push(GlCall::DetachShader { program: id, shader: shaders[i].id() });
            proof {
                assert(handles(shaders@.take(i + 1)) =~= handles(shaders@.take(i as int)).push(
                    shaders@[i as int].handle(),
                ));
                assert(r@ =~= detach_calls(id, handles(shaders@.take(i + 1))));
            }
            i = i + 1;
        }
        proof {
            assert(shaders@.take(i as int) =~= shaders@);
        }
        (Ok(Program { id }), r)
    }

    pub fn id(&self) -> (r: u32)
        ensures
            r == self.handle(),
    {
        self.id
    }

    /// Makes this program the context's active one.
    pub fn set_used(&self) -> (r: GlCall)
        ensures
            r == (GlCall::UseProgram { program: self.handle() }),
    {
        GlCall::UseProgram { program: self.id }
    }

    /// The calls that release this program's handle.
    pub fn delete_calls(&self) -> (r: Vec<GlCall>)
        ensures
            r@ == release_program_calls(self.handle()),
    {
        release_program_calls_exec(self.id)
    }
}

/// The (program, shader) pairs of `shaders`, one more shader at a time.
proof fn lemma_pairs_push(program: u32, shaders: Seq<u32>)
    requires
        shaders.len() > 0,
    ensures
        Set::new(|p: (u32, u32)| p.0 == program && shaders.contains(p.1)) =~= Set::new(
            |p: (u32, u32)| p.0 == program && shaders.drop_last().contains(p.1),
        ).insert((program, shaders.last())),
{
    let init = shaders.drop_last();
    assert forall|p: (u32, u32)| p.0 == program && shaders.contains(p.1) implies p == (
        program,
        shaders.last(),
    ) || init.contains(p.1) by {
        let k = choose|k: int| 0 <= k < shaders.len() && shaders[k] == p.1;
        if k < init.len() {
            assert(init[k] == p.1);
        }
    }
    assert forall|p: (u32, u32)| p.0 == program && init.contains(p.1) implies shaders.contains(
        p.1,
    ) by {
        let k = choose|k: int| 0 <= k < init.len() && init[k] == p.1;
        assert(shaders[k] == p.1);
    }
    assert(shaders.contains(shaders.last())) by {
        assert(shaders[shaders.len() - 1] == shaders.last());
    }
}

proof fn lemma_attach_all(m: ContextModel, program: u32, shaders: Seq<u32>)
    ensures
        run(m, attach_calls(program, shaders)).attached == m.attached.union(
            Set::new(|p: (u32, u32)| p.0 == program && shaders.contains(p.1)),
        ),
    decreases shaders.len(),
{
    let all = Set::new(|p: (u32, u32)| p.0 == program && shaders.contains(p.1));
    if shaders.len() == 0 {
        reveal_with_fuel(run, 1);
        assert(attach_calls(program, shaders) =~= Seq::<GlCall>::empty());
        assert(m.attached.union(all) =~= m.attached);
    } else {
        let init = shaders.drop_last();
        let last = GlCall::AttachShader { program, shader: shaders.last() };
        assert(attach_calls(program, shaders) =~= attach_calls(program, init) + seq![last]);
        lemma_attach_all(m, program, init);
        lemma_run_append(m, attach_calls(program, init), seq![last]);
        reveal_with_fuel(run, 2);
        assert(seq![last].drop_first() =~= Seq::<GlCall>::empty());
        lemma_pairs_push(program, shaders);
        assert(run(m, attach_calls(program, shaders)).attached =~= m.attached.union(all));
    }
}

proof fn lemma_detach_all(m: ContextModel, program: u32, shaders: Seq<u32>)
    ensures
        run(m, detach_calls(program, shaders)).attached == m.attached.difference(
            Set::new(|p: (u32, u32)| p.0 == program && shaders.contains(p.1)),
        ),
    decreases shaders.len(),
{
    let all = Set::new(|p: (u32, u32)| p.0 == program && shaders.contains(p.1));
    if shaders.len() == 0 {
        reveal_with_fuel(run, 1);
        assert(detach_calls(program, shaders) =~= Seq::<GlCall>::empty());
        assert(m.attached.difference(all) =~= m.attached);
    } else {
        let init = shaders.drop_last();
        let last = GlCall::DetachShader { program, shader: shaders.last() };
        assert(detach_calls(program, shaders) =~= detach_calls(program, init) + seq![last]);
        lemma_detach_all(m, program, init);
        lemma_run_append(m, detach_calls(program, init), seq![last]);
        reveal_with_fuel(run, 2);
        assert(seq![last].drop_first() =~= Seq::<GlCall>::empty());
        lemma_pairs_push(program, shaders);
        assert(run(m, detach_calls(program, shaders)).attached =~= m.attached.difference(all));
    }
}

/// Linking a program that has nothing attached and then detaching its shaders on
/// success leaves the context's attachments as they were: no shader stays bound to
/// the program it helped to build.
pub proof fn lemma_link_leaves_no_attachment(m: ContextModel, program: u32, shaders: Seq<u32>)
    requires
        forall|s: u32| !m.attached.contains((program, s)),
    ensures
        run(
            m,
            attach_calls(program, shaders).push(GlCall::LinkProgram { program }) + detach_calls(
                program,
                shaders,
            ),
        ).attached == m.attached,
{
    let link = GlCall::LinkProgram { program };
    let a = attach_calls(program, shaders);
    lemma_run_append(m, a.push(link), detach_calls(program, shaders));
    assert(a.push(link) =~= a + seq![link]);
    lemma_run_append(m, a, seq![link]);
    lemma_attach_all(m, program, shaders);
    reveal_with_fuel(run, 2);
    assert(seq![link].drop_first() =~= Seq::<GlCall>::empty());
    let linked = run(m, a.push(link));
    lemma_detach_all(linked, program, shaders);
    let all = Set::new(|p: (u32, u32)| p.0 == program && shaders.contains(p.1));
    assert(m.attached.union(all).difference(all) =~= m.attached);
}

/// The context after the driver hands out the shader handle `id`; 0 stands for no
/// handle at all.
pub open spec fn with_created_shader(m: ContextModel, id: u32) -> ContextModel {
    if id == 0 {
        m
    } else {
        ContextModel { shaders: m.shaders.insert(id), ..m }
    }
}

/// The context after the driver hands out the program handle `id`; 0 stands for no
/// handle at all.
pub open spec fn with_created_program(m: ContextModel, id: u32) -> ContextModel {
    if id == 0 {
        m
    } else {
        ContextModel { programs: m.programs.insert(id), ..m }
    }
}

/// A failed compile releases the handle created for it: the live shaders are those
/// of before the creation, less `id` should the driver have handed out a name that
/// was already live.
pub proof fn lemma_failed_compile_releases(m: ContextModel, id: u32)
    ensures
        run(with_created_shader(m, id), release_shader_calls(id)).shaders == if id == 0 {
            m.shaders
        } else {
            m.shaders.remove(id)
        },
        !m.shaders.contains(id) ==> run(with_created_shader(m, id), release_shader_calls(id)).shaders
            == m.shaders,
{
    reveal_with_fuel(run, 2);
    if id != 0 {
        assert(run(with_created_shader(m, id), release_shader_calls(id)).shaders =~= m.shaders.remove(
            id,
        ));
        assert(!m.shaders.contains(id) ==> m.shaders.remove(id) =~= m.shaders);
    }
}

/// A failed link releases the program created for it: the live programs are those of
/// before the creation (less `id`, should the driver have handed out a name that was
/// already live), and nothing stays attached to it.
pub proof fn lemma_failed_link_releases(m: ContextModel, id: u32)
    ensures
        run(with_created_program(m, id), release_program_calls(id)).programs == if id == 0 {
            m.programs
        } else {
            m.programs.remove(id)
        },
        !m.programs.contains(id) ==> run(with_created_program(m, id), release_program_calls(id)).programs
            == m.programs,
        id != 0 ==> forall|s: u32|
            !(#[trigger] run(with_created_program(m, id), release_program_calls(id)).attached.contains(
                (id, s),
            )),
{
    reveal_with_fuel(run, 2);
    if id != 0 {
        assert(run(with_created_program(m, id), release_program_calls(id)).programs
            =~= m.programs.remove(id));
        assert(!m.programs.contains(id) ==> m.programs.remove(id) =~= m.programs);
    }
}

} // verus!
