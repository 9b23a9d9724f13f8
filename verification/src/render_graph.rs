//! Render graph: a declarative pass list turned into correctly ordered
//! command recordings.
//!
//! A builder accumulates pass declarations in call order; `build_graph`
//! compiles them into one bundle per pass index (passes share nothing).
//! Recording a pass emits a fixed command block: begin the render pass
//! over the full extent of the pass's first color attachment (color
//! cleared to opaque black, depth to the far plane, stencil to zero),
//! bind the pass's pipeline, set viewport and scissor to that same
//! extent, bind vertex and index buffers, bind the descriptor set, issue
//! the indexed draw, and end the render pass. Passes execute strictly in
//! declaration order with no dependency analysis between them; a pass
//! reading a resource must be declared after the pass writing it.

use vstd::prelude::*;

verus! {

/// Length of the command block one pass records.
pub const PASS_CMD_LEN: usize = 9;

/// Pixel size of an attachment, viewport or scissor rectangle.
#[derive(Clone, Copy, PartialEq, Eq, Structural, Debug)]
pub struct Extent {
    pub width: u32,
    pub height: u32,
}

/// A texture tracked by the surrounding resource manager: an identity the
/// core compares by value (it never owns the memory) and the texture's
/// pixel size.
#[derive(Clone, Copy, PartialEq, Eq, Structural, Debug)]
pub struct TextureRef {
    pub texture: u64,
    pub width: u32,
    pub height: u32,
}

/// Color clear value in normalized intensity units, 1 being full.
#[derive(Clone, Copy, PartialEq, Eq, Structural, Debug)]
pub struct ClearColor {
    pub r: u8,
    pub g: u8,
    pub b: u8,
    pub a: u8,
}

/// Geometry and bindings for one indexed draw inside a pass.
#[derive(Clone, Copy, PartialEq, Eq, Structural, Debug)]
pub struct DrawCall {
    pub vertex_buffer: u64,
    pub index_buffer: u64,
    pub index_count: u32,
    pub descriptor_set: u64,
}

/// One command of the per-frame command buffer, as the engine orders them.
#[derive(Clone, Copy, PartialEq, Eq, Structural, Debug)]
pub enum Cmd {
    /// Begins pass `pass` over its full extent with the fixed clears.
    BeginRenderPass {
        pass: usize,
        extent: Extent,
        clear_color: ClearColor,
        /// Depth clear in normalized units: 1 is the far plane.
        clear_depth: u8,
        clear_stencil: u32,
    },
    BindPipeline { pass: usize },
    SetViewport { x: u32, y: u32, extent: Extent },
    SetScissor { x: u32, y: u32, extent: Extent },
    BindVertexBuffer { buffer: u64 },
    BindIndexBuffer { buffer: u64 },
    BindDescriptorSet { set: u64 },
    DrawIndexed { index_count: u32 },
    EndRenderPass { pass: usize },
}

/// One pass declaration: name, output color attachments, optional depth
/// attachment, the shader-stage pair, and its bound resources.
pub struct PassDesc {
    pub name: String,
    pub outputs: Vec<TextureRef>,
    pub depth: Option<TextureRef>,
    pub vertex_shader: u64,
    pub fragment_shader: u64,
    pub uniform_buffer: u64,
    pub sampled_texture: u64,
    pub sampler: u64,
}

/// A declaration is usable when it has at least one output color
/// attachment, whose extent the pass renders over.
pub open spec fn pass_desc_wf(p: PassDesc) -> bool {
    p.outputs@.len() >= 1
}

/// The full extent a pass renders over: its first output attachment's size.
pub open spec fn pass_extent(p: PassDesc) -> Extent {
    Extent { width: p.outputs@[0].width, height: p.outputs@[0].height }
}

/// Accumulates pass declarations in call order.
pub struct GraphBuilder {
    passes: Vec<PassDesc>,
}

impl GraphBuilder {
    /// The declarations accumulated so far, in call order.
    pub closed spec fn decls(self) -> Seq<PassDesc> {
        self.passes@
    }

    pub open spec fn wf(self) -> bool {
        forall|i: int| 0 <= i < self.decls().len() ==> pass_desc_wf(#[trigger] self.decls()[i])
    }

    pub fn new() -> (b: GraphBuilder)
        ensures
            b.decls() == Seq::<PassDesc>::empty(),
            b.wf(),
    {
        GraphBuilder { passes: Vec::new() }
    }

    /// Declares the next pass and returns its index. Passes keep the order
    /// in which they were added; that order is the execution order.
    pub fn add_pass(
        &mut self,
        name: String,
        outputs: Vec<TextureRef>,
        depth: Option<TextureRef>,
        vertex_shader: u64,
        fragment_shader: u64,
        uniform_buffer: u64,
        sampled_texture: u64,
        sampler: u64,
    ) -> (idx: usize)
        requires
            old(self).wf(),
            outputs@.len() >= 1,
        ensures
            final(self).wf(),
            idx == old(self).decls().len(),
            final(self).decls() == old(self).decls().push(PassDesc {
                name,
                outputs,
                depth,
                vertex_shader,
                fragment_shader,
                uniform_buffer,
                sampled_texture,
                sampler,
            }),
    {
        let idx = self.passes.len();
        self.passes.push(PassDesc {
            name,
            outputs,
            depth,
            vertex_shader,
            fragment_shader,
            uniform_buffer,
            sampled_texture,
            sampler,
        });
        proof {
            assert forall|i: int| 0 <= i < self.decls().len() implies pass_desc_wf(
                #[trigger] self.decls()[i],
            ) by {
                if i < old(self).decls().len() {
                    assert(self.decls()[i] == old(self).decls()[i]);
                }
            }
        }
        idx
    }
}

/// One compiled pass bundle: the declaration it came from together with
/// the extent its recording uses. Each pass owns its own bundle of GPU
/// objects (render pass, framebuffer, pipeline, pipeline layout),
/// identified by the pass index; bundles are never shared between passes.
pub struct CompiledPass {
    pub desc: PassDesc,
    pub extent: Extent,
}

/// The compiled graph: one bundle per declared pass, in declaration order.
pub struct Graph {
    passes: Vec<CompiledPass>,
}

/// Why a recording step was refused. Every refusal leaves the recorder
/// unchanged.
#[derive(Clone, Copy, PartialEq, Eq, Structural, Debug)]
pub enum GraphError {
    /// The pass index names no compiled pass.
    PassOutOfRange,
    /// A pass recording is already open; passes never interleave.
    PassAlreadyOpen,
    /// No pass recording is open.
    NoOpenPass,
}

/// The commands that begin a pass: begin the render pass with the fixed
/// clear values (opaque black color, far-plane depth, zero stencil), bind
/// the pass's pipeline, and set viewport and scissor to the full extent.
pub open spec fn begin_pass_cmds(pass: usize, extent: Extent) -> Seq<Cmd> {
    seq![
        Cmd::BeginRenderPass {
            pass,
            extent,
            clear_color: (ClearColor { r: 0, g: 0, b: 0, a: 1 }),
            clear_depth: 1,
            clear_stencil: 0,
        },
        Cmd::BindPipeline { pass },
        Cmd::SetViewport { x: 0, y: 0, extent },
        Cmd::SetScissor { x: 0, y: 0, extent },
    ]
}

/// The commands of one indexed draw: vertex and index buffers, then the
/// descriptor set, then the draw.
pub open spec fn draw_cmds(d: DrawCall) -> Seq<Cmd> {
    seq![
        Cmd::BindVertexBuffer { buffer: d.vertex_buffer },
        Cmd::BindIndexBuffer { buffer: d.index_buffer },
        Cmd::BindDescriptorSet { set: d.descriptor_set },
        Cmd::DrawIndexed { index_count: d.index_count },
    ]
}

/// The complete command block of one pass: begin, one draw, end.
pub open spec fn pass_cmds(pass: usize, extent: Extent, d: DrawCall) -> Seq<Cmd> {
    begin_pass_cmds(pass, extent) + draw_cmds(d) + seq![Cmd::EndRenderPass { pass }]
}

/// The command stream of a whole graph: every pass's block, one after
/// another, in declaration order.
pub open spec fn graph_cmds(passes: Seq<CompiledPass>, draws: Seq<DrawCall>) -> Seq<Cmd>
    decreases passes.len(),
{
    if passes.len() == 0 {
        Seq::empty()
    } else {
        graph_cmds(passes.drop_last(), draws.drop_last())
            + pass_cmds((passes.len() - 1) as usize, passes.last().extent, draws.last())
    }
}

/// Records the shared per-frame command buffer: the commands emitted so
/// far and which pass, if any, is currently open.
pub struct Recorder {
    cmds: Vec<Cmd>,
    current: Option<usize>,
}

impl Recorder {
    /// The commands recorded so far, in order.
    pub closed spec fn recorded(self) -> Seq<Cmd> {
        self.cmds@
    }

    /// The pass whose recording is open, if any.
    pub closed spec fn open_pass(self) -> Option<usize> {
        self.current
    }

    pub fn new() -> (rec: Recorder)
        ensures
            rec.recorded() == Seq::<Cmd>::empty(),
            rec.open_pass() is None,
    {
        Recorder { cmds: Vec::new(), current: None }
    }

    /// Hands the finished command stream to the code that replays it.
    pub fn take_commands(self) -> (cmds: Vec<Cmd>)
        ensures
            cmds@ == self.recorded(),
    {
        self.cmds
    }

    /// Records one indexed draw into the open pass, in the fixed binding
    /// order: vertex and index buffers, descriptor set, draw. Succeeds
    /// exactly when a pass is open.
    pub fn record_draw(&mut self, d: DrawCall) -> (r: Result<(), GraphError>)
        ensures
            match r {
                Ok(_) => {
                    &&& old(self).open_pass() is Some
                    &&& final(self).open_pass() == old(self).open_pass()
                    &&& final(self).recorded() == old(self).recorded() + draw_cmds(d)
                },
                Err(e) => {
                    &&& old(self).open_pass() is None
                    &&& *final(self) == *old(self)
                    &&& e == GraphError::NoOpenPass
                },
            },
    {
        if self.current.is_none() {
            return Err(GraphError::NoOpenPass);
        }
        self.cmds.push(Cmd::BindVertexBuffer { buffer: d.vertex_buffer });
        self.cmds.push(Cmd::BindIndexBuffer { buffer: d.index_buffer });
        self.cmds.push(Cmd::BindDescriptorSet { set: d.descriptor_set });
        self.cmds.push(Cmd::DrawIndexed { index_count: d.index_count });
        proof {
            assert(self.cmds@ =~= old(self).cmds@ + draw_cmds(d));
        }
        Ok(())
    }
}

impl Graph {
    /// The compiled passes, in declaration order.
    pub closed spec fn pass_seq(self) -> Seq<CompiledPass> {
        self.passes@
    }

    /// Every bundle matches its declaration and renders over the full
    /// extent of the declaration's first output attachment.
    pub open spec fn wf(self) -> bool {
        forall|i: int| 0 <= i < self.pass_seq().len()
            ==> pass_desc_wf((#[trigger] self.pass_seq()[i]).desc)
                && self.pass_seq()[i].extent == pass_extent(self.pass_seq()[i].desc)
    }

    pub fn pass_count(&self) -> (n: usize)
        ensures
            n == self.pass_seq().len(),
    {
        self.passes.len()
    }

    /// Opens the recording of pass `pass`: emits its begin block (render
    /// pass begin with fixed clears, pipeline bind, viewport and scissor
    /// over the pass's full extent). Succeeds exactly when the index names
    /// a pass and no other pass is open.
    pub fn begin_pass(&self, rec: &mut Recorder, pass: usize) -> (r: Result<(), GraphError>)
        requires
            self.wf(),
        ensures
            match r {
                Ok(_) => {
                    &&& pass < self.pass_seq().len()
                    &&& old(rec).open_pass() is None
                    &&& final(rec).open_pass() == Some(pass)
                    &&& final(rec).recorded() == old(rec).recorded()
                        + begin_pass_cmds(pass, self.pass_seq()[pass as int].extent)
                },
                Err(e) => {
                    &&& *final(rec) == *old(rec)
                    &&& e == (if pass >= self.pass_seq().len() {
                        GraphError::PassOutOfRange
                    } else {
                        GraphError::PassAlreadyOpen
                    })
                    &&& (pass >= self.pass_seq().len() || old(rec).open_pass() is Some)
                },
            },
    {
        if pass >= self.passes.len() {
            return Err(GraphError::PassOutOfRange);
        }
        if rec.current.is_some() {
            return Err(GraphError::PassAlreadyOpen);
        }
        let extent = self.passes[pass].extent;
        rec.cmds.push(Cmd::BeginRenderPass {
            pass,
            extent,
            clear_color: ClearColor { r: 0, g: 0, b: 0, a: 1 },
            clear_depth: 1,
            clear_stencil: 0,
        });
        rec.cmds.push(Cmd::BindPipeline { pass });
        rec.cmds.push(Cmd::SetViewport { x: 0, y: 0, extent });
        rec.cmds.push(Cmd::SetScissor { x: 0, y: 0, extent });
        rec.current = Some(pass);
        proof {
            assert(rec.cmds@ =~= old(rec).cmds@ + begin_pass_cmds(pass, self.pass_seq()[pass as int].extent));
        }
        Ok(())
    }

    /// Closes the open pass recording: emits its end command. Succeeds
    /// exactly when a pass is open.
    pub fn end_pass(&self, rec: &mut Recorder) -> (r: Result<usize, GraphError>)
        ensures
            match r {
                Ok(pass) => {
                    &&& old(rec).open_pass() == Some(pass)
                    &&& final(rec).open_pass() is None
                    &&& final(rec).recorded() == old(rec).recorded()
                        + seq![Cmd::EndRenderPass { pass }]
                },
                Err(e) => {
                    &&& old(rec).open_pass() is None
                    &&& *final(rec) == *old(rec)
                    &&& e == GraphError::NoOpenPass
                },
            },
    {
        match rec.current {
            None => Err(GraphError::NoOpenPass),
            Some(pass) => {
                rec.cmds.push(Cmd::EndRenderPass { pass });
                rec.current = None;
                proof {
                    assert(rec.cmds@ =~= old(rec).cmds@ + seq![Cmd::EndRenderPass { pass }]);
                }
                Ok(pass)
            },
        }
    }

    /// Records one complete pass into the command buffer: its begin block,
    /// one indexed draw, and its end command -- the fixed block every pass
    /// contributes to a frame. Succeeds exactly when the index names a
    /// pass and no pass is open.
    pub fn record_command_buffer(&self, rec: &mut Recorder, pass: usize, d: DrawCall) -> (r:
        Result<(), GraphError>)
        requires
            self.wf(),
        ensures
            match r {
                Ok(_) => {
                    &&& pass < self.pass_seq().len()
                    &&& old(rec).open_pass() is None
                    &&& final(rec).open_pass() is None
                    &&& final(rec).recorded() == old(rec).recorded()
                        + pass_cmds(pass, self.pass_seq()[pass as int].extent, d)
                },
                Err(e) => {
                    &&& *final(rec) == *old(rec)
                    &&& e == (if pass >= self.pass_seq().len() {
                        GraphError::PassOutOfRange
                    } else {
                        GraphError::PassAlreadyOpen
                    })
                    &&& (pass >= self.pass_seq().len() || old(rec).open_pass() is Some)
                },
            },
    {
        let r = self.begin_pass(rec, pass);
        if let Err(e) = r {
            return Err(e);
        }
        let dr = rec.record_draw(d);
        proof {
            assert(dr is Ok);
        }
        let er = self.end_pass(rec);
        proof {
            assert(er is Ok);
            assert(rec.recorded() =~= old(rec).recorded()
                + pass_cmds(pass, self.pass_seq()[pass as int].extent, d));
        }
        Ok(())
    }

    /// Records the whole graph: every pass's block, in declaration order,
    /// with draw `draws[i]` issued inside pass i and no interleaving.
    pub fn record_graph(&self, draws: &Vec<DrawCall>) -> (cmds: Vec<Cmd>)
        requires
            self.wf(),
            draws@.len() == self.pass_seq().len(),
        ensures
            cmds@ == graph_cmds(self.pass_seq(), draws@),
    {
        let mut rec = Recorder::new();
        let n = self.pass_count();
        let mut i: usize = 0;
        while i < n
            invariant
                i <= n,
                self.wf(),
                n == self.pass_seq().len(),
                draws@.len() == n,
                rec.open_pass() is None,
                rec.recorded() == graph_cmds(self.pass_seq().take(i as int), draws@.take(i as int)),
            decreases n - i,
        {
            let r = self.record_command_buffer(&mut rec, i, draws[i]);
            proof {
                assert(r is Ok);
                let tp = self.pass_seq().take(i + 1);
                let td = draws@.take(i + 1);
                assert(tp.drop_last() =~= self.pass_seq().take(i as int));
                assert(td.drop_last() =~= draws@.take(i as int));
                assert(tp.last() == self.pass_seq()[i as int]);
                assert(td.last() == draws@[i as int]);
            }
            i = i + 1;
        }
        proof {
            assert(self.pass_seq().take(n as int) =~= self.pass_seq());
            assert(draws@.take(n as int) =~= draws@);
        }
        rec.take_commands()
    }
}

/// Compiles the accumulated declarations into a graph: one bundle per
/// pass index, in declaration order, each rendering over the full extent
/// of its declaration's first output attachment.
pub fn build_graph(builder: GraphBuilder) -> (g: Graph)
    requires
        builder.wf(),
    ensures
        g.wf(),
        g.pass_seq().len() == builder.decls().len(),
        forall|i: int| #![auto] 0 <= i < builder.decls().len()
            ==> g.pass_seq()[i].desc == builder.decls()[i]
                && g.pass_seq()[i].extent == pass_extent(builder.decls()[i]),
{
    let GraphBuilder { passes: mut decls } = builder;
    let ghost orig = decls@;
    let mut compiled: Vec<CompiledPass> = Vec::new();
    while decls.len() > 0
        invariant
            orig.len() == compiled@.len() + decls@.len(),
            decls@ == orig.subrange(compiled@.len() as int, orig.len() as int),
            forall|i: int| 0 <= i < orig.len() ==> pass_desc_wf(#[trigger] orig[i]),
            forall|i: int| #![auto] 0 <= i < compiled@.len()
                ==> compiled@[i].desc == orig[i]
                    && compiled@[i].extent == pass_extent(orig[i]),
        decreases decls@.len(),
    {
        let d = decls.remove(0);
        proof {
            assert(d == orig[compiled@.len() as int]);
            assert(decls@ =~= orig.subrange(compiled@.len() as int + 1, orig.len() as int));
        }
        let extent = Extent { width: d.outputs[0].width, height: d.outputs[0].height };
        compiled.push(CompiledPass { desc: d, extent });
    }
    proof {
        assert forall|i: int| 0 <= i < compiled@.len() implies pass_desc_wf(
            (#[trigger] compiled@[i]).desc,
        ) && compiled@[i].extent == pass_extent(compiled@[i].desc) by {
            assert(compiled@[i].desc == orig[i]);
        }
    }
    Graph { passes: compiled }
}

/// The pass-order law: the recorded stream of a whole graph is exactly
/// the passes' command blocks laid end to end in declaration order --
/// pass i's block occupies positions [i * PASS_CMD_LEN, (i+1) * PASS_CMD_LEN)
/// and is exactly that pass's begin-draw-end block, so no two passes
/// interleave.
pub proof fn lemma_passes_record_in_declaration_order(
    passes: Seq<CompiledPass>,
    draws: Seq<DrawCall>,
)
    requires
        draws.len() == passes.len(),
        passes.len() <= usize::MAX,
    ensures
        graph_cmds(passes, draws).len() == passes.len() * (PASS_CMD_LEN as int),
        forall|i: int| #![auto] 0 <= i < passes.len()
            ==> graph_cmds(passes, draws).subrange(
                i * (PASS_CMD_LEN as int),
                (i + 1) * (PASS_CMD_LEN as int),
            ) == pass_cmds(i as usize, passes[i].extent, draws[i]),
    decreases passes.len(),
{
    if passes.len() > 0 {
        let n = passes.len() as int;
        let prev = graph_cmds(passes.drop_last(), draws.drop_last());
        let whole = graph_cmds(passes, draws);
        let block = pass_cmds((n - 1) as usize, passes.last().extent, draws.last());
        lemma_passes_record_in_declaration_order(passes.drop_last(), draws.drop_last());
        assert(prev.len() == (n - 1) * (PASS_CMD_LEN as int));
        assert forall|i: int| #![auto] 0 <= i < n implies whole.subrange(
            i * (PASS_CMD_LEN as int),
            (i + 1) * (PASS_CMD_LEN as int),
        ) == pass_cmds(i as usize, passes[i].extent, draws[i]) by {
            if i < n - 1 {
                assert(passes.drop_last()[i] == passes[i]);
                assert(draws.drop_last()[i] == draws[i]);
                assert(whole.subrange(i * (PASS_CMD_LEN as int), (i + 1) * (PASS_CMD_LEN as int))
                    =~= prev.subrange(i * (PASS_CMD_LEN as int), (i + 1) * (PASS_CMD_LEN as int)));
            } else {
                assert(whole.subrange(i * (PASS_CMD_LEN as int), (i + 1) * (PASS_CMD_LEN as int))
                    =~= block);
            }
        }
    }
}

} // verus!
