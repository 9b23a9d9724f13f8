use graphene::render_graph::{
    build_graph, Cmd, ClearColor, DrawCall, Extent, GraphBuilder, GraphError, Recorder, TextureRef,
};

fn color_target(texture: u64, width: u32, height: u32) -> TextureRef {
    TextureRef { texture, width, height }
}

fn draw(vertex_buffer: u64, index_buffer: u64, index_count: u32, descriptor_set: u64) -> DrawCall {
    DrawCall { vertex_buffer, index_buffer, index_count, descriptor_set }
}

/// The command block one pass records, written out.
fn expected_pass_block(pass: usize, extent: Extent, d: DrawCall) -> Vec<Cmd> {
    vec![
        Cmd::BeginRenderPass {
            pass,
            extent,
            clear_color: ClearColor { r: 0, g: 0, b: 0, a: 1 },
            clear_depth: 1,
            clear_stencil: 0,
        },
        Cmd::BindPipeline { pass },
        Cmd::SetViewport { x: 0, y: 0, extent },
        Cmd::SetScissor { x: 0, y: 0, extent },
        Cmd::BindVertexBuffer { buffer: d.vertex_buffer },
        Cmd::BindIndexBuffer { buffer: d.index_buffer },
        Cmd::BindDescriptorSet { set: d.descriptor_set },
        Cmd::DrawIndexed { index_count: d.index_count },
        Cmd::EndRenderPass { pass },
    ]
}

fn two_pass_builder() -> GraphBuilder {
    let depth = TextureRef { texture: 99, width: 800, height: 600 };
    let mut builder = GraphBuilder::new();
    let first = builder.add_pass(
        String::from("forward lit"),
        vec![color_target(1, 800, 600)],
        Some(depth),
        10,
        11,
        20,
        30,
        40,
    );
    let second = builder.add_pass(
        String::from("forward lit 2"),
        vec![color_target(2, 800, 600)],
        Some(depth),
        10,
        12,
        20,
        30,
        40,
    );
    assert_eq!(first, 0);
    assert_eq!(second, 1);
    builder
}

#[test]
fn passes_are_numbered_in_declaration_order() {
    let graph = build_graph(two_pass_builder());
    assert_eq!(graph.pass_count(), 2);
}

#[test]
fn two_pass_graph_records_blocks_in_order_without_interleaving() {
    // A graph of passes [P0, P1] records exactly
    // begin(P0) .. end(P0), begin(P1) .. end(P1).
    let graph = build_graph(two_pass_builder());
    let draws = vec![draw(100, 101, 36, 200), draw(110, 111, 60, 201)];
    let cmds = graph.record_graph(&draws);
    let extent = Extent { width: 800, height: 600 };
    let mut expected = expected_pass_block(0, extent, draws[0]);
    expected.extend(expected_pass_block(1, extent, draws[1]));
    assert_eq!(cmds, expected);
}

#[test]
fn pass_records_full_extent_viewport_and_fixed_clears() {
    // One color attachment of 800x600 and a shared depth attachment:
    // viewport and scissor are exactly (0,0,800,600), the color clear is
    // opaque black (0,0,0,1), depth clears to the far plane.
    let graph = build_graph(two_pass_builder());
    let mut rec = Recorder::new();
    graph.begin_pass(&mut rec, 0).expect("begin_pass refused");
    graph.end_pass(&mut rec).expect("end_pass refused");
    let cmds = rec.take_commands();
    let extent = Extent { width: 800, height: 600 };
    assert_eq!(
        cmds[0],
        Cmd::BeginRenderPass {
            pass: 0,
            extent,
            clear_color: ClearColor { r: 0, g: 0, b: 0, a: 1 },
            clear_depth: 1,
            clear_stencil: 0,
        }
    );
    assert_eq!(cmds[2], Cmd::SetViewport { x: 0, y: 0, extent });
    assert_eq!(cmds[3], Cmd::SetScissor { x: 0, y: 0, extent });
}

#[test]
fn record_command_buffer_emits_one_complete_pass_block() {
    let graph = build_graph(two_pass_builder());
    let mut rec = Recorder::new();
    let d = draw(100, 101, 36, 200);
    graph
        .record_command_buffer(&mut rec, 1, d)
        .expect("record_command_buffer refused");
    let extent = Extent { width: 800, height: 600 };
    assert_eq!(rec.take_commands(), expected_pass_block(1, extent, d));
}

#[test]
fn recording_misuse_is_refused_and_changes_nothing() {
    let graph = build_graph(two_pass_builder());
    let mut rec = Recorder::new();
    assert_eq!(graph.begin_pass(&mut rec, 2).err(), Some(GraphError::PassOutOfRange));
    assert_eq!(graph.end_pass(&mut rec).err(), Some(GraphError::NoOpenPass));
    assert_eq!(
        rec.record_draw(draw(1, 2, 3, 4)).err(),
        Some(GraphError::NoOpenPass)
    );
    graph.begin_pass(&mut rec, 0).expect("begin_pass refused");
    assert_eq!(graph.begin_pass(&mut rec, 1).err(), Some(GraphError::PassAlreadyOpen));
    let ended = graph.end_pass(&mut rec).expect("end_pass refused");
    assert_eq!(ended, 0);
    // Only pass 0's begin block and end command were recorded.
    let cmds = rec.take_commands();
    assert_eq!(cmds.len(), 5);
    assert_eq!(cmds[4], Cmd::EndRenderPass { pass: 0 });
}

#[test]
fn viewport_follows_the_first_output_attachments_size() {
    let mut builder = GraphBuilder::new();
    builder.add_pass(
        String::from("offscreen"),
        vec![color_target(7, 1920, 1080), color_target(8, 64, 64)],
        None,
        10,
        11,
        20,
        30,
        40,
    );
    let graph = build_graph(builder);
    let mut rec = Recorder::new();
    graph.begin_pass(&mut rec, 0).expect("begin_pass refused");
    graph.end_pass(&mut rec).expect("end_pass refused");
    let extent = Extent { width: 1920, height: 1080 };
    assert_eq!(rec.take_commands()[2], Cmd::SetViewport { x: 0, y: 0, extent });
}
