//! Draw execution: binds a batch's resources and issues one indexed draw.
use vstd::prelude::*;
use crate::batch::UiTextureSlicerBatch;
use crate::cache::UiTextureSliceImageBindGroups;

verus! {

/// Why a batch could not be drawn.
#[derive(Clone, Copy, Debug, PartialEq, Eq, Structural)]
pub enum DrawFailure {
    ViewBindGroupMissing,
    TextureBindGroupMissing,
    VerticesMissing,
    IndicesMissing,
}

/// What a render command came to.
#[derive(Clone, Copy, Debug, PartialEq, Eq, Structural)]
pub enum RenderCommandResult {
    Success,
    /// The item carries no batch: another item draws its quads.
    Skip,
    Failure(DrawFailure),
}

/// A command recorded into a render pass.
#[derive(Clone, Copy, Debug, PartialEq, Eq, Structural)]
pub enum PassCommand {
    SetBindGroup { index: u32, bind_group: u64, dynamic_offset: Option<u32> },
    SetVertexBuffer { buffer: u64 },
    SetIndexBuffer { buffer: u64 },
    /// One draw over `start..end` of the index buffer.
    DrawIndexed { start: u32, end: u32 },
}

/// The commands recorded so far.
pub struct TrackedRenderPass {
    pub commands: Vec<PassCommand>,
}

impl TrackedRenderPass {
    pub fn new() -> (r: Self)
        ensures
            r.commands@.len() == 0,
    {
        TrackedRenderPass { commands: Vec::new() }
    }
}

/// Binds the view's uniforms at `index`, with the view's offset.
pub struct SetSlicerViewBindGroup {
    pub index: u32,
}

/// Binds the texture of the item's batch at `index`.
pub struct SetSlicerTextureBindGroup {
    pub index: u32,
}

/// Draws the item's batch.
pub struct DrawSlicer;

impl SetSlicerViewBindGroup {
    pub fn render(&self, view_offset: u32, view_bind_group: Option<u64>, pass: &mut TrackedRenderPass) -> (r:
        RenderCommandResult)
        ensures
            match view_bind_group {
                None => r == RenderCommandResult::Failure(DrawFailure::ViewBindGroupMissing)
                    && final(pass).commands@ == old(pass).commands@,
                Some(g) => r == RenderCommandResult::Success && final(pass).commands@ == old(
                    pass,
                ).commands@.push(
                    PassCommand::SetBindGroup { index: self.index, bind_group: g, dynamic_offset: Some(view_offset) },
                ),
            },
    {
        match view_bind_group {
            None => RenderCommandResult::Failure(DrawFailure::ViewBindGroupMissing),
            Some(g) => {
                pass.commands.push(
                    PassCommand::SetBindGroup { index: self.index, bind_group: g, dynamic_offset: Some(view_offset) },
                );
                RenderCommandResult::Success
            },
        }
    }
}

impl SetSlicerTextureBindGroup {
    pub fn render(
        &self,
        batch: Option<UiTextureSlicerBatch>,
        image_bind_groups: &UiTextureSliceImageBindGroups,
        pass: &mut TrackedRenderPass,
    ) -> (r: RenderCommandResult)
        ensures
            match batch {
                None => r == RenderCommandResult::Skip && final(pass).commands@ == old(pass).commands@,
                Some(b) => if image_bind_groups@.values.contains_key(b.image) {
                    r == RenderCommandResult::Success && final(pass).commands@ == old(pass).commands@.push(
                        PassCommand::SetBindGroup {
                            index: self.index,
                            bind_group: image_bind_groups@.values[b.image],
                            dynamic_offset: None,
                        },
                    )
                } else {
                    r == RenderCommandResult::Failure(DrawFailure::TextureBindGroupMissing)
                        && final(pass).commands@ == old(pass).commands@
                },
            },
    {
        match batch {
            None => RenderCommandResult::Skip,
            Some(b) => match image_bind_groups.get(b.image) {
                None => RenderCommandResult::Failure(DrawFailure::TextureBindGroupMissing),
                Some(g) => {
                    pass.commands.push(PassCommand::SetBindGroup { index: self.index, bind_group: g, dynamic_offset: None });
                    RenderCommandResult::Success
                },
            },
        }
    }
}

impl DrawSlicer {
    pub fn render(
        &self,
        batch: Option<UiTextureSlicerBatch>,
        vertex_buffer: Option<u64>,
        index_buffer: Option<u64>,
        pass: &mut TrackedRenderPass,
    ) -> (r: RenderCommandResult)
        ensures
            match (batch, vertex_buffer, index_buffer) {
                (None, _, _) => r == RenderCommandResult::Skip && final(pass).commands@ == old(pass).commands@,
                (Some(_), None, _) => r == RenderCommandResult::Failure(DrawFailure::VerticesMissing)
                    && final(pass).commands@ == old(pass).commands@,
                (Some(_), Some(_), None) => r == RenderCommandResult::Failure(DrawFailure::IndicesMissing)
                    && final(pass).commands@ == old(pass).commands@,
                (Some(b), Some(vb), Some(ib)) => r == RenderCommandResult::Success && final(pass).commands@
                    == old(pass).commands@.push(PassCommand::SetVertexBuffer { buffer: vb }).push(
                    PassCommand::SetIndexBuffer { buffer: ib },
                ).push(PassCommand::DrawIndexed { start: b.range_start, end: b.range_end }),
            },
    {
        let b = match batch {
            None => {
                return RenderCommandResult::Skip;
            },
            Some(b) => b,
        };
        let vb = match vertex_buffer {
            None => {
                return RenderCommandResult::Failure(DrawFailure::VerticesMissing);
            },
            Some(vb) => vb,
        };
        let ib = match index_buffer {
            None => {
                return RenderCommandResult::Failure(DrawFailure::IndicesMissing);
            },
            Some(ib) => ib,
        };
        pass.commands.push(PassCommand::SetVertexBuffer { buffer: vb });
        pass.commands.push(PassCommand::SetIndexBuffer { buffer: ib });
        pass.commands.push(PassCommand::DrawIndexed { start: b.range_start, end: b.range_end });
        RenderCommandResult::Success
    }
}

/// Draws one phase item: view uniforms at slot 0, the batch's texture at
/// slot 1, then the batch's whole index range in one draw. The first
/// command that skips or fails ends the draw with its result.
pub fn draw_ui_texture_slices(
    view_offset: u32,
    view_bind_group: Option<u64>,
    image_bind_groups: &UiTextureSliceImageBindGroups,
    vertex_buffer: Option<u64>,
    index_buffer: Option<u64>,
    batch: Option<UiTextureSlicerBatch>,
    pass: &mut TrackedRenderPass,
) -> (r: RenderCommandResult)
    ensures
        view_bind_group is None ==> r == RenderCommandResult::Failure(DrawFailure::ViewBindGroupMissing),
        view_bind_group is Some && batch is None ==> r == RenderCommandResult::Skip,
        view_bind_group is Some && batch is Some && !image_bind_groups@.values.contains_key(batch.unwrap().image)
            ==> r == RenderCommandResult::Failure(DrawFailure::TextureBindGroupMissing),
        view_bind_group is Some && batch is Some && image_bind_groups@.values.contains_key(batch.unwrap().image)
            ==> r == (match (vertex_buffer, index_buffer) {
            (None, _) => RenderCommandResult::Failure(DrawFailure::VerticesMissing),
            (Some(_), None) => RenderCommandResult::Failure(DrawFailure::IndicesMissing),
            (Some(_), Some(_)) => RenderCommandResult::Success,
        }),
        r == RenderCommandResult::Success ==> batch is Some && final(pass).commands@ == old(pass).commands@
            + seq![
            PassCommand::SetBindGroup { index: 0, bind_group: view_bind_group.unwrap(), dynamic_offset: Some(view_offset) },
            PassCommand::SetBindGroup {
                index: 1,
                bind_group: image_bind_groups@.values[batch.unwrap().image],
                dynamic_offset: None,
            },
            PassCommand::SetVertexBuffer { buffer: vertex_buffer.unwrap() },
            PassCommand::SetIndexBuffer { buffer: index_buffer.unwrap() },
            PassCommand::DrawIndexed { start: batch.unwrap().range_start, end: batch.unwrap().range_end },
        ],
{
    let view = SetSlicerViewBindGroup { index: 0 };
    match view.render(view_offset, view_bind_group, pass) {
        RenderCommandResult::Success => {},
        other => {
            return other;
        },
    }
    let texture = SetSlicerTextureBindGroup { index: 1 };
    match texture.render(batch, image_bind_groups, pass) {
        RenderCommandResult::Success => {},
        other => {
            return other;
        },
    }
    let r = DrawSlicer.render(batch, vertex_buffer, index_buffer, pass);
    proof {
        if r == RenderCommandResult::Success {
            assert(pass.commands@ =~= old(pass).commands@ + seq![
                PassCommand::SetBindGroup { index: 0, bind_group: view_bind_group.unwrap(), dynamic_offset: Some(view_offset) },
                PassCommand::SetBindGroup {
                    index: 1,
                    bind_group: image_bind_groups@.values[batch.unwrap().image],
                    dynamic_offset: None,
                },
                PassCommand::SetVertexBuffer { buffer: vertex_buffer.unwrap() },
                PassCommand::SetIndexBuffer { buffer: index_buffer.unwrap() },
                PassCommand::DrawIndexed { start: batch.unwrap().range_start, end: batch.unwrap().range_end },
            ]);
        }
    }
    r
}

} // verus!
