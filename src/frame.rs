//! Per-frame decisions: the order of the draw calls in the render pass, and
//! the frame-time tally reported about once a second.

use vstd::prelude::*;

verus! {

/// The two render pipelines of the scene.
#[derive(Clone, Copy, Debug, PartialEq, Eq, Structural)]
pub enum PipelineKind {
    /// Lit meshes: vertex input, depth writes.
    Entity,
    /// The skybox behind everything: no vertex input, no depth writes.
    Universe,
}

/// One step of the render pass, after both targets were cleared.
#[derive(Clone, Copy, Debug, PartialEq, Eq, Structural)]
pub enum DrawCommand {
    /// Bind the shared uniform buffer, cubemap and sampler.
    SetBindGroup,
    SetPipeline(PipelineKind),
    /// Bind the entity's vertex and index buffers and draw `index_count`
    /// indices, one instance.
    DrawEntity { entity: usize, index_count: u32 },
    /// Draw three vertices with no vertex buffer: the full-screen triangle.
    DrawFullscreenTriangle,
}

/// The render pass for entities with these index counts: the bind group,
/// each entity with the entity pipeline, then the skybox.
pub open spec fn frame_plan(index_counts: Seq<u32>) -> Seq<DrawCommand> {
    seq![DrawCommand::SetBindGroup, DrawCommand::SetPipeline(PipelineKind::Entity)] + Seq::new(
        index_counts.len(),
        |i: int| DrawCommand::DrawEntity { entity: i as usize, index_count: index_counts[i] },
    ) + seq![
        DrawCommand::SetPipeline(PipelineKind::Universe),
        DrawCommand::DrawFullscreenTriangle,
    ]
}

/// The draw calls of one frame, for entities with these index counts.
pub fn plan_frame(index_counts: &[u32]) -> (cmds: Vec<DrawCommand>)
    ensures
        cmds@ == frame_plan(index_counts@),
{
    let mut cmds: Vec<DrawCommand> = Vec::new();
    cmds.push(DrawCommand::SetBindGroup);
    cmds.push(DrawCommand::SetPipeline(PipelineKind::Entity));
    let mut i: usize = 0;
    while i < index_counts.len()
        invariant
            i <= index_counts@.len(),
            cmds@.len() == 2 + i,
            cmds@[0] == DrawCommand::SetBindGroup,
            cmds@[1] == DrawCommand::SetPipeline(PipelineKind::Entity),
            forall|k: int|
                0 <= k < i ==> #[trigger] cmds@[2 + k] == (DrawCommand::DrawEntity {
                    entity: k as usize,
                    index_count: index_counts@[k],
                }),
        decreases index_counts.len() - i,
    {
        cmds.push(DrawCommand::DrawEntity { entity: i, index_count: index_counts[i] });
        i = i + 1;
    }
    let ghost body = cmds@;
    cmds.push(DrawCommand::SetPipeline(PipelineKind::Universe));
    cmds.push(DrawCommand::DrawFullscreenTriangle);
    let ghost plan = frame_plan(index_counts@);
    assert forall|j: int| 0 <= j < cmds@.len() implies cmds@[j] == plan[j] by {
        if 2 <= j < 2 + index_counts@.len() {
            assert(cmds@[j] == body[2 + (j - 2)]);
        }
    }
    assert(cmds@ =~= plan);
    cmds
}

/// Microseconds between two frame-time reports.
pub const REPORT_INTERVAL_MICROS: u64 = 1_000_000;

/// Frames drawn over an interval of time.
#[derive(Clone, Copy, Debug, PartialEq, Eq, Structural)]
pub struct FrameReport {
    pub frames: u32,
    pub elapsed_micros: u64,
}

/// Counts frames and reports the tally once more than a second has passed
/// since the last report. Times are microseconds on a monotonic clock.
#[derive(Clone, Copy, Debug, PartialEq, Eq, Structural)]
pub struct FrameCounter {
    pub last_report_micros: u64,
    pub frame_count: u32,
}

impl FrameCounter {
    pub fn new(now_micros: u64) -> (c: FrameCounter)
        ensures
            c.last_report_micros == now_micros,
            c.frame_count == 0,
    {
        FrameCounter { last_report_micros: now_micros, frame_count: 0 }
    }

    /// Counts one frame drawn at `now_micros`. Once more than a second has
    /// passed since the last report, returns the frames counted (this one
    /// included) and the time they took, and starts a new interval.
    pub fn update(&mut self, now_micros: u64) -> (r: Option<FrameReport>)
        ensures
            ({
                let frames = if old(self).frame_count == u32::MAX {
                    u32::MAX
                } else {
                    (old(self).frame_count + 1) as u32
                };
                let elapsed = if now_micros >= old(self).last_report_micros {
                    now_micros - old(self).last_report_micros
                } else {
                    0
                };
                if elapsed > REPORT_INTERVAL_MICROS {
                    r == Some(FrameReport { frames, elapsed_micros: elapsed as u64 })
                        && *final(self) == FrameCounter {
                        last_report_micros: now_micros,
                        frame_count: 0,
                    }
                } else {
                    r is None && *final(self) == FrameCounter {
                        last_report_micros: old(self).last_report_micros,
                        frame_count: frames,
                    }
                }
            }),
    {
        self.frame_count = self.frame_count.saturating_add(1);
        let elapsed = now_micros.saturating_sub(self.last_report_micros);
        if elapsed > REPORT_INTERVAL_MICROS {
            let report = FrameReport { frames: self.frame_count, elapsed_micros: elapsed };
            self.last_report_micros = now_micros;
            self.frame_count = 0;
            Some(report)
        } else {
            None
        }
    }
}

} // verus!
