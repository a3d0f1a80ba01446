//! Debug visualization and the history of performance data.
//!
//! The measurements are numbers that this module only keeps: it holds each
//! as the 32 bits of its IEEE 754 form.

use std::collections::VecDeque;
use vstd::prelude::*;
use vstd::string::StringExecFns;

verus! {

/// Debug visualization mode
#[derive(Debug, Clone, Copy, PartialEq, Eq, Structural)]
pub enum VisualizationMode {
    /// Normal rendering
    Normal,
    /// Show wireframe
    Wireframe,
    /// Show voxel bounds
    Bounds,
    /// Show performance overlay
    Performance,
}

impl Default for VisualizationMode {
    fn default() -> (mode: Self)
        ensures
            mode == VisualizationMode::Normal,
    {
        VisualizationMode::Normal
    }
}

/// Metrics for a single frame, stored in ring buffer
#[derive(Debug, Clone, Copy, PartialEq, Eq, Structural)]
pub struct FrameMetrics {
    pub frame_number: u64,
    pub fps: u32,
    pub frame_time_ms: u32,
    pub voxel_count: usize,
    // Professional tier metrics
    pub voxel_pass_ms: u32,
    pub lighting_pass_ms: u32,
    pub shadow_pass_ms: u32,
    pub gi_pass_ms: u32,
    pub nrc_pass_ms: u32,
}

/// The number of frames that the history keeps.
pub const HISTORY_LIMIT: usize = 3600;

/// The history after one more frame: where it is full, its oldest frame
/// makes room.
pub open spec fn with_frame(history: Seq<FrameMetrics>, frame: FrameMetrics) -> Seq<FrameMetrics> {
    if history.len() >= HISTORY_LIMIT {
        history.skip(1).push(frame)
    } else {
        history.push(frame)
    }
}

/// Adds the metrics of a frame to the history, at the expense of the oldest
/// frame where the history is full.
pub fn accumulate_metrics(history: &mut VecDeque<FrameMetrics>, frame: FrameMetrics)
    ensures
        final(history)@ == with_frame(old(history)@, frame),
{
    if history.len() >= HISTORY_LIMIT {
        history.pop_front();
    }
    history.push_back(frame);
}

/// The header of the exported performance data.
pub open spec fn csv_header_text(professional: bool) -> Seq<char> {
    if professional {
        "frame,fps,frame_time_ms,voxel_count"@
            + ",voxel_pass_ms,lighting_pass_ms,shadow_pass_ms,gi_pass_ms,nrc_ms"@ + "\n"@
    } else {
        "frame,fps,frame_time_ms,voxel_count"@ + "\n"@
    }
}

/// The first line of the exported performance data, with the columns of the
/// passes for the tiers that measure them.
pub fn csv_header(professional: bool) -> (header: String)
    ensures
        header@ == csv_header_text(professional),
{
    let mut header = String::from_str("frame,fps,frame_time_ms,voxel_count");

    // Add professional columns if applicable
    if professional {
        header.append(",voxel_pass_ms,lighting_pass_ms,shadow_pass_ms,gi_pass_ms,nrc_ms");
    }
    header.append("\n");
    header
}

} // verus!
