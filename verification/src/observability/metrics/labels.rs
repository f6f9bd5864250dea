//! Label enumerations for cache, pipeline and scratch-buffer metrics.
use vstd::prelude::*;

verus! {

/// Scratch buffers of the chromatic aberration effect, whose capacities are sampled.
#[derive(Clone, Copy, Debug, PartialEq, Eq, Structural)]
pub enum ScratchBuffer {
    Downscaled,
    Working,
    FullResult,
}

/// The number of scratch buffers.
pub const SCRATCH_BUFFER_COUNT: usize = 3;

impl ScratchBuffer {
    /// The position of the buffer in per-buffer tables.
    pub open spec fn index_spec(self) -> int {
        match self {
            ScratchBuffer::Downscaled => 0,
            ScratchBuffer::Working => 1,
            ScratchBuffer::FullResult => 2,
        }
    }

    /// The label value of the buffer.
    pub open spec fn name_spec(self) -> Seq<char> {
        match self {
            ScratchBuffer::Downscaled => "ca_downscaled"@,
            ScratchBuffer::Working => "ca_working"@,
            ScratchBuffer::FullResult => "ca_full_result"@,
        }
    }

    /// The buffer at a position, in declaration order.
    pub open spec fn at(i: int) -> Self {
        if i == 0 {
            ScratchBuffer::Downscaled
        } else if i == 1 {
            ScratchBuffer::Working
        } else {
            ScratchBuffer::FullResult
        }
    }

    /// The position of the buffer in per-buffer tables.
    pub fn as_index(self) -> (i: usize)
        ensures
            i == self.index_spec(),
            i < SCRATCH_BUFFER_COUNT,
    {
        match self {
            ScratchBuffer::Downscaled => 0,
            ScratchBuffer::Working => 1,
            ScratchBuffer::FullResult => 2,
        }
    }

    /// The label value of the buffer.
    pub fn as_name(self) -> (s: &'static str)
        ensures
            s@ == self.name_spec(),
    {
        match self {
            ScratchBuffer::Downscaled => "ca_downscaled",
            ScratchBuffer::Working => "ca_working",
            ScratchBuffer::FullResult => "ca_full_result",
        }
    }
}

/// Cache layers:
/// - `Source`: raw object bytes from storage
/// - `Result`: transformed image output
/// - `Version`: object version tokens for cache invalidation
/// - `HotResult`: the in-process cache of hot results
#[derive(Clone, Copy, Debug, PartialEq, Eq, Structural)]
pub enum ExternalCacheLayer {
    Source,
    Result,
    Version,
    HotResult,
}

/// The number of cache layers.
pub const CACHE_LAYER_COUNT: usize = 4;

impl ExternalCacheLayer {
    /// The position of the layer in per-layer tables.
    pub open spec fn index_spec(self) -> int {
        match self {
            ExternalCacheLayer::Source => 0,
            ExternalCacheLayer::Result => 1,
            ExternalCacheLayer::Version => 2,
            ExternalCacheLayer::HotResult => 3,
        }
    }

    /// The label value of the layer.
    pub open spec fn name_spec(self) -> Seq<char> {
        match self {
            ExternalCacheLayer::Source => "source"@,
            ExternalCacheLayer::Result => "result"@,
            ExternalCacheLayer::Version => "version"@,
            ExternalCacheLayer::HotResult => "hot_result"@,
        }
    }

    /// The layer at a position, in declaration order.
    pub open spec fn at(i: int) -> Self {
        if i == 0 {
            ExternalCacheLayer::Source
        } else if i == 1 {
            ExternalCacheLayer::Result
        } else if i == 2 {
            ExternalCacheLayer::Version
        } else {
            ExternalCacheLayer::HotResult
        }
    }

    /// The position of the layer in per-layer tables.
    pub fn as_index(self) -> (i: usize)
        ensures
            i == self.index_spec(),
            i < CACHE_LAYER_COUNT,
    {
        match self {
            ExternalCacheLayer::Source => 0,
            ExternalCacheLayer::Result => 1,
            ExternalCacheLayer::Version => 2,
            ExternalCacheLayer::HotResult => 3,
        }
    }

    /// The label value of the layer.
    pub fn as_name(self) -> (s: &'static str)
        ensures
            s@ == self.name_spec(),
    {
        match self {
            ExternalCacheLayer::Source => "source",
            ExternalCacheLayer::Result => "result",
            ExternalCacheLayer::Version => "version",
            ExternalCacheLayer::HotResult => "hot_result",
        }
    }
}

/// Pipeline stages whose latency is tracked:
/// - `ObjectFetch`: object storage retrieval with retries
/// - `Decode`: image decoding
/// - `Transform`: geometric and pixel-level processing
/// - `Encode`: WebP encoding
#[derive(Clone, Copy, Debug, PartialEq, Eq, Structural)]
pub enum PipelineStage {
    ObjectFetch,
    Decode,
    Transform,
    Encode,
}

/// The number of pipeline stages.
pub const PIPELINE_STAGE_COUNT: usize = 4;

impl PipelineStage {
    /// The position of the stage in per-stage tables.
    pub open spec fn index_spec(self) -> int {
        match self {
            PipelineStage::ObjectFetch => 0,
            PipelineStage::Decode => 1,
            PipelineStage::Transform => 2,
            PipelineStage::Encode => 3,
        }
    }

    /// The label value of the stage.
    pub open spec fn name_spec(self) -> Seq<char> {
        match self {
            PipelineStage::ObjectFetch => "object_fetch"@,
            PipelineStage::Decode => "decode"@,
            PipelineStage::Transform => "transform"@,
            PipelineStage::Encode => "encode"@,
        }
    }

    /// The stage at a position, in declaration order.
    pub open spec fn at(i: int) -> Self {
        if i == 0 {
            PipelineStage::ObjectFetch
        } else if i == 1 {
            PipelineStage::Decode
        } else if i == 2 {
            PipelineStage::Transform
        } else {
            PipelineStage::Encode
        }
    }

    /// The position of the stage in per-stage tables.
    pub fn as_index(self) -> (i: usize)
        ensures
            i == self.index_spec(),
            i < PIPELINE_STAGE_COUNT,
    {
        match self {
            PipelineStage::ObjectFetch => 0,
            PipelineStage::Decode => 1,
            PipelineStage::Transform => 2,
            PipelineStage::Encode => 3,
        }
    }

    /// The label value of the stage.
    pub fn as_name(self) -> (s: &'static str)
        ensures
            s@ == self.name_spec(),
    {
        match self {
            PipelineStage::ObjectFetch => "object_fetch",
            PipelineStage::Decode => "decode",
            PipelineStage::Transform => "transform",
            PipelineStage::Encode => "encode",
        }
    }
}

} // verus!
