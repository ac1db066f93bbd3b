//! Planning of the per-frame compute dispatch for the three backends.
//!
//! A [`ComputePass`] decides everything about a dispatch that does not need
//! the GPU: the configuration block handed to the kernel, the size of the
//! workgroup grid, and how the kernel's output is combined with what the
//! accumulation target already holds. Submitting the work is up to the host.

use crate::accumulation::FrameParams;
use crate::seed::random_seed;
use vstd::arithmetic::div_mod::lemma_fundamental_div_mod;
use vstd::prelude::*;

verus! {

/// Bounce limit of a full-quality frame.
pub const DEFAULT_DEPTH: u32 = 30;

/// Bounce limit of a preview frame, and of the direct backend.
pub const PREVIEW_DEPTH: u32 = 1;

/// Pixels covered by one workgroup along x.
pub const WORKGROUP_WIDTH: u32 = 8;

/// Pixels covered by one workgroup along y.
pub const WORKGROUP_HEIGHT: u32 = 4;

/// The configuration block that a dispatch uploads for its kernel.
#[derive(Clone, Copy, Debug, PartialEq, Eq, Structural)]
pub struct ConfigData {
    pub width: u32,
    pub height: u32,
    pub depth: u32,
    pub seed: u32,
}

/// The dispatch strategy.
#[derive(Clone, Copy, Debug, PartialEq, Eq, Structural)]
pub enum BackendKind {
    /// One shading evaluation per pixel and frame, nothing kept across frames.
    Direct,
    /// One kernel invocation per pixel that loops over all bounces itself.
    MegaKernel,
    /// Breadth-first stages over ray queues.
    Wavefront,
}

/// How a kernel combines a new sample with the accumulation target.
#[derive(Clone, Copy, Debug, PartialEq, Eq, Structural)]
pub enum Blend {
    /// The new sample replaces the pixel.
    Overwrite,
    /// The pixel holds the mean of `sample_count` samples and becomes the
    /// mean of `sample_count + 1`.
    IncrementalMean,
    /// The new sample is added to the pixel.
    RunningSum,
}

/// Everything the host needs to submit one frame's compute work.
#[derive(Clone, Copy, Debug, PartialEq, Eq, Structural)]
pub struct Dispatch {
    /// Contents of the configuration buffer.
    pub config: ConfigData,
    /// Workgroups along x; enough to cover `config.width` pixels.
    pub workgroups_x: u32,
    /// Workgroups along y; enough to cover `config.height` pixels. The grid
    /// is one workgroup deep.
    pub workgroups_y: u32,
    /// The target must be cleared before the kernel runs.
    pub clear_target: bool,
    pub blend: Blend,
    /// Number of samples that the target holds when the kernel runs.
    pub sample_count: u32,
}

/// The number of tiles of `tile` pixels needed to cover `extent` pixels.
pub open spec fn tile_count(extent: u32, tile: u32) -> int {
    if extent % tile == 0 {
        extent as int / tile as int
    } else {
        extent as int / tile as int + 1
    }
}

/// Computes [`tile_count`]: the quotient, rounded up.
pub fn tiles(extent: u32, tile: u32) -> (count: u32)
    requires
        tile > 0,
    ensures
        count == tile_count(extent, tile),
{
    let whole: u32 = extent / tile;
    if extent % tile == 0 {
        whole
    } else {
        proof {
            lemma_fundamental_div_mod(extent as int, tile as int);
            assert(whole < u32::MAX) by (nonlinear_arith)
                requires
                    extent as int == tile as int * whole as int + (extent as int % tile as int),
                    extent as int % tile as int > 0,
                    tile >= 1,
                    extent <= u32::MAX,
            ;
        }
        whole + 1
    }
}

/// A grid of [`tile_count`] tiles covers every pixel, and its last tile is
/// not empty: no boundary pixel is dropped and no tile is wasted.
pub proof fn lemma_tiles_cover(extent: u32, tile: u32)
    requires
        tile > 0,
    ensures
        tile_count(extent, tile) * tile >= extent,
        (tile_count(extent, tile) - 1) * tile < extent || extent == 0,
        extent == 0 <==> tile_count(extent, tile) == 0,
{
    let e = extent as int;
    let t = tile as int;
    lemma_fundamental_div_mod(e, t);
    let q = e / t;
    let r = e % t;
    assert(0 <= r < t) by (nonlinear_arith)
        requires
            r == e % t,
            t > 0,
    ;
    assert(q >= 0) by (nonlinear_arith)
        requires
            e == t * q + r,
            0 <= r < t,
            e >= 0,
            t > 0,
    ;
    assert((q + 1) * t == t * q + t) by (nonlinear_arith);
    assert((q - 1) * t == t * q - t) by (nonlinear_arith);
    assert(q * t == t * q) by (nonlinear_arith);
    if q == 0 {
        assert(t * q == 0) by (nonlinear_arith)
            requires
                q == 0,
        ;
    }
}

/// The compute backend of a renderer: one of three strategies, each with the
/// configuration of its most recent dispatch.
#[derive(Clone, Copy, Debug, PartialEq, Eq, Structural)]
pub enum ComputePass {
    /// Shades every pixel once per frame and always overwrites the target.
    Direct { config_data: ConfigData },
    /// Traces whole paths in one kernel and blends each frame into the mean
    /// held by the target, which is cleared when stale. Right after the view
    /// or the size changed it renders one shallow frame, so that the new view
    /// shows up at once.
    MegaKernel { config_data: ConfigData, preview_next_frame: bool },
    /// Traces paths in breadth-first stages; finished paths add their result
    /// to the target, which is cleared when stale.
    Wavefront { config_data: ConfigData },
}

impl ComputePass {
    pub open spec fn kind(self) -> BackendKind {
        match self {
            ComputePass::Direct { .. } => BackendKind::Direct,
            ComputePass::MegaKernel { .. } => BackendKind::MegaKernel,
            ComputePass::Wavefront { .. } => BackendKind::Wavefront,
        }
    }

    pub open spec fn config(self) -> ConfigData {
        match self {
            ComputePass::Direct { config_data } => config_data,
            ComputePass::MegaKernel { config_data, .. } => config_data,
            ComputePass::Wavefront { config_data } => config_data,
        }
    }

    /// The next frame is a preview.
    pub open spec fn preview_pending(self) -> bool {
        self matches ComputePass::MegaKernel { preview_next_frame, .. } && preview_next_frame
    }

    /// Bounce limit of a full-quality frame of the given backend.
    pub open spec fn full_depth(kind: BackendKind) -> u32 {
        match kind {
            BackendKind::Direct => PREVIEW_DEPTH,
            BackendKind::MegaKernel => DEFAULT_DEPTH,
            BackendKind::Wavefront => DEFAULT_DEPTH,
        }
    }

    /// The pass as created for a `width` x `height` target.
    pub open spec fn created(kind: BackendKind, seed: u32, width: u32, height: u32) -> Self {
        let config_data = ConfigData { width, height, depth: Self::full_depth(kind), seed };
        match kind {
            BackendKind::Direct => ComputePass::Direct { config_data },
            BackendKind::MegaKernel => ComputePass::MegaKernel {
                config_data,
                preview_next_frame: false,
            },
            BackendKind::Wavefront => ComputePass::Wavefront { config_data },
        }
    }

    /// The pass after its target was reallocated at `width` x `height`.
    pub open spec fn resized(self, seed: u32, width: u32, height: u32) -> Self {
        let config_data = ConfigData { width, height, depth: Self::full_depth(self.kind()), seed };
        match self {
            ComputePass::Direct { .. } => ComputePass::Direct { config_data },
            ComputePass::MegaKernel { .. } => ComputePass::MegaKernel {
                config_data,
                preview_next_frame: true,
            },
            ComputePass::Wavefront { .. } => ComputePass::Wavefront { config_data },
        }
    }

    /// The pass after it was told that the camera changed.
    pub open spec fn updated(self) -> Self {
        match self {
            ComputePass::MegaKernel { config_data, .. } => ComputePass::MegaKernel {
                config_data,
                preview_next_frame: true,
            },
            _ => self,
        }
    }

    /// The worst case of rays in flight in one stage: one per pixel for the
    /// wavefront backend. The other backends keep no rays.
    pub open spec fn queue_slots(self) -> int {
        match self {
            ComputePass::Wavefront { config_data } => config_data.width * config_data.height,
            _ => 0,
        }
    }

    /// Bounce limit of the next frame.
    pub open spec fn next_depth(self) -> u32 {
        if self.preview_pending() {
            PREVIEW_DEPTH
        } else {
            Self::full_depth(self.kind())
        }
    }

    /// The configuration block of the next frame, drawn with `seed`.
    pub open spec fn next_config(self, seed: u32) -> ConfigData {
        ConfigData {
            width: self.config().width,
            height: self.config().height,
            depth: self.next_depth(),
            seed,
        }
    }

    /// The dispatch of the next frame, drawn with `seed`, for a target in the
    /// state that `params` describes.
    pub open spec fn dispatch(self, seed: u32, params: FrameParams) -> Dispatch {
        let config = self.next_config(seed);
        let workgroups_x = tile_count(config.width, WORKGROUP_WIDTH) as u32;
        let workgroups_y = tile_count(config.height, WORKGROUP_HEIGHT) as u32;
        match self {
            ComputePass::Direct { .. } => Dispatch {
                config,
                workgroups_x,
                workgroups_y,
                clear_target: false,
                blend: Blend::Overwrite,
                sample_count: 0,
            },
            ComputePass::MegaKernel { .. } => Dispatch {
                config,
                workgroups_x,
                workgroups_y,
                clear_target: params.stale,
                blend: Blend::IncrementalMean,
                sample_count: if params.stale {
                    0
                } else {
                    params.sample_count
                },
            },
            ComputePass::Wavefront { .. } => Dispatch {
                config,
                workgroups_x,
                workgroups_y,
                clear_target: params.stale,
                blend: Blend::RunningSum,
                sample_count: if params.stale {
                    0
                } else {
                    params.sample_count
                },
            },
        }
    }

    /// The pass after the frame drawn with `seed` was dispatched: it
    /// remembers that frame's configuration, and a pending preview is spent.
    pub open spec fn rendered(self, seed: u32) -> Self {
        let config_data = self.next_config(seed);
        match self {
            ComputePass::Direct { .. } => ComputePass::Direct { config_data },
            ComputePass::MegaKernel { .. } => ComputePass::MegaKernel {
                config_data,
                preview_next_frame: false,
            },
            ComputePass::Wavefront { .. } => ComputePass::Wavefront { config_data },
        }
    }

    /// Creates the pass for a `width` x `height` target with a given seed.
    pub fn with_seed(kind: BackendKind, seed: u32, width: u32, height: u32) -> (pass: Self)
        ensures
            pass == Self::created(kind, seed, width, height),
    {
        match kind {
            BackendKind::Direct => ComputePass::Direct {
                config_data: ConfigData { width, height, depth: PREVIEW_DEPTH, seed },
            },
            BackendKind::MegaKernel => ComputePass::MegaKernel {
                config_data: ConfigData { width, height, depth: DEFAULT_DEPTH, seed },
                preview_next_frame: false,
            },
            BackendKind::Wavefront => ComputePass::Wavefront {
                config_data: ConfigData { width, height, depth: DEFAULT_DEPTH, seed },
            },
        }
    }

    /// Creates the pass for a `width` x `height` target with a random seed.
    pub fn new(kind: BackendKind, width: u32, height: u32) -> (pass: Self)
        ensures
            pass == Self::created(kind, pass.config().seed, width, height),
    {
        let seed = random_seed();
        Self::with_seed(kind, seed, width, height)
    }

    /// The configuration of the most recent dispatch, or of creation.
    pub fn config_data(&self) -> (config: ConfigData)
        ensures
            config == self.config(),
    {
        match self {
            ComputePass::Direct { config_data } => *config_data,
            ComputePass::MegaKernel { config_data, .. } => *config_data,
            ComputePass::Wavefront { config_data } => *config_data,
        }
    }

    /// Number of rays that each queue of the backend must hold for the
    /// current size: one per pixel for the wavefront backend, none for the
    /// others.
    pub fn ray_slots(&self) -> (slots: u64)
        ensures
            slots == self.queue_slots(),
    {
        match self {
            ComputePass::Wavefront { config_data } => {
                assert(config_data.width * config_data.height <= 0xffff_ffff * 0xffff_ffff)
                    by (nonlinear_arith)
                    requires
                        config_data.width <= 0xffff_ffff,
                        config_data.height <= 0xffff_ffff,
                ;
                config_data.width as u64 * config_data.height as u64
            },
            _ => 0,
        }
    }

    /// Plans the dispatch of one frame with a given seed.
    pub fn render_with_seed(&mut self, seed: u32, params: FrameParams) -> (dispatch: Dispatch)
        ensures
            dispatch == old(self).dispatch(seed, params),
            *final(self) == old(self).rendered(seed),
    {
        let last = self.config_data();
        let workgroups_x = tiles(last.width, WORKGROUP_WIDTH);
        let workgroups_y = tiles(last.height, WORKGROUP_HEIGHT);
        match self {
            ComputePass::Direct { config_data } => {
                let config = ConfigData {
                    width: last.width,
                    height: last.height,
                    depth: PREVIEW_DEPTH,
                    seed,
                };
                *config_data = config;
                Dispatch {
                    config,
                    workgroups_x,
                    workgroups_y,
                    clear_target: false,
                    blend: Blend::Overwrite,
                    sample_count: 0,
                }
            },
            ComputePass::MegaKernel { config_data, preview_next_frame } => {
                let depth = if *preview_next_frame {
                    PREVIEW_DEPTH
                } else {
                    DEFAULT_DEPTH
                };
                let config = ConfigData { width: last.width, height: last.height, depth, seed };
                *config_data = config;
                *preview_next_frame = false;
                Dispatch {
                    config,
                    workgroups_x,
                    workgroups_y,
                    clear_target: params.stale,
                    blend: Blend::IncrementalMean,
                    sample_count: if params.stale {
                        0
                    } else {
                        params.sample_count
                    },
                }
            },
            ComputePass::Wavefront { config_data } => {
                let config = ConfigData {
                    width: last.width,
                    height: last.height,
                    depth: DEFAULT_DEPTH,
                    seed,
                };
                *config_data = config;
                Dispatch {
                    config,
                    workgroups_x,
                    workgroups_y,
                    clear_target: params.stale,
                    blend: Blend::RunningSum,
                    sample_count: if params.stale {
                        0
                    } else {
                        params.sample_count
                    },
                }
            },
        }
    }

    /// Plans the dispatch of one frame with a random seed.
    pub fn render(&mut self, params: FrameParams) -> (dispatch: Dispatch)
        ensures
            dispatch == old(self).dispatch(dispatch.config.seed, params),
            *final(self) == old(self).rendered(dispatch.config.seed),
    {
        let seed = random_seed();
        self.render_with_seed(seed, params)
    }

    /// Adopts the size of a reallocated target, with a given seed.
    pub fn resize_with_seed(&mut self, seed: u32, width: u32, height: u32)
        ensures
            *final(self) == old(self).resized(seed, width, height),
    {
        match self {
            ComputePass::Direct { config_data } => {
                *config_data = ConfigData { width, height, depth: PREVIEW_DEPTH, seed };
            },
            ComputePass::MegaKernel { config_data, preview_next_frame } => {
                *config_data = ConfigData { width, height, depth: DEFAULT_DEPTH, seed };
                *preview_next_frame = true;
            },
            ComputePass::Wavefront { config_data } => {
                *config_data = ConfigData { width, height, depth: DEFAULT_DEPTH, seed };
            },
        }
    }

    /// Adopts the size of a reallocated target, with a random seed.
    pub fn resize(&mut self, width: u32, height: u32)
        ensures
            *final(self) == old(self).resized(final(self).config().seed, width, height),
    {
        let seed = random_seed();
        self.resize_with_seed(seed, width, height)
    }

    /// Records that the camera changed since the last dispatch.
    pub fn update(&mut self)
        ensures
            *final(self) == old(self).updated(),
    {
        match self {
            ComputePass::MegaKernel { preview_next_frame, .. } => {
                *preview_next_frame = true;
            },
            _ => {},
        }
    }
}

/// The direct backend keeps nothing across frames: its dispatch does not
/// depend on the state of the accumulation target, and always overwrites.
pub proof fn lemma_direct_ignores_accumulation(
    pass: ComputePass,
    seed: u32,
    one: FrameParams,
    other: FrameParams,
)
    requires
        pass.kind() == BackendKind::Direct,
    ensures
        pass.dispatch(seed, one) == pass.dispatch(seed, other),
        pass.dispatch(seed, one).blend == Blend::Overwrite,
        !pass.dispatch(seed, one).clear_target,
{
}

/// The preview of the mega-kernel backend: the first frame after a camera
/// change or a resize is traced to depth 1, and the frame after it to the
/// full depth again.
pub proof fn lemma_preview_lasts_one_frame(
    pass: ComputePass,
    seed: u32,
    width: u32,
    height: u32,
    params: FrameParams,
)
    requires
        pass.kind() == BackendKind::MegaKernel,
    ensures
        pass.updated().dispatch(seed, params).config.depth == PREVIEW_DEPTH,
        pass.resized(seed, width, height).dispatch(seed, params).config.depth == PREVIEW_DEPTH,
        pass.rendered(seed).dispatch(seed, params).config.depth == DEFAULT_DEPTH,
{
}

/// A stale target never leaks into a frame: the direct backend overwrites
/// it, the other two have it cleared and count no samples in it.
pub proof fn lemma_stale_target_is_discarded(pass: ComputePass, seed: u32, params: FrameParams)
    requires
        params.stale,
    ensures
        pass.dispatch(seed, params).blend == Blend::Overwrite || pass.dispatch(
            seed,
            params,
        ).clear_target,
        pass.dispatch(seed, params).sample_count == 0,
{
}

/// The grid of a dispatch covers the whole target, also where its size is no
/// multiple of the workgroup size, and has no workgroup without a pixel.
pub proof fn lemma_grid_covers_target(pass: ComputePass, seed: u32, params: FrameParams)
    ensures
        ({
            let dispatch = pass.dispatch(seed, params);
            let width = pass.config().width;
            let height = pass.config().height;
            &&& dispatch.config.width == width
            &&& dispatch.config.height == height
            &&& dispatch.workgroups_x * WORKGROUP_WIDTH >= width
            &&& dispatch.workgroups_y * WORKGROUP_HEIGHT >= height
            &&& width > 0 ==> (dispatch.workgroups_x - 1) * WORKGROUP_WIDTH < width
            &&& height > 0 ==> (dispatch.workgroups_y - 1) * WORKGROUP_HEIGHT < height
        }),
{
    lemma_tiles_cover(pass.config().width, WORKGROUP_WIDTH);
    lemma_tiles_cover(pass.config().height, WORKGROUP_HEIGHT);
}

} // verus!
