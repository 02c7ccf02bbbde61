//! The GPU buffers of the lattice Boltzmann solver: their sizes, and which of them
//! each compute and render stage binds.
use vstd::prelude::*;
use crate::render_mode::Rendermode;

verus! {

/// Number of discrete velocities per cell (D2Q9 lattice).
pub const NUM_DIRECTIONS: u32 = 9;
/// Bytes per `f32` or `u32` element.
pub const ELEMENT_BYTES: u32 = 4;
/// Bytes per tracer: current and previous position, two `f32` each.
pub const TRACER_BYTES: u64 = 16;

/// The buffers that the solver's stages share.
#[derive(PartialEq, Eq, Structural, Clone, Copy, Debug)]
pub enum LbmBuffer {
    Uniforms,
    /// Distributions read in a step.
    Fa,
    /// Distributions written in a step.
    Fb,
    /// Cell kind (fluid, wall, obstacle) per cell.
    Types,
    Density,
    Velocity,
    /// Obstacle mask.
    Object,
    Tracers,
}

/// The compute and render stages of the solver.
#[derive(PartialEq, Eq, Structural, Clone, Copy, Debug)]
pub enum LbmStage {
    ComputeInit,
    ComputeMacros,
    ComputeStep,
    ComputeTracers,
    RenderDensity,
    RenderSpeed,
    RenderXVelocity,
    RenderYVelocity,
    RenderCurl,
    RenderTracers,
    RenderFlowStreams,
}

/// The buffers of a stage's second bind group, in binding order (binding `i` is
/// element `i`). Every stage's first bind group holds the uniforms alone.
pub open spec fn stage_storage_bindings(stage: LbmStage) -> Seq<LbmBuffer> {
    match stage {
        LbmStage::ComputeInit => seq![
            LbmBuffer::Fa,
            LbmBuffer::Fb,
            LbmBuffer::Types,
            LbmBuffer::Density,
            LbmBuffer::Velocity,
            LbmBuffer::Object,
            LbmBuffer::Tracers,
        ],
        LbmStage::ComputeMacros => seq![LbmBuffer::Fa, LbmBuffer::Density, LbmBuffer::Velocity],
        LbmStage::ComputeStep => seq![LbmBuffer::Fa, LbmBuffer::Fb, LbmBuffer::Types],
        LbmStage::ComputeTracers => seq![LbmBuffer::Velocity, LbmBuffer::Tracers],
        LbmStage::RenderDensity => seq![LbmBuffer::Density, LbmBuffer::Types],
        LbmStage::RenderSpeed => seq![LbmBuffer::Velocity, LbmBuffer::Types],
        LbmStage::RenderXVelocity => seq![LbmBuffer::Velocity, LbmBuffer::Types],
        LbmStage::RenderYVelocity => seq![LbmBuffer::Velocity, LbmBuffer::Types],
        LbmStage::RenderCurl => seq![LbmBuffer::Velocity, LbmBuffer::Types],
        LbmStage::RenderTracers => seq![LbmBuffer::Tracers],
        LbmStage::RenderFlowStreams => seq![LbmBuffer::Velocity],
    }
}

/// The buffers of `stage`'s second bind group, in binding order.
pub fn storage_bindings(stage: LbmStage) -> (buffers: Vec<LbmBuffer>)
    ensures
        buffers@ == stage_storage_bindings(stage),
{
    let buffers = match stage {
        LbmStage::ComputeInit => vec![
            LbmBuffer::Fa,
            LbmBuffer::Fb,
            LbmBuffer::Types,
            LbmBuffer::Density,
            LbmBuffer::Velocity,
            LbmBuffer::Object,
            LbmBuffer::Tracers,
        ],
        LbmStage::ComputeMacros => vec![LbmBuffer::Fa, LbmBuffer::Density, LbmBuffer::Velocity],
        LbmStage::ComputeStep => vec![LbmBuffer::Fa, LbmBuffer::Fb, LbmBuffer::Types],
        LbmStage::ComputeTracers => vec![LbmBuffer::Velocity, LbmBuffer::Tracers],
        LbmStage::RenderDensity => vec![LbmBuffer::Density, LbmBuffer::Types],
        LbmStage::RenderSpeed => vec![LbmBuffer::Velocity, LbmBuffer::Types],
        LbmStage::RenderXVelocity => vec![LbmBuffer::Velocity, LbmBuffer::Types],
        LbmStage::RenderYVelocity => vec![LbmBuffer::Velocity, LbmBuffer::Types],
        LbmStage::RenderCurl => vec![LbmBuffer::Velocity, LbmBuffer::Types],
        LbmStage::RenderTracers => vec![LbmBuffer::Tracers],
        LbmStage::RenderFlowStreams => vec![LbmBuffer::Velocity],
    };
    assert(buffers@ =~= stage_storage_bindings(stage));
    buffers
}

/// The field that a render stage draws, for the stages that draw a field.
pub open spec fn drawn_field(stage: LbmStage) -> Option<Rendermode> {
    match stage {
        LbmStage::RenderDensity => Some(Rendermode::Density),
        LbmStage::RenderSpeed => Some(Rendermode::Speed),
        LbmStage::RenderXVelocity => Some(Rendermode::XVelocity),
        LbmStage::RenderYVelocity => Some(Rendermode::YVelocity),
        LbmStage::RenderCurl => Some(Rendermode::Curl),
        _ => None,
    }
}

/// The buffer a field is derived from: density for the density view, the
/// velocity for every other view.
pub open spec fn field_source(mode: Rendermode) -> LbmBuffer {
    match mode {
        Rendermode::Density => LbmBuffer::Density,
        _ => LbmBuffer::Velocity,
    }
}

/// Whether a stage is a compute stage.
pub open spec fn is_compute(stage: LbmStage) -> bool {
    matches!(stage, LbmStage::ComputeInit | LbmStage::ComputeMacros | LbmStage::ComputeStep | LbmStage::ComputeTracers)
}

/// The position of a buffer in the solver's list of buffers (uniforms, the two
/// distributions, types, density, velocity, object, tracers).
pub open spec fn buffer_rank(buffer: LbmBuffer) -> int {
    match buffer {
        LbmBuffer::Uniforms => 0,
        LbmBuffer::Fa => 1,
        LbmBuffer::Fb => 2,
        LbmBuffer::Types => 3,
        LbmBuffer::Density => 4,
        LbmBuffer::Velocity => 5,
        LbmBuffer::Object => 6,
        LbmBuffer::Tracers => 7,
    }
}

/// A compute stage binds its buffers in the order of the solver's list of
/// buffers: a buffer listed earlier gets a lower binding.
pub proof fn lemma_compute_bindings_ordered(stage: LbmStage, i: int, j: int)
    requires
        is_compute(stage),
        0 <= i < j < stage_storage_bindings(stage).len(),
    ensures
        buffer_rank(stage_storage_bindings(stage)[i]) < buffer_rank(stage_storage_bindings(stage)[j]),
{
}

/// The macroscopic stage reads the distributions at binding 0 and writes the
/// density at binding 1 and the velocity at binding 2.
pub proof fn lemma_macros_bindings(stage: LbmStage)
    requires
        stage == LbmStage::ComputeMacros,
    ensures
        stage_storage_bindings(stage).len() == 3,
        stage_storage_bindings(stage).contains(LbmBuffer::Fa),
        stage_storage_bindings(stage).contains(LbmBuffer::Density),
        stage_storage_bindings(stage).contains(LbmBuffer::Velocity),
        forall|i: int, j: int|
            0 <= i < j < 3 ==> buffer_rank(#[trigger] stage_storage_bindings(stage)[i]) < buffer_rank(
                #[trigger] stage_storage_bindings(stage)[j],
            ),
{
    let s = stage_storage_bindings(stage);
    assert(s[0] == LbmBuffer::Fa);
    assert(s[1] == LbmBuffer::Density);
    assert(s[2] == LbmBuffer::Velocity);
}

/// A stage that draws a field binds the buffer the field is derived from, then
/// the cell types, and nothing else.
pub proof fn lemma_field_stage_bindings(stage: LbmStage)
    requires
        drawn_field(stage) is Some,
    ensures
        stage_storage_bindings(stage) == seq![field_source(drawn_field(stage)->0), LbmBuffer::Types],
{
    assert(stage_storage_bindings(stage) =~= seq![field_source(drawn_field(stage)->0), LbmBuffer::Types]);
}

/// What each stage needs bound: initialisation fills every storage buffer; the
/// step reads and writes the two distributions and reads the cell types; the
/// tracer stages bind the tracers, and moving them and drawing stream lines read
/// the velocity; the particle and stream-line views bind one buffer only.
pub proof fn lemma_stage_buffers(stage: LbmStage, b: LbmBuffer)
    ensures
        stage == LbmStage::ComputeInit ==> (stage_storage_bindings(stage).contains(b) <==> b != LbmBuffer::Uniforms),
        stage == LbmStage::ComputeStep ==> (stage_storage_bindings(stage).contains(b) <==> (b == LbmBuffer::Fa
            || b == LbmBuffer::Fb || b == LbmBuffer::Types)),
        stage == LbmStage::ComputeTracers ==> (stage_storage_bindings(stage).contains(b) <==> (b
            == LbmBuffer::Velocity || b == LbmBuffer::Tracers)),
        stage == LbmStage::RenderTracers ==> stage_storage_bindings(stage) == seq![LbmBuffer::Tracers],
        stage == LbmStage::RenderFlowStreams ==> stage_storage_bindings(stage) == seq![LbmBuffer::Velocity],
{
    let s = stage_storage_bindings(stage);
    if stage == LbmStage::ComputeInit {
        if b != LbmBuffer::Uniforms {
            assert(s[buffer_rank(b) - 1] == b);
        }
    }
    if stage == LbmStage::ComputeStep {
        if b == LbmBuffer::Fa { assert(s[0] == b); }
        if b == LbmBuffer::Fb { assert(s[1] == b); }
        if b == LbmBuffer::Types { assert(s[2] == b); }
    }
    if stage == LbmStage::ComputeTracers {
        if b == LbmBuffer::Velocity { assert(s[0] == b); }
        if b == LbmBuffer::Tracers { assert(s[1] == b); }
    }
    assert(stage == LbmStage::RenderTracers ==> s =~= seq![LbmBuffer::Tracers]);
    assert(stage == LbmStage::RenderFlowStreams ==> s =~= seq![LbmBuffer::Velocity]);
}

/// No stage binds a buffer twice, nor binds the uniforms in its second group.
pub proof fn lemma_bindings_distinct(stage: LbmStage)
    ensures
        stage_storage_bindings(stage).no_duplicates(),
        !stage_storage_bindings(stage).contains(LbmBuffer::Uniforms),
{
    let s = stage_storage_bindings(stage);
    assert forall|i: int, j: int| 0 <= i < s.len() && 0 <= j < s.len() && i != j implies s[i] != s[j] by {
    }
    assert forall|i: int| 0 <= i < s.len() implies s[i] != LbmBuffer::Uniforms by {
    }
}

/// The sizes, in bytes, of the solver's storage buffers for a grid.
#[derive(PartialEq, Eq, Structural, Clone, Copy, Debug)]
pub struct LbmBufferSizes {
    /// Each of the two distribution buffers: nine `f32` per cell.
    pub distributions: u64,
    /// One `u32` per cell.
    pub types: u64,
    /// One `f32` per cell.
    pub density: u64,
    /// Two `f32` per cell.
    pub velocity: u64,
    /// Sixteen bytes per tracer.
    pub tracers: u64,
}

/// The buffer sizes can be computed: the largest, the distributions, fits in a `u32`
/// byte count, and the tracers' in a `u64`.
pub open spec fn buffer_sizes_fit(w: int, h: int, num_tracers: int) -> bool {
    &&& w * h * (NUM_DIRECTIONS * ELEMENT_BYTES) <= u32::MAX
    &&& num_tracers * TRACER_BYTES <= u64::MAX
}

/// The sizes of the storage buffers for a `w` by `h` grid and `num_tracers` tracers.
pub fn lbm_buffer_sizes(w: u32, h: u32, num_tracers: u64) -> (sizes: LbmBufferSizes)
    requires
        buffer_sizes_fit(w as int, h as int, num_tracers as int),
    ensures
        sizes.distributions == w * h * 36,
        sizes.types == w * h * 4,
        sizes.density == w * h * 4,
        sizes.velocity == w * h * 8,
        sizes.tracers == num_tracers * 16,
{
    proof {
        assert(w * h <= u32::MAX) by (nonlinear_arith)
            requires
                w * h * 36 <= u32::MAX,
                0 <= w,
                0 <= h,
        ;
    }
    let num_cells: u32 = w * h;
    let len_f: u32 = num_cells * NUM_DIRECTIONS;
    LbmBufferSizes {
        distributions: (len_f * ELEMENT_BYTES) as u64,
        types: (num_cells * ELEMENT_BYTES) as u64,
        density: (num_cells * ELEMENT_BYTES) as u64,
        velocity: (num_cells * 8) as u64,
        tracers: num_tracers * TRACER_BYTES,
    }
}

} // verus!
