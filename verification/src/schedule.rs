//! What one frame asks of the GPU: how many simulation steps, and the commands
//! that carry them out.
use vstd::prelude::*;
use crate::buffers::{drawn_field, LbmStage};
use crate::render_mode::Rendermode;
use crate::state::{flow_stream_count_of, AppState, SimView, Workgroups};

verus! {

/// Most simulation steps run in one frame.
pub const MAX_STEPS_PER_FRAME: u32 = 8;

/// A unit of GPU work in a frame, in the order it is recorded.
#[derive(PartialEq, Eq, Structural, Clone, Copy, Debug)]
pub enum SimCommand {
    /// Write the uniforms, with the first-step flag set as given.
    UploadUniforms { is_first_step: u32 },
    /// Stream and collide the distributions over the grid.
    Step { wg_x: u32, wg_y: u32 },
    /// Advect the tracer particles.
    MoveTracers { wg: u32 },
    /// Recompute density and velocity from the distributions.
    ComputeMacros { wg_x: u32, wg_y: u32 },
}

/// The steps a frame runs, and whether the time owed beyond them is dropped.
#[derive(PartialEq, Eq, Structural, Clone, Copy, Debug)]
pub struct StepBudget {
    pub steps: u32,
    pub drop_backlog: bool,
}

/// Caps the steps that the elapsed time asks for at `MAX_STEPS_PER_FRAME`; when
/// the cap bites, the backlog of time is dropped instead of carried over.
pub fn cap_steps(steps: u32) -> (budget: StepBudget)
    ensures
        budget.steps == (if steps > MAX_STEPS_PER_FRAME { MAX_STEPS_PER_FRAME } else { steps }),
        budget.drop_backlog == (steps > MAX_STEPS_PER_FRAME),
{
    if steps > MAX_STEPS_PER_FRAME {
        StepBudget { steps: MAX_STEPS_PER_FRAME, drop_backlog: true }
    } else {
        StepBudget { steps, drop_backlog: false }
    }
}

/// The commands of step `i` of a frame: upload the uniforms (flagged as the first
/// step only for `i == 0`), step, move the tracers if they are shown, and
/// recompute the macroscopic fields.
pub open spec fn step_commands(i: int, wg_x: u32, wg_y: u32, wg_tracers: u32, tracers_active: bool) -> Seq<SimCommand> {
    seq![SimCommand::UploadUniforms { is_first_step: if i == 0 { 1u32 } else { 0u32 } }, SimCommand::Step { wg_x, wg_y }]
        + (if tracers_active { seq![SimCommand::MoveTracers { wg: wg_tracers }] } else { Seq::empty() })
        + seq![SimCommand::ComputeMacros { wg_x, wg_y }]
}

/// The commands of a frame of `n` steps, step after step.
pub open spec fn frame_plan(n: nat, wg_x: u32, wg_y: u32, wg_tracers: u32, tracers_active: bool) -> Seq<SimCommand>
    decreases n,
{
    if n == 0 {
        Seq::empty()
    } else {
        frame_plan((n - 1) as nat, wg_x, wg_y, wg_tracers, tracers_active)
            + step_commands(n - 1, wg_x, wg_y, wg_tracers, tracers_active)
    }
}

/// Number of commands in one step.
pub open spec fn commands_per_step(tracers_active: bool) -> int {
    if tracers_active { 4 } else { 3 }
}

/// Lists the commands of a frame of `steps` simulation steps over the given
/// workgroups.
pub fn plan_frame(steps: u32, wg: &Workgroups, tracers_active: bool) -> (plan: Vec<SimCommand>)
    ensures
        plan@ == frame_plan(steps as nat, wg.x, wg.y, wg.tracers, tracers_active),
{
    let mut plan: Vec<SimCommand> = Vec::new();
    let mut i: u32 = 0;
    while i < steps
        invariant
            i <= steps,
            plan@ == frame_plan(i as nat, wg.x, wg.y, wg.tracers, tracers_active),
        decreases steps - i,
    {
        let ghost before = plan@;
        let is_first_step: u32 = if i == 0 { 1 } else { 0 };
        plan.push(SimCommand::UploadUniforms { is_first_step });
        plan.push(SimCommand::Step { wg_x: wg.x, wg_y: wg.y });
        if tracers_active {
            plan.push(SimCommand::MoveTracers { wg: wg.tracers });
        }
        plan.push(SimCommand::ComputeMacros { wg_x: wg.x, wg_y: wg.y });
        assert(plan@ =~= before + step_commands(i as int, wg.x, wg.y, wg.tracers, tracers_active));
        i = i + 1;
    }
    plan
}

/// A frame of `n` steps has `n` times the commands of one step.
pub proof fn lemma_frame_plan_len(n: nat, wg_x: u32, wg_y: u32, wg_tracers: u32, tracers_active: bool)
    ensures
        frame_plan(n, wg_x, wg_y, wg_tracers, tracers_active).len() == n * commands_per_step(tracers_active),
    decreases n,
{
    if n > 0 {
        lemma_frame_plan_len((n - 1) as nat, wg_x, wg_y, wg_tracers, tracers_active);
        assert(n * commands_per_step(tracers_active) == (n - 1) * commands_per_step(tracers_active)
            + commands_per_step(tracers_active)) by (nonlinear_arith);
    }
}

/// Step `k` of a frame of `n` steps occupies the `commands_per_step` commands from
/// `k * commands_per_step`: first the uniforms upload (flagged as first step only
/// for `k == 0`), right after it the stream-and-collide step, then the tracers
/// when they are shown, and last the recomputation of the macroscopic fields.
pub proof fn lemma_frame_plan_step_order(
    n: nat,
    k: int,
    wg_x: u32,
    wg_y: u32,
    wg_tracers: u32,
    tracers_active: bool,
)
    requires
        0 <= k < n,
    ensures
        ({
            let plan = frame_plan(n, wg_x, wg_y, wg_tracers, tracers_active);
            let c = commands_per_step(tracers_active);
            &&& plan.len() == n * c
            &&& plan[k * c] == SimCommand::UploadUniforms { is_first_step: if k == 0 { 1u32 } else { 0u32 } }
            &&& plan[k * c + 1] == SimCommand::Step { wg_x, wg_y }
            &&& tracers_active ==> plan[k * c + 2] == SimCommand::MoveTracers { wg: wg_tracers }
            &&& plan[(k + 1) * c - 1] == SimCommand::ComputeMacros { wg_x, wg_y }
        }),
    decreases n,
{
    lemma_frame_plan_len(n, wg_x, wg_y, wg_tracers, tracers_active);
    let prev = frame_plan((n - 1) as nat, wg_x, wg_y, wg_tracers, tracers_active);
    let cur = step_commands(n - 1, wg_x, wg_y, wg_tracers, tracers_active);
    let plan = frame_plan(n, wg_x, wg_y, wg_tracers, tracers_active);
    assert(plan == prev + cur);
    lemma_frame_plan_len((n - 1) as nat, wg_x, wg_y, wg_tracers, tracers_active);
    if k < n - 1 {
        lemma_frame_plan_step_order((n - 1) as nat, k, wg_x, wg_y, wg_tracers, tracers_active);
        if tracers_active {
            assert(prev.len() == (n - 1) * 4);
            assert((k + 1) * 4 <= (n - 1) * 4);
        } else {
            assert(prev.len() == (n - 1) * 3);
            assert((k + 1) * 3 <= (n - 1) * 3);
        }
    } else {
        if tracers_active {
            assert(prev.len() == k * 4);
            assert(plan[k * 4] == cur[0]);
            assert(plan[k * 4 + 1] == cur[1]);
            assert(plan[k * 4 + 2] == cur[2]);
            assert(plan[(k + 1) * 4 - 1] == cur[3]);
        } else {
            assert(prev.len() == k * 3);
            assert(plan[k * 3] == cur[0]);
            assert(plan[k * 3 + 1] == cur[1]);
            assert(plan[(k + 1) * 3 - 1] == cur[2]);
        }
    }
}

/// In a frame, the uniforms are flagged as the first step exactly once: in the
/// frame's first command, which is an upload whenever the frame has a step.
pub proof fn lemma_frame_plan_first_step(n: nat, wg_x: u32, wg_y: u32, wg_tracers: u32, tracers_active: bool)
    ensures
        n > 0 ==> frame_plan(n, wg_x, wg_y, wg_tracers, tracers_active)[0]
            == (SimCommand::UploadUniforms { is_first_step: 1 }),
        forall|k: int|
            0 <= k < frame_plan(n, wg_x, wg_y, wg_tracers, tracers_active).len()
                ==> (#[trigger] frame_plan(n, wg_x, wg_y, wg_tracers, tracers_active)[k] matches SimCommand::UploadUniforms { is_first_step }
                ==> is_first_step == (if k == 0 { 1u32 } else { 0u32 })),
    decreases n,
{
    if n > 0 {
        let prev = frame_plan((n - 1) as nat, wg_x, wg_y, wg_tracers, tracers_active);
        let cur = step_commands(n - 1, wg_x, wg_y, wg_tracers, tracers_active);
        lemma_frame_plan_first_step((n - 1) as nat, wg_x, wg_y, wg_tracers, tracers_active);
        let plan = frame_plan(n, wg_x, wg_y, wg_tracers, tracers_active);
        assert(plan == prev + cur);
        assert forall|k: int| 0 <= k < plan.len() implies (#[trigger] plan[k] matches SimCommand::UploadUniforms { is_first_step }
            ==> is_first_step == (if k == 0 { 1u32 } else { 0u32 })) by {
            if k < prev.len() {
                assert(plan[k] == prev[k]);
            } else {
                assert(plan[k] == cur[k - prev.len()]);
                if n - 1 > 0 {
                    lemma_frame_plan_len((n - 1) as nat, wg_x, wg_y, wg_tracers, tracers_active);
                    assert((n - 1) * commands_per_step(tracers_active) > 0) by (nonlinear_arith)
                        requires
                            n - 1 > 0,
                            commands_per_step(tracers_active) > 0,
                    ;
                }
            }
        }
        if n == 1 {
            assert(prev.len() == 0);
            assert(plan[0] == cur[0]);
        } else {
            lemma_frame_plan_len((n - 1) as nat, wg_x, wg_y, wg_tracers, tracers_active);
            assert((n - 1) * commands_per_step(tracers_active) > 0) by (nonlinear_arith)
                requires
                    n - 1 > 0,
                    commands_per_step(tracers_active) > 0,
            ;
            assert(plan[0] == prev[0]);
        }
    }
}

/// A render stage to draw, with the number of instances it draws.
#[derive(PartialEq, Eq, Structural, Clone, Copy, Debug)]
pub struct RenderPass {
    pub stage: LbmStage,
    pub instances: u32,
}

/// The render stage that draws a field.
pub open spec fn field_stage(mode: Rendermode) -> LbmStage {
    match mode {
        Rendermode::Density => LbmStage::RenderDensity,
        Rendermode::Speed => LbmStage::RenderSpeed,
        Rendermode::XVelocity => LbmStage::RenderXVelocity,
        Rendermode::YVelocity => LbmStage::RenderYVelocity,
        Rendermode::Curl => LbmStage::RenderCurl,
    }
}

/// What a frame draws: the chosen field, then the flow stream lines if they are
/// on, then the tracers if they are on.
pub open spec fn render_plan_of(v: SimView) -> Seq<RenderPass> {
    seq![RenderPass { stage: field_stage(v.render_mode), instances: 1 }]
        + (if v.flow_lines_active {
            seq![RenderPass { stage: LbmStage::RenderFlowStreams, instances: flow_stream_count_of(v) as u32 }]
        } else {
            Seq::empty()
        })
        + (if v.tracers_active {
            seq![RenderPass { stage: LbmStage::RenderTracers, instances: v.num_tracers }]
        } else {
            Seq::empty()
        })
}

/// Lists the render passes of a frame for the state.
pub fn plan_render(state: &AppState) -> (passes: Vec<RenderPass>)
    ensures
        passes@ == render_plan_of(state@),
{
    let field = match state.render_mode() {
        Rendermode::Density => LbmStage::RenderDensity,
        Rendermode::Speed => LbmStage::RenderSpeed,
        Rendermode::XVelocity => LbmStage::RenderXVelocity,
        Rendermode::YVelocity => LbmStage::RenderYVelocity,
        Rendermode::Curl => LbmStage::RenderCurl,
    };
    let mut passes: Vec<RenderPass> = Vec::new();
    passes.push(RenderPass { stage: field, instances: 1 });
    if state.flow_lines_active() {
        passes.push(RenderPass { stage: LbmStage::RenderFlowStreams, instances: state.flow_stream_count() });
    }
    if state.tracers_active() {
        passes.push(RenderPass { stage: LbmStage::RenderTracers, instances: state.num_tracers() });
    }
    assert(passes@ =~= render_plan_of(state@));
    passes
}

/// The stage chosen for a mode draws that mode's field; so distinct modes are
/// drawn by distinct stages.
pub proof fn lemma_field_stage_draws_mode(m1: Rendermode, m2: Rendermode)
    ensures
        drawn_field(field_stage(m1)) == Some(m1),
        field_stage(m1) == field_stage(m2) ==> m1 == m2,
{
}

/// A frame first draws the field of the chosen mode with one instance; then, if
/// flow lines are on, the flow streams with one instance per stream line; then,
/// if tracers are on, one instance per tracer; and nothing else.
pub proof fn lemma_render_plan_shape(v: SimView)
    ensures
        ({
            let p = render_plan_of(v);
            let f: int = if v.flow_lines_active { 1 } else { 0 };
            let t: int = if v.tracers_active { 1 } else { 0 };
            &&& p.len() == 1 + f + t
            &&& drawn_field(p[0].stage) == Some(v.render_mode)
            &&& p[0].instances == 1
            &&& v.flow_lines_active ==> p[1] == (RenderPass {
                stage: LbmStage::RenderFlowStreams,
                instances: flow_stream_count_of(v) as u32,
            })
            &&& v.tracers_active ==> p[1 + f] == (RenderPass { stage: LbmStage::RenderTracers, instances: v.num_tracers })
        }),
{
    lemma_field_stage_draws_mode(v.render_mode, v.render_mode);
}

} // verus!
