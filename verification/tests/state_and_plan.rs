use rust_fluid::buffers::{lbm_buffer_sizes, storage_bindings, LbmBuffer, LbmStage};
use rust_fluid::render_mode::Rendermode;
use rust_fluid::schedule::{cap_steps, plan_frame, plan_render, RenderPass, SimCommand, StepBudget};
use rust_fluid::state::AppState;

#[test]
fn new_state_matches_start_up_settings() {
    let s = AppState::new(1920, 1080);
    assert_eq!((s.width(), s.height()), (960, 540));
    assert_eq!((s.window_width(), s.window_height()), (1920, 1080));
    assert_eq!((s.obj_width(), s.obj_height()), (80, 80));
    assert_eq!((s.obj_x(), s.obj_y()), (240, 230));
    assert_eq!(s.num_tracers(), 600);
    assert!(s.paused());
    assert_eq!(s.render_mode(), Rendermode::Curl);
    assert!(!s.tracers_active());
    assert!(!s.flow_lines_active());
}

#[test]
fn reset_unpauses() {
    let mut s = AppState::new(800, 600);
    s.reset();
    assert!(!s.paused());
    assert_eq!((s.width(), s.height()), (960, 540));
}

#[test]
fn resize_simulation_clamps_to_bounds() {
    let mut s = AppState::new(800, 600);
    s.resize_simulation(10, 10);
    assert_eq!((s.width(), s.height()), (64, 64));
    assert_eq!((s.obj_width(), s.obj_height()), (64, 64));
    s.resize_simulation(5000, 5000);
    assert_eq!((s.width(), s.height()), (1600, 1200));
    assert_eq!((s.obj_width(), s.obj_height()), (64, 64));
    s.resize_simulation(1000, 700);
    assert_eq!((s.width(), s.height()), (1000, 700));
    // the obstacle's position is kept
    assert_eq!((s.obj_x(), s.obj_y()), (240, 230));
}

#[test]
fn resize_simulation_twice_is_resize_once() {
    let mut a = AppState::new(800, 600);
    a.resize_simulation(70, 3000);
    let once = (a.width(), a.height(), a.obj_width(), a.obj_height());
    a.resize_simulation(70, 3000);
    assert_eq!(once, (a.width(), a.height(), a.obj_width(), a.obj_height()));
    assert_eq!(once, (70, 1200, 70, 80));
}

#[test]
fn update_object_size_leaves_valid_state_alone() {
    let mut s = AppState::new(800, 600);
    s.update_object_size();
    assert_eq!((s.obj_width(), s.obj_height()), (80, 80));
}

#[test]
fn set_object_extent_clamps() {
    let mut s = AppState::new(800, 600);
    s.set_object_extent(2, 10_000);
    assert_eq!((s.obj_width(), s.obj_height()), (8, 540));
    s.set_object_extent(100, 120);
    assert_eq!((s.obj_width(), s.obj_height()), (100, 120));
}

#[test]
fn scale_object_extent_clamps_signed_sides() {
    let mut s = AppState::new(800, 600);
    s.scale_object_extent(-5, 2000);
    assert_eq!((s.obj_width(), s.obj_height()), (960, 8));
    s.scale_object_extent(50, 40);
    assert_eq!((s.obj_width(), s.obj_height()), (40, 50));
}

#[test]
fn window_resize_ignores_zero_sides() {
    let mut s = AppState::new(800, 600);
    assert!(!s.resize(0, 500));
    assert!(!s.resize(500, 0));
    assert_eq!((s.window_width(), s.window_height()), (800, 600));
    assert!(s.resize(1024, 768));
    assert_eq!((s.window_width(), s.window_height()), (1024, 768));
    assert_eq!((s.width(), s.height()), (960, 540));
}

#[test]
fn setters_and_toggles() {
    let mut s = AppState::new(800, 600);
    s.set_object_position(12, 34);
    assert_eq!((s.obj_x(), s.obj_y()), (12, 34));
    s.set_render_mode(Rendermode::Speed);
    assert_eq!(s.render_mode(), Rendermode::Speed);
    s.set_tracers_active(true);
    assert!(s.tracers_active());
    s.set_flow_lines_active(true);
    assert!(s.flow_lines_active());
    s.toggle_paused();
    assert!(!s.paused());
    s.toggle_paused();
    assert!(s.paused());
}

#[test]
fn grid_uniforms_follow_state() {
    let mut s = AppState::new(800, 600);
    s.resize_simulation(100, 90);
    let u = s.grid_uniforms();
    assert_eq!((u.w, u.h, u.w_object, u.h_object), (100, 90, 80, 80));
    assert_eq!((u.obj_x, u.obj_y, u.is_first_step), (240, 230, 1));
}

#[test]
fn workgroups_cover_grid() {
    let s = AppState::new(800, 600);
    let wg = s.workgroups();
    assert_eq!((wg.x, wg.y, wg.tracers), (120, 68, 10));
    assert!(wg.x * 8 >= s.width() && (wg.x - 1) * 8 < s.width());
    assert!(wg.y * 8 >= s.height() && (wg.y - 1) * 8 < s.height());
}

#[test]
fn flow_stream_count_tiles_grid() {
    let mut s = AppState::new(800, 600);
    assert_eq!(s.flow_stream_count(), 240 * 135);
    s.resize_simulation(65, 66);
    assert_eq!(s.flow_stream_count(), 17 * 17);
}

#[test]
fn limits_for_sliders() {
    let mut s = AppState::new(800, 600);
    assert_eq!(s.object_extent_limits(), (960, 540));
    assert_eq!(s.object_position_limits(), (880, 460));
    s.resize_simulation(64, 64);
    assert_eq!(s.object_position_limits(), (0, 0));
}

#[test]
fn cap_steps_bounds_frame_work() {
    assert_eq!(cap_steps(0), StepBudget { steps: 0, drop_backlog: false });
    assert_eq!(cap_steps(3), StepBudget { steps: 3, drop_backlog: false });
    assert_eq!(cap_steps(8), StepBudget { steps: 8, drop_backlog: false });
    assert_eq!(cap_steps(9), StepBudget { steps: 8, drop_backlog: true });
    assert_eq!(cap_steps(u32::MAX), StepBudget { steps: 8, drop_backlog: true });
}

#[test]
fn plan_frame_with_tracers() {
    let s = AppState::new(800, 600);
    let wg = s.workgroups();
    let plan = plan_frame(2, &wg, true);
    assert_eq!(
        plan,
        vec![
            SimCommand::UploadUniforms { is_first_step: 1 },
            SimCommand::Step { wg_x: 120, wg_y: 68 },
            SimCommand::MoveTracers { wg: 10 },
            SimCommand::ComputeMacros { wg_x: 120, wg_y: 68 },
            SimCommand::UploadUniforms { is_first_step: 0 },
            SimCommand::Step { wg_x: 120, wg_y: 68 },
            SimCommand::MoveTracers { wg: 10 },
            SimCommand::ComputeMacros { wg_x: 120, wg_y: 68 },
        ]
    );
}

#[test]
fn plan_frame_without_tracers() {
    let s = AppState::new(800, 600);
    let wg = s.workgroups();
    assert!(plan_frame(0, &wg, false).is_empty());
    let plan = plan_frame(8, &wg, false);
    assert_eq!(plan.len(), 24);
    let firsts: Vec<usize> = plan
        .iter()
        .enumerate()
        .filter(|(_, c)| matches!(c, SimCommand::UploadUniforms { is_first_step: 1 }))
        .map(|(i, _)| i)
        .collect();
    assert_eq!(firsts, vec![0]);
    assert!(!plan.iter().any(|c| matches!(c, SimCommand::MoveTracers { .. })));
}

#[test]
fn buffer_sizes_of_default_grid() {
    let sizes = lbm_buffer_sizes(960, 540, 600);
    assert_eq!(sizes.distributions, 960 * 540 * 36);
    assert_eq!(sizes.types, 960 * 540 * 4);
    assert_eq!(sizes.density, 960 * 540 * 4);
    assert_eq!(sizes.velocity, 960 * 540 * 8);
    assert_eq!(sizes.tracers, 9600);
}

#[test]
fn bindings_of_stages() {
    assert_eq!(
        storage_bindings(LbmStage::ComputeInit),
        vec![
            LbmBuffer::Fa,
            LbmBuffer::Fb,
            LbmBuffer::Types,
            LbmBuffer::Density,
            LbmBuffer::Velocity,
            LbmBuffer::Object,
            LbmBuffer::Tracers
        ]
    );
    assert_eq!(storage_bindings(LbmStage::ComputeStep), vec![LbmBuffer::Fa, LbmBuffer::Fb, LbmBuffer::Types]);
    assert_eq!(storage_bindings(LbmStage::ComputeTracers), vec![LbmBuffer::Velocity, LbmBuffer::Tracers]);
    assert_eq!(storage_bindings(LbmStage::RenderFlowStreams), vec![LbmBuffer::Velocity]);
    assert_eq!(storage_bindings(LbmStage::RenderDensity), vec![LbmBuffer::Density, LbmBuffer::Types]);
}

#[test]
fn grid_resize_keeps_window() {
    let mut s = AppState::new(1280, 720);
    s.resize_simulation(300, 200);
    assert_eq!((s.window_width(), s.window_height()), (1280, 720));
}

#[test]
fn no_stage_binds_a_buffer_twice() {
    let stages = [
        LbmStage::ComputeInit,
        LbmStage::ComputeMacros,
        LbmStage::ComputeStep,
        LbmStage::ComputeTracers,
        LbmStage::RenderDensity,
        LbmStage::RenderSpeed,
        LbmStage::RenderXVelocity,
        LbmStage::RenderYVelocity,
        LbmStage::RenderCurl,
        LbmStage::RenderTracers,
        LbmStage::RenderFlowStreams,
    ];
    for stage in stages {
        let b = storage_bindings(stage);
        assert!(!b.contains(&LbmBuffer::Uniforms));
        for i in 0..b.len() {
            for j in 0..b.len() {
                if i != j {
                    assert_ne!(b[i], b[j]);
                }
            }
        }
    }
}

#[test]
fn plan_length_is_steps_times_commands_per_step() {
    let s = AppState::new(800, 600);
    let wg = s.workgroups();
    for steps in 0..=8u32 {
        assert_eq!(plan_frame(steps, &wg, true).len(), steps as usize * 4);
        assert_eq!(plan_frame(steps, &wg, false).len(), steps as usize * 3);
    }
}

#[test]
fn render_plan_follows_view_toggles() {
    let mut s = AppState::new(800, 600);
    assert_eq!(plan_render(&s), vec![RenderPass { stage: LbmStage::RenderCurl, instances: 1 }]);
    s.set_render_mode(Rendermode::Density);
    s.set_flow_lines_active(true);
    s.set_tracers_active(true);
    assert_eq!(
        plan_render(&s),
        vec![
            RenderPass { stage: LbmStage::RenderDensity, instances: 1 },
            RenderPass { stage: LbmStage::RenderFlowStreams, instances: 240 * 135 },
            RenderPass { stage: LbmStage::RenderTracers, instances: 600 },
        ]
    );
    s.set_render_mode(Rendermode::XVelocity);
    s.set_flow_lines_active(false);
    assert_eq!(
        plan_render(&s),
        vec![
            RenderPass { stage: LbmStage::RenderXVelocity, instances: 1 },
            RenderPass { stage: LbmStage::RenderTracers, instances: 600 },
        ]
    );
}
