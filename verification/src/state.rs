//! The integer and flag part of the application state: simulation grid, window,
//! obstacle box and view toggles, with the rules that keep them consistent.
use vstd::prelude::*;
use crate::grid::{ceil_div, div_ceil, lemma_ceil_div_covers};
use crate::render_mode::Rendermode;

verus! {

/// Narrowest simulation grid.
pub const MIN_SIM_WIDTH: u32 = 64;
/// Widest simulation grid.
pub const MAX_SIM_WIDTH: u32 = 1600;
/// Lowest simulation grid.
pub const MIN_SIM_HEIGHT: u32 = 64;
/// Highest simulation grid.
pub const MAX_SIM_HEIGHT: u32 = 1200;
/// Smallest side of the obstacle's box, in cells.
pub const MIN_OBJECT_EXTENT: u32 = 8;
/// Side of the obstacle's box when the application starts.
pub const DEFAULT_OBJECT_EXTENT: u32 = 80;
/// Number of tracer particles.
pub const NUM_TRACERS: u32 = 600;
/// Side of the square tile of cells that one compute workgroup handles.
pub const CELL_WORKGROUP: u32 = 8;
/// Number of tracers that one compute workgroup moves.
pub const TRACER_WORKGROUP: u32 = 64;
/// Spacing, in cells, of the flow stream lines.
pub const STREAM_STEP: u32 = 4;

/// The mathematical content of an [`AppState`].
pub struct SimView {
    pub width: u32,
    pub height: u32,
    pub window_width: u32,
    pub window_height: u32,
    pub obj_width: u32,
    pub obj_height: u32,
    pub obj_x: u32,
    pub obj_y: u32,
    pub num_tracers: u32,
    pub paused: bool,
    pub render_mode: Rendermode,
    pub tracers_active: bool,
    pub flow_lines_active: bool,
}

pub open spec fn min_u32(a: u32, b: u32) -> u32 {
    if a <= b { a } else { b }
}

pub open spec fn max_u32(a: u32, b: u32) -> u32 {
    if a >= b { a } else { b }
}

/// `v` brought into `lo..=hi` (`lo <= hi`), as `Ord::clamp` does.
pub open spec fn clamp_u32(v: u32, lo: u32, hi: u32) -> u32 {
    if v < lo { lo } else if v > hi { hi } else { v }
}

/// `v.max(lo).min(hi)` on `i32`.
pub open spec fn clamp_i32(v: i32, lo: i32, hi: i32) -> i32 {
    let m = if v >= lo { v } else { lo };
    if m <= hi { m } else { hi }
}

/// What every state keeps: the grid within its bounds, the obstacle's box no
/// smaller than its minimum and no larger than the grid.
pub open spec fn view_wf(v: SimView) -> bool {
    &&& MIN_SIM_WIDTH <= v.width <= MAX_SIM_WIDTH
    &&& MIN_SIM_HEIGHT <= v.height <= MAX_SIM_HEIGHT
    &&& MIN_OBJECT_EXTENT <= v.obj_width <= v.width
    &&& MIN_OBJECT_EXTENT <= v.obj_height <= v.height
}

/// The state at start-up for a window of the given size.
pub open spec fn initial_view(window_width: u32, window_height: u32) -> SimView {
    SimView {
        width: 960,
        height: 540,
        window_width,
        window_height,
        obj_width: DEFAULT_OBJECT_EXTENT,
        obj_height: DEFAULT_OBJECT_EXTENT,
        obj_x: (960 * 25 / 100) as u32,
        obj_y: ((540 - DEFAULT_OBJECT_EXTENT) / 2) as u32,
        num_tracers: NUM_TRACERS,
        paused: true,
        render_mode: Rendermode::Curl,
        tracers_active: false,
        flow_lines_active: false,
    }
}

/// After a reset the simulation runs.
pub open spec fn reset_view(v: SimView) -> SimView {
    SimView { paused: false, ..v }
}

/// A new grid size, brought into its bounds; the obstacle's box shrinks to fit.
pub open spec fn resized_view(v: SimView, sim_width: u32, sim_height: u32) -> SimView {
    let width = min_u32(max_u32(sim_width, MIN_SIM_WIDTH), MAX_SIM_WIDTH);
    let height = min_u32(max_u32(sim_height, MIN_SIM_HEIGHT), MAX_SIM_HEIGHT);
    SimView {
        width,
        height,
        obj_width: min_u32(v.obj_width, max_u32(width, MIN_OBJECT_EXTENT)),
        obj_height: min_u32(v.obj_height, max_u32(height, MIN_OBJECT_EXTENT)),
        ..v
    }
}

/// The obstacle's box brought between its minimum and the grid.
pub open spec fn object_size_view(v: SimView) -> SimView {
    SimView {
        obj_width: clamp_u32(v.obj_width, MIN_OBJECT_EXTENT, max_u32(v.width, MIN_OBJECT_EXTENT)),
        obj_height: clamp_u32(
            v.obj_height,
            MIN_OBJECT_EXTENT,
            max_u32(v.height, MIN_OBJECT_EXTENT),
        ),
        ..v
    }
}

/// A new window size; a size with a zero side is ignored.
pub open spec fn window_resized_view(v: SimView, width: u32, height: u32) -> SimView {
    if width == 0 || height == 0 {
        v
    } else {
        SimView { window_width: width, window_height: height, ..v }
    }
}

/// The obstacle's box set to the requested sides, then brought within bounds.
pub open spec fn object_extent_view(v: SimView, obj_width: u32, obj_height: u32) -> SimView {
    object_size_view(SimView { obj_width, obj_height, ..v })
}

/// The obstacle's box after a change of physical scale: each requested side is
/// raised to the minimum and cut to the grid, then the box is brought within bounds.
pub open spec fn scaled_view(v: SimView, new_height: i32, new_width: i32) -> SimView {
    let h = clamp_i32(new_height, MIN_OBJECT_EXTENT as i32, v.height as i32);
    let w = clamp_i32(new_width, MIN_OBJECT_EXTENT as i32, v.width as i32);
    object_size_view(SimView { obj_width: w as u32, obj_height: h as u32, ..v })
}

/// The integer fields of the shader uniforms.
pub struct GridUniforms {
    pub w: u32,
    pub h: u32,
    pub w_object: u32,
    pub h_object: u32,
    pub is_first_step: u32,
    pub obj_x: u32,
    pub obj_y: u32,
}

/// How many compute workgroups cover the grid and the tracers.
pub struct Workgroups {
    pub x: u32,
    pub y: u32,
    pub tracers: u32,
}

/// The workgroup counts of a state.
pub open spec fn workgroups_of(v: SimView) -> (int, int, int) {
    (
        ceil_div(v.width as int, CELL_WORKGROUP as int),
        ceil_div(v.height as int, CELL_WORKGROUP as int),
        ceil_div(v.num_tracers as int, TRACER_WORKGROUP as int),
    )
}

/// The number of flow stream lines drawn over a state's grid.
pub open spec fn flow_stream_count_of(v: SimView) -> int {
    ceil_div(v.width as int, STREAM_STEP as int) * ceil_div(v.height as int, STREAM_STEP as int)
}


fn min_of(a: u32, b: u32) -> (r: u32)
    ensures
        r == min_u32(a, b),
{
    if a <= b { a } else { b }
}

fn max_of(a: u32, b: u32) -> (r: u32)
    ensures
        r == max_u32(a, b),
{
    if a >= b { a } else { b }
}

fn clamp_of(v: u32, lo: u32, hi: u32) -> (r: u32)
    ensures
        r == clamp_u32(v, lo, hi),
{
    if v < lo { lo } else if v > hi { hi } else { v }
}

fn clamp_i32_of(v: i32, lo: i32, hi: i32) -> (r: i32)
    ensures
        r == clamp_i32(v, lo, hi),
{
    let m = if v >= lo { v } else { lo };
    if m <= hi { m } else { hi }
}

/// Grid, window, obstacle and view settings of the fluid application.
pub struct AppState {
    width: u32,
    height: u32,
    window_width: u32,
    window_height: u32,
    obj_width: u32,
    obj_height: u32,
    obj_x: u32,
    obj_y: u32,
    num_tracers: u32,
    paused: bool,
    render_mode: Rendermode,
    tracers_active: bool,
    flow_lines_active: bool,
}

impl View for AppState {
    type V = SimView;

    closed spec fn view(&self) -> SimView {
        SimView {
            width: self.width,
            height: self.height,
            window_width: self.window_width,
            window_height: self.window_height,
            obj_width: self.obj_width,
            obj_height: self.obj_height,
            obj_x: self.obj_x,
            obj_y: self.obj_y,
            num_tracers: self.num_tracers,
            paused: self.paused,
            render_mode: self.render_mode,
            tracers_active: self.tracers_active,
            flow_lines_active: self.flow_lines_active,
        }
    }
}

impl AppState {
    #[verifier::type_invariant]
    spec fn inv(self) -> bool {
        &&& MIN_SIM_WIDTH <= self.width <= MAX_SIM_WIDTH
        &&& MIN_SIM_HEIGHT <= self.height <= MAX_SIM_HEIGHT
        &&& MIN_OBJECT_EXTENT <= self.obj_width <= self.width
        &&& MIN_OBJECT_EXTENT <= self.obj_height <= self.height
    }

    fn preferred_sim_size(_window_width: u32, _window_height: u32) -> (size: (u32, u32))
        ensures
            size == (960u32, 540u32),
    {
        (960, 540)
    }

    /// The state at start-up: a 960 by 540 grid, an 80 by 80 obstacle a quarter of
    /// the way in and centred vertically, paused, showing the curl.
    pub fn new(window_width: u32, window_height: u32) -> (s: Self)
        ensures
            s@ == initial_view(window_width, window_height),
            view_wf(s@),
    {
        let (width, height) = Self::preferred_sim_size(window_width, window_height);
        let obj_width: u32 = DEFAULT_OBJECT_EXTENT;
        let obj_height: u32 = DEFAULT_OBJECT_EXTENT;
        let obj_x: u32 = (width * 25) / 100;
        let obj_y: u32 = (height - obj_height) / 2;
        AppState {
            width,
            height,
            window_width,
            window_height,
            obj_width,
            obj_height,
            obj_x,
            obj_y,
            num_tracers: NUM_TRACERS,
            paused: true,
            render_mode: Rendermode::Curl,
            tracers_active: false,
            flow_lines_active: false,
        }
    }

    /// Restarts the simulation; it runs afterwards.
    pub fn reset(&mut self)
        ensures
            final(self)@ == reset_view(old(self)@),
            view_wf(final(self)@),
    {
        proof {
            use_type_invariant(&*self);
        }
        self.paused = false;
    }

    /// Sets the grid size, each side brought into its bounds, and shrinks the
    /// obstacle's box to fit the new grid.
    pub fn resize_simulation(&mut self, sim_width: u32, sim_height: u32)
        ensures
            final(self)@ == resized_view(old(self)@, sim_width, sim_height),
            view_wf(final(self)@),
    {
        proof {
            use_type_invariant(&*self);
        }
        let width = min_of(max_of(sim_width, MIN_SIM_WIDTH), MAX_SIM_WIDTH);
        let height = min_of(max_of(sim_height, MIN_SIM_HEIGHT), MAX_SIM_HEIGHT);
        let obj_width = min_of(self.obj_width, max_of(width, MIN_OBJECT_EXTENT));
        let obj_height = min_of(self.obj_height, max_of(height, MIN_OBJECT_EXTENT));
        *self = AppState { width, height, obj_width, obj_height, ..*self };
    }

    /// Brings the obstacle's box between its minimum side and the grid.
    pub fn update_object_size(&mut self)
        ensures
            final(self)@ == object_size_view(old(self)@),
            view_wf(final(self)@),
    {
        proof {
            use_type_invariant(&*self);
        }
        let obj_width = clamp_of(self.obj_width, MIN_OBJECT_EXTENT, max_of(self.width, MIN_OBJECT_EXTENT));
        let obj_height = clamp_of(self.obj_height, MIN_OBJECT_EXTENT, max_of(self.height, MIN_OBJECT_EXTENT));
        *self = AppState { obj_width, obj_height, ..*self };
    }

    /// Records a new window size and says whether it was taken: a size with a
    /// zero side (a minimised window) is ignored.
    pub fn resize(&mut self, width: u32, height: u32) -> (applied: bool)
        ensures
            applied == (width != 0 && height != 0),
            final(self)@ == window_resized_view(old(self)@, width, height),
            view_wf(final(self)@),
    {
        proof {
            use_type_invariant(&*self);
        }
        if width == 0 || height == 0 {
            return false;
        }
        self.window_width = width;
        self.window_height = height;
        true
    }

    /// Sets the obstacle's box to the requested sides, brought within bounds.
    pub fn set_object_extent(&mut self, obj_width: u32, obj_height: u32)
        ensures
            final(self)@ == object_extent_view(old(self)@, obj_width, obj_height),
            view_wf(final(self)@),
    {
        proof {
            use_type_invariant(&*self);
        }
        let obj_width = clamp_of(obj_width, MIN_OBJECT_EXTENT, max_of(self.width, MIN_OBJECT_EXTENT));
        let obj_height = clamp_of(obj_height, MIN_OBJECT_EXTENT, max_of(self.height, MIN_OBJECT_EXTENT));
        *self = AppState { obj_width, obj_height, ..*self };
    }

    /// Sets the obstacle's box from sides derived from a new physical scale:
    /// each is raised to the minimum and cut to the grid.
    pub fn scale_object_extent(&mut self, new_height: i32, new_width: i32)
        ensures
            final(self)@ == scaled_view(old(self)@, new_height, new_width),
            view_wf(final(self)@),
    {
        proof {
            use_type_invariant(&*self);
        }
        let h = clamp_i32_of(new_height, MIN_OBJECT_EXTENT as i32, self.height as i32);
        let w = clamp_i32_of(new_width, MIN_OBJECT_EXTENT as i32, self.width as i32);
        let obj_height = h as u32;
        let obj_width = w as u32;
        let obj_width = clamp_of(obj_width, MIN_OBJECT_EXTENT, max_of(self.width, MIN_OBJECT_EXTENT));
        let obj_height = clamp_of(obj_height, MIN_OBJECT_EXTENT, max_of(self.height, MIN_OBJECT_EXTENT));
        *self = AppState { obj_width, obj_height, ..*self };
    }
    /// Moves the obstacle's box; its top-left cell becomes `(obj_x, obj_y)`.
    pub fn set_object_position(&mut self, obj_x: u32, obj_y: u32)
        ensures
            final(self)@ == (SimView { obj_x, obj_y, ..old(self)@ }),
            view_wf(final(self)@),
    {
        proof {
            use_type_invariant(&*self);
        }
        self.obj_x = obj_x;
        self.obj_y = obj_y;
    }

    /// Chooses the field that is drawn.
    pub fn set_render_mode(&mut self, render_mode: Rendermode)
        ensures
            final(self)@ == (SimView { render_mode, ..old(self)@ }),
            view_wf(final(self)@),
    {
        proof {
            use_type_invariant(&*self);
        }
        self.render_mode = render_mode;
    }

    /// Turns the tracer particles on or off.
    pub fn set_tracers_active(&mut self, tracers_active: bool)
        ensures
            final(self)@ == (SimView { tracers_active, ..old(self)@ }),
            view_wf(final(self)@),
    {
        proof {
            use_type_invariant(&*self);
        }
        self.tracers_active = tracers_active;
    }

    /// Turns the flow stream lines on or off.
    pub fn set_flow_lines_active(&mut self, flow_lines_active: bool)
        ensures
            final(self)@ == (SimView { flow_lines_active, ..old(self)@ }),
            view_wf(final(self)@),
    {
        proof {
            use_type_invariant(&*self);
        }
        self.flow_lines_active = flow_lines_active;
    }

    /// Pauses a running simulation, or resumes a paused one.
    pub fn toggle_paused(&mut self)
        ensures
            final(self)@ == (SimView { paused: !old(self)@.paused, ..old(self)@ }),
            view_wf(final(self)@),
    {
        proof {
            use_type_invariant(&*self);
        }
        self.paused = !self.paused;
    }

    /// The integer fields of the shader uniforms for this state, marked as the
    /// first step of a run.
    pub fn grid_uniforms(&self) -> (u: GridUniforms)
        ensures
            u.w == self@.width,
            u.h == self@.height,
            u.w_object == self@.obj_width,
            u.h_object == self@.obj_height,
            u.is_first_step == 1,
            u.obj_x == self@.obj_x,
            u.obj_y == self@.obj_y,
    {
        GridUniforms {
            w: self.width,
            h: self.height,
            w_object: self.obj_width,
            h_object: self.obj_height,
            is_first_step: 1,
            obj_x: self.obj_x,
            obj_y: self.obj_y,
        }
    }

    /// Workgroups that cover the grid in square tiles and the tracers in groups.
    pub fn workgroups(&self) -> (wg: Workgroups)
        ensures
            (wg.x as int, wg.y as int, wg.tracers as int) == workgroups_of(self@),
    {
        Workgroups {
            x: div_ceil(self.width, CELL_WORKGROUP),
            y: div_ceil(self.height, CELL_WORKGROUP),
            tracers: div_ceil(self.num_tracers, TRACER_WORKGROUP),
        }
    }

    /// Number of flow stream lines: one per `STREAM_STEP` by `STREAM_STEP` tile of
    /// the grid.
    pub fn flow_stream_count(&self) -> (n: u32)
        ensures
            n == flow_stream_count_of(self@),
    {
        proof {
            use_type_invariant(self);
            lemma_ceil_div_covers(self.width as int, STREAM_STEP as int);
            lemma_ceil_div_covers(self.height as int, STREAM_STEP as int);
        }
        let across = div_ceil(self.width, STREAM_STEP);
        let down = div_ceil(self.height, STREAM_STEP);
        proof {
            assert(across <= 400 && down <= 300);
            assert(across * down <= 400 * 300) by (nonlinear_arith)
                requires
                    across <= 400,
                    down <= 300,
            ;
        }
        across * down
    }

    /// The largest sides the obstacle's box may be given: the grid's, or the
    /// minimum side if the grid were smaller.
    pub fn object_extent_limits(&self) -> (limits: (u32, u32))
        ensures
            limits == (max_u32(self@.width, MIN_OBJECT_EXTENT), max_u32(self@.height, MIN_OBJECT_EXTENT)),
    {
        (max_of(self.width, MIN_OBJECT_EXTENT), max_of(self.height, MIN_OBJECT_EXTENT))
    }

    /// The largest position of the obstacle's top-left cell that keeps the box on
    /// the grid (zero where the box is as large as the grid).
    pub fn object_position_limits(&self) -> (limits: (u32, u32))
        ensures
            limits.0 == (if self@.width >= self@.obj_width { self@.width - self@.obj_width } else { 0 }),
            limits.1 == (if self@.height >= self@.obj_height { self@.height - self@.obj_height } else { 0 }),
    {
        (self.width.saturating_sub(self.obj_width), self.height.saturating_sub(self.obj_height))
    }

    pub fn width(&self) -> (r: u32)
        ensures
            r == self@.width,
    {
        self.width
    }

    pub fn height(&self) -> (r: u32)
        ensures
            r == self@.height,
    {
        self.height
    }

    pub fn window_width(&self) -> (r: u32)
        ensures
            r == self@.window_width,
    {
        self.window_width
    }

    pub fn window_height(&self) -> (r: u32)
        ensures
            r == self@.window_height,
    {
        self.window_height
    }

    pub fn obj_width(&self) -> (r: u32)
        ensures
            r == self@.obj_width,
    {
        self.obj_width
    }

    pub fn obj_height(&self) -> (r: u32)
        ensures
            r == self@.obj_height,
    {
        self.obj_height
    }

    pub fn obj_x(&self) -> (r: u32)
        ensures
            r == self@.obj_x,
    {
        self.obj_x
    }

    pub fn obj_y(&self) -> (r: u32)
        ensures
            r == self@.obj_y,
    {
        self.obj_y
    }

    pub fn num_tracers(&self) -> (r: u32)
        ensures
            r == self@.num_tracers,
    {
        self.num_tracers
    }

    pub fn paused(&self) -> (r: bool)
        ensures
            r == self@.paused,
    {
        self.paused
    }

    pub fn render_mode(&self) -> (r: Rendermode)
        ensures
            r == self@.render_mode,
    {
        self.render_mode
    }

    pub fn tracers_active(&self) -> (r: bool)
        ensures
            r == self@.tracers_active,
    {
        self.tracers_active
    }

    pub fn flow_lines_active(&self) -> (r: bool)
        ensures
            r == self@.flow_lines_active,
    {
        self.flow_lines_active
    }
}

/// Resizing the grid twice to the same requested size gives the state that
/// resizing once gives.
pub proof fn lemma_resize_simulation_idempotent(v: SimView, sim_width: u32, sim_height: u32)
    requires
        view_wf(v),
    ensures
        resized_view(resized_view(v, sim_width, sim_height), sim_width, sim_height)
            == resized_view(v, sim_width, sim_height),
{
}

/// On a valid state the obstacle's box is already within bounds, so bringing it
/// within bounds changes nothing.
pub proof fn lemma_update_object_size_keeps_valid_state(v: SimView)
    requires
        view_wf(v),
    ensures
        object_size_view(v) == v,
{
}

/// Every operation on the state keeps it valid: the grid stays within its
/// bounds and the obstacle's box between its minimum and the grid.
pub proof fn lemma_operations_keep_wf(
    v: SimView,
    w: u32,
    h: u32,
    new_height: i32,
    new_width: i32,
)
    requires
        view_wf(v),
    ensures
        view_wf(initial_view(w, h)),
        view_wf(reset_view(v)),
        view_wf(resized_view(v, w, h)),
        view_wf(object_size_view(v)),
        view_wf(window_resized_view(v, w, h)),
        view_wf(object_extent_view(v, w, h)),
        view_wf(scaled_view(v, new_height, new_width)),
{
}

/// Resizing the window leaves the simulation grid and the obstacle alone, and
/// resizing the grid leaves the window alone.
pub proof fn lemma_window_and_grid_independent(v: SimView, w: u32, h: u32)
    ensures
        window_resized_view(v, w, h).width == v.width,
        window_resized_view(v, w, h).height == v.height,
        window_resized_view(v, w, h).obj_width == v.obj_width,
        window_resized_view(v, w, h).obj_height == v.obj_height,
        resized_view(v, w, h).window_width == v.window_width,
        resized_view(v, w, h).window_height == v.window_height,
{
}

/// Resizing the grid keeps a requested side within its bounds and otherwise takes
/// the nearer bound; the obstacle keeps a side that fits the new grid and is cut
/// to the grid otherwise; nothing else changes.
pub proof fn lemma_resized_sides(v: SimView, sim_width: u32, sim_height: u32)
    requires
        view_wf(v),
    ensures
        ({
            let r = resized_view(v, sim_width, sim_height);
            &&& MIN_SIM_WIDTH <= sim_width <= MAX_SIM_WIDTH ==> r.width == sim_width
            &&& sim_width < MIN_SIM_WIDTH ==> r.width == MIN_SIM_WIDTH
            &&& sim_width > MAX_SIM_WIDTH ==> r.width == MAX_SIM_WIDTH
            &&& MIN_SIM_HEIGHT <= sim_height <= MAX_SIM_HEIGHT ==> r.height == sim_height
            &&& sim_height < MIN_SIM_HEIGHT ==> r.height == MIN_SIM_HEIGHT
            &&& sim_height > MAX_SIM_HEIGHT ==> r.height == MAX_SIM_HEIGHT
            &&& v.obj_width <= r.width ==> r.obj_width == v.obj_width
            &&& v.obj_width > r.width ==> r.obj_width == r.width
            &&& v.obj_height <= r.height ==> r.obj_height == v.obj_height
            &&& v.obj_height > r.height ==> r.obj_height == r.height
            &&& r == (SimView { width: r.width, height: r.height, obj_width: r.obj_width, obj_height: r.obj_height, ..v })
        }),
{
}

/// The flow stream lines are one per `STREAM_STEP` by `STREAM_STEP` tile: as many
/// columns and rows as cover the grid, and one fewer of either would not.
pub proof fn lemma_flow_streams_cover(v: SimView)
    ensures
        ({
            let a = ceil_div(v.width as int, STREAM_STEP as int);
            let b = ceil_div(v.height as int, STREAM_STEP as int);
            &&& flow_stream_count_of(v) == a * b
            &&& a * STREAM_STEP >= v.width && a * STREAM_STEP < v.width + STREAM_STEP
            &&& b * STREAM_STEP >= v.height && b * STREAM_STEP < v.height + STREAM_STEP
        }),
{
    lemma_ceil_div_covers(v.width as int, STREAM_STEP as int);
    lemma_ceil_div_covers(v.height as int, STREAM_STEP as int);
}

/// Setting the obstacle's box keeps each requested side that lies between the
/// minimum side and the grid's matching side; a smaller one becomes the minimum
/// and a larger one the grid's side. The width is bounded by the grid's width and
/// the height by the grid's height. Nothing else changes.
pub proof fn lemma_object_extent_sides(v: SimView, obj_width: u32, obj_height: u32)
    requires
        view_wf(v),
    ensures
        ({
            let r = object_extent_view(v, obj_width, obj_height);
            &&& MIN_OBJECT_EXTENT <= obj_width <= v.width ==> r.obj_width == obj_width
            &&& obj_width < MIN_OBJECT_EXTENT ==> r.obj_width == MIN_OBJECT_EXTENT
            &&& obj_width > v.width ==> r.obj_width == v.width
            &&& MIN_OBJECT_EXTENT <= obj_height <= v.height ==> r.obj_height == obj_height
            &&& obj_height < MIN_OBJECT_EXTENT ==> r.obj_height == MIN_OBJECT_EXTENT
            &&& obj_height > v.height ==> r.obj_height == v.height
            &&& r == (SimView { obj_width: r.obj_width, obj_height: r.obj_height, ..v })
        }),
{
}

/// Setting the obstacle's box is the same as writing the requested sides and then
/// bringing the box within bounds.
pub proof fn lemma_object_extent_is_update_of_request(v: SimView, obj_width: u32, obj_height: u32)
    ensures
        object_extent_view(v, obj_width, obj_height) == object_size_view(
            SimView { obj_width, obj_height, ..v },
        ),
{
}

/// Bringing the box within bounds keeps a side that is already within bounds,
/// raises a too small one to the minimum and cuts a too large one to the grid.
pub proof fn lemma_object_size_sides(v: SimView)
    requires
        MIN_SIM_WIDTH <= v.width,
        MIN_SIM_HEIGHT <= v.height,
    ensures
        ({
            let r = object_size_view(v);
            &&& MIN_OBJECT_EXTENT <= v.obj_width <= v.width ==> r.obj_width == v.obj_width
            &&& v.obj_width < MIN_OBJECT_EXTENT ==> r.obj_width == MIN_OBJECT_EXTENT
            &&& v.obj_width > v.width ==> r.obj_width == v.width
            &&& MIN_OBJECT_EXTENT <= v.obj_height <= v.height ==> r.obj_height == v.obj_height
            &&& v.obj_height < MIN_OBJECT_EXTENT ==> r.obj_height == MIN_OBJECT_EXTENT
            &&& v.obj_height > v.height ==> r.obj_height == v.height
            &&& r == (SimView { obj_width: r.obj_width, obj_height: r.obj_height, ..v })
        }),
{
}

/// Rescaling the obstacle keeps each requested side that lies between the
/// minimum side and the grid's matching side, and otherwise takes the nearer
/// bound; nothing else changes.
pub proof fn lemma_scaled_sides(v: SimView, new_height: i32, new_width: i32)
    requires
        view_wf(v),
    ensures
        ({
            let r = scaled_view(v, new_height, new_width);
            &&& MIN_OBJECT_EXTENT <= new_width <= v.width ==> r.obj_width == new_width
            &&& new_width < MIN_OBJECT_EXTENT ==> r.obj_width == MIN_OBJECT_EXTENT
            &&& new_width > v.width ==> r.obj_width == v.width
            &&& MIN_OBJECT_EXTENT <= new_height <= v.height ==> r.obj_height == new_height
            &&& new_height < MIN_OBJECT_EXTENT ==> r.obj_height == MIN_OBJECT_EXTENT
            &&& new_height > v.height ==> r.obj_height == v.height
            &&& r == (SimView { obj_width: r.obj_width, obj_height: r.obj_height, ..v })
        }),
{
}

/// The workgroups cover the whole grid and every tracer, and one workgroup fewer
/// in any direction would not.
pub proof fn lemma_workgroups_cover(v: SimView)
    ensures
        workgroups_of(v).0 * CELL_WORKGROUP >= v.width,
        workgroups_of(v).0 * CELL_WORKGROUP < v.width + CELL_WORKGROUP,
        workgroups_of(v).1 * CELL_WORKGROUP >= v.height,
        workgroups_of(v).1 * CELL_WORKGROUP < v.height + CELL_WORKGROUP,
        workgroups_of(v).2 * TRACER_WORKGROUP >= v.num_tracers,
        workgroups_of(v).2 * TRACER_WORKGROUP < v.num_tracers + TRACER_WORKGROUP,
{
    lemma_ceil_div_covers(v.width as int, CELL_WORKGROUP as int);
    lemma_ceil_div_covers(v.height as int, CELL_WORKGROUP as int);
    lemma_ceil_div_covers(v.num_tracers as int, TRACER_WORKGROUP as int);
}

} // verus!
