//! Per-frame render orchestration.
//!
//! One redraw of the fractal surface is a fixed sequence of phases:
//! render to the offscreen targets, read the iteration buffer back, run
//! the histogram equalization, composite to the visible surface. The
//! event loop performs the outside work (GPU passes, the readback) and
//! drives this state machine with one event per finished step; the
//! machine answers with the next action. The equalization itself is the
//! `equalize_frame` step, which is pure data work and happens here.

use vstd::prelude::*;

use crate::equalize::{equalize, is_threshold_seq, tally, IterationSample};
use crate::hist::{sum, Hist, DOMAIN};
use crate::input::Command;
use crate::rat::Frac;
use crate::viewport::{frac_in_range, Viewport, ARG_DEN_CAP, ARG_NUM_CAP, SCALE};

verus! {

/// Where a redraw of the fractal surface stands.
#[derive(Clone, Copy, PartialEq, Eq, Structural, Debug)]
pub enum Phase {
    Idle,
    RenderOffscreen,
    Readback,
    Equalize,
    Composite,
}

/// One finished piece of outside work (or a new redraw request).
#[derive(Clone, Copy, PartialEq, Eq, Structural, Debug)]
pub enum FrameEvent {
    RedrawRequested,
    OffscreenRendered,
    BufferRead,
    ThresholdsApplied,
    Composited,
}

/// What the event loop must do next.
#[derive(Clone, Copy, PartialEq, Eq, Structural, Debug)]
pub enum FrameAction {
    /// Render into the two offscreen targets with the current parameters.
    DrawOffscreen,
    /// Transfer the iteration buffer to host memory (blocking).
    ReadIterationBuffer,
    /// Run `equalize_frame` on the buffer just read.
    RunEqualize,
    /// Put the frame on the visible surface; `rerender` asks for a second
    /// shading pass with the updated thresholds instead of a blit.
    DrawComposite { rerender: bool },
    /// Nothing to do.
    Wait,
}

/// The expected phase transition table: each phase advances on exactly
/// the event that finishes it; every other event leaves it alone.
pub open spec fn spec_step(phase: Phase, ev: FrameEvent) -> Phase {
    match (phase, ev) {
        (Phase::Idle, FrameEvent::RedrawRequested) => Phase::RenderOffscreen,
        (Phase::RenderOffscreen, FrameEvent::OffscreenRendered) => Phase::Readback,
        (Phase::Readback, FrameEvent::BufferRead) => Phase::Equalize,
        (Phase::Equalize, FrameEvent::ThresholdsApplied) => Phase::Composite,
        (Phase::Composite, FrameEvent::Composited) => Phase::Idle,
        _ => phase,
    }
}

/// The action that entering a phase asks of the event loop.
pub open spec fn spec_action(phase: Phase, rerender: bool) -> FrameAction {
    match phase {
        Phase::Idle => FrameAction::Wait,
        Phase::RenderOffscreen => FrameAction::DrawOffscreen,
        Phase::Readback => FrameAction::ReadIterationBuffer,
        Phase::Equalize => FrameAction::RunEqualize,
        Phase::Composite => FrameAction::DrawComposite { rerender },
    }
}

/// Drives one fractal surface through the render / readback / equalize /
/// composite sequence.
pub struct Orchestrator {
    pub phase: Phase,
    /// Whether compositing re-runs the shader instead of blitting (the
    /// path for platforms where the blit is unreliable).
    pub rerender_composite: bool,
}

impl Orchestrator {
    pub fn new(rerender_composite: bool) -> (o: Orchestrator)
        ensures
            o.phase == Phase::Idle,
            o.rerender_composite == rerender_composite,
    {
        Orchestrator { phase: Phase::Idle, rerender_composite }
    }

    /// Advance on one event and say what to do next. A redraw is only
    /// started from `Idle`; out-of-order events change nothing.
    pub fn step(&mut self, ev: FrameEvent) -> (a: FrameAction)
        ensures
            final(self).phase == spec_step(old(self).phase, ev),
            final(self).rerender_composite == old(self).rerender_composite,
            a == (if final(self).phase == old(self).phase && !(old(self).phase == Phase::Idle
                && ev == FrameEvent::RedrawRequested) {
                FrameAction::Wait
            } else {
                spec_action(final(self).phase, old(self).rerender_composite)
            }),
    {
        let next = match (self.phase, ev) {
            (Phase::Idle, FrameEvent::RedrawRequested) => Phase::RenderOffscreen,
            (Phase::RenderOffscreen, FrameEvent::OffscreenRendered) => Phase::Readback,
            (Phase::Readback, FrameEvent::BufferRead) => Phase::Equalize,
            (Phase::Equalize, FrameEvent::ThresholdsApplied) => Phase::Composite,
            (Phase::Composite, FrameEvent::Composited) => Phase::Idle,
            (p, _) => {
                self.phase = p;
                return FrameAction::Wait;
            },
        };
        self.phase = next;
        match next {
            Phase::Idle => FrameAction::Wait,
            Phase::RenderOffscreen => FrameAction::DrawOffscreen,
            Phase::Readback => FrameAction::ReadIterationBuffer,
            Phase::Equalize => FrameAction::RunEqualize,
            Phase::Composite => FrameAction::DrawComposite { rerender: self.rerender_composite },
        }
    }
}

/// Whether `cmd` can be applied to `vp` without leaving the exact range
/// of the representation.
pub open spec fn spec_command_in_range(vp: Viewport, cmd: Command) -> bool {
    vp.wf() && vp.spec_in_op_range() && match cmd {
        Command::Pan { dx, dy } => {
            &&& 0 < dx.den <= ARG_DEN_CAP / 100
            &&& -ARG_NUM_CAP <= dx.num <= ARG_NUM_CAP
            &&& 0 < dy.den <= ARG_DEN_CAP / 100
            &&& -ARG_NUM_CAP <= dy.num <= ARG_NUM_CAP
        },
        Command::Scroll { x, y } => frac_in_range(x) && frac_in_range(y),
        _ => true,
    }
}

/// Executable check of `spec_command_in_range`, so the event loop can
/// guard `apply_command`.
pub fn command_in_range(vp: &Viewport, cmd: &Command) -> (r: bool)
    ensures
        r == spec_command_in_range(*vp, *cmd),
{
    let bounds_ok = vp.x_min_num < vp.x_max_num && vp.y_min_num < vp.y_max_num
        && vp.in_op_range();
    let cmd_ok = match cmd {
        Command::Pan { dx, dy } => 0 < dx.den && dx.den <= ARG_DEN_CAP / 100
            && -ARG_NUM_CAP <= dx.num && dx.num <= ARG_NUM_CAP && 0 < dy.den
            && dy.den <= ARG_DEN_CAP / 100 && -ARG_NUM_CAP <= dy.num && dy.num <= ARG_NUM_CAP,
        Command::Scroll { x, y } => 0 < x.den && x.den <= ARG_DEN_CAP && -ARG_NUM_CAP <= x.num
            && x.num <= ARG_NUM_CAP && 0 < y.den && y.den <= ARG_DEN_CAP && -ARG_NUM_CAP <= y.num
            && y.num <= ARG_NUM_CAP,
        _ => true,
    };
    bounds_ok && cmd_ok
}

/// Apply one mapped input command to the viewport.
pub fn apply_command(vp: &mut Viewport, cmd: &Command)
    requires
        spec_command_in_range(*old(vp), *cmd),
    ensures
        final(vp).wf(),
        match *cmd {
            Command::Pan { dx, dy } => crate::viewport::scrolled(*old(vp), Frac {
                num: dx.num,
                den: (100 * dx.den) as i128,
            }, Frac { num: dy.num, den: (100 * dy.den) as i128 }, *final(vp)),
            Command::ZoomIn => crate::viewport::zoomed_in(*old(vp), *final(vp)),
            Command::ZoomOut => crate::viewport::zoomed_out(*old(vp), *final(vp)),
            Command::ResetView => final(vp).x_min_num == -2 * SCALE && final(vp).x_max_num == (
            if old(vp).is_mandelbrot { 1int } else { 2int }) * SCALE,
            Command::Scroll { x, y } => crate::viewport::scrolled(*old(vp), x, y, *final(vp)),
        },
        crate::viewport::params_unchanged(*old(vp), *final(vp)),
{
    match cmd {
        Command::Pan { dx, dy } => vp.pan(*dx, *dy),
        Command::ZoomIn => vp.zoom_in(),
        Command::ZoomOut => vp.zoom_out(),
        Command::ResetView => {
            let m = vp.is_mandelbrot;
            vp.reset(m);
        },
        Command::Scroll { x, y } => vp.scroll(*x, *y),
    }
}

/// The equalize phase of one frame: rebuild the histogram from the
/// samples just read back, extract the nine quantile thresholds, and
/// install them on the viewport for the composite pass.
pub fn equalize_frame(h: &mut Hist, vp: &mut Viewport, samples: &Vec<IterationSample>)
    requires
        old(h).wf(),
        samples@.len() <= u32::MAX as int,
        forall|j: int| 0 <= j < samples@.len() && (#[trigger] samples@[j]).spec_escaped()
            ==> samples@[j].iterations < DOMAIN,
    ensures
        final(h).wf(),
        forall|v: int| 0 <= v < DOMAIN as int ==> #[trigger] final(h)@[v] as int == tally(
            samples@,
            v,
        ),
        exists|t: Seq<u32>|
            {
                &&& is_threshold_seq(final(h)@, t)
                &&& t.len() == 9
                &&& (forall|i: int| 0 <= i < 8 ==> #[trigger] t[i] <= t[i + 1])
                &&& final(vp).ranges@ == t.subrange(0, 4)
                &&& final(vp).ranges_2@ == t.subrange(4, 8)
            },
        sum(final(h)@) == 0 ==> final(vp).ranges@ =~= seq![0u32, 0u32, 0u32, 0u32]
            && final(vp).ranges_2@ =~= seq![0u32, 0u32, 0u32, 0u32],
        crate::viewport::bounds_unchanged(*old(vp), *final(vp)),
        final(vp).width == old(vp).width && final(vp).height == old(vp).height,
        final(vp).max_iterations == old(vp).max_iterations,
        final(vp).color_scheme == old(vp).color_scheme,
        final(vp).julia_function == old(vp).julia_function,
        final(vp).is_mandelbrot == old(vp).is_mandelbrot,
{
    let t = equalize(h, samples);
    vp.set_thresholds(&t);
    proof {
        if sum(h@) == 0 {
            assert(vp.ranges@ =~= seq![0u32, 0u32, 0u32, 0u32]);
            assert(vp.ranges_2@ =~= seq![0u32, 0u32, 0u32, 0u32]);
        }
    }
}

} // verus!
