use fractal_lab::equalize::IterationSample;
use fractal_lab::hist::Hist;
use fractal_lab::input::Command;
use fractal_lab::orchestrator::{
    apply_command, command_in_range, equalize_frame, FrameAction, FrameEvent, Orchestrator, Phase,
};
use fractal_lab::rat::Frac;
use fractal_lab::viewport::{ColorScheme, JuliaFunction, Viewport, SCALE};

#[test]
fn one_frame_walks_all_phases_in_order() {
    let mut o = Orchestrator::new(false);
    assert_eq!(o.phase, Phase::Idle);
    assert_eq!(o.step(FrameEvent::RedrawRequested), FrameAction::DrawOffscreen);
    assert_eq!(o.phase, Phase::RenderOffscreen);
    assert_eq!(o.step(FrameEvent::OffscreenRendered), FrameAction::ReadIterationBuffer);
    assert_eq!(o.step(FrameEvent::BufferRead), FrameAction::RunEqualize);
    assert_eq!(
        o.step(FrameEvent::ThresholdsApplied),
        FrameAction::DrawComposite { rerender: false }
    );
    assert_eq!(o.step(FrameEvent::Composited), FrameAction::Wait);
    assert_eq!(o.phase, Phase::Idle);
}

#[test]
fn compatibility_path_rerenders_the_composite() {
    let mut o = Orchestrator::new(true);
    o.step(FrameEvent::RedrawRequested);
    o.step(FrameEvent::OffscreenRendered);
    o.step(FrameEvent::BufferRead);
    assert_eq!(
        o.step(FrameEvent::ThresholdsApplied),
        FrameAction::DrawComposite { rerender: true }
    );
}

#[test]
fn out_of_order_events_change_nothing() {
    let mut o = Orchestrator::new(false);
    assert_eq!(o.step(FrameEvent::BufferRead), FrameAction::Wait);
    assert_eq!(o.step(FrameEvent::Composited), FrameAction::Wait);
    assert_eq!(o.phase, Phase::Idle);
    o.step(FrameEvent::RedrawRequested);
    assert_eq!(o.step(FrameEvent::RedrawRequested), FrameAction::Wait);
    assert_eq!(o.phase, Phase::RenderOffscreen);
}

#[test]
fn equalize_frame_installs_the_thresholds() {
    let mut h = Hist::new();
    let mut vp = Viewport::new(8, 8, true, JuliaFunction::Classic, ColorScheme::Turbo);
    let samples: Vec<IterationSample> = vec![
        IterationSample { iterations: 1, flag: 0 },
        IterationSample { iterations: 2, flag: 0 },
        IterationSample { iterations: 3, flag: 0 },
        IterationSample { iterations: 4, flag: 0 },
        IterationSample { iterations: 5, flag: 0 },
        IterationSample { iterations: 6, flag: 0 },
        IterationSample { iterations: 7, flag: 0 },
        IterationSample { iterations: 8, flag: 0 },
    ];
    equalize_frame(&mut h, &mut vp, &samples);
    assert_eq!(vp.ranges, [1, 2, 3, 4]);
    assert_eq!(vp.ranges_2, [5, 6, 7, 8]);
    // the bounds are untouched by the equalize phase
    assert_eq!(vp.x_min_num, -2 * SCALE);
}

#[test]
fn commands_drive_the_viewport() {
    let mut vp = Viewport::new(8, 8, true, JuliaFunction::Classic, ColorScheme::Turbo);
    let zoom = Command::ZoomIn;
    assert!(command_in_range(&vp, &zoom));
    apply_command(&mut vp, &zoom);
    assert_eq!(v_span(&vp), 24 * SCALE / 10);
    let reset = Command::ResetView;
    apply_command(&mut vp, &reset);
    assert_eq!(v_span(&vp), 3 * SCALE);
    let scroll = Command::Scroll { x: Frac { num: 1, den: 1 }, y: Frac { num: 0, den: 1 } };
    apply_command(&mut vp, &scroll);
    assert_eq!(vp.x_min_num, -17 * SCALE / 10);
}

fn v_span(vp: &Viewport) -> i128 {
    vp.x_max_num - vp.x_min_num
}
