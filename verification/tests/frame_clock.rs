use drawing_in_3d::core_anim_display_link::{
    ClockPhase, CoreAnimDisplayLink, CoreAnimError, InvalidateAction,
};
use drawing_in_3d::mbe_metal_view::{ClockInstall, DelegateCall, RustMetalView, TickAction};
use drawing_in_3d::metal_texture::{MetalTexture, MetalTextureDescriptor};

fn running_clock() -> CoreAnimDisplayLink {
    let mut link = CoreAnimDisplayLink::display_link_with_target_and_selector(true, 0, 0).unwrap();
    assert!(link.add_to_main_run_loop());
    link
}

#[test]
fn clock_is_made_attached_and_silent() {
    let link = CoreAnimDisplayLink::display_link_with_target_and_selector(true, 0, 0).unwrap();
    assert_eq!(link.phase(), ClockPhase::Attached);
    assert!(!link.is_running());
    assert_eq!(link.preferred_frames_per_second(), None);
}

#[test]
fn clock_without_display_is_refused() {
    let r = CoreAnimDisplayLink::display_link_with_target_and_selector(false, -6661, 0);
    assert_eq!(r.unwrap_err(), CoreAnimError::FailedToConnectToDisplay(-6661));
    let r = CoreAnimDisplayLink::display_link_with_target_and_selector(false, 0, -6660);
    assert_eq!(r.unwrap_err(), CoreAnimError::FailedToConnectToDisplay(0));
}

#[test]
fn clock_whose_callback_is_refused_is_refused() {
    let r = CoreAnimDisplayLink::display_link_with_target_and_selector(true, 0, -6660);
    assert_eq!(r.unwrap_err(), CoreAnimError::FailedToCreateTimer(-6660));
}

#[test]
fn start_starts_the_timer_once() {
    let mut link = CoreAnimDisplayLink::display_link_with_target_and_selector(true, 0, 0).unwrap();
    assert!(link.add_to_run_loop_for_mode());
    assert!(link.is_running());
    assert!(!link.add_to_run_loop_for_mode());
    assert!(!link.add_to_main_run_loop());
    assert!(link.is_running());
}

#[test]
fn start_on_a_clock_without_timer_does_nothing() {
    let mut link = CoreAnimDisplayLink::default();
    assert_eq!(link.phase(), ClockPhase::Detached);
    assert!(!link.add_to_main_run_loop());
    assert_eq!(link.phase(), ClockPhase::Detached);
}

#[test]
fn invalidate_twice_releases_once() {
    let mut link = running_clock();
    assert_eq!(link.invalidate(), InvalidateAction::StopAndRelease);
    assert!(!link.is_running());
    assert_eq!(link.phase(), ClockPhase::Detached);
    assert_eq!(link.invalidate(), InvalidateAction::Nothing);
    assert_eq!(link.phase(), ClockPhase::Detached);
}

#[test]
fn invalidate_before_start_only_releases() {
    let mut link = CoreAnimDisplayLink::display_link_with_target_and_selector(true, 0, 0).unwrap();
    assert_eq!(link.invalidate(), InvalidateAction::Release);
    assert_eq!(link.invalidate(), InvalidateAction::Nothing);
    assert!(!link.add_to_main_run_loop());
    assert!(!link.is_running());
}

#[test]
fn invalidate_on_a_clock_without_timer_is_safe() {
    let mut link = CoreAnimDisplayLink::default();
    assert_eq!(link.invalidate(), InvalidateAction::Nothing);
    assert_eq!(link.invalidate(), InvalidateAction::Nothing);
}

#[test]
fn rate_is_kept_across_start_and_invalidate() {
    let mut link = CoreAnimDisplayLink::display_link_with_target_and_selector(true, 0, 0).unwrap();
    link.set_preferred_frames_per_second(30);
    assert_eq!(link.preferred_frames_per_second(), Some(30));
    link.add_to_main_run_loop();
    assert_eq!(link.preferred_frames_per_second(), Some(30));
    link.invalidate();
    assert_eq!(link.preferred_frames_per_second(), Some(30));
}

#[test]
fn null_texture_has_no_size() {
    let t = MetalTexture::default();
    assert!(t.is_null());
    assert_eq!(t.get_width(), 0);
    assert_eq!(t.get_height(), 0);
    let u = MetalTexture::with_size(640, 480);
    assert!(!u.is_null());
    assert_eq!(u.get_width(), 640);
    assert_eq!(u.get_height(), 480);
}

#[test]
fn depth_texture_is_made_once_for_each_size() {
    let mut view = RustMetalView::new(true);
    assert!(view.get_depth_texture().is_null());
    let first = view.make_depth_texture(800, 600);
    assert_eq!(
        first,
        Some(MetalTextureDescriptor {
            pixel_format: 252,
            width: 800,
            height: 600,
            mipmapped: false,
            usage: 4,
            storage_mode: 2,
        })
    );
    assert_eq!(view.get_depth_texture().get_width(), 800);
    assert_eq!(view.get_depth_texture().get_height(), 600);
    assert_eq!(view.make_depth_texture(800, 600), None);
    let wider = view.make_depth_texture(801, 600).unwrap();
    assert_eq!((wider.width, wider.height), (801, 600));
    let taller = view.make_depth_texture(801, 601).unwrap();
    assert_eq!((taller.width, taller.height), (801, 601));
    assert_eq!(view.make_depth_texture(801, 601), None);
}

#[test]
fn depth_texture_of_an_empty_drawable_is_still_made() {
    let mut view = RustMetalView::new(true);
    assert!(view.make_depth_texture(0, 0).is_some());
    assert!(!view.get_depth_texture().is_null());
    assert_eq!(view.make_depth_texture(0, 0), None);
}

#[test]
fn view_starts_without_clock_and_asks_for_sixty() {
    let view = RustMetalView::new(true);
    assert_eq!(view.get_preferred_frames_per_second(), 60);
    assert_eq!(view.clock_phase(), ClockPhase::Detached);
    assert_eq!(view.display_link_did_fire(true), TickAction::Ignored);
}

#[test]
fn installed_clock_runs_at_the_rate_of_the_view() {
    let mut view = RustMetalView::new(true);
    let created = CoreAnimDisplayLink::display_link_with_target_and_selector(true, 0, 0);
    let report = view.install_display_link(created);
    assert_eq!(
        report,
        ClockInstall { retire: InvalidateAction::Nothing, start_timer: true, error: None }
    );
    assert_eq!(view.clock_phase(), ClockPhase::Running);
}

#[test]
fn replacing_a_running_clock_retires_it() {
    let mut view = RustMetalView::new(true);
    view.install_display_link(Ok(running_clock()));
    let report = view.install_display_link(
        CoreAnimDisplayLink::display_link_with_target_and_selector(true, 0, 0),
    );
    assert_eq!(
        report,
        ClockInstall { retire: InvalidateAction::StopAndRelease, start_timer: true, error: None }
    );
    assert_eq!(view.clock_phase(), ClockPhase::Running);
}

#[test]
fn failed_clock_leaves_the_view_without_animation() {
    let mut view = RustMetalView::new(true);
    view.install_display_link(Ok(running_clock()));
    let report = view.install_display_link(
        CoreAnimDisplayLink::display_link_with_target_and_selector(false, -6661, 0),
    );
    assert_eq!(
        report,
        ClockInstall {
            retire: InvalidateAction::StopAndRelease,
            start_timer: false,
            error: Some(CoreAnimError::FailedToConnectToDisplay(-6661)),
        }
    );
    assert_eq!(view.clock_phase(), ClockPhase::Detached);
    assert_eq!(view.display_link_did_fire(true), TickAction::Ignored);
}

#[test]
fn tick_renders_only_with_clock_renderer_and_drawable() {
    let mut view = RustMetalView::new(true);
    view.install_display_link(CoreAnimDisplayLink::display_link_with_target_and_selector(
        true, 0, 0,
    ));
    assert_eq!(view.display_link_did_fire(true), TickAction::Render);
    assert_eq!(view.display_link_did_fire(false), TickAction::SkipFrame);

    let mut blank = RustMetalView::new(false);
    blank.install_display_link(CoreAnimDisplayLink::display_link_with_target_and_selector(
        true, 0, 0,
    ));
    assert_eq!(blank.display_link_did_fire(true), TickAction::Disabled);
    assert_eq!(blank.display_link_did_fire(false), TickAction::Disabled);
}

#[test]
fn tick_calls_the_delegate_in_order() {
    assert_eq!(
        TickAction::Render.delegate_calls(),
        vec![DelegateCall::UpdateTimeAndRotation, DelegateCall::DrawInView]
    );
    assert!(TickAction::SkipFrame.delegate_calls().is_empty());
    assert!(TickAction::Ignored.delegate_calls().is_empty());
    assert!(TickAction::Disabled.delegate_calls().is_empty());
}

#[test]
fn no_tick_after_dealloc() {
    let mut view = RustMetalView::new(true);
    view.install_display_link(CoreAnimDisplayLink::display_link_with_target_and_selector(
        true, 0, 0,
    ));
    assert_eq!(view.dealloc(), InvalidateAction::StopAndRelease);
    assert_eq!(view.display_link_did_fire(true), TickAction::Ignored);
    assert_eq!(view.dealloc(), InvalidateAction::Nothing);
}

#[test]
fn redraw_does_not_need_a_clock() {
    let view = RustMetalView::new(true);
    assert_eq!(view.redraw(true), TickAction::Render);
    assert_eq!(view.redraw(false), TickAction::SkipFrame);
    let blank = RustMetalView::new(false);
    assert_eq!(blank.redraw(true), TickAction::Disabled);
}

#[test]
fn rate_of_the_view_goes_to_the_next_clock() {
    let mut view = RustMetalView::new(true);
    view.set_preferred_frames_per_second(30);
    assert_eq!(view.get_preferred_frames_per_second(), 30);
    let report = view.install_display_link(
        CoreAnimDisplayLink::display_link_with_target_and_selector(true, 0, 0),
    );
    assert!(report.start_timer);
    assert_eq!(view.clock_phase(), ClockPhase::Running);
}
