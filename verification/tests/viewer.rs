use riv::frame_schedule::{
    schedule_repaint, strip_loading, ControlBar, FrameActivity, HideTimer, IdleClock, Repaint,
};
use riv::input_actions::{
    click_zone, ctrl_scroll_zoom_is_bound, enter_toggles_fullscreen, handle_input,
    navigation_keys, right_click_black_bar_action, run_action, Action, ActionEffect, ArrowKeys,
    ArrowPress, ClickZone, InputBinding, InputCommand, InputFrame, KeyCode, PointerPlace,
    ViewerContext, ZoomManner,
};
use riv::manga_loader::MangaMediaType;
use riv::media_switch::{
    animated_image_label, compute_window_title, filename_needs_cjk_fonts, index_of_path,
    manga_media_type_for_current_media, plan_media_switch, startup_ready_to_show,
    strip_entry_placeholder, StartupProgress, WindowTracker,
};
use riv::navigation::{
    circular_index_distance, first_image, last_image, next_image, prev_image, Navigate,
    NavigationStep,
};
use riv::overlays::MediaType;
use riv::seek_bar::{
    shown_frame_count, strip_controls, FrameSeek, SeekFrame, SoundChoice, StripControls, VideoSeek,
};
use riv::solo_playback::{texture_is_stale, tick_video, SoloAnimation};
use riv::solo_pointer::{
    picture_settles, solo_wheel_zoom, DragStep, ResizeStep, SoloPointer, SoloPointerFrame,
};
use riv::strip_animation::FrameDue;
use riv::texture_plan::ZOOM_100;
use riv::view_memory::{FullscreenViewState, ViewMemory};
use riv::window_mode::{
    draw_image, layout_after_change, layout_when_sized, media_display_dimensions,
    tick_pending_resize, FullscreenSession, FullscreenStep, LayoutStep, PendingResize, SoloFacts,
    SoloPicture, WindowMode,
};
use riv::window_resize::{
    get_resize_cursor, get_resize_direction, resize_floating_keep_aspect, EdgeZones, Growth,
    ResizeCursor, ResizeDirection,
};
use riv::zoom_hold::ZoomDirection;

#[test]
fn files_follow_each_other_around_the_ends() {
    assert_eq!(next_image(2, 3, false), NavigationStep::Open(0));
    assert_eq!(next_image(0, 3, false), NavigationStep::Open(1));
    assert_eq!(prev_image(0, 3, false), NavigationStep::Open(2));
    assert_eq!(next_image(0, 3, true), NavigationStep::ScrollTo(1));
    assert_eq!(prev_image(2, 3, true), NavigationStep::ScrollTo(1));
    assert_eq!(next_image(0, 0, false), NavigationStep::Stay);
    assert_eq!(first_image(0, 3, false), NavigationStep::Stay);
    assert_eq!(first_image(2, 3, false), NavigationStep::Open(0));
    assert_eq!(first_image(0, 3, true), NavigationStep::StripStart);
    assert_eq!(last_image(2, 3, false), NavigationStep::Stay);
    assert_eq!(last_image(0, 3, false), NavigationStep::Open(2));
    assert_eq!(last_image(0, 3, true), NavigationStep::StripEnd);
    assert_eq!(circular_index_distance(0, 9, 10), 1);
    assert_eq!(circular_index_distance(2, 7, 10), 5);
    assert_eq!(circular_index_distance(2, 99, 10), 3);
    assert_eq!(circular_index_distance(2, 0, 1), 0);
}

fn view(zoom: u32, rotation_steps: u8) -> FullscreenViewState {
    FullscreenViewState {
        zoom_bits: zoom,
        zoom_target_bits: zoom,
        offset_x_bits: 0,
        offset_y_bits: 0,
        rotation_steps,
    }
}

#[test]
fn views_are_remembered_per_file() {
    let mut memory = ViewMemory::new();
    memory.save_current_fullscreen_view_state(false, Some("a"), true, view(1, 0));
    assert_eq!(memory.get("a"), None);
    memory.save_current_fullscreen_view_state(true, Some("a"), true, view(1, 0));
    memory.save_current_fullscreen_view_state(true, Some("b"), true, view(2, 0));
    assert_eq!(memory.restore_fullscreen_view_state(true, "a"), Some(view(1, 0)));
    assert_eq!(memory.restore_fullscreen_view_state(false, "a"), None);
    memory.update_fullscreen_rotation(true, Some("a"), false, view(9, 0));
    assert_eq!(memory.get("a"), Some(view(1, 3)));
    // The rotation survives a new zoom.
    memory.save_current_fullscreen_view_state(true, Some("a"), true, view(5, 0));
    assert_eq!(memory.get("a"), Some(view(5, 3)));
    memory.update_fullscreen_rotation(true, Some("a"), true, view(9, 0));
    assert_eq!(memory.get("a"), Some(view(5, 0)));
    memory.update_fullscreen_rotation(true, Some("c"), true, view(9, 0));
    assert_eq!(memory.get("c"), Some(view(9, 1)));
    memory.save_current_fullscreen_view_state(true, Some("c"), false, view(9, 0));
    assert_eq!(memory.get("c"), Some(view(9, 0)));
    assert_eq!(memory.get("b"), Some(view(2, 0)));
    memory.update_fullscreen_rotation(true, None, true, view(9, 0));
}

#[test]
fn a_switch_keeps_a_fitting_picture() {
    let plan = plan_media_switch(Some(MediaType::Video), Some(MediaType::Video), None);
    assert!(plan.keep_video_texture && !plan.use_placeholder && !plan.keep_image_texture);
    let plan = plan_media_switch(Some(MediaType::Video), Some(MediaType::Image), None);
    assert!(!plan.keep_video_texture);
    let plan = plan_media_switch(
        Some(MediaType::Video),
        Some(MediaType::Image),
        Some(MediaType::Image),
    );
    assert!(plan.use_placeholder && plan.keep_image_texture && !plan.keep_video_texture);
    let plan = plan_media_switch(None, Some(MediaType::Image), Some(MediaType::Video));
    assert!(!plan.use_placeholder && !plan.keep_image_texture && !plan.keep_video_texture);
    let plan = plan_media_switch(Some(MediaType::Video), None, None);
    assert!(!plan.keep_video_texture);
    let list = vec!["a".to_string(), "b".to_string()];
    assert_eq!(index_of_path(&list, "b"), 1);
    assert_eq!(index_of_path(&list, "c"), 0);
}

#[test]
fn the_window_appears_when_it_is_ready() {
    let progress = StartupProgress {
        has_error: false,
        media_type: Some(MediaType::Video),
        image_loaded: false,
        dimensions_known: true,
        layout_pending: false,
        video_frame_ready: true,
        hidden_nanos: 0,
    };
    assert!(startup_ready_to_show(&progress));
    let waiting = StartupProgress { layout_pending: true, ..progress };
    assert!(!startup_ready_to_show(&waiting));
    let late = StartupProgress { hidden_nanos: 2_000_000_001, layout_pending: true, ..waiting };
    assert!(startup_ready_to_show(&late));
    assert!(startup_ready_to_show(&StartupProgress { has_error: true, hidden_nanos: 0, ..late }));
    let image = StartupProgress {
        has_error: false,
        media_type: Some(MediaType::Image),
        image_loaded: false,
        dimensions_known: false,
        layout_pending: false,
        video_frame_ready: false,
        hidden_nanos: 0,
    };
    assert!(!startup_ready_to_show(&image));
    assert!(startup_ready_to_show(&StartupProgress { media_type: None, ..image }));
}

#[test]
fn files_are_named() {
    assert!(filename_needs_cjk_fonts("a\u{4e2d}.png"));
    assert!(filename_needs_cjk_fonts("\u{ac00}"));
    assert!(!filename_needs_cjk_fonts("plain \u{e9}.png"));
    assert!(!filename_needs_cjk_fonts(""));
    assert_eq!(compute_window_title("x.png"), "Image & Video Viewer - x.png");
    assert_eq!(compute_window_title(""), "Image & Video Viewer");
    assert_eq!(animated_image_label(Some("WebP")), "WEBP");
    assert_eq!(animated_image_label(Some("webpx")), "GIF");
    assert_eq!(animated_image_label(Some("gif")), "GIF");
    assert_eq!(animated_image_label(None), "GIF");
    assert_eq!(
        manga_media_type_for_current_media(MediaType::Image, true),
        MangaMediaType::AnimatedImage
    );
    assert_eq!(
        manga_media_type_for_current_media(MediaType::Image, false),
        MangaMediaType::StaticImage
    );
    assert_eq!(
        manga_media_type_for_current_media(MediaType::Video, false),
        MangaMediaType::Video
    );
    assert_eq!(strip_entry_placeholder(Some(MediaType::Image), true, false, 4), Some(4));
    assert_eq!(strip_entry_placeholder(Some(MediaType::Image), false, true, 4), None);
    assert_eq!(strip_entry_placeholder(Some(MediaType::Video), false, true, 4), Some(4));
    assert_eq!(strip_entry_placeholder(None, true, true, 4), None);
}

#[test]
fn the_viewers_own_moves_do_not_count() {
    let mut tracker = WindowTracker { suppressed_frames: 0, user_moved: false };
    tracker.send_outer_position();
    tracker.track_floating_window_position(false, true);
    tracker.track_floating_window_position(false, true);
    assert!(!tracker.user_moved);
    tracker.track_floating_window_position(true, true);
    assert!(!tracker.user_moved);
    tracker.track_floating_window_position(false, false);
    assert!(!tracker.user_moved);
    tracker.track_floating_window_position(false, true);
    assert!(tracker.user_moved);
}

fn frame() -> InputFrame {
    InputFrame {
        ctrl: false,
        shift: false,
        alt: false,
        pressed: Vec::new(),
        primary_clicked: false,
        secondary_clicked: false,
        middle_pressed: false,
        extra1_pressed: false,
        extra2_pressed: false,
        scrolled_up: false,
        scrolled_down: false,
        pointer: None,
        pointer_blocked: false,
        hover_zone: None,
    }
}

fn context() -> ViewerContext {
    ViewerContext {
        manga_mode: false,
        fullscreen: false,
        autoscroll_active: false,
        has_strip_return: false,
        strip_item_open: InputBinding::MouseRight,
    }
}

fn strip() -> ViewerContext {
    ViewerContext { manga_mode: true, fullscreen: true, ..context() }
}

#[test]
fn keys_call_for_their_actions() {
    let bindings = vec![
        (InputBinding::Key(KeyCode::ArrowRight), Action::NextImage),
        (InputBinding::KeyWithCtrl(KeyCode::Other(7)), Action::Exit),
        (InputBinding::Mouse4, Action::PreviousImage),
        (InputBinding::ScrollUp, Action::ZoomIn),
        (InputBinding::ScrollUp, Action::NextImage),
    ];
    let pressed = InputFrame { pressed: vec![KeyCode::ArrowRight], ..frame() };
    let (command, actions) = handle_input(&bindings, &pressed, &context());
    assert_eq!(command, InputCommand::RunActions { toggle_media: false });
    assert_eq!(actions, vec![Action::NextImage]);
    // In a strip the arrow keys scroll.
    assert_eq!(handle_input(&bindings, &pressed, &strip()).1, Vec::<Action>::new());
    let with_ctrl =
        InputFrame { ctrl: true, pressed: vec![KeyCode::Other(7), KeyCode::ArrowRight], ..frame() };
    assert_eq!(handle_input(&bindings, &with_ctrl, &context()).1, vec![Action::Exit]);
    let wheel = InputFrame { scrolled_up: true, extra1_pressed: true, ..frame() };
    assert_eq!(
        handle_input(&bindings, &wheel, &context()).1,
        vec![Action::PreviousImage, Action::NextImage]
    );
    assert_eq!(handle_input(&bindings, &wheel, &strip()).1, vec![Action::PreviousImage]);
}

fn right_click(zone: ClickZone) -> InputFrame {
    InputFrame {
        secondary_clicked: true,
        pointer: Some(PointerPlace { zone, bar_action: None }),
        hover_zone: Some(zone),
        ..frame()
    }
}

#[test]
fn right_clicks_go_by_their_place() {
    let none = Vec::new();
    assert_eq!(
        handle_input(&none, &right_click(ClickZone::Left), &context()),
        (InputCommand::RunActions { toggle_media: false }, vec![Action::PreviousImage])
    );
    assert_eq!(
        handle_input(&none, &right_click(ClickZone::Right), &context()).1,
        vec![Action::NextImage]
    );
    assert_eq!(
        handle_input(&none, &right_click(ClickZone::Center), &context()).0,
        InputCommand::ToggleFullscreen
    );
    let back = ViewerContext { fullscreen: true, has_strip_return: true, ..context() };
    assert_eq!(
        handle_input(&none, &right_click(ClickZone::Center), &back).0,
        InputCommand::ReturnToStrip
    );
    assert_eq!(
        handle_input(&none, &right_click(ClickZone::Center), &strip()).0,
        InputCommand::OpenStripItem
    );
    let by_key = ViewerContext { strip_item_open: InputBinding::Key(KeyCode::Enter), ..strip() };
    assert_eq!(
        handle_input(&none, &right_click(ClickZone::Center), &by_key).0,
        InputCommand::RunActions { toggle_media: true }
    );
    let beside = InputFrame {
        pointer: Some(PointerPlace {
            zone: ClickZone::Center,
            bar_action: Some(Action::NextImage),
        }),
        ..right_click(ClickZone::Center)
    };
    assert_eq!(handle_input(&none, &beside, &context()).1, vec![Action::NextImage]);
    let blocked = InputFrame {
        pointer_blocked: true,
        hover_zone: None,
        ..right_click(ClickZone::Left)
    };
    assert_eq!(
        handle_input(&none, &blocked, &context()),
        (InputCommand::RunActions { toggle_media: false }, vec![])
    );
    let stopping = ViewerContext { autoscroll_active: true, ..context() };
    assert_eq!(
        handle_input(&none, &right_click(ClickZone::Left), &stopping).1,
        Vec::<Action>::new()
    );
    assert_eq!(click_zone(5, 10, 90), ClickZone::Left);
    assert_eq!(click_zone(10, 10, 90), ClickZone::Center);
    assert_eq!(click_zone(91, 10, 90), ClickZone::Right);
    assert_eq!(
        right_click_black_bar_action(5, 10, 90, true, true),
        Some(Action::PreviousImage)
    );
    assert_eq!(right_click_black_bar_action(95, 10, 90, true, true), Some(Action::NextImage));
    assert_eq!(right_click_black_bar_action(5, 10, 90, false, true), None);
    assert_eq!(right_click_black_bar_action(50, 10, 90, true, true), None);
}

#[test]
fn free_keys_page_through_files() {
    let keys = InputFrame {
        pressed: vec![KeyCode::End, KeyCode::PageUp, KeyCode::Enter],
        ..frame()
    };
    assert_eq!(navigation_keys(&Vec::new(), &keys), vec![Navigate::Previous, Navigate::Last]);
    let bound = vec![
        (InputBinding::Key(KeyCode::End), Action::Exit),
        (InputBinding::Key(KeyCode::Enter), Action::Exit),
    ];
    assert_eq!(navigation_keys(&bound, &keys), vec![Navigate::Previous]);
    assert!(enter_toggles_fullscreen(&Vec::new(), &keys));
    assert!(!enter_toggles_fullscreen(&bound, &keys));
    assert!(ctrl_scroll_zoom_is_bound(&vec![(InputBinding::CtrlScrollUp, Action::MangaZoomIn)]));
    assert!(!ctrl_scroll_zoom_is_bound(&vec![(InputBinding::CtrlScrollUp, Action::ZoomOut)]));
    let mut arrows = ArrowKeys { left_was_down: false, right_was_down: false };
    assert_eq!(
        arrows.frame(true, true, false, false),
        (ArrowPress::Tap, ArrowPress::Nothing)
    );
    assert_eq!(arrows.frame(true, true, true, true), (ArrowPress::Hold, ArrowPress::Tap));
}

#[test]
fn actions_have_their_effects() {
    let run = |action| run_action(action, true, true, false, false);
    assert_eq!(run(Action::Exit), ActionEffect::Exit);
    assert_eq!(run(Action::ToggleFullscreen), ActionEffect::ToggleFullscreen);
    assert_eq!(run(Action::NextImage), ActionEffect::Navigate(Navigate::Next));
    assert_eq!(run(Action::RotateClockwise), ActionEffect::Nothing);
    assert_eq!(run(Action::ResetZoom), ActionEffect::ResetZoom { at_once: true });
    assert_eq!(
        run(Action::ZoomIn),
        ActionEffect::Zoom { direction: ZoomDirection::In, manner: ZoomManner::Strip }
    );
    assert_eq!(run(Action::VideoMute), ActionEffect::Nothing);
    assert_eq!(
        run_action(Action::RotateCounterClockwise, false, false, true, true),
        ActionEffect::Rotate { clockwise: false }
    );
    assert_eq!(
        run_action(Action::ZoomOut, false, false, true, true),
        ActionEffect::Zoom { direction: ZoomDirection::Out, manner: ZoomManner::Gradual }
    );
    assert_eq!(
        run_action(Action::ZoomOut, true, false, true, true),
        ActionEffect::Zoom { direction: ZoomDirection::Out, manner: ZoomManner::AtOnce }
    );
    assert_eq!(
        run_action(Action::VideoPlayPause, false, false, false, true),
        ActionEffect::PlayPause
    );
    assert_eq!(run_action(Action::VideoMute, false, false, false, true), ActionEffect::Mute);
    assert_eq!(
        run_action(Action::MangaZoomIn, true, true, true, true),
        ActionEffect::Nothing
    );
}

fn seek() -> SeekFrame {
    SeekFrame {
        held_on_bar: false,
        clicked: false,
        primary_down: false,
        primary_released: false,
        position: Some(7),
        position_changed: true,
        playing: true,
        now: 1_000_000_000,
    }
}

#[test]
fn dragging_the_seek_bar_pauses_and_goes_on() {
    let mut state = VideoSeek::new();
    let begin = state.frame(&SeekFrame { held_on_bar: true, primary_down: true, ..seek() });
    assert!(begin.pause && begin.repaint);
    assert_eq!(begin.seek, Some(7));
    // Too soon for another one.
    let soon = SeekFrame {
        held_on_bar: true,
        primary_down: true,
        position: Some(8),
        now: 1_049_999_999,
        playing: false,
        ..seek()
    };
    assert_eq!(state.frame(&soon).seek, None);
    assert_eq!(state.shown_position(1), 8);
    assert_eq!(state.frame(&SeekFrame { now: 1_050_000_000, ..soon }).seek, Some(8));
    let end = state.frame(&SeekFrame { primary_released: true, now: 2_000_000_000, ..seek() });
    assert_eq!(end.settle, Some(8));
    assert!(end.play);
    assert_eq!(state.shown_position(1), 1);
    let click = state.frame(&SeekFrame { clicked: true, ..seek() });
    assert_eq!(click.seek, Some(7));
    assert!(!click.pause && !click.play);
}

#[test]
fn animations_are_sought_by_frame() {
    let mut state = FrameSeek::new();
    assert_eq!(state.frame(true, false, true, false, Some(3)), Some(3));
    assert_eq!(state.preview, Some(3));
    assert_eq!(state.frame(false, false, false, true, Some(4)), None);
    assert_eq!(state, FrameSeek::new());
    assert_eq!(state.frame(false, true, false, false, Some(5)), Some(5));
    assert_eq!(shown_frame_count(Some(4), 10, 1), 4);
    assert_eq!(shown_frame_count(Some(4), 10, 7), 8);
    assert_eq!(shown_frame_count(None, 0, 0), 1);
    assert_eq!(strip_controls(true, Some(MangaMediaType::Video)), StripControls::Video);
    assert_eq!(strip_controls(false, Some(MangaMediaType::Video)), StripControls::Nothing);
    assert_eq!(
        strip_controls(false, Some(MangaMediaType::AnimatedImage)),
        StripControls::Animation
    );
    assert_eq!(strip_controls(true, None), StripControls::Nothing);
    let mut sound = SoundChoice::new();
    assert_eq!(sound.for_new_video(true, 9), (true, 9));
    assert!(sound.set_volume(5, true, true));
    assert_eq!(sound.for_new_video(true, 9), (false, 5));
    sound.set_muted(true);
    assert!(!sound.set_volume(0, true, false));
    assert_eq!(sound.for_new_video(false, 9), (true, 0));
}

#[test]
fn the_next_frame_is_scheduled() {
    let idle = FrameActivity {
        resize_pending: false,
        texture_animates: false,
        drawing_animates: false,
        panning: false,
        resizing: false,
        seeking: false,
        volume_dragging: false,
        strip_loading: false,
        strip_scrolling: false,
        arrow_held: false,
    };
    assert!(!idle.is_active());
    assert!(FrameActivity { arrow_held: true, ..idle }.is_active());
    assert!(strip_loading(0, 1, 0));
    assert!(!strip_loading(0, 0, 0));
    let off = HideTimer { running: false, delay: 100, elapsed: 0 };
    let long = HideTimer { running: true, delay: 100, elapsed: 30 };
    let short = HideTimer { running: true, delay: 100, elapsed: 90 };
    let over = HideTimer { running: true, delay: 100, elapsed: 900 };
    let plan = |a: &HideTimer, b: &HideTimer| schedule_repaint(false, false, None, false, a, b);
    assert_eq!(schedule_repaint(true, true, None, true, &off, &off), Repaint::Now);
    assert_eq!(
        schedule_repaint(false, true, Some(false), true, &off, &off),
        Repaint::After(16_000_000)
    );
    assert_eq!(
        schedule_repaint(false, false, Some(false), true, &long, &off),
        Repaint::NotNeeded
    );
    assert_eq!(
        schedule_repaint(false, false, Some(true), false, &off, &off),
        Repaint::After(16_000_000)
    );
    assert_eq!(
        schedule_repaint(false, false, None, true, &off, &off),
        Repaint::After(16_000_000)
    );
    assert_eq!(plan(&off, &off), Repaint::After(86_400_000_000_000));
    assert_eq!(plan(&long, &off), Repaint::After(70));
    assert_eq!(plan(&long, &short), Repaint::After(10));
    assert_eq!(plan(&off, &over), Repaint::After(0));
    let mut clock = IdleClock { last_activity: 0, idle: false };
    clock.frame(false, 100_000_000);
    assert!(!clock.idle);
    clock.frame(false, 100_000_001);
    assert!(clock.idle);
    clock.frame(true, 200_000_000);
    assert_eq!(clock, IdleClock { last_activity: 200_000_000, idle: false });
}

#[test]
fn the_control_bar_comes_and_goes() {
    let mut bar = ControlBar { shown: false, shown_at: 0, title_dragging: false };
    assert!(bar.draw_controls(false, true, true, 5));
    assert_eq!(bar.shown_at, 5);
    assert!(bar.draw_controls(false, false, false, 6));
    bar.start_title_drag();
    assert!(bar.draw_controls(true, false, true, 7));
    assert!(!bar.draw_controls(false, false, true, 8));
}

#[test]
fn leaving_full_screen_ends_the_strip_and_forgets_the_views() {
    let view = FullscreenViewState {
        zoom_bits: 1,
        zoom_target_bits: 2,
        offset_x_bits: 3,
        offset_y_bits: 4,
        rotation_steps: 1,
    };
    let mut views = ViewMemory::new();
    views.insert("a", view);
    let mode = WindowMode { fullscreen: true, entry_index: Some(3), has_saved_window: true };
    let mut session = FullscreenSession { mode, toggle_requested: false, strip_open: true };
    assert_eq!(session.apply_toggle_request(&mut views, 3, None, None), None);
    assert!(session.strip_open && session.mode.fullscreen);
    assert_eq!(views.get("a"), Some(view));
    session.toggle_requested = true;
    let step = session.apply_toggle_request(&mut views, 3, None, None);
    assert_eq!(step, Some(FullscreenStep::Restore));
    assert!(!session.mode.fullscreen && !session.toggle_requested && !session.strip_open);
    assert_eq!(views.get("a"), None);
    // Entering forgets nothing.
    views.insert("a", view);
    session.toggle_requested = true;
    let step = session.apply_toggle_request(&mut views, 3, None, None);
    assert_eq!(step, Some(FullscreenStep::Enter));
    assert_eq!(views.get("a"), Some(view));
    views.clear();
    assert_eq!(views.get("a"), None);
}

#[test]
fn full_screen_brings_the_window_back() {
    let mut mode = WindowMode { fullscreen: false, entry_index: None, has_saved_window: false };
    assert_eq!(mode.toggle_fullscreen(3, None, None), FullscreenStep::Enter);
    assert_eq!(mode.toggle_fullscreen(3, None, None), FullscreenStep::Restore);
    mode.toggle_fullscreen(3, None, None);
    assert_eq!(mode.toggle_fullscreen(4, Some((1, 1)), None), FullscreenStep::NewSize);
    mode.toggle_fullscreen(3, None, None);
    assert_eq!(
        mode.toggle_fullscreen(4, Some((0, 1)), Some(MediaType::Video)),
        FullscreenStep::Unsized { retry: false }
    );
    mode.toggle_fullscreen(3, None, None);
    assert_eq!(
        mode.toggle_fullscreen(4, None, Some(MediaType::Video)),
        FullscreenStep::Unsized { retry: true }
    );
    let mut odd = WindowMode { fullscreen: true, entry_index: None, has_saved_window: false };
    assert_eq!(odd.toggle_fullscreen(4, None, None), FullscreenStep::FullSize);
    assert_eq!(layout_after_change(true, false, true), LayoutStep::Nothing);
    assert_eq!(layout_after_change(true, true, true), LayoutStep::Fullscreen);
    assert_eq!(layout_after_change(true, false, false), LayoutStep::Floating);
    assert_eq!(layout_after_change(false, false, false), LayoutStep::Nothing);
    assert_eq!(layout_when_sized(true, false, true), (LayoutStep::Nothing, true));
    assert_eq!(layout_when_sized(true, true, true), (LayoutStep::Fullscreen, false));
    assert_eq!(layout_when_sized(true, true, false), (LayoutStep::Floating, false));
    assert_eq!(layout_when_sized(false, true, false), (LayoutStep::Nothing, false));
    assert_eq!(tick_pending_resize(None), PendingResize::Nothing);
    assert_eq!(tick_pending_resize(Some(2)), PendingResize::Wait(1));
    assert_eq!(tick_pending_resize(Some(1)), PendingResize::Apply);
}

#[test]
fn the_picture_is_chosen() {
    let facts = SoloFacts {
        has_video_texture: false,
        video_loaded: false,
        video_size: (0, 0),
        video_texture_size: None,
        has_image_texture: false,
        image_size: None,
        image_texture_size: None,
        has_error: false,
    };
    assert_eq!(draw_image(&facts), SoloPicture::Hint);
    assert_eq!(draw_image(&SoloFacts { has_error: true, ..facts }), SoloPicture::Error);
    assert_eq!(draw_image(&SoloFacts { video_loaded: true, ..facts }), SoloPicture::Nothing);
    let video = SoloFacts {
        has_video_texture: true,
        video_texture_size: Some((3, 4)),
        has_image_texture: true,
        image_size: Some((5, 6)),
        ..facts
    };
    assert_eq!(draw_image(&video), SoloPicture::Video(3, 4));
    assert_eq!(
        draw_image(&SoloFacts { video_loaded: true, video_size: (7, 8), ..video }),
        SoloPicture::Video(7, 8)
    );
    let image = SoloFacts { has_video_texture: false, ..video };
    assert_eq!(draw_image(&image), SoloPicture::Image(5, 6));
    assert_eq!(
        draw_image(&SoloFacts { image_size: None, image_texture_size: Some((1, 2)), ..image }),
        SoloPicture::Image(1, 2)
    );
    assert_eq!(media_display_dimensions(Some((1, 2)), Some((3, 4))), Some((1, 2)));
    assert_eq!(media_display_dimensions(None, Some((3, 4))), Some((3, 4)));
    assert_eq!(media_display_dimensions(None, Some((0, 4))), None);
    assert_eq!(media_display_dimensions(None, None), None);
}

#[test]
fn windows_are_resized_by_their_edges() {
    let zones = EdgeZones { left: 10, right: 90, top: 10, bottom: 90 };
    let at = |x, y| get_resize_direction(x, y, &zones);
    assert_eq!(at(5, 5), ResizeDirection::TopLeft);
    assert_eq!(at(95, 5), ResizeDirection::TopRight);
    assert_eq!(at(5, 95), ResizeDirection::BottomLeft);
    assert_eq!(at(95, 95), ResizeDirection::BottomRight);
    assert_eq!(at(5, 50), ResizeDirection::Left);
    assert_eq!(at(95, 50), ResizeDirection::Right);
    assert_eq!(at(50, 5), ResizeDirection::Top);
    assert_eq!(at(50, 95), ResizeDirection::Bottom);
    assert_eq!(at(50, 50), ResizeDirection::Nowhere);
    let tiny = EdgeZones { left: 60, right: 40, top: 10, bottom: 90 };
    assert_eq!(get_resize_direction(50, 5, &tiny), ResizeDirection::Nowhere);
    assert_eq!(get_resize_cursor(ResizeDirection::TopLeft), ResizeCursor::NwSe);
    assert_eq!(get_resize_cursor(ResizeDirection::TopRight), ResizeCursor::NeSw);
    assert_eq!(get_resize_cursor(ResizeDirection::Left), ResizeCursor::Horizontal);
    assert_eq!(get_resize_cursor(ResizeDirection::Bottom), ResizeCursor::Vertical);
    assert_eq!(get_resize_cursor(ResizeDirection::Nowhere), ResizeCursor::Default);
    assert!(resize_floating_keep_aspect(ResizeDirection::Nowhere).is_none());
    let plan = resize_floating_keep_aspect(ResizeDirection::TopRight).unwrap();
    assert_eq!((plan.width, plan.height), (Growth::With, Growth::Against));
    assert!(!plan.moves_left && plan.moves_top);
    let plan = resize_floating_keep_aspect(ResizeDirection::Left).unwrap();
    assert_eq!((plan.width, plan.height), (Growth::Against, Growth::Unchanged));
    assert!(plan.moves_left && !plan.moves_top);
}

fn mouse() -> SoloPointerFrame {
    SoloPointerFrame {
        in_title: Some(false),
        primary_clicked: false,
        primary_pressed: false,
        primary_down: false,
        primary_released: false,
        middle_pressed: false,
        secondary_clicked: false,
        title_blocking: false,
        shortcut_blocking: false,
        over_video_controls: false,
        edge: ResizeDirection::Nowhere,
        drag_blocked: false,
        fullscreen: false,
        picture_exceeds_window: false,
    }
}

#[test]
fn dragging_moves_the_picture_or_the_window() {
    let mut state = SoloPointer::new();
    let down = SoloPointerFrame { primary_down: true, ..mouse() };
    assert_eq!(state.frame(&down).drag, DragStep::Grab);
    assert_eq!(state.frame(&down).drag, DragStep::MoveWindow);
    let large = SoloPointerFrame { picture_exceeds_window: true, ..down };
    assert_eq!(state.frame(&large).drag, DragStep::MovePicture);
    assert_eq!(
        state.frame(&SoloPointerFrame { fullscreen: true, ..down }).drag,
        DragStep::MovePicture
    );
    state.frame(&mouse());
    assert!(!state.panning);
    let title = SoloPointerFrame { in_title: Some(true), ..large };
    state.frame(&title);
    assert_eq!(state.frame(&title).drag, DragStep::MoveWindow);
}

#[test]
fn an_edge_resizes_until_release() {
    let mut state = SoloPointer::new();
    let press = SoloPointerFrame {
        edge: ResizeDirection::Left,
        primary_pressed: true,
        primary_down: true,
        ..mouse()
    };
    let start = state.frame(&press);
    assert!(start.resize_started);
    assert_eq!(start.resize, ResizeStep::Continue(ResizeDirection::Left));
    let away = state.frame(&SoloPointerFrame { primary_down: true, ..mouse() });
    assert_eq!(away.resize, ResizeStep::Continue(ResizeDirection::Left));
    assert_eq!(away.drag, DragStep::Nothing);
    let end = state.frame(&SoloPointerFrame { primary_released: true, ..mouse() });
    assert_eq!(end.resize, ResizeStep::Finish);
    assert_eq!(state, SoloPointer::new());
}

#[test]
fn the_picture_moves_by_itself_until_a_click() {
    let mut state = SoloPointer::new();
    let start = state.frame(&SoloPointerFrame { middle_pressed: true, ..mouse() });
    assert!(start.autoscroll_started && start.autoscroll_moves && start.active);
    let click = state.frame(&SoloPointerFrame {
        primary_clicked: true,
        primary_down: true,
        ..mouse()
    });
    assert_eq!(click.drag, DragStep::Nothing);
    assert!(!state.autoscroll);
    let wheel = |ctrl, delta, steps, scroll| solo_wheel_zoom(true, false, ctrl, delta, steps, scroll);
    assert_eq!(wheel(false, ZOOM_100, 0, 5), Some(ZoomDirection::In));
    assert_eq!(wheel(false, ZOOM_100, 0, -5), Some(ZoomDirection::Out));
    assert_eq!(wheel(true, ZOOM_100, -5, 5), Some(ZoomDirection::Out));
    assert_eq!(wheel(true, ZOOM_100 + 1, 0, -5), Some(ZoomDirection::In));
    assert_eq!(wheel(false, ZOOM_100, 0, 0), None);
    assert_eq!(solo_wheel_zoom(false, false, false, ZOOM_100, 0, 5), None);
    assert_eq!(solo_wheel_zoom(true, true, false, ZOOM_100, 0, 5), None);
    assert!(picture_settles(false, false, false, false, false, false, true));
    assert!(!picture_settles(false, false, false, false, false, true, true));
}

#[test]
fn a_solo_animation_waits_for_frames() {
    let mut animation = SoloAnimation { frames: 1, current: 0, done: false };
    assert!(animation.frame_arrived(true));
    assert!(!animation.frame_arrived(false));
    assert_eq!(animation.frames, 2);
    assert!(animation.may_advance(false, false));
    animation.current = 1;
    assert!(!animation.may_advance(false, false));
    animation.stream_ended();
    assert!(animation.may_advance(false, false));
    assert!(!animation.may_advance(true, false));
    assert!(!animation.may_advance(false, true));
    assert_eq!(animation.next_frame_due(false, false, 10, 4), FrameDue::After(6));
    assert_eq!(animation.next_frame_due(false, false, 10, 10), FrameDue::Now);
    assert_eq!(animation.next_frame_due(false, true, 10, 10), FrameDue::Never);
    assert!(texture_is_stale(None, false, 0));
    assert!(texture_is_stale(Some(1), false, 0));
    assert!(texture_is_stale(Some(0), true, 0));
    assert!(!texture_is_stale(Some(0), false, 0));
    let tick = tick_video(true, true, false, true, false);
    assert!(tick.restart && tick.repaint && tick.poll);
    let tick = tick_video(false, true, false, false, true);
    assert!(!tick.restart && tick.repaint && !tick.poll);
}
