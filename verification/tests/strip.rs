use riv::coordinate::Coordinate;
use riv::manga_loader::{LoadTarget, MangaLoader, MangaMediaType, PageKind, PageSource};
use riv::masonry_columns::MasonryColumns;
use riv::overlays::MediaType;
use riv::page_drawing::{
    draw_manga_item, manga_retry_side_for_visible_item, PageFacts, PageIcon, PagePicture,
};
use riv::scaling::ResizeFilter;
use riv::strip_animation::{FrameDue, StripAnimations};
use riv::strip_focus::{
    manga_evict_distant_video_players, manga_get_focused_animated_index,
    manga_get_focused_media_index, manga_is_video_or_animated, masonry_index_at_y, nearest_page,
    prepare_mode_switch_placeholder_from_manga_index, FocusCandidate, SizedTexture, VideoFocus,
    VideoFocusStep, FARTHEST,
};
use riv::strip_geometry::{
    collect_visible, index_at_screen_pos, manga_calculate_visible_page_count, manga_index_at_y,
    shortest_column, PlacedPage, Span,
};
use riv::strip_mode::{
    clamp_columns, masonry_layout_is_stale, navigation_preload_window,
    open_strip_item_in_solo_fullscreen, return_to_strip_mode_from_middle_click,
    set_masonry_items_per_row, toggle_strip_mode, MangaLayoutMode, MasonryReturn, ReturnStep,
    StripRelease, StripReturn, StripToggle,
};
use riv::strip_paging::{
    manga_page_down, manga_page_down_smooth, manga_page_down_smooth_continuous, manga_page_up,
    manga_page_up_smooth, manga_page_up_smooth_continuous, page_down_origin, page_up_origin,
    prime_around, prime_end, prime_start, tick_preload_cooldown, PageTurn,
};
use riv::strip_pointer::{
    wheel_intent, wheel_pushes_against_end, StripPointer, StripPointerFrame, WheelIntent,
};
use riv::texture_plan::ZOOM_100;
use riv::zoom_hold::{zoom_change, ZoomChange, ZoomDirection, ZoomHold};

fn at(value: f32) -> Coordinate {
    riv::coordinate::coordinate_from_bits(value.to_bits()).unwrap()
}

fn candidates(distances: &[f32]) -> Vec<FocusCandidate> {
    distances
        .iter()
        .enumerate()
        .map(|(page, d)| FocusCandidate { page, distance: at(*d) })
        .collect()
}

#[test]
fn nearest_page_has_the_focus() {
    assert_eq!(nearest_page(&candidates(&[3.0, 1.0, 2.0, 1.0])), Some(1));
    assert_eq!(nearest_page(&candidates(&[])), None);
    assert_eq!(nearest_page(&candidates(&[f32::MAX, f32::INFINITY])), None);
    assert_eq!(at(f32::MAX), FARTHEST);
    let none = candidates(&[]);
    let near = candidates(&[3.0, 1.0]);
    assert_eq!(manga_get_focused_media_index(true, &near, &none, 0, 9), 1);
    assert_eq!(manga_get_focused_media_index(true, &none, &none, 12, 9), 8);
    // Without a strip or without pages the current page stays as it is.
    assert_eq!(manga_get_focused_media_index(true, &near, &none, 3, 0), 3);
    assert_eq!(manga_get_focused_media_index(false, &near, &near, 12, 9), 12);
    // A wall that was moved off the screen: the page nearest in height.
    let all = candidates(&[9.0, 4.0, 7.0]);
    assert_eq!(manga_get_focused_media_index(true, &none, &all, 0, 3), 1);
    assert_eq!(manga_get_focused_media_index(true, &candidates(&[5.0]), &all, 2, 3), 0);
    assert_eq!(masonry_index_at_y(&none, &none, 3, 0), 0);
    assert_eq!(masonry_index_at_y(&candidates(&[5.0]), &candidates(&[9.0, 1.0]), 0, 2), 0);
    assert_eq!(masonry_index_at_y(&candidates(&[]), &candidates(&[9.0, 1.0]), 0, 2), 1);
}

#[test]
fn only_the_focused_video_plays() {
    let mut focus = VideoFocus { page: None };
    assert_eq!(focus.manga_update_video_focus(4, true, false), VideoFocusStep::Create(4));
    assert_eq!(focus.manga_update_video_focus(4, true, true), VideoFocusStep::Nothing);
    assert_eq!(focus.manga_update_video_focus(5, true, true), VideoFocusStep::Resume(5));
    assert_eq!(focus.manga_update_video_focus(6, false, false), VideoFocusStep::PauseAll);
    assert_eq!(focus.manga_update_video_focus(6, false, false), VideoFocusStep::Nothing);
    assert_eq!(
        manga_get_focused_animated_index(3, Some(MangaMediaType::AnimatedImage)),
        Some(3)
    );
    assert_eq!(manga_get_focused_animated_index(3, Some(MangaMediaType::Video)), None);
    assert!(manga_is_video_or_animated(Some(MangaMediaType::Video)));
    assert!(!manga_is_video_or_animated(Some(MangaMediaType::StaticImage)));
    assert!(!manga_is_video_or_animated(None));
}

#[test]
fn furthest_players_go_first_and_the_focused_one_stays() {
    assert_eq!(
        manga_evict_distant_video_players(&vec![10, 2, 11, 30], 10, 2),
        vec![30, 2]
    );
    assert_eq!(manga_evict_distant_video_players(&vec![10, 2], 10, 2), Vec::<usize>::new());
    assert_eq!(manga_evict_distant_video_players(&vec![10, 2], 10, 0), vec![2]);
}

#[test]
fn pages_are_found_by_position() {
    let starts = vec![at(0.0), at(100.0), at(250.0)];
    let page = |y: f32| manga_index_at_y(&starts, at(400.0), Some(at(y)));
    assert_eq!(page(0.0), 0);
    assert_eq!(page(99.9), 0);
    assert_eq!(page(100.0), 1);
    assert_eq!(page(399.0), 2);
    assert_eq!(page(9999.0), 2);
    assert_eq!(page(-5.0), 0);
    assert_eq!(manga_index_at_y(&starts, at(400.0), None), 0);

    let spans: Vec<Span> = [(0.0, 100.0), (100.0, 250.0), (250.0, 400.0)]
        .iter()
        .map(|(t, b)| Span { top: at(*t), bottom: at(*b) })
        .collect();
    assert_eq!(collect_visible(&spans, 10, at(100.0), at(260.0)), vec![11, 12]);
    assert_eq!(manga_calculate_visible_page_count(&spans, 10, at(100.0), at(260.0)), 2);
    assert_eq!(manga_calculate_visible_page_count(&spans, 10, at(900.0), at(960.0)), 1);

    let placed = vec![
        PlacedPage { left: at(0.0), top: at(0.0), right: at(10.0), bottom: at(10.0) },
        PlacedPage { left: at(10.0), top: at(0.0), right: at(20.0), bottom: at(10.0) },
    ];
    assert_eq!(index_at_screen_pos(&placed, at(10.0), at(5.0)), Some(0));
    assert_eq!(index_at_screen_pos(&placed, at(15.0), at(5.0)), Some(1));
    assert_eq!(index_at_screen_pos(&placed, at(15.0), at(11.0)), None);
}

#[test]
fn pages_go_to_the_shortest_column() {
    assert_eq!(shortest_column(&vec![3, 1, 1, 2]), 1);
    let mut columns = MasonryColumns::new(2, 10);
    assert_eq!(columns.next_column(), 0);
    columns.place(0, 50);
    assert_eq!(columns.next_column(), 1);
    columns.place(1, 30);
    assert_eq!(columns.next_column(), 1);
    columns.place(1, 60);
    assert_eq!(columns.next_column(), 0);
    assert_eq!(columns.content_end(10), 60);
    assert_eq!(columns.content_end(99), 99);
}

#[test]
fn layouts_are_toggled_and_left() {
    assert_eq!(toggle_strip_mode(false, MangaLayoutMode::LongStrip, MangaLayoutMode::Masonry), StripToggle::Enter);
    assert_eq!(toggle_strip_mode(true, MangaLayoutMode::Masonry, MangaLayoutMode::Masonry), StripToggle::Leave);
    assert_eq!(toggle_strip_mode(true, MangaLayoutMode::LongStrip, MangaLayoutMode::Masonry), StripToggle::Relayout);
    assert_eq!(clamp_columns(0), 2);
    assert_eq!(clamp_columns(99), 10);
    assert_eq!(set_masonry_items_per_row(5, 5), None);
    assert_eq!(set_masonry_items_per_row(10, 11), None);
    assert_eq!(set_masonry_items_per_row(5, 6), Some(6));
    assert_eq!(navigation_preload_window(false), (30, 60));
    assert_eq!(navigation_preload_window(true), (60, 120));
    assert!(!masonry_layout_is_stale(true, false, 5, 5, 9, 9));
    assert!(masonry_layout_is_stale(true, false, 5, 6, 9, 9));
    assert!(masonry_layout_is_stale(true, true, 5, 5, 9, 9));
    assert!(masonry_layout_is_stale(false, false, 5, 5, 9, 9));
    assert!(masonry_layout_is_stale(true, false, 5, 5, 9, 8));
}

#[test]
fn a_masonry_page_leads_back_with_its_textures() {
    let mut back = StripReturn { mode: None, masonry: None, preserve_masonry_cache: false };
    assert_eq!(
        return_to_strip_mode_from_middle_click(&back, true, false, 3, 10),
        ReturnStep::Stay
    );
    assert_eq!(
        open_strip_item_in_solo_fullscreen(&mut back, MangaLayoutMode::Masonry, true, 30, 10, 4),
        None
    );
    assert_eq!(
        open_strip_item_in_solo_fullscreen(&mut back, MangaLayoutMode::Masonry, true, 3, 100, 4),
        Some(StripRelease::Suspend)
    );
    assert_eq!(back.masonry, Some(MasonryReturn { opened_index: 3, cache_reuse_radius: 4 }));
    let step = |index| return_to_strip_mode_from_middle_click(&back, true, false, index, 100);
    assert_eq!(step(3), ReturnStep::ReuseCache(MangaLayoutMode::Masonry));
    assert_eq!(step(99), ReturnStep::ReuseCache(MangaLayoutMode::Masonry));
    assert_eq!(step(98), ReturnStep::Reenter { mode: MangaLayoutMode::Masonry, clear_cache: true });
    assert_eq!(
        return_to_strip_mode_from_middle_click(&back, false, false, 3, 100),
        ReturnStep::Stay
    );
    assert!(back.clear_strip_return_context(false));
    assert_eq!(
        open_strip_item_in_solo_fullscreen(&mut back, MangaLayoutMode::LongStrip, true, 3, 100, 4),
        Some(StripRelease::ThrowAway)
    );
    assert_eq!(
        return_to_strip_mode_from_middle_click(&back, true, false, 3, 100),
        ReturnStep::Reenter { mode: MangaLayoutMode::LongStrip, clear_cache: false }
    );
    assert!(!back.clear_strip_return_context(false));
}

#[test]
fn pages_turn_one_by_one() {
    assert_eq!(manga_page_up(0), PageTurn::Stay);
    assert_eq!(manga_page_up(5), PageTurn::GoTo(4));
    assert_eq!(manga_page_down(5, 6), PageTurn::Stay);
    assert_eq!(manga_page_down(4, 6), PageTurn::GoTo(5));
    assert_eq!(manga_page_down(0, 0), PageTurn::Stay);
    assert_eq!(page_up_origin(5, 3), 3);
    assert_eq!(page_down_origin(5, 7), 7);
    assert_eq!(manga_page_up_smooth(5, false), PageTurn::ShowTop(5));
    assert_eq!(manga_page_up_smooth(5, true), PageTurn::GoTo(4));
    assert_eq!(manga_page_down_smooth(4, 6, false), PageTurn::ShowBottom(4));
    assert_eq!(manga_page_down_smooth(4, 6, true), PageTurn::GoTo(5));
    assert_eq!(manga_page_down_smooth(4, 0, false), PageTurn::Stay);
    assert_eq!(manga_page_up_smooth_continuous(5, 2), PageTurn::GoTo(1));
    assert_eq!(manga_page_down_smooth_continuous(5, 7, 20), PageTurn::GoTo(8));
    assert_eq!(tick_preload_cooldown(0), (0, false));
    assert_eq!(tick_preload_cooldown(2), (1, false));
    assert_eq!(tick_preload_cooldown(1), (0, true));
}

#[test]
fn going_somewhere_asks_for_what_is_there() {
    let pages: Vec<PageSource> = (0..400)
        .map(|i| PageSource { path: format!("{i}"), kind: PageKind::Image })
        .collect();
    let target = LoadTarget {
        max_texture_side: 1024,
        target_texture_side: 512,
        downscale_filter: ResizeFilter::Triangle,
        gif_filter: ResizeFilter::Triangle,
        force_triangle_filters: true,
    };
    let (mut loader, worker) = MangaLoader::new();
    prime_around(&mut loader, &pages, 20, false, &target, 1);
    assert_eq!(worker.dim_requests.try_recv().unwrap().items[0].0, 0);
    assert!(loader.pending_load_count() > 0);
    prime_end(&mut loader, &pages, false);
    assert_eq!(loader.pending_load_count(), 0);
    assert_eq!(worker.dim_requests.try_recv().unwrap().items[0].0, 369);
    prime_start(&mut loader, &pages, true);
    let asked = worker.dim_requests.try_recv().unwrap();
    assert_eq!(asked.items[0].0, 0);
    assert_eq!(asked.items.len(), 64);
    let before = loader.generation();
    prime_around(&mut loader, &Vec::new(), 20, false, &target, 1);
    assert_eq!(loader.generation(), before);
}

#[test]
fn animations_arrive_one_at_a_time() {
    let mut animations = StripAnimations::new();
    assert_eq!(animations.refocus(Some(4)), Vec::<usize>::new());
    assert_eq!(animations.stream_to_start(), Some(4));
    animations.stream_started(4, Some(1));
    assert_eq!(animations.stream_to_start(), None);
    assert!(animations.is_streaming());
    animations.frame_arrived(4);
    animations.frame_shown(4, 1);
    // It waits at the last frame for the next one.
    assert!(!animations.may_advance(4, false));
    animations.frame_arrived(4);
    assert!(animations.may_advance(4, false));
    assert!(!animations.may_advance(4, true));
    assert_eq!(animations.next_frame_due(4, false, 100, 30), FrameDue::After(70));
    assert_eq!(animations.next_frame_due(4, false, 100, 130), FrameDue::Now);
    assert_eq!(animations.next_frame_due(4, true, 100, 130), FrameDue::Never);
    // Losing the focus before all frames are there starts it over.
    assert_eq!(animations.refocus(Some(9)), vec![4]);
    assert!(!animations.is_streaming());
    assert!(!animations.may_advance(4, false));
    animations.refocus(Some(4));
    assert_eq!(animations.stream_to_start(), Some(4));
    animations.stream_started(4, None);
    animations.frame_arrived(4);
    animations.stream_ended(4);
    assert!(animations.may_advance(4, false));
    assert_eq!(animations.stream_to_start(), None);
    animations.evict_distant(0, 3);
    assert!(animations.may_advance(4, false));
    animations.evict_distant(20, 25);
    assert!(!animations.may_advance(4, false));
    animations.refocus(Some(7));
    animations.stream_refused(7);
    assert_eq!(animations.stream_to_start(), None);
    animations.clear();
    assert!(!animations.is_streaming());
}

fn facts() -> PageFacts {
    PageFacts {
        is_video: false,
        has_live_frame: false,
        video_focused: false,
        video_playing: false,
        has_texture: false,
        upgrade_needed: false,
        is_entry_page: false,
        has_entry_picture: false,
        animation_focused: false,
        animation_streaming: false,
    }
}

#[test]
fn pages_are_drawn_with_what_is_at_hand() {
    let nothing = draw_manga_item(&facts());
    assert_eq!(nothing.picture, PagePicture::Placeholder);
    assert!(nothing.request && nothing.mark_placeholder);
    let entry = draw_manga_item(&PageFacts {
        is_entry_page: true,
        has_entry_picture: true,
        ..facts()
    });
    assert_eq!(entry.picture, PagePicture::EntryPicture);
    assert!(entry.request && !entry.mark_placeholder);
    let texture = draw_manga_item(&PageFacts {
        has_texture: true,
        animation_focused: true,
        animation_streaming: true,
        ..facts()
    });
    assert_eq!(texture.picture, PagePicture::Texture);
    assert!(texture.spinner && !texture.request);
    let thumbnail = draw_manga_item(&PageFacts {
        is_video: true,
        has_texture: true,
        upgrade_needed: true,
        ..facts()
    });
    assert_eq!(thumbnail.icon, PageIcon::IsVideo);
    assert!(thumbnail.request && !thumbnail.spinner);
    let live = PageFacts { is_video: true, has_live_frame: true, ..facts() };
    assert_eq!(draw_manga_item(&live).icon, PageIcon::Paused);
    assert_eq!(
        draw_manga_item(&PageFacts { video_playing: true, ..live }).icon,
        PageIcon::Playing
    );
    assert_eq!(
        draw_manga_item(&PageFacts { video_playing: true, video_focused: true, ..live }).icon,
        PageIcon::Nothing
    );
    assert_eq!(manga_retry_side_for_visible_item(Some((300, 100)), 900, 512, 4096), 512);
    assert_eq!(manga_retry_side_for_visible_item(None, 900, 512, 4096), 900);
    assert_eq!(manga_retry_side_for_visible_item(None, 10, 10, 4096), 192);
    assert_eq!(manga_retry_side_for_visible_item(None, 9000, 10, 4096), 4096);
}

#[test]
fn a_picture_bridges_the_change_to_solo_view() {
    let frame = Some(SizedTexture { texture: 1, width: 10, height: 10 });
    let page = SizedTexture { texture: 2, width: 20, height: 20 };
    let choose = |target, video, cached| {
        prepare_mode_switch_placeholder_from_manga_index(target, video, cached)
            .map(|p| (p.texture, p.media_type))
    };
    assert_eq!(choose(None, frame, None), None);
    assert_eq!(
        choose(Some(MediaType::Video), frame, Some((page, MangaMediaType::Video))),
        Some((1, MediaType::Video))
    );
    assert_eq!(
        choose(
            Some(MediaType::Video),
            Some(SizedTexture { texture: 1, width: 0, height: 10 }),
            Some((page, MangaMediaType::Video))
        ),
        Some((2, MediaType::Video))
    );
    assert_eq!(
        choose(Some(MediaType::Image), frame, Some((page, MangaMediaType::AnimatedImage))),
        Some((2, MediaType::Image))
    );
    assert_eq!(
        choose(Some(MediaType::Image), frame, Some((page, MangaMediaType::Video))),
        None
    );
}

fn pointer() -> StripPointerFrame {
    StripPointerFrame {
        has_position: true,
        primary_clicked: false,
        primary_pressed: false,
        primary_down: false,
        primary_released: false,
        primary_double_clicked: false,
        middle_pressed: false,
        secondary_clicked: false,
        over_controls: false,
        title_blocking: false,
        shortcut_blocking: false,
        open_uses_right_click: false,
        needs_scrollbar: true,
        over_scrollbar: false,
        near_scrollbar: false,
        seeking: false,
    }
}

#[test]
fn the_strip_is_dragged_and_let_go() {
    let mut state = StripPointer::new();
    let press = state.frame(&StripPointerFrame {
        primary_pressed: true,
        primary_down: true,
        ..pointer()
    });
    assert!(press.pan_started && press.pan && state.panning);
    let hold = state.frame(&StripPointerFrame { primary_down: true, ..pointer() });
    assert!(hold.pan && !hold.pan_started);
    let release = state.frame(&StripPointerFrame { primary_released: true, ..pointer() });
    assert!(!release.pan && !state.panning);
}

#[test]
fn the_scrollbar_holds_until_release() {
    let mut state = StripPointer::new();
    let press = state.frame(&StripPointerFrame {
        over_scrollbar: true,
        primary_pressed: true,
        primary_down: true,
        ..pointer()
    });
    assert!(press.scrollbar_held && press.scroll_to_pointer && !press.pan);
    assert!(!press.wheel_allowed);
    // Away from the bar it is still being dragged.
    let away = state.frame(&StripPointerFrame { primary_down: true, ..pointer() });
    assert!(away.show_scrollbar && away.scroll_to_pointer && !away.pan);
    state.frame(&StripPointerFrame { primary_released: true, ..pointer() });
    assert!(!state.dragging_scrollbar);
}

#[test]
fn the_middle_button_scrolls_by_itself() {
    let mut state = StripPointer::new();
    let start = state.frame(&StripPointerFrame { middle_pressed: true, ..pointer() });
    assert!(start.autoscroll_started && start.autoscroll_moves && start.active);
    let click = state.frame(&StripPointerFrame { secondary_clicked: true, ..pointer() });
    assert!(!click.toggle_media && !state.autoscroll);
    let click = state.frame(&StripPointerFrame { secondary_clicked: true, ..pointer() });
    assert!(click.toggle_media);
    state.frame(&StripPointerFrame { middle_pressed: true, ..pointer() });
    state.frame(&StripPointerFrame { has_position: false, ..pointer() });
    assert!(!state.autoscroll);
    let reset = state.frame(&StripPointerFrame { primary_double_clicked: true, ..pointer() });
    assert!(reset.reset_view);
}

#[test]
fn the_wheel_zooms_with_ctrl() {
    assert_eq!(wheel_intent(true, false, true, ZOOM_100, 0, at(1.0)), WheelIntent::Scroll);
    assert_eq!(wheel_intent(true, false, true, ZOOM_100, 0, 0), WheelIntent::Nothing);
    assert_eq!(
        wheel_intent(true, true, true, ZOOM_100, at(2.0), 0),
        WheelIntent::Zoom(ZoomDirection::In)
    );
    assert_eq!(
        wheel_intent(true, true, true, at(0.9), 0, 0),
        WheelIntent::Zoom(ZoomDirection::Out)
    );
    assert_eq!(
        wheel_intent(true, true, false, at(0.9), 0, at(1.0)),
        WheelIntent::Scroll
    );
    assert_eq!(wheel_intent(false, true, true, at(0.9), 0, 0), WheelIntent::Nothing);
    assert!(wheel_pushes_against_end(0, at(100.0), at(-1.0)));
    assert!(wheel_pushes_against_end(at(100.0), at(100.0), at(1.0)));
    assert!(!wheel_pushes_against_end(at(50.0), at(100.0), at(1.0)));
}

#[test]
fn a_held_zoom_button_makes_one_step_and_goes_on() {
    let mut hold = ZoomHold::new(0);
    assert!(hold.press(ZoomDirection::In, 10));
    assert!(!hold.press(ZoomDirection::In, 20));
    assert_eq!(hold.since, 10);
    assert_eq!(hold.frame(true), Some(ZoomDirection::In));
    assert!(hold.press(ZoomDirection::Out, 30));
    assert_eq!(hold.frame(false), None);
    hold.press(ZoomDirection::Out, 40);
    hold.slide();
    assert_eq!(hold.held, None);
    hold.press(ZoomDirection::Out, 50);
    assert!(!hold.show_bar(false, true, true, None));
    assert_eq!(hold.held, None);
    assert!(hold.show_bar(true, true, false, Some(MediaType::Image)));
    assert!(!hold.show_bar(true, true, false, None));
    assert_eq!(zoom_change(true, true, true), ZoomChange::AroundPoint);
    assert_eq!(zoom_change(true, false, true), ZoomChange::AroundPage);
    assert_eq!(zoom_change(false, false, true), ZoomChange::AroundMiddle);
    assert_eq!(zoom_change(true, true, false), ZoomChange::Nothing);
}
