use riv::coordinate::Coordinate;
use riv::first_view::{manga_compute_upload_batch_limit, TimeToView, UploadPressure};
use riv::manga_loader::{LoadRequest, MangaMediaType};
use riv::media_decode::{
    caps_filter, dimensions_hinted_by, fallback_video_dimensions, finished_request,
    first_frame_wait, first_video_probe, frameless_video, image_media_type, is_usable_frame,
    may_be_animated, pipeline_description, probe_video_dimensions, probe_video_dimensions_fast,
    DecodedFrame, FrameWait, PipelineEvent, VideoProbe, VideoProbeStep,
};
use riv::media_index::{DirectoryAnswer, MediaDirectoryIndex};
use riv::name_map::NameMap;
use riv::overlays::{
    mode_buttons_offset, pointer_over_shortcut_blocking_ui, BottomOverlays, MediaType,
    OverlayContext, OverlayPointer, PointerHits,
};
use riv::page_map::{page_set, PageMap};
use riv::perf_metrics::{value_from_sample, PerfMetrics};
use riv::scaling::ResizeFilter;
use riv::sorting::sorted_unique;
use riv::texture_plan::{ZOOM_100, ZOOM_50, ZOOM_75};

fn at(value: f32) -> Coordinate {
    riv::coordinate::coordinate_from_bits(value.to_bits()).unwrap()
}

#[test]
fn names_hint_at_video_sizes() {
    assert_eq!(dimensions_hinted_by("clip-vertical.mp4"), (1080, 1920));
    assert_eq!(dimensions_hinted_by("clip-4k.mp4"), (3840, 2160));
    assert_eq!(dimensions_hinted_by("clip-1440p.mp4"), (2560, 1440));
    assert_eq!(dimensions_hinted_by("clip-1080p.mp4"), (1920, 1080));
    assert_eq!(dimensions_hinted_by("clip-720p.mp4"), (1280, 720));
    assert_eq!(dimensions_hinted_by("clip-480p.mp4"), (854, 480));
    assert_eq!(dimensions_hinted_by("clip.mp4"), (1920, 1080));
    assert_eq!(fallback_video_dimensions(Some("Clip-PORTRAIT.MP4")), Some((1080, 1920)));
    assert_eq!(probe_video_dimensions_fast(Some((3, 4)), None, None), (3, 4, false));
    assert_eq!(probe_video_dimensions_fast(None, Some((3, 4)), None), (3, 4, true));
    assert_eq!(
        probe_video_dimensions_fast(None, None, Some("A-4K.mp4")),
        (3840, 2160, false)
    );
}

#[test]
fn video_sizes_are_looked_for_in_turn() {
    assert_eq!(first_video_probe(true), VideoProbe::Cache);
    assert_eq!(first_video_probe(false), VideoProbe::Container);
    let step = probe_video_dimensions(VideoProbe::Container, None);
    assert_eq!(step, VideoProbeStep::Try(VideoProbe::Cache));
    assert_eq!(
        probe_video_dimensions(VideoProbe::Cache, Some((5, 6))),
        VideoProbeStep::Found { width: 5, height: 6, store: false }
    );
    assert_eq!(
        probe_video_dimensions(VideoProbe::Cache, None),
        VideoProbeStep::Try(VideoProbe::FirstFrame)
    );
    assert_eq!(
        probe_video_dimensions(VideoProbe::FirstFrame, Some((0, 6))),
        VideoProbeStep::Try(VideoProbe::FileName)
    );
    assert_eq!(
        probe_video_dimensions(VideoProbe::FirstFrame, Some((5, 6))),
        VideoProbeStep::Found { width: 5, height: 6, store: true }
    );
}

#[test]
fn requests_are_finished() {
    let request = LoadRequest {
        generation: 4,
        index: 9,
        path: "p".to_string(),
        max_texture_side: 4096,
        target_texture_side: 512,
        downscale_filter: ResizeFilter::Triangle,
        gif_filter: ResizeFilter::Triangle,
        priority: 0,
        queued_at: 0,
    };
    let frame = DecodedFrame {
        pixels: vec![1, 2, 3, 4],
        width: 1,
        height: 1,
        original_width: 2,
        original_height: 2,
        media_type: MangaMediaType::AnimatedImage,
        resize_time: 3,
    };
    let decoded = finished_request(&request, frame);
    assert_eq!((decoded.index, decoded.width, decoded.original_width), (9, 1, 2));
    assert_eq!(decoded.pixels, vec![1, 2, 3, 4]);
    let empty = frameless_video(&request, 1920, 1080);
    assert!(empty.pixels.is_empty());
    assert_eq!(empty.media_type, MangaMediaType::Video);
    assert_eq!((empty.original_width, empty.original_height), (1920, 1080));
    assert!(may_be_animated(Some("gif")));
    assert!(may_be_animated(Some("webp")));
    assert!(!may_be_animated(Some("png")));
    assert!(!may_be_animated(None));
    assert_eq!(image_media_type(true, false), MangaMediaType::AnimatedImage);
    assert_eq!(image_media_type(false, false), MangaMediaType::StaticImage);
}

#[test]
fn the_first_frame_is_waited_for() {
    assert_eq!(first_frame_wait(PipelineEvent::Error, false, 0), FrameWait::GiveUp);
    assert_eq!(first_frame_wait(PipelineEvent::Other, false, 10), FrameWait::GoOn);
    assert!(is_usable_frame(&[0; 16], 2, 2));
    assert!(!is_usable_frame(&[], 2, 2));
    assert!(!is_usable_frame(&[0; 16], 0, 2));
    assert_eq!(caps_filter(None), "video/x-raw,format=RGBA");
    assert_eq!(
        caps_filter(Some((640, 360))),
        "video/x-raw,format=RGBA,width=640,height=360"
    );
    assert_eq!(
        pipeline_description("file:///a\"b", "CAPS"),
        "uridecodebin uri=\"file:///a\\\"b\" name=dec ! videoconvert ! videoscale ! CAPS ! appsink name=sink max-buffers=1 drop=true"
    );
}

#[test]
fn waiting_times_are_kept() {
    let mut times = TimeToView::new();
    times.manga_mark_placeholder_visible(false, 1, 5);
    assert_eq!(times.pending_count(), 0);
    times.manga_mark_placeholder_visible(true, 1, 5);
    times.manga_mark_placeholder_visible(true, 1, 9);
    assert_eq!(times.page_shown(1), Some(5));
    assert_eq!(times.page_shown(1), None);
    for i in 0..101 {
        times.manga_record_ttv_sample(at(i as f32));
    }
    let (half, most, count) = times.manga_ttv_percentiles().unwrap();
    // A wait of no time at all is no sample.
    assert_eq!((half, most, count), (at(51.0), at(95.0), 100));
    times.manga_mark_placeholder_visible(true, 2, 0);
    times.manga_prune_ttv_pending(30_000_000_000);
    assert_eq!(times.pending_count(), 1);
    times.manga_prune_ttv_pending(30_000_000_001);
    assert_eq!(times.pending_count(), 0);
    times.manga_mark_placeholder_visible(true, 2, 0);
    times.clear_pending();
    assert_eq!(times.pending_count(), 0);
}

#[test]
fn uploads_speed_up_under_pressure() {
    let calm = UploadPressure {
        masonry_mode: false,
        zoom: ZOOM_100,
        pending_loads: 0,
        pending_decoded: 0,
        waiting_pages: 0,
    };
    assert_eq!(manga_compute_upload_batch_limit(&calm), 4);
    let zoomed = UploadPressure { zoom: ZOOM_75, ..calm };
    assert_eq!(manga_compute_upload_batch_limit(&zoomed), 6);
    let far = UploadPressure { zoom: ZOOM_50, pending_loads: 24, ..zoomed };
    assert_eq!(manga_compute_upload_batch_limit(&far), 9);
    let full = UploadPressure { masonry_mode: true, pending_decoded: 16, ..far };
    assert_eq!(manga_compute_upload_batch_limit(&full), 12);
}

#[test]
fn directories_are_scanned_once() {
    let mut index = MediaDirectoryIndex::new(2);
    let scan = |answer| matches!(answer, DirectoryAnswer::Scan);
    assert!(scan(index.media_in_directory_for_path("d/a", Some("d"), Some(1), 0)));
    index.record_scan("d".to_string(), vec!["d/a".to_string(), "d/b".to_string()], Some(1), 0);
    match index.media_in_directory_for_path("d/a", Some("d"), Some(1), 5) {
        DirectoryAnswer::Files(files) => assert_eq!(files, vec!["d/a", "d/b"]),
        DirectoryAnswer::Scan => panic!("the listing is known"),
    }
    assert_eq!(index.stats().hits, 1);
    assert_eq!(index.stats().misses, 1);
    // A change of the directory calls for another scan.
    assert!(scan(index.media_in_directory_for_path("d/a", Some("d"), Some(2), 5)));
    index.invalidate_directory("d");
    assert!(scan(index.media_in_directory_for_path("d/a", Some("d"), Some(1), 5)));
    // Without a time of change a listing is good for a while.
    index.record_scan("e".to_string(), vec![], None, 0);
    assert!(!scan(index.media_in_directory_for_path("e/a", Some("e"), None, 1_999_999_999)));
    assert!(scan(index.media_in_directory_for_path("e/a", Some("e"), None, 2_000_000_000)));
    // The directory used longest ago is forgotten.
    index.record_scan("f".to_string(), vec![], Some(1), 0);
    index.record_scan("g".to_string(), vec![], Some(1), 0);
    assert!(scan(index.media_in_directory_for_path("e/a", Some("e"), None, 1)));
}

#[test]
fn questions_are_hits_or_misses() {
    let mut index = MediaDirectoryIndex::new(1);
    let mut questions = 0;
    for round in 0..3u64 {
        for directory in ["d", "e", "e"] {
            questions += 1;
            let answer = index.media_in_directory_for_path("x", Some(directory), Some(1), round);
            match answer {
                DirectoryAnswer::Scan => {
                    let found = vec![format!("{directory}/{round}")];
                    index.record_scan(directory.to_string(), found, Some(1), round);
                }
                DirectoryAnswer::Files(files) => assert_eq!(files, vec![format!("e/{round}")]),
            }
        }
        // A path in no directory stands alone and is not counted.
        match index.media_in_directory_for_path("x", None, None, round) {
            DirectoryAnswer::Files(files) => assert_eq!(files, vec!["x"]),
            DirectoryAnswer::Scan => panic!("there is nothing to scan"),
        }
    }
    let stats = index.stats();
    assert_eq!((stats.hits, stats.misses, stats.scans), (3, 6, 6));
    assert_eq!(stats.hits + stats.misses, questions);
}

#[test]
fn metrics_are_gathered() {
    let mut metrics = PerfMetrics::default();
    assert_eq!(metrics.counter("frames"), 0);
    metrics.increment_counter("frames", 2);
    metrics.increment_counter("frames", u64::MAX);
    assert_eq!(metrics.counter("frames"), u64::MAX);
    assert!(metrics.value_histogram("queue").is_none());
    for value in 0..100 {
        metrics.record_value("queue", value);
    }
    let histogram = metrics.value_histogram("queue").unwrap();
    assert_eq!(histogram.inner.len(), 100);
    assert_eq!(value_from_sample(histogram.inner.value_at_quantile(0.5)), 49);
    metrics.record_duration("decode", 1500);
    let decode = metrics.duration_histogram("decode").unwrap();
    assert_eq!(decode.inner.max(), 1500);
    assert!(metrics.duration_histogram("resize").is_none());
}

fn overlays() -> BottomOverlays {
    BottomOverlays {
        seeking: false,
        volume_dragging: false,
        manga_video_seeking: false,
        manga_video_volume_dragging: false,
        gif_seeking: false,
        zoom_plus_held: false,
        zoom_minus_held: false,
        mouse_over_video_controls: false,
        show_video_controls: false,
        show_manga_toggle: false,
        show_manga_zoom_bar: false,
    }
}

#[test]
fn overlays_show_near_the_bottom() {
    let context = OverlayContext {
        manga_mode: false,
        masonry_mode: false,
        fullscreen: true,
        video_open: true,
        image_animated: false,
        focused_media: None,
        strip_video_focused: false,
        media_type: Some(MediaType::Video),
    };
    assert!(context.has_controllable_media());
    assert!(context.allows_zoom_bar());
    let mut bar = overlays();
    let near = OverlayPointer { near_bottom: true, in_corner_zone: false, over_controls_bar: false };
    assert!(bar.update_bottom_overlays_visibility(&context, &near, false));
    assert!(bar.show_video_controls);
    let away = OverlayPointer { near_bottom: false, ..near };
    assert!(!bar.update_bottom_overlays_visibility(&context, &away, false));
    assert!(!bar.show_video_controls && !bar.show_manga_toggle && !bar.show_manga_zoom_bar);

    let hits = PointerHits {
        window_buttons: false,
        title_text: false,
        controls_bar: true,
        zoom_panel: false,
        rows_panel: false,
        mode_buttons: false,
    };
    assert!(!pointer_over_shortcut_blocking_ui(
        &overlays(), false, false, false, true, false, Some(hits)
    ));
    let shown = BottomOverlays { show_video_controls: true, ..overlays() };
    assert!(pointer_over_shortcut_blocking_ui(
        &shown, false, false, false, true, false, Some(hits)
    ));
    assert!(!pointer_over_shortcut_blocking_ui(
        &overlays(), false, false, false, true, false, None
    ));
    assert_eq!(mode_buttons_offset(false, false, false), 0);
    assert_eq!(mode_buttons_offset(false, true, false), 48);
    assert_eq!(mode_buttons_offset(false, true, true), 96);
    assert_eq!(mode_buttons_offset(true, true, true), 160);
}

#[test]
fn pages_and_names_are_mapped() {
    let mut map: PageMap<u32> = PageMap::new();
    for page in [5usize, 900, 3] {
        map.insert(page, page as u32 * 2);
    }
    map.insert(5, 1);
    assert_eq!(map.len(), 3);
    assert_eq!(map.get(5), Some(&1));
    assert_eq!(map.remove(900), Some(1800));
    assert_eq!(map.remove(900), None);
    assert!(!map.contains(900) && map.contains(3));
    let mut pages = map.pages();
    pages.sort();
    assert_eq!(pages, vec![3, 5]);
    map.clear();
    assert_eq!(map.len(), 0);
    let set = page_set(&vec![4, 4, 8]);
    assert_eq!(set.len(), 2);
    assert!(set.contains(8));
    let mut names: NameMap<u32> = NameMap::new();
    *names.entry("a", 7) += 1;
    *names.entry("a", 7) += 1;
    assert_eq!(names.get("a"), Some(&9));
    assert_eq!(names.get("b"), None);
    assert_eq!(sorted_unique(vec![5, 1, 5, 3]), vec![1, 3, 5]);
}
