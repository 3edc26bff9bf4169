use riv::manga_loader::{MangaLoader, MangaMediaType, MangaTextureCache, PageKind, PageSource};
use riv::preload_window::{
    compute_dimension_reach, evict_left_behind, fit_reach, manga_update_preload_queue,
    preload_update_is_due, StripView,
};
use riv::manga_loader::LoadTarget;
use riv::scaling::{downscale_rgba_carefully, downscale_rgba_if_needed, effective_texture_side, image_filter_to_fir, resize_call, resized_or_unchanged, FastKernel, ResizeCall, ResizeFilter};
use riv::texture_plan::{
    clamp_texture_side, manga_clamp_target_side_to_source, manga_compute_cache_capacity_target,
    manga_decode_filters_for_strip_mode, manga_retry_target_side_for_rect,
    manga_target_texture_side_for_preload, manga_texture_upgrade_needed,
    masonry_zoom_quality_boost, ZOOM_100, ZOOM_35, ZOOM_45, ZOOM_50, ZOOM_55, ZOOM_60, ZOOM_75,
    ZOOM_80, ZOOM_95, ZOOM_150, ZOOM_200,
};
use riv::texture_upload::{
    manga_texture_options_for_upload, restore_first_frame, store_texture, upload_decision,
    MipmapSettings, UploadDecision,
};

fn fill(cache: &mut MangaTextureCache, pages: &[usize]) -> Vec<usize> {
    let mut evicted = Vec::new();
    for page in pages {
        evicted.extend(cache.insert_with_type(
            *page,
            1000 + *page as u64,
            64,
            32,
            MangaMediaType::StaticImage,
        ));
    }
    evicted
}

fn sources(count: usize) -> Vec<PageSource> {
    (0..count)
        .map(|i| PageSource { path: format!("{i}.jpg"), kind: PageKind::Image })
        .collect()
}

fn target() -> LoadTarget {
    LoadTarget {
        max_texture_side: 4096,
        target_texture_side: 1024,
        downscale_filter: ResizeFilter::Lanczos3,
        gif_filter: ResizeFilter::Nearest,
        force_triangle_filters: false,
    }
}

#[test]
fn oldest_textures_leave_first_and_are_reported() {
    let mut cache = MangaTextureCache::new(2);
    assert!(cache.is_empty());
    assert_eq!(fill(&mut cache, &[1, 2]), Vec::<usize>::new());
    assert_eq!(cache.get_texture_info(1), Some((1001, 64, 32)));
    // Reading page 1 made page 2 the oldest.
    assert_eq!(fill(&mut cache, &[3]), vec![2]);
    assert!(cache.contains(1) && cache.contains(3) && !cache.contains(2));
    assert_eq!(cache.cached_indices(), vec![3, 1]);
}

#[test]
fn pinned_textures_stay() {
    let mut cache = MangaTextureCache::new(2);
    fill(&mut cache, &[1, 2]);
    cache.set_pinned_indices(vec![1]);
    assert_eq!(fill(&mut cache, &[3]), vec![2]);
    assert_eq!(fill(&mut cache, &[4]), vec![3]);
    assert!(cache.contains(1));
    cache.set_pinned_indices(vec![]);
    assert!(cache.contains(1) && cache.contains(4));
    cache.remove(1);
    assert!(!cache.contains(1));
    cache.clear();
    assert!(cache.is_empty());
}

#[test]
fn shrinking_the_cache_keeps_the_newest() {
    let mut cache = MangaTextureCache::new(4);
    fill(&mut cache, &[1, 2, 3, 4]);
    let _ = cache.set_max_entries(2);
    assert_eq!(cache.cached_indices(), vec![4, 3]);
    cache.update_texture(3, 77, 10, 20);
    assert_eq!(cache.peek_texture_dimensions(3), Some((10, 20)));
    assert_eq!(
        cache.get_texture_handle_info(3),
        Some((77, 10, 20, MangaMediaType::StaticImage))
    );
    assert_eq!(cache.peek_texture_dimensions(9), None);
    cache.tick();
    assert_eq!(cache.get_texture_info(9), None);
}

#[test]
fn uploads_replace_textures_only_when_noticeably_larger() {
    assert_eq!(upload_decision(None, 0, 100, 50, true), UploadDecision::Upload);
    assert_eq!(upload_decision(None, 0, 100, 50, false), UploadDecision::Skip);
    assert_eq!(
        upload_decision(Some((512, 256)), 574, 575, 100, true),
        UploadDecision::KeepPresent
    );
    assert_eq!(upload_decision(Some((512, 256)), 574, 576, 100, true), UploadDecision::Upload);
    assert_eq!(
        upload_decision(Some((512, 256)), 574, 200, 100, true),
        UploadDecision::KeepPresent
    );
}

#[test]
fn stored_textures_push_others_out_of_the_book() {
    let (mut loader, _worker) = MangaLoader::new();
    let mut cache = MangaTextureCache::new(1);
    store_texture(&mut cache, &mut loader, 5, 1, 10, 10, MangaMediaType::Video);
    store_texture(&mut cache, &mut loader, 6, 2, 10, 10, MangaMediaType::Video);
    assert!(!cache.contains(5) && cache.contains(6));
    restore_first_frame(&mut cache, &mut loader, 6, 3, 4, 5);
    assert_eq!(
        cache.get_texture_handle_info(6),
        Some((3, 4, 5, MangaMediaType::Video))
    );
    restore_first_frame(&mut cache, &mut loader, 7, 8, 9, 10);
    assert_eq!(
        cache.get_texture_handle_info(7),
        Some((8, 9, 10, MangaMediaType::AnimatedImage))
    );
}

#[test]
fn animations_get_no_mipmaps() {
    let settings = MipmapSettings { static_images: true, video_thumbnails: false, min_side: 64 };
    let mipmap =
        |kind, w, h| manga_texture_options_for_upload(&settings, kind, w, h);
    assert!(mipmap(MangaMediaType::StaticImage, 64, 100));
    assert!(!mipmap(MangaMediaType::StaticImage, 63, 100));
    assert!(!mipmap(MangaMediaType::Video, 64, 100));
    assert!(!mipmap(MangaMediaType::AnimatedImage, 640, 1000));
}

#[test]
fn cache_capacity_follows_zoom_and_layout() {
    assert_eq!(manga_compute_cache_capacity_target(false, 5, ZOOM_100, 0, 0), 64);
    assert_eq!(manga_compute_cache_capacity_target(false, 5, ZOOM_75, 10, 12), 96);
    assert_eq!(manga_compute_cache_capacity_target(false, 5, ZOOM_45, 10, 12), 144);
    assert_eq!(manga_compute_cache_capacity_target(false, 5, ZOOM_45, 1000, 12), 320);
    assert_eq!(manga_compute_cache_capacity_target(true, 5, ZOOM_100, 20, 3), 80);
    assert_eq!(manga_compute_cache_capacity_target(true, 5, ZOOM_80, 20, 3), 160);
    assert_eq!(manga_compute_cache_capacity_target(true, 5, ZOOM_55, 20, 3), 240);
    assert_eq!(manga_compute_cache_capacity_target(true, 5, ZOOM_35, 20, 3), 320);
    assert_eq!(manga_compute_cache_capacity_target(true, 99, ZOOM_35, usize::MAX, 3), 512);
}

#[test]
fn zoom_thresholds_are_the_numbers_they_name() {
    for (position, number) in [
        (ZOOM_35, 0.35f32),
        (ZOOM_45, 0.45),
        (ZOOM_50, 0.5),
        (ZOOM_55, 0.55),
        (ZOOM_60, 0.6),
        (ZOOM_75, 0.75),
        (ZOOM_80, 0.8),
        (ZOOM_95, 0.95),
        (ZOOM_100, 1.0),
        (ZOOM_150, 1.5),
        (ZOOM_200, 2.0),
    ] {
        assert_eq!(
            riv::coordinate::coordinate_from_bits(number.to_bits()),
            Some(position)
        );
    }
}

#[test]
fn sharpness_follows_zoom() {
    assert_eq!(masonry_zoom_quality_boost(ZOOM_35), 85);
    assert_eq!(masonry_zoom_quality_boost(ZOOM_60), 90);
    assert_eq!(masonry_zoom_quality_boost(ZOOM_100), 100);
    assert_eq!(masonry_zoom_quality_boost(ZOOM_150), 108);
    assert_eq!(masonry_zoom_quality_boost(ZOOM_200), 116);
    assert_eq!(masonry_zoom_quality_boost(ZOOM_200 + 1), 124);
}

#[test]
fn target_sides_stay_in_bounds() {
    assert_eq!(clamp_texture_side(10, 192, 4096), 192);
    assert_eq!(clamp_texture_side(9999, 192, 4096), 4096);
    assert_eq!(clamp_texture_side(10, 192, 100), 100);
    assert_eq!(clamp_texture_side(10, 192, 0), 1);
    assert_eq!(manga_clamp_target_side_to_source(Some((300, 200)), 1000), 300);
    assert_eq!(manga_clamp_target_side_to_source(Some((0, 0)), 1000), 1);
    assert_eq!(manga_clamp_target_side_to_source(None, 1000), 1000);
    assert_eq!(manga_retry_target_side_for_rect(Some((100, 50)), false, 500, 4096), 100);
    assert_eq!(manga_retry_target_side_for_rect(None, false, 50, 4096), 192);
    assert_eq!(manga_retry_target_side_for_rect(None, true, 50, 4096), 96);
    let side = |manga, masonry, count, zoom| {
        manga_target_texture_side_for_preload(manga, masonry, count, zoom, 4096, 700, 100)
    };
    assert_eq!(side(false, false, 5, ZOOM_50), 4096);
    assert_eq!(side(true, false, 0, ZOOM_50), 4096);
    assert_eq!(side(true, true, 5, ZOOM_50), 700);
    assert_eq!(side(true, false, 5, ZOOM_95), 4096);
    assert_eq!(side(true, false, 5, ZOOM_50), 256);
    assert!(manga_texture_upgrade_needed(100, 164, 112));
    assert!(!manga_texture_upgrade_needed(100, 163, 112));
    assert!(!manga_texture_upgrade_needed(1000, 1100, 1120));
    assert!(manga_texture_upgrade_needed(u32::MAX - 1, u32::MAX, 0));
}

#[test]
fn masonry_is_scaled_fast() {
    assert_eq!(
        manga_decode_filters_for_strip_mode(true, ResizeFilter::Lanczos3, ResizeFilter::Nearest),
        (ResizeFilter::Triangle, ResizeFilter::Triangle)
    );
    assert_eq!(
        manga_decode_filters_for_strip_mode(false, ResizeFilter::Lanczos3, ResizeFilter::Nearest),
        (ResizeFilter::Lanczos3, ResizeFilter::Nearest)
    );
    assert_eq!(image_filter_to_fir(ResizeFilter::Nearest), FastKernel::Box);
    assert_eq!(image_filter_to_fir(ResizeFilter::Triangle), FastKernel::Bilinear);
    assert_eq!(image_filter_to_fir(ResizeFilter::CatmullRom), FastKernel::CatmullRom);
    assert_eq!(image_filter_to_fir(ResizeFilter::Gaussian), FastKernel::Gaussian);
    assert_eq!(image_filter_to_fir(ResizeFilter::Lanczos3), FastKernel::Lanczos3);
    assert_eq!(effective_texture_side(0, 100), 1);
    assert_eq!(effective_texture_side(500, 100), 100);
    assert_eq!(effective_texture_side(50, 0), 1);
}

#[test]
fn large_pictures_are_scaled_down() {
    let pixels: Vec<u8> = [200u8, 100, 50, 255].repeat(16);
    for filter in [
        ResizeFilter::Nearest,
        ResizeFilter::Triangle,
        ResizeFilter::CatmullRom,
        ResizeFilter::Gaussian,
        ResizeFilter::Lanczos3,
    ] {
        let (w, h, scaled) = downscale_rgba_if_needed(4, 4, pixels.clone(), 2, filter, (2, 2));
        assert_eq!((w, h), (2, 2));
        assert_eq!(scaled.len(), 16);
        // One colour stays one colour.
        for pixel in scaled.chunks(4) {
            assert_eq!(pixel, [200, 100, 50, 255]);
        }
    }
    let (w, h, same) =
        downscale_rgba_if_needed(4, 4, pixels.clone(), 4, ResizeFilter::Nearest, (0, 0));
    assert_eq!((w, h, same), (4, 4, pixels.clone()));
    let (w, h, same) =
        downscale_rgba_if_needed(4, 4, pixels.clone(), 0, ResizeFilter::Nearest, (0, 0));
    assert_eq!((w, h, same), (4, 4, pixels));
    // Without all its pixels a picture is handed back.
    let (w, h, same) =
        downscale_rgba_if_needed(4, 4, vec![1, 2, 3], 2, ResizeFilter::Nearest, (2, 2));
    assert_eq!((w, h, same), (4, 4, vec![1, 2, 3]));
    assert_eq!(
        resized_or_unchanged(4, 4, vec![9], Some((1, 1, vec![1, 2, 3, 4]))),
        (1, 1, vec![1, 2, 3, 4])
    );
    assert_eq!(resized_or_unchanged(4, 4, vec![9], None), (4, 4, vec![9]));
}

#[test]
fn scaling_keeps_width_and_height_apart() {
    assert_eq!(
        resize_call(8, 4, (4, 2), ResizeFilter::Triangle),
        ResizeCall {
            width: 8,
            height: 4,
            new_w: 4,
            new_h: 2,
            kernel: FastKernel::Bilinear,
            filter: ResizeFilter::Triangle,
        }
    );
    // The left half is black and the right half is white.
    let row: Vec<u8> = [[0u8, 0, 0, 255].repeat(4), [255u8; 4].repeat(4)].concat();
    let (w, h, scaled) =
        downscale_rgba_if_needed(8, 4, row.repeat(4), 4, ResizeFilter::Nearest, (4, 2));
    assert_eq!((w, h), (4, 2));
    let half: Vec<u8> = [[0u8, 0, 0, 255].repeat(2), [255u8; 4].repeat(2)].concat();
    assert_eq!(scaled, half.repeat(2));
    let (w, h, scaled) =
        downscale_rgba_carefully(8, 4, row.repeat(4), 4, ResizeFilter::Nearest, (4, 2));
    assert_eq!((w, h), (4, 2));
    assert_eq!(scaled, half.repeat(2));
}

#[test]
fn careful_scaling_hands_back_what_it_cannot_scale() {
    let pixels: Vec<u8> = [200u8, 100, 50, 255].repeat(16);
    for filter in [ResizeFilter::Triangle, ResizeFilter::CatmullRom, ResizeFilter::Lanczos3] {
        let scaled = downscale_rgba_carefully(4, 4, pixels.clone(), 2, filter, (2, 2));
        assert_eq!(scaled, (2, 2, [200u8, 100, 50, 255].repeat(4)));
    }
    let same = downscale_rgba_carefully(4, 4, pixels.clone(), 4, ResizeFilter::Gaussian, (0, 0));
    assert_eq!(same, (4, 4, pixels));
    let short = vec![1, 2, 3];
    let same = downscale_rgba_carefully(4, 4, short.clone(), 2, ResizeFilter::Gaussian, (2, 2));
    assert_eq!(same, (4, 4, short));
}

#[test]
fn dimension_reach_looks_along_the_scrolling() {
    assert_eq!(compute_dimension_reach(false, 5, 1, false), (20, 80));
    assert_eq!(compute_dimension_reach(false, 5, 1, true), (80, 20));
    assert_eq!(compute_dimension_reach(false, 5, 8, false), (80, 100));
    assert_eq!(compute_dimension_reach(false, 5, 8, true), (200, 80));
    assert_eq!(compute_dimension_reach(true, 5, 1, true), (480, 480));
    assert_eq!(compute_dimension_reach(true, 2, 1, true), (160, 160));
    assert_eq!(compute_dimension_reach(true, 5, usize::MAX, true), (1200, 1200));
}

#[test]
fn reach_shrinks_in_proportion() {
    assert_eq!(fit_reach(10, 30, 0), (0, 0));
    assert_eq!(fit_reach(10, 30, 40), (10, 30));
    assert_eq!(fit_reach(10, 30, 20), (5, 15));
    assert_eq!(fit_reach(1, 100, 10), (1, 9));
    assert_eq!(fit_reach(100, 1, 10), (9, 1));
    assert_eq!(fit_reach(3, 3, 1), (1, 0));
}

#[test]
fn preload_updates_are_throttled() {
    assert!(preload_update_is_due(true, 5, 0, 50_000_000));
    assert!(!preload_update_is_due(true, 5, 0, 49_999_999));
    assert!(!preload_update_is_due(true, 5, 1, 50_000_000));
    assert!(!preload_update_is_due(true, 0, 0, 50_000_000));
    assert!(!preload_update_is_due(false, 5, 0, 50_000_000));
}

#[test]
fn textures_outside_the_window_leave_unless_visible() {
    let (mut loader, _worker) = MangaLoader::new();
    let mut cache = MangaTextureCache::new(10);
    fill(&mut cache, &[1, 2, 3, 4, 5, 6]);
    let mut gone = evict_left_behind(&mut cache, &mut loader, 2, 5, &vec![6]);
    gone.sort();
    assert_eq!(gone, vec![1, 5]);
    assert!(cache.contains(2) && cache.contains(6));
}

#[test]
fn bringing_the_queue_up_to_date_asks_for_pages_and_evicts() {
    let (mut loader, worker) = MangaLoader::new();
    let mut cache = MangaTextureCache::new(512);
    fill(&mut cache, &[0, 100, 101, 400]);
    let pages = sources(500);
    let view = StripView {
        masonry_mode: false,
        items_per_row: 5,
        zoom: ZOOM_100,
        current: 100,
        visible_page_count: 2,
        visible: vec![100, 101],
        scrolling_up: false,
        strip_halves: None,
        target: target(),
    };
    manga_update_preload_queue(&mut cache, &mut loader, &pages, &view, 1);
    assert!(cache.contains(100) && cache.contains(101));
    assert!(!cache.contains(0) && !cache.contains(400));
    assert!(loader.pending_load_count() > 0);
    // The view jumped, so what was asked for before is given up.
    assert_eq!(loader.pending_dimension_probe_count(), 0);
    let first = worker.requests.try_recv().or_else(|_| worker.urgent_requests.try_recv()).unwrap();
    assert_eq!(first.index, 100);
    assert_eq!(first.path, "100.jpg");
    let asked = worker.dim_requests.try_recv().unwrap();
    assert_eq!(asked.items.len(), 64);
    assert_eq!(asked.items[0].0, 80);
}
