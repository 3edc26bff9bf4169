use riv::channel::SendOutcome;
use riv::dimension_results::portion_results;
use riv::load_book::{collect_batch, has_urgent_head, order_requests, DecodeOutcome, LoadBook};
use riv::manga_loader::{
    dimensions_or_assumed, quantize_target_texture_side, retry_backoff_for_attempt, DecodedImage,
    DimResult, LoadRequest, LoadTarget, MangaLoader, MangaMediaType, PageDimensions, PageKind,
    PageSource,
};
use riv::metadata_record::CachedMediaKind;
use riv::scaling::ResizeFilter;

fn sources(count: usize) -> Vec<PageSource> {
    (0..count)
        .map(|i| PageSource {
            path: format!("{i}"),
            kind: if i % 10 == 9 { PageKind::Video } else { PageKind::Image },
        })
        .collect()
}

fn target() -> LoadTarget {
    LoadTarget {
        max_texture_side: 4096,
        target_texture_side: 1000,
        downscale_filter: ResizeFilter::Lanczos3,
        gif_filter: ResizeFilter::Nearest,
        force_triangle_filters: false,
    }
}

fn request(index: usize, priority: i32) -> LoadRequest {
    LoadRequest {
        generation: 0,
        index,
        path: format!("{index}"),
        max_texture_side: 4096,
        target_texture_side: 512,
        downscale_filter: ResizeFilter::Triangle,
        gif_filter: ResizeFilter::Triangle,
        priority,
        queued_at: 0,
    }
}

fn picture(index: usize, side: u32) -> DecodedImage {
    DecodedImage {
        index,
        pixels: vec![0; (side * side * 4) as usize],
        width: side,
        height: side,
        original_width: side * 2,
        original_height: side * 2,
        media_type: MangaMediaType::StaticImage,
        requested_side: side,
        queue_wait: 0,
        decode_time: 0,
        resize_time: 0,
    }
}

fn size(width: u32, height: u32) -> PageDimensions {
    PageDimensions { width, height, media_type: MangaMediaType::StaticImage }
}

#[test]
fn waits_after_failures_grow() {
    assert_eq!(retry_backoff_for_attempt(0), 250);
    assert_eq!(retry_backoff_for_attempt(1), 250);
    assert_eq!(retry_backoff_for_attempt(2), 500);
    assert_eq!(retry_backoff_for_attempt(3), 1000);
    assert_eq!(retry_backoff_for_attempt(255), 4000);
}

#[test]
fn sides_are_rounded_up_to_steps() {
    let side = quantize_target_texture_side(1000, 4096);
    assert!(side >= 1000);
    assert_eq!(quantize_target_texture_side(side, 4096), side);
    assert_eq!(quantize_target_texture_side(9000, 4096), 4096);
    assert_eq!(quantize_target_texture_side(0, 0), 1);
}

#[test]
fn priorities_order_requests_stably() {
    let ordered = order_requests(vec![request(1, 5), request(2, -3), request(3, 5), request(4, 0)]);
    let pages: Vec<usize> = ordered.iter().map(|r| r.index).collect();
    assert_eq!(pages, vec![2, 4, 1, 3]);
    assert!(has_urgent_head(&ordered));
    assert!(!has_urgent_head(&vec![request(1, 0)]));
    assert!(!has_urgent_head(&vec![]));
}

#[test]
fn batches_take_urgent_requests_first_and_end_in_order() {
    let (urgent_tx, urgent_rx) = crossbeam_channel::bounded(64);
    let (tx, rx) = crossbeam_channel::bounded(64);
    for i in 0..40 {
        tx.send(request(i, i as i32)).unwrap();
    }
    urgent_tx.send(request(100, -200)).unwrap();
    let batch = collect_batch(request(99, 1000), &urgent_rx, &rx);
    assert_eq!(batch.len(), 32);
    assert_eq!(batch[0].index, 100);
    assert_eq!(batch[31].index, 99);
    assert!(urgent_rx.is_empty());
    assert_eq!(rx.len(), 10);
}

#[test]
fn book_tells_what_is_loaded_and_what_failed() {
    let mut book = LoadBook::new();
    book.start(3, 7);
    assert!(book.is_loading(3, 7));
    assert!(!book.is_loading(3, 8));
    assert_eq!(book.loading_count(), 1);
    book.clear_loading_if_generation(3, 8);
    assert_eq!(book.loading_count(), 1);
    book.clear_loading_if_generation(3, 7);
    assert_eq!(book.loading_count(), 0);

    let (results, received) = crossbeam_channel::bounded(1);
    assert!(book.publish_one(3, 0, false, DecodeOutcome::Decoded(picture(3, 8)), &results, 5));
    assert!(book.is_loaded(3, 8));
    assert!(!book.is_loaded(3, 9));
    assert!(!book.should_decode(&LoadRequest { target_texture_side: 8, ..request(3, 0) }, false, 0));
    assert!(book.should_decode(&request(3, 0), false, 0));
    assert!(!book.should_decode(&request(3, 0), true, 0));
    assert!(!book.should_decode(&request(3, 0), false, 1));

    // The queue is full: the page counts as not loaded.
    assert!(book.publish_one(4, 0, false, DecodeOutcome::Decoded(picture(4, 8)), &results, 5));
    assert!(!book.is_loaded(4, 8));
    // A failure holds the page back for a while.
    assert!(book.publish_one(5, 0, false, DecodeOutcome::Failed, &results, 5));
    assert!(book.is_held_back(5, 5));
    assert!(!book.is_held_back(5, 5 + 250_000_000));
    book.forget_failures(5);
    assert!(!book.is_held_back(5, 5));
    drop(received);
    assert!(!book.publish_one(6, 0, false, DecodeOutcome::Decoded(picture(6, 8)), &results, 5));
}

#[test]
fn a_jump_cancels_and_leads_with_its_target() {
    let (mut loader, worker) = MangaLoader::new();
    let pages = sources(300);
    loader.update_preload_queue(&pages, 0, &target(), 10);
    let first = loader.generation();
    assert!(loader.pending_load_count() > 0);
    loader.update_preload_queue(&pages, 200, &target(), 20);
    assert_ne!(loader.generation(), first);
    let mut newest = Vec::new();
    while let Ok(request) = worker.requests.try_recv() {
        if request.generation == loader.generation() {
            newest.push(request);
        }
    }
    assert_eq!(newest[0].index, 200);
    assert!(newest[0].priority < 0);
}

#[test]
fn preload_counts_follow_what_is_visible() {
    let (mut loader, _worker) = MangaLoader::new();
    assert_eq!((loader.get_preload_ahead(), loader.get_preload_behind()), (12, 6));
    loader.update_visible_page_count(20, None);
    assert_eq!((loader.get_preload_ahead(), loader.get_preload_behind()), (40, 20));
    loader.update_visible_page_count(1000, None);
    assert_eq!((loader.get_preload_ahead(), loader.get_preload_behind()), (256, 128));
    loader.update_visible_page_count(1, Some(5));
    assert_eq!((loader.get_preload_ahead(), loader.get_preload_behind()), (5, 3));
}

#[test]
fn dimensions_come_back_and_are_known() {
    let (mut loader, worker) = MangaLoader::new();
    let pages = sources(100);
    loader.request_dimensions_range(&pages, 10, 20);
    assert_eq!(loader.pending_dimension_probe_count(), 10);
    let asked = worker.dim_requests.try_recv().unwrap();
    assert_eq!(asked.items.len(), 10);
    worker
        .dim_results
        .send(DimResult { generation: asked.generation, items: vec![(10, size(30, 40))] })
        .unwrap();
    assert_eq!(loader.pending_dimension_results_count(), 1);
    assert_eq!(loader.poll_dimension_results(4), vec![10]);
    assert_eq!(loader.get_dimensions(10), Some((30, 40)));
    assert_eq!(loader.get_media_type(10), Some(MangaMediaType::StaticImage));
    assert_eq!(loader.get_dimensions(11), None);
    assert_eq!(loader.cached_dimensions_count(100), 1);
    // Answers to cancelled requests are passed over.
    loader.cancel_pending_loads();
    worker
        .dim_results
        .send(DimResult { generation: asked.generation, items: vec![(11, size(1, 1))] })
        .unwrap();
    assert_eq!(loader.poll_dimension_results(4), Vec::<usize>::new());
    loader.set_dimensions(50, size(7, 8));
    assert_eq!(loader.get_dimensions(50), Some((7, 8)));
    loader.clear_preserving_dimensions();
    assert_eq!(loader.get_dimensions(50), Some((7, 8)));
    loader.clear();
    assert_eq!(loader.get_dimensions(50), None);
}

#[test]
fn missing_dimensions_are_all_asked_for() {
    let (mut loader, worker) = MangaLoader::new();
    let pages = sources(130);
    assert_eq!(loader.request_all_missing_dimensions(&pages), 130);
    let mut asked = 0;
    while let Ok(request) = worker.dim_background_requests.try_recv() {
        asked += request.items.len();
    }
    while let Ok(request) = worker.dim_requests.try_recv() {
        asked += request.items.len();
    }
    assert_eq!(asked, 130);
    assert_eq!(loader.request_all_missing_dimensions(&pages), 0);
}

#[test]
fn background_requests_use_their_own_queue() {
    let (mut loader, worker) = MangaLoader::new();
    let pages = sources(10);
    loader.request_dimensions_range_background(&pages, 2, 5);
    assert!(worker.dim_requests.try_recv().is_err());
    let request = worker.dim_background_requests.try_recv().unwrap();
    let asked: Vec<usize> = request.items.iter().map(|item| item.0).collect();
    assert_eq!(asked, vec![2, 3, 4]);
    assert_eq!(loader.pending_dimension_probe_count(), 3);
}

#[test]
fn dimensions_count_as_asked_for_only_when_the_queue_took_the_request() {
    let (mut loader, _worker) = MangaLoader::new();
    let pages = sources(10);
    let request = loader.dimension_request(loader.plan_dimension_batch(&pages, 2, 4));
    assert_eq!(request.generation, loader.generation());
    assert_eq!(request.items, vec![(2, String::from("2")), (3, String::from("3"))]);
    assert!(!loader.record_dimension_request(&vec![2, 3], SendOutcome::Full));
    assert!(!loader.record_dimension_request(&vec![2, 3], SendOutcome::Disconnected));
    assert_eq!(loader.pending_dimension_probe_count(), 0);
    assert!(loader.record_dimension_request(&vec![2, 3], SendOutcome::Sent));
    assert_eq!(loader.pending_dimension_probe_count(), 2);
    assert_eq!(loader.plan_dimension_batch(&pages, 2, 4), Vec::new());
}

#[test]
fn dimension_requests_stop_at_a_full_queue() {
    let (mut loader, worker) = MangaLoader::new();
    let pages = sources(100);
    for page in 0..64 {
        loader.request_dimensions_range(&pages, page, page + 1);
    }
    assert_eq!(loader.pending_dimension_probe_count(), 64);
    loader.request_dimensions_range(&pages, 64, 65);
    assert_eq!(loader.pending_dimension_probe_count(), 64);
    // Nothing is asked for twice.
    assert_eq!(worker.dim_requests.try_recv().unwrap().items[0].0, 0);
    loader.request_dimensions_range(&pages, 0, 64);
    assert_eq!(loader.pending_dimension_probe_count(), 64);
    loader.request_dimensions_range(&pages, 64, 65);
    assert_eq!(loader.pending_dimension_probe_count(), 65);
}

#[test]
fn all_missing_dimensions_are_planned_in_full_batches() {
    let (mut loader, _worker) = MangaLoader::new();
    let pages = sources(130);
    loader.set_dimensions(0, size(1, 1));
    let batches = loader.plan_all_dimension_batches(&pages);
    let named: Vec<usize> = batches.iter().flatten().map(|item| item.0).collect();
    assert_eq!(named, (1..130).collect::<Vec<usize>>());
    assert!(batches.iter().flatten().all(|item| item.1 == item.0.to_string()));
    let lengths: Vec<usize> = batches.iter().map(|batch| batch.len()).collect();
    assert!(lengths[..lengths.len() - 1].iter().all(|length| *length == lengths[0]));
    assert!(lengths[lengths.len() - 1] <= lengths[0]);
    let asked = vec![vec![1, 2], vec![3, 4], vec![5]];
    let (sent, full) = (SendOutcome::Sent, SendOutcome::Full);
    assert_eq!(loader.record_dimension_batches(&asked, &vec![full]), 0);
    assert_eq!(loader.pending_dimension_probe_count(), 0);
    assert_eq!(loader.record_dimension_batches(&asked, &vec![sent, full]), 2);
    assert_eq!(loader.pending_dimension_probe_count(), 2);
    assert_eq!(loader.record_dimension_batches(&asked, &vec![sent, sent, sent]), 5);
    assert_eq!(loader.pending_dimension_probe_count(), 5);
}

#[test]
fn missing_dimensions_stop_at_a_full_queue() {
    let (mut loader, worker) = MangaLoader::new();
    let pages = sources(100);
    for page in 0..64 {
        loader.request_dimensions_range_background(&pages, page, page + 1);
    }
    assert_eq!(loader.request_all_missing_dimensions(&pages), 0);
    assert_eq!(loader.pending_dimension_probe_count(), 64);
    while worker.dim_background_requests.try_recv().is_ok() {}
    assert_eq!(loader.request_all_missing_dimensions(&pages), 36);
    assert_eq!(loader.pending_dimension_probe_count(), 100);
    assert_eq!(loader.request_all_missing_dimensions(&Vec::new()), 0);
}

#[test]
fn only_results_of_the_present_generation_are_taken_in() {
    let (mut loader, _worker) = MangaLoader::new();
    let mut updated = vec![7];
    let generation = loader.generation();
    let stale = DimResult { generation: generation + 1, items: vec![(1, size(2, 3))] };
    loader.apply_dimension_result(&stale, &mut updated);
    assert_eq!((loader.get_dimensions(1), updated.clone()), (None, vec![7]));
    let present = DimResult { generation, items: vec![(1, size(2, 3)), (1, size(2, 3))] };
    loader.apply_dimension_result(&present, &mut updated);
    assert_eq!((loader.get_dimensions(1), updated), (Some((2, 3)), vec![7, 1]));
}

#[test]
fn refused_requests_do_not_count_as_loading() {
    let (mut loader, worker) = MangaLoader::new();
    assert!(!loader.record_load_request(3, SendOutcome::Full));
    assert!(!loader.record_load_request(3, SendOutcome::Disconnected));
    assert_eq!(loader.pending_load_count(), 0);
    assert!(loader.record_load_request(3, SendOutcome::Sent));
    assert_eq!(loader.pending_load_count(), 1);
    // A queue without a reader takes nothing.
    drop(worker);
    let (mut loader, worker) = MangaLoader::new();
    drop(worker);
    loader.update_preload_queue(&sources(20), 5, &target(), 10);
    assert_eq!(loader.pending_load_count(), 0);
}

#[test]
fn visible_pages_try_the_ordinary_queue_second() {
    let (mut loader, worker) = MangaLoader::new();
    let (sent, full) = (SendOutcome::Sent, SendOutcome::Full);
    assert!(!loader.record_visible_retry(2, full, Some(SendOutcome::Disconnected)));
    assert_eq!(loader.pending_load_count(), 0);
    assert!(loader.record_visible_retry(2, full, Some(sent)));
    assert!(loader.record_visible_retry(3, sent, None));
    assert_eq!((loader.pending_load_count(), loader.stats().images_pending), (2, 2));
    let pages = sources(200);
    let mut handed_out = 0;
    for page in 10..150 {
        if loader.request_visible_retry(&pages, page, &target(), 1) {
            handed_out += 1;
        }
    }
    assert_eq!(handed_out, 140);
    assert_eq!((worker.urgent_requests.len(), worker.requests.len()), (128, 12));
    assert_eq!(worker.requests.try_recv().unwrap().index, 138);
}

#[test]
fn waiting_results_are_bounded() {
    let (loader, worker) = MangaLoader::new();
    while worker.results.try_send(picture(1, 2)).is_ok() {}
    assert_eq!(loader.pending_decoded_count(), 128);
    while worker.dim_results.try_send(DimResult { generation: 0, items: Vec::new() }).is_ok() {}
    assert_eq!(loader.pending_dimension_results_count(), 64);
    assert_eq!(loader.receive_decoded(1000).len(), 128);
    assert_eq!(loader.pending_decoded_count(), 0);
}

#[test]
fn decoded_pictures_are_received_and_applied() {
    let (mut loader, worker) = MangaLoader::new();
    worker.results.send(picture(3, 4)).unwrap();
    worker.results.send(picture(4, 4)).unwrap();
    assert_eq!(loader.pending_decoded_count(), 2);
    let received = loader.receive_decoded(1);
    assert_eq!(received.len(), 1);
    assert_eq!(received[0].index, 3);
    let mut updates = Vec::new();
    loader.apply_decoded(&received[0], false, &mut updates);
    assert_eq!(loader.get_dimensions(3), Some((8, 8)));
    assert_eq!(updates, vec![3]);
    assert_eq!(loader.stats().images_loaded, 1);
}

#[test]
fn visible_pages_are_asked_for_urgently() {
    let (mut loader, worker) = MangaLoader::new();
    let pages = sources(10);
    assert!(loader.request_visible_retry(&pages, 4, &target(), 1));
    let request = worker.urgent_requests.try_recv().unwrap();
    assert_eq!(request.index, 4);
    assert_eq!(request.priority, -200_000);
    // It is being loaded already.
    assert!(!loader.request_visible_retry(&pages, 4, &target(), 1));
    assert!(!loader.request_visible_retry(&pages, 40, &target(), 1));
    loader.reset_index_state(4);
    assert!(loader.request_visible_retry(&pages, 4, &target(), 1));
}

#[test]
fn first_layout_uses_what_is_cached() {
    let (mut loader, _worker) = MangaLoader::new();
    let pages = sources(50);
    let lookups = loader.begin_dimension_cache(&pages);
    assert_eq!(lookups.len(), 50);
    assert_eq!(lookups[9], (9, CachedMediaKind::Video));
    let found: Vec<Option<(u32, u32)>> =
        (0..50).map(|i| if i < 5 { Some((i + 1, 2)) } else { None }).collect();
    loader.apply_cached_dimensions(&lookups, &found);
    assert_eq!(loader.get_dimensions(4), Some((5, 2)));
    let probe = loader.initial_probe_pages(&pages);
    assert!(!probe.contains(&4));
    assert!(probe.contains(&5));
    let cached = loader.apply_probed_dimensions(&vec![(5, Some(size(1, 1))), (6, None)], 50);
    assert_eq!(cached, 6);
}

#[test]
fn unknown_dimensions_are_assumed() {
    let image = dimensions_or_assumed(PageKind::Image, None).unwrap();
    assert_eq!((image.width, image.height), (1200, 1600));
    let video = dimensions_or_assumed(PageKind::Video, None).unwrap();
    assert_eq!((video.width, video.height), (1920, 1080));
    assert_eq!(video.media_type, MangaMediaType::Video);
    let known = dimensions_or_assumed(PageKind::Image, Some((3, 4))).unwrap();
    assert_eq!((known.width, known.height), (3, 4));
    assert!(dimensions_or_assumed(PageKind::Unsupported, Some((3, 4))).is_none());
}

#[test]
fn found_dimensions_are_handed_back_in_portions() {
    let found: Vec<(usize, PageDimensions)> =
        (0..130).rev().map(|i| (i, size(i as u32, 1))).collect();
    let portions = portion_results(9, found);
    let lengths: Vec<usize> = portions.iter().map(|p| p.items.len()).collect();
    assert_eq!(lengths, vec![64, 64, 2]);
    assert!(portions.iter().all(|p| p.generation == 9));
    let pages: Vec<usize> =
        portions.iter().flat_map(|p| p.items.iter().map(|item| item.0)).collect();
    assert_eq!(pages, (0..130).collect::<Vec<usize>>());
    assert!(portion_results(9, Vec::new()).is_empty());
}

#[test]
fn videos_keep_their_shape_unless_it_changes() {
    let (mut loader, _worker) = MangaLoader::new();
    assert!(loader.update_video_dimensions(2, 1920, 1080, false));
    assert_eq!(loader.get_dimensions(2), Some((1920, 1080)));
    assert!(!loader.update_video_dimensions(2, 0, 0, false));
    assert_eq!(loader.get_media_type(2), Some(MangaMediaType::Video));
    loader.sync_external_visible_index(7, true);
    loader.mark_unloaded(7);
    assert_eq!(loader.pending_load_count(), 0);
}
