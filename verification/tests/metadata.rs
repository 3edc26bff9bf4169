use riv::cache_file::{
    cache_key, database_uses_old_schema, decide_after_open, discard_before_open, FileLimit,
    FileLimitError, OpenDecision, OpenOutcome, SchemaSnapshot, TableRows,
};
use riv::media_probe::{
    detect_animated, detect_file_type_from_header, gif_is_animated, webp_header_is_animated,
    webp_is_animated,
};
use riv::metadata_cache::{
    configure_metadata_cache_size_limit, lookup_cached_dimensions, lookup_cached_dimensions_batch,
    lookup_cached_static_thumbnail, lookup_cached_video_thumbnail, metadata_cache_access_enabled,
    metadata_cache_max_size_bytes, metadata_cache_stats, set_metadata_cache_enabled,
    store_cached_dimensions, store_cached_static_thumbnail, store_cached_video_thumbnail,
    CachedFileType, CachedImageThumbnail, CachedMediaKind, CachedRecord, CachedVideoThumbnail,
    MetadataCache, MetadataCacheStats, PruneScope, StoredRow, WriteAttempt, WriteOutcome, WriteRoute, WriteStage,
    WriteStep,
};
use riv::metadata_record::{decode_record, encode_record};

#[test]
fn metadata_record_encodes_only_placeholder_columns() {
    let record = CachedRecord {
        width: 320,
        height: 240,
        file_type: CachedFileType::Png,
        animated: false,
    };

    let encoded = encode_record(record);

    assert_eq!(encoded, "320,240,2,0");
    assert_eq!(decode_record(&encoded).unwrap(), record);
}

#[test]
fn file_type_codes_round_trip_to_real_extensions() {
    assert_eq!(CachedFileType::from_code(1).unwrap().extension(), "jpg");
    assert_eq!(CachedFileType::from_code(2).unwrap().extension(), "png");
    assert_eq!(CachedFileType::from_code(5).unwrap().extension(), "webp");
    assert_eq!(CachedFileType::from_code(100).unwrap().extension(), "mp4");
    assert!(CachedFileType::from_code(255).is_none());
}

#[test]
fn detects_png_by_signature_even_when_extension_is_jpg() {
    let header = [0x89, b'P', b'N', b'G', b'\r', b'\n', 0x1a, b'\n', 0, 0, 0, 0];
    assert_eq!(detect_file_type_from_header(&header), Some(CachedFileType::Png));
}

#[test]
fn detects_animated_webp_from_vp8x_header_without_decoding() {
    let header = [
        b"RIFF".as_slice(),
        &30_u32.to_le_bytes(),
        b"WEBP",
        b"VP8X",
        &10_u32.to_le_bytes(),
        &[0b0000_0010, 0, 0, 0, 0, 0, 0, 0, 0, 0],
    ]
    .concat();

    assert_eq!(webp_header_is_animated(&header), Some(true));
}

#[test]
fn detects_static_webp_from_vp8x_header_without_decoding() {
    let header = [
        b"RIFF".as_slice(),
        &30_u32.to_le_bytes(),
        b"WEBP",
        b"VP8X",
        &10_u32.to_le_bytes(),
        &[0, 0, 0, 0, 0, 0, 0, 0, 0, 0],
    ]
    .concat();

    assert_eq!(webp_header_is_animated(&header), Some(false));
}

#[test]
fn thumbnail_cache_public_api_is_noop() {
    let thumbnail = CachedVideoThumbnail {
        pixels: vec![1, 2, 3, 4],
        width: 1,
        height: 1,
        original_width: 1,
        original_height: 1,
    };
    let path = "unused.jpg";

    store_cached_video_thumbnail(path, 128, &thumbnail);
    assert!(lookup_cached_video_thumbnail(path, 128).is_none());
}

#[test]
fn static_thumbnails_are_not_kept_either() {
    let thumbnail = CachedImageThumbnail {
        pixels: vec![1, 2, 3, 4],
        width: 1,
        height: 1,
        original_width: 1,
        original_height: 1,
    };
    store_cached_static_thumbnail("unused.jpg", 128, &thumbnail);
    assert!(lookup_cached_static_thumbnail("unused.jpg", 128).is_none());
}

#[test]
fn old_dimension_schema_deletes_database_on_open() {
    let snapshot = SchemaSnapshot {
        readable: true,
        tables: Vec::new(),
        rows: TableRows::Rows(vec![Some("1,2,3,320,240,1,123".to_string())]),
    };
    assert!(database_uses_old_schema(&snapshot));
    assert_eq!(
        decide_after_open(OpenOutcome::Opened { old_schema: true }),
        OpenDecision::Recreate
    );

    let fresh = SchemaSnapshot { readable: true, tables: Vec::new(), rows: TableRows::Missing };
    assert!(!database_uses_old_schema(&fresh));
    assert_eq!(
        decide_after_open(OpenOutcome::Opened { old_schema: false }),
        OpenDecision::Use
    );
}

#[test]
fn old_thumbnail_table_deletes_database_on_open() {
    let snapshot = SchemaSnapshot {
        readable: true,
        tables: vec!["video_first_frame_rgba".to_string()],
        rows: TableRows::Missing,
    };
    assert!(database_uses_old_schema(&snapshot));
}

#[test]
fn schema_is_current_where_rows_decode() {
    let snapshot = SchemaSnapshot {
        readable: true,
        tables: vec!["metadata".to_string()],
        rows: TableRows::Rows(vec![Some("320,240,2,0".to_string())]),
    };
    assert!(!database_uses_old_schema(&snapshot));
    let unreadable = SchemaSnapshot {
        readable: false,
        tables: vec!["video_first_frame_rgba".to_string()],
        rows: TableRows::Missing,
    };
    assert!(!database_uses_old_schema(&unreadable));
}

#[test]
fn open_failures_are_told_apart() {
    assert_eq!(
        decide_after_open(OpenOutcome::Corrupted { file_exists: true }),
        OpenDecision::Recreate
    );
    assert_eq!(
        decide_after_open(OpenOutcome::Corrupted { file_exists: false }),
        OpenDecision::GiveUp
    );
    assert_eq!(decide_after_open(OpenOutcome::Failed), OpenDecision::GiveUp);
}

#[test]
fn oversized_files_are_discarded_before_opening() {
    assert!(discard_before_open(10, Some(11)));
    assert!(!discard_before_open(10, Some(10)));
    assert!(!discard_before_open(0, Some(11)));
    assert!(!discard_before_open(10, None));
}

#[test]
fn file_limit_refuses_growth() {
    let mut limit = FileLimit::new(100, 40);
    assert_eq!(limit.check_write(90, 10), Ok(100));
    assert_eq!(limit.check_write(90, 11), Err(FileLimitError::LimitReached));
    assert_eq!(limit.check_write(u64::MAX, 1), Err(FileLimitError::SizeOverflow));
    assert_eq!(limit.check_set_len(101), Err(FileLimitError::LimitReached));
    assert_eq!(limit.check_set_len(100), Ok(()));
    limit.note_write(60);
    assert_eq!(limit.current_len, 60);
    limit.note_write(50);
    assert_eq!(limit.current_len, 60);
    limit.observe_len(30);
    assert_eq!(limit.current_len, 30);
    assert!(limit.exceeds_limit(101));
    assert!(!FileLimit::new(0, 0).exceeds_limit(u64::MAX));
}

#[test]
fn cache_keys_ignore_case_where_asked() {
    assert_eq!(cache_key("D:/Images/\u{c4}.jpg", true, None, true), "d:/images/\u{e4}.jpg");
    assert_eq!(cache_key("D:/Images/A.jpg", true, None, false), "D:/Images/A.jpg");
    assert_eq!(cache_key("a.jpg", false, Some("/home/a.jpg"), false), "/home/a.jpg");
    assert_eq!(cache_key("a.jpg", false, None, false), "a.jpg");
}

#[test]
fn records_with_other_fields_are_refused() {
    assert!(decode_record("320,240,2").is_none());
    assert!(decode_record("320,240,2,0,1").is_none());
    assert!(decode_record("320,240,2,").is_none());
    assert!(decode_record("320,240,2,256").is_none());
    assert!(decode_record("320,240,2,2").is_some_and(|record| record.animated));
    assert!(decode_record("320,240,255,0").is_none());
    assert!(decode_record("x,240,2,0").is_none());
    assert!(decode_record("4294967296,240,2,0").is_none());
    assert!(decode_record("").is_none());
    let decoded = decode_record("4294967295,1,5,1").unwrap();
    assert_eq!(decoded.width, u32::MAX);
    assert_eq!(decoded.file_type, CachedFileType::Webp);
    assert!(decoded.animated);
}

#[test]
fn every_record_round_trips() {
    for code in 0..=200u16 {
        if let Some(file_type) = CachedFileType::from_code(code) {
            assert_eq!(file_type.code(), code);
            for animated in [false, true] {
                let record = CachedRecord { width: 17, height: 4_000_000_000, file_type, animated };
                assert_eq!(decode_record(&encode_record(record)), Some(record));
            }
        }
    }
}

#[test]
fn stored_dimensions_are_found_for_their_kind() {
    let mut cache = MetadataCache::new();
    assert!(!metadata_cache_access_enabled(&cache));
    assert_eq!(
        lookup_cached_dimensions(&mut cache, Some("320,240,2,0"), CachedMediaKind::Image),
        None
    );
    set_metadata_cache_enabled(&mut cache, true);
    assert_eq!(
        lookup_cached_dimensions(&mut cache, Some("320,240,2,0"), CachedMediaKind::Image),
        Some((320, 240))
    );
    assert_eq!(
        lookup_cached_dimensions(&mut cache, Some("320,240,2,0"), CachedMediaKind::Video),
        None
    );
    assert_eq!(lookup_cached_dimensions(&mut cache, None, CachedMediaKind::Image), None);
    let stats = metadata_cache_stats(&cache);
    assert_eq!(stats.dimension_hits, 1);
    assert_eq!(stats.dimension_misses, 2);

    let found = lookup_cached_dimensions_batch(
        &mut cache,
        &vec![
            (Some("10,20,1,0".to_string()), CachedMediaKind::Image),
            (Some("10,20,100,0".to_string()), CachedMediaKind::Video),
            (None, CachedMediaKind::Video),
        ],
    );
    assert_eq!(found, vec![Some((10, 20)), Some((10, 20)), None]);
    assert_eq!(metadata_cache_stats(&cache).dimension_hits, 3);
    assert_eq!(metadata_cache_stats(&cache).dimension_misses, 3);
}

#[test]
fn switching_the_cache_off_hides_its_counters() {
    let mut cache = MetadataCache::new();
    set_metadata_cache_enabled(&mut cache, true);
    let known = Some("320,240,2,0");
    lookup_cached_dimensions(&mut cache, known, CachedMediaKind::Image);
    lookup_cached_dimensions(&mut cache, None, CachedMediaKind::Image);
    cache.plan_prune(&vec![Some(StoredRow { key: "b".to_string(), text: "1".to_string() })]);
    let before = format!("{:?}", metadata_cache_stats(&cache));
    set_metadata_cache_enabled(&mut cache, false);
    assert_eq!(lookup_cached_dimensions(&mut cache, known, CachedMediaKind::Image), None);
    let items = vec![(None, CachedMediaKind::Video)];
    assert_eq!(lookup_cached_dimensions_batch(&mut cache, &items), vec![None]);
    assert_eq!(store_cached_dimensions(&cache, WriteAttempt::Refused), WriteRoute::Done);
    let nothing = format!("{:?}", MetadataCacheStats::default());
    assert_eq!(format!("{:?}", metadata_cache_stats(&cache)), nothing);
    set_metadata_cache_enabled(&mut cache, true);
    let stats = metadata_cache_stats(&cache);
    assert_eq!(format!("{stats:?}"), before);
    assert_eq!((stats.dimension_hits, stats.dimension_misses, stats.dimension_expired), (1, 1, 1));
    assert_eq!((stats.thumbnail_hits, stats.thumbnail_misses), (0, 0));
    assert_eq!((stats.static_thumbnail_hits, stats.static_thumbnail_misses), (0, 0));
}

#[test]
fn dimensions_are_stored_with_their_real_type() {
    let cache = MetadataCache::new();
    let png = [0x89, b'P', b'N', b'G', b'\r', b'\n', 0x1a, b'\n', 0, 0, 0, 0];
    let write = cache
        .store_dimensions("a.jpg".to_string(), CachedMediaKind::Image, 320, 240, Some(&png), None)
        .unwrap();
    assert_eq!(write.key, "a.jpg");
    assert_eq!(write.text, "320,240,2,1");
    assert_eq!(write.estimated_write_bytes, 5 + 11 + 512);
    // A file of the other kind, without a size or without a known type is left out.
    assert!(cache
        .store_dimensions("a".to_string(), CachedMediaKind::Video, 320, 240, Some(&png), None)
        .is_none());
    assert!(cache
        .store_dimensions("a".to_string(), CachedMediaKind::Image, 0, 240, Some(&png), None)
        .is_none());
    assert!(cache
        .store_dimensions("a".to_string(), CachedMediaKind::Image, 1, 1, Some(&[0, 1, 2]), None)
        .is_none());
    assert!(cache
        .store_dimensions("a".to_string(), CachedMediaKind::Image, 1, 1, None, None)
        .is_none());
}

#[test]
fn size_limit_is_set_in_mebibytes() {
    let mut cache = MetadataCache::new();
    assert_eq!(metadata_cache_max_size_bytes(&cache), 1_073_741_824);
    configure_metadata_cache_size_limit(&mut cache, 3);
    assert_eq!(metadata_cache_max_size_bytes(&cache), 3 * 1_048_576);
    configure_metadata_cache_size_limit(&mut cache, u64::MAX);
    assert_eq!(metadata_cache_max_size_bytes(&cache), u64::MAX);
    configure_metadata_cache_size_limit(&mut cache, 1);
    assert!(cache.should_skip_write_due_to_size_limit(Some(1_048_576), 1));
    assert!(!cache.should_skip_write_due_to_size_limit(Some(1_048_575), 1));
    assert!(!cache.should_skip_write_due_to_size_limit(None, 1));
    assert!(!cache.cache_needs_size_prune(Some(1_048_576)));
    assert!(cache.cache_needs_size_prune(Some(1_048_577)));
}

#[test]
fn writes_go_to_the_queue_first() {
    let mut cache = MetadataCache::new();
    assert_eq!(store_cached_dimensions(&cache, WriteAttempt::Fresh), WriteRoute::Done);
    set_metadata_cache_enabled(&mut cache, true);
    assert_eq!(store_cached_dimensions(&cache, WriteAttempt::Fresh), WriteRoute::Queue);
    assert_eq!(store_cached_dimensions(&cache, WriteAttempt::Queued), WriteRoute::Done);
    assert_eq!(store_cached_dimensions(&cache, WriteAttempt::Refused), WriteRoute::Direct);
}

#[test]
fn pruning_drops_broken_rows() {
    let mut cache = MetadataCache::new();
    let rows = vec![
        Some(StoredRow { key: "b".to_string(), text: "1,2,3".to_string() }),
        Some(StoredRow { key: "a".to_string(), text: "320,240,2,0".to_string() }),
        None,
    ];
    let plan = cache.plan_prune(&rows);
    assert_eq!(plan.expired, vec!["b".to_string()]);
    assert!(plan.evicted.is_empty());
    assert_eq!(cache.stats.dimension_expired, 1);
}

#[test]
fn pruning_evicts_the_first_keys_of_a_full_table() {
    let mut cache = MetadataCache::new();
    let rows: Vec<Option<StoredRow>> = (0..80_002)
        .rev()
        .map(|number| {
            Some(StoredRow { key: format!("{number:06}"), text: "8,8,2,0".to_string() })
        })
        .collect();
    let plan = cache.plan_prune(&rows);
    assert!(plan.expired.is_empty());
    assert_eq!(plan.evicted, vec!["000000".to_string(), "000001".to_string()]);
    assert_eq!(cache.stats.dimension_evicted, 2);
}

#[test]
fn pruning_comes_at_intervals() {
    let mut cache = MetadataCache::new();
    configure_metadata_cache_size_limit(&mut cache, 1);
    assert!(matches!(cache.maybe_prune_tables(100, Some(0)), PruneScope::Table));
    assert_eq!(cache.last_prune_secs, 100);
    assert!(matches!(cache.maybe_prune_tables(159, Some(0)), PruneScope::Nothing));
    assert!(matches!(cache.maybe_prune_tables(160, Some(0)), PruneScope::Table));
    assert!(matches!(
        cache.maybe_prune_tables(161, Some(2_000_000)),
        PruneScope::TableAndFile
    ));
}

#[test]
fn a_write_over_the_limit_prunes_first() {
    let mut cache = MetadataCache::new();
    configure_metadata_cache_size_limit(&mut cache, 1);
    let (stage, step) = cache.next_write_step(
        WriteStage::Measuring,
        WriteOutcome::Measured(Some(1_048_576)),
        600,
    );
    assert!(matches!(stage, WriteStage::Remeasuring));
    assert!(matches!(step, WriteStep::PruneAndMeasure));
    let (stage, step) = cache.next_write_step(stage, WriteOutcome::Measured(Some(1_048_576)), 600);
    assert!(matches!(stage, WriteStage::Finished));
    assert!(matches!(step, WriteStep::Stop));
    let (stage, step) =
        cache.next_write_step(WriteStage::Measuring, WriteOutcome::Measured(Some(0)), 600);
    assert!(matches!(stage, WriteStage::Writing));
    assert!(matches!(step, WriteStep::Write));
}

fn gif_with(frames: usize) -> Vec<u8> {
    let mut bytes = Vec::new();
    {
        let mut encoder = gif::Encoder::new(&mut bytes, 1, 1, &[0, 0, 0, 255, 255, 255]).unwrap();
        for i in 0..frames {
            let mut frame = gif::Frame::default();
            frame.width = 1;
            frame.height = 1;
            frame.buffer = vec![(i % 2) as u8].into();
            encoder.write_frame(&frame).unwrap();
        }
    }
    bytes
}

#[test]
fn gif_frames_are_counted_by_decoding() {
    assert_eq!(gif_is_animated(&gif_with(1)), Some(false));
    assert_eq!(gif_is_animated(&gif_with(2)), Some(true));
    assert_eq!(gif_is_animated(b"no gif at all"), None);
    assert!(detect_animated(CachedFileType::Gif, Some(&gif_with(3))));
    assert!(!detect_animated(CachedFileType::Gif, Some(&gif_with(1))));
    // Where it is not told, an animation is assumed.
    assert!(detect_animated(CachedFileType::Gif, None));
    assert!(detect_animated(CachedFileType::Png, None));
}

#[test]
fn webp_chunks_are_walked() {
    let animated = [
        b"RIFF".as_slice(),
        &30_u32.to_le_bytes(),
        b"WEBP",
        b"ALPH",
        &3_u32.to_le_bytes(),
        &[1, 2, 3, 0],
        b"ANIM",
        &0_u32.to_le_bytes(),
    ]
    .concat();
    assert_eq!(webp_is_animated(&animated), Some(true));
    assert_eq!(webp_header_is_animated(b"RIFX"), None);
}

#[test]
fn signatures_name_the_file_type() {
    assert_eq!(detect_file_type_from_header(&[0xff, 0xd8, 0xff, 0]), Some(CachedFileType::Jpeg));
    assert_eq!(detect_file_type_from_header(b"GIF89a"), Some(CachedFileType::Gif));
    assert_eq!(detect_file_type_from_header(b"BM......"), Some(CachedFileType::Bmp));
    assert_eq!(detect_file_type_from_header(b"8BPS"), Some(CachedFileType::Psd));
    assert_eq!(detect_file_type_from_header(b"text"), None);
    assert_eq!(detect_file_type_from_header(&[]), None);
}
