//! Verified core of a fast image, comic and video viewer.

pub mod cache_file;
pub mod channel;
pub mod coordinate;
pub mod dimension_results;
pub mod first_view;
pub mod frame_schedule;
pub mod input_actions;
pub mod load_book;
pub mod manga_loader;
pub mod manga_spatial;
pub mod masonry_columns;
pub mod media_decode;
pub mod media_index;
pub mod media_probe;
pub mod media_switch;
pub mod metadata_cache;
pub mod metadata_record;
pub mod name_map;
pub mod navigation;
pub mod overlays;
pub mod page_drawing;
pub mod page_map;
pub mod perf_metrics;
pub mod preload_window;
pub mod recency;
pub mod scaling;
pub mod seek_bar;
pub mod solo_playback;
pub mod solo_pointer;
pub mod sorting;
pub mod strip_animation;
pub mod strip_focus;
pub mod strip_geometry;
pub mod strip_mode;
pub mod strip_paging;
pub mod strip_pointer;
pub mod text;
pub mod texture_cache;
pub mod texture_plan;
pub mod texture_upload;
pub mod view_memory;
pub mod window_mode;
pub mod window_resize;
pub mod zoom_hold;
