# riv

The core of a fast viewer for images, comics and videos, verified with Verus.

A file can be viewed by itself, in a floating window or in full screen, or with
the other files of its directory: as one long strip of pages, or as a wall of
columns (masonry). Pages are decoded in the background, and as many textures are
kept as the view needs.

## Layout

- `src/`: the library. Every function states what it does, and Verus proves it.
  - Caching: `texture_cache`, `metadata_record`, `metadata_cache`, `cache_file`,
    `media_index`, `view_memory`
  - Loading: `manga_loader`, `load_book`, `media_decode`, `dimension_results`,
    `preload_window`, `texture_plan`, `texture_upload`, `scaling`
  - Files: `media_probe`, `media_switch`, `navigation`
  - The strip: `strip_geometry`, `masonry_columns`, `manga_spatial`,
    `strip_mode`, `strip_paging`, `strip_focus`, `strip_animation`,
    `strip_pointer`, `page_drawing`
  - The window and its bars: `window_mode`, `window_resize`, `solo_pointer`,
    `solo_playback`, `input_actions`, `seek_bar`, `zoom_hold`, `overlays`,
    `frame_schedule`
  - Measuring: `perf_metrics`, `first_view`
  - Shared: `coordinate`, `page_map`, `name_map`, `recency`, `channel`,
    `sorting`, `text`
- `app/`: the program around the library: the window, files, threads, media
  playback, and everything that is computed in floating point.
- `tests/`: tests of the library on concrete values.

## Conventions

Positions and zoom factors are floating-point numbers on screen. The library
takes them as a `Coordinate`, an integer with the same order (see `coordinate`),
so that it can compare them exactly. Times are nanoseconds from some fixed
moment on, and a texture is known by a number.

What the library does not prove but takes from other crates stands in small
functions whose comments name the function that they call and say what is
claimed of it.
