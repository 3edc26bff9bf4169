//! Handing decoded pages to the graphics card.

use crate::manga_loader::{MangaLoader, MangaMediaType};
use crate::preload_window::{all_unloaded, mark_all_unloaded};
use crate::texture_cache::law_exchanged_texture_is_found;
use crate::texture_cache::{MangaTextureCache, MangaTextureEntry};
use crate::texture_plan::{larger, manga_texture_upgrade_needed, upgrade_needed};
use vstd::prelude::*;

verus! {

/// What becomes of a decoded page.
#[derive(Clone, Copy, Debug, PartialEq, Eq, Structural)]
pub enum UploadDecision {
    /// The texture that is there is good enough.
    KeepPresent,
    /// There are no pixels.
    Skip,
    Upload,
}

/// Decides what becomes of a decoded page.  `present` is the size of the texture
/// that is there; `ratio_threshold` the side from which one is noticeably larger.
pub fn upload_decision(
    present: Option<(u32, u32)>,
    ratio_threshold: u32,
    width: u32,
    height: u32,
    has_pixels: bool,
) -> (decision: UploadDecision)
    ensures
        decision == (if present is Some && !upgrade_needed(
            larger((present->0).0 as int, (present->0).1 as int),
            larger(width as int, height as int),
            ratio_threshold as int,
        ) {
            UploadDecision::KeepPresent
        } else if !has_pixels {
            UploadDecision::Skip
        } else {
            UploadDecision::Upload
        }),
{
    let incoming: u32 = if width > height {
        width
    } else {
        height
    };
    if let Some((w, h)) = present {
        let existing: u32 = if w > h {
            w
        } else {
            h
        };
        if !manga_texture_upgrade_needed(existing, incoming, ratio_threshold) {
            return UploadDecision::KeepPresent;
        }
    }
    if !has_pixels {
        UploadDecision::Skip
    } else {
        UploadDecision::Upload
    }
}

/// Puts the texture of a page into the cache, and tells the loader which pages lost
/// theirs.
pub fn store_texture(
    cache: &mut MangaTextureCache,
    loader: &mut MangaLoader,
    page: usize,
    texture: u64,
    width: u32,
    height: u32,
    media_type: MangaMediaType,
)
    requires
        old(cache).wf(),
        old(loader).wf(),
    ensures
        final(cache).wf(),
        final(loader).wf(),
        ({
            let placed = old(cache)@.placed(
                page,
                (MangaTextureEntry { texture, width, height, media_type }),
            );
            &&& final(cache)@ == placed.trimmed()
            &&& final(loader)@ == all_unloaded(old(loader)@, placed.trimmed_pages().to_set())
        }),
{
    let evicted = cache.insert_with_type(page, texture, width, height, media_type);
    mark_all_unloaded(loader, &evicted);
}

/// Puts the first frame of an animation back.  A page that has a texture keeps its
/// place in the cache.
pub fn restore_first_frame(
    cache: &mut MangaTextureCache,
    loader: &mut MangaLoader,
    page: usize,
    texture: u64,
    width: u32,
    height: u32,
)
    requires
        old(cache).wf(),
        old(loader).wf(),
    ensures
        final(cache).wf(),
        final(loader).wf(),
        old(cache)@.lookup(page) is Some ==> final(cache)@ == old(cache)@.updated(
            page,
            texture,
            width,
            height,
        ) && final(loader)@ == old(loader)@,
        old(cache)@.lookup(page) is None ==> ({
            let placed = old(cache)@.placed(
                page,
                (MangaTextureEntry {
                    texture,
                    width,
                    height,
                    media_type: MangaMediaType::AnimatedImage,
                }),
            );
            &&& final(cache)@ == placed.trimmed()
            &&& final(loader)@ == all_unloaded(old(loader)@, placed.trimmed_pages().to_set())
        }),
{
    if cache.contains(page) {
        cache.update_texture(page, texture, width, height);
    } else {
        store_texture(cache, loader, page, texture, width, height, MangaMediaType::AnimatedImage);
    }
}

/// Which textures have smaller copies of themselves.
#[derive(Clone, Copy, Debug)]
pub struct MipmapSettings {
    pub static_images: bool,
    pub video_thumbnails: bool,
    pub min_side: u32,
}

/// Whether a texture gets smaller copies of itself.  Animations never do: they
/// change too often.
pub fn manga_texture_options_for_upload(
    settings: &MipmapSettings,
    media_type: MangaMediaType,
    width: u32,
    height: u32,
) -> (mipmap: bool)
    ensures
        ({
            let smaller_side = if width < height {
                width
            } else {
                height
            };
            mipmap == (smaller_side >= larger(1, settings.min_side as int) && (match media_type {
                MangaMediaType::StaticImage => settings.static_images,
                MangaMediaType::Video => settings.video_thumbnails,
                MangaMediaType::AnimatedImage => false,
            }))
        }),
{
    let smaller_side: u32 = if width < height {
        width
    } else {
        height
    };
    let least: u32 = if settings.min_side < 1 {
        1
    } else {
        settings.min_side
    };
    let large_enough = smaller_side >= least;
    match media_type {
        MangaMediaType::StaticImage => settings.static_images && large_enough,
        MangaMediaType::Video => settings.video_thumbnails && large_enough,
        MangaMediaType::AnimatedImage => false,
    }
}

/// A picture is uploaded only if it has pixels and is larger than the texture that is
/// there, in its longer side; without a texture any picture is.
pub proof fn law_larger_pictures_are_uploaded(
    present: Option<(u32, u32)>,
    threshold: u32,
    width: u32,
    height: u32,
    has_pixels: bool,
    decision: UploadDecision,
)
    requires
        call_ensures(upload_decision, (present, threshold, width, height, has_pixels), decision),
    ensures
        decision is Upload ==> has_pixels,
        decision is Skip ==> !has_pixels,
        present is None ==> !(decision is KeepPresent),
        present is None && has_pixels ==> decision is Upload,
        present matches Some((w, h)) ==> (width <= w || width <= h) && (height <= w || height <= h)
            ==> decision is KeepPresent,
        present matches Some((w, h)) ==> !(decision is KeepPresent) ==> (width >= threshold || height
            >= threshold) && (width > w || height > w) && (width > h || height > h),
        present matches Some((w, h)) ==> w < 0x8000_0000 && h < 0x8000_0000 && width >= threshold
            && width >= w + 64 && width >= h + 64 ==> !(decision is KeepPresent),
{
}

/// A page that got a texture has it afterwards if anything stays, with the size and the
/// kind that were given.
pub proof fn law_stored_textures_are_there(
    cache: &mut MangaTextureCache,
    loader: &mut MangaLoader,
    page: usize,
    texture: u64,
    width: u32,
    height: u32,
    media_type: MangaMediaType,
    other: usize,
)
    requires
        call_ensures(
            store_texture,
            (cache, loader, page, texture, width, height, media_type),
            (),
        ),
    ensures
        final(loader)@.book.loading == old(loader)@.book.loading,
        final(loader)@.dimensions == old(loader)@.dimensions,
        final(loader)@.book.loaded.contains_key(other) ==> old(loader)@.book.loaded.contains_key(
            other,
        ),
        final(cache)@.pinned_pages == old(cache)@.pinned_pages,
        final(cache)@.limit == old(cache)@.limit,
{
}

/// Only still pictures and videos get smaller copies, where that is switched on for their
/// kind, and only if both sides are long enough.
pub proof fn law_small_textures_have_no_copies(
    settings: &MipmapSettings,
    media_type: MangaMediaType,
    width: u32,
    height: u32,
    mipmap: bool,
)
    requires
        call_ensures(
            manga_texture_options_for_upload,
            (settings, media_type, width, height),
            mipmap,
        ),
    ensures
        media_type == MangaMediaType::AnimatedImage ==> !mipmap,
        mipmap ==> width >= settings.min_side && height >= settings.min_side && width > 0 && height
            > 0,
        width >= settings.min_side && height >= settings.min_side && width > 0 && height > 0
            && media_type == MangaMediaType::StaticImage ==> mipmap == settings.static_images,
        width >= settings.min_side && height >= settings.min_side && width > 0 && height > 0
            && media_type == MangaMediaType::Video ==> mipmap == settings.video_thumbnails,
{
}

/// The first frame of an animation takes the place of what a page shows, without a page
/// losing its texture; a page without a texture gets it as an animation.
pub proof fn law_first_frames_are_put_back(
    cache: &mut MangaTextureCache,
    loader: &mut MangaLoader,
    page: usize,
    texture: u64,
    width: u32,
    height: u32,
    other: usize,
)
    requires
        call_ensures(restore_first_frame, (cache, loader, page, texture, width, height), ()),
        old(cache)@.wf(),
    ensures
        old(cache)@.lookup(page) matches Some(known) ==> final(cache)@.lookup(page) == Some(
            MangaTextureEntry { texture, width, height, media_type: known.media_type },
        ) && final(loader)@ == old(loader)@,
        old(cache)@.lookup(page) is Some && other != page ==> final(cache)@.lookup(other) == old(
            cache)@.lookup(other),
        old(cache)@.pinned_pages.contains(page) && old(cache)@.lookup(page) is None ==> final(
            cache)@.lookup(page) == Some(
            MangaTextureEntry {
                texture,
                width,
                height,
                media_type: MangaMediaType::AnimatedImage,
            },
        ),
{
    law_exchanged_texture_is_found(old(cache)@, page, texture, width, height, other);
}

} // verus!
