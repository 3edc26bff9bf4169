//! Scaling decoded pictures down to the size that is asked for.

use vstd::prelude::*;

verus! {

/// How a picture is resampled.
#[derive(Clone, Copy, Debug, PartialEq, Eq, Structural)]
pub enum ResizeFilter {
    Nearest,
    Triangle,
    CatmullRom,
    Gaussian,
    Lanczos3,
}

/// The kernels that the fast resizer knows.
#[derive(Clone, Copy, Debug, PartialEq, Eq, Structural)]
pub enum FastKernel {
    Box,
    Bilinear,
    CatmullRom,
    Gaussian,
    Lanczos3,
}

/// The fast resizer's kernel for a filter.
pub open spec fn fast_kernel(filter: ResizeFilter) -> FastKernel {
    match filter {
        ResizeFilter::Nearest => FastKernel::Box,
        ResizeFilter::Triangle => FastKernel::Bilinear,
        ResizeFilter::CatmullRom => FastKernel::CatmullRom,
        ResizeFilter::Gaussian => FastKernel::Gaussian,
        ResizeFilter::Lanczos3 => FastKernel::Lanczos3,
    }
}

pub fn image_filter_to_fir(filter: ResizeFilter) -> (kernel: FastKernel)
    ensures
        kernel == fast_kernel(filter),
{
    match filter {
        ResizeFilter::Nearest => FastKernel::Box,
        ResizeFilter::Triangle => FastKernel::Bilinear,
        ResizeFilter::CatmullRom => FastKernel::CatmullRom,
        ResizeFilter::Gaussian => FastKernel::Gaussian,
        ResizeFilter::Lanczos3 => FastKernel::Lanczos3,
    }
}

/// How many bytes a picture of the given size takes up.
pub open spec fn rgba_bytes(width: u32, height: u32) -> int {
    width as int * height as int * 4
}

/// The longest side of a picture that the careful resizer is given.  Positions up
/// to it are known to a fraction of a pixel in single precision.
pub const LARGEST_PRECISE_SIDE: u32 = 2_097_152;

/// What a resizer is to do with a picture.
#[derive(Clone, Copy, Debug, PartialEq, Eq, Structural)]
pub struct ResizeCall {
    pub width: u32,
    pub height: u32,
    pub new_w: u32,
    pub new_h: u32,
    /// How the fast resizer resamples.
    pub kernel: FastKernel,
    /// How the careful resizer resamples.
    pub filter: ResizeFilter,
}

/// What the resizers are to do with a picture that is scaled to the given size.
pub fn resize_call(width: u32, height: u32, scaled: (u32, u32), filter: ResizeFilter) -> (call:
    ResizeCall)
    ensures
        call == call_for(width, height, scaled, filter),
{
    ResizeCall {
        width,
        height,
        new_w: scaled.0,
        new_h: scaled.1,
        kernel: image_filter_to_fir(filter),
        filter,
    }
}

impl ResizeCall {
    /// The buffers that resizing needs can be addressed: the two pictures, the one
    /// in between, whose pixels take up to sixteen bytes, and the weights that each
    /// row and each column goes by.
    pub open spec fn fits_memory(self) -> bool {
        &&& rgba_bytes(self.width, self.height) + 4 <= isize::MAX
        &&& rgba_bytes(self.new_w, self.new_h) <= isize::MAX
        &&& 4 * rgba_bytes(self.width, self.new_h) + 4 <= isize::MAX
        &&& 64 * (self.width + self.new_w) <= isize::MAX
        &&& 64 * (self.height + self.new_h) <= isize::MAX
    }

    /// The careful resizer can tell the pixels of a row or a column apart, and has
    /// at least one to make.
    pub open spec fn is_precise(self) -> bool {
        &&& self.width <= LARGEST_PRECISE_SIDE
        &&& self.height <= LARGEST_PRECISE_SIDE
        &&& 0 < self.new_w <= LARGEST_PRECISE_SIDE
        &&& 0 < self.new_h <= LARGEST_PRECISE_SIDE
    }
}

/// `fast_image_resize::Resizer::resize`, from one RGBA picture to another: it
/// succeeds if and only if the source has all its pixels, and what it makes has the
/// size that was asked for.  How the pixels come out can depend on the processor,
/// so only their number is claimed.
#[verifier::external_body]
fn fast_resize(call: ResizeCall, pixels: &[u8]) -> (resized: Option<(u32, u32, Vec<u8>)>)
    requires
        call.fits_memory(),
    ensures
        resized is Some <==> pixels@.len() >= rgba_bytes(call.width, call.height),
        resized matches Some(r) ==> r.0 == call.new_w && r.1 == call.new_h && r.2@.len()
            == rgba_bytes(call.new_w, call.new_h),
{
    let kernel = match call.kernel {
        FastKernel::Box => fast_image_resize::FilterType::Box,
        FastKernel::Bilinear => fast_image_resize::FilterType::Bilinear,
        FastKernel::CatmullRom => fast_image_resize::FilterType::CatmullRom,
        FastKernel::Gaussian => fast_image_resize::FilterType::Gaussian,
        FastKernel::Lanczos3 => fast_image_resize::FilterType::Lanczos3,
    };
    let rgba = fast_image_resize::PixelType::U8x4;
    let src = fast_image_resize::images::ImageRef::new(call.width, call.height, pixels, rgba).ok()?;
    let mut dst = fast_image_resize::images::Image::new(call.new_w, call.new_h, rgba);
    let options = fast_image_resize::ResizeOptions::new().resize_alg(
        fast_image_resize::ResizeAlg::Convolution(kernel));
    fast_image_resize::Resizer::new().resize(&src, &mut dst, Some(&options)).ok()?;
    Some((dst.width(), dst.height(), dst.into_vec()))
}

/// `image::imageops::resize` on an RGBA picture: there is a picture to resize if
/// and only if all its pixels are there, and what it makes has the size that was
/// asked for.  It works out where a pixel comes from in single precision, and
/// panics where the sides are so long that no pixel is near enough.  The pixels are
/// computed in floating-point arithmetic, so only their number is claimed.
#[verifier::external_body]
fn careful_resize(call: ResizeCall, pixels: &[u8]) -> (resized: Option<(u32, u32, Vec<u8>)>)
    requires
        call.fits_memory(),
        pixels@.len() >= rgba_bytes(call.width, call.height) ==> call.is_precise(),
    ensures
        resized is Some <==> pixels@.len() >= rgba_bytes(call.width, call.height),
        resized matches Some(r) ==> r.0 == call.new_w && r.1 == call.new_h && r.2@.len()
            == rgba_bytes(call.new_w, call.new_h),
{
    let filter = match call.filter {
        ResizeFilter::Nearest => image::imageops::FilterType::Nearest,
        ResizeFilter::Triangle => image::imageops::FilterType::Triangle,
        ResizeFilter::CatmullRom => image::imageops::FilterType::CatmullRom,
        ResizeFilter::Gaussian => image::imageops::FilterType::Gaussian,
        ResizeFilter::Lanczos3 => image::imageops::FilterType::Lanczos3,
    };
    let picture = image::RgbaImage::from_raw(call.width, call.height, pixels.to_vec())?;
    let resized = image::imageops::resize(&picture, call.new_w, call.new_h, filter);
    Some((resized.width(), resized.height(), resized.into_raw()))
}

/// Hands a call to a resizer.
fn run_resizer<F: Fn(ResizeCall, &[u8]) -> Option<(u32, u32, Vec<u8>)>>(
    resizer: F,
    call: ResizeCall,
    pixels: &[u8],
) -> (resized: Option<(u32, u32, Vec<u8>)>)
    requires
        call_requires(resizer, (call, pixels)),
    ensures
        call_ensures(resizer, (call, pixels), resized),
{
    resizer(call, pixels)
}

/// The fast resizer may make this picture of these pixels.
pub closed spec fn fast_resizer_makes(
    call: ResizeCall,
    pixels: Seq<u8>,
    picture: (u32, u32, Vec<u8>),
) -> bool {
    exists|source: &[u8]|
        source@ == pixels && #[trigger] call_ensures(fast_resize, (call, source), Some(picture))
}

/// The careful resizer may make this picture of these pixels.
pub closed spec fn careful_resizer_makes(
    call: ResizeCall,
    pixels: Seq<u8>,
    picture: (u32, u32, Vec<u8>),
) -> bool {
    exists|source: &[u8]|
        source@ == pixels && #[trigger] call_ensures(careful_resize, (call, source), Some(picture))
}

/// A picture is larger than it may be.  A side of zero sets no limit.
pub open spec fn needs_downscale(width: u32, height: u32, max_texture_side: u32) -> bool {
    max_texture_side > 0 && (width > max_texture_side || height > max_texture_side)
}

/// What comes of a picture that may have to be scaled down to the given size.  A
/// picture that lacks pixels is handed back as it is.  The pixels of one that is
/// scaled down are the resizer's; here only their number is given.
pub open spec fn is_downscaled(
    width: u32,
    height: u32,
    pixels: Seq<u8>,
    max_texture_side: u32,
    scaled: (u32, u32),
    picture: (u32, u32, Vec<u8>),
) -> bool {
    if needs_downscale(width, height, max_texture_side) && pixels.len() >= rgba_bytes(width, height) {
        &&& picture.0 == scaled.0
        &&& picture.1 == scaled.1
        &&& picture.2@.len() == rgba_bytes(scaled.0, scaled.1)
    } else {
        &&& picture.0 == width
        &&& picture.1 == height
        &&& picture.2@ == pixels
    }
}

/// What the resizers are to do with a picture that is scaled to the given size.
pub open spec fn call_for(width: u32, height: u32, scaled: (u32, u32), filter: ResizeFilter) -> ResizeCall {
    ResizeCall {
        width,
        height,
        new_w: scaled.0,
        new_h: scaled.1,
        kernel: fast_kernel(filter),
        filter,
    }
}

/// What comes of the picture of a page: what the fast resizer makes of it where it is
/// too large, and the picture itself otherwise.
pub open spec fn is_page_picture(
    width: u32,
    height: u32,
    pixels: Seq<u8>,
    max_texture_side: u32,
    filter: ResizeFilter,
    scaled: (u32, u32),
    picture: (u32, u32, Vec<u8>),
) -> bool {
    if needs_downscale(width, height, max_texture_side) && pixels.len() >= rgba_bytes(width, height) {
        fast_resizer_makes(call_for(width, height, scaled, filter), pixels, picture)
    } else {
        picture.0 == width && picture.1 == height && picture.2@ == pixels
    }
}

/// What comes of a picture that is shown by itself: what the careful resizer makes of
/// it where it is too large, and the picture itself otherwise.
pub open spec fn is_single_picture(
    width: u32,
    height: u32,
    pixels: Seq<u8>,
    max_texture_side: u32,
    filter: ResizeFilter,
    scaled: (u32, u32),
    picture: (u32, u32, Vec<u8>),
) -> bool {
    if needs_downscale(width, height, max_texture_side) && pixels.len() >= rgba_bytes(width, height) {
        careful_resizer_makes(call_for(width, height, scaled, filter), pixels, picture)
    } else {
        picture.0 == width && picture.1 == height && picture.2@ == pixels
    }
}

/// A picture of a page that is not larger than it may be, made from the given one.
/// `scaled` is the size to scale down to, should that be necessary.
pub fn downscale_rgba_if_needed(
    width: u32,
    height: u32,
    pixels: Vec<u8>,
    max_texture_side: u32,
    filter: ResizeFilter,
    scaled: (u32, u32),
) -> (picture: (u32, u32, Vec<u8>))
    requires
        needs_downscale(width, height, max_texture_side) ==> call_for(
            width,
            height,
            scaled,
            filter,
        ).fits_memory(),
    ensures
        is_page_picture(width, height, pixels@, max_texture_side, filter, scaled, picture),
        is_downscaled(width, height, pixels@, max_texture_side, scaled, picture),
{
    if max_texture_side == 0 || (width <= max_texture_side && height <= max_texture_side) {
        return (width, height, pixels);
    }
    let call = resize_call(width, height, scaled, filter);
    let mut resized = run_resizer(fast_resize, call, pixels.as_slice());
    if resized.is_none() {
        resized = careful_resize(call, pixels.as_slice());
    }
    resized_or_unchanged(width, height, pixels, resized)
}

/// [`downscale_rgba_if_needed`] for what is opened by itself and for the frames of
/// animations and videos, which the careful resizer alone scales down.
pub fn downscale_rgba_carefully(
    width: u32,
    height: u32,
    pixels: Vec<u8>,
    max_texture_side: u32,
    filter: ResizeFilter,
    scaled: (u32, u32),
) -> (picture: (u32, u32, Vec<u8>))
    requires
        needs_downscale(width, height, max_texture_side) ==> {
            let call = call_for(width, height, scaled, filter);
            call.fits_memory() && (pixels@.len() >= rgba_bytes(width, height) ==> call.is_precise())
        },
    ensures
        is_single_picture(width, height, pixels@, max_texture_side, filter, scaled, picture),
        is_downscaled(width, height, pixels@, max_texture_side, scaled, picture),
{
    if max_texture_side == 0 || (width <= max_texture_side && height <= max_texture_side) {
        return (width, height, pixels);
    }
    let call = resize_call(width, height, scaled, filter);
    let resized = run_resizer(careful_resize, call, pixels.as_slice());
    resized_or_unchanged(width, height, pixels, resized)
}

/// The picture that was scaled down, if that succeeded, and the given one
/// otherwise.
pub fn resized_or_unchanged(
    width: u32,
    height: u32,
    pixels: Vec<u8>,
    resized: Option<(u32, u32, Vec<u8>)>,
) -> (picture: (u32, u32, Vec<u8>))
    ensures
        resized matches Some(r) ==> picture == r,
        resized is None ==> picture.0 == width && picture.1 == height && picture.2@ == pixels@,
{
    match resized {
        Some(r) => r,
        None => (width, height, pixels),
    }
}

/// The side that a picture is decoded for: at least one, and not above the
/// largest side that a texture may have.
pub open spec fn effective_side(target_texture_side: u32, max_texture_side: u32) -> int {
    let most = if max_texture_side > 1 {
        max_texture_side as int
    } else {
        1
    };
    if target_texture_side < 1 {
        1
    } else if target_texture_side > most {
        most
    } else {
        target_texture_side as int
    }
}

/// The side that a picture is decoded for.
pub fn effective_texture_side(target_texture_side: u32, max_texture_side: u32) -> (side: u32)
    ensures
        side == effective_side(target_texture_side, max_texture_side),
        side >= 1,
{
    let most: u32 = if max_texture_side > 1 {
        max_texture_side
    } else {
        1
    };
    if target_texture_side < 1 {
        1
    } else if target_texture_side > most {
        most
    } else {
        target_texture_side
    }
}

/// The pixels of a page that is scaled down are those that the fast resizer made for
/// it: from the whole picture, to the size that was asked for, by the kernel of the
/// filter.
pub proof fn law_page_pixels_come_from_the_resizer(
    width: u32,
    height: u32,
    pixels: Seq<u8>,
    max_texture_side: u32,
    filter: ResizeFilter,
    scaled: (u32, u32),
    picture: (u32, u32, Vec<u8>),
)
    requires
        is_page_picture(width, height, pixels, max_texture_side, filter, scaled, picture),
        0 < max_texture_side < width || 0 < max_texture_side < height,
        pixels.len() >= 4 * width * height,
    ensures
        exists|call: ResizeCall|
            {
                &&& #[trigger] fast_resizer_makes(call, pixels, picture)
                &&& call.width == width
                &&& call.height == height
                &&& call.new_w == scaled.0
                &&& call.new_h == scaled.1
                &&& call.filter == filter
                &&& kernel_of(filter, call.kernel)
            },
{
    assert(4 * width * height == width as int * height as int * 4) by (nonlinear_arith);
    assert(fast_resizer_makes(call_for(width, height, scaled, filter), pixels, picture));
}

/// What the fast resizer may make of some pixels is what a call of it may return.
proof fn law_fast_resizer_makes_what_it_returns(
    call: ResizeCall,
    pixels: Seq<u8>,
    picture: (u32, u32, Vec<u8>),
)
    ensures
        fast_resizer_makes(call, pixels, picture) <==> exists|source: &[u8]|
            source@ == pixels && #[trigger] call_ensures(fast_resize, (call, source), Some(picture)),
        fast_resizer_makes(call, pixels, picture) ==> picture.0 == call.new_w && picture.1
            == call.new_h && picture.2@.len() == call.new_w * call.new_h * 4,
{
}

/// The pixels of a picture that is shown by itself and scaled down are those that the
/// careful resizer made for it.
pub proof fn law_single_pixels_come_from_the_resizer(
    width: u32,
    height: u32,
    pixels: Seq<u8>,
    max_texture_side: u32,
    filter: ResizeFilter,
    scaled: (u32, u32),
    picture: (u32, u32, Vec<u8>),
)
    requires
        is_single_picture(width, height, pixels, max_texture_side, filter, scaled, picture),
        0 < max_texture_side < width || 0 < max_texture_side < height,
        pixels.len() >= 4 * width * height,
    ensures
        exists|call: ResizeCall|
            {
                &&& #[trigger] careful_resizer_makes(call, pixels, picture)
                &&& call.width == width
                &&& call.height == height
                &&& call.new_w == scaled.0
                &&& call.new_h == scaled.1
                &&& call.filter == filter
                &&& kernel_of(filter, call.kernel)
            },
{
    assert(4 * width * height == width as int * height as int * 4) by (nonlinear_arith);
    assert(careful_resizer_makes(call_for(width, height, scaled, filter), pixels, picture));
}

/// What the careful resizer may make of some pixels is what a call of it may return.
proof fn law_careful_resizer_makes_what_it_returns(
    call: ResizeCall,
    pixels: Seq<u8>,
    picture: (u32, u32, Vec<u8>),
)
    ensures
        careful_resizer_makes(call, pixels, picture) <==> exists|source: &[u8]|
            source@ == pixels && #[trigger] call_ensures(careful_resize, (call, source), Some(picture)),
        careful_resizer_makes(call, pixels, picture) ==> picture.0 == call.new_w && picture.1
            == call.new_h && picture.2@.len() == call.new_w * call.new_h * 4,
{
}

/// A picture that is not too large, or that lacks pixels, is handed back pixel by pixel.
pub proof fn law_small_pictures_stay(
    width: u32,
    height: u32,
    pixels: Seq<u8>,
    max_texture_side: u32,
    filter: ResizeFilter,
    scaled: (u32, u32),
    picture: (u32, u32, Vec<u8>),
)
    requires
        is_page_picture(width, height, pixels, max_texture_side, filter, scaled, picture)
            || is_single_picture(width, height, pixels, max_texture_side, filter, scaled, picture),
        max_texture_side == 0 || (width <= max_texture_side && height <= max_texture_side)
            || pixels.len() < 4 * width * height,
    ensures
        picture.0 == width,
        picture.1 == height,
        picture.2@ == pixels,
{
    assert(4 * width * height == width as int * height as int * 4) by (nonlinear_arith);
}

/// The kernel computes what the filter computes: each filter has its own, by the
/// same name where the fast resizer has that name.
pub open spec fn kernel_of(filter: ResizeFilter, kernel: FastKernel) -> bool {
    &&& filter is Nearest <==> kernel is Box
    &&& filter is Triangle <==> kernel is Bilinear
    &&& filter is CatmullRom <==> kernel is CatmullRom
    &&& filter is Gaussian <==> kernel is Gaussian
    &&& filter is Lanczos3 <==> kernel is Lanczos3
}

/// The kernel that a filter is given is the one that computes what it computes.
pub proof fn law_filters_have_their_kernels(filter: ResizeFilter)
    ensures
        kernel_of(filter, fast_kernel(filter)),
{
}

/// The side that a picture is decoded for is what was asked for, as far as textures
/// may be that large, and never zero.
pub proof fn law_decoding_side_is_allowed(target: u32, most: u32)
    ensures
        1 <= effective_side(target, most),
        effective_side(target, most) <= most || effective_side(target, most) == 1,
        1 <= target <= most ==> effective_side(target, most) == target,
        1 <= most < target ==> effective_side(target, most) == most,
{
}

/// The picture of a page that is too large is the one that the fast resizer made of all
/// its pixels, in the size that was asked for; any other is handed back.
pub proof fn law_large_pages_are_resized(
    width: u32,
    height: u32,
    pixels: Vec<u8>,
    max_texture_side: u32,
    filter: ResizeFilter,
    scaled: (u32, u32),
    picture: (u32, u32, Vec<u8>),
)
    requires
        call_ensures(
            downscale_rgba_if_needed,
            (width, height, pixels, max_texture_side, filter, scaled),
            picture,
        ),
    ensures
        (0 < max_texture_side < width || 0 < max_texture_side < height) && pixels@.len() >= 4 * width
            * height ==> {
            &&& picture.0 == scaled.0 && picture.1 == scaled.1
            &&& picture.2@.len() == 4 * (scaled.0 * scaled.1)
            &&& exists|call: ResizeCall|
                {
                    &&& #[trigger] fast_resizer_makes(call, pixels@, picture)
                    &&& call.width == width && call.height == height
                    &&& call.new_w == scaled.0 && call.new_h == scaled.1
                    &&& kernel_of(filter, call.kernel)
                }
        },
        max_texture_side == 0 || (width <= max_texture_side && height <= max_texture_side)
            || pixels@.len() < 4 * width * height ==> picture.0 == width && picture.1 == height
            && picture.2@ == pixels@,
{
    assert(4 * width * height == width as int * height as int * 4) by (nonlinear_arith);
    if (0 < max_texture_side < width || 0 < max_texture_side < height) && pixels@.len() >= 4 * width
        * height {
        law_page_pixels_come_from_the_resizer(
            width,
            height,
            pixels@,
            max_texture_side,
            filter,
            scaled,
            picture,
        );
    }
}

/// What is opened by itself and too large is the picture that the careful resizer made of
/// all its pixels; any other is handed back.
pub proof fn law_large_pictures_are_resized(
    width: u32,
    height: u32,
    pixels: Vec<u8>,
    max_texture_side: u32,
    filter: ResizeFilter,
    scaled: (u32, u32),
    picture: (u32, u32, Vec<u8>),
)
    requires
        call_ensures(
            downscale_rgba_carefully,
            (width, height, pixels, max_texture_side, filter, scaled),
            picture,
        ),
    ensures
        (0 < max_texture_side < width || 0 < max_texture_side < height) && pixels@.len() >= 4 * width
            * height ==> {
            &&& picture.0 == scaled.0 && picture.1 == scaled.1
            &&& picture.2@.len() == 4 * (scaled.0 * scaled.1)
            &&& exists|call: ResizeCall|
                {
                    &&& #[trigger] careful_resizer_makes(call, pixels@, picture)
                    &&& call.width == width && call.height == height
                    &&& call.new_w == scaled.0 && call.new_h == scaled.1
                    &&& call.filter == filter
                }
        },
        max_texture_side == 0 || (width <= max_texture_side && height <= max_texture_side)
            || pixels@.len() < 4 * width * height ==> picture.0 == width && picture.1 == height
            && picture.2@ == pixels@,
{
    assert(4 * width * height == width as int * height as int * 4) by (nonlinear_arith);
    if (0 < max_texture_side < width || 0 < max_texture_side < height) && pixels@.len() >= 4 * width
        * height {
        law_single_pixels_come_from_the_resizer(
            width,
            height,
            pixels@,
            max_texture_side,
            filter,
            scaled,
            picture,
        );
    }
}

/// A call names the picture as it is, the size that it gets, and one way to resample it
/// for both resizers.
pub proof fn law_calls_name_both_sizes(
    width: u32,
    height: u32,
    scaled: (u32, u32),
    filter: ResizeFilter,
    call: ResizeCall,
    kernel: FastKernel,
)
    requires
        call_ensures(resize_call, (width, height, scaled, filter), call),
        call_ensures(image_filter_to_fir, (filter,), kernel),
    ensures
        call.width == width && call.height == height,
        call.new_w == scaled.0 && call.new_h == scaled.1,
        call.filter == filter,
        kernel_of(filter, call.kernel),
        call.kernel == kernel,
{
}

/// A resizer that fails leaves the picture as it was, and one that succeeds replaces it.
pub proof fn law_failed_resizes_change_nothing(
    width: u32,
    height: u32,
    pixels: Vec<u8>,
    resized: Option<(u32, u32, Vec<u8>)>,
    picture: (u32, u32, Vec<u8>),
)
    requires
        call_ensures(resized_or_unchanged, (width, height, pixels, resized), picture),
    ensures
        resized matches Some(made) ==> picture == made,
        resized is None ==> picture.0 == width && picture.1 == height && picture.2@ == pixels@,
{
}

/// A side that is asked for is decoded for as far as textures may be that long.
pub proof fn law_asked_for_sides_are_decoded_for(target: u32, most: u32, side: u32)
    requires
        call_ensures(effective_texture_side, (target, most), side),
        most >= 1,
    ensures
        1 <= side <= most,
        1 <= target <= most ==> side == target,
        target > most ==> side == most,
{
}

} // verus!
