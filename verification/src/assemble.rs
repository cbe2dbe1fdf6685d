use vstd::prelude::*;
use vstd::arithmetic::div_mod::lemma_fundamental_div_mod_converse;
use crate::color_convert::{spec_convert_to_rgba, ColorSpace};
use crate::err::Error;
use crate::geometry::spec_effective_dimension;
use crate::decoded::Image;
use crate::params::DecodeParams;

verus! {

/// The most component planes any packing mode here supports.
pub const MAX_COMPONENTS: usize = 4;

#[verifier::external_type_specification]
#[verifier::external_body]
pub struct ExDynamicImage(image::DynamicImage);

/// Relies on image::RgbaImage::from_raw: it wraps the container exactly when
/// the container holds at least width * height * 4 bytes (checked without
/// overflow), and returns None otherwise. The Some case is wrapped into
/// image::DynamicImage::ImageRgba8, moving the buffer unchanged.
#[verifier::external_body]
fn rgba_image_from_raw(width: u32, height: u32, container: Vec<u8>) -> (r: Option<
    image::DynamicImage,
>)
    ensures
        r is Some <==> 4 * width * height <= container@.len(),
{
    image::RgbaImage::from_raw(width, height, container).map(image::DynamicImage::ImageRgba8)
}

/// An RGBA byte container of the right size handed over as an image-crate
/// value; a container with fewer than width * height * 4 bytes is refused.
pub fn rgba_to_image(width: u32, height: u32, container: Vec<u8>) -> (r: Result<
    image::DynamicImage,
    Error,
>)
    ensures
        r is Ok <==> 4 * width * height <= container@.len(),
        4 * width * height > container@.len() ==> r == Err::<image::DynamicImage, Error>(
            Error::ImageContainerTooSmall,
        ),
{
    match rgba_image_from_raw(width, height, container) {
        Some(img) => Ok(img),
        None => Err(Error::ImageContainerTooSmall),
    }
}

/// The final decode artifact: one packed byte buffer of
/// width * height * num_bands samples, interleaved band by band.
#[derive(Debug, Clone)]
pub struct ImageBuffer {
    pub buffer: Vec<u8>,
    pub width: u32,
    pub height: u32,
    pub num_bands: usize,
}

/// A sample truncated to the single byte this library packs; samples within
/// the assumed eight-bit depth pass through unchanged.
pub open spec fn spec_sample_byte(v: i32) -> u8 {
    v as u8
}

/// The output width of a decoded image: the bounding-box extent reduced by
/// the factor the engine achieved on the first component.
pub open spec fn spec_out_width(img: Image) -> nat
    recommends
        img.wf(),
        img.comps@.len() > 0,
{
    spec_effective_dimension((img.x1 - img.x0) as nat, img.comps@[0].factor as nat)
}

/// The output height of a decoded image, reduced like the width.
pub open spec fn spec_out_height(img: Image) -> nat
    recommends
        img.wf(),
        img.comps@.len() > 0,
{
    spec_effective_dimension((img.y1 - img.y0) as nat, img.comps@[0].factor as nat)
}

/// The pixel count of the decoded output.
pub open spec fn spec_pixel_count(img: Image) -> nat
    recommends
        img.wf(),
        img.comps@.len() > 0,
{
    spec_out_width(img) * spec_out_height(img)
}

/// Whether a component count has a packing mode: one band of grayscale,
/// three of RGB, or four of RGBA.
pub open spec fn spec_supported_band_count(n: nat) -> bool {
    n == 1 || n == 3 || n == 4
}

/// Whether every component plane holds exactly one sample per output pixel.
pub open spec fn spec_planes_sized(img: Image) -> bool
    recommends
        img.wf(),
        img.comps@.len() > 0,
{
    forall|i: int|
        0 <= i < img.comps@.len() ==> (#[trigger] img.comps@[i]).data@.len() == spec_pixel_count(
            img,
        )
}

/// One pixel's raw component samples in RGBA slot order, before color
/// remapping: plane `i` fills slot `i`, a missing color slot defaults to 0
/// and a missing alpha slot to 255.
pub open spec fn spec_raw_pixel(img: Image, p: int) -> Seq<u8>
    recommends
        img.comps@.len() <= 4,
{
    Seq::new(
        4,
        |i: int|
            if i < img.comps@.len() {
                spec_sample_byte(img.comps@[i].data@[p])
            } else if i == 3 {
                255u8
            } else {
                0u8
            },
    )
}

/// Packs a decoded image into one RGBA byte buffer: per pixel, up to four
/// raw samples fill the RGBA slots (missing color slots default to 0, a
/// missing alpha to 255) and are remapped through the delivery color space.
/// Validates every plane's length before reading a sample.
pub fn assemble_rgba(img: &Image, color_space: &ColorSpace) -> (r: Result<Vec<u8>, Error>)
    requires
        img.wf(),
        img.comps@.len() >= 1,
        *color_space is SRGB || *color_space is GRAY,
        spec_pixel_count(*img) * 4 <= usize::MAX,
    ensures
        r is Ok <==> img.comps@.len() <= 4 && spec_planes_sized(*img),
        img.comps@.len() > 4 ==> r == Err::<Vec<u8>, Error>(
            Error::TooManyComponents(img.comps@.len() as usize),
        ),
        img.comps@.len() <= 4 && !spec_planes_sized(*img) ==> r == Err::<Vec<u8>, Error>(
            Error::ImageContainerTooSmall,
        ),
        r matches Ok(out) ==> ({
            &&& out@.len() == spec_pixel_count(*img) * 4
            &&& forall|k: int|
                0 <= k < out@.len() ==> #[trigger] out@[k] == spec_convert_to_rgba(
                    *color_space,
                    spec_raw_pixel(*img, k / 4),
                )[k % 4]
        }),
{
    let n: usize = img.comps.len();
    if n > MAX_COMPONENTS {
        return Err(Error::TooManyComponents(n));
    }
    let factor: u32 = img.factor();
    let width: u32 = DecodeParams::value_for_discard_level(img.width(), factor);
    let height: u32 = DecodeParams::value_for_discard_level(img.height(), factor);
    proof {
        assert(spec_pixel_count(*img) * 1 <= spec_pixel_count(*img) * 4) by (nonlinear_arith)
            requires
                spec_pixel_count(*img) >= 0,
        ;
    }
    let pc: usize = (width as usize) * (height as usize);
    let mut i: usize = 0;
    while i < n
        invariant
            n == img.comps@.len(),
            1 <= n <= 4,
            img.wf(),
            i <= n,
            pc == spec_pixel_count(*img),
            forall|j: int| 0 <= j < i ==> (#[trigger] img.comps@[j]).data@.len() == pc,
        decreases n - i,
    {
        if img.comps[i].data.len() != pc {
            return Err(Error::ImageContainerTooSmall);
        }
        i = i + 1;
    }
    let mut out: Vec<u8> = Vec::new();
    let mut p: usize = 0;
    while p < pc
        invariant
            n == img.comps@.len(),
            1 <= n <= 4,
            img.wf(),
            *color_space is SRGB || *color_space is GRAY,
            pc == spec_pixel_count(*img),
            pc * 4 <= usize::MAX,
            forall|j: int| 0 <= j < n ==> (#[trigger] img.comps@[j]).data@.len() == pc,
            p <= pc,
            out@.len() == p * 4,
            forall|k: int|
                0 <= k < out@.len() ==> out@[k] == spec_convert_to_rgba(
                    *color_space,
                    #[trigger] spec_raw_pixel(*img, k / 4),
                )[k % 4],
        decreases pc - p,
    {
        let c0: u8 = #[verifier::truncate] (img.comps[0].data[p] as u8);
        let c1: u8 = if n > 1 {
            #[verifier::truncate] (img.comps[1].data[p] as u8)
        } else {
            0
        };
        let c2: u8 = if n > 2 {
            #[verifier::truncate] (img.comps[2].data[p] as u8)
        } else {
            0
        };
        let c3: u8 = if n > 3 {
            #[verifier::truncate] (img.comps[3].data[p] as u8)
        } else {
            255
        };
        let values: [u8; 4] = [c0, c1, c2, c3];
        proof {
            assert(values@ =~= spec_raw_pixel(*img, p as int));
        }
        let q: [u8; 4] = color_space.convert_to_rgba_raw(values);
        out.push(q[0]);
        out.push(q[1]);
        out.push(q[2]);
        out.push(q[3]);
        proof {
            let pi = p as int;
            lemma_fundamental_div_mod_converse(4 * pi + 0, 4, pi, 0);
            lemma_fundamental_div_mod_converse(4 * pi + 1, 4, pi, 1);
            lemma_fundamental_div_mod_converse(4 * pi + 2, 4, pi, 2);
            lemma_fundamental_div_mod_converse(4 * pi + 3, 4, pi, 3);
        }
        p = p + 1;
    }
    Ok(out)
}

impl ImageBuffer {
    /// Packs the component planes of a decoded image into one interleaved
    /// buffer: plane `b` fills band `b` of every pixel, in row-major pixel
    /// order. Dispatches strictly on the component count and validates every
    /// plane's length before reading a sample.
    pub fn build(img: &Image) -> (r: Result<ImageBuffer, Error>)
        requires
            img.wf(),
            img.comps@.len() > 0 ==> spec_pixel_count(*img) * img.comps@.len() <= usize::MAX,
        ensures
            r is Ok <==> spec_supported_band_count(img.comps@.len()) && spec_planes_sized(*img),
            !spec_supported_band_count(img.comps@.len()) ==> r == Err::<ImageBuffer, Error>(
                Error::UnsupportedComponentCount(img.comps@.len() as usize),
            ),
            spec_supported_band_count(img.comps@.len()) && !spec_planes_sized(*img) ==> r == Err::<
                ImageBuffer,
                Error,
            >(Error::ImageContainerTooSmall),
            r matches Ok(out) ==> ({
                let n = img.comps@.len() as int;
                &&& out.num_bands == n
                &&& out.width == spec_out_width(*img)
                &&& out.height == spec_out_height(*img)
                &&& out.buffer@.len() == spec_pixel_count(*img) * n
                &&& forall|p: int, b: int|
                    0 <= p < spec_pixel_count(*img) && 0 <= b < n
                        ==> out.buffer@[p * n + b] == spec_sample_byte(
                        #[trigger] img.comps@[b].data@[p],
                    )
            }),
    {
        let n: usize = img.comps.len();
        if !(n == 1 || n == 3 || n == 4) {
            return Err(Error::UnsupportedComponentCount(n));
        }
        let factor: u32 = img.factor();
        let width: u32 = DecodeParams::value_for_discard_level(img.width(), factor);
        let height: u32 = DecodeParams::value_for_discard_level(img.height(), factor);
        proof {
            assert(spec_pixel_count(*img) * 1 <= spec_pixel_count(*img) * (img.comps@.len()
                as int)) by (nonlinear_arith)
                requires
                    img.comps@.len() >= 1,
                    spec_pixel_count(*img) >= 0,
            ;
        }
        let pc: usize = (width as usize) * (height as usize);
        let mut i: usize = 0;
        while i < n
            invariant
                n == img.comps@.len(),
                n == 1 || n == 3 || n == 4,
                img.wf(),
                i <= n,
                pc == spec_pixel_count(*img),
                forall|j: int| 0 <= j < i ==> (#[trigger] img.comps@[j]).data@.len() == pc,
            decreases n - i,
        {
            if img.comps[i].data.len() != pc {
                return Err(Error::ImageContainerTooSmall);
            }
            i = i + 1;
        }
        let mut buffer: Vec<u8> = Vec::new();
        let mut p: usize = 0;
        while p < pc
            invariant
                n == img.comps@.len(),
                n == 1 || n == 3 || n == 4,
                img.wf(),
                pc == spec_pixel_count(*img),
                pc * n <= usize::MAX,
                forall|j: int| 0 <= j < n ==> (#[trigger] img.comps@[j]).data@.len() == pc,
                p <= pc,
                buffer@.len() == p * n,
                forall|k: int|
                    0 <= k < buffer@.len() ==> buffer@[k] == spec_sample_byte(
                        #[trigger] img.comps@[k % (n as int)].data@[k / (n as int)],
                    ),
            decreases pc - p,
        {
            proof {
                assert((p + 1) * n == p * n + n) by (nonlinear_arith);
                assert(p * n + n <= pc * n) by (nonlinear_arith)
                    requires
                        p < pc,
                        n >= 1,
                ;
            }
            let mut b: usize = 0;
            while b < n
                invariant
                    n == img.comps@.len(),
                    img.wf(),
                    pc == spec_pixel_count(*img),
                    forall|j: int| 0 <= j < n ==> (#[trigger] img.comps@[j]).data@.len() == pc,
                    p < pc,
                    p * n + n <= pc * n <= usize::MAX,
                    b <= n,
                    buffer@.len() == p * n + b,
                    forall|k: int|
                        0 <= k < buffer@.len() ==> buffer@[k] == spec_sample_byte(
                            #[trigger] img.comps@[k % (n as int)].data@[k / (n as int)],
                        ),
                decreases n - b,
            {
                let v: i32 = img.comps[b].data[p];
                buffer.push(#[verifier::truncate] (v as u8));
                proof {
                    lemma_fundamental_div_mod_converse(
                        p * (n as int) + b,
                        n as int,
                        p as int,
                        b as int,
                    );
                }
                b = b + 1;
            }
            p = p + 1;
        }
        proof {
            assert forall|pi: int, bi: int|
                0 <= pi < spec_pixel_count(*img) && 0 <= bi < n implies buffer@[pi * (n as int)
                + bi] == spec_sample_byte(img.comps@[bi].data@[pi]) by {
                assert(pi * (n as int) + bi < pc * (n as int)) by (nonlinear_arith)
                    requires
                        0 <= pi < pc,
                        0 <= bi < n,
                ;
                lemma_fundamental_div_mod_converse(pi * (n as int) + bi, n as int, pi, bi);
            }
        }
        Ok(ImageBuffer { buffer, width, height, num_bands: n })
    }
}

} // verus!
