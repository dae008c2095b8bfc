//! Bitmaps: raw RGBA buffers as a capture delivers them, pixel images as the
//! canvas holds them, and the conversions between the two.

use vstd::prelude::*;
use crate::color::Color;

verus! {

/// An image as rows of pixels, top row first, four bytes per pixel in the
/// order red, green, blue, alpha. The buffer holds at least
/// `4 * width * height` bytes; bytes beyond those are not part of the image.
pub struct RgbaImage {
    width: u32,
    height: u32,
    data: Vec<u8>,
}

/// What an [`RgbaImage`] is.
pub struct RgbaImageModel {
    pub width: nat,
    pub height: nat,
    pub data: Seq<u8>,
}

impl RgbaImageModel {
    /// The buffer covers the image.
    pub open spec fn wf(self) -> bool {
        4 * (self.width * self.height) <= self.data.len()
    }

    /// The pixel in column `x` of row `y`.
    pub open spec fn pixel(self, x: int, y: int) -> Color {
        let at = 4 * (y * self.width + x);
        Color { r: self.data[at], g: self.data[at + 1], b: self.data[at + 2], a: self.data[at + 3] }
    }

    /// The part of the image that a crop at `(x, y)` of the given extent
    /// keeps: the region is cut down to what lies inside the image, and the
    /// result holds its rows and nothing else.
    pub open spec fn crop(self, x: nat, y: nat, width: nat, height: nat) -> RgbaImageModel {
        let left = if x <= self.width { x } else { self.width };
        let top = if y <= self.height { y } else { self.height };
        let w = if width <= self.width - left { width } else { (self.width - left) as nat };
        let h = if height <= self.height - top { height } else { (self.height - top) as nat };
        RgbaImageModel {
            width: w,
            height: h,
            data: Seq::new(
                4 * (w * h),
                |i: int|
                    {
                        let row = top + (i / 4) / (w as int);
                        let column = left + (i / 4) % (w as int);
                        self.data[4 * (row * self.width + column) + i % 4]
                    },
            ),
        }
    }
}

impl RgbaImage {
    /// The buffer covers the image.
    #[verifier::type_invariant]
    spec fn covered(self) -> bool {
        4 * (self.width * self.height) <= self.data@.len()
    }
}

impl View for RgbaImage {
    type V = RgbaImageModel;

    closed spec fn view(&self) -> RgbaImageModel {
        RgbaImageModel { width: self.width as nat, height: self.height as nat, data: self.data@ }
    }
}

/// An image as a list of pixels, row by row.
#[derive(Debug, PartialEq, Eq)]
pub struct ColorImage {
    pub width: usize,
    pub height: usize,
    pub pixels: Vec<Color>,
}

/// What a [`ColorImage`] is.
pub struct ColorImageModel {
    pub width: nat,
    pub height: nat,
    pub pixels: Seq<Color>,
}

impl ColorImageModel {
    /// There is one pixel for each position.
    pub open spec fn wf(self) -> bool {
        self.pixels.len() == self.width * self.height
    }

    /// The pixels as bytes, four per pixel in the order red, green, blue,
    /// alpha.
    pub open spec fn rgba_bytes(self) -> Seq<u8> {
        Seq::new(4 * self.pixels.len(), |i: int| channel(self.pixels[i / 4], i % 4))
    }
}

/// Channel `k` of a colour, counting red, green, blue, alpha from zero.
pub open spec fn channel(c: Color, k: int) -> u8 {
    if k == 0 {
        c.r
    } else if k == 1 {
        c.g
    } else if k == 2 {
        c.b
    } else {
        c.a
    }
}

impl View for ColorImage {
    type V = ColorImageModel;

    open spec fn view(&self) -> ColorImageModel {
        ColorImageModel {
            width: self.width as nat,
            height: self.height as nat,
            pixels: self.pixels@,
        }
    }
}

/// A finished capture: the image and the extent that was asked for.
pub struct CaptureResult {
    pub image: RgbaImage,
    pub width: u32,
    pub height: u32,
}

/// The unsigned number with the bit pattern of `v`.
pub open spec fn reinterpret_u32(v: i32) -> u32 {
    if v >= 0 {
        v as u32
    } else {
        (v + 0x1_0000_0000) as u32
    }
}

/// Reinterprets a signed number as unsigned, bit for bit.
pub fn to_unsigned(v: i32) -> (u: u32)
    ensures
        u == reinterpret_u32(v),
{
    if v >= 0 {
        v as u32
    } else {
        (v as i64 + 0x1_0000_0000) as u32
    }
}

/// Crops a raw RGBA buffer with `image::imageops::crop_imm`. The buffer is
/// read as an image of the given extent, which `ImageBuffer::from_raw`
/// accepts exactly when the buffer holds `4 * width * height` bytes or
/// more; the crop cuts the region down to the image, as `crop_imm` does,
/// and `SubImage::to_image` copies its pixels row by row into a buffer of
/// its own.
#[verifier::external_body]
fn crop_rgba(
    data: &Vec<u8>,
    width: u32,
    height: u32,
    x: u32,
    y: u32,
    w: u32,
    h: u32,
) -> (out: Option<Vec<u8>>)
    ensures
        out is Some <==> 4 * (width * height) <= data.len(),
        out matches Some(bytes) ==> bytes@ == (RgbaImageModel {
            width: width as nat,
            height: height as nat,
            data: data@,
        }).crop(x as nat, y as nat, w as nat, h as nat).data,
{
    match image::RgbaImage::from_raw(width, height, data.clone()) {
        Some(full) => Some(image::imageops::crop_imm(&full, x, y, w, h).to_image().into_raw()),
        None => None,
    }
}

impl RgbaImage {
    /// Makes an image of a raw buffer. The buffer must cover the image.
    pub fn from_raw(width: u32, height: u32, data: Vec<u8>) -> (image: Option<RgbaImage>)
        ensures
            image is Some <==> 4 * (width * height) <= data.len(),
            image matches Some(img) ==> img@ == (RgbaImageModel {
                width: width as nat,
                height: height as nat,
                data: data@,
            }) && img@.wf(),
    {
        assert(0 <= width * height <= 0xFFFF_FFFF * 0xFFFF_FFFF) by (nonlinear_arith)
            requires
                0 <= width <= 0xFFFF_FFFF,
                0 <= height <= 0xFFFF_FFFF,
        ;
        let needed: u128 = 4 * (width as u128 * height as u128);
        if needed <= data.len() as u128 {
            Some(RgbaImage { width, height, data })
        } else {
            None
        }
    }

    pub fn width(&self) -> (w: u32)
        ensures
            w == self@.width,
    {
        self.width
    }

    pub fn height(&self) -> (h: u32)
        ensures
            h == self@.height,
    {
        self.height
    }

    /// The raw buffer.
    pub fn as_raw(&self) -> (data: &Vec<u8>)
        ensures
            data@ == self@.data,
    {
        &self.data
    }

    /// Gives the raw buffer back.
    pub fn into_raw(self) -> (data: Vec<u8>)
        ensures
            data@ == self@.data,
    {
        self.data
    }

    /// Cuts the region at `(x, y)` of the given extent out of the image.
    /// What of the region lies outside the image is left out.
    pub fn crop(&self, x: u32, y: u32, width: u32, height: u32) -> (part: RgbaImage)
        ensures
            self@.wf(),
            part@ == self@.crop(x as nat, y as nat, width as nat, height as nat),
            part@.wf(),
    {
        proof {
            use_type_invariant(self);
        }
        let left = if x <= self.width { x } else { self.width };
        let top = if y <= self.height { y } else { self.height };
        let w = if width <= self.width - left { width } else { self.width - left };
        let h = if height <= self.height - top { height } else { self.height - top };
        let data = match crop_rgba(&self.data, self.width, self.height, x, y, width, height) {
            Some(data) => data,
            None => Vec::new(),
        };
        RgbaImage { width: w, height: h, data }
    }
}

/// The bytes of `data` with red and blue exchanged in every complete group
/// of four; a trailing group of fewer bytes stays as it is.
pub open spec fn swapped_red_blue(data: Seq<u8>) -> Seq<u8> {
    Seq::new(
        data.len(),
        |i: int|
            if i / 4 < data.len() / 4 && i % 4 == 0 {
                data[i + 2]
            } else if i / 4 < data.len() / 4 && i % 4 == 2 {
                data[i - 2]
            } else {
                data[i]
            },
    )
}

/// Turns a buffer of BGRA pixels into RGBA, in place.
pub fn bgra_to_rgba(buffer: &mut Vec<u8>)
    ensures
        final(buffer)@ == swapped_red_blue(old(buffer)@),
{
    let n = buffer.len() / 4;
    let mut k: usize = 0;
    while k < n
        invariant
            k <= n,
            4 * n <= old(buffer)@.len() <= usize::MAX,
            n == old(buffer)@.len() / 4,
            buffer@.len() == old(buffer)@.len(),
            forall|i: int| 0 <= i < 4 * k ==> buffer@[i] == swapped_red_blue(old(buffer)@)[i],
            forall|i: int| 4 * k <= i < buffer@.len() ==> buffer@[i] == old(buffer)@[i],
        decreases n - k,
    {
        let blue = buffer[4 * k];
        let red = buffer[4 * k + 2];
        buffer.set(4 * k, red);
        buffer.set(4 * k + 2, blue);
        k = k + 1;
    }
}

/// The pixels of a raw image: pixel `i` is made of the four bytes from
/// `4 * i` on.
pub open spec fn pixels_of(image: RgbaImageModel) -> Seq<Color> {
    Seq::new(
        image.width * image.height,
        |i: int|
            Color {
                r: image.data[4 * i],
                g: image.data[4 * i + 1],
                b: image.data[4 * i + 2],
                a: image.data[4 * i + 3],
            },
    )
}

/// Reads a raw image into a pixel image of the same extent.
pub fn image_buffer_to_color_image(buffer: &RgbaImage) -> (image: ColorImage)
    ensures
        buffer@.wf(),
        image@.width == buffer@.width,
        image@.height == buffer@.height,
        image@.pixels == pixels_of(buffer@),
        image@.wf(),
{
    proof {
        use_type_invariant(buffer);
    }
    let width = buffer.width as usize;
    let height = buffer.height as usize;
    let len = buffer.data.len();
    let count: usize = width * height;
    let mut pixels: Vec<Color> = Vec::new();
    let mut i: usize = 0;
    while i < count
        invariant
            i <= count,
            4 * count <= buffer.data@.len() <= usize::MAX,
            pixels@.len() == i,
            forall|j: int| 0 <= j < i ==> pixels@[j] == pixels_of(buffer@)[j],
            count == buffer@.width * buffer@.height,
            buffer@.data == buffer.data@,
        decreases count - i,
    {
        pixels.push(
            Color {
                r: buffer.data[4 * i],
                g: buffer.data[4 * i + 1],
                b: buffer.data[4 * i + 2],
                a: buffer.data[4 * i + 3],
            },
        );
        i = i + 1;
    }
    ColorImage { width, height, pixels }
}

impl Clone for ColorImage {
    fn clone(&self) -> (copy: ColorImage)
        ensures
            copy@ == self@,
    {
        let mut pixels: Vec<Color> = Vec::new();
        let mut i: usize = 0;
        while i < self.pixels.len()
            invariant
                i <= self.pixels.len(),
                pixels@ == self.pixels@.subrange(0, i as int),
            decreases self.pixels.len() - i,
        {
            pixels.push(self.pixels[i]);
            i = i + 1;
        }
        assert(pixels@ =~= self.pixels@);
        ColorImage { width: self.width, height: self.height, pixels }
    }
}

impl ColorImage {
    /// The pixels as raw bytes, four per pixel in the order red, green,
    /// blue, alpha.
    pub fn to_rgba_bytes(&self) -> (bytes: Vec<u8>)
        ensures
            bytes@ == self@.rgba_bytes(),
    {
        let mut bytes: Vec<u8> = Vec::new();
        let mut i: usize = 0;
        while i < self.pixels.len()
            invariant
                i <= self.pixels.len(),
                bytes@.len() == 4 * i,
                forall|j: int| 0 <= j < 4 * i ==> bytes@[j] == channel(self.pixels@[j / 4], j % 4),
            decreases self.pixels.len() - i,
        {
            let pixel = self.pixels[i];
            bytes.push(pixel.r);
            bytes.push(pixel.g);
            bytes.push(pixel.b);
            bytes.push(pixel.a);
            i = i + 1;
        }
        bytes
    }

    /// Whether there is one pixel for each position.
    pub fn is_valid(&self) -> (valid: bool)
        ensures
            valid == self@.wf(),
    {
        assert(0 <= self.width * self.height <= 0xFFFF_FFFF_FFFF_FFFF * 0xFFFF_FFFF_FFFF_FFFF)
            by (nonlinear_arith)
            requires
                0 <= self.width <= 0xFFFF_FFFF_FFFF_FFFF,
                0 <= self.height <= 0xFFFF_FFFF_FFFF_FFFF,
        ;
        self.width as u128 * self.height as u128 == self.pixels.len() as u128
    }

    /// The image as a raw image, for an encoder. There is none where the
    /// pixels do not match the extent, or where the extent does not fit the
    /// 32 bits of a raw image's.
    pub fn to_image_buffer(&self) -> (buffer: Option<RgbaImage>)
        ensures
            buffer is Some <==> self@.wf() && self@.width <= u32::MAX && self@.height <= u32::MAX,
            buffer matches Some(raw) ==> {
                &&& raw@.width == self@.width
                &&& raw@.height == self@.height
                &&& raw@.data == self@.rgba_bytes()
                &&& raw@.wf()
                &&& pixels_of(raw@) == self@.pixels
            },
    {
        if self.is_valid() && self.width <= u32::MAX as usize && self.height <= u32::MAX as usize {
            let data = self.to_rgba_bytes();
            let raw = RgbaImage { width: self.width as u32, height: self.height as u32, data };
            Some(raw)
        } else {
            None
        }
    }
}

impl CaptureResult {
    /// The region of a capture at `(x, y)` of the given extent. The numbers
    /// are read as unsigned, bit for bit, so that a negative one lies beyond
    /// every image; what of the region lies outside the capture is left
    /// out. The result records the extent that was asked for.
    pub fn crop(&self, x: i32, y: i32, width: i32, height: i32) -> (part: CaptureResult)
        ensures
            part.image@ == self.image@.crop(
                reinterpret_u32(x) as nat,
                reinterpret_u32(y) as nat,
                reinterpret_u32(width) as nat,
                reinterpret_u32(height) as nat,
            ),
            part.image@.wf(),
            part.width == reinterpret_u32(width),
            part.height == reinterpret_u32(height),
    {
        let image = self.image.crop(
            to_unsigned(x),
            to_unsigned(y),
            to_unsigned(width),
            to_unsigned(height),
        );
        CaptureResult { image, width: to_unsigned(width), height: to_unsigned(height) }
    }
}

} // verus!
