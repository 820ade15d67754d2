//! The logo: a grid of RGBA pixels in premultiplied alpha, decoded from PNG
//! bytes.

use vstd::prelude::*;

verus! {

/// One pixel in premultiplied alpha: `a` is the alpha of the decoded pixel,
/// and each colour channel is the decoded one scaled by it.
#[derive(Clone, Copy, Debug, PartialEq, Eq, Structural)]
pub struct Pixel {
    pub r: u8,
    pub g: u8,
    pub b: u8,
    pub a: u8,
}

/// A colour channel scaled by alpha, where 255 is full alpha, rounded to the
/// nearest whole number: `(c * a + 127) / 255`.
pub open spec fn premultiply(c: u8, a: u8) -> u8 {
    ((c * a + 127) / 255) as u8
}

impl Pixel {
    /// The premultiplied pixel for four straight channels: alpha is kept, and
    /// each colour channel is scaled by it.
    pub open spec fn spec_from_straight(r: u8, g: u8, b: u8, a: u8) -> Pixel {
        Pixel { r: premultiply(r, a), g: premultiply(g, a), b: premultiply(b, a), a }
    }

    /// No colour channel exceeds alpha.
    pub open spec fn is_premultiplied(self) -> bool {
        self.r <= self.a && self.g <= self.a && self.b <= self.a
    }

    /// Premultiplies four straight channels.
    pub fn from_straight(r: u8, g: u8, b: u8, a: u8) -> (p: Pixel)
        ensures
            p == Pixel::spec_from_straight(r, g, b, a),
            p.is_premultiplied(),
    {
        Pixel { r: scale(r, a), g: scale(g, a), b: scale(b, a), a }
    }
}

/// Scales a colour channel by alpha.
fn scale(c: u8, a: u8) -> (scaled: u8)
    ensures
        scaled == premultiply(c, a),
        scaled <= a,
{
    proof {
        lemma_premultiply(c, a);
    }
    let product: u16 = (c as u16) * (a as u16);
    ((product + 127) / 255) as u8
}

/// A scaled channel never exceeds alpha nor the channel it came from. Full
/// alpha leaves the channel as it is, no alpha makes it 0, and a full channel
/// becomes alpha itself.
pub proof fn lemma_premultiply(c: u8, a: u8)
    ensures
        0 <= c * a <= 255 * 255,
        (c * a + 127) / 255 <= a,
        (c * a + 127) / 255 <= c,
        premultiply(c, a) == (c * a + 127) / 255,
        premultiply(c, a) <= a,
        premultiply(c, a) <= c,
        a == 255 ==> premultiply(c, a) == c,
        a == 0 ==> premultiply(c, a) == 0,
        c == 255 ==> premultiply(c, a) == a,
        c == 0 ==> premultiply(c, a) == 0,
{
    assert(0 <= c * a && c * a <= 255 * a && c * a <= c * 255 && c * a <= 255 * 255)
        by (nonlinear_arith)
        requires
            0 <= c <= 255,
            0 <= a <= 255,
    ;
    if a == 255 {
        assert(c * a == c * 255) by (nonlinear_arith)
            requires
                a == 255,
        ;
    }
    if a == 0 {
        assert(c * a == 0) by (nonlinear_arith)
            requires
                a == 0,
        ;
    }
    if c == 255 {
        assert(c * a == 255 * a) by (nonlinear_arith)
            requires
                c == 255,
        ;
    }
    if c == 0 {
        assert(c * a == 0) by (nonlinear_arith)
            requires
                c == 0,
        ;
    }
}

/// Why a logo could not be had from its bytes.
#[derive(Clone, Copy, Debug, PartialEq, Eq, Structural)]
pub enum DecodeError {
    /// The bytes are not a PNG image that the decoder accepts.
    Malformed,
    /// The decoded buffer cannot be read as a grid of the declared width and
    /// height.
    DimensionMismatch,
}

/// The mathematical value of a [`LogoImage`]: `pixels` holds the rows one
/// after another, top row first.
pub struct LogoView {
    pub width: nat,
    pub height: nat,
    pub pixels: Seq<Pixel>,
}

/// The premultiplied pixel for the four straight channels that start at
/// channel `4 * i` of a raw RGBA buffer.
pub open spec fn pixel_at(data: Seq<u8>, i: int) -> Pixel {
    Pixel::spec_from_straight(data[4 * i], data[4 * i + 1], data[4 * i + 2], data[4 * i + 3])
}

/// A raw RGBA buffer holds enough channels for `width * height` pixels.
pub open spec fn raw_fits(width: nat, height: nat, len: nat) -> bool {
    4 * width * height <= len
}

/// The grid that a raw buffer of straight RGBA channels stands for: its first
/// `width * height` pixels, row by row, each premultiplied.
pub open spec fn grid_of(width: nat, height: nat, data: Seq<u8>) -> LogoView {
    LogoView { width, height, pixels: Seq::new(width * height, |i: int| pixel_at(data, i)) }
}

/// Premultiplying keeps alpha and leaves no colour channel above it. An
/// opaque pixel stays as it is, and a pixel without alpha becomes all zero.
pub proof fn lemma_from_straight(r: u8, g: u8, b: u8, a: u8)
    ensures
        Pixel::spec_from_straight(r, g, b, a).a == a,
        Pixel::spec_from_straight(r, g, b, a).is_premultiplied(),
        Pixel::spec_from_straight(r, g, b, a).r <= r,
        Pixel::spec_from_straight(r, g, b, a).g <= g,
        Pixel::spec_from_straight(r, g, b, a).b <= b,
        a == 255 ==> Pixel::spec_from_straight(r, g, b, a) == (Pixel { r, g, b, a }),
        a == 0 ==> Pixel::spec_from_straight(r, g, b, a) == (Pixel { r: 0, g: 0, b: 0, a: 0 }),
{
    lemma_premultiply(r, a);
    lemma_premultiply(g, a);
    lemma_premultiply(b, a);
}

/// The grid that a raw buffer stands for is well-formed, and each of its
/// pixels is the premultiplied form of the four channels at its place.
pub proof fn lemma_grid_of(width: nat, height: nat, data: Seq<u8>)
    requires
        width <= u32::MAX,
        height <= u32::MAX,
    ensures
        grid_of(width, height, data).wf(),
        forall|i: int|
            0 <= i < width * height ==> #[trigger] grid_of(width, height, data).pixels[i]
                == Pixel::spec_from_straight(
                data[4 * i],
                data[4 * i + 1],
                data[4 * i + 2],
                data[4 * i + 3],
            ),
{
    let grid = grid_of(width, height, data);
    assert forall|i: int| 0 <= i < grid.pixels.len() implies (#[trigger] grid.pixels[i]).is_premultiplied() by {
        lemma_from_straight(data[4 * i], data[4 * i + 1], data[4 * i + 2], data[4 * i + 3]);
    }
}

impl LogoView {
    /// The grid has exactly `width * height` pixels, each of them in
    /// premultiplied alpha, and both sides fit the 32 bits that a PNG header
    /// has for each.
    pub open spec fn wf(self) -> bool {
        &&& self.width <= u32::MAX
        &&& self.height <= u32::MAX
        &&& self.pixels.len() == self.width * self.height
        &&& forall|i: int| 0 <= i < self.pixels.len() ==> (#[trigger] self.pixels[i]).is_premultiplied()
    }

    /// The pixel in column `x` of row `y`.
    pub open spec fn at(self, x: int, y: int) -> Pixel
        recommends
            0 <= x < self.width,
            0 <= y < self.height,
    {
        self.pixels[y * self.width + x]
    }
}

/// The eight bytes that every PNG stream starts with.
pub open spec fn png_signature() -> Seq<u8> {
    seq![137u8, 80u8, 78u8, 71u8, 13u8, 10u8, 26u8, 10u8]
}

/// The type tag of the header chunk, `IHDR`, which comes first in a PNG stream.
pub open spec fn header_tag() -> Seq<u8> {
    seq![73u8, 72u8, 68u8, 82u8]
}

/// The big-endian number in the four bytes from `at` on.
pub open spec fn be_u32(bytes: Seq<u8>, at: int) -> int {
    bytes[at] * 0x100_0000 + bytes[at + 1] * 0x1_0000 + bytes[at + 2] * 0x100 + bytes[at + 3]
}

/// The width and height that a PNG stream declares in its header chunk, if
/// the stream starts with the signature and that chunk.
pub open spec fn spec_declared_dimensions(bytes: Seq<u8>) -> Option<(u32, u32)> {
    if bytes.len() >= 24 && bytes.subrange(0, 8) == png_signature() && bytes.subrange(12, 16)
        == header_tag() {
        Some((be_u32(bytes, 16) as u32, be_u32(bytes, 20) as u32))
    } else {
        None
    }
}

/// The logo that decoded pixels stand for, given what the stream declared.
pub open spec fn spec_from_decoded(
    declared: Option<(u32, u32)>,
    width: u32,
    height: u32,
    data: Seq<u8>,
) -> Result<LogoView, DecodeError> {
    if declared == Some((width, height)) && raw_fits(width as nat, height as nat, data.len()) {
        Ok(grid_of(width as nat, height as nat, data))
    } else {
        Err(DecodeError::DimensionMismatch)
    }
}

/// What the PNG decoder makes of a byte stream: `None` where it refuses the
/// stream, else the width, the height and the pixels as 8-bit RGBA channels,
/// row by row.
pub uninterp spec fn png_rgba8(bytes: Seq<u8>) -> Option<(u32, u32, Seq<u8>)>;

/// The logo that a byte stream holds, or the reason why it holds none.
pub open spec fn spec_logo(bytes: Seq<u8>) -> Result<LogoView, DecodeError> {
    match png_rgba8(bytes) {
        None => Err(DecodeError::Malformed),
        Some((width, height, data)) => spec_from_decoded(
            spec_declared_dimensions(bytes),
            width,
            height,
            data,
        ),
    }
}

/// `image::ImageError`, the decoder's reason for refusing a stream. Nothing is
/// known of what a value of it holds.
#[verifier::external_type_specification]
#[verifier::external_body]
pub struct ExImageError(image::ImageError);

/// Decodes a PNG stream with `image::load_from_memory_with_format` and takes
/// the picture as 8-bit RGBA with `DynamicImage::to_rgba8`. Believed, not
/// proved: the outcome is a function of the bytes alone, named [`png_rgba8`];
/// an error stands for `None`.
#[verifier::external_body]
fn decode_png_rgba8(bytes: &[u8]) -> (r: Result<(u32, u32, Vec<u8>), image::ImageError>)
    ensures
        match r {
            Ok(decoded) => png_rgba8(bytes@) == Some((decoded.0, decoded.1, decoded.2@)),
            Err(_) => png_rgba8(bytes@) is None,
        },
{
    let picture = image::load_from_memory_with_format(bytes, image::ImageFormat::Png)?.to_rgba8();
    let (width, height) = picture.dimensions();
    Ok((width, height, picture.into_raw()))
}

/// Reads the width and height that a PNG stream declares in its header chunk.
pub fn declared_dimensions(bytes: &[u8]) -> (r: Option<(u32, u32)>)
    ensures
        r == spec_declared_dimensions(bytes@),
{
    if bytes.len() < 24 {
        return None;
    }
    let signature: [u8; 8] = [137, 80, 78, 71, 13, 10, 26, 10];
    let tag: [u8; 4] = [73, 72, 68, 82];
    let mut i: usize = 0;
    while i < 8
        invariant
            i <= 8,
            bytes@.len() >= 24,
            signature@ == png_signature(),
            forall|j: int| 0 <= j < i ==> bytes@[j] == png_signature()[j],
        decreases 8 - i,
    {
        if bytes[i] != signature[i] {
            assert(bytes@.subrange(0, 8)[i as int] != png_signature()[i as int]);
            return None;
        }
        i += 1;
    }
    assert(bytes@.subrange(0, 8) =~= png_signature());
    let mut k: usize = 0;
    while k < 4
        invariant
            k <= 4,
            bytes@.len() >= 24,
            tag@ == header_tag(),
            forall|j: int| 0 <= j < k ==> bytes@[12 + j] == header_tag()[j],
        decreases 4 - k,
    {
        if bytes[12 + k] != tag[k] {
            assert(bytes@.subrange(12, 16)[k as int] != header_tag()[k as int]);
            return None;
        }
        k += 1;
    }
    assert(bytes@.subrange(12, 16) =~= header_tag());
    let width: u32 = read_be_u32(bytes, 16);
    let height: u32 = read_be_u32(bytes, 20);
    Some((width, height))
}

/// Reads the big-endian number in the four bytes from `at` on.
fn read_be_u32(bytes: &[u8], at: usize) -> (n: u32)
    requires
        at + 4 <= bytes@.len(),
    ensures
        n == be_u32(bytes@, at as int),
{
    (bytes[at] as u32) * 0x100_0000 + (bytes[at + 1] as u32) * 0x1_0000 + (bytes[at + 2] as u32)
        * 0x100 + (bytes[at + 3] as u32)
}

/// Decodes the logo from the bytes of a PNG image.
///
/// The picture is taken as 8-bit RGBA and each pixel is premultiplied by its
/// alpha. It is refused where the decoder refuses
/// the stream, where its size is not the one that the stream declares in its
/// header, and where the decoded buffer is too short for that size.
pub fn get_logo(bytes: &[u8]) -> (r: Result<LogoImage, DecodeError>)
    ensures
        match r {
            Ok(logo) => logo@.wf() && spec_logo(bytes@) == Ok::<LogoView, DecodeError>(logo@),
            Err(e) => spec_logo(bytes@) == Err::<LogoView, DecodeError>(e),
        },
{
    match decode_png_rgba8(bytes) {
        Ok(decoded) => LogoImage::from_decoded(
            declared_dimensions(bytes),
            decoded.0,
            decoded.1,
            decoded.2.as_slice(),
        ),
        Err(_) => Err(DecodeError::Malformed),
    }
}

/// An immutable grid of RGBA pixels with its width and height.
pub struct LogoImage {
    width: u32,
    height: u32,
    pixels: Vec<Pixel>,
}

impl View for LogoImage {
    type V = LogoView;

    closed spec fn view(&self) -> LogoView {
        LogoView { width: self.width as nat, height: self.height as nat, pixels: self.pixels@ }
    }
}

impl LogoImage {
    #[verifier::type_invariant]
    spec fn inv(self) -> bool {
        &&& self.pixels@.len() == self.width * self.height
        &&& forall|i: int|
            0 <= i < self.pixels@.len() ==> (#[trigger] self.pixels@[i]).is_premultiplied()
    }

    /// The number of pixels in a row.
    pub fn width(&self) -> (w: u32)
        ensures
            w == self@.width,
            self@.wf(),
    {
        proof {
            use_type_invariant(self);
        }
        self.width
    }

    /// The number of rows.
    pub fn height(&self) -> (h: u32)
        ensures
            h == self@.height,
            self@.wf(),
    {
        proof {
            use_type_invariant(self);
        }
        self.height
    }

    /// The pixels, row by row, top row first.
    pub fn pixels(&self) -> (p: &Vec<Pixel>)
        ensures
            p@ == self@.pixels,
            self@.wf(),
    {
        proof {
            use_type_invariant(self);
        }
        &self.pixels
    }

    /// The pixel in column `x` of row `y`, or `None` outside the grid.
    pub fn pixel(&self, x: u32, y: u32) -> (p: Option<Pixel>)
        ensures
            p == if x < self@.width && y < self@.height {
                Some(self@.at(x as int, y as int))
            } else {
                None
            },
    {
        proof {
            use_type_invariant(self);
        }
        if x < self.width && y < self.height {
            assert(0 <= y * self.width && y * self.width + x < self.width * self.height)
                by (nonlinear_arith)
                requires
                    0 <= x < self.width,
                    0 <= y < self.height,
            ;
            let count: usize = self.pixels.len();
            assert(y * self.width + x < count);
            let at: usize = (y as usize) * (self.width as usize) + (x as usize);
            Some(self.pixels[at])
        } else {
            None
        }
    }

    /// Builds the logo from what the decoder gave, provided that the size is
    /// the one that the stream declared and the buffer is long enough for it.
    pub fn from_decoded(declared: Option<(u32, u32)>, width: u32, height: u32, data: &[u8]) -> (r:
        Result<LogoImage, DecodeError>)
        ensures
            match r {
                Ok(logo) => logo@.wf() && spec_from_decoded(declared, width, height, data@) == Ok::<
                    LogoView,
                    DecodeError,
                >(logo@),
                Err(e) => spec_from_decoded(declared, width, height, data@) == Err::<
                    LogoView,
                    DecodeError,
                >(e),
            },
    {
        match declared {
            Some((w, h)) => {
                if w == width && h == height {
                    LogoImage::from_raw(width, height, data)
                } else {
                    Err(DecodeError::DimensionMismatch)
                }
            },
            None => Err(DecodeError::DimensionMismatch),
        }
    }

    /// Reads a raw buffer of straight RGBA channels as a grid of `width` by
    /// `height` pixels and premultiplies each pixel. The buffer must hold at
    /// least `4 * width * height` channels; what lies beyond them is ignored.
    pub fn from_raw(width: u32, height: u32, data: &[u8]) -> (r: Result<LogoImage, DecodeError>)
        ensures
            match r {
                Ok(logo) => raw_fits(width as nat, height as nat, data@.len()) && logo@.wf()
                    && logo@ == grid_of(width as nat, height as nat, data@),
                Err(e) => !raw_fits(width as nat, height as nat, data@.len())
                    && e == DecodeError::DimensionMismatch,
            },
    {
        assert(width * height <= 0xffff_ffff * 0xffff_ffff) by (nonlinear_arith)
            requires
                0 <= width <= 0xffff_ffff,
                0 <= height <= 0xffff_ffff,
        ;
        let area: u64 = (width as u64) * (height as u64);
        let len: usize = data.len();
        assert(4 * width * height == 4 * (width * height)) by (nonlinear_arith);
        if area > (len as u64) / 4 {
            return Err(DecodeError::DimensionMismatch);
        }
        let w: usize = width as usize;
        let h: usize = height as usize;
        let mut pixels: Vec<Pixel> = Vec::new();
        let mut y: usize = 0;
        while y < h
            invariant
                y <= h,
                w == width,
                h == height,
                len == data@.len(),
                4 * (w * h) <= len,
                pixels@.len() == y * w,
                forall|i: int| 0 <= i < pixels@.len() ==> pixels@[i] == pixel_at(data@, i),
                forall|i: int| 0 <= i < pixels@.len() ==> (#[trigger] pixels@[i]).is_premultiplied(),
            decreases h - y,
        {
            let mut x: usize = 0;
            while x < w
                invariant
                    x <= w,
                    y < h,
                    len == data@.len(),
                    4 * (w * h) <= len,
                    pixels@.len() == y * w + x,
                    forall|i: int| 0 <= i < pixels@.len() ==> pixels@[i] == pixel_at(data@, i),
                    forall|i: int|
                        0 <= i < pixels@.len() ==> (#[trigger] pixels@[i]).is_premultiplied(),
                decreases w - x,
            {
                assert(0 <= y * w && y * w + x < w * h) by (nonlinear_arith)
                    requires
                        0 <= x < w,
                        0 <= y < h,
                ;
                let at: usize = (y * w + x) * 4;
                pixels.push(
                    Pixel::from_straight(data[at], data[at + 1], data[at + 2], data[at + 3]),
                );
                x += 1;
            }
            assert(y * w + w == (y + 1) * w) by (nonlinear_arith);
            y += 1;
        }
        assert(h * w == width * height) by (nonlinear_arith)
            requires
                w == width,
                h == height,
        ;
        let logo = LogoImage { width, height, pixels };
        assert(logo@.pixels =~= grid_of(width as nat, height as nat, data@).pixels);
        Ok(logo)
    }
}

} // verus!
