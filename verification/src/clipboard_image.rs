//! Images from the clipboard: from the device-independent bitmap that the
//! system hands out to the PNG file that the history keeps.

use sha2::Digest;
use vstd::prelude::*;
use vstd::string::*;

verus! {

/// What SHA-256 makes of `data`, as the `sha2` crate computes it.
pub uninterp spec fn sha256_of(data: Seq<u8>) -> Seq<u8>;

/// The PNG file that the `png` crate writes for a picture of `width` by
/// `height` pixels with the colours `rgba`, eight bits for each of red, green,
/// blue and alpha; `None` where it reports an error. It is applied only to a
/// picture that has pixels, with four bytes of data for each.
pub uninterp spec fn png_of(rgba: Seq<u8>, width: u32, height: u32) -> Option<Seq<u8>>;

/// Hashes `data` with `Sha256::digest`. A SHA-256 digest has 32 bytes.
#[verifier::external_body]
pub(crate) fn sha256(data: &[u8]) -> (digest: Vec<u8>)
    ensures
        digest@ == sha256_of(data@),
        digest@.len() == 32,
{
    sha2::Sha256::digest(data).to_vec()
}

/// Writes a PNG file into memory with `png::Encoder`: colour type RGBA, depth
/// eight, then the header and the image data. It is called only for a picture
/// that has pixels and data of four bytes for each of them, so that the sizes
/// that the encoder computes stay within the length of the data.
#[verifier::external_body]
pub(crate) fn encode_png(rgba: &[u8], width: u32, height: u32) -> (file: Option<Vec<u8>>)
    requires
        width > 0,
        height > 0,
        rgba@.len() == width * height * 4,
    ensures
        file is Some == png_of(rgba@, width, height) is Some,
        file is Some ==> file->0@ == png_of(rgba@, width, height)->0,
{
    let mut file = Vec::new();
    let mut encoder = png::Encoder::new(&mut file, width, height);
    encoder.set_color(png::ColorType::Rgba);
    encoder.set_depth(png::BitDepth::Eight);
    let mut writer = encoder.write_header().ok()?;
    writer.write_image_data(rgba).ok()?;
    writer.finish().ok()?;
    Some(file)
}

/// The header of a device-independent bitmap, as far as it matters here.
#[derive(Clone, Copy, Debug, PartialEq, Eq, Structural)]
pub struct DibHeader {
    pub width: i32,
    /// The number of rows; a negative number says the same as its positive.
    pub height: i32,
    /// The number of bits of one pixel.
    pub bit_count: u16,
}

impl DibHeader {
    /// The number of rows.
    pub open spec fn rows(self) -> int {
        if self.height < 0 {
            -self.height
        } else {
            self.height as int
        }
    }

    /// The number of bytes of one pixel.
    pub open spec fn bytes_per_pixel(self) -> int {
        self.bit_count as int / 8
    }

    /// The number of bytes of one row: rows are padded to four bytes.
    pub open spec fn row_size(self) -> int {
        (self.width * self.bit_count + 31) / 32 * 4
    }

    /// The picture can be converted: its width is not negative, a pixel has at
    /// least the three bytes of blue, green and red, and the sizes stay within
    /// 32 bits.
    pub open spec fn usable(self) -> bool {
        &&& self.width >= 0
        &&& self.height > i32::MIN
        &&& self.bit_count >= 24
        &&& self.width * self.bit_count + 31 <= i32::MAX
        &&& self.width * self.rows() * 4 <= i32::MAX
    }
}

/// The pixel that begins at `offset`, as red, green, blue and full alpha; a
/// pixel that the data does not hold in full is left out.
pub open spec fn pixel_rgba(pixels: Seq<u8>, offset: int, bytes_per_pixel: int) -> Seq<u8> {
    if 0 <= offset && offset + bytes_per_pixel <= pixels.len() {
        seq![pixels[offset + 2], pixels[offset + 1], pixels[offset], 255u8]
    } else {
        Seq::empty()
    }
}

/// The first `count` pixels of the row that begins at `start`.
pub open spec fn row_rgba(pixels: Seq<u8>, start: int, bytes_per_pixel: int, count: nat) -> Seq<u8>
    decreases count,
{
    if count == 0 {
        Seq::empty()
    } else {
        row_rgba(pixels, start, bytes_per_pixel, (count - 1) as nat) + pixel_rgba(
            pixels,
            start + (count - 1) * bytes_per_pixel,
            bytes_per_pixel,
        )
    }
}

/// The topmost `count` rows of the picture. A bitmap holds its rows from the
/// bottom up, so the top row of the picture is the last row of the data.
pub open spec fn rows_rgba(pixels: Seq<u8>, header: DibHeader, count: nat) -> Seq<u8>
    decreases count,
{
    if count == 0 {
        Seq::empty()
    } else {
        rows_rgba(pixels, header, (count - 1) as nat) + row_rgba(
            pixels,
            (header.rows() - count) * header.row_size(),
            header.bytes_per_pixel(),
            header.width as nat,
        )
    }
}

/// The picture as rows of red, green, blue and alpha from the top down.
pub open spec fn rgba_of_dib(header: DibHeader, pixels: Seq<u8>) -> Seq<u8> {
    rows_rgba(pixels, header, header.rows() as nat)
}

/// Converts the pixels of a bitmap, which follow its header, into rows of red,
/// green, blue and alpha from the top down. It gives `None` for a header that
/// is not usable.
pub fn dib_to_rgba(header: &DibHeader, pixels: &[u8]) -> (rgba: Option<Vec<u8>>)
    ensures
        rgba is Some == header.usable(),
        rgba is Some ==> rgba->0@ == rgba_of_dib(*header, pixels@),
{
    if header.width < 0 || header.height == i32::MIN || header.bit_count < 24 {
        return None;
    }
    let width: u64 = header.width as u64;
    let height: u64 = if header.height < 0 {
        (-header.height) as u64
    } else {
        header.height as u64
    };
    let bit_count: u64 = header.bit_count as u64;
    assert(width * bit_count <= 0x7fff_ffff * 0xffff) by (nonlinear_arith)
        requires
            width <= 0x7fff_ffff,
            bit_count <= 0xffff,
    ;
    assert(width * height <= 0x7fff_ffff * 0x7fff_ffff) by (nonlinear_arith)
        requires
            width <= 0x7fff_ffff,
            height <= 0x7fff_ffff,
    ;
    let bits: u64 = width * bit_count;
    let area: u64 = width * height;
    if bits + 31 > 0x7fff_ffff || area * 4 > 0x7fff_ffff {
        return None;
    }
    let row_size: u64 = (bits + 31) / 32 * 4;
    let bytes_per_pixel: u64 = bit_count / 8;
    let available: u64 = pixels.len() as u64;
    let mut rgba: Vec<u8> = Vec::new();
    let mut done: u64 = 0;
    while done < height
        invariant
            done <= height,
            height == header.rows(),
            width == header.width,
            0 <= header.width,
            row_size == header.row_size(),
            row_size <= 0x1000_0000,
            height <= 0x7fff_ffff,
            width <= 0x7fff_ffff,
            bytes_per_pixel == header.bytes_per_pixel(),
            3 <= bytes_per_pixel <= 0x2000,
            available == pixels@.len(),
            rgba@ == rows_rgba(pixels@, *header, done as nat),
        decreases height - done,
    {
        let y: u64 = height - 1 - done;
        assert(y * row_size <= 0x7fff_ffff * 0x1000_0000) by (nonlinear_arith)
            requires
                y <= 0x7fff_ffff,
                row_size <= 0x1000_0000,
        ;
        let start: u64 = y * row_size;
        let ghost before = rgba@;
        let mut x: u64 = 0;
        while x < width
            invariant
                x <= width,
                width <= 0x7fff_ffff,
                3 <= bytes_per_pixel <= 0x2000,
                start <= 0x7fff_ffff * 0x1000_0000,
                available == pixels@.len(),
                rgba@ == before + row_rgba(pixels@, start as int, bytes_per_pixel as int, x as nat),
            decreases width - x,
        {
            assert(x * bytes_per_pixel <= 0x7fff_ffff * 0x2000) by (nonlinear_arith)
                requires
                    x <= 0x7fff_ffff,
                    bytes_per_pixel <= 0x2000,
            ;
            let offset: u64 = start + x * bytes_per_pixel;
            let ghost row_before = rgba@;
            if offset + bytes_per_pixel <= available {
                let at: usize = offset as usize;
                let blue = pixels[at];
                let green = pixels[at + 1];
                let red = pixels[at + 2];
                rgba.push(red);
                rgba.push(green);
                rgba.push(blue);
                rgba.push(255);
            }
            proof {
                assert(rgba@ =~= row_before + pixel_rgba(
                    pixels@,
                    offset as int,
                    bytes_per_pixel as int,
                ));
                assert(rgba@ =~= before + row_rgba(
                    pixels@,
                    start as int,
                    bytes_per_pixel as int,
                    (x + 1) as nat,
                ));
            }
            x += 1;
        }
        proof {
            assert(start == (header.rows() - (done + 1)) * header.row_size());
        }
        done += 1;
    }
    Some(rgba)
}

/// A row of `count` pixels that the data holds in full has four bytes for
/// each of them.
pub proof fn lemma_full_row_has_every_pixel(
    pixels: Seq<u8>,
    start: int,
    bytes_per_pixel: int,
    count: nat,
)
    requires
        0 <= start,
        0 <= bytes_per_pixel,
        start + count * bytes_per_pixel <= pixels.len(),
    ensures
        row_rgba(pixels, start, bytes_per_pixel, count).len() == 4 * count,
    decreases count,
{
    if count > 0 {
        assert((count - 1) * bytes_per_pixel + bytes_per_pixel == count * bytes_per_pixel)
            by (nonlinear_arith);
        assert(0 <= (count - 1) * bytes_per_pixel) by (nonlinear_arith)
            requires
                count >= 1,
                bytes_per_pixel >= 0,
        ;
        lemma_full_row_has_every_pixel(pixels, start, bytes_per_pixel, (count - 1) as nat);
    }
}

/// The pixels of a row take no more room than the row has.
pub proof fn lemma_row_holds_its_pixels(header: DibHeader)
    requires
        header.usable(),
    ensures
        0 <= header.width * header.bytes_per_pixel() <= header.row_size(),
{
    let w = header.width as int;
    let bits = header.bit_count as int;
    let bpp = header.bytes_per_pixel();
    assert(8 * bpp <= bits);
    assert(w * (8 * bpp) <= w * bits) by (nonlinear_arith)
        requires
            0 <= w,
            8 * bpp <= bits,
    ;
    assert(w * (8 * bpp) == 8 * (w * bpp)) by (nonlinear_arith);
    assert(0 <= w * bpp) by (nonlinear_arith)
        requires
            0 <= w,
            0 <= bpp,
    ;
}

/// A bitmap whose data holds every row in full gives every pixel: four bytes
/// for each, which is what writing it as PNG asks for.
pub proof fn lemma_full_bitmap_has_every_pixel(header: DibHeader, pixels: Seq<u8>, count: nat)
    requires
        header.usable(),
        count <= header.rows(),
        header.rows() * header.row_size() <= pixels.len(),
    ensures
        rows_rgba(pixels, header, count).len() == 4 * header.width * count,
    decreases count,
{
    if count > 0 {
        lemma_full_bitmap_has_every_pixel(header, pixels, (count - 1) as nat);
        lemma_row_holds_its_pixels(header);
        let rows = header.rows();
        let size = header.row_size();
        let start = (rows - count) * size;
        assert(0 <= start && start + size <= rows * size) by (nonlinear_arith)
            requires
                start == (rows - count) * size,
                1 <= count <= rows,
                0 <= size,
        ;
        lemma_full_row_has_every_pixel(
            pixels,
            start,
            header.bytes_per_pixel(),
            header.width as nat,
        );
        let row = row_rgba(pixels, start, header.bytes_per_pixel(), header.width as nat);
        let above = rows_rgba(pixels, header, (count - 1) as nat);
        assert(row.len() == 4 * header.width);
        assert(above.len() == 4 * header.width * (count - 1));
        assert(rows_rgba(pixels, header, count) == above + row);
        assert(4 * header.width * (count - 1) + 4 * header.width == 4 * header.width * count)
            by (nonlinear_arith);
    } else {
        assert(4 * header.width * count == 0) by (nonlinear_arith)
            requires
                count == 0,
        ;
    }
}

/// The sixteen digits to the base of sixteen.
pub open spec fn hex_digit_of(n: int) -> char {
    "0123456789abcdef"@[n]
}

/// The bytes written to the base of sixteen, two digits each, in lower case.
pub open spec fn hex_of(bytes: Seq<u8>) -> Seq<char>
    decreases bytes.len(),
{
    if bytes.len() == 0 {
        Seq::empty()
    } else {
        hex_of(bytes.drop_last()).push(hex_digit_of(bytes.last() as int / 16)).push(
            hex_digit_of(bytes.last() as int % 16),
        )
    }
}

/// The name of the file that holds a picture with the digest `digest`: the
/// first eight bytes of the digest between `clipboard_` and `.png`.
pub open spec fn image_file_name_of(digest: Seq<u8>) -> Seq<char> {
    "clipboard_"@ + hex_of(digest.take(8)) + ".png"@
}

/// Writes the first `count` bytes to the base of sixteen behind `text`.
pub fn append_hex(text: &mut String, bytes: &[u8], count: usize)
    requires
        count <= bytes@.len(),
    ensures
        final(text)@ == old(text)@ + hex_of(bytes@.take(count as int)),
{
    let digits = "0123456789abcdef";
    proof {
        reveal_strlit("0123456789abcdef");
    }
    let mut i: usize = 0;
    assert(bytes@.take(0) =~= Seq::<u8>::empty());
    while i < count
        invariant
            i <= count <= bytes@.len(),
            digits@ == "0123456789abcdef"@,
            digits@.len() == 16,
            text@ == old(text)@ + hex_of(bytes@.take(i as int)),
        decreases count - i,
    {
        let high = (bytes[i] / 16) as usize;
        let low = (bytes[i] % 16) as usize;
        text.append(digits.substring_char(high, high + 1));
        text.append(digits.substring_char(low, low + 1));
        proof {
            assert(bytes@.take(i as int + 1).drop_last() =~= bytes@.take(i as int));
            assert(digits@.subrange(high as int, high + 1) =~= seq![hex_digit_of(high as int)]);
            assert(digits@.subrange(low as int, low + 1) =~= seq![hex_digit_of(low as int)]);
            assert(text@ =~= old(text)@ + hex_of(bytes@.take(i as int + 1)));
        }
        i += 1;
    }
}

/// The name of the file that holds the picture `rgba`. Pictures with the
/// same pixels get the same name, so a picture is stored once.
pub fn clipboard_image_name(rgba: &[u8]) -> (name: String)
    ensures
        name@ == image_file_name_of(sha256_of(rgba@)),
{
    let digest = sha256(rgba);
    let mut name = String::from_str("clipboard_");
    append_hex(&mut name, digest.as_slice(), 8);
    name.append(".png");
    name
}

/// What writing a picture as PNG comes to. The header cannot be written for a
/// picture without pixels, and the data cannot be written unless it has four
/// bytes for each pixel; otherwise it is the file where the encoder made one.
pub open spec fn saved_png_of(rgba: Seq<u8>, width: u32, height: u32) -> Result<Seq<u8>, Seq<char>> {
    if width == 0 || height == 0 {
        Err("Failed to write PNG header"@)
    } else if rgba.len() != width * height * 4 {
        Err("Failed to write PNG data"@)
    } else if png_of(rgba, width, height) is Some {
        Ok(png_of(rgba, width, height)->0)
    } else {
        Err("Failed to write PNG data"@)
    }
}

/// Writes a picture as a PNG file into memory. The sizes are checked here,
/// before the encoder is asked.
pub fn save_png(rgba: &[u8], width: u32, height: u32) -> (file: Result<Vec<u8>, String>)
    ensures
        file is Ok == saved_png_of(rgba@, width, height) is Ok,
        file is Ok ==> file->Ok_0@ == saved_png_of(rgba@, width, height)->Ok_0,
        file is Err ==> file->Err_0@ == saved_png_of(rgba@, width, height)->Err_0,
{
    if width == 0 || height == 0 {
        return Err(String::from_str("Failed to write PNG header"));
    }
    assert(width * height * 4 <= 0xffff_ffff * 0xffff_ffff * 4) by (nonlinear_arith)
        requires
            width <= 0xffff_ffff,
            height <= 0xffff_ffff,
    ;
    let expected: u128 = (width as u128) * (height as u128) * 4;
    if rgba.len() as u128 != expected {
        return Err(String::from_str("Failed to write PNG data"));
    }
    match encode_png(rgba, width, height) {
        Some(bytes) => Ok(bytes),
        None => Err(String::from_str("Failed to write PNG data")),
    }
}

} // verus!
