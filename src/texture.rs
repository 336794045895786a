use vstd::prelude::*;

verus! {

/// png's error for data it cannot decode.
#[verifier::external_type_specification]
#[verifier::external_body]
pub struct ExDecodingError(png::DecodingError);

/// Whether png reads the header of the data without error.
pub uninterp spec fn png_header_ok(data: Seq<u8>) -> bool;

/// Whether png decodes the first frame of the data into a buffer of `len`
/// bytes without error.
pub uninterp spec fn png_frame_ok(data: Seq<u8>, len: nat) -> bool;

/// The width and height that a PNG file's header gives.
pub uninterp spec fn png_size(data: Seq<u8>) -> (u32, u32);

/// A buffer after the first frame of a PNG file has been decoded into it.
pub uninterp spec fn png_frame(data: Seq<u8>, buf: Seq<u8>) -> Seq<u8>;

/// Relies on png::Decoder::read_info: the width and height of the image header.
#[verifier::external_body]
fn read_png_size(data: &Vec<u8>) -> (r: Result<(u32, u32), png::DecodingError>)
    ensures
        r is Ok <==> png_header_ok(data@),
        r matches Ok(size) ==> size == png_size(data@),
{
    let reader = png::Decoder::new(data.as_slice()).read_info()?;
    Ok((reader.info().width, reader.info().height))
}

/// Relies on png::Decoder::read_info and png::Reader::next_frame: decodes the
/// first frame into `buf`, whose length it keeps. Success depends on the data
/// and the buffer's length alone.
#[verifier::external_body]
fn read_png_frame(data: &Vec<u8>, buf: &mut Vec<u8>) -> (r: Result<(), png::DecodingError>)
    ensures
        final(buf).len() == old(buf).len(),
        r is Ok <==> png_frame_ok(data@, old(buf)@.len()),
        r is Ok ==> final(buf)@ == png_frame(data@, old(buf)@),
{
    let mut reader = png::Decoder::new(data.as_slice()).read_info()?;
    reader.next_frame(buf.as_mut_slice())?;
    Ok(())
}

/// A decoded image: a buffer of four bytes per pixel, rows top to bottom.
///
/// The image's own layout is kept. For an 8-bit RGBA image the buffer holds
/// exactly its pixels. An image of another colour type or depth whose pixels
/// take fewer bytes (grey, RGB, palette) fills only a prefix of the buffer, in
/// its own layout, and the rest stays zero; one whose pixels take more does
/// not decode.
pub struct RgbaImage {
    pub width: u32,
    pub height: u32,
    pub pixels: Vec<u8>,
}

/// Why a texture could not be decoded.
#[derive(Clone, Copy, Debug, PartialEq, Eq, Structural)]
pub enum TextureError {
    /// The data is not a PNG image this engine can read.
    Decode,
    /// The image's byte count does not fit in 32 bits.
    TooLarge { width: u32, height: u32 },
}

pub struct StarryTexture {}

impl StarryTexture {
    /// Bytes of an RGBA image with one byte per channel, `width` by `height`
    /// pixels; `None` when the count does not fit in 32 bits, the width of the
    /// image's own size fields.
    pub fn rgba_byte_count(width: u32, height: u32) -> (r: Option<usize>)
        ensures
            width * height * 4 <= u32::MAX ==> r == Some((width * height * 4) as usize),
            width * height * 4 > u32::MAX ==> r is None,
    {
        let w = width as u64;
        let h = height as u64;
        assert(w * h <= 4294967295u64 * 4294967295u64) by (nonlinear_arith)
            requires
                w <= 4294967295u64,
                h <= 4294967295u64,
        ;
        let pixels = w * h;
        if pixels > 1073741823u64 {
            None
        } else {
            Some((pixels * 4) as usize)
        }
    }

    /// Decodes a PNG image into a zero-filled buffer of four bytes per pixel,
    /// which the decoder fills from the start in the image's own layout.
    pub fn decode_rgba(data: &Vec<u8>) -> (r: Result<RgbaImage, TextureError>)
        ensures
            !png_header_ok(data@) ==> r == Err::<RgbaImage, TextureError>(TextureError::Decode),
            png_header_ok(data@) && png_size(data@).0 * png_size(data@).1 * 4 > u32::MAX ==> r
                == Err::<RgbaImage, TextureError>(
                TextureError::TooLarge { width: png_size(data@).0, height: png_size(data@).1 },
            ),
            png_header_ok(data@) && png_size(data@).0 * png_size(data@).1 * 4 <= u32::MAX ==> (
            png_frame_ok(data@, (png_size(data@).0 * png_size(data@).1 * 4) as nat) <==> r is Ok),
            png_header_ok(data@) && png_size(data@).0 * png_size(data@).1 * 4 <= u32::MAX
                && !png_frame_ok(data@, (png_size(data@).0 * png_size(data@).1 * 4) as nat) ==> r
                == Err::<RgbaImage, TextureError>(TextureError::Decode),
            r matches Ok(img) ==> {
                &&& (img.width, img.height) == png_size(data@)
                &&& img.width * img.height * 4 <= u32::MAX
                &&& img.pixels@ == png_frame(
                    data@,
                    Seq::new((img.width * img.height * 4) as nat, |i: int| 0u8),
                )
            },
            r matches Err(TextureError::TooLarge { width, height }) ==> (width, height) == png_size(
                data@,
            ) && width * height * 4 > u32::MAX,
    {
        let (width, height) = match read_png_size(data) {
            Ok(size) => size,
            Err(_) => {
                return Err(TextureError::Decode);
            },
        };
        let len = match Self::rgba_byte_count(width, height) {
            Some(n) => n,
            None => {
                return Err(TextureError::TooLarge { width, height });
            },
        };
        let mut buf: Vec<u8> = Vec::new();
        let mut i: usize = 0;
        while i < len
            invariant
                i <= len,
                buf@ == Seq::new(i as nat, |j: int| 0u8),
            decreases len - i,
        {
            buf.push(0u8);
            i = i + 1;
            assert(buf@ =~= Seq::new(i as nat, |j: int| 0u8));
        }
        match read_png_frame(data, &mut buf) {
            Ok(()) => Ok(RgbaImage { width, height, pixels: buf }),
            Err(_) => Err(TextureError::Decode),
        }
    }
}

} // verus!
