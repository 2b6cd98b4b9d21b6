//! The simple image file format.
//!
//! Format:
//! - 4 bytes: magic number "IMG\0"
//! - 4 bytes: width (u32, little-endian)
//! - 4 bytes: height (u32, little-endian)
//! - 1 byte: bytes per pixel
//! - remaining bytes: pixel data (width * height * bytes per pixel)
use vstd::prelude::*;
use super::{pixel_bytes, Image};
use crate::file::format::elf::representation::{read_u32, spec_u32};

verus! {

/// The size of the file header: magic, width, height and bytes per pixel.
pub const HEADER_SIZE: usize = 13;

/// The four magic bytes that open an image file.
pub open spec fn magic() -> Seq<u8> {
    seq![73u8, 77u8, 71u8, 0u8]
}

/// Whether `bytes` start with a whole header whose magic is right.
pub open spec fn has_header(bytes: Seq<u8>) -> bool {
    bytes.len() >= HEADER_SIZE && bytes.subrange(0, 4) == magic()
}

/// The number of pixel bytes the header of `bytes` announces.
pub open spec fn announced_pixel_bytes(bytes: Seq<u8>) -> int {
    pixel_bytes(spec_u32(bytes, 4) as int, spec_u32(bytes, 8) as int, bytes[12] as int)
}

/// What an image file holds: the shape its header gives and the pixel data
/// that follows; `None` without a header, when the header announces no
/// pixel bytes (no memory is reserved for an empty image), or with too few
/// pixel bytes.
/// Bytes past the announced pixel data are ignored.
pub open spec fn spec_decode(bytes: Seq<u8>) -> Option<(usize, usize, u8, Seq<u8>)> {
    if !has_header(bytes) || announced_pixel_bytes(bytes) == 0 || bytes.len() < HEADER_SIZE + announced_pixel_bytes(bytes) {
        None
    } else {
        Some((
            spec_u32(bytes, 4) as usize,
            spec_u32(bytes, 8) as usize,
            bytes[12],
            bytes.subrange(HEADER_SIZE as int, HEADER_SIZE + announced_pixel_bytes(bytes)),
        ))
    }
}

/// An image as the tuple of its shape and pixel data.
pub open spec fn image_model(image: Image) -> (usize, usize, u8, Seq<u8>) {
    (image.width, image.height, image.bytes_per_pixel, image.data@)
}

/// The four bytes of `value`, least significant first.
pub open spec fn le32(value: u32) -> Seq<u8> {
    seq![
        (value & 0xff) as u8,
        ((value >> 8) & 0xff) as u8,
        ((value >> 16) & 0xff) as u8,
        ((value >> 24) & 0xff) as u8,
    ]
}

/// The file that holds an image: header, then pixel data.
pub open spec fn spec_encode(width: usize, height: usize, bytes_per_pixel: u8, data: Seq<u8>) -> Seq<u8> {
    magic() + le32(width as u32) + le32(height as u32) + seq![bytes_per_pixel] + data
}

/// Decodes an image file held in `data`.
pub fn load_from_bytes(data: &[u8]) -> (r: Option<Image>)
    requires
        has_header(data@) ==> HEADER_SIZE + announced_pixel_bytes(data@) <= usize::MAX,
    ensures
        match r {
            Some(image) => spec_decode(data@) == Some(image_model(image)),
            None => spec_decode(data@) is None,
        },
        r matches Some(image) ==> image.well_formed(),
{
    let size = data.len();
    if size < HEADER_SIZE {
        return None;
    }
    if !(data[0] == 73 && data[1] == 77 && data[2] == 71 && data[3] == 0) {
        assert(data@.subrange(0, 4)[0] == data@[0]);
        assert(data@.subrange(0, 4)[1] == data@[1]);
        assert(data@.subrange(0, 4)[2] == data@[2]);
        assert(data@.subrange(0, 4)[3] == data@[3]);
        return None;
    }
    assert(data@.subrange(0, 4) =~= magic());
    let width = read_u32(data, 4).unwrap() as usize;
    let height = read_u32(data, 8).unwrap() as usize;
    let bytes_per_pixel = data[12];
    proof {
        assert(width * height <= pixel_bytes(width as int, height as int, bytes_per_pixel as int) || bytes_per_pixel == 0) by (nonlinear_arith)
            requires
                bytes_per_pixel >= 0,
                width >= 0,
                height >= 0,
        ;
        if bytes_per_pixel == 0 {
            assert(pixel_bytes(width as int, height as int, 0) == 0) by (nonlinear_arith);
        }
    }
    let pixel_data_size = if bytes_per_pixel == 0 {
        0
    } else {
        width * height * (bytes_per_pixel as usize)
    };
    if pixel_data_size == 0 {
        return None;
    }
    let expected_size = HEADER_SIZE + pixel_data_size;
    if size < expected_size {
        return None;
    }
    let mut pixels: Vec<u8> = Vec::new();
    let mut index: usize = 0;
    while index < pixel_data_size
        invariant
            size == data@.len(),
            HEADER_SIZE + pixel_data_size <= size,
            0 <= index <= pixel_data_size,
            pixels@ == data@.subrange(HEADER_SIZE as int, HEADER_SIZE + index),
        decreases pixel_data_size - index,
    {
        pixels.push(data[HEADER_SIZE + index]);
        index += 1;
        assert(pixels@ =~= data@.subrange(HEADER_SIZE as int, HEADER_SIZE + index));
    }
    Some(Image::new(width, height, pixels, bytes_per_pixel))
}

/// Reading back the four bytes of a word gives the word.
pub proof fn lemma_le32_roundtrip(value: u32)
    ensures
        spec_u32(le32(value), 0) == value,
{
    let b0 = (value & 0xff) as u8;
    let b1 = ((value >> 8) & 0xff) as u8;
    let b2 = ((value >> 16) & 0xff) as u8;
    let b3 = ((value >> 24) & 0xff) as u8;
    assert(b0 + 256 * b1 + 65536 * (b2 + 256 * b3) == value) by (bit_vector)
        requires
            b0 == (value & 0xff) as u8,
            b1 == ((value >> 8) & 0xff) as u8,
            b2 == ((value >> 16) & 0xff) as u8,
            b3 == ((value >> 24) & 0xff) as u8,
    ;
    assert(le32(value)[0] == b0);
    assert(le32(value)[1] == b1);
    assert(le32(value)[2] == b2);
    assert(le32(value)[3] == b3);
}

/// The bytes of an image file for `image`: the header, then the pixel data.
pub fn encode_image_file(image: &Image) -> (r: Vec<u8>)
    requires
        HEADER_SIZE + image.data@.len() <= usize::MAX,
    ensures
        r@ == spec_encode(image.width, image.height, image.bytes_per_pixel, image.data@),
{
    let mut file: Vec<u8> = Vec::new();
    file.push(73u8);
    file.push(77u8);
    file.push(71u8);
    file.push(0u8);
    let width = image.width as u32;
    let height = image.height as u32;
    file.push((width & 0xff) as u8);
    file.push(((width >> 8) & 0xff) as u8);
    file.push(((width >> 16) & 0xff) as u8);
    file.push(((width >> 24) & 0xff) as u8);
    file.push((height & 0xff) as u8);
    file.push(((height >> 8) & 0xff) as u8);
    file.push(((height >> 16) & 0xff) as u8);
    file.push(((height >> 24) & 0xff) as u8);
    file.push(image.bytes_per_pixel);
    let ghost header = magic() + le32(width) + le32(height) + seq![image.bytes_per_pixel];
    assert(file@ =~= header);
    let mut index: usize = 0;
    while index < image.data.len()
        invariant
            0 <= index <= image.data@.len(),
            file@ == header + image.data@.subrange(0, index as int),
        decreases image.data@.len() - index,
    {
        file.push(image.data[index]);
        index += 1;
        assert(file@ =~= header + image.data@.subrange(0, index as int));
    }
    assert(image.data@.subrange(0, image.data@.len() as int) =~= image.data@);
    file
}

/// Decoding the file encoded for a well-formed image gives the image back,
/// when its width and height fit the header's 32-bit fields and it has
/// pixel data.
pub proof fn lemma_decode_encode(width: usize, height: usize, bytes_per_pixel: u8, data: Seq<u8>)
    requires
        width <= u32::MAX,
        height <= u32::MAX,
        data.len() > 0,
        data.len() == pixel_bytes(width as int, height as int, bytes_per_pixel as int),
    ensures
        spec_decode(spec_encode(width, height, bytes_per_pixel, data)) == Some((width, height, bytes_per_pixel, data)),
{
    let file = spec_encode(width, height, bytes_per_pixel, data);
    let header = magic() + le32(width as u32) + le32(height as u32) + seq![bytes_per_pixel];
    assert(file == header + data);
    assert(header.len() == HEADER_SIZE);
    assert(file.subrange(0, 4) =~= magic());
    lemma_le32_roundtrip(width as u32);
    lemma_le32_roundtrip(height as u32);
    assert(file.subrange(4, 8) =~= le32(width as u32));
    assert(file.subrange(8, 12) =~= le32(height as u32));
    assert(spec_u32(file, 4) == spec_u32(le32(width as u32), 0));
    assert(spec_u32(file, 8) == spec_u32(le32(height as u32), 0));
    assert(file[12] == bytes_per_pixel);
    assert(file.subrange(HEADER_SIZE as int, HEADER_SIZE + data.len()) =~= data);
}

/// A well-formed image with pixel data, whose width and height fit the
/// header's 32-bit fields, is saved as the magic number, its width and
/// height as little-endian words, its bytes per pixel and its pixel data;
/// loading those bytes is allowed and gives the image back.
pub proof fn lemma_saved_image_loads_back(image: Image)
    requires
        image.well_formed(),
        image.width <= u32::MAX,
        image.height <= u32::MAX,
        image.data@.len() > 0,
        HEADER_SIZE + image.data@.len() <= usize::MAX,
    ensures
        spec_encode(image.width, image.height, image.bytes_per_pixel, image.data@)
            == magic() + le32(image.width as u32) + le32(image.height as u32) + seq![image.bytes_per_pixel] + image.data@,
        ({
            let file = spec_encode(image.width, image.height, image.bytes_per_pixel, image.data@);
            &&& has_header(file) ==> HEADER_SIZE + announced_pixel_bytes(file) <= usize::MAX
            &&& spec_decode(file) == Some(image_model(image))
        }),
{
    lemma_decode_encode(image.width, image.height, image.bytes_per_pixel, image.data@);
    let file = spec_encode(image.width, image.height, image.bytes_per_pixel, image.data@);
    lemma_le32_roundtrip(image.width as u32);
    lemma_le32_roundtrip(image.height as u32);
    let header = magic() + le32(image.width as u32) + le32(image.height as u32) + seq![image.bytes_per_pixel];
    assert(file == header + image.data@);
    assert(file.subrange(4, 8) =~= le32(image.width as u32));
    assert(file.subrange(8, 12) =~= le32(image.height as u32));
    assert(spec_u32(file, 4) == spec_u32(le32(image.width as u32), 0));
    assert(spec_u32(file, 8) == spec_u32(le32(image.height as u32), 0));
    assert(file[12] == image.bytes_per_pixel);
}

} // verus!
