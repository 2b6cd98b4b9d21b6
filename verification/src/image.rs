//! In-memory images of pixels, and the simple image file format.
pub mod loader;

use vstd::prelude::*;

verus! {

/// An image: `width` by `height` pixels of `bytes_per_pixel` bytes each,
/// row after row.
#[derive(Debug, Clone)]
pub struct Image {
    pub width: usize,
    pub height: usize,
    pub bytes_per_pixel: u8,
    pub data: Vec<u8>,
}

/// The number of pixel bytes of an image of the given shape.
pub open spec fn pixel_bytes(width: int, height: int, bytes_per_pixel: int) -> int {
    width * height * bytes_per_pixel
}

impl Image {
    /// The pixel data holds exactly one entry for each byte of each pixel.
    pub open spec fn well_formed(&self) -> bool {
        self.data@.len() == pixel_bytes(self.width as int, self.height as int, self.bytes_per_pixel as int)
    }

    pub fn new(width: usize, height: usize, data: Vec<u8>, bytes_per_pixel: u8) -> (r: Image)
        ensures
            r.width == width,
            r.height == height,
            r.bytes_per_pixel == bytes_per_pixel,
            r.data@ == data@,
    {
        Image { width, height, bytes_per_pixel, data }
    }

    /// The number of bytes of pixel data.
    pub fn size_bytes(&self) -> (r: usize)
        ensures
            r == self.data@.len(),
    {
        self.data.len()
    }
}

/// Creates an image of the given shape with every byte zero; `None` for a
/// shape with no pixel bytes, for which no memory is reserved.
pub fn create(width: usize, height: usize, bytes_per_pixel: u8) -> (r: Option<Image>)
    requires
        pixel_bytes(width as int, height as int, bytes_per_pixel as int) <= usize::MAX,
    ensures
        pixel_bytes(width as int, height as int, bytes_per_pixel as int) == 0 ==> r is None,
        pixel_bytes(width as int, height as int, bytes_per_pixel as int) != 0 ==> (r matches Some(image)
            && image.width == width && image.height == height
            && image.bytes_per_pixel == bytes_per_pixel && image.well_formed()
            && forall|i: int| 0 <= i < image.data@.len() ==> image.data@[i] == 0),
{
    proof {
        assert(width * height <= pixel_bytes(width as int, height as int, bytes_per_pixel as int) || bytes_per_pixel == 0) by (nonlinear_arith)
            requires
                bytes_per_pixel >= 0,
                width >= 0,
                height >= 0,
        ;
        if bytes_per_pixel == 0 {
            assert(pixel_bytes(width as int, height as int, 0) == 0) by (nonlinear_arith);
        }
    }
    let size = if bytes_per_pixel == 0 {
        0
    } else {
        width * height * (bytes_per_pixel as usize)
    };
    if size == 0 {
        return None;
    }
    let data = vec![0u8; size];
    Some(Image::new(width, height, data, bytes_per_pixel))
}

/// Releases an image's pixel data and leaves it empty; an image that holds
/// no pixel data is left as it is.
pub fn free(image: &mut Image)
    ensures
        old(image).data@.len() == 0 ==> *final(image) == *old(image),
        old(image).data@.len() != 0 ==> final(image).width == 0 && final(image).height == 0
            && final(image).bytes_per_pixel == 0 && final(image).data@.len() == 0,
{
    if image.data.len() != 0 {
        image.data = Vec::new();
        image.width = 0;
        image.height = 0;
        image.bytes_per_pixel = 0;
    }
}

/// Operations on images that callers reach through one handle.
pub struct ImageHandler;

impl ImageHandler {
    /// Releases an image's pixel data, as `free` does.
    pub fn free_image_data(image: &mut Image)
        ensures
            old(image).data@.len() == 0 ==> *final(image) == *old(image),
            old(image).data@.len() != 0 ==> final(image).width == 0 && final(image).height == 0
                && final(image).bytes_per_pixel == 0 && final(image).data@.len() == 0,
    {
        free(image);
    }
}

} // verus!
