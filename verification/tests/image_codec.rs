use userspace::image::loader::{encode_image_file, load_from_bytes, HEADER_SIZE};
use userspace::image::{create, free, Image, ImageHandler};

fn file(width: u32, height: u32, bytes_per_pixel: u8, pixels: &[u8]) -> Vec<u8> {
    let mut bytes = vec![b'I', b'M', b'G', 0];
    bytes.extend_from_slice(&width.to_le_bytes());
    bytes.extend_from_slice(&height.to_le_bytes());
    bytes.push(bytes_per_pixel);
    bytes.extend_from_slice(pixels);
    bytes
}

#[test]
fn image_file_decodes_its_header_and_pixels() {
    let bytes = file(2, 1, 3, &[1, 2, 3, 4, 5, 6]);
    let image = load_from_bytes(&bytes).unwrap();
    assert_eq!(image.width, 2);
    assert_eq!(image.height, 1);
    assert_eq!(image.bytes_per_pixel, 3);
    assert_eq!(image.data, vec![1, 2, 3, 4, 5, 6]);
    assert_eq!(image.size_bytes(), 6);
}

#[test]
fn bytes_past_the_pixels_are_ignored() {
    let bytes = file(1, 1, 1, &[9, 8, 7]);
    let image = load_from_bytes(&bytes).unwrap();
    assert_eq!(image.data, vec![9]);
}

#[test]
fn short_or_unmarked_files_are_refused() {
    assert!(load_from_bytes(&[b'I', b'M', b'G', 0, 1, 0, 0, 0, 1, 0, 0]).is_none());
    let mut bytes = file(1, 1, 1, &[0]);
    bytes[2] = b'X';
    assert!(load_from_bytes(&bytes).is_none());
    assert!(load_from_bytes(&file(2, 2, 1, &[0, 0, 0])).is_none());
}

#[test]
fn image_without_pixel_bytes_is_not_loaded() {
    assert!(load_from_bytes(&file(0, 7, 4, &[])).is_none());
    assert!(load_from_bytes(&file(3, 3, 0, &[1, 2, 3])).is_none());
    assert_eq!(HEADER_SIZE, 13);
}

#[test]
fn encoding_then_decoding_gives_the_image_back() {
    let image = Image::new(3, 2, vec![10, 20, 30, 40, 50, 60, 70, 80, 90, 100, 110, 120], 2);
    let bytes = encode_image_file(&image);
    assert_eq!(bytes.len(), 13 + 12);
    assert_eq!(&bytes[0..4], b"IMG\0");
    assert_eq!(&bytes[4..8], &3u32.to_le_bytes());
    assert_eq!(&bytes[8..12], &2u32.to_le_bytes());
    assert_eq!(bytes[12], 2);
    let decoded = load_from_bytes(&bytes).unwrap();
    assert_eq!(decoded.width, 3);
    assert_eq!(decoded.height, 2);
    assert_eq!(decoded.bytes_per_pixel, 2);
    assert_eq!(decoded.data, image.data);
}

#[test]
fn created_images_are_zeroed() {
    let image = create(4, 3, 2).unwrap();
    assert_eq!(image.width, 4);
    assert_eq!(image.height, 3);
    assert_eq!(image.bytes_per_pixel, 2);
    assert_eq!(image.data, vec![0u8; 24]);
    assert!(create(5, 5, 0).is_none());
    assert!(create(0, 5, 1).is_none());
}

#[test]
fn freeing_an_image_empties_it() {
    let mut image = create(2, 2, 1).unwrap();
    free(&mut image);
    assert_eq!((image.width, image.height, image.bytes_per_pixel), (0, 0, 0));
    assert!(image.data.is_empty());
    let mut other = Image::new(1, 1, vec![5], 1);
    ImageHandler::free_image_data(&mut other);
    assert_eq!(other.size_bytes(), 0);
    assert_eq!((other.width, other.height, other.bytes_per_pixel), (0, 0, 0));
}

#[test]
fn freeing_an_image_without_data_leaves_it_as_it_is() {
    let mut image = Image::new(3, 4, vec![], 2);
    free(&mut image);
    assert_eq!((image.width, image.height, image.bytes_per_pixel), (3, 4, 2));
    assert!(image.data.is_empty());
    ImageHandler::free_image_data(&mut image);
    assert_eq!((image.width, image.height, image.bytes_per_pixel), (3, 4, 2));
}
