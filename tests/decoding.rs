use forge::decode::{DecodeError, DecodeJob};
use forge::image::ImageFormat;
use std::io::Write;

fn payload() -> Vec<u8> {
    let mut p: Vec<u8> = (0..300_000u32).map(|i| (i % 97) as u8).collect();
    p.extend(std::iter::repeat(0u8).take(400_000));
    p.extend((0..5000u32).map(|i| (i * 31 % 256) as u8));
    p
}

fn gzip(data: &[u8]) -> Vec<u8> {
    let mut e = flate2::write::GzEncoder::new(Vec::new(), flate2::Compression::default());
    e.write_all(data).unwrap();
    e.finish().unwrap()
}

fn xz(data: &[u8]) -> Vec<u8> {
    let mut e = xz2::write::XzEncoder::new(Vec::new(), 6);
    e.write_all(data).unwrap();
    e.finish().unwrap()
}

fn zstd_frame(data: &[u8]) -> Vec<u8> {
    zstd::stream::encode_all(data, 3).unwrap()
}

fn decode(format: ImageFormat, input: &[u8], chunk: usize) -> Result<Vec<u8>, DecodeError> {
    let mut job = DecodeJob::new(format)?.expect("a compressed format");
    let mut out = Vec::new();
    for piece in input.chunks(chunk) {
        out.extend(job.feed(piece)?);
    }
    out.extend(job.finish()?);
    Ok(out)
}

#[test]
fn plain_images_need_no_decoder() {
    assert!(matches!(DecodeJob::new(ImageFormat::Plain), Ok(None)));
    assert!(matches!(DecodeJob::new(ImageFormat::Gzip), Ok(Some(_))));
}

#[test]
fn three_formats_decode_to_the_same_payload() {
    let p = payload();
    let g = decode(ImageFormat::Gzip, &gzip(&p), 8192).unwrap();
    let x = decode(ImageFormat::Xz, &xz(&p), 8192).unwrap();
    let z = decode(ImageFormat::Zstd, &zstd_frame(&p), 8192).unwrap();
    assert_eq!(g, p);
    assert_eq!(x, p);
    assert_eq!(z, p);
}

#[test]
fn chunk_size_does_not_change_the_output() {
    let p = payload();
    let gz = gzip(&p);
    assert_eq!(decode(ImageFormat::Gzip, &gz, 1).unwrap(), p);
    assert_eq!(decode(ImageFormat::Gzip, &gz, gz.len()).unwrap(), p);
    let zs = zstd_frame(&p);
    assert_eq!(decode(ImageFormat::Zstd, &zs, 7).unwrap(), p);
    let x = xz(&p);
    assert_eq!(decode(ImageFormat::Xz, &x, 13).unwrap(), p);
}

#[test]
fn empty_payload_round_trips() {
    assert_eq!(decode(ImageFormat::Gzip, &gzip(&[]), 8192).unwrap(), Vec::<u8>::new());
    assert_eq!(decode(ImageFormat::Xz, &xz(&[]), 8192).unwrap(), Vec::<u8>::new());
    assert_eq!(decode(ImageFormat::Zstd, &zstd_frame(&[]), 8192).unwrap(), Vec::<u8>::new());
}

#[test]
fn garbage_is_rejected() {
    let junk: Vec<u8> = (0..4096u32).map(|i| (i * 13 + 5) as u8).collect();
    assert_eq!(decode(ImageFormat::Gzip, &junk, 512), Err(DecodeError::Malformed));
    assert_eq!(decode(ImageFormat::Xz, &junk, 512), Err(DecodeError::Malformed));
    assert_eq!(decode(ImageFormat::Zstd, &junk, 512), Err(DecodeError::Malformed));
}

#[test]
fn truncated_gzip_and_xz_are_rejected() {
    let p = payload();
    let gz = gzip(&p);
    assert_eq!(decode(ImageFormat::Gzip, &gz[..gz.len() - 4], 8192), Err(DecodeError::Malformed));
    let x = xz(&p);
    assert_eq!(decode(ImageFormat::Xz, &x[..x.len() / 2], 8192), Err(DecodeError::Malformed));
}

#[test]
fn truncated_zstd_is_rejected() {
    let p = payload();
    let z = zstd_frame(&p);
    assert_eq!(decode(ImageFormat::Zstd, &z[..z.len() - 3], 8192), Err(DecodeError::Malformed));
    assert_eq!(decode(ImageFormat::Zstd, &z[..z.len() / 2], 8192), Err(DecodeError::Malformed));
}

#[test]
fn empty_input_is_not_an_image() {
    assert_eq!(decode(ImageFormat::Gzip, &[], 8192), Err(DecodeError::Malformed));
    assert_eq!(decode(ImageFormat::Xz, &[], 8192), Err(DecodeError::Malformed));
    assert_eq!(decode(ImageFormat::Zstd, &[], 8192), Err(DecodeError::Malformed));
}

#[test]
fn concatenated_zstd_frames_decode_in_order() {
    let mut z = zstd_frame(b"first frame, ");
    z.extend(zstd_frame(b"second frame"));
    assert_eq!(decode(ImageFormat::Zstd, &z, 5).unwrap(), b"first frame, second frame".to_vec());
}

#[test]
fn highly_compressible_zstd_without_checksum_decodes() {
    let p = vec![0u8; 3 * 1024 * 1024];
    let mut e = zstd::stream::write::Encoder::new(Vec::new(), 19).unwrap();
    e.include_checksum(false).unwrap();
    e.write_all(&p).unwrap();
    let z = e.finish().unwrap();
    assert_eq!(decode(ImageFormat::Zstd, &z, 8192).unwrap(), p);
    assert_eq!(decode(ImageFormat::Zstd, &z, z.len()).unwrap(), p);
}

#[test]
fn corrupted_gzip_checksum_is_rejected() {
    let p = payload();
    let mut gz = gzip(&p);
    let n = gz.len();
    gz[n - 6] ^= 0xFF;
    assert_eq!(decode(ImageFormat::Gzip, &gz, 8192), Err(DecodeError::Malformed));
}
