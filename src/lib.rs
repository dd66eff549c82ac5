//! Disk imaging engine: removable-device catalog, image format dispatch and
//! decoding, block-aligned transfer planning and digest-based verification.
pub mod text;
pub mod device;
pub mod image;
pub mod decode;
pub mod transfer;
pub mod verify;
