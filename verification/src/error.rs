//! Errors reported while loading a cartridge image.
use vstd::prelude::*;

verus! {

#[verifier::external_type_specification]
#[verifier::external_body]
pub struct ExIoError(std::io::Error);

/// Why a cartridge image could not be loaded.
#[derive(Debug)]
pub enum LoadError {
    NotNesRom,
    IoError(std::io::Error),
    UnsupportedMapper(u16),
}

/// The error that reading past the end of the image reports: `std::io::Error::from`
/// applied to `ErrorKind::UnexpectedEof`, as `read_exact` reports it. Nothing is
/// stated of the value, which is only carried to the caller.
#[verifier::external_body]
pub(crate) fn unexpected_eof() -> std::io::Error {
    std::io::Error::from(std::io::ErrorKind::UnexpectedEof)
}

} // verus!
