use vstd::prelude::*;

verus! {

/// Why a mapped sequence could not be constructed.
///
/// Every failure of construction is one of these kinds; none of them leaves a
/// partially built sequence behind. The two kinds that come from the
/// operating system carry its error code as their cause.
#[derive(Clone, Copy, Debug, PartialEq, Eq, Structural)]
pub enum MapError {
    /// The element count times the element size cannot be represented in a
    /// `usize`. Refused before anything is asked of the operating system.
    SizeOverflow,
    /// The file's length could not be determined; holds the OS error code.
    StatError(i32),
    /// The file holds fewer bytes than the requested mapping needs.
    FileTooSmall,
    /// The mapping mechanism denied or could not perform the mapping; holds
    /// the OS error code.
    MapFailed(i32),
    /// The mapping mechanism returned a region of zero size or one smaller
    /// than requested; the region is to be released at once.
    MapRegionTooSmall,
}

impl MapError {
    /// The fixed description of each error kind.
    pub open spec fn spec_description(self) -> Seq<char> {
        match self {
            MapError::SizeOverflow => "Size overflow"@,
            MapError::StatError(_) => "Stat error"@,
            MapError::FileTooSmall => "File too small to mmap"@,
            MapError::MapFailed(_) => "Mmap error"@,
            MapError::MapRegionTooSmall => "Mmap region too small"@,
        }
    }

    /// A short description of the error kind, for diagnostics.
    pub fn description(&self) -> (r: &'static str)
        ensures
            r@ == self.spec_description(),
    {
        match self {
            MapError::SizeOverflow => "Size overflow",
            MapError::StatError(_) => "Stat error",
            MapError::FileTooSmall => "File too small to mmap",
            MapError::MapFailed(_) => "Mmap error",
            MapError::MapRegionTooSmall => "Mmap region too small",
        }
    }

    /// Turn the error into a `std::io::Error` for I/O-facing callers. The
    /// kinds that carry an OS error code keep it as the cause; the others
    /// carry their description.
    pub fn to_io_error(&self) -> std::io::Error {
        match self {
            MapError::StatError(code) => io_error_from_os(*code),
            MapError::MapFailed(code) => io_error_from_os(*code),
            _ => other_io_error(self.description()),
        }
    }
}

#[verifier::external_type_specification]
#[verifier::external_body]
pub struct ExIoError(std::io::Error);

/// Build a `std::io::Error` of the catch-all kind carrying `description`.
pub fn other_io_error(description: &'static str) -> std::io::Error {
    new_other_error(description)
}

/// Relies on `std::io::Error::new` to build an error of the catch-all kind
/// from a fixed description.
#[verifier::external_body]
fn new_other_error(description: &'static str) -> std::io::Error {
    std::io::Error::new(std::io::ErrorKind::Other, description)
}

/// Relies on `std::io::Error::from_raw_os_error` to wrap an operating-system
/// error code.
#[verifier::external_body]
fn io_error_from_os(code: i32) -> std::io::Error {
    std::io::Error::from_raw_os_error(code)
}

} // verus!
