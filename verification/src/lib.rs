//! A read-only, fixed-length, typed view of a file's bytes, backed by a
//! memory mapping instead of an owned copy.
//!
//! The verified core keeps the bookkeeping of such a mapping: the
//! overflow-checked byte length of `nelems` elements of a fixed size, the
//! validation of that length against the file's length, the acceptance of the
//! mapped region, and the exactly-once release of the region at teardown.
//! The system calls themselves (stat, map, unmap) and the reinterpretation of
//! the mapped bytes as typed elements live in the thin unverified shell around
//! this crate, which drives them from the decisions made here.

mod error;
mod sequence;

pub use error::other_io_error;
pub use error::MapError;
pub use sequence::byte_len;
pub use sequence::check_file_len;
pub use sequence::check_region;
pub use sequence::file_len_verdict;
pub use sequence::lemma_exact_fit_accepted;
pub use sequence::lemma_release_once;
pub use sequence::lemma_short_file_refused;
pub use sequence::lemma_zero_elements_accepted;
pub use sequence::len_fits;
pub use sequence::map_len;
pub use sequence::needs_mapping;
pub use sequence::region_verdict;
pub use sequence::MappedSequence;
pub use sequence::RegionVerdict;
