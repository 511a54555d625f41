use vstd::prelude::*;

use crate::error::MapError;

verus! {

/// The number of bytes that `nelems` elements of `elem_size` bytes occupy.
pub open spec fn byte_len(nelems: nat, elem_size: nat) -> nat {
    nelems * elem_size
}

/// Whether that byte length is representable in a `usize`.
pub open spec fn len_fits(nelems: nat, elem_size: nat) -> bool {
    byte_len(nelems, elem_size) <= usize::MAX
}

/// First construction step: the overflow-checked byte length of the requested
/// sequence. On overflow, construction is refused with `SizeOverflow` before
/// anything is asked of the operating system.
pub fn map_len(nelems: usize, elem_size: usize) -> (r: Result<usize, MapError>)
    ensures
        len_fits(nelems as nat, elem_size as nat) ==> r == Ok::<usize, MapError>(
            (nelems * elem_size) as usize,
        ),
        !len_fits(nelems as nat, elem_size as nat) ==> r == Err::<usize, MapError>(
            MapError::SizeOverflow,
        ),
{
    match nelems.checked_mul(elem_size) {
        Some(len) => Ok(len),
        None => Err(MapError::SizeOverflow),
    }
}

/// The verdict on a requested byte length, given the outcome of querying the
/// file's length: a failed query propagates as `StatError` with its cause; a
/// file shorter than the request is refused as `FileTooSmall`; otherwise the
/// request stands.
pub open spec fn file_len_verdict(map_len: nat, stat: Result<u64, i32>) -> Result<(), MapError> {
    match stat {
        Ok(file_len) => if map_len <= file_len {
            Ok(())
        } else {
            Err(MapError::FileTooSmall)
        },
        Err(code) => Err(MapError::StatError(code)),
    }
}

/// Second construction step: hold the requested byte length against the
/// file's actual length, or against the failure of that query. This check
/// comes before any mapping is requested, so a short file is reported
/// precisely, not as a generic mapping failure.
pub fn check_file_len(map_len: usize, stat: Result<u64, i32>) -> (r: Result<(), MapError>)
    ensures
        r == file_len_verdict(map_len as nat, stat),
{
    match stat {
        Ok(file_len) => {
            if map_len as u64 <= file_len {
                Ok(())
            } else {
                Err(MapError::FileTooSmall)
            }
        },
        Err(code) => Err(MapError::StatError(code)),
    }
}

/// Whether construction must request a mapping at all.
///
/// Policy for empty requests: a request for zero bytes (no elements, or
/// zero-sized elements) never reaches the mapping mechanism; it succeeds
/// trivially and yields a sequence with no mapped region.
pub fn needs_mapping(map_len: usize) -> (r: bool)
    ensures
        r <==> map_len > 0,
{
    map_len > 0
}

/// The verdict on the outcome of the mapping call, and whether the region it
/// produced must be released on the failure path.
#[derive(Clone, Copy, Debug, PartialEq, Eq, Structural)]
pub enum RegionVerdict {
    /// The region backs the whole request; construction may complete.
    Accepted,
    /// Construction fails with `error`; if `release` is set, a region was
    /// produced and must be released before reporting the failure.
    Rejected { release: bool, error: MapError },
}

/// The verdict on a mapping call's outcome: a denied call fails as
/// `MapFailed` with its cause and leaves nothing to release; a region of zero
/// size or smaller than the request fails as `MapRegionTooSmall` and must be
/// released at once; otherwise the region is accepted.
pub open spec fn region_verdict(map_len: nat, map_result: Result<usize, i32>) -> RegionVerdict {
    match map_result {
        Ok(region_len) => if region_len == 0 || region_len < map_len {
            RegionVerdict::Rejected { release: true, error: MapError::MapRegionTooSmall }
        } else {
            RegionVerdict::Accepted
        },
        Err(code) => RegionVerdict::Rejected {
            release: false,
            error: MapError::MapFailed(code),
        },
    }
}

/// Third construction step: judge the outcome of the mapping call, given the
/// requested byte length and either the size of the region the call reported
/// or the OS error code of its failure.
pub fn check_region(map_len: usize, map_result: Result<usize, i32>) -> (r: RegionVerdict)
    ensures
        r == region_verdict(map_len as nat, map_result),
{
    match map_result {
        Ok(region_len) => {
            if region_len == 0 || region_len < map_len {
                RegionVerdict::Rejected { release: true, error: MapError::MapRegionTooSmall }
            } else {
                RegionVerdict::Accepted
            }
        },
        Err(code) => RegionVerdict::Rejected { release: false, error: MapError::MapFailed(code) },
    }
}

/// The bookkeeping core of a mapped, read-only, fixed-length typed sequence:
/// the region's base address (as an integer), its byte length, the element
/// geometry, and whether the region is still held.
///
/// A value of this type is either live (its region has not been released) or
/// released, and a released value never becomes live again; `release` is the
/// only transition. The surrounding unverified shell owns the file handle and
/// performs the system calls; it reads the base address and element count
/// from here to expose the typed view, and releases exactly what `release`
/// hands out.
pub struct MappedSequence {
    addr: usize,
    len: usize,
    nelems: usize,
    elem_size: usize,
    live: bool,
}

impl MappedSequence {
    /// The base address of the mapped region. Only meaningful while the
    /// sequence is live and its byte length is positive.
    pub closed spec fn spec_addr(self) -> usize {
        self.addr
    }

    /// The byte length of the mapped region.
    pub closed spec fn spec_len(self) -> usize {
        self.len
    }

    /// The number of elements the sequence exposes.
    pub closed spec fn spec_nelems(self) -> usize {
        self.nelems
    }

    /// The byte size of one element.
    pub closed spec fn spec_elem_size(self) -> usize {
        self.elem_size
    }

    /// Whether the region has not yet been released.
    pub closed spec fn is_live(self) -> bool {
        self.live
    }

    /// Well-formed: the byte length is exactly the element count times the
    /// element size.
    pub open spec fn wf(self) -> bool {
        self.spec_len() == byte_len(self.spec_nelems() as nat, self.spec_elem_size() as nat)
    }

    /// Final construction step: bundle an accepted region's base address with
    /// the element geometry into a live sequence. The byte length is
    /// recomputed with overflow checking, so only a well-formed sequence can
    /// come out.
    pub fn assemble(addr: usize, nelems: usize, elem_size: usize) -> (r: Result<
        MappedSequence,
        MapError,
    >)
        ensures
            r is Ok <==> len_fits(nelems as nat, elem_size as nat),
            r matches Ok(s) ==> s.wf() && s.is_live() && s.spec_addr() == addr
                && s.spec_len() == byte_len(nelems as nat, elem_size as nat)
                && s.spec_nelems() == nelems && s.spec_elem_size() == elem_size,
            r matches Err(e) ==> e == MapError::SizeOverflow,
    {
        match nelems.checked_mul(elem_size) {
            Some(len) => Ok(MappedSequence { addr, len, nelems, elem_size, live: true }),
            None => Err(MapError::SizeOverflow),
        }
    }

    /// The number of elements the read-only view exposes. A pure accessor:
    /// it never changes the sequence and may be called any number of times.
    pub fn element_count(&self) -> (r: usize)
        ensures
            r == self.spec_nelems(),
    {
        self.nelems
    }

    /// The byte length of the mapped region.
    pub fn byte_length(&self) -> (r: usize)
        ensures
            r == self.spec_len(),
    {
        self.len
    }

    /// The base address of the mapped region, as an integer.
    pub fn base_addr(&self) -> (r: usize)
        ensures
            r == self.spec_addr(),
    {
        self.addr
    }

    /// Whether the region has not yet been released.
    pub fn live(&self) -> (r: bool)
        ensures
            r == self.is_live(),
    {
        self.live
    }

    /// The byte offset of element `index` from the region's base: element
    /// boundaries are multiples of the element size.
    pub fn element_offset(&self, index: usize) -> (r: usize)
        requires
            self.wf(),
            index <= self.spec_nelems(),
        ensures
            r == index * self.spec_elem_size(),
    {
        proof {
            vstd::arithmetic::mul::lemma_mul_inequality(
                index as int,
                self.nelems as int,
                self.elem_size as int,
            );
        }
        index * self.elem_size
    }

    /// What releasing does: the first release of a live sequence marks it
    /// released and, if it holds any bytes, yields the (base address, byte
    /// length) pair to hand back to the operating system; a release of an
    /// already released sequence yields nothing and changes nothing.
    pub closed spec fn spec_release(self) -> (Option<(usize, usize)>, MappedSequence) {
        if self.live {
            (
                if self.len > 0 {
                    Some((self.addr, self.len))
                } else {
                    None
                },
                MappedSequence { live: false, ..self },
            )
        } else {
            (None, self)
        }
    }

    /// Tear the sequence down. The first call on a live sequence with a
    /// positive byte length yields the region to release; every other call
    /// yields nothing. After any call the sequence is released for good.
    pub fn release(&mut self) -> (r: Option<(usize, usize)>)
        ensures
            r == old(self).spec_release().0,
            *final(self) == old(self).spec_release().1,
            old(self).is_live() && old(self).spec_len() > 0 ==> r == Some(
                (old(self).spec_addr(), old(self).spec_len()),
            ),
            !(old(self).is_live() && old(self).spec_len() > 0) ==> r is None,
            !final(self).is_live(),
            final(self).spec_addr() == old(self).spec_addr(),
            final(self).spec_len() == old(self).spec_len(),
            final(self).spec_nelems() == old(self).spec_nelems(),
            final(self).spec_elem_size() == old(self).spec_elem_size(),
    {
        if self.live {
            self.live = false;
            if self.len > 0 {
                Some((self.addr, self.len))
            } else {
                None
            }
        } else {
            None
        }
    }
}

/// Law: a release is terminal. Whatever a release leaves behind is no longer
/// live, and releasing it again yields nothing and changes nothing — the
/// region is handed back at most once per sequence.
pub proof fn lemma_release_once(s: MappedSequence)
    ensures
        !s.spec_release().1.is_live(),
        s.spec_release().1.spec_release().0 is None,
        s.spec_release().1.spec_release().1 == s.spec_release().1,
{
}

/// Law: a file shorter than the requested byte length is refused as
/// `FileTooSmall`, for every element count and element size.
pub proof fn lemma_short_file_refused(nelems: nat, elem_size: nat, file_len: u64)
    requires
        file_len < byte_len(nelems, elem_size),
    ensures
        file_len_verdict(byte_len(nelems, elem_size), Ok(file_len)) == Err::<(), MapError>(
            MapError::FileTooSmall,
        ),
{
}

/// Law: a file of exactly the requested byte length is accepted: the length
/// check passes, and when any bytes are requested, a region of exactly that
/// length is accepted as well.
pub proof fn lemma_exact_fit_accepted(nelems: nat, elem_size: nat, file_len: u64)
    requires
        len_fits(nelems, elem_size),
        file_len == byte_len(nelems, elem_size),
    ensures
        file_len_verdict(byte_len(nelems, elem_size), Ok(file_len)) == Ok::<(), MapError>(()),
        byte_len(nelems, elem_size) > 0 ==> region_verdict(
            byte_len(nelems, elem_size),
            Ok(byte_len(nelems, elem_size) as usize),
        ) == RegionVerdict::Accepted,
{
}

/// Law: a request for zero elements takes zero bytes, always fits, and is
/// accepted against every file length — it is never refused as too small,
/// and no mapping is requested for it.
pub proof fn lemma_zero_elements_accepted(elem_size: nat, file_len: u64)
    ensures
        byte_len(0, elem_size) == 0,
        len_fits(0, elem_size),
        file_len_verdict(byte_len(0, elem_size), Ok(file_len)) == Ok::<(), MapError>(()),
{
}

} // verus!
