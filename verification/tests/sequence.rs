use mmap_slice::check_file_len;
use mmap_slice::check_region;
use mmap_slice::map_len;
use mmap_slice::needs_mapping;
use mmap_slice::MapError;
use mmap_slice::MappedSequence;
use mmap_slice::RegionVerdict;

#[test]
fn size_overflow_refused() {
    assert_eq!(map_len(usize::MAX, 8), Err(MapError::SizeOverflow));
    assert_eq!(map_len(usize::MAX / 2 + 1, 2), Err(MapError::SizeOverflow));
}

#[test]
fn largest_representable_length_accepted() {
    assert_eq!(map_len(usize::MAX, 1), Ok(usize::MAX));
    assert_eq!(map_len(1, usize::MAX), Ok(usize::MAX));
}

#[test]
fn short_file_refused() {
    assert_eq!(check_file_len(20, Ok(16)), Err(MapError::FileTooSmall));
    assert_eq!(check_file_len(1, Ok(0)), Err(MapError::FileTooSmall));
}

#[test]
fn stat_error_propagated() {
    assert_eq!(check_file_len(16, Err(13)), Err(MapError::StatError(13)));
    assert_eq!(check_file_len(0, Err(5)), Err(MapError::StatError(5)));
}

#[test]
fn exact_fit_accepted() {
    let len = map_len(4, 4).unwrap();
    assert_eq!(len, 16);
    assert_eq!(check_file_len(len, Ok(16)), Ok(()));
    assert!(needs_mapping(len));
    assert_eq!(check_region(len, Ok(len)), RegionVerdict::Accepted);
    let seq = MappedSequence::assemble(0x7000, 4, 4).unwrap();
    assert_eq!(seq.element_count(), 4);
    assert_eq!(seq.byte_length(), 16);
    assert_eq!(seq.base_addr(), 0x7000);
    assert!(seq.live());
}

#[test]
fn sixteen_byte_file_example() {
    // A 16-byte file backs 4 elements of 4 bytes, but not 5.
    let len = map_len(4, 4).unwrap();
    assert_eq!(check_file_len(len, Ok(16)), Ok(()));
    let too_long = map_len(5, 4).unwrap();
    assert_eq!(too_long, 20);
    assert_eq!(check_file_len(too_long, Ok(16)), Err(MapError::FileTooSmall));
}

#[test]
fn zero_elements_succeed_trivially() {
    // A zero-byte request never reaches the mapping mechanism and is never
    // confused with a short file or a mapping failure.
    let len = map_len(0, 4).unwrap();
    assert_eq!(len, 0);
    assert!(!needs_mapping(len));
    assert_eq!(check_file_len(len, Ok(0)), Ok(()));
    assert_eq!(check_file_len(len, Ok(16)), Ok(()));
    let seq = MappedSequence::assemble(0x1000, 0, 4).unwrap();
    assert_eq!(seq.element_count(), 0);
    assert_eq!(seq.byte_length(), 0);
}

#[test]
fn zero_sized_elements_succeed_trivially() {
    let len = map_len(7, 0).unwrap();
    assert_eq!(len, 0);
    assert!(!needs_mapping(len));
    let seq = MappedSequence::assemble(0x1000, 7, 0).unwrap();
    assert_eq!(seq.element_count(), 7);
    assert_eq!(seq.byte_length(), 0);
}

#[test]
fn undersized_region_rejected_and_released() {
    assert_eq!(
        check_region(16, Ok(8)),
        RegionVerdict::Rejected { release: true, error: MapError::MapRegionTooSmall }
    );
    assert_eq!(
        check_region(16, Ok(0)),
        RegionVerdict::Rejected { release: true, error: MapError::MapRegionTooSmall }
    );
}

#[test]
fn denied_mapping_leaves_nothing_to_release() {
    assert_eq!(
        check_region(16, Err(12)),
        RegionVerdict::Rejected { release: false, error: MapError::MapFailed(12) }
    );
}

#[test]
fn release_happens_exactly_once() {
    let mut seq = MappedSequence::assemble(0x4000, 4, 4).unwrap();
    assert!(seq.live());
    // The first release hands out the region; a second teardown path gets
    // nothing, so the OS-level release can only happen once.
    assert_eq!(seq.release(), Some((0x4000, 16)));
    assert!(!seq.live());
    assert_eq!(seq.release(), None);
    assert_eq!(seq.release(), None);
    assert_eq!(seq.element_count(), 4);
    assert_eq!(seq.byte_length(), 16);
}

#[test]
fn releasing_an_empty_region_yields_nothing() {
    let mut seq = MappedSequence::assemble(0x4000, 0, 8).unwrap();
    assert_eq!(seq.release(), None);
    assert!(!seq.live());
}

#[test]
fn element_offsets_step_by_element_size() {
    let seq = MappedSequence::assemble(0x2000, 4, 4).unwrap();
    assert_eq!(seq.element_offset(0), 0);
    assert_eq!(seq.element_offset(1), 4);
    assert_eq!(seq.element_offset(3), 12);
    assert_eq!(seq.element_offset(4), 16);
}

#[test]
fn assemble_refuses_overflow() {
    let r = MappedSequence::assemble(0, usize::MAX, 2);
    assert!(matches!(r, Err(MapError::SizeOverflow)));
}

#[test]
fn descriptions_name_each_kind() {
    assert_eq!(MapError::SizeOverflow.description(), "Size overflow");
    assert_eq!(MapError::StatError(2).description(), "Stat error");
    assert_eq!(MapError::FileTooSmall.description(), "File too small to mmap");
    assert_eq!(MapError::MapFailed(12).description(), "Mmap error");
    assert_eq!(MapError::MapRegionTooSmall.description(), "Mmap region too small");
}

#[test]
fn io_errors_keep_the_os_cause() {
    assert_eq!(MapError::StatError(2).to_io_error().raw_os_error(), Some(2));
    assert_eq!(MapError::MapFailed(12).to_io_error().raw_os_error(), Some(12));
    let e = MapError::SizeOverflow.to_io_error();
    assert_eq!(e.raw_os_error(), None);
    assert_eq!(format!("{}", e), "Size overflow");
    let e = MapError::FileTooSmall.to_io_error();
    assert_eq!(format!("{}", e), "File too small to mmap");
}
