use esp32_s3_box3::ota::{needs_validation, sector_writes, ImageState, SectorWrite};

#[test]
fn only_new_or_pending_images_are_confirmed() {
    assert!(needs_validation(ImageState::New));
    assert!(needs_validation(ImageState::PendingVerify));
    for s in [ImageState::Valid, ImageState::Invalid, ImageState::Aborted, ImageState::Undefined] {
        assert!(!needs_validation(s));
    }
}

#[test]
fn images_are_cut_into_sectors() {
    assert_eq!(
        sector_writes(10000),
        vec![
            SectorWrite { offset: 0, start: 0, end: 4096 },
            SectorWrite { offset: 4096, start: 4096, end: 8192 },
            SectorWrite { offset: 8192, start: 8192, end: 10000 },
        ]
    );
    assert_eq!(sector_writes(8192).len(), 2);
    assert_eq!(sector_writes(8192)[1].end, 8192);
    assert_eq!(sector_writes(1), vec![SectorWrite { offset: 0, start: 0, end: 1 }]);
    assert!(sector_writes(0).is_empty());
}
