use procon::{handle_spi_read, spi_in_range, SpiRange, StorageRegion};

const REGIONS: [StorageRegion; 6] = [
    StorageRegion::FactorySensorCalibration,
    StorageRegion::UserSensorCalibration,
    StorageRegion::FactorySticksCalibration,
    StorageRegion::UserSticksCalibration,
    StorageRegion::UseSpiColors,
    StorageRegion::ControllerColor,
];

#[test]
fn range_membership() {
    let r = SpiRange { offset: 0x6020, size: 0x18 };
    assert!(!spi_in_range(0x601F, r));
    assert!(spi_in_range(0x6020, r));
    assert!(spi_in_range(0x6037, r));
    assert!(!spi_in_range(0x6038, r));
    assert!(!spi_in_range(u32::MAX, SpiRange { offset: u32::MAX - 1, size: 1 }));
}

#[test]
fn every_region_reads_its_own_bytes_at_both_ends() {
    for g in REGIONS {
        let range = g.range();
        for addr in [range.offset, range.offset + range.size as u32 - 1] {
            let res = handle_spi_read(addr).expect("address in a region");
            assert_eq!(res.address, range.offset);
            assert_eq!(res.size as u16, range.size);
            assert_eq!(res.data, g.payload());
        }
    }
}

#[test]
fn addresses_next_to_regions_read_nothing_foreign() {
    for addr in [0u32, 0x601A, 0x601C, 0x601F, 0x6038, 0x603C, 0x604F, 0x605C, 0x800F, 0x8040, u32::MAX] {
        let res = handle_spi_read(addr);
        let holder = REGIONS.iter().find(|g| {
            let r = g.range();
            addr >= r.offset && addr - r.offset < r.size as u32
        });
        match (res, holder) {
            (None, None) => {}
            (Some(res), Some(g)) => assert_eq!(res.data, g.payload()),
            _ => panic!("read of {:#x} disagrees with the table", addr),
        }
    }
}

#[test]
fn regions_do_not_overlap() {
    for (i, a) in REGIONS.iter().enumerate() {
        for b in &REGIONS[i + 1..] {
            let (ra, rb) = (a.range(), b.range());
            let a_end = ra.offset + ra.size as u32;
            let b_end = rb.offset + rb.size as u32;
            assert!(a_end <= rb.offset || b_end <= ra.offset);
        }
    }
}

#[test]
fn factory_stick_calibration_bytes() {
    let res = handle_spi_read(0x603D).unwrap();
    assert_eq!(res.address, 0x603D);
    assert_eq!(res.size, 0x12);
    assert_eq!(
        res.data,
        vec![
            0x00, 0x07, 0x70, 0x00, 0x08, 0x80, 0x00, 0x07, 0x70, 0x00, 0x08, 0x80, 0x00, 0x07,
            0x70, 0x00, 0x07, 0x70
        ]
    );
}

#[test]
fn color_flag_and_colors() {
    assert_eq!(handle_spi_read(0x601B).unwrap().data, vec![0x00]);
    let colors = handle_spi_read(0x6050).unwrap();
    assert_eq!(colors.size, 12);
    assert_eq!(&colors.data[3..6], &[0xFF, 0xFF, 0xFF]);
}
