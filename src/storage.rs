//! Emulated persistent storage: a fixed table of non-overlapping address
//! ranges, each backed by a constant calibration or configuration blob.
use vstd::prelude::*;

verus! {

/// An address range `[offset, offset + size)` of the emulated storage.
#[derive(Clone, Copy, Debug, PartialEq, Eq, Structural)]
pub struct SpiRange {
    pub offset: u32,
    pub size: u16,
}

impl SpiRange {
    pub open spec fn contains(self, addr: u32) -> bool {
        self.offset <= addr < self.offset + self.size
    }
}

/// The regions of storage that a host may read.
#[derive(Clone, Copy, Debug, PartialEq, Eq, Structural)]
pub enum StorageRegion {
    FactorySensorCalibration,
    UserSensorCalibration,
    FactorySticksCalibration,
    UserSticksCalibration,
    UseSpiColors,
    ControllerColor,
}

pub open spec fn region_base(g: StorageRegion) -> u32 {
    match g {
        StorageRegion::FactorySensorCalibration => 0x6020,
        StorageRegion::UserSensorCalibration => 0x8026,
        StorageRegion::FactorySticksCalibration => 0x603D,
        StorageRegion::UserSticksCalibration => 0x8010,
        StorageRegion::UseSpiColors => 0x601B,
        StorageRegion::ControllerColor => 0x6050,
    }
}

/// The bytes stored in each region; the length of a region is the length of
/// its payload.
pub open spec fn region_payload(g: StorageRegion) -> Seq<u8> {
    match g {
        // accelerometer origin, accelerometer sensitivity, gyroscope origin,
        // gyroscope sensitivity: three little-endian i16 each
        StorageRegion::FactorySensorCalibration => seq![
            0x00u8, 0x00, 0x00, 0x00, 0x00, 0x00,
            0x00, 0x40, 0x00, 0x40, 0x00, 0x40,
            0x00, 0x00, 0x00, 0x00, 0x00, 0x00,
            0x3B, 0x34, 0x3B, 0x34, 0x3B, 0x34,
        ],
        // erased flash: no user calibration has been written
        StorageRegion::UserSensorCalibration => Seq::new(26, |i: int| 0xFFu8),
        // left stick (above, center, below) then right stick (center, below,
        // above), each a pair of packed 12-bit values
        StorageRegion::FactorySticksCalibration => seq![
            0x00u8, 0x07, 0x70, 0x00, 0x08, 0x80, 0x00, 0x07, 0x70,
            0x00, 0x08, 0x80, 0x00, 0x07, 0x70, 0x00, 0x07, 0x70,
        ],
        StorageRegion::UserSticksCalibration => Seq::new(22, |i: int| 0xFFu8),
        // the host is told to use its default colors
        StorageRegion::UseSpiColors => seq![0x00u8],
        // body, buttons, left grip, right grip: RGB each
        StorageRegion::ControllerColor => seq![
            0x32u8, 0x32, 0x32, 0xFF, 0xFF, 0xFF, 0x32, 0x32, 0x32, 0x32, 0x32, 0x32,
        ],
    }
}

pub open spec fn region_range(g: StorageRegion) -> SpiRange {
    SpiRange { offset: region_base(g), size: region_payload(g).len() as u16 }
}

/// `addr` lies inside region `g`.
pub open spec fn in_region(addr: u32, g: StorageRegion) -> bool {
    region_range(g).contains(addr)
}

/// The region that holds `addr`, if any, looking the table up in order.
pub open spec fn region_at(addr: u32) -> Option<StorageRegion> {
    if in_region(addr, StorageRegion::FactorySensorCalibration) {
        Some(StorageRegion::FactorySensorCalibration)
    } else if in_region(addr, StorageRegion::UserSensorCalibration) {
        Some(StorageRegion::UserSensorCalibration)
    } else if in_region(addr, StorageRegion::FactorySticksCalibration) {
        Some(StorageRegion::FactorySticksCalibration)
    } else if in_region(addr, StorageRegion::UserSticksCalibration) {
        Some(StorageRegion::UserSticksCalibration)
    } else if in_region(addr, StorageRegion::UseSpiColors) {
        Some(StorageRegion::UseSpiColors)
    } else if in_region(addr, StorageRegion::ControllerColor) {
        Some(StorageRegion::ControllerColor)
    } else {
        None
    }
}

/// The declared regions never overlap, so an address belongs to at most one
/// of them and a read can never return bytes of a neighbouring region.
pub proof fn lemma_regions_disjoint(addr: u32, g1: StorageRegion, g2: StorageRegion)
    requires
        in_region(addr, g1),
        in_region(addr, g2),
    ensures
        g1 == g2,
{
}

/// What a storage read hands back: the region's base address and length,
/// followed by its bytes.
#[derive(Debug)]
pub struct SpiReadResult {
    pub address: u32,
    pub size: u8,
    pub data: Vec<u8>,
}

impl StorageRegion {
    pub fn range(&self) -> (r: SpiRange)
        ensures
            r == region_range(*self),
    {
        match self {
            StorageRegion::FactorySensorCalibration => SpiRange { offset: 0x6020, size: 24 },
            StorageRegion::UserSensorCalibration => SpiRange { offset: 0x8026, size: 26 },
            StorageRegion::FactorySticksCalibration => SpiRange { offset: 0x603D, size: 18 },
            StorageRegion::UserSticksCalibration => SpiRange { offset: 0x8010, size: 22 },
            StorageRegion::UseSpiColors => SpiRange { offset: 0x601B, size: 1 },
            StorageRegion::ControllerColor => SpiRange { offset: 0x6050, size: 12 },
        }
    }

    pub fn payload(&self) -> (r: Vec<u8>)
        ensures
            r@ == region_payload(*self),
    {
        let r = match self {
            StorageRegion::FactorySensorCalibration => vec![
                0x00u8, 0x00, 0x00, 0x00, 0x00, 0x00,
                0x00, 0x40, 0x00, 0x40, 0x00, 0x40,
                0x00, 0x00, 0x00, 0x00, 0x00, 0x00,
                0x3B, 0x34, 0x3B, 0x34, 0x3B, 0x34,
            ],
            StorageRegion::UserSensorCalibration => vec![0xFFu8; 26],
            StorageRegion::FactorySticksCalibration => vec![
                0x00u8, 0x07, 0x70, 0x00, 0x08, 0x80, 0x00, 0x07, 0x70,
                0x00, 0x08, 0x80, 0x00, 0x07, 0x70, 0x00, 0x07, 0x70,
            ],
            StorageRegion::UserSticksCalibration => vec![0xFFu8; 22],
            StorageRegion::UseSpiColors => vec![0x00u8],
            StorageRegion::ControllerColor => vec![
                0x32u8, 0x32, 0x32, 0xFF, 0xFF, 0xFF, 0x32, 0x32, 0x32, 0x32, 0x32, 0x32,
            ],
        };
        assert(r@ =~= region_payload(*self));
        r
    }

    /// The read result for the whole region.
    pub fn read_result(&self) -> (r: SpiReadResult)
        ensures
            r.address == region_base(*self),
            r.size == region_payload(*self).len(),
            r.data@ == region_payload(*self),
    {
        let range = self.range();
        SpiReadResult { address: range.offset, size: range.size as u8, data: self.payload() }
    }
}

/// Whether `addr` lies inside `range`.
pub fn spi_in_range(addr: u32, range: SpiRange) -> (r: bool)
    ensures
        r == range.contains(addr),
{
    addr >= range.offset && (addr - range.offset) < range.size as u32
}

/// Looks `addr` up in the storage table: the read result of the region that
/// holds it, or `None` where no region does.
pub fn handle_spi_read(addr: u32) -> (r: Option<SpiReadResult>)
    ensures
        match region_at(addr) {
            Some(g) => r matches Some(res) && res.address == region_base(g) && res.size
                == region_payload(g).len() && res.data@ == region_payload(g),
            None => r is None,
        },
        forall|g: StorageRegion|
            #![trigger in_region(addr, g)]
            in_region(addr, g) ==> {
                &&& region_at(addr) == Some(g)
                &&& r matches Some(res)
                &&& res.address == region_base(g)
                &&& res.size == region_payload(g).len()
                &&& res.data@ == region_payload(g)
            },
{
    let regions = [
        StorageRegion::FactorySensorCalibration,
        StorageRegion::UserSensorCalibration,
        StorageRegion::FactorySticksCalibration,
        StorageRegion::UserSticksCalibration,
        StorageRegion::UseSpiColors,
        StorageRegion::ControllerColor,
    ];
    let mut i: usize = 0;
    while i < 6
        invariant
            0 <= i <= 6,
            forall|j: int| 0 <= j < i ==> !in_region(addr, #[trigger] regions@[j]),
            regions@ == seq![
                StorageRegion::FactorySensorCalibration,
                StorageRegion::UserSensorCalibration,
                StorageRegion::FactorySticksCalibration,
                StorageRegion::UserSticksCalibration,
                StorageRegion::UseSpiColors,
                StorageRegion::ControllerColor,
            ],
        decreases 6 - i,
    {
        let g = regions[i];
        if spi_in_range(addr, g.range()) {
            return Some(g.read_result());
        }
        i = i + 1;
    }
    proof {
        assert forall|g: StorageRegion| !in_region(addr, g) by {
            match g {
                StorageRegion::FactorySensorCalibration => assert(!in_region(addr, regions@[0])),
                StorageRegion::UserSensorCalibration => assert(!in_region(addr, regions@[1])),
                StorageRegion::FactorySticksCalibration => assert(!in_region(addr, regions@[2])),
                StorageRegion::UserSticksCalibration => assert(!in_region(addr, regions@[3])),
                StorageRegion::UseSpiColors => assert(!in_region(addr, regions@[4])),
                StorageRegion::ControllerColor => assert(!in_region(addr, regions@[5])),
            }
        }
    }
    None
}

} // verus!
