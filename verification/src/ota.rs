//! Over-the-air updates: which boot states of the running image are
//! confirmed as valid, and how a new image is cut into flash sectors.

use vstd::prelude::*;

verus! {

/// Size of a flash sector, the unit in which an image is written.
pub const SECTOR_SIZE: usize = 4096;

/// The bootloader's state of an OTA image.
#[derive(Clone, Copy, PartialEq, Eq, Structural, Debug)]
pub enum ImageState {
    New,
    PendingVerify,
    Valid,
    Invalid,
    Aborted,
    Undefined,
}

/// Whether the running image is to be confirmed as valid: it is when it
/// booted for the first time (`New`) or awaits verification
/// (`PendingVerify`).
pub fn needs_validation(state: ImageState) -> (r: bool)
    ensures
        r == (state == ImageState::New || state == ImageState::PendingVerify),
{
    match state {
        ImageState::New | ImageState::PendingVerify => true,
        _ => false,
    }
}

/// One sector write of an image: the offset in the partition (as a `u32`,
/// wrapping) and the range of image bytes written there.
#[derive(Clone, Copy, PartialEq, Eq, Structural, Debug)]
pub struct SectorWrite {
    pub offset: u32,
    pub start: usize,
    pub end: usize,
}

/// Number of sectors that an image of `len` bytes spans.
pub open spec fn sector_count(len: int) -> int {
    len / SECTOR_SIZE as int + if len % SECTOR_SIZE as int == 0 { 0int } else { 1int }
}

/// The sector writes of an image of `len` bytes, in order: sector `i` takes
/// the bytes from `4096 * i` to the next 4096 or the end, at offset
/// `4096 * i`.
pub fn sector_writes(len: usize) -> (r: Vec<SectorWrite>)
    ensures
        r@.len() == sector_count(len as int),
        forall|i: int|
            0 <= i < r@.len() ==> {
                let w = #[trigger] r@[i];
                &&& w.offset == #[verifier::truncate] ((i * SECTOR_SIZE) as u32)
                &&& w.start == i * SECTOR_SIZE
                &&& w.end == if (i + 1) * SECTOR_SIZE <= len { (i + 1) * SECTOR_SIZE } else { len as int }
            },
{
    let count: usize = len / SECTOR_SIZE + if len % SECTOR_SIZE == 0 { 0 } else { 1 };
    let mut r: Vec<SectorWrite> = Vec::new();
    let mut sector: usize = 0;
    while sector < count
        invariant
            count == sector_count(len as int),
            sector <= count,
            r@.len() == sector,
            forall|i: int|
                0 <= i < r@.len() ==> {
                    let w = #[trigger] r@[i];
                    &&& w.offset == #[verifier::truncate] ((i * SECTOR_SIZE) as u32)
                    &&& w.start == i * SECTOR_SIZE
                    &&& w.end == if (i + 1) * SECTOR_SIZE <= len { (i + 1) * SECTOR_SIZE } else { len as int }
                },
        decreases count - sector,
    {
        assert(sector * 4096 < len) by (nonlinear_arith)
            requires
                sector < count,
                count == len / 4096 + if len % 4096 == 0 { 0int } else { 1int },
                len == 4096 * (len / 4096) + len % 4096,
                0 <= len % 4096 < 4096,
        ;
        let start = sector * SECTOR_SIZE;
        let end = if len - start > SECTOR_SIZE { start + SECTOR_SIZE } else { len };
        let offset = #[verifier::truncate] (start as u32);
        r.push(SectorWrite { offset, start, end });
        sector = sector + 1;
    }
    r
}

} // verus!
