//! Device electronic signature
//!
//! (stored in flash memory)

use vstd::prelude::*;

verus! {

/// This is the test voltage in millivolts of the calibration done at the factory
pub const VDDA_CALIB: u32 = 3300;

/// Address of the device UID in ROM
pub const UID_ADDRESS: usize = 0x1FFF_F7AC;

/// Address of the flash size in ROM
pub const FLASH_SIZE_ADDRESS: usize = 0x1FFF_F7CC;

/// Device UID from ROM. See the reference manual for more info.
#[derive(Hash, Debug)]
pub struct Uid {
    x: u16,
    y: u16,
    waf_lot: [u8; 8],
}

impl Uid {
    pub closed spec fn x_spec(&self) -> u16 {
        self.x
    }

    pub closed spec fn y_spec(&self) -> u16 {
        self.y
    }

    pub closed spec fn waf_lot_spec(&self) -> Seq<u8> {
        self.waf_lot@
    }

    /// The UID as laid out in ROM: X and Y coordinates, then the wafer
    /// number and the seven lot number bytes.
    pub fn from_raw(x: u16, y: u16, waf_lot: [u8; 8]) -> (r: Uid)
        ensures
            r.x_spec() == x,
            r.y_spec() == y,
            r.waf_lot_spec() == waf_lot@,
    {
        Uid { x, y, waf_lot }
    }

    /// X coordinate on wafer
    pub fn x(&self) -> (r: u16)
        ensures
            r == self.x_spec(),
    {
        self.x
    }

    /// Y coordinate on wafer
    pub fn y(&self) -> (r: u16)
        ensures
            r == self.y_spec(),
    {
        self.y
    }

    /// Wafer number
    pub fn waf_num(&self) -> (r: u8)
        ensures
            r == self.waf_lot_spec()[0],
    {
        self.waf_lot[0]
    }

    /// Lot number, as its seven ASCII bytes
    pub fn lot_num(&self) -> (r: Vec<u8>)
        ensures
            r@ == self.waf_lot_spec().skip(1),
    {
        let mut v: Vec<u8> = Vec::new();
        let mut i: usize = 1;
        while i < 8
            invariant
                1 <= i <= 8,
                self.waf_lot@.len() == 8,
                v@ == self.waf_lot@.subrange(1, i as int),
            decreases 8 - i,
        {
            v.push(self.waf_lot[i]);
            i = i + 1;
            proof {
                assert(v@ =~= self.waf_lot@.subrange(1, i as int));
            }
        }
        proof {
            assert(v@ =~= self.waf_lot@.skip(1));
        }
        v
    }
}

/// Size of integrated flash
#[derive(Debug)]
pub struct FlashSize(u16);

impl FlashSize {
    pub closed spec fn kilo_bytes_spec(&self) -> u16 {
        self.0
    }

    /// The flash size as read from ROM, in kilobytes.
    pub fn from_raw(kilo_bytes: u16) -> (r: FlashSize)
        ensures
            r.kilo_bytes_spec() == kilo_bytes,
    {
        FlashSize(kilo_bytes)
    }

    /// Read flash size in kilobytes
    pub fn kilo_bytes(&self) -> (r: u16)
        ensures
            r == self.kilo_bytes_spec(),
    {
        self.0
    }

    /// Read flash size in bytes
    pub fn bytes(&self) -> (r: usize)
        ensures
            r == self.kilo_bytes_spec() * 1024,
    {
        (self.kilo_bytes() as usize) * 1024
    }
}

} // verus!
