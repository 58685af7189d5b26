//! Flash memory: page erase and half-word programming plans

use vstd::prelude::*;

use crate::rcc::{bit_is_set, set_bit, with_bit};
use crate::signature::FlashSize;

verus! {

/// First address of the flash memory
pub const FLASH_START: usize = 0x0800_0000;

/// F03x, F04x and F05x pages are 1K long
pub const PAGE_SIZE: u32 = 1024;

/// F03x, F04x and F05x have 64 flash pages
pub const NUM_PAGES: u32 = 64;

/// Flash erase/program error
#[derive(Debug, Clone, Copy, PartialEq, Eq, Structural)]
pub enum Error {
    Programming,
    WriteProtection,
    /// STM32F0 can only write Half Words (16 Bit) to flash. Can not write to addresses not aligned to that.
    Alignment,
}

/// FLASH_SR bit positions
pub const SR_BSY: u32 = 0;
pub const SR_PGERR: u32 = 2;
pub const SR_WRPRTERR: u32 = 4;

/// The error that a value of FLASH_SR reports, programming errors first.
pub open spec fn status_error(sr: u32) -> Option<Error> {
    if bit_is_set(sr, SR_PGERR) {
        Some(Error::Programming)
    } else if bit_is_set(sr, SR_WRPRTERR) {
        Some(Error::WriteProtection)
    } else {
        None
    }
}

impl Error {
    /// Decodes the error flags of FLASH_SR.
    pub fn read(sr: u32) -> (r: Option<Self>)
        ensures
            r == status_error(sr),
    {
        if sr & (1u32 << SR_PGERR) != 0 {
            Some(Error::Programming)
        } else if sr & (1u32 << SR_WRPRTERR) != 0 {
            Some(Error::WriteProtection)
        } else {
            None
        }
    }
}

/// Flash methods
#[allow(clippy::len_without_is_empty)]
pub trait FlashExt {
    /// Memory-mapped address
    fn address(&self) -> (r: usize);

    /// Size in bytes
    fn len(&self) -> (r: usize);

    /// Unlock flash for erasing/programming
    fn unlocked(&mut self) -> (r: UnlockedFlash);
}

/// Read-only flash
pub struct LockedFlash<FLASH> {
    flash: FLASH,
    size: usize,
}

impl<FLASH> LockedFlash<FLASH> {
    pub closed spec fn size_spec(&self) -> usize {
        self.size
    }

    pub closed spec fn peripheral(&self) -> FLASH {
        self.flash
    }

    /// Releases the flash peripheral
    pub fn release(self) -> (r: FLASH)
        ensures
            r == self.peripheral(),
    {
        self.flash
    }

    /// Wraps the flash peripheral of a device whose signature reports the
    /// flash size `size`.
    pub fn new(flash: FLASH, size: FlashSize) -> (r: Self)
        ensures
            r.peripheral() == flash,
            r.size_spec() == size.kilo_bytes_spec() * 1024,
    {
        Self { flash, size: size.bytes() }
    }
}

impl<FLASH> FlashExt for LockedFlash<FLASH> {
    fn address(&self) -> (r: usize)
        ensures
            r == FLASH_START,
    {
        FLASH_START
    }

    fn len(&self) -> (r: usize)
        ensures
            r == self.size_spec(),
    {
        self.size
    }

    /// The caller writes the unlock keys `UNLOCK_KEY1` and `UNLOCK_KEY2` to
    /// FLASH_KEYR, and sets LOCK in FLASH_CR when it is done with the result.
    fn unlocked(&mut self) -> (r: UnlockedFlash)
        ensures
            r.len_spec() == old(self).size_spec(),
            *final(self) == *old(self),
    {
        UnlockedFlash { size: self.size }
    }
}

/// First key of the unlock sequence
pub const UNLOCK_KEY1: u32 = 0x45670123;

/// Second key of the unlock sequence
pub const UNLOCK_KEY2: u32 = 0xCDEF89AB;

/// Flash unlocked for erasing and programming
pub struct UnlockedFlash {
    size: usize,
}

/// Bit of LOCK in FLASH_CR
pub const CR_LOCK_BIT: u32 = 7;

/// Whether a value of FLASH_CR shows the flash unlocked: LOCK clear.
pub open spec fn cr_unlocked(cr: u32) -> bool {
    !bit_is_set(cr, CR_LOCK_BIT)
}

impl<FLASH> LockedFlash<FLASH> {
    /// The writes to FLASH_KEYR that unlock the flash, in order.
    pub fn unlock_sequence(&self) -> (r: [u32; 2])
        ensures
            r@ == seq![UNLOCK_KEY1, UNLOCK_KEY2],
    {
        let r = [UNLOCK_KEY1, UNLOCK_KEY2];
        assert(r@ =~= seq![UNLOCK_KEY1, UNLOCK_KEY2]);
        r
    }

    /// Whether the unlock sequence took effect, from the value of FLASH_CR
    /// read after it. An unlocked handle is only to be used when it did.
    pub fn unlock_took_effect(&self, cr: u32) -> (r: bool)
        ensures
            r == cr_unlocked(cr),
    {
        cr & (1u32 << CR_LOCK_BIT) == 0
    }
}

impl UnlockedFlash {
    /// The FLASH_CR value that locks the flash again once the unlocked handle
    /// is done with, given the register's present value: LOCK set, every
    /// other bit kept.
    pub fn relock(&self, cr: u32) -> (r: u32)
        ensures
            r == with_bit(cr, CR_LOCK_BIT),
            !cr_unlocked(r),
            forall|b: u32| b < 32 && b != CR_LOCK_BIT ==> bit_is_set(r, b) == bit_is_set(cr, b),
    {
        set_bit(cr, CR_LOCK_BIT)
    }
}

/// Locking after an unlock: whatever FLASH_CR held while the flash was
/// unlocked, the value that `relock` gives shows it locked, and locking an
/// already locked flash changes nothing.
pub proof fn lemma_relock(cr: u32)
    ensures
        cr_unlocked(cr) ==> !cr_unlocked(with_bit(cr, CR_LOCK_BIT)),
        !cr_unlocked(with_bit(cr, CR_LOCK_BIT)),
        !cr_unlocked(cr) ==> with_bit(cr, CR_LOCK_BIT) == cr,
{
    assert((cr | (1u32 << 7u32)) & (1u32 << 7u32) != 0
        && (cr & (1u32 << 7u32) != 0 ==> (cr | (1u32 << 7u32)) == cr)) by (bit_vector);
}

/// The half-word to program at position `i` of `data`: two bytes in little
/// endian order, the last one padded with 0xFF when `data` has an odd length.
pub open spec fn halfword_at(data: Seq<u8>, i: int) -> u16 {
    if 2 * i + 1 < data.len() {
        (data[2 * i] as u16) | ((data[2 * i + 1] as u16) << 8u16)
    } else {
        0xff00u16 | (data[2 * i] as u16)
    }
}

/// The half-word writes that program `data` at `address`.
pub open spec fn program_plan(address: usize, data: Seq<u8>) -> Seq<(usize, u16)> {
    Seq::new(
        ((data.len() + 1) / 2) as nat,
        |i: int| ((address + 2 * i) as usize, halfword_at(data, i)),
    )
}

/// The half-word writes that program the half-words `data` at `address`,
/// one after the other.
pub open spec fn native_plan(address: usize, data: Seq<u16>) -> Seq<(usize, u16)> {
    Seq::new(data.len(), |i: int| ((address + 2 * i) as usize, data[i]))
}

/// Writing to the flash in its native unit, the half-word
pub trait WriteErase: Sized {
    /// The writes that program the half-words `data` at `address`.
    fn program_native(&mut self, address: usize, data: &[u16]) -> (r: Vec<(usize, u16)>)
        requires
            address + 2 * data@.len() <= usize::MAX,
        ensures
            *final(self) == *old(self),
            r@ == native_plan(address, data@),
    ;

    /// The half-word writes that program `data` at `address`: each pair of
    /// bytes in little endian order, a last odd byte padded with 0xFF.
    /// Addresses must be half-word aligned.
    fn program(&mut self, address: usize, data: &[u8]) -> (r: Result<Vec<(usize, u16)>, Error>)
        requires
            address + data@.len() + 1 <= usize::MAX,
        ensures
            *final(self) == *old(self),
            address % 2 != 0 ==> r == Err::<Vec<(usize, u16)>, Error>(Error::Alignment),
            address % 2 == 0 ==> (r matches Ok(v) && v@ == program_plan(address, data@)),
    ;
}

impl WriteErase for UnlockedFlash {
    fn program_native(&mut self, address: usize, data: &[u16]) -> (r: Vec<(usize, u16)>) {
        let mut writes: Vec<(usize, u16)> = Vec::new();
        let mut i: usize = 0;
        while i < data.len()
            invariant
                i <= data@.len(),
                address + 2 * data@.len() <= usize::MAX,
                writes@ == native_plan(address, data@).take(i as int),
            decreases data.len() - i,
        {
            writes.push((address + 2 * i, data[i]));
            i = i + 1;
            assert(writes@ =~= native_plan(address, data@).take(i as int));
        }
        assert(writes@ =~= native_plan(address, data@));
        writes
    }

    fn program(&mut self, address: usize, data: &[u8]) -> (r: Result<Vec<(usize, u16)>, Error>)
    {
        if address % 2 != 0 {
            return Err(Error::Alignment);
        }
        let mut writes: Vec<(usize, u16)> = Vec::new();
        let mut addr = address;
        let n = data.len();
        let mut i: usize = 0;
        // exact two-byte chunks
        while n - i >= 2
            invariant
                n == data@.len(),
                i % 2 == 0,
                i <= n,
                addr == address + i,
                address + n + 1 <= usize::MAX,
                writes@ == program_plan(address, data@).take((i / 2) as int),
            decreases n - i,
        {
            let native: u16 = (data[i] as u16) | ((data[i + 1] as u16) << 8u16);
            writes.push((addr, native));
            addr = addr + 2;
            i = i + 2;
            proof {
                assert(writes@ =~= program_plan(address, data@).take((i / 2) as int));
            }
        }
        // remainder
        if i < n {
            let mut word: u16 = 0xFFFF;
            let b = data[i];
            word = (word << 8u16) | (b as u16);
            assert((0xFFFFu16 << 8u16) | (b as u16) == 0xff00u16 | (b as u16)) by (bit_vector);
            writes.push((addr, word));
            proof {
                assert(i + 1 == n);
                assert(writes@ =~= program_plan(address, data@));
            }
        } else {
            proof {
                assert(writes@ =~= program_plan(address, data@));
            }
        }
        Ok(writes)
    }

}

/// How many pages `erase_plan(from, to)` erases on a flash of `len` bytes:
/// one for each page start `from + j * PAGE_SIZE` that lies below both `to`
/// and `len`.
pub open spec fn erase_count(from: int, to: int, len: int) -> int {
    let end = if to < len { to } else { len };
    if from >= end {
        0
    } else {
        (end - from + PAGE_SIZE - 1) / PAGE_SIZE as int
    }
}

/// The offsets that `erase_plan` erases, in order.
pub open spec fn erase_offsets(from: u32, to: u32, len: usize) -> Seq<u32> {
    Seq::new(
        erase_count(from as int, to as int, len as int) as nat,
        |j: int| (from + PAGE_SIZE * j) as u32,
    )
}

impl UnlockedFlash {
    pub closed spec fn len_spec(&self) -> usize {
        self.size
    }

    /// The address to write to FLASH_AR to erase the page at `offset`;
    /// the caller sets PER in FLASH_CR before and STRT after writing it.
    pub fn erase(&mut self, offset: u32) -> (r: u32)
        requires
            FLASH_START + offset <= u32::MAX,
        ensures
            *final(self) == *old(self),
            r == FLASH_START + offset,
    {
        FLASH_START as u32 + offset
    }

    /// The outcome of an operation, from the value of FLASH_SR at its end.
    pub fn ok(&self, sr: u32) -> (r: Result<(), Error>)
        ensures
            r == match status_error(sr) {
                Some(e) => Err(e),
                None => Ok(()),
            },
    {
        match Error::read(sr) {
            Some(e) => Err(e),
            None => Ok(()),
        }
    }

    /// The half-word writes that store `bytes` at `offset` from the start of
    /// the flash.
    pub fn write(&mut self, offset: u32, bytes: &[u8]) -> (r: Result<Vec<(usize, u16)>, Error>)
        requires
            FLASH_START + offset + bytes@.len() + 1 <= usize::MAX,
        ensures
            *final(self) == *old(self),
            offset % 2 != 0 ==> r == Err::<Vec<(usize, u16)>, Error>(Error::Alignment),
            offset % 2 == 0 ==> (r matches Ok(v) && v@ == program_plan(
                (FLASH_START + offset) as usize,
                bytes@,
            )),
    {
        self.program(FLASH_START + offset as usize, bytes)
    }

    /// Size of the flash in bytes
    pub fn capacity(&self) -> (r: usize)
        ensures
            r == self.len_spec(),
    {
        self.size
    }

    /// The page offsets to erase, in order, to clear the range `from..to`:
    /// every page start from `from` on, a page apart, that lies below `to`
    /// and within the flash.
    pub fn erase_plan(&self, from: u32, to: u32) -> (r: Vec<u32>)
        ensures
            r@ == erase_offsets(from, to, self.len_spec()),
    {
        let len: u64 = self.size as u64;
        let end: u64 = if (to as u64) < len { to as u64 } else { len };
        let mut current: u64 = from as u64;
        let mut out: Vec<u32> = Vec::new();
        while current < end
            invariant
                end <= to,
                end == (if to < self.size { to as int } else { self.size as int }),
                current == from + PAGE_SIZE * out@.len(),
                out@ == Seq::new(out@.len(), |j: int| (from + PAGE_SIZE * j) as u32),
                out@.len() > 0 ==> from + PAGE_SIZE * (out@.len() - 1) < end,
            decreases end + PAGE_SIZE - current,
        {
            out.push(current as u32);
            current = current + PAGE_SIZE as u64;
            proof {
                assert(out@ =~= Seq::new(out@.len(), |j: int| (from + PAGE_SIZE * j) as u32));
            }
        }
        proof {
            lemma_erase_count(from as int, end as int, out@.len() as int);
        }
        out
    }
}

/// Programming stores the data byte for byte: byte `k` of the written image
/// (half-words in little endian order) is `data[k]`, and the byte that pads an
/// odd length is 0xFF.
pub proof fn lemma_program_bytes(data: Seq<u8>, k: int)
    requires
        0 <= k < data.len(),
    ensures
        k % 2 == 0 ==> (halfword_at(data, k / 2) & 0xff) as u8 == data[k],
        k % 2 == 1 ==> (halfword_at(data, k / 2) >> 8u16) as u8 == data[k],
        data.len() % 2 == 1 && k == data.len() - 1 ==> (halfword_at(data, k / 2) >> 8u16) == 0xff,
{
    let i = k / 2;
    let lo = data[2 * i];
    if 2 * i + 1 < data.len() {
        let hi = data[2 * i + 1];
        assert(((lo as u16) | ((hi as u16) << 8u16)) & 0xff == lo as u16) by (bit_vector);
        assert(((lo as u16) | ((hi as u16) << 8u16)) >> 8u16 == hi as u16) by (bit_vector);
    } else {
        assert((0xff00u16 | (lo as u16)) & 0xff == lo as u16) by (bit_vector);
        assert((0xff00u16 | (lo as u16)) >> 8u16 == 0xff) by (bit_vector);
    }
}

/// Erasing a page-aligned range that lies within the flash erases exactly the
/// pages of that range, in order.
pub proof fn lemma_erase_aligned_range(from: u32, to: u32, len: usize)
    requires
        from % PAGE_SIZE == 0,
        to % PAGE_SIZE == 0,
        from < to,
        to <= len,
    ensures
        erase_offsets(from, to, len) == Seq::new(
            ((to - from) / PAGE_SIZE as int) as nat,
            |j: int| (from + PAGE_SIZE * j) as u32,
        ),
{
    let d = to - from;
    vstd::arithmetic::div_mod::lemma_fundamental_div_mod(from as int, 1024);
    vstd::arithmetic::div_mod::lemma_fundamental_div_mod(to as int, 1024);
    assert(d % 1024 == 0) by {
        assert(d == 1024 * (to as int / 1024 - from as int / 1024));
        vstd::arithmetic::div_mod::lemma_fundamental_div_mod_converse(d, 1024, to as int / 1024 - from as int / 1024, 0);
    }
    vstd::arithmetic::div_mod::lemma_fundamental_div_mod(d, 1024);
    let q = d / 1024;
    assert((d + 1023) / 1024 == q) by {
        vstd::arithmetic::div_mod::lemma_fundamental_div_mod_converse(d + 1023, 1024, q, 1023);
    }
}

/// Flash memory sector
#[derive(Clone, Copy, Debug, PartialEq, Eq, Structural)]
pub struct FlashSector {
    /// Sector number
    pub number: u8,
    /// Offset from base memory address
    pub offset: usize,
    /// Sector size in bytes
    pub size: usize,
}

impl FlashSector {
    /// Returns true if given offset belongs to this sector
    pub fn contains(&self, offset: usize) -> (r: bool)
        ensures
            r == (self.offset <= offset && offset < self.offset + self.size),
    {
        self.offset <= offset && offset - self.offset < self.size
    }
}

/// Size in bytes of the sector at position `index` of a bank: 16K for the
/// first three, 64K for the fourth, 128K for each one after.
pub open spec fn sector_size(index: int) -> int {
    if index < 3 {
        0x4000
    } else if index == 3 {
        0x1_0000
    } else {
        0x2_0000
    }
}

/// Offset from the start of a bank of the sector at position `index`: the
/// sizes of the sectors before it, added up.
pub open spec fn sector_offset(index: nat) -> int
    decreases index,
{
    if index == 0 {
        0
    } else {
        sector_offset((index - 1) as nat) + sector_size(index - 1)
    }
}

/// How many sectors are left from position `index` at offset `offset` until
/// a sector reaches `end`.
pub open spec fn sectors_left(index: int, offset: int, end: int) -> nat
    decreases (if offset < end { end - offset } else { 0 }),
{
    if offset >= end {
        0
    } else {
        1 + sectors_left(index + 1, offset + sector_size(index), end)
    }
}

fn sector_size_at(index: u8) -> (r: usize)
    ensures
        r == sector_size(index as int),
{
    if index < 3 {
        0x4000
    } else if index == 3 {
        0x1_0000
    } else {
        0x2_0000
    }
}

/// Iterator of flash memory sectors in a single bank.
/// Yields a size sequence of [16, 16, 16, 64, 128, 128, ..] (in KiB)
pub struct FlashSectorIterator {
    pub index: u8,
    pub start_sector: u8,
    pub start_offset: usize,
    pub end_offset: usize,
}

impl FlashSectorIterator {
    /// The states from which `next` computes without overflow: the offsets
    /// fit in a `usize` and the numbers of the sectors that remain, and the
    /// position after them, in a `u8`.
    pub open spec fn wf(&self) -> bool {
        &&& self.end_offset + 0x2_0000 <= usize::MAX
        &&& self.start_sector + self.index + sectors_left(
            self.index as int,
            self.start_offset as int,
            self.end_offset as int,
        ) <= 255
    }

    /// What `next` yields, and the iterator it leaves behind.
    pub open spec fn step(self) -> (Option<FlashSector>, FlashSectorIterator) {
        if self.start_offset >= self.end_offset {
            (None, self)
        } else {
            (
                Some(
                    FlashSector {
                        number: (self.start_sector + self.index) as u8,
                        offset: self.start_offset,
                        size: sector_size(self.index as int) as usize,
                    },
                ),
                FlashSectorIterator {
                    index: (self.index + 1) as u8,
                    start_sector: self.start_sector,
                    start_offset: (self.start_offset + sector_size(self.index as int)) as usize,
                    end_offset: self.end_offset,
                },
            )
        }
    }

    /// The iterator after `k` calls of `next`.
    pub open spec fn after(self, k: nat) -> FlashSectorIterator
        decreases k,
    {
        if k == 0 {
            self
        } else {
            self.after((k - 1) as nat).step().1
        }
    }

    pub fn new(start_sector: u8, start_offset: usize, end_offset: usize) -> (r: Self)
        ensures
            r.index == 0,
            r.start_sector == start_sector,
            r.start_offset == start_offset,
            r.end_offset == end_offset,
    {
        Self { index: 0, start_sector, start_offset, end_offset }
    }

    /// Yields the next sector, `None` once the end offset is reached.
    pub fn next(&mut self) -> (r: Option<FlashSector>)
        requires
            old(self).wf(),
        ensures
            final(self).wf(),
            (r, *final(self)) == old(self).step(),
    {
        if self.start_offset >= self.end_offset {
            None
        } else {
            let size = sector_size_at(self.index);
            let sector = FlashSector { number: self.start_sector + self.index, offset: self.start_offset, size };
            self.index = self.index + 1;
            self.start_offset = self.start_offset + size;
            Some(sector)
        }
    }
}

/// The iterator that `flash_sectors(flash_size)` returns.
pub open spec fn sectors_of(flash_size: usize) -> FlashSectorIterator {
    FlashSectorIterator { index: 0, start_sector: 0, start_offset: 0, end_offset: flash_size }
}

/// Returns the iterator of flash memory sectors for a flash of `flash_size`
/// bytes. Sectors are returned in continuous memory order.
pub fn flash_sectors(flash_size: usize) -> (r: FlashSectorIterator)
    ensures
        r == sectors_of(flash_size),
{
    FlashSectorIterator::new(0, 0, flash_size)
}

/// Iterating over the sectors of a flash of `flash_size` bytes: call `k` of
/// `next` (counting from 0) yields sector number `k`, at `sector_offset(k)`
/// and of `sector_size(k)` bytes, as long as that offset lies below
/// `flash_size`. The first sector starts at offset 0 and each one right where
/// the one before it ends. The last sector reaches `flash_size`; after it,
/// every call yields `None` and leaves the iterator as it is. A flash of size
/// 0 has no sectors.
pub proof fn lemma_flash_sectors(flash_size: usize, k: nat)
    requires
        sectors_of(flash_size).wf(),
    ensures
        ({
            let n = sectors_left(0, 0, flash_size as int);
            let it = sectors_of(flash_size).after(k);
            &&& k < n ==> it.step().0 == Some(
                FlashSector {
                    number: k as u8,
                    offset: sector_offset(k) as usize,
                    size: sector_size(k as int) as usize,
                },
            )
            &&& k < n ==> 0 <= sector_offset(k) < flash_size
            &&& k >= n ==> it.step().0 is None && it.step().1 == it
            &&& sector_offset(0) == 0
            &&& sector_offset(k + 1) == sector_offset(k) + sector_size(k as int)
            &&& flash_size <= sector_offset(n)
            &&& (n == 0 <==> flash_size == 0)
        }),
{
    let n = sectors_left(0, 0, flash_size as int);
    if k <= n {
        lemma_sectors_after(flash_size, k);
    } else {
        lemma_sectors_after(flash_size, n);
        lemma_sectors_done(flash_size, k);
    }
    lemma_sectors_after(flash_size, n);
    if k >= n {
        lemma_sectors_done(flash_size, k);
    }
}

/// Every offset below `flash_size` lies in exactly one of the sectors that
/// `flash_sectors(flash_size)` yields.
pub proof fn lemma_sector_cover(flash_size: usize, o: int)
    requires
        sectors_of(flash_size).wf(),
        0 <= o < flash_size,
    ensures
        exists|k: nat|
            k < sectors_left(0, 0, flash_size as int) && #[trigger] sector_offset(k) <= o < sector_offset(k) + sector_size(
                k as int,
            ),
        forall|k1: nat, k2: nat|
            #[trigger] sector_offset(k1) <= o < sector_offset(k1) + sector_size(k1 as int) && #[trigger] sector_offset(k2) <= o
                < sector_offset(k2) + sector_size(k2 as int) ==> k1 == k2,
{
    let n = sectors_left(0, 0, flash_size as int);
    lemma_flash_sectors(flash_size, 0);
    let j = lemma_sector_find(o, 0, n);
    assert(sector_offset(j + 1) == sector_offset(j) + sector_size(j as int));
    assert forall|k1: nat, k2: nat|
        #[trigger] sector_offset(k1) <= o < sector_offset(k1) + sector_size(k1 as int) && #[trigger] sector_offset(k2) <= o
            < sector_offset(k2) + sector_size(k2 as int) implies k1 == k2 by {
        if k1 < k2 {
            lemma_sector_offsets_grow(k1, k2);
        } else if k2 < k1 {
            lemma_sector_offsets_grow(k2, k1);
        }
    }
}

/// A sector ends at or before the start of every later one.
proof fn lemma_sector_offsets_grow(a: nat, b: nat)
    requires
        a < b,
    ensures
        sector_offset(a) + sector_size(a as int) <= sector_offset(b),
    decreases b,
{
    if b > a + 1 {
        lemma_sector_offsets_grow(a, (b - 1) as nat);
    }
}

/// The sector between positions `k` and `m` that holds offset `o`.
proof fn lemma_sector_find(o: int, k: nat, m: nat) -> (j: nat)
    requires
        k < m,
        sector_offset(k) <= o < sector_offset(m),
    ensures
        k <= j < m,
        sector_offset(j) <= o < sector_offset(j + 1),
    decreases m - k,
{
    if o < sector_offset(k + 1) {
        k
    } else {
        lemma_sector_find(o, k + 1, m)
    }
}

/// The iterator of `flash_sectors` after `k` calls, while sectors remain:
/// at position `k` and offset `sector_offset(k)`, with `n - k` sectors left.
proof fn lemma_sectors_after(flash_size: usize, k: nat)
    requires
        sectors_of(flash_size).wf(),
        k <= sectors_left(0, 0, flash_size as int),
    ensures
        0 <= sector_offset(k) < flash_size + 0x2_0000,
        sectors_of(flash_size).after(k) == (FlashSectorIterator {
            index: k as u8,
            start_sector: 0,
            start_offset: sector_offset(k) as usize,
            end_offset: flash_size,
        }),
        sectors_left(k as int, sector_offset(k), flash_size as int) + k == sectors_left(0, 0, flash_size as int),
    decreases k,
{
    if k > 0 {
        let j = (k - 1) as nat;
        lemma_sectors_after(flash_size, j);
        assert(sector_offset(j) < flash_size);
        assert(sector_offset(k) == sector_offset(j) + sector_size(j as int));
    }
}

/// Once the sectors of `flash_sectors` are exhausted, the iterator stays put.
proof fn lemma_sectors_done(flash_size: usize, k: nat)
    requires
        sectors_of(flash_size).wf(),
        k >= sectors_left(0, 0, flash_size as int),
    ensures
        sectors_of(flash_size).after(k) == sectors_of(flash_size).after(sectors_left(0, 0, flash_size as int)),
        sectors_of(flash_size).after(k).start_offset >= flash_size,
    decreases k,
{
    let n = sectors_left(0, 0, flash_size as int);
    lemma_sectors_after(flash_size, n);
    if k > n {
        lemma_sectors_done(flash_size, (k - 1) as nat);
    }
}

/// The page count of `erase_plan`: the loop that stops at the first page
/// start at or after `end` has taken the ceiling of `(end - from) / PAGE_SIZE`
/// steps.
proof fn lemma_erase_count(from: int, end: int, m: int)
    requires
        0 <= from,
        m >= 0,
        from + 1024 * m >= end,
        m > 0 ==> from + 1024 * (m - 1) < end,
    ensures
        m == (if from >= end { 0 } else { (end - from + 1023) / 1024 }),
{
    if m > 0 {
        let d = end - from;
        let want = (d + 1023) / 1024;
        vstd::arithmetic::div_mod::lemma_fundamental_div_mod(d + 1023, 1024);
        vstd::arithmetic::div_mod::lemma_mod_bound(d + 1023, 1024);
        assert(want == m) by (nonlinear_arith)
            requires
                d + 1023 == 1024 * want + (d + 1023) % 1024,
                0 <= (d + 1023) % 1024 < 1024,
                1024 * (m - 1) < d,
                d <= 1024 * m;
    }
}

} // verus!
