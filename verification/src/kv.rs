//! A flash-backed key-value store with an asynchronous flash interface.
//!
//! The flash is divided into regions of `S` bytes; a key (an
//! already-hashed 64-bit value) lives in the region its hash selects.
//! Each stored entry is laid out as a version byte, a two-byte length
//! whose top bit is the valid flag, the big-endian hashed key, the
//! value bytes, and a big-endian 32-bit check hash over everything
//! before it. Deleting a key clears the valid bit in place (flash can
//! only clear bits); garbage collection erases regions whose entries
//! are all invalid.
//!
//! The flash controller is supplied by the user of the store and may
//! complete reads and erases asynchronously: a `ReadNotReady` or
//! `EraseNotReady` outcome parks the operation, and
//! `continue_operation` resumes it once the controller is ready. The
//! store copies a pending append's value bytes and hands a parked
//! operation's not-ready error straight back to the caller; an
//! operation the controller can serve at once completes synchronously
//! with its result.

use vstd::prelude::*;

verus! {

/// Layout version written in every entry's first byte.
pub const VERSION: u8 = 1;

/// Byte offset of the version within an entry.
pub const VERSION_OFFSET: usize = 0;

/// Byte offset of the length word within an entry.
pub const LEN_OFFSET: usize = 1;

/// Byte offset of the hashed key within an entry.
pub const HASH_OFFSET: usize = 3;

/// Header plus check hash: the bytes an entry occupies beyond its value.
pub const ENTRY_OVERHEAD: usize = 15;

/// How an operation against the store failed, or why it is parked.
#[derive(Clone, Copy, Debug, PartialEq, Eq, Structural)]
pub enum ErrorCode {
    /// The controller is fetching this region; continue later.
    ReadNotReady(usize),
    /// The controller has the write in flight; continue later.
    WriteNotReady(usize),
    /// The controller is erasing this region; continue later.
    EraseNotReady(usize),
    /// No valid entry with this key exists.
    KeyNotFound,
    /// A valid entry with this key already exists.
    KeyAlreadyExists,
    /// The key's region has no room for the entry.
    RegionFull,
    /// The value cannot fit in any region.
    ObjectTooLarge,
    /// The caller's buffer is too small for the stored value.
    BufferTooSmall(usize),
    /// A region holds bytes that are not a well-formed entry sequence.
    CorruptData,
    /// A stored entry's check hash does not match its bytes.
    InvalidCheckSum,
    /// The controller failed a read outright.
    ReadFail,
    /// The controller failed a write outright.
    WriteFail,
    /// The controller failed an erase outright.
    EraseFail,
}

/// How an operation against the store succeeded.
#[derive(Clone, Copy, Debug, PartialEq, Eq, Structural)]
pub enum SuccessCode {
    /// The operation finished.
    Complete,
    /// The operation finished by writing to flash.
    Written,
    /// The operation is parked awaiting the controller.
    Queued,
}

/// The user-supplied flash. The store states nothing about its
/// behaviour: every contract of the store holds whatever a controller
/// returns or leaves in the buffers.
pub trait FlashController<const S: usize> {
    /// Fill `buf` with the contents of a region, or report that the
    /// read is still in flight.
    fn read_region(&mut self, region_number: usize, buf: &mut [u8; S]) -> Result<(), ErrorCode>;

    /// Program bytes at an absolute flash address (flash programming
    /// can only clear bits).
    fn write(&mut self, address: usize, buf: &[u8]) -> Result<(), ErrorCode>;

    /// Erase a region back to all-ones, or report that the erase is
    /// still in flight.
    fn erase_region(&mut self, region_number: usize) -> Result<(), ErrorCode>;
}

/// One shift-and-conditionally-divide step of the check hash.
pub open spec fn crc32_step(c: u32) -> u32 {
    if c & 0x8000_0000u32 != 0 {
        (c << 1) ^ 0x04C1_1DB7u32
    } else {
        (c << 1)
    }
}

/// `n` check-hash bit steps.
pub open spec fn crc32_steps(c: u32, n: nat) -> u32
    decreases n,
{
    if n == 0 {
        c
    } else {
        crc32_step(crc32_steps(c, (n - 1) as nat))
    }
}

/// Fold one byte into the check hash.
pub open spec fn crc32_push(c: u32, b: u8) -> u32 {
    crc32_steps(c ^ ((b as u32) << 24), 8)
}

/// The running check hash of a byte sequence, before the final
/// inversion.
pub open spec fn crc32_accum(s: Seq<u8>) -> u32
    decreases s.len(),
{
    if s.len() == 0 {
        0
    } else {
        crc32_push(crc32_accum(s.drop_last()), s.last())
    }
}

/// The store's check hash of a byte sequence: a 32-bit cyclic
/// redundancy check with polynomial 0x04C11DB7, no reflection, zero
/// initial value and a final inversion.
pub open spec fn spec_check_hash(s: Seq<u8>) -> u32 {
    crc32_accum(s) ^ 0xFFFF_FFFFu32
}

/// Fold one byte into the running check hash.
fn crc32_push_byte(c: u32, b: u8) -> (r: u32)
    ensures
        r == crc32_push(c, b),
{
    let mut acc: u32 = c ^ ((b as u32) << 24);
    let ghost start: u32 = acc;
    let mut k: usize = 0;
    while k < 8
        invariant
            k <= 8,
            acc == crc32_steps(start, k as nat),
        decreases 8 - k,
    {
        acc = if acc & 0x8000_0000u32 != 0 {
            (acc << 1) ^ 0x04C1_1DB7u32
        } else {
            (acc << 1)
        };
        k = k + 1;
    }
    acc
}

/// The check hash of a byte slice.
pub fn check_hash(data: &[u8]) -> (r: u32)
    ensures
        r == spec_check_hash(data@),
{
    let mut acc: u32 = 0;
    let mut i: usize = 0;
    while i < data.len()
        invariant
            i <= data@.len(),
            acc == crc32_accum(data@.take(i as int)),
        decreases data@.len() - i,
    {
        proof {
            assert(data@.take(i + 1).drop_last() =~= data@.take(i as int));
            assert(data@.take(i + 1).last() == data@[i as int]);
        }
        acc = crc32_push_byte(acc, data[i]);
        i = i + 1;
    }
    proof {
        assert(data@.take(data@.len() as int) =~= data@);
    }
    acc ^ 0xFFFF_FFFFu32
}

/// The eight big-endian bytes of a hashed key.
pub open spec fn spec_hash_bytes(h: u64) -> Seq<u8> {
    seq![
        ((h >> 56) & 0xff) as u8,
        ((h >> 48) & 0xff) as u8,
        ((h >> 40) & 0xff) as u8,
        ((h >> 32) & 0xff) as u8,
        ((h >> 24) & 0xff) as u8,
        ((h >> 16) & 0xff) as u8,
        ((h >> 8) & 0xff) as u8,
        (h & 0xff) as u8,
    ]
}

/// The bytes of a freshly written, valid entry for a key and value:
/// version, length with the valid bit, big-endian key, value, and the
/// little-endian check hash over everything before it.
pub open spec fn spec_entry_bytes(h: u64, value: Seq<u8>) -> Seq<u8> {
    let len = ENTRY_OVERHEAD + value.len();
    let body = seq![VERSION, (0x80u8 | ((len as int / 256) as u8)), (len as int % 256) as u8]
        + spec_hash_bytes(h) + value;
    let crc = spec_check_hash(body);
    body + seq![
        (crc & 0xff) as u8,
        ((crc >> 8) & 0xff) as u8,
        ((crc >> 16) & 0xff) as u8,
        ((crc >> 24) & 0xff) as u8,
    ]
}

/// Encode a valid entry for a key and value.
pub fn encode_entry(h: u64, value: &[u8]) -> (r: Vec<u8>)
    requires
        value@.len() + ENTRY_OVERHEAD < 0x8000,
    ensures
        r@ == spec_entry_bytes(h, value@),
        r@.len() == value@.len() + ENTRY_OVERHEAD,
{
    let len: usize = ENTRY_OVERHEAD + value.len();
    let mut v: Vec<u8> = Vec::new();
    v.push(VERSION);
    v.push(0x80u8 | ((len / 256) as u8));
    v.push((len % 256) as u8);
    v.push(((h >> 56) & 0xff) as u8);
    v.push(((h >> 48) & 0xff) as u8);
    v.push(((h >> 40) & 0xff) as u8);
    v.push(((h >> 32) & 0xff) as u8);
    v.push(((h >> 24) & 0xff) as u8);
    v.push(((h >> 16) & 0xff) as u8);
    v.push(((h >> 8) & 0xff) as u8);
    v.push((h & 0xff) as u8);
    let mut i: usize = 0;
    while i < value.len()
        invariant
            i <= value@.len(),
            v@ =~= seq![
                VERSION,
                (0x80u8 | ((value@.len() + ENTRY_OVERHEAD) as int / 256) as u8),
                ((value@.len() + ENTRY_OVERHEAD) as int % 256) as u8,
            ] + spec_hash_bytes(h) + value@.take(i as int),
            value@.len() + ENTRY_OVERHEAD < 0x8000,
        decreases value@.len() - i,
    {
        v.push(value[i]);
        proof {
            assert(value@.take(i + 1) =~= value@.take(i as int).push(value@[i as int]));
        }
        i = i + 1;
    }
    proof {
        assert(value@.take(value@.len() as int) =~= value@);
    }
    let crc = check_hash(v.as_slice());
    v.push((crc & 0xff) as u8);
    v.push(((crc >> 8) & 0xff) as u8);
    v.push(((crc >> 16) & 0xff) as u8);
    v.push(((crc >> 24) & 0xff) as u8);
    proof {
        assert(v@ =~= spec_entry_bytes(h, value@));
    }
    v
}

/// The entry layout round-trips: in a freshly encoded entry the
/// version byte, the length word (with its valid bit set), the
/// big-endian key and the value all read back, and the trailing four
/// bytes are the little-endian check hash of everything before them.
pub proof fn lemma_entry_roundtrip(h: u64, value: Seq<u8>)
    requires
        value.len() + ENTRY_OVERHEAD < 0x8000,
    ensures
        ({
            let e = spec_entry_bytes(h, value);
            &&& e.len() == value.len() + ENTRY_OVERHEAD
            &&& e[VERSION_OFFSET as int] == VERSION
            &&& ((e[LEN_OFFSET as int] as int) % 128) * 256 + (e[LEN_OFFSET as int + 1] as int)
                == e.len()
            &&& (e[LEN_OFFSET as int] as int) / 128 % 2 == 1
            &&& e.subrange(HASH_OFFSET as int, HASH_OFFSET as int + 8) =~= spec_hash_bytes(h)
            &&& e.subrange(11, e.len() - 4) =~= value
            &&& e.subrange(e.len() - 4, e.len() as int) =~= seq![
                (spec_check_hash(e.take(e.len() - 4)) & 0xff) as u8,
                ((spec_check_hash(e.take(e.len() - 4)) >> 8) & 0xff) as u8,
                ((spec_check_hash(e.take(e.len() - 4)) >> 16) & 0xff) as u8,
                ((spec_check_hash(e.take(e.len() - 4)) >> 24) & 0xff) as u8,
            ]
        }),
{
    let e = spec_entry_bytes(h, value);
    let len = ENTRY_OVERHEAD + value.len();
    let body = seq![VERSION, (0x80u8 | ((len as int / 256) as u8)), (len as int % 256) as u8]
        + spec_hash_bytes(h) + value;
    let hi: u8 = (len as int / 256) as u8;
    assert(hi < 128);
    assert((0x80u8 | hi) == (128 + hi) as u8) by (bit_vector)
        requires
            hi < 128,
    ;
    assert(((e[LEN_OFFSET as int] as int) % 128) == hi as int);
    assert(e.take(e.len() - 4) =~= body);
}

/// A value fetched for hashed key `h` from a region image: there is an
/// entry whose hash bytes are the key's, whose trailing check hash
/// matches everything before it, and whose value bytes are exactly the
/// fetched ones.
pub open spec fn spec_fetched_entry(region: Seq<u8>, h: u64, value: Seq<u8>) -> bool {
    exists|off: int, len: int|
        {
            &&& 0 <= off
            &&& #[trigger] region.subrange(off, off + len).len() >= ENTRY_OVERHEAD
            &&& off + len <= region.len()
            &&& region.subrange(off + HASH_OFFSET as int, off + HASH_OFFSET as int + 8)
                =~= spec_hash_bytes(h)
            &&& region.subrange(off + len - 4, off + len) =~= seq![
                (spec_check_hash(region.subrange(off, off + len - 4)) & 0xff) as u8,
                ((spec_check_hash(region.subrange(off, off + len - 4)) >> 8) & 0xff) as u8,
                ((spec_check_hash(region.subrange(off, off + len - 4)) >> 16) & 0xff) as u8,
                ((spec_check_hash(region.subrange(off, off + len - 4)) >> 24) & 0xff) as u8,
            ]
            &&& value =~= region.subrange(off + 11, off + len - 4)
        }
}

/// Whether the entry chain of a region image, walked from `off`,
/// holds a valid entry carrying the hashed key `h`. The walk stops at
/// erased space, at a foreign version byte and at an impossible
/// length, as the scanner does.
pub open spec fn spec_chain_has_key(region: Seq<u8>, off: int, h: u64) -> bool
    decreases region.len() - off,
{
    if !(0 <= off && off + ENTRY_OVERHEAD <= region.len()) {
        false
    } else if region[off] == 0xFF {
        false
    } else if region[off] != VERSION {
        false
    } else {
        let len = ((region[off + 1] as int) % 128) * 256 + (region[off + 2] as int);
        if len < ENTRY_OVERHEAD || off + len > region.len() {
            false
        } else {
            ((region[off + 1] as int) / 128 % 2 == 1 && region.subrange(
                off + HASH_OFFSET as int,
                off + HASH_OFFSET as int + 8,
            ) == spec_hash_bytes(h)) || spec_chain_has_key(region, off + len, h)
        }
    }
}

/// What one pass over a region's bytes found.
pub struct RegionInfo {
    /// Offset and total length of the newest entry whose key matched
    /// and whose valid bit is set.
    pub found: Option<(usize, usize)>,
    /// First byte past the last entry: where a new entry would go.
    pub free_offset: usize,
    /// How many entries the region holds, valid or not.
    pub entries: usize,
    /// How many of them are valid.
    pub valid_entries: usize,
    /// The region's bytes are not a well-formed entry sequence.
    pub corrupt: bool,
}

/// Scan one region's bytes for a key. Every reported offset is in
/// bounds; a reported match carries the right version byte, the valid
/// bit, and exactly the key's own bytes at the hash offset; an
/// uncorrupted region's free offset points at erased space or the
/// end; and on an uncorrupted region a match is reported if and only
/// if the entry chain holds one.
pub fn scan_region<const S: usize>(buf: &[u8; S], h: u64) -> (r: RegionInfo)
    requires
        S <= 0x1000_0000,
    ensures
        r.free_offset <= S,
        !r.corrupt ==> r.free_offset + ENTRY_OVERHEAD > S || buf@[r.free_offset as int] == 0xFF,
        !r.corrupt ==> (r.found is Some) == spec_chain_has_key(buf@, 0, h),
        match r.found {
            Some((off, len)) => {
                &&& off + len <= S
                &&& len >= ENTRY_OVERHEAD
                &&& buf@[off as int] == VERSION
                &&& (buf@[off + 1] as int) / 128 % 2 == 1
                &&& buf@.subrange(off + HASH_OFFSET as int, off + HASH_OFFSET as int + 8)
                    =~= spec_hash_bytes(h)
            },
            None => true,
        },
{
    let mut off: usize = 0;
    let mut found: Option<(usize, usize)> = None;
    let mut entries: usize = 0;
    let mut valid_entries: usize = 0;
    while off + ENTRY_OVERHEAD <= S
        invariant
            off <= S,
            S <= 0x1000_0000,
            entries <= off,
            valid_entries <= entries,
            spec_chain_has_key(buf@, 0, h) == ((found is Some) || spec_chain_has_key(
                buf@,
                off as int,
                h,
            )),
            match found {
                Some((f, l)) => {
                    &&& f + l <= S
                    &&& l >= ENTRY_OVERHEAD
                    &&& buf@[f as int] == VERSION
                    &&& (buf@[f + 1] as int) / 128 % 2 == 1
                    &&& buf@.subrange(f + HASH_OFFSET as int, f + HASH_OFFSET as int + 8)
                        =~= spec_hash_bytes(h)
                },
                None => true,
            },
        decreases S - off,
    {
        let b = buf[off];
        if b == 0xFF {
            proof {
                assert(!spec_chain_has_key(buf@, off as int, h));
            }
            return RegionInfo { found, free_offset: off, entries, valid_entries, corrupt: false };
        }
        if b != VERSION {
            return RegionInfo { found, free_offset: off, entries, valid_entries, corrupt: true };
        }
        let len_hi = buf[off + 1];
        proof {
            assert(len_hi & 0x7f == len_hi % 128) by (bit_vector);
        }
        let len: usize = ((len_hi & 0x7f) as usize) * 256 + (buf[off + 2] as usize);
        if len < ENTRY_OVERHEAD || off + len > S {
            return RegionInfo { found, free_offset: off, entries, valid_entries, corrupt: true };
        }
        let valid = (buf[off + 1] / 128) % 2 == 1;
        entries = entries + 1;
        if valid {
            valid_entries = valid_entries + 1;
            let mut matches = true;
            let mut k: usize = 0;
            while k < 8
                invariant
                    k <= 8,
                    off + ENTRY_OVERHEAD <= S,
                    matches == (forall|t: int|
                        0 <= t < k ==> (#[trigger] buf@[off + HASH_OFFSET + t])
                            == spec_hash_bytes(h)[t]),
                decreases 8 - k,
            {
                if buf[off + HASH_OFFSET + k] != hash_byte(h, k) {
                    matches = false;
                }
                k = k + 1;
            }
            proof {
                let sub = buf@.subrange(off + HASH_OFFSET as int, off + HASH_OFFSET as int + 8);
                if matches {
                    assert forall|t: int| 0 <= t < 8 implies sub[t] == spec_hash_bytes(h)[t] by {
                        assert(buf@[off + HASH_OFFSET + t] == spec_hash_bytes(h)[t]);
                    }
                    assert(sub =~= spec_hash_bytes(h));
                } else {
                    let t = choose|t: int|
                        !(0 <= t < 8 ==> buf@[off + HASH_OFFSET + t] == spec_hash_bytes(h)[t]);
                    assert(sub[t] != spec_hash_bytes(h)[t]);
                    assert(sub != spec_hash_bytes(h));
                }
            }
            if matches {
                found = Some((off, len));
            }
        }
        proof {
            assert(spec_chain_has_key(buf@, off as int, h) == (((buf@[off + 1] as int) / 128 % 2
                == 1 && buf@.subrange(off + HASH_OFFSET as int, off + HASH_OFFSET as int + 8)
                == spec_hash_bytes(h)) || spec_chain_has_key(buf@, off + len, h)));
        }
        off = off + len;
    }
    proof {
        assert(!spec_chain_has_key(buf@, off as int, h));
    }
    RegionInfo { found, free_offset: off, entries, valid_entries, corrupt: false }
}

/// Byte `k` of a hashed key, big-endian.
fn hash_byte(h: u64, k: usize) -> (r: u8)
    requires
        k < 8,
    ensures
        r == spec_hash_bytes(h)[k as int],
{
    if k == 0 {
        ((h >> 56) & 0xff) as u8
    } else if k == 1 {
        ((h >> 48) & 0xff) as u8
    } else if k == 2 {
        ((h >> 40) & 0xff) as u8
    } else if k == 3 {
        ((h >> 32) & 0xff) as u8
    } else if k == 4 {
        ((h >> 24) & 0xff) as u8
    } else if k == 5 {
        ((h >> 16) & 0xff) as u8
    } else if k == 6 {
        ((h >> 8) & 0xff) as u8
    } else {
        (h & 0xff) as u8
    }
}

/// The synchronous core of the store: the controller, one region
/// buffer, and the flash geometry.
pub struct TicKV<C: FlashController<S>, const S: usize> {
    pub controller: C,
    pub region_buf: [u8; S],
    pub flash_size: usize,
    pub num_regions: usize,
}

impl<C: FlashController<S>, const S: usize> TicKV<C, S> {
    /// The geometry is usable: at least one region, each big enough to
    /// hold an entry.
    pub open spec fn wf(self) -> bool {
        &&& self.num_regions >= 1
        &&& self.num_regions as int == self.flash_size as int / (S as int)
        &&& S >= ENTRY_OVERHEAD + 1
        &&& S <= 0x1000_0000
    }

    pub fn new(controller: C, read_buffer: [u8; S], flash_size: usize) -> (r: TicKV<C, S>)
        requires
            16 <= S <= 0x1000_0000,
            flash_size as int / (S as int) >= 1,
        ensures
            r.wf(),
            r.controller == controller,
            r.region_buf@ == read_buffer@,
            r.flash_size == flash_size,
            r.num_regions as int == flash_size as int / (S as int),
    {
        let num_regions = flash_size / S;
        TicKV { controller, region_buf: read_buffer, flash_size, num_regions }
    }

    /// The region a hashed key lives in.
    pub fn region_of(&self, h: u64) -> (r: usize)
        requires
            self.wf(),
        ensures
            r < self.num_regions,
    {
        (h % (self.num_regions as u64)) as usize
    }

    /// Fill the region buffer from the controller. Any controller
    /// failure other than a not-ready outcome is reported as a plain
    /// read failure.
    fn load_region(&mut self, region: usize) -> (r: Result<(), ErrorCode>)
        ensures
            final(self).flash_size == old(self).flash_size,
            final(self).num_regions == old(self).num_regions,
            r matches Err(e) ==> spec_not_ready(e) || e == ErrorCode::ReadFail,
    {
        let mut buf: [u8; S] = self.region_buf;
        let r = self.controller.read_region(region, &mut buf);
        self.region_buf = buf;
        match r {
            Ok(()) => Ok(()),
            Err(e) => {
                if is_not_ready(&e) {
                    Err(e)
                } else {
                    Err(ErrorCode::ReadFail)
                }
            },
        }
    }

    /// One attempt at setting up the store: read the main key's
    /// region; adopt it if the main entry is already there, write the
    /// main entry if the region is empty.
    fn do_init(&mut self, h: u64) -> (r: Result<SuccessCode, ErrorCode>)
        requires
            old(self).wf(),
        ensures
            final(self).wf(),
            final(self).flash_size == old(self).flash_size,
            final(self).num_regions == old(self).num_regions,
    {
        let region = self.region_of(h);
        match self.load_region(region) {
            Ok(()) => {},
            Err(e) => {
                return Err(e);
            },
        }
        let info = scan_region(&self.region_buf, h);
        if info.corrupt {
            return Err(ErrorCode::CorruptData);
        }
        if info.found.is_some() {
            return Ok(SuccessCode::Complete);
        }
        if info.free_offset + ENTRY_OVERHEAD > S {
            return Err(ErrorCode::RegionFull);
        }
        let entry = encode_entry(h, &[]);
        proof {
            vstd::arithmetic::div_mod::lemma_fundamental_div_mod(self.flash_size as int, S as int);
            assert((region as int) * (S as int) + (S as int) <= (self.num_regions as int) * (
            S as int)) by (nonlinear_arith)
                requires
                    region < self.num_regions,
                    S >= 1,
            ;
        }
        let address = region * S + info.free_offset;
        match self.controller.write(address, entry.as_slice()) {
            Ok(()) => Ok(SuccessCode::Complete),
            Err(e) => {
                if is_not_ready(&e) {
                    Err(e)
                } else {
                    Err(ErrorCode::WriteFail)
                }
            },
        }
    }

    /// One attempt at appending a key: scan the key's region and write
    /// a fresh entry after the last one.
    fn do_append(&mut self, h: u64, value: &[u8]) -> (r: Result<SuccessCode, ErrorCode>)
        requires
            old(self).wf(),
            value@.len() + ENTRY_OVERHEAD < 0x8000,
        ensures
            final(self).wf(),
            final(self).flash_size == old(self).flash_size,
            final(self).num_regions == old(self).num_regions,
            r == Err::<SuccessCode, ErrorCode>(ErrorCode::KeyAlreadyExists)
                ==> spec_chain_has_key(final(self).region_buf@, 0, h),
            r is Ok ==> !spec_chain_has_key(final(self).region_buf@, 0, h),
    {
        let region = self.region_of(h);
        match self.load_region(region) {
            Ok(()) => {},
            Err(e) => {
                return Err(e);
            },
        }
        let info = scan_region(&self.region_buf, h);
        if info.corrupt {
            return Err(ErrorCode::CorruptData);
        }
        if info.found.is_some() {
            return Err(ErrorCode::KeyAlreadyExists);
        }
        if value.len() + ENTRY_OVERHEAD > S || info.free_offset > S - ENTRY_OVERHEAD
            - value.len() {
            return Err(ErrorCode::RegionFull);
        }
        let entry = encode_entry(h, value);
        proof {
            vstd::arithmetic::div_mod::lemma_fundamental_div_mod(self.flash_size as int, S as int);
            assert((region as int) * (S as int) + (S as int) <= (self.num_regions as int) * (
            S as int)) by (nonlinear_arith)
                requires
                    region < self.num_regions,
                    S >= 1,
            ;
        }
        let address = region * S + info.free_offset;
        match self.controller.write(address, entry.as_slice()) {
            Ok(()) => Ok(SuccessCode::Complete),
            Err(e) => {
                if is_not_ready(&e) {
                    Err(e)
                } else {
                    Err(ErrorCode::WriteFail)
                }
            },
        }
    }

    /// One attempt at fetching a key's value: scan the key's region,
    /// check the entry's check hash, and copy the value out. A
    /// returned value is exactly the value bytes of an entry in the
    /// loaded region that carries the key's own hash bytes and whose
    /// trailing check hash matches everything before it.
    fn do_get(&mut self, h: u64) -> (r: Result<Vec<u8>, ErrorCode>)
        requires
            old(self).wf(),
        ensures
            final(self).wf(),
            final(self).flash_size == old(self).flash_size,
            final(self).num_regions == old(self).num_regions,
            r matches Ok(v) ==> spec_fetched_entry(final(self).region_buf@, h, v@),
            r == Err::<Vec<u8>, ErrorCode>(ErrorCode::KeyNotFound) ==> !spec_chain_has_key(
                final(self).region_buf@,
                0,
                h,
            ),
    {
        let region = self.region_of(h);
        match self.load_region(region) {
            Ok(()) => {},
            Err(e) => {
                return Err(e);
            },
        }
        let info = scan_region(&self.region_buf, h);
        if info.corrupt {
            return Err(ErrorCode::CorruptData);
        }
        let (off, len) = match info.found {
            Some(pair) => pair,
            None => {
                return Err(ErrorCode::KeyNotFound);
            },
        };
        let body = vstd::slice::slice_subrange(self.region_buf.as_slice(), off, off + len - 4);
        let crc = check_hash(body);
        let c0 = self.region_buf[off + len - 4];
        let c1 = self.region_buf[off + len - 3];
        let c2 = self.region_buf[off + len - 2];
        let c3 = self.region_buf[off + len - 1];
        if c0 != (crc & 0xff) as u8 || c1 != ((crc >> 8) & 0xff) as u8 || c2 != ((crc >> 16)
            & 0xff) as u8 || c3 != ((crc >> 24) & 0xff) as u8 {
            return Err(ErrorCode::InvalidCheckSum);
        }
        let mut out: Vec<u8> = Vec::new();
        let mut i: usize = off + ENTRY_OVERHEAD - 4;
        while i < off + len - 4
            invariant
                off + len <= S,
                len >= ENTRY_OVERHEAD,
                off + ENTRY_OVERHEAD - 4 <= i <= off + len - 4,
                self.region_buf@.len() == S,
                out@ =~= self.region_buf@.subrange(off + ENTRY_OVERHEAD - 4, i as int),
            decreases off + len - 4 - i,
        {
            let b = self.region_buf[i];
            out.push(b);
            i = i + 1;
        }
        proof {
            let region = self.region_buf@;
            let o = off as int;
            let l = len as int;
            assert(region.subrange(o, o + l).len() >= ENTRY_OVERHEAD);
            assert(crc == spec_check_hash(region.subrange(o, o + l - 4)));
            assert(out@ =~= region.subrange(o + 11, o + l - 4));
            assert(region.subrange(o + l - 4, o + l) =~= seq![
                (crc & 0xff) as u8,
                ((crc >> 8) & 0xff) as u8,
                ((crc >> 16) & 0xff) as u8,
                ((crc >> 24) & 0xff) as u8,
            ]);
            assert(spec_fetched_entry(region, h, out@));
        }
        Ok(out)
    }

    /// One attempt at invalidating a key: clear the valid bit of its
    /// entry in place.
    fn do_invalidate(&mut self, h: u64) -> (r: Result<SuccessCode, ErrorCode>)
        requires
            old(self).wf(),
        ensures
            final(self).wf(),
            final(self).flash_size == old(self).flash_size,
            final(self).num_regions == old(self).num_regions,
            r == Err::<SuccessCode, ErrorCode>(ErrorCode::KeyNotFound) ==> !spec_chain_has_key(
                final(self).region_buf@,
                0,
                h,
            ),
    {
        let region = self.region_of(h);
        match self.load_region(region) {
            Ok(()) => {},
            Err(e) => {
                return Err(e);
            },
        }
        let info = scan_region(&self.region_buf, h);
        if info.corrupt {
            return Err(ErrorCode::CorruptData);
        }
        let (off, _len) = match info.found {
            Some(pair) => pair,
            None => {
                return Err(ErrorCode::KeyNotFound);
            },
        };
        let cleared: [u8; 1] = [self.region_buf[off + LEN_OFFSET] & 0x7f];
        proof {
            vstd::arithmetic::div_mod::lemma_fundamental_div_mod(self.flash_size as int, S as int);
            assert((region as int) * (S as int) + (S as int) <= (self.num_regions as int) * (
            S as int)) by (nonlinear_arith)
                requires
                    region < self.num_regions,
                    S >= 1,
            ;
        }
        let address = region * S + off + LEN_OFFSET;
        match self.controller.write(address, &cleared) {
            Ok(()) => Ok(SuccessCode::Complete),
            Err(e) => {
                if is_not_ready(&e) {
                    Err(e)
                } else {
                    Err(ErrorCode::WriteFail)
                }
            },
        }
    }
}

/// The operation an asynchronous store is parked on. A parked append's
/// value bytes live beside it in the store.
#[derive(Clone, Copy, Debug, PartialEq, Eq, Structural)]
pub enum Pending {
    Idle,
    Init(u64),
    Append(u64),
    Get(u64),
    Invalidate(u64),
    Gc(usize, usize),
}

/// Whether an outcome means the controller is still working and the
/// operation should be parked for `continue_operation`.
pub open spec fn spec_not_ready(e: ErrorCode) -> bool {
    e is ReadNotReady || e is WriteNotReady || e is EraseNotReady
}

fn is_not_ready(e: &ErrorCode) -> (r: bool)
    ensures
        r == spec_not_ready(*e),
{
    match e {
        ErrorCode::ReadNotReady(_) => true,
        ErrorCode::WriteNotReady(_) => true,
        ErrorCode::EraseNotReady(_) => true,
        _ => false,
    }
}

/// The store with its asynchronous continuation state.
pub struct AsyncTicKV<C: FlashController<S>, const S: usize> {
    pub tickv: TicKV<C, S>,
    pub pending: Pending,
    /// The value bytes of a parked append.
    pub pending_value: Vec<u8>,
}

impl<C: FlashController<S>, const S: usize> AsyncTicKV<C, S> {
    /// The store is well formed: sound geometry, and whatever
    /// operation is parked can be resumed.
    pub open spec fn wf(self) -> bool {
        &&& self.tickv.wf()
        &&& self.pending_value@.len() + ENTRY_OVERHEAD < 0x8000
        &&& match self.pending {
            Pending::Gc(c, e) => c <= self.tickv.num_regions && e <= self.tickv.num_regions,
            _ => true,
        }
    }

    /// Build a store over a controller and a region-sized read buffer.
    /// Nothing is pending and no append value is parked.
    pub fn new(controller: C, read_buffer: [u8; S], flash_size: usize) -> (r: AsyncTicKV<C, S>)
        requires
            16 <= S <= 0x1000_0000,
            flash_size as int / (S as int) >= 1,
        ensures
            r.wf(),
            r.pending is Idle,
            r.pending_value@.len() == 0,
            r.tickv.controller == controller,
            r.tickv.region_buf@ == read_buffer@,
            r.tickv.flash_size == flash_size,
            r.tickv.num_regions as int == flash_size as int / (S as int),
    {
        AsyncTicKV {
            tickv: TicKV::new(controller, read_buffer, flash_size),
            pending: Pending::Idle,
            pending_value: Vec::new(),
        }
    }

    /// Set up the flash region as a key-value store, adopting an
    /// already-initialised flash unchanged. A not-ready controller
    /// parks the operation.
    pub fn initialise(&mut self, hashed_main_key: u64) -> (r: Result<SuccessCode, ErrorCode>)
        requires
            old(self).wf(),
        ensures
            final(self).wf(),
            r matches Err(e) && spec_not_ready(e) ==> final(self).pending == Pending::Init(
                hashed_main_key,
            ),
            !(r matches Err(e) && spec_not_ready(e)) ==> final(self).pending is Idle,
    {
        let r = self.tickv.do_init(hashed_main_key);
        let not_ready = match &r {
            Err(e) => is_not_ready(e),
            Ok(_) => false,
        };
        if not_ready {
            self.pending = Pending::Init(hashed_main_key);
        } else {
            self.pending = Pending::Idle;
        }
        r
    }

    /// Append a key-value pair. The value bytes are copied; a
    /// not-ready controller parks the operation with them.
    pub fn append_key(&mut self, hash: u64, value: &[u8], length: usize) -> (r: Result<
        SuccessCode,
        ErrorCode,
    >)
        requires
            old(self).wf(),
            length <= value@.len(),
        ensures
            final(self).wf(),
            length > 0x7000 ==> r == Err::<SuccessCode, ErrorCode>(ErrorCode::ObjectTooLarge),
            (r matches Err(e) && spec_not_ready(e)) ==> final(self).pending == Pending::Append(
                hash,
            ) && final(self).pending_value@ == value@.take(length as int),
            !(r matches Err(e) && spec_not_ready(e)) ==> final(self).pending is Idle,
            r == Err::<SuccessCode, ErrorCode>(ErrorCode::KeyAlreadyExists)
                ==> spec_chain_has_key(final(self).tickv.region_buf@, 0, hash),
    {
        if length > 0x7000 {
            self.pending = Pending::Idle;
            return Err(ErrorCode::ObjectTooLarge);
        }
        let val = vstd::slice::slice_subrange(value, 0, length);
        let r = self.tickv.do_append(hash, val);
        let not_ready = match &r {
            Err(e) => is_not_ready(e),
            Ok(_) => false,
        };
        if not_ready {
            let owned = vstd::slice::slice_to_vec(val);
            self.pending = Pending::Append(hash);
            self.pending_value = owned;
        } else {
            self.pending = Pending::Idle;
        }
        r
    }

    /// Fetch a key's value into the caller's buffer. On success the
    /// buffer's prefix holds exactly the value bytes of an entry that
    /// carries the key's hash and a matching check hash. A not-ready
    /// controller parks the operation; the value is then handed back
    /// by `continue_operation` instead.
    pub fn get_key(&mut self, hash: u64, buf: &mut [u8]) -> (r: Result<SuccessCode, ErrorCode>)
        requires
            old(self).wf(),
        ensures
            final(self).wf(),
            r is Ok ==> exists|v: Seq<u8>|
                {
                    &&& #[trigger] spec_fetched_entry(final(self).tickv.region_buf@, hash, v)
                    &&& v.len() <= final(buf)@.len()
                    &&& final(buf)@ =~= v + old(buf)@.skip(v.len() as int)
                },
            r is Err ==> final(buf)@ == old(buf)@,
            r == Err::<SuccessCode, ErrorCode>(ErrorCode::KeyNotFound) ==> !spec_chain_has_key(
                final(self).tickv.region_buf@,
                0,
                hash,
            ),
    {
        let r = self.tickv.do_get(hash);
        match r {
            Ok(value) => {
                self.pending = Pending::Idle;
                if value.len() > buf.len() {
                    return Err(ErrorCode::BufferTooSmall(value.len()));
                }
                let mut i: usize = 0;
                while i < value.len()
                    invariant
                        i <= value@.len(),
                        value@.len() <= buf@.len(),
                        buf@.len() == old(buf)@.len(),
                        forall|j: int|
                            0 <= j < buf@.len() ==> (#[trigger] buf@[j]) == if j < i {
                                value@[j]
                            } else {
                                old(buf)@[j]
                            },
                    decreases value@.len() - i,
                {
                    let b = value[i];
                    buf[i] = b;
                    i = i + 1;
                }
                proof {
                    assert(buf@ =~= value@ + old(buf)@.skip(value@.len() as int));
                    assert(spec_fetched_entry(self.tickv.region_buf@, hash, value@));
                }
                Ok(SuccessCode::Complete)
            },
            Err(e) => {
                if is_not_ready(&e) {
                    self.pending = Pending::Get(hash);
                } else {
                    self.pending = Pending::Idle;
                }
                Err(e)
            },
        }
    }

    /// Invalidate a key by clearing its entry's valid bit. A not-ready
    /// controller parks the operation.
    pub fn invalidate_key(&mut self, hash: u64) -> (r: Result<SuccessCode, ErrorCode>)
        requires
            old(self).wf(),
        ensures
            final(self).wf(),
            (r matches Err(e) && spec_not_ready(e)) ==> final(self).pending
                == Pending::Invalidate(hash),
            !(r matches Err(e) && spec_not_ready(e)) ==> final(self).pending is Idle,
            r == Err::<SuccessCode, ErrorCode>(ErrorCode::KeyNotFound) ==> !spec_chain_has_key(
                final(self).tickv.region_buf@,
                0,
                hash,
            ),
    {
        let r = self.tickv.do_invalidate(hash);
        let not_ready = match &r {
            Err(e) => is_not_ready(e),
            Ok(_) => false,
        };
        if not_ready {
            self.pending = Pending::Invalidate(hash);
        } else {
            self.pending = Pending::Idle;
        }
        r
    }

    /// Walk every region from `cursor`, erasing those whose entries
    /// are all invalid; returns the bytes freed.
    fn gc_run(&mut self, start: usize, erased_so_far: usize) -> (r: Result<usize, ErrorCode>)
        requires
            old(self).wf(),
            erased_so_far <= old(self).tickv.num_regions,
            start <= old(self).tickv.num_regions,
        ensures
            final(self).wf(),
            final(self).tickv.num_regions == old(self).tickv.num_regions,
            final(self).tickv.flash_size == old(self).tickv.flash_size,
            r matches Ok(freed) ==> freed <= final(self).tickv.flash_size,
            (r matches Err(e) && spec_not_ready(e)) ==> final(self).pending matches Pending::Gc(
                _,
                _,
            ),
            !(r matches Err(e) && spec_not_ready(e)) ==> final(self).pending is Idle,
    {
        let mut cursor: usize = start;
        let mut erased: usize = erased_so_far;
        while cursor < self.tickv.num_regions
                invariant
                self.wf(),
                cursor <= self.tickv.num_regions,
                erased <= self.tickv.num_regions,
                self.tickv.num_regions == old(self).tickv.num_regions,
                self.tickv.flash_size == old(self).tickv.flash_size,
            decreases self.tickv.num_regions - cursor,
        {
            match self.tickv.load_region(cursor) {
                Ok(()) => {},
                Err(e) => {
                    if is_not_ready(&e) {
                        self.pending = Pending::Gc(cursor, erased);
                    } else {
                        self.pending = Pending::Idle;
                    }
                    return Err(e);
                },
            }
            let info = scan_region(&self.tickv.region_buf, 0);
            if info.entries > 0 && info.valid_entries == 0 {
                match self.tickv.controller.erase_region(cursor) {
                    Ok(()) => {
                        if erased < self.tickv.num_regions {
                            erased = erased + 1;
                        }
                    },
                    Err(e) => {
                        if is_not_ready(&e) {
                            self.pending = Pending::Gc(cursor, erased);
                            return Err(e);
                        }
                        self.pending = Pending::Idle;
                        return Err(ErrorCode::EraseFail);
                    },
                }
            }
            cursor = cursor + 1;
        }
        self.pending = Pending::Idle;
        proof {
            vstd::arithmetic::div_mod::lemma_fundamental_div_mod(
                self.tickv.flash_size as int,
                S as int,
            );
            assert(erased as int * S as int <= self.tickv.num_regions as int * S as int)
                by (nonlinear_arith)
                requires
                    erased <= self.tickv.num_regions,
                    S >= 1,
            ;
            assert(self.tickv.num_regions as int * S as int <= self.tickv.flash_size as int);
        }
        Ok(erased * S)
    }

    /// Erase every region whose entries are all invalid; returns the
    /// bytes freed, or parks on a not-ready controller.
    pub fn garbage_collect(&mut self) -> (r: Result<usize, ErrorCode>)
        requires
            old(self).wf(),
        ensures
            final(self).wf(),
            r matches Ok(freed) ==> freed <= final(self).tickv.flash_size,
            (r matches Err(e) && spec_not_ready(e)) ==> final(self).pending matches Pending::Gc(
                _,
                _,
            ),
            !(r matches Err(e) && spec_not_ready(e)) ==> final(self).pending is Idle,
    {
        self.gc_run(0, 0)
    }

    /// Replace the internal region buffer with data a controller
    /// fetched asynchronously.
    pub fn set_read_buffer(&mut self, read_buffer: &[u8])
        requires
            read_buffer@.len() == S,
        ensures
            final(self).tickv.region_buf@ == read_buffer@,
            final(self).tickv == (TicKV {
                region_buf: final(self).tickv.region_buf,
                ..old(self).tickv
            }),
            final(self).pending == old(self).pending,
            final(self).pending_value == old(self).pending_value,
    {
        let mut buf: [u8; S] = self.tickv.region_buf;
        let mut i: usize = 0;
        while i < read_buffer.len()
            invariant
                read_buffer@.len() == S,
                i <= S,
                buf@.len() == S,
                forall|j: int| 0 <= j < i ==> buf@[j] == read_buffer@[j],
            decreases S - i,
        {
            buf[i] = read_buffer[i];
            i = i + 1;
        }
        self.tickv.region_buf = buf;
        proof {
            assert(self.tickv.region_buf@ =~= read_buffer@);
        }
    }

    /// Resume the parked operation after the controller became ready.
    /// Returns its result, the fetched value if the operation was a
    /// read, and that value's length. With nothing parked the call is
    /// a completed no-op. The operation stays parked (under the same
    /// key, or the garbage collector's cursor) exactly as long as the
    /// controller keeps answering not-ready; any other outcome leaves
    /// the store idle.
    pub fn continue_operation(&mut self) -> (r: (
        Result<SuccessCode, ErrorCode>,
        Option<Vec<u8>>,
        usize,
    ))
        requires
            old(self).wf(),
        ensures
            final(self).wf(),
            old(self).pending is Idle ==> r == (
                Ok::<SuccessCode, ErrorCode>(SuccessCode::Complete),
                None::<Vec<u8>>,
                0usize,
            ) && final(self).pending is Idle,
            !(r.0 matches Err(e) && spec_not_ready(e)) ==> final(self).pending is Idle,
            match old(self).pending {
                Pending::Idle => true,
                Pending::Init(h) => final(self).pending == Pending::Init(h)
                    || final(self).pending is Idle,
                Pending::Append(h) => final(self).pending == Pending::Append(h)
                    || final(self).pending is Idle,
                Pending::Get(h) => final(self).pending == Pending::Get(h)
                    || final(self).pending is Idle,
                Pending::Invalidate(h) => final(self).pending == Pending::Invalidate(h)
                    || final(self).pending is Idle,
                Pending::Gc(_, _) => (final(self).pending matches Pending::Gc(_, _))
                    || final(self).pending is Idle,
            },
            (match old(self).pending {
                Pending::Get(h) => {
                    &&& (r.0 is Ok ==> (r.1 matches Some(v) && r.2 == v@.len()
                        && spec_fetched_entry(final(self).tickv.region_buf@, h, v@)))
                    &&& (r.0 == Err::<SuccessCode, ErrorCode>(ErrorCode::KeyNotFound)
                        ==> !spec_chain_has_key(final(self).tickv.region_buf@, 0, h))
                },
                Pending::Invalidate(h) => r.0 == Err::<SuccessCode, ErrorCode>(
                    ErrorCode::KeyNotFound,
                ) ==> !spec_chain_has_key(final(self).tickv.region_buf@, 0, h),
                Pending::Append(h) => r.0 == Err::<SuccessCode, ErrorCode>(
                    ErrorCode::KeyAlreadyExists,
                ) ==> spec_chain_has_key(final(self).tickv.region_buf@, 0, h),
                _ => true,
            }),
    {
        let p = self.pending;
        self.pending = Pending::Idle;
        match p {
            Pending::Idle => (Ok(SuccessCode::Complete), None, 0),
            Pending::Init(h) => {
                let r = self.tickv.do_init(h);
                let not_ready = match &r {
                    Err(e) => is_not_ready(e),
                    Ok(_) => false,
                };
                if not_ready {
                    self.pending = Pending::Init(h);
                }
                (r, None, 0)
            },
            Pending::Append(h) => {
                let mut value: Vec<u8> = Vec::new();
                core::mem::swap(&mut value, &mut self.pending_value);
                let r = self.tickv.do_append(h, value.as_slice());
                let not_ready = match &r {
                    Err(e) => is_not_ready(e),
                    Ok(_) => false,
                };
                if not_ready {
                    self.pending = Pending::Append(h);
                    core::mem::swap(&mut value, &mut self.pending_value);
                    (r, None, 0)
                } else {
                    (r, Some(value), 0)
                }
            },
            Pending::Get(h) => {
                let r = self.tickv.do_get(h);
                match r {
                    Ok(value) => {
                        let len = value.len();
                        (Ok(SuccessCode::Complete), Some(value), len)
                    },
                    Err(e) => {
                        if is_not_ready(&e) {
                            self.pending = Pending::Get(h);
                        }
                        (Err(e), None, 0)
                    },
                }
            },
            Pending::Invalidate(h) => {
                let r = self.tickv.do_invalidate(h);
                let not_ready = match &r {
                    Err(e) => is_not_ready(e),
                    Ok(_) => false,
                };
                if not_ready {
                    self.pending = Pending::Invalidate(h);
                }
                (r, None, 0)
            },
            Pending::Gc(cursor, erased) => {
                let rr = self.gc_run(cursor, erased);
                match rr {
                    Ok(_freed) => (Ok(SuccessCode::Complete), None, 0),
                    Err(e) => (Err(e), None, 0),
                }
            },
        }
    }
}

} // verus!
