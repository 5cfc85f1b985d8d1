//! The memory heap of the Barracuda emulator.
//!
//! The heap is a set of memory regions. A virtual address holds the region
//! index in its top 16 bits and the byte offset within the region in its low
//! 48 bits, so at most 2^16 regions can be allocated at a time and a region
//! holds fewer than 2^48 bytes. Region indices are handed out in sequence and
//! wrap around; when the next index is still in use the heap reports that all
//! regions are allocated.
use vstd::prelude::*;
use std::collections::HashMap;
use endiannezz::LittleEndian;
use endiannezz::ext::{EndianReader, EndianWriter};

verus! {

broadcast use vstd::std_specs::hash::group_hash_axioms;

/// Mask of the byte offset within a virtual address.
pub const HEAP_ADDRESS_BYTE_MASK: u64 = 0x0000_FFFF_FFFF_FFFF;

/// Number of bytes addressable within one region (2^48).
pub const MAX_REGION_BYTES: u64 = 0x0001_0000_0000_0000;

/// The region index encoded in a virtual address.
pub open spec fn spec_region_of(pointer: usize) -> u16 {
    (pointer as u64 >> 48u64) as u16
}

/// The byte offset encoded in a virtual address.
pub open spec fn spec_offset_of(pointer: usize) -> u64 {
    pointer as u64 & HEAP_ADDRESS_BYTE_MASK
}

/// The region that follows `region`, wrapping around after the last one.
pub open spec fn spec_next_region(region: u16) -> u16 {
    if region == 0xFFFF { 0 } else { (region + 1) as u16 }
}

/// The virtual address of a byte offset within a region.
pub open spec fn spec_virtual_addr(region: u16, offset: u64) -> usize {
    (((region as u64) << 48u64) | offset) as usize
}

/// A virtual address is the region index times 2^48 plus the byte offset.
pub proof fn lemma_address_parts(pointer: usize)
    ensures
        pointer as int == spec_region_of(pointer) as int * MAX_REGION_BYTES as int + spec_offset_of(pointer) as int,
        spec_offset_of(pointer) < MAX_REGION_BYTES,
{
    let p = pointer as u64;
    assert(p == (p >> 48u64) * 0x0001_0000_0000_0000u64 + (p & 0x0000_FFFF_FFFF_FFFFu64)) by (bit_vector);
    assert((p >> 48u64) < 0x1_0000u64) by (bit_vector);
    assert((p & 0x0000_FFFF_FFFF_FFFFu64) < 0x0001_0000_0000_0000u64) by (bit_vector);
}

/// On a 64-bit machine, splitting the virtual address of a region offset
/// gives back the region and the offset, and the address is the region index
/// times 2^48 plus the offset.
pub proof fn lemma_virtual_addr_parts(region: u16, offset: u64)
    requires
        offset < MAX_REGION_BYTES,
        usize::BITS == 64,
    ensures
        spec_region_of(spec_virtual_addr(region, offset)) == region,
        spec_offset_of(spec_virtual_addr(region, offset)) == offset,
        spec_virtual_addr(region, offset) as int == region as int * MAX_REGION_BYTES as int + offset as int,
{
    let r = region as u64;
    assert(offset < 0x0001_0000_0000_0000u64 && r < 0x1_0000u64 ==> ((r << 48u64) | offset)
        == r * 0x0001_0000_0000_0000u64 + offset) by (bit_vector);
    assert(offset < 0x0001_0000_0000_0000u64 && r < 0x1_0000u64 ==> (((r << 48u64) | offset) >> 48u64)
        == r) by (bit_vector);
    assert(offset < 0x0001_0000_0000_0000u64 && r < 0x1_0000u64 ==> (((r << 48u64) | offset)
        & 0x0000_FFFF_FFFF_FFFFu64) == offset) by (bit_vector);
    let v = (r << 48u64) | offset;
    assert(usize::BITS == 64 ==> (v as usize) as u64 == v) by (bit_vector);
}

/// What allocating `num_bytes` gives, with `next` the region the heap tries
/// next: the address of a fresh zeroed region and the regions and next region
/// after it, or an error with the heap unchanged.
pub open spec fn spec_malloc(regions: Map<u16, Seq<u8>>, next: u16, num_bytes: usize) -> (Result<usize, HeapError>, Map<u16, Seq<u8>>, u16) {
    if regions.contains_key(next) {
        (Err(HeapError::AllRegionsAllocated), regions, next)
    } else if num_bytes >= MAX_REGION_BYTES {
        (Err(HeapError::CapacityTooLarge), regions, next)
    } else {
        (Ok(spec_virtual_addr(next, 0)), regions.insert(next, Seq::new(num_bytes as nat, |i: int| 0u8)), spec_next_region(next))
    }
}

/// What freeing the region of `pointer` gives.
pub open spec fn spec_free(regions: Map<u16, Seq<u8>>, pointer: usize) -> (Result<(), HeapError>, Map<u16, Seq<u8>>) {
    if regions.contains_key(spec_region_of(pointer)) {
        (Ok(()), regions.remove(spec_region_of(pointer)))
    } else {
        (Err(HeapError::AlreadyFree), regions)
    }
}

/// Errors reported by the heap.
#[derive(Debug, Clone, Copy, PartialEq, Eq, Structural)]
pub enum HeapError {
    /// Out of memory: the next region index is still in use.
    AllRegionsAllocated,
    /// Out of memory: the requested capacity reaches 2^48 bytes.
    CapacityTooLarge,
    /// Not found: the region was already free.
    AlreadyFree,
    /// Not found: no region is allocated at the address.
    RegionNotFound,
    /// Not found: the bytes addressed lie outside their region.
    OutOfBounds,
}

/// A heap address split into its region index and byte offset.
#[derive(Debug, Clone, Copy)]
pub struct HeapAddress {
    region_index: u16,
    byte_index: u64,
}

impl HeapAddress {
    /// The region index of the address.
    pub closed spec fn spec_region(self) -> u16 {
        self.region_index
    }

    /// The byte offset of the address.
    pub closed spec fn spec_byte(self) -> u64 {
        self.byte_index
    }

    /// The number of regions the heap can hold: 2^16.
    pub fn max_region_count() -> (r: u64)
        ensures
            r == 0x1_0000,
    {
        0x1_0000
    }

    /// The number of bytes a region can address: 2^48.
    pub fn max_byte_count() -> (r: u64)
        ensures
            r == MAX_REGION_BYTES,
    {
        MAX_REGION_BYTES
    }

    /// The address of a byte offset within a region; the offset keeps its low 48 bits.
    pub fn from_real(region_index: u16, byte_address: u64) -> (r: Self)
        ensures
            r.spec_region() == region_index,
            r.spec_byte() == byte_address & HEAP_ADDRESS_BYTE_MASK,
    {
        HeapAddress { region_index, byte_index: byte_address & HEAP_ADDRESS_BYTE_MASK }
    }

    /// Splits a virtual address into its region index and byte offset.
    pub fn from_virtual(pointer: usize) -> (r: Self)
        ensures
            r.spec_region() == spec_region_of(pointer),
            r.spec_byte() == spec_offset_of(pointer),
    {
        let p = pointer as u64;
        HeapAddress { region_index: (p >> 48) as u16, byte_index: p & HEAP_ADDRESS_BYTE_MASK }
    }

    /// The region index of the address.
    pub fn region_index(&self) -> (r: u16)
        ensures
            r == self.spec_region(),
    {
        self.region_index
    }

    /// The byte offset of the address.
    pub fn byte_index(&self) -> (r: u64)
        ensures
            r == self.spec_byte(),
    {
        self.byte_index
    }

    /// The virtual address: region index in the top 16 bits, offset in the low 48.
    pub fn virtual_addr(&self) -> (r: usize)
        ensures
            r == spec_virtual_addr(self.spec_region(), self.spec_byte()),
    {
        let region = self.region_index as u64;
        let v = (region << 48) | self.byte_index;
        v as usize
    }

    /// The first address of the following region; after the last region it wraps to region 0.
    pub fn next_region(&self) -> (r: Self)
        ensures
            r.spec_region() == spec_next_region(self.spec_region()),
            r.spec_byte() == 0,
    {
        match self.region_index.checked_add(1) {
            Some(next_index) => HeapAddress { region_index: next_index, byte_index: 0 },
            None => HeapAddress { region_index: 0, byte_index: 0 },
        }
    }
}

/// The value held by a little-endian 8-byte word.
pub open spec fn le_bytes(value: u64) -> Seq<u8> {
    Seq::new(8, |i: int| ((value >> (8 * i) as u64) & 0xFFu64) as u8)
}

/// Encodes a word as its 8 little-endian bytes (endiannezz's
/// `EndianWriter::try_write::<LittleEndian, u64>` into an empty `Vec<u8>`).
/// The contract claims that writing into a vector never fails and appends the
/// bytes of `u64::to_le_bytes`.
#[verifier::external_body]
fn encode_le_word(value: u64) -> (r: Option<Vec<u8>>)
    ensures
        r is Some,
        r.unwrap()@ == le_bytes(value),
{
    let mut buffer: Vec<u8> = Vec::new();
    match buffer.try_write::<LittleEndian, u64>(value) {
        Ok(()) => Some(buffer),
        Err(_) => None,
    }
}

/// Decodes a word from little-endian bytes (endiannezz's
/// `EndianReader::try_read::<LittleEndian, u64>` on a byte slice). The contract
/// claims that it fails exactly when fewer than 8 bytes are given, and
/// otherwise reads the word whose little-endian bytes are the first 8.
#[verifier::external_body]
fn decode_le_word(bytes: &[u8]) -> (r: Option<u64>)
    ensures
        r is Some <==> bytes@.len() >= 8,
        r matches Some(v) ==> le_bytes(v) == bytes@.take(8),
{
    let mut reader: &[u8] = bytes;
    match reader.try_read::<LittleEndian, u64>() {
        Ok(v) => Some(v),
        Err(_) => None,
    }
}

/// Different words have different little-endian bytes.
pub proof fn lemma_le_bytes_injective(v: u64, w: u64)
    requires
        le_bytes(v) == le_bytes(w),
    ensures
        v == w,
{
    assert(le_bytes(v)[0] == le_bytes(w)[0]);
    assert(le_bytes(v)[0] == ((v >> 0u64) & 0xFFu64) as u8);
    assert(le_bytes(w)[0] == ((w >> 0u64) & 0xFFu64) as u8);
    assert(le_bytes(v)[1] == le_bytes(w)[1]);
    assert(le_bytes(v)[1] == ((v >> 8u64) & 0xFFu64) as u8);
    assert(le_bytes(w)[1] == ((w >> 8u64) & 0xFFu64) as u8);
    assert(le_bytes(v)[2] == le_bytes(w)[2]);
    assert(le_bytes(v)[2] == ((v >> 16u64) & 0xFFu64) as u8);
    assert(le_bytes(w)[2] == ((w >> 16u64) & 0xFFu64) as u8);
    assert(le_bytes(v)[3] == le_bytes(w)[3]);
    assert(le_bytes(v)[3] == ((v >> 24u64) & 0xFFu64) as u8);
    assert(le_bytes(w)[3] == ((w >> 24u64) & 0xFFu64) as u8);
    assert(le_bytes(v)[4] == le_bytes(w)[4]);
    assert(le_bytes(v)[4] == ((v >> 32u64) & 0xFFu64) as u8);
    assert(le_bytes(w)[4] == ((w >> 32u64) & 0xFFu64) as u8);
    assert(le_bytes(v)[5] == le_bytes(w)[5]);
    assert(le_bytes(v)[5] == ((v >> 40u64) & 0xFFu64) as u8);
    assert(le_bytes(w)[5] == ((w >> 40u64) & 0xFFu64) as u8);
    assert(le_bytes(v)[6] == le_bytes(w)[6]);
    assert(le_bytes(v)[6] == ((v >> 48u64) & 0xFFu64) as u8);
    assert(le_bytes(w)[6] == ((w >> 48u64) & 0xFFu64) as u8);
    assert(le_bytes(v)[7] == le_bytes(w)[7]);
    assert(le_bytes(v)[7] == ((v >> 56u64) & 0xFFu64) as u8);
    assert(le_bytes(w)[7] == ((w >> 56u64) & 0xFFu64) as u8);
    assert((((v >> 0u64) & 0xFFu64) as u8 == ((w >> 0u64) & 0xFFu64) as u8
        && ((v >> 8u64) & 0xFFu64) as u8 == ((w >> 8u64) & 0xFFu64) as u8
        && ((v >> 16u64) & 0xFFu64) as u8 == ((w >> 16u64) & 0xFFu64) as u8
        && ((v >> 24u64) & 0xFFu64) as u8 == ((w >> 24u64) & 0xFFu64) as u8
        && ((v >> 32u64) & 0xFFu64) as u8 == ((w >> 32u64) & 0xFFu64) as u8
        && ((v >> 40u64) & 0xFFu64) as u8 == ((w >> 40u64) & 0xFFu64) as u8
        && ((v >> 48u64) & 0xFFu64) as u8 == ((w >> 48u64) & 0xFFu64) as u8
        && ((v >> 56u64) & 0xFFu64) as u8 == ((w >> 56u64) & 0xFFu64) as u8) ==> v == w) by (bit_vector);
}

/// Whether a range of `count` bytes at `pointer` lies within an allocated region.
pub open spec fn range_in_region(regions: Map<u16, Seq<u8>>, pointer: usize, count: int) -> bool {
    &&& regions.contains_key(spec_region_of(pointer))
    &&& spec_offset_of(pointer) + count <= regions[spec_region_of(pointer)].len()
}

/// The bytes of a region with `count` bytes at `offset` set to `fill`.
pub open spec fn filled(bytes: Seq<u8>, offset: int, count: int, fill: u8) -> Seq<u8> {
    Seq::new(bytes.len(), |i: int| if offset <= i < offset + count { fill } else { bytes[i] })
}

/// The bytes of a region with `src` written at `offset`.
pub open spec fn overwritten(bytes: Seq<u8>, offset: int, src: Seq<u8>) -> Seq<u8> {
    Seq::new(bytes.len(), |i: int| if offset <= i < offset + src.len() { src[i - offset] } else { bytes[i] })
}

/// What reading the byte at `pointer` gives.
pub open spec fn spec_read(regions: Map<u16, Seq<u8>>, pointer: usize) -> Result<u8, HeapError> {
    if !regions.contains_key(spec_region_of(pointer)) {
        Err(HeapError::RegionNotFound)
    } else if !range_in_region(regions, pointer, 1) {
        Err(HeapError::OutOfBounds)
    } else {
        Ok(regions[spec_region_of(pointer)][spec_offset_of(pointer) as int])
    }
}

/// What writing `value` at `pointer` gives, and the regions afterwards.
pub open spec fn spec_write(regions: Map<u16, Seq<u8>>, pointer: usize, value: u8) -> (Result<(), HeapError>, Map<u16, Seq<u8>>) {
    if !regions.contains_key(spec_region_of(pointer)) {
        (Err(HeapError::RegionNotFound), regions)
    } else if !range_in_region(regions, pointer, 1) {
        (Err(HeapError::OutOfBounds), regions)
    } else {
        (
            Ok(()),
            regions.insert(
                spec_region_of(pointer),
                regions[spec_region_of(pointer)].update(spec_offset_of(pointer) as int, value),
            ),
        )
    }
}

/// What filling `count` bytes at `pointer` with `fill` gives, and the regions afterwards.
pub open spec fn spec_memset(regions: Map<u16, Seq<u8>>, pointer: usize, fill: u8, count: int) -> (Result<(), HeapError>, Map<u16, Seq<u8>>) {
    if !regions.contains_key(spec_region_of(pointer)) {
        (Err(HeapError::RegionNotFound), regions)
    } else if !range_in_region(regions, pointer, count) {
        (Err(HeapError::OutOfBounds), regions)
    } else {
        (
            Ok(()),
            regions.insert(
                spec_region_of(pointer),
                filled(regions[spec_region_of(pointer)], spec_offset_of(pointer) as int, count, fill),
            ),
        )
    }
}

/// The `count` bytes at `pointer`, when they lie in an allocated region.
pub open spec fn spec_bytes_at(regions: Map<u16, Seq<u8>>, pointer: usize, count: int) -> Seq<u8> {
    regions[spec_region_of(pointer)].subrange(
        spec_offset_of(pointer) as int,
        spec_offset_of(pointer) + count,
    )
}

/// What copying `count` bytes from `src` to `dest` gives, and the regions afterwards.
pub open spec fn spec_memcpy(regions: Map<u16, Seq<u8>>, dest: usize, src: usize, count: int) -> (Result<(), HeapError>, Map<u16, Seq<u8>>) {
    if !regions.contains_key(spec_region_of(src)) {
        (Err(HeapError::RegionNotFound), regions)
    } else if !range_in_region(regions, src, count) {
        (Err(HeapError::OutOfBounds), regions)
    } else if !regions.contains_key(spec_region_of(dest)) {
        (Err(HeapError::RegionNotFound), regions)
    } else if !range_in_region(regions, dest, count) {
        (Err(HeapError::OutOfBounds), regions)
    } else {
        (
            Ok(()),
            regions.insert(
                spec_region_of(dest),
                overwritten(regions[spec_region_of(dest)], spec_offset_of(dest) as int, spec_bytes_at(regions, src, count)),
            ),
        )
    }
}

/// Whether the 8 bytes of a word at `pointer` lie within one allocated region:
/// the offset of the address 8 bytes further must not lie before `pointer`'s.
pub open spec fn word_in_region(regions: Map<u16, Seq<u8>>, pointer: usize) -> bool {
    &&& regions.contains_key(spec_region_of(pointer))
    &&& spec_offset_of(pointer) <= spec_offset_of((pointer + 8) as usize)
    &&& spec_offset_of((pointer + 8) as usize) <= regions[spec_region_of(pointer)].len()
}

/// What reading the word at `pointer` gives.
pub open spec fn spec_read_word(regions: Map<u16, Seq<u8>>, pointer: usize) -> Result<u64, HeapError> {
    if !regions.contains_key(spec_region_of(pointer)) {
        Err(HeapError::RegionNotFound)
    } else if !word_in_region(regions, pointer) {
        Err(HeapError::OutOfBounds)
    } else {
        Ok(choose|v: u64| le_bytes(v) == spec_bytes_at(regions, pointer, 8))
    }
}

/// What writing the word `value` at `pointer` gives, and the regions afterwards.
pub open spec fn spec_write_word(regions: Map<u16, Seq<u8>>, pointer: usize, value: u64) -> (Result<(), HeapError>, Map<u16, Seq<u8>>) {
    if !regions.contains_key(spec_region_of(pointer)) {
        (Err(HeapError::RegionNotFound), regions)
    } else if !word_in_region(regions, pointer) {
        (Err(HeapError::OutOfBounds), regions)
    } else {
        (
            Ok(()),
            regions.insert(
                spec_region_of(pointer),
                overwritten(regions[spec_region_of(pointer)], spec_offset_of(pointer) as int, le_bytes(value)),
            ),
        )
    }
}

/// Within the 8 bytes after an address, either the offset grows by 8 or the
/// address crosses into the next region and its offset falls below the start.
pub proof fn lemma_word_offsets(pointer: usize)
    requires
        pointer + 8 <= usize::MAX,
    ensures
        spec_offset_of((pointer + 8) as usize) == spec_offset_of(pointer) + 8
            || spec_offset_of((pointer + 8) as usize) < spec_offset_of(pointer),
{
    let p = pointer as u64;
    let q = (pointer + 8) as usize as u64;
    assert(q == p + 8);
    assert(p + 8 <= 0xFFFF_FFFF_FFFF_FFFFu64 && q == p + 8 ==> ((q & 0x0000_FFFF_FFFF_FFFFu64)
        == (p & 0x0000_FFFF_FFFF_FFFFu64) + 8 || (q & 0x0000_FFFF_FFFF_FFFFu64) < (p & 0x0000_FFFF_FFFF_FFFFu64))) by (bit_vector);
}

/// Memory heap used by Barracuda program code.
#[derive(Debug)]
pub struct EmulatorHeap {
    heap: HashMap<u16, Vec<u8>>,
    next_region_address: HeapAddress,
}

impl EmulatorHeap {
    /// The allocated regions and their bytes.
    pub closed spec fn regions(&self) -> Map<u16, Seq<u8>> {
        Map::new(|r: u16| self.heap@.contains_key(r), |r: u16| self.heap@[r]@)
    }

    /// The region index the next allocation will try.
    pub closed spec fn next_region(&self) -> u16 {
        self.next_region_address.region_index
    }

    /// The heap is well formed: the next address starts a region and every
    /// region holds fewer than 2^48 bytes.
    pub closed spec fn wf(&self) -> bool {
        &&& self.next_region_address.byte_index == 0
        &&& forall|r: u16| #[trigger] self.heap@.contains_key(r) ==> self.heap@[r]@.len() < MAX_REGION_BYTES
    }

    /// The well-formedness of the heap, seen through its regions.
    pub proof fn lemma_wf_regions(&self)
        requires
            self.wf(),
        ensures
            forall|r: u16| #[trigger] self.regions().contains_key(r) ==> self.regions()[r].len() < MAX_REGION_BYTES,
    {
    }

    /// An empty heap whose first allocation uses region 0.
    pub fn new() -> (r: Self)
        ensures
            r.wf(),
            r.regions() == Map::<u16, Seq<u8>>::empty(),
            r.next_region() == 0,
    {
        let r = EmulatorHeap { heap: HashMap::new(), next_region_address: HeapAddress::from_real(0, 0) };
        assert(0u64 & 0x0000_FFFF_FFFF_FFFFu64 == 0) by (bit_vector);
        assert(r.regions() =~= Map::<u16, Seq<u8>>::empty());
        r
    }

    /// Allocates a zeroed region of `num_bytes` bytes and returns the virtual
    /// address of its first byte. Fails when the next region index is still
    /// allocated, or when `num_bytes` reaches 2^48.
    pub fn malloc(&mut self, num_bytes: usize) -> (r: Result<usize, HeapError>)
        requires
            old(self).wf(),
        ensures
            final(self).wf(),
            (r, final(self).regions(), final(self).next_region()) == spec_malloc(
                old(self).regions(),
                old(self).next_region(),
                num_bytes,
            ),
            old(self).regions().contains_key(old(self).next_region()) ==> r == Err::<usize, HeapError>(
                HeapError::AllRegionsAllocated,
            ),
            !old(self).regions().contains_key(old(self).next_region()) && num_bytes >= MAX_REGION_BYTES
                ==> r == Err::<usize, HeapError>(HeapError::CapacityTooLarge),
            r is Err ==> final(self).regions() == old(self).regions() && final(self).next_region() == old(self).next_region(),
            !old(self).regions().contains_key(old(self).next_region()) && num_bytes < MAX_REGION_BYTES ==> {
                &&& r == Ok::<usize, HeapError>(spec_virtual_addr(old(self).next_region(), 0))
                &&& final(self).regions() == old(self).regions().insert(
                    old(self).next_region(),
                    Seq::new(num_bytes as nat, |i: int| 0u8),
                )
                &&& final(self).next_region() == spec_next_region(old(self).next_region())
            },
    {
        let region = self.next_region_address.region_index;
        if self.heap.contains_key(&region) {
            return Err(HeapError::AllRegionsAllocated);
        }
        if num_bytes as u64 >= MAX_REGION_BYTES {
            return Err(HeapError::CapacityTooLarge);
        }
        let mut bytes: Vec<u8> = Vec::new();
        let mut k: usize = 0;
        while k < num_bytes
            invariant
                k <= num_bytes,
                bytes@ == Seq::new(k as nat, |i: int| 0u8),
            decreases num_bytes - k,
        {
            bytes.push(0);
            assert(bytes@ =~= Seq::new((k + 1) as nat, |i: int| 0u8));
            k = k + 1;
        }
        let ghost old_regions = self.regions();
        self.heap.insert(region, bytes);
        let region_pointer = self.next_region_address.virtual_addr();
        self.next_region_address = self.next_region_address.next_region();
        assert(self.regions() =~= old_regions.insert(region, Seq::new(num_bytes as nat, |i: int| 0u8)));
        Ok(region_pointer)
    }

    /// Frees the region holding `virtual_pointer`. Fails when that region is
    /// not allocated.
    pub fn free(&mut self, virtual_pointer: usize) -> (r: Result<(), HeapError>)
        requires
            old(self).wf(),
        ensures
            final(self).wf(),
            final(self).next_region() == old(self).next_region(),
            (r, final(self).regions()) == spec_free(old(self).regions(), virtual_pointer),
            old(self).regions().contains_key(spec_region_of(virtual_pointer)) ==> r is Ok && final(self).regions() == old(self).regions().remove(spec_region_of(virtual_pointer)),
            !old(self).regions().contains_key(spec_region_of(virtual_pointer)) ==> r == Err::<(), HeapError>(
                HeapError::AlreadyFree,
            ) && final(self).regions() == old(self).regions(),
    {
        let pointer = HeapAddress::from_virtual(virtual_pointer);
        let ghost old_regions = self.regions();
        match self.heap.remove(&pointer.region_index) {
            Some(_) => {
                assert(self.regions() =~= old_regions.remove(pointer.region_index));
                Ok(())
            },
            None => {
                assert(self.regions() =~= old_regions);
                Err(HeapError::AlreadyFree)
            },
        }
    }

    /// Reads the byte at a virtual address. Fails when no region is allocated
    /// there or the offset lies outside the region.
    pub fn read(&mut self, address_virtual: usize) -> (r: Result<u8, HeapError>)
        requires
            old(self).wf(),
        ensures
            final(self).wf(),
            final(self).regions() == old(self).regions(),
            final(self).next_region() == old(self).next_region(),
            r == spec_read(old(self).regions(), address_virtual),
    {
        let address = HeapAddress::from_virtual(address_virtual);
        let memory_region = match self.heap.get(&address.region_index) {
            Some(region) => region,
            None => return Err(HeapError::RegionNotFound),
        };
        if address.byte_index < memory_region.len() as u64 {
            Ok(memory_region[address.byte_index as usize])
        } else {
            Err(HeapError::OutOfBounds)
        }
    }

    /// Writes a byte at a virtual address. Fails when no region is allocated
    /// there or the offset lies outside the region; then nothing changes.
    pub fn write(&mut self, address_virtual: usize, value: u8) -> (r: Result<(), HeapError>)
        requires
            old(self).wf(),
        ensures
            final(self).wf(),
            final(self).next_region() == old(self).next_region(),
            (r, final(self).regions()) == spec_write(old(self).regions(), address_virtual, value),
    {
        let address = HeapAddress::from_virtual(address_virtual);
        let ghost old_regions = self.regions();
        let mut memory_region = match self.heap.remove(&address.region_index) {
            Some(region) => region,
            None => {
                assert(self.regions() =~= old_regions);
                return Err(HeapError::RegionNotFound);
            },
        };
        let result = if address.byte_index < memory_region.len() as u64 {
            memory_region.set(address.byte_index as usize, value);
            Ok(())
        } else {
            Err(HeapError::OutOfBounds)
        };
        self.heap.insert(address.region_index, memory_region);
        if result.is_ok() {
            assert(self.regions() =~= old_regions.insert(
                address.region_index,
                old_regions[address.region_index].update(address.byte_index as int, value),
            ));
        } else {
            assert(self.regions() =~= old_regions);
        }
        result
    }
    /// Fills `byte_count` bytes from a virtual address with `fill_value`.
    /// Fails when no region is allocated there or the bytes run past the
    /// region's end; then nothing changes.
    pub fn memset(&mut self, dest_virtual: usize, fill_value: u8, byte_count: usize) -> (r: Result<(), HeapError>)
        requires
            old(self).wf(),
            spec_offset_of(dest_virtual) + byte_count <= usize::MAX,
        ensures
            final(self).wf(),
            final(self).next_region() == old(self).next_region(),
            (r, final(self).regions()) == spec_memset(old(self).regions(), dest_virtual, fill_value, byte_count as int),
    {
        let dest = HeapAddress::from_virtual(dest_virtual);
        let dest_start = dest.byte_index as usize;
        let dest_end = dest_start + byte_count;
        let ghost old_regions = self.regions();
        let mut region = match self.heap.remove(&dest.region_index) {
            Some(region) => region,
            None => {
                assert(self.regions() =~= old_regions);
                return Err(HeapError::RegionNotFound);
            },
        };
        if dest_end > region.len() {
            self.heap.insert(dest.region_index, region);
            assert(self.regions() =~= old_regions);
            return Err(HeapError::OutOfBounds);
        }
        let ghost initial = region@;
        let mut i = dest_start;
        while i < dest_end
            invariant
                dest_start <= i <= dest_end,
                dest_end <= region@.len(),
                region@.len() == initial.len(),
                forall|j: int| 0 <= j < region@.len() ==> #[trigger] region@[j] == (if dest_start <= j < i {
                    fill_value
                } else {
                    initial[j]
                }),
            decreases dest_end - i,
        {
            region.set(i, fill_value);
            i = i + 1;
        }
        assert(region@ =~= filled(initial, dest_start as int, byte_count as int, fill_value));
        self.heap.insert(dest.region_index, region);
        assert(self.regions() =~= old_regions.insert(
            dest.region_index,
            filled(old_regions[dest.region_index], dest_start as int, byte_count as int, fill_value),
        ));
        Ok(())
    }

    /// Copies `byte_count` bytes from `src_virtual` to `dest_virtual`.
    /// Fails when either region is not allocated or either range runs past
    /// its region's end; then nothing changes. The source bytes are read
    /// before any is written, so the two ranges may share a region and overlap.
    pub fn memcpy(&mut self, dest_virtual: usize, src_virtual: usize, byte_count: usize) -> (r: Result<(), HeapError>)
        requires
            old(self).wf(),
            spec_offset_of(dest_virtual) + byte_count <= usize::MAX,
            spec_offset_of(src_virtual) + byte_count <= usize::MAX,
        ensures
            final(self).wf(),
            final(self).next_region() == old(self).next_region(),
            (r, final(self).regions()) == spec_memcpy(old(self).regions(), dest_virtual, src_virtual, byte_count as int),
    {
        let src = HeapAddress::from_virtual(src_virtual);
        let src_start = src.byte_index as usize;
        let src_end = src_start + byte_count;
        let dest = HeapAddress::from_virtual(dest_virtual);
        let dest_start = dest.byte_index as usize;
        let dest_end = dest_start + byte_count;
        let ghost old_regions = self.regions();
        let src_bytes = match self.heap.get(&src.region_index) {
            Some(region) => {
                if src_end > region.len() {
                    return Err(HeapError::OutOfBounds);
                }
                let mut copy: Vec<u8> = Vec::new();
                let mut k = src_start;
                while k < src_end
                    invariant
                        src_start <= k <= src_end,
                        src_end <= region@.len(),
                        copy@ == region@.subrange(src_start as int, k as int),
                    decreases src_end - k,
                {
                    copy.push(region[k]);
                    assert(copy@ =~= region@.subrange(src_start as int, k + 1));
                    k = k + 1;
                }
                copy
            },
            None => return Err(HeapError::RegionNotFound),
        };
        assert(src_bytes@ == spec_bytes_at(old_regions, src_virtual, byte_count as int));
        let mut region = match self.heap.remove(&dest.region_index) {
            Some(region) => region,
            None => {
                assert(self.regions() =~= old_regions);
                return Err(HeapError::RegionNotFound);
            },
        };
        if dest_end > region.len() {
            self.heap.insert(dest.region_index, region);
            assert(self.regions() =~= old_regions);
            return Err(HeapError::OutOfBounds);
        }
        let ghost initial = region@;
        let mut i: usize = 0;
        while i < byte_count
            invariant
                i <= byte_count,
                dest_end == dest_start + byte_count,
                dest_end <= region@.len(),
                src_bytes@.len() == byte_count,
                region@.len() == initial.len(),
                forall|j: int| 0 <= j < region@.len() ==> #[trigger] region@[j] == (if dest_start <= j < dest_start + i {
                    src_bytes@[j - dest_start]
                } else {
                    initial[j]
                }),
            decreases byte_count - i,
        {
            region.set(dest_start + i, src_bytes[i]);
            i = i + 1;
        }
        assert(region@ =~= overwritten(initial, dest_start as int, src_bytes@));
        self.heap.insert(dest.region_index, region);
        assert(self.regions() =~= old_regions.insert(
            dest.region_index,
            overwritten(old_regions[dest.region_index], dest_start as int, src_bytes@),
        ));
        Ok(())
    }

    /// Writes a 64-bit word as 8 little-endian bytes at a virtual address.
    /// Fails when no region is allocated there or the 8 bytes do not lie
    /// within the region; then nothing changes.
    pub fn write_word(&mut self, address_virtual: usize, value: u64) -> (r: Result<(), HeapError>)
        requires
            old(self).wf(),
            address_virtual + 8 <= usize::MAX,
        ensures
            final(self).wf(),
            final(self).next_region() == old(self).next_region(),
            (r, final(self).regions()) == spec_write_word(old(self).regions(), address_virtual, value),
    {
        let byte_buffer = match encode_le_word(value) {
            Some(buffer) => buffer,
            None => return Err(HeapError::OutOfBounds),
        };
        let byte_count = byte_buffer.len();
        let address_start = HeapAddress::from_virtual(address_virtual);
        let address_end = HeapAddress::from_virtual(address_virtual + byte_count);
        proof {
            lemma_word_offsets(address_virtual);
        }
        let ghost old_regions = self.regions();
        let mut region = match self.heap.remove(&address_start.region_index) {
            Some(region) => region,
            None => {
                assert(self.regions() =~= old_regions);
                return Err(HeapError::RegionNotFound);
            },
        };
        let start = address_start.byte_index;
        let end = address_end.byte_index;
        if start > end || end > region.len() as u64 {
            self.heap.insert(address_start.region_index, region);
            assert(self.regions() =~= old_regions);
            return Err(HeapError::OutOfBounds);
        }
        let ghost initial = region@;
        let start = start as usize;
        let region_len = region.len();
        let mut i: usize = 0;
        while i < 8
            invariant
                i <= 8,
                region_len == region@.len(),
                start + 8 <= region@.len(),
                byte_buffer@ == le_bytes(value),
                region@.len() == initial.len(),
                forall|j: int| 0 <= j < region@.len() ==> #[trigger] region@[j] == (if start <= j < start + i {
                    byte_buffer@[j - start]
                } else {
                    initial[j]
                }),
            decreases 8 - i,
        {
            region.set(start + i, byte_buffer[i]);
            i = i + 1;
        }
        assert(region@ =~= overwritten(initial, start as int, le_bytes(value)));
        self.heap.insert(address_start.region_index, region);
        assert(self.regions() =~= old_regions.insert(
            address_start.region_index,
            overwritten(old_regions[address_start.region_index], start as int, le_bytes(value)),
        ));
        Ok(())
    }

    /// Reads a 64-bit word from 8 little-endian bytes at a virtual address.
    /// Fails when no region is allocated there or the 8 bytes do not lie
    /// within the region.
    pub fn read_word(&mut self, address_virtual: usize) -> (r: Result<u64, HeapError>)
        requires
            old(self).wf(),
            address_virtual + 8 <= usize::MAX,
        ensures
            final(self).wf(),
            final(self).next_region() == old(self).next_region(),
            final(self).regions() == old(self).regions(),
            r == spec_read_word(old(self).regions(), address_virtual),
    {
        let address_start = HeapAddress::from_virtual(address_virtual);
        let address_end = HeapAddress::from_virtual(address_virtual + 8);
        proof {
            lemma_word_offsets(address_virtual);
        }
        let region = match self.heap.get(&address_start.region_index) {
            Some(region) => region,
            None => return Err(HeapError::RegionNotFound),
        };
        let start = address_start.byte_index;
        let end = address_end.byte_index;
        if start > end || end > region.len() as u64 {
            return Err(HeapError::OutOfBounds);
        }
        let mut bytes: Vec<u8> = Vec::new();
        let mut k = start as usize;
        while k < end as usize
            invariant
                start <= k <= end,
                end == start + 8,
                end <= region@.len(),
                bytes@ == region@.subrange(start as int, k as int),
            decreases end - k,
        {
            bytes.push(region[k]);
            assert(bytes@ =~= region@.subrange(start as int, k + 1));
            k = k + 1;
        }
        match decode_le_word(bytes.as_slice()) {
            Some(v) => {
                proof {
                    let regions = self.regions();
                    assert(bytes@.take(8) =~= spec_bytes_at(regions, address_virtual, 8));
                    let w = choose|w: u64| le_bytes(w) == spec_bytes_at(regions, address_virtual, 8);
                    lemma_le_bytes_injective(v, w);
                }
                Ok(v)
            },
            None => Err(HeapError::OutOfBounds),
        }
    }
}

/// A byte written at an address is what a read at that address then gives.
pub proof fn law_read_after_write(regions: Map<u16, Seq<u8>>, pointer: usize, value: u8)
    requires
        spec_write(regions, pointer, value).0 is Ok,
    ensures
        spec_read(spec_write(regions, pointer, value).1, pointer) == Ok::<u8, HeapError>(value),
{
}

/// Writing a byte leaves every other address as it was.
pub proof fn law_write_preserves_others(regions: Map<u16, Seq<u8>>, pointer: usize, value: u8, other: usize)
    requires
        spec_region_of(other) != spec_region_of(pointer) || spec_offset_of(other) != spec_offset_of(pointer),
    ensures
        spec_read(spec_write(regions, pointer, value).1, other) == spec_read(regions, other),
{
}

/// A fresh region reads as zeros: every byte below its size reads 0.
pub proof fn law_fresh_region_is_zeroed(regions: Map<u16, Seq<u8>>, region: u16, size: nat, offset: u64)
    requires
        offset < size,
        size <= MAX_REGION_BYTES,
        usize::BITS == 64,
    ensures
        spec_read(regions.insert(region, Seq::new(size, |i: int| 0u8)), spec_virtual_addr(region, offset))
            == Ok::<u8, HeapError>(0u8),
{
    lemma_virtual_addr_parts(region, offset);
}

/// A freed region cannot be read and cannot be freed a second time.
pub proof fn law_freed_region_is_gone(regions: Map<u16, Seq<u8>>, pointer: usize)
    ensures
        !regions.remove(spec_region_of(pointer)).contains_key(spec_region_of(pointer)),
        spec_read(regions.remove(spec_region_of(pointer)), pointer) == Err::<u8, HeapError>(HeapError::RegionNotFound),
{
}

/// After a successful fill, every byte of the range reads the fill value and
/// every byte outside it is unchanged.
pub proof fn law_read_after_memset(regions: Map<u16, Seq<u8>>, pointer: usize, fill: u8, count: int, other: usize)
    requires
        spec_memset(regions, pointer, fill, count).0 is Ok,
        count >= 0,
    ensures
        spec_region_of(other) == spec_region_of(pointer) && spec_offset_of(pointer) <= spec_offset_of(other)
            < spec_offset_of(pointer) + count ==> spec_read(spec_memset(regions, pointer, fill, count).1, other)
            == Ok::<u8, HeapError>(fill),
        !(spec_region_of(other) == spec_region_of(pointer) && spec_offset_of(pointer) <= spec_offset_of(other)
            < spec_offset_of(pointer) + count) ==> spec_read(spec_memset(regions, pointer, fill, count).1, other)
            == spec_read(regions, other),
{
}

/// After a successful copy, the byte at offset `k` of the destination range
/// reads what the byte at offset `k` of the source range held before.
pub proof fn law_read_after_memcpy(regions: Map<u16, Seq<u8>>, dest: usize, src: usize, count: int, k: int)
    requires
        spec_memcpy(regions, dest, src, count).0 is Ok,
        0 <= k < count,
        forall|r: u16| #[trigger] regions.contains_key(r) ==> regions[r].len() < MAX_REGION_BYTES,
        dest + k <= usize::MAX,
        src + k <= usize::MAX,
    ensures
        spec_read(spec_memcpy(regions, dest, src, count).1, (dest + k) as usize) == spec_read(regions, (src + k) as usize),
{
    lemma_offset_add(dest, k as u64);
    lemma_offset_add(src, k as u64);
}

/// Moving forward within a region keeps the region and adds to the offset.
pub proof fn lemma_offset_add(pointer: usize, k: u64)
    requires
        spec_offset_of(pointer) + k < MAX_REGION_BYTES,
        pointer + k <= usize::MAX,
    ensures
        spec_region_of((pointer + k) as usize) == spec_region_of(pointer),
        spec_offset_of((pointer + k) as usize) == spec_offset_of(pointer) + k,
{
    lemma_address_parts(pointer);
    let p = pointer as u64;
    let q = (pointer + k) as usize as u64;
    assert(q == p + k);
    assert((p & 0x0000_FFFF_FFFF_FFFFu64) + k < 0x0001_0000_0000_0000u64 && q == p + k ==> (q >> 48u64) == (p >> 48u64)
        && (q & 0x0000_FFFF_FFFF_FFFFu64) == (p & 0x0000_FFFF_FFFF_FFFFu64) + k) by (bit_vector);
}

/// A word written at an address is what a word read at that address then gives.
pub proof fn law_read_word_after_write_word(regions: Map<u16, Seq<u8>>, pointer: usize, value: u64)
    requires
        spec_write_word(regions, pointer, value).0 is Ok,
        pointer + 8 <= usize::MAX,
    ensures
        spec_read_word(spec_write_word(regions, pointer, value).1, pointer) == Ok::<u64, HeapError>(value),
{
    lemma_word_offsets(pointer);
    let after = spec_write_word(regions, pointer, value).1;
    assert(spec_bytes_at(after, pointer, 8) =~= le_bytes(value));
    let w = choose|w: u64| le_bytes(w) == spec_bytes_at(after, pointer, 8);
    lemma_le_bytes_injective(w, value);
}

/// A run of allocations on a fresh heap, one per size: the regions and next
/// region after it, how many succeeded, and each call's result.
pub open spec fn malloc_run(sizes: Seq<usize>) -> (Map<u16, Seq<u8>>, u16, nat, Seq<Result<usize, HeapError>>)
    decreases sizes.len(),
{
    if sizes.len() == 0 {
        (Map::empty(), 0, 0, Seq::empty())
    } else {
        let before = malloc_run(sizes.drop_last());
        let m = spec_malloc(before.0, before.1, sizes.last());
        (m.1, m.2, before.2 + if m.0 is Ok { 1nat } else { 0nat }, before.3.push(m.0))
    }
}

/// The region the next allocation tries after `k` successful ones.
proof fn lemma_malloc_run_next(sizes: Seq<usize>)
    ensures
        malloc_run(sizes).1 == (malloc_run(sizes).2 % 0x1_0000) as u16,
        malloc_run(sizes).3.len() == sizes.len(),
    decreases sizes.len(),
{
    if sizes.len() > 0 {
        lemma_malloc_run_next(sizes.drop_last());
    }
}

/// Allocations on a fresh heap take the regions in turn: the allocation
/// that succeeds after `k` others returns the first address of region
/// `k mod 2^16`. A failed allocation takes no region.
pub proof fn law_malloc_takes_regions_in_turn(sizes: Seq<usize>, i: int)
    requires
        0 <= i < sizes.len(),
        malloc_run(sizes).3[i] is Ok,
    ensures
        malloc_run(sizes).3[i] == Ok::<usize, HeapError>(
            spec_virtual_addr((malloc_run(sizes.take(i)).2 % 0x1_0000) as u16, 0),
        ),
    decreases sizes.len(),
{
    lemma_malloc_run_next(sizes.take(i));
    lemma_malloc_run_next(sizes.drop_last());
    if i == sizes.len() - 1 {
        assert(sizes.take(i) =~= sizes.drop_last());
    } else {
        assert(sizes.drop_last().take(i) =~= sizes.take(i));
        assert(malloc_run(sizes).3[i] == malloc_run(sizes.drop_last()).3[i]);
        law_malloc_takes_regions_in_turn(sizes.drop_last(), i);
    }
}

} // verus!
