//! Executable-image header and segment-table parsing.
//!
//! The main module of a 64-bit process starts with a fixed-size header
//! (magic number, image kind, command count, command-table size) followed by
//! a table of variable-length load commands.  The code segment's entry in
//! that table carries the declared (link-time) virtual address from which the
//! ASLR load slide is computed.

use vstd::prelude::*;
use crate::memory::utils::{spec_le_u32, spec_le_u64};

verus! {

/// Magic number of a 64-bit image header.
pub const MH_MAGIC_64: u32 = 0xfeedfacf;

/// Image kind: main executable (not a shared library).
pub const MH_EXECUTE: u32 = 0x2;

/// Load-command tag of a 64-bit segment entry.
pub const LC_SEGMENT_64: u32 = 0x19;

/// Byte size of the fixed image header.
pub const IMAGE_HEADER_SIZE: usize = 32;

/// Byte size of a full 64-bit segment load command.
pub const SEGMENT_COMMAND_SIZE: usize = 72;

/// The parsed leading bytes of an executable image: magic number, image
/// kind, command count and total command-table size.  Transient: read from
/// the target's memory, never persisted.
pub struct ImageHeader {
    pub magic: u32,
    pub filetype: u32,
    pub ncmds: u32,
    pub sizeofcmds: u32,
}

/// One entry of the image's segment table: name, declared virtual address
/// and declared size.  The declared address differs from the runtime address
/// under ASLR.
pub struct SegmentDescriptor {
    pub name: Vec<u8>,
    pub vmaddr: u64,
    pub vmsize: u64,
}

/// The `magic` field of a header block.
pub open spec fn spec_header_magic(s: Seq<u8>) -> u32 {
    spec_le_u32(s.subrange(0, 4))
}

/// The `filetype` field of a header block.
pub open spec fn spec_header_filetype(s: Seq<u8>) -> u32 {
    spec_le_u32(s.subrange(12, 16))
}

/// The `ncmds` field of a header block.
pub open spec fn spec_header_ncmds(s: Seq<u8>) -> u32 {
    spec_le_u32(s.subrange(16, 20))
}

/// The `sizeofcmds` field of a header block.
pub open spec fn spec_header_sizeofcmds(s: Seq<u8>) -> u32 {
    spec_le_u32(s.subrange(20, 24))
}

/// True when a header block is long enough and marks the start of a main
/// executable image: correct magic number and executable image kind.
pub open spec fn spec_is_executable_header(s: Seq<u8>) -> bool {
    &&& s.len() >= IMAGE_HEADER_SIZE
    &&& spec_header_magic(s) == MH_MAGIC_64
    &&& spec_header_filetype(s) == MH_EXECUTE
}

/// Reads the little-endian `u32` at byte offset `off`.
fn le_u32_at(bytes: &[u8], off: usize) -> (r: u32)
    requires
        off + 4 <= bytes@.len(),
    ensures
        r == spec_le_u32(bytes@.subrange(off as int, off + 4)),
{
    let b0 = bytes[off] as u32;
    let b1 = bytes[off + 1] as u32;
    let b2 = bytes[off + 2] as u32;
    let b3 = bytes[off + 3] as u32;
    proof {
        assert(bytes@.subrange(off as int, off + 4)[0] == bytes@[off as int]);
        assert(bytes@.subrange(off as int, off + 4)[1] == bytes@[off + 1]);
        assert(bytes@.subrange(off as int, off + 4)[2] == bytes@[off + 2]);
        assert(bytes@.subrange(off as int, off + 4)[3] == bytes@[off + 3]);
    }
    b0 + b1 * 0x100 + b2 * 0x10000 + b3 * 0x1000000
}

/// Reads the little-endian `u64` at byte offset `off`.
fn le_u64_at(bytes: &[u8], off: usize) -> (r: u64)
    requires
        off + 8 <= bytes@.len(),
    ensures
        r == spec_le_u64(bytes@.subrange(off as int, off + 8)),
{
    let b0 = bytes[off] as u64;
    let b1 = bytes[off + 1] as u64;
    let b2 = bytes[off + 2] as u64;
    let b3 = bytes[off + 3] as u64;
    let b4 = bytes[off + 4] as u64;
    let b5 = bytes[off + 5] as u64;
    let b6 = bytes[off + 6] as u64;
    let b7 = bytes[off + 7] as u64;
    proof {
        let s = bytes@.subrange(off as int, off + 8);
        assert(s[0] == bytes@[off as int]);
        assert(s[1] == bytes@[off + 1]);
        assert(s[2] == bytes@[off + 2]);
        assert(s[3] == bytes@[off + 3]);
        assert(s[4] == bytes@[off + 4]);
        assert(s[5] == bytes@[off + 5]);
        assert(s[6] == bytes@[off + 6]);
        assert(s[7] == bytes@[off + 7]);
    }
    b0 + b1 * 0x100 + b2 * 0x10000 + b3 * 0x1000000 + b4 * 0x100000000 + b5 * 0x10000000000 + b6
        * 0x1000000000000 + b7 * 0x100000000000000
}

/// Parses the fixed image header from the head of `bytes`.  `None` when the
/// buffer is shorter than a header, as happens after a truncated read.
pub fn parse_image_header(bytes: &[u8]) -> (r: Option<ImageHeader>)
    ensures
        r is Some <==> bytes@.len() >= IMAGE_HEADER_SIZE,
        r matches Some(h) ==> {
            &&& h.magic == spec_header_magic(bytes@)
            &&& h.filetype == spec_header_filetype(bytes@)
            &&& h.ncmds == spec_header_ncmds(bytes@)
            &&& h.sizeofcmds == spec_header_sizeofcmds(bytes@)
        },
{
    if bytes.len() < IMAGE_HEADER_SIZE {
        return None;
    }
    let magic = le_u32_at(bytes, 0);
    let filetype = le_u32_at(bytes, 12);
    let ncmds = le_u32_at(bytes, 16);
    let sizeofcmds = le_u32_at(bytes, 20);
    Some(ImageHeader { magic, filetype, ncmds, sizeofcmds })
}

impl ImageHeader {
    /// True when this header marks a main executable image.
    pub fn is_executable_image(&self) -> (r: bool)
        ensures
            r == (self.magic == MH_MAGIC_64 && self.filetype == MH_EXECUTE),
    {
        self.magic == MH_MAGIC_64 && self.filetype == MH_EXECUTE
    }
}

/// The name bytes a code-segment entry starts with: `__TEXT` and a
/// terminating zero.
pub open spec fn spec_code_segment_name() -> Seq<u8> {
    seq![0x5fu8, 0x5fu8, 0x54u8, 0x45u8, 0x58u8, 0x54u8, 0x00u8]
}

/// The name bytes a data-segment entry starts with: `__DATA` and a
/// terminating zero.
pub open spec fn spec_data_segment_name() -> Seq<u8> {
    seq![0x5fu8, 0x5fu8, 0x44u8, 0x41u8, 0x54u8, 0x41u8, 0x00u8]
}

/// True when the table entry at `offset` is a segment load command carrying
/// the given name prefix: tagged `LC_SEGMENT_64`, fully contained in the
/// table, with a name starting with `name`.
pub open spec fn spec_entry_is_segment_named(data: Seq<u8>, offset: int, name: Seq<u8>) -> bool {
    &&& offset + SEGMENT_COMMAND_SIZE <= data.len()
    &&& spec_le_u32(data.subrange(offset, offset + 4)) == LC_SEGMENT_64
    &&& data.subrange(offset + 8, offset + 8 + name.len() as int) == name
}

/// The declared virtual address carried by the segment entry at `offset`.
pub open spec fn spec_entry_vmaddr(data: Seq<u8>, offset: int) -> u64 {
    spec_le_u64(data.subrange(offset + 24, offset + 32))
}

/// The declared size carried by the segment entry at `offset`.
pub open spec fn spec_entry_vmsize(data: Seq<u8>, offset: int) -> u64 {
    spec_le_u64(data.subrange(offset + 32, offset + 40))
}

/// The size field of the load command at `offset`, by which the walk
/// advances to the next entry.
pub open spec fn spec_entry_cmdsize(data: Seq<u8>, offset: int) -> u32 {
    spec_le_u32(data.subrange(offset + 4, offset + 8))
}

/// The declared virtual address of the first segment named `name` found by
/// walking the command table from byte `offset` for `ncmds` remaining
/// entries, each advance taking the entry's own size.
pub open spec fn spec_find_segment_from(
    data: Seq<u8>,
    ncmds: int,
    offset: int,
    name: Seq<u8>,
) -> Option<u64>
    decreases ncmds,
{
    if ncmds <= 0 {
        None
    } else if offset < 0 || offset + 8 > data.len() {
        None
    } else if spec_entry_is_segment_named(data, offset, name) {
        Some(spec_entry_vmaddr(data, offset))
    } else {
        spec_find_segment_from(data, ncmds - 1, offset + spec_entry_cmdsize(data, offset), name)
    }
}

/// The declared address of the code segment of a command table, if the walk
/// finds one.
pub open spec fn spec_find_code_segment(data: Seq<u8>, ncmds: int) -> Option<u64> {
    spec_find_segment_from(data, ncmds, 0, spec_code_segment_name())
}

/// Compares `data[offset..offset + name.len()]` with `name`.
fn segment_name_matches(data: &[u8], offset: usize, name: &[u8]) -> (r: bool)
    requires
        offset + name@.len() <= data@.len(),
    ensures
        r == (data@.subrange(offset as int, offset + name@.len() as int) == name@),
{
    let n = data.len();
    let m = name.len();
    let mut k: usize = 0;
    while k < m
        invariant
            n == data@.len(),
            m == name@.len(),
            offset + m <= n,
            0 <= k <= m,
            forall|j: int| 0 <= j < k ==> data@[offset + j] == name@[j],
        decreases m - k,
    {
        if data[offset + k] != name[k] {
            assert(data@.subrange(offset as int, offset + name@.len() as int)[k as int]
                != name@[k as int]);
            return false;
        }
        k = k + 1;
    }
    assert(data@.subrange(offset as int, offset + name@.len() as int) =~= name@);
    true
}

/// Walks the command table and returns the declared virtual address of the
/// first segment whose name starts with `name`, or `None` when no entry
/// carries it.  Each entry holds its own size; the walk advances by that
/// size, not by a fixed stride.
pub fn find_segment_vmaddr(data: &[u8], ncmds: u32, name: &[u8]) -> (r: Option<u64>)
    requires
        name@.len() <= 16,
    ensures
        r == spec_find_segment_from(data@, ncmds as int, 0, name@),
{
    let n = data.len();
    let mut remaining: u32 = ncmds;
    let mut offset: usize = 0;
    loop
        invariant
            n == data@.len(),
            name@.len() <= 16,
            0 <= remaining <= ncmds,
            spec_find_segment_from(data@, ncmds as int, 0, name@) == spec_find_segment_from(
                data@,
                remaining as int,
                offset as int,
                name@,
            ),
        decreases remaining,
    {
        if remaining == 0 {
            return None;
        }
        if offset > n || n - offset < 8 {
            return None;
        }
        let cmd = le_u32_at(data, offset);
        let cmdsize = le_u32_at(data, offset + 4);
        if cmd == LC_SEGMENT_64 && n - offset >= SEGMENT_COMMAND_SIZE {
            if segment_name_matches(data, offset + 8, name) {
                proof {
                    assert(spec_entry_is_segment_named(data@, offset as int, name@));
                }
                let vmaddr = le_u64_at(data, offset + 24);
                return Some(vmaddr);
            }
        }
        proof {
            assert(!spec_entry_is_segment_named(data@, offset as int, name@)) by {
                if spec_entry_is_segment_named(data@, offset as int, name@) {
                    assert(spec_le_u32(data@.subrange(offset as int, offset + 4))
                        == LC_SEGMENT_64);
                    assert(offset + SEGMENT_COMMAND_SIZE <= n);
                    assert(data@.subrange(offset + 8, offset + 8 + name@.len() as int) == name@);
                }
            }
            assert(spec_find_segment_from(data@, remaining as int, offset as int, name@)
                == spec_find_segment_from(
                data@,
                remaining as int - 1,
                offset + spec_entry_cmdsize(data@, offset as int),
                name@,
            ));
        }
        let ghost target_offset: int = offset + spec_entry_cmdsize(data@, offset as int);
        remaining = remaining - 1;
        if cmdsize as usize > n - offset {
            offset = n;
            proof {
                assert(target_offset + 8 > data@.len());
                assert(spec_find_segment_from(data@, remaining as int, target_offset, name@)
                    is None);
                assert(spec_find_segment_from(data@, remaining as int, offset as int, name@)
                    is None);
            }
        } else {
            offset = offset + cmdsize as usize;
        }
    }
}

/// Walks the command table for the code segment's declared address.
pub fn find_code_segment_vmaddr(data: &[u8], ncmds: u32) -> (r: Option<u64>)
    ensures
        r == spec_find_code_segment(data@, ncmds as int),
{
    let name: [u8; 7] = [0x5f, 0x5f, 0x54, 0x45, 0x58, 0x54, 0x00];
    proof {
        assert(name@ =~= spec_code_segment_name());
    }
    find_segment_vmaddr(data, ncmds, name.as_slice())
}

/// Walks the command table for the data segment's declared address.
pub fn find_data_segment_vmaddr(data: &[u8], ncmds: u32) -> (r: Option<u64>)
    ensures
        r == spec_find_segment_from(data@, ncmds as int, 0, spec_data_segment_name()),
{
    let name: [u8; 7] = [0x5f, 0x5f, 0x44, 0x41, 0x54, 0x41, 0x00];
    proof {
        assert(name@ =~= spec_data_segment_name());
    }
    find_segment_vmaddr(data, ncmds, name.as_slice())
}

/// Parses the full segment entry at `offset` of the command table.  `None`
/// when the entry is not a segment command or does not fit in the table.
pub fn parse_segment_entry(data: &[u8], offset: usize) -> (r: Option<SegmentDescriptor>)
    ensures
        r is Some <==> (offset + SEGMENT_COMMAND_SIZE <= data@.len() && spec_le_u32(
            data@.subrange(offset as int, offset + 4),
        ) == LC_SEGMENT_64),
        r matches Some(d) ==> {
            &&& d.name@ == data@.subrange(offset + 8, offset + 24)
            &&& d.vmaddr == spec_entry_vmaddr(data@, offset as int)
            &&& d.vmsize == spec_entry_vmsize(data@, offset as int)
        },
{
    let n = data.len();
    if offset > n || n - offset < SEGMENT_COMMAND_SIZE {
        return None;
    }
    let cmd = le_u32_at(data, offset);
    if cmd != LC_SEGMENT_64 {
        return None;
    }
    let name = vstd::slice::slice_to_vec(vstd::slice::slice_subrange(data, offset + 8, offset
        + 24));
    let vmaddr = le_u64_at(data, offset + 24);
    let vmsize = le_u64_at(data, offset + 32);
    Some(SegmentDescriptor { name, vmaddr, vmsize })
}

/// The load slide of an image whose header was found at `loaded` but whose
/// code segment declares address `declared`: the wrapping difference
/// `loaded - declared`.
pub open spec fn spec_load_slide(loaded: usize, declared: usize) -> usize {
    if loaded - declared < 0 {
        (loaded - declared + (usize::MAX as int + 1)) as usize
    } else {
        (loaded - declared) as usize
    }
}

/// A declared address corrected by a slide: the wrapping sum.
pub open spec fn spec_apply_slide(declared: usize, slide: usize) -> usize {
    if declared + slide > usize::MAX {
        (declared + slide - (usize::MAX as int + 1)) as usize
    } else {
        (declared + slide) as usize
    }
}

/// Computes the ASLR load slide: runtime load address minus declared
/// virtual address, wrapping.
pub fn compute_load_slide(loaded: usize, declared: usize) -> (r: usize)
    ensures
        r == spec_load_slide(loaded, declared),
{
    loaded.wrapping_sub(declared)
}

/// Applies a load slide to a declared address, wrapping.
pub fn apply_load_slide(declared: usize, slide: usize) -> (r: usize)
    ensures
        r == spec_apply_slide(declared, slide),
{
    declared.wrapping_add(slide)
}

/// Correcting the declared address by the slide computed from it recovers
/// exactly the loaded address: `declared + (loaded - declared) == loaded`.
pub proof fn lemma_slide_round_trip(loaded: usize, declared: usize)
    ensures
        spec_apply_slide(declared, spec_load_slide(loaded, declared)) == loaded,
{
}

} // verus!
