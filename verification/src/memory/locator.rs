//! The image base locator: finds the load address of a target's main
//! executable image by probing candidate addresses for a valid image header,
//! parsing its command table, and correcting the code segment's declared
//! address by the ASLR slide; falls back to a bounded scan of the target's
//! memory regions.

use vstd::prelude::*;
use crate::common::error::SystemError;
use crate::common::types::spec_allows_execute;
use crate::memory::image::{IMAGE_HEADER_SIZE, parse_image_header, find_code_segment_vmaddr,
    compute_load_slide, apply_load_slide, spec_is_executable_header, spec_header_ncmds,
    spec_header_sizeofcmds, spec_find_code_segment, spec_load_slide, spec_apply_slide,
    lemma_slide_round_trip};
use crate::memory::target::TargetMemory;

verus! {

/// How many memory regions the fallback scan inspects at most, so that it
/// terminates on pathological address spaces.
pub const MAX_REGIONS_TO_CHECK: usize = 100;

/// The smallest region the fallback scan considers a plausible image start.
pub const MIN_SCAN_REGION_SIZE: usize = 0x1000;

/// The corrected code-segment base computed from a header found at
/// `header_addr`: the declared address of the code segment, plus the slide
/// `header_addr - declared`.  When the command table cannot be read or holds
/// no code segment, the header address itself stands as the base.
pub open spec fn spec_text_base(
    mem: TargetMemory,
    header_addr: usize,
    ncmds: u32,
    sizeofcmds: u32,
) -> usize {
    if header_addr > usize::MAX - IMAGE_HEADER_SIZE {
        header_addr
    } else {
        match mem.spec_read(header_addr + IMAGE_HEADER_SIZE, sizeofcmds as int) {
            None => header_addr,
            Some(cmds) => match spec_find_code_segment(cmds, ncmds as int) {
                None => header_addr,
                Some(v) => spec_apply_slide(
                    v as usize,
                    spec_load_slide(header_addr, v as usize),
                ),
            },
        }
    }
}

/// What probing `start` finds: `None` when no full executable header lies
/// there (unreadable, truncated, wrong magic or not an executable image),
/// otherwise the corrected code-segment base.
pub open spec fn spec_locate_from(mem: TargetMemory, start: usize) -> Option<usize> {
    match mem.spec_read(start as int, IMAGE_HEADER_SIZE as int) {
        None => None,
        Some(hdr) => if !spec_is_executable_header(hdr) {
            None
        } else {
            Some(
                spec_text_base(mem, start, spec_header_ncmds(hdr), spec_header_sizeofcmds(hdr)),
            )
        },
    }
}

/// Computes the actual base of the code segment from a header at
/// `header_addr`: reads the command table, walks it for the code segment's
/// declared address `V`, and returns `V + slide` where
/// `slide = header_addr - V`.  When the table cannot be read or holds no
/// code segment, the header address stands.
pub fn calculate_text_base_address(
    mem: &TargetMemory,
    header_addr: usize,
    ncmds: u32,
    sizeofcmds: u32,
) -> (r: usize)
    ensures
        r == spec_text_base(*mem, header_addr, ncmds, sizeofcmds),
{
    if header_addr > usize::MAX - IMAGE_HEADER_SIZE {
        return header_addr;
    }
    let cmd_data = match mem.read_at(header_addr + IMAGE_HEADER_SIZE, sizeofcmds as usize) {
        Ok(d) => d,
        Err(_) => {
            return header_addr;
        },
    };
    match find_code_segment_vmaddr(cmd_data.as_slice(), ncmds) {
        Some(vmaddr) => {
            let declared = vmaddr as usize;
            let slide = compute_load_slide(header_addr, declared);
            apply_load_slide(declared, slide)
        },
        None => header_addr,
    }
}

/// Probes `start_addr` for the main module: reads a header-sized block, and
/// if it is a valid executable-image header, computes the code segment's
/// corrected base.  Fails with `NotFound` when no valid header lies there;
/// a truncated read counts as no header, not as a fault.
pub fn find_main_module_from_address(mem: &TargetMemory, start_addr: usize) -> (r: Result<
    usize,
    SystemError,
>)
    ensures
        match spec_locate_from(*mem, start_addr) {
            Some(b) => r matches Ok(v) && v == b,
            None => r matches Err(e) && e is NotFound,
        },
{
    proof {
        reveal_strlit("no valid image header at the address");
    }
    let header_data = match mem.read_at(start_addr, IMAGE_HEADER_SIZE) {
        Ok(d) => d,
        Err(_) => {
            return Err(
                SystemError::NotFound(String::from_str("no valid image header at the address")),
            );
        },
    };
    match parse_image_header(header_data.as_slice()) {
        Some(header) => {
            if header.is_executable_image() {
                Ok(calculate_text_base_address(mem, start_addr, header.ncmds, header.sizeofcmds))
            } else {
                Err(
                    SystemError::NotFound(
                        String::from_str("no valid image header at the address"),
                    ),
                )
            }
        },
        None => Err(
            SystemError::NotFound(String::from_str("no valid image header at the address")),
        ),
    }
}

/// What the bounded region scan finds from region `i` on with `budget`
/// probes left: the corrected base from the first executable region of
/// plausible size whose base holds a valid header.
pub open spec fn spec_scan_regions(mem: TargetMemory, i: int, budget: int) -> Option<usize>
    decreases budget,
{
    if budget <= 0 || i >= mem.regions@.len() {
        None
    } else {
        let reg = mem.regions@[i];
        if spec_allows_execute(reg.protection) && reg.bytes@.len() >= MIN_SCAN_REGION_SIZE
            && spec_locate_from(mem, reg.base) is Some {
            spec_locate_from(mem, reg.base)
        } else {
            spec_scan_regions(mem, i + 1, budget - 1)
        }
    }
}

/// Scans the target's memory regions in ascending order — at most
/// [`MAX_REGIONS_TO_CHECK`] of them — probing each executable region of at
/// least [`MIN_SCAN_REGION_SIZE`] bytes for a valid image header.  Fails
/// with `NotFound` when no probed region yields one.
pub fn find_main_module_by_vm_region(mem: &TargetMemory) -> (r: Result<usize, SystemError>)
    ensures
        match spec_scan_regions(*mem, 0, MAX_REGIONS_TO_CHECK as int) {
            Some(b) => r matches Ok(v) && v == b,
            None => r matches Err(e) && e is NotFound,
        },
{
    proof {
        reveal_strlit("no probed region holds a valid image header");
    }
    let n = mem.regions.len();
    let mut i: usize = 0;
    let mut budget: usize = MAX_REGIONS_TO_CHECK;
    while i < n && budget > 0
        invariant
            n == mem.regions@.len(),
            0 <= i <= n,
            0 <= budget <= MAX_REGIONS_TO_CHECK,
            spec_scan_regions(*mem, 0, MAX_REGIONS_TO_CHECK as int) == spec_scan_regions(
                *mem,
                i as int,
                budget as int,
            ),
        decreases n - i,
    {
        let candidate = mem.regions[i].protection.allows_execute() && mem.regions[i].bytes.len()
            >= MIN_SCAN_REGION_SIZE;
        if candidate {
            let base = mem.regions[i].base;
            match find_main_module_from_address(mem, base) {
                Ok(b) => {
                    return Ok(b);
                },
                Err(_) => {},
            }
        }
        i = i + 1;
        budget = budget - 1;
    }
    Err(SystemError::NotFound(String::from_str("no probed region holds a valid image header")))
}

/// The candidate start addresses probed before any region scan: well-known
/// default load bases, highest first.
pub open spec fn spec_candidate_addresses() -> Seq<u64> {
    seq![0x100000000u64, 0x10000u64, 0x1000u64]
}

/// What probing the candidate list from position `i` finds.  A candidate
/// beyond the address range is skipped.
pub open spec fn spec_try_candidates(mem: TargetMemory, i: int) -> Option<usize>
    decreases spec_candidate_addresses().len() - i when 0 <= i
        <= spec_candidate_addresses().len()
{
    if i >= spec_candidate_addresses().len() {
        None
    } else {
        let c = spec_candidate_addresses()[i];
        if c <= usize::MAX as u64 && spec_locate_from(mem, c as usize) is Some {
            spec_locate_from(mem, c as usize)
        } else {
            spec_try_candidates(mem, i + 1)
        }
    }
}

/// The base address the locator settles on: the first candidate address
/// holding a valid header, else the first hit of the bounded region scan.
/// `None` when neither yields a valid header: discovery has failed.
pub open spec fn spec_main_module_base(mem: TargetMemory) -> Option<usize> {
    match spec_try_candidates(mem, 0) {
        Some(b) => Some(b),
        None => spec_scan_regions(mem, 0, MAX_REGIONS_TO_CHECK as int),
    }
}

/// Probes one candidate address, skipping it when it lies beyond the
/// address range.
fn try_candidate(mem: &TargetMemory, c: u64) -> (r: Option<usize>)
    ensures
        match r {
            Some(b) => c <= usize::MAX as u64 && spec_locate_from(*mem, c as usize) == Some(b),
            None => c > usize::MAX as u64 || spec_locate_from(*mem, c as usize) is None,
        },
{
    if c > usize::MAX as u64 {
        return None;
    }
    match find_main_module_from_address(mem, c as usize) {
        Ok(b) => Some(b),
        Err(_) => None,
    }
}

/// Finds the load address of the target's main executable image: probes the
/// well-known candidate addresses, then falls back to the bounded region
/// scan.  Fails with `NotFound` when no candidate address and no probed
/// region yields a valid header: base-address discovery never invents a
/// base.
pub fn get_main_module_base_address(mem: &TargetMemory) -> (r: Result<usize, SystemError>)
    ensures
        match spec_main_module_base(*mem) {
            Some(b) => r matches Ok(v) && v == b,
            None => r matches Err(e) && e is NotFound,
        },
{
    match try_candidate(mem, 0x100000000u64) {
        Some(b) => {
            return Ok(b);
        },
        None => {},
    }
    proof {
        assert(spec_try_candidates(*mem, 0) == spec_try_candidates(*mem, 1));
    }
    match try_candidate(mem, 0x10000u64) {
        Some(b) => {
            proof {
                assert(spec_try_candidates(*mem, 1) == spec_locate_from(*mem, 0x10000u64 as usize));
            }
            return Ok(b);
        },
        None => {},
    }
    proof {
        assert(spec_try_candidates(*mem, 1) == spec_try_candidates(*mem, 2));
    }
    match try_candidate(mem, 0x1000u64) {
        Some(b) => {
            proof {
                assert(spec_try_candidates(*mem, 2) == spec_locate_from(*mem, 0x1000u64 as usize));
            }
            return Ok(b);
        },
        None => {},
    }
    proof {
        assert(spec_try_candidates(*mem, 2) == spec_try_candidates(*mem, 3));
        assert(spec_try_candidates(*mem, 0) is None);
    }
    find_main_module_by_vm_region(mem)
}

/// The locator recovers exactly `declared_address + slide`: when a valid
/// executable header lies at `header_addr` and its command table names a
/// code segment declared at `declared`, probing `header_addr` yields
/// `declared + (header_addr - declared)` — the live header address itself.
pub proof fn lemma_locator_recovers_slide(mem: TargetMemory, header_addr: usize, declared: u64)
    requires
        header_addr <= usize::MAX - IMAGE_HEADER_SIZE,
        mem.spec_read(header_addr as int, IMAGE_HEADER_SIZE as int) matches Some(hdr) && {
            &&& spec_is_executable_header(hdr)
            &&& mem.spec_read(
                header_addr + IMAGE_HEADER_SIZE,
                spec_header_sizeofcmds(hdr) as int,
            ) matches Some(cmds)
            &&& spec_find_code_segment(cmds, spec_header_ncmds(hdr) as int) == Some(declared)
        },
    ensures
        spec_locate_from(mem, header_addr) == Some(
            spec_apply_slide(
                declared as usize,
                spec_load_slide(header_addr, declared as usize),
            ),
        ),
        spec_locate_from(mem, header_addr) == Some(header_addr),
{
    lemma_slide_round_trip(header_addr, declared as usize);
}

} // verus!
