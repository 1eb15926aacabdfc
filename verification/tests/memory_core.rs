use lycrex_tool::common::error::SystemError;
use lycrex_tool::common::types::MemoryPermission;
use lycrex_tool::memory::capability::{NativeOpenOutcome, open_capability};
use lycrex_tool::memory::instance::ProcessInstance;
use lycrex_tool::memory::locator::{find_main_module_from_address, find_main_module_by_vm_region,
    get_main_module_base_address, calculate_text_base_address};
use lycrex_tool::memory::image::{parse_image_header, find_code_segment_vmaddr,
    find_data_segment_vmaddr, compute_load_slide, apply_load_slide};
use lycrex_tool::memory::resolver::{ProcessEntry, find_pid_in_snapshot, parse_first_pid};
use lycrex_tool::memory::target::TargetMemory;

fn le32(v: u32) -> [u8; 4] {
    v.to_le_bytes()
}

fn le64(v: u64) -> [u8; 8] {
    v.to_le_bytes()
}

/// A header block plus one code-segment command declaring `vmaddr`.
fn image_with_code_segment(vmaddr: u64) -> Vec<u8> {
    let mut bytes = Vec::new();
    bytes.extend_from_slice(&le32(0xfeedfacf)); // magic
    bytes.extend_from_slice(&le32(0x0100000c)); // cputype
    bytes.extend_from_slice(&le32(0)); // cpusubtype
    bytes.extend_from_slice(&le32(0x2)); // filetype: executable
    bytes.extend_from_slice(&le32(1)); // ncmds
    bytes.extend_from_slice(&le32(72)); // sizeofcmds
    bytes.extend_from_slice(&le32(0)); // flags
    bytes.extend_from_slice(&le32(0)); // reserved
    // one segment command
    bytes.extend_from_slice(&le32(0x19)); // LC_SEGMENT_64
    bytes.extend_from_slice(&le32(72)); // cmdsize
    let mut name = [0u8; 16];
    name[..7].copy_from_slice(b"__TEXT\0");
    bytes.extend_from_slice(&name);
    bytes.extend_from_slice(&le64(vmaddr));
    bytes.extend_from_slice(&le64(0x4000)); // vmsize
    bytes.extend_from_slice(&le64(0)); // fileoff
    bytes.extend_from_slice(&le64(0x4000)); // filesize
    bytes.extend_from_slice(&le32(5)); // maxprot
    bytes.extend_from_slice(&le32(5)); // initprot
    bytes.extend_from_slice(&le32(0)); // nsects
    bytes.extend_from_slice(&le32(0)); // flags
    bytes
}

fn padded(mut bytes: Vec<u8>, size: usize) -> Vec<u8> {
    while bytes.len() < size {
        bytes.push(0);
    }
    bytes
}

#[test]
fn locator_recovers_declared_address_plus_slide() {
    // A known header at a known address with a known slide: the image is
    // loaded at 0x10000 but declares its code segment at 0xF000.
    let declared: u64 = 0xF000;
    let loaded: usize = 0x10000;
    let mut mem = TargetMemory::new();
    assert!(mem.add_region(
        loaded,
        MemoryPermission::ReadExecute,
        padded(image_with_code_segment(declared), 0x2000),
    ));
    let slide = compute_load_slide(loaded, declared as usize);
    assert_eq!(slide, loaded - declared as usize);
    assert_eq!(apply_load_slide(declared as usize, slide), loaded);
    let base = find_main_module_from_address(&mem, loaded).expect("header should be found");
    assert_eq!(base, declared as usize + slide);
    assert_eq!(base, loaded);
    // The candidate probe also lands on it, since 0x10000 is a well-known
    // default base.
    assert_eq!(get_main_module_base_address(&mem).expect("candidate probe"), loaded);
}

#[test]
fn locator_falls_back_to_region_scan() {
    let declared: u64 = 0x4000;
    let loaded: usize = 0x5000;
    let mut mem = TargetMemory::new();
    assert!(mem.add_region(
        loaded,
        MemoryPermission::ReadExecute,
        padded(image_with_code_segment(declared), 0x1000),
    ));
    // No candidate address holds a header, so the region scan finds it.
    assert!(find_main_module_from_address(&mem, 0x10000).is_err());
    let scanned = find_main_module_by_vm_region(&mem).expect("scan should find the image");
    assert_eq!(scanned, loaded);
    assert_eq!(get_main_module_base_address(&mem).expect("region scan"), loaded);
}

#[test]
fn locator_fails_with_not_found_when_nothing_is_found() {
    // No candidate address and no scanned region holds a valid header:
    // discovery fails rather than inventing a base.
    let mem = TargetMemory::new();
    let r = get_main_module_base_address(&mem);
    assert!(matches!(r, Err(SystemError::NotFound(_))));
    // Construction fails the same way: no instance exists without a base.
    let r2 = ProcessInstance::new_by_pid(&mem, 1, NativeOpenOutcome::Granted(1));
    assert!(matches!(r2, Err(SystemError::NotFound(_))));
}

#[test]
fn locator_rejects_non_executable_image_kind() {
    // Same block but with a shared-library file type.
    let mut bytes = image_with_code_segment(0x1000);
    bytes[12..16].copy_from_slice(&le32(0x6)); // not MH_EXECUTE
    let mut mem = TargetMemory::new();
    assert!(mem.add_region(0x10000, MemoryPermission::ReadExecute, padded(bytes, 0x2000)));
    let r = find_main_module_from_address(&mem, 0x10000);
    assert!(matches!(r, Err(SystemError::NotFound(_))));
}

#[test]
fn header_parse_and_segment_walk() {
    let bytes = image_with_code_segment(0xABCD0000);
    let header = parse_image_header(&bytes).expect("full header");
    assert_eq!(header.magic, 0xfeedfacf);
    assert_eq!(header.filetype, 0x2);
    assert_eq!(header.ncmds, 1);
    assert_eq!(header.sizeofcmds, 72);
    assert!(header.is_executable_image());
    assert_eq!(find_code_segment_vmaddr(&bytes[32..], 1), Some(0xABCD0000));
    // A truncated block parses to nothing.
    assert!(parse_image_header(&bytes[..31]).is_none());
}

#[test]
fn segment_walk_finds_each_named_segment() {
    // A table of two segments: the code segment first, then a data
    // segment.
    let mut bytes = image_with_code_segment(0x1000);
    bytes[16..20].copy_from_slice(&le32(2)); // ncmds
    bytes[20..24].copy_from_slice(&le32(144)); // sizeofcmds
    bytes.extend_from_slice(&le32(0x19));
    bytes.extend_from_slice(&le32(72));
    let mut name = [0u8; 16];
    name[..7].copy_from_slice(b"__DATA\0");
    bytes.extend_from_slice(&name);
    bytes.extend_from_slice(&le64(0x8000));
    bytes.extend_from_slice(&[0u8; 40]);
    let table = &bytes[32..];
    assert_eq!(find_code_segment_vmaddr(table, 2), Some(0x1000));
    assert_eq!(find_data_segment_vmaddr(table, 2), Some(0x8000));
    assert_eq!(find_data_segment_vmaddr(&bytes[32..104], 1), None);
}

#[test]
fn calculate_text_base_handles_missing_table() {
    // A header whose command table cannot be read: the header address
    // itself stands as the base.
    let mut mem = TargetMemory::new();
    assert!(mem.add_region(0x10000, MemoryPermission::ReadExecute, vec![0u8; 0x20]));
    assert_eq!(calculate_text_base_address(&mem, 0x10000, 1, 72), 0x10000);
}

#[test]
fn read_truncates_at_region_end() {
    // A region with only 10 accessible bytes: a 20-byte read yields the 6
    // bytes that are there, not 20 and not an error.
    let mut mem = TargetMemory::new();
    assert!(mem.add_region(0x2000, MemoryPermission::ReadWrite, (0u8..10).collect()));
    let got = mem.read_at(0x2004, 20).expect("partial read succeeds");
    assert_eq!(got, vec![4, 5, 6, 7, 8, 9]);
    // An address in no region is an outright failure, distinguishable from
    // a partial transfer.
    let missing = mem.read_at(0x9999, 4);
    assert!(matches!(missing, Err(SystemError::MemoryError(_))));
}

#[test]
fn read_refuses_unreadable_region() {
    let mut mem = TargetMemory::new();
    assert!(mem.add_region(0x2000, MemoryPermission::Execute, vec![1, 2, 3, 4]));
    let r = mem.read_at(0x2000, 4);
    assert!(matches!(r, Err(SystemError::PermissionDenied(_))));
}

#[test]
fn write_reports_partial_transfer() {
    let mut mem = TargetMemory::new();
    assert!(mem.add_region(0x2000, MemoryPermission::ReadWrite, vec![0u8; 8]));
    // Only 4 of 6 bytes fit before the region ends.
    let written = mem.write_at(0x2004, &[9, 9, 9, 9, 9, 9]).expect("write reaches the region");
    assert_eq!(written, 4);
    let back = mem.read_at(0x2000, 8).expect("read back");
    assert_eq!(back, vec![0, 0, 0, 0, 9, 9, 9, 9]);
}

#[test]
fn resolver_not_found_and_first_match() {
    let entries = vec![
        ProcessEntry { pid: 1, name: "init".to_string() },
        ProcessEntry { pid: 4242, name: "tes.exe".to_string() },
        ProcessEntry { pid: 4243, name: "tes.exe".to_string() },
    ];
    // Zero matches fail with NotFound.
    let missing = find_pid_in_snapshot(&entries, "nosuch");
    assert!(matches!(missing, Err(SystemError::NotFound(_))));
    // Exactly one match returns that identifier.
    assert_eq!(find_pid_in_snapshot(&entries, "init").unwrap(), 1);
    // Several matches return the first, and repeated calls within one
    // snapshot agree.
    let first = find_pid_in_snapshot(&entries, "tes.exe").unwrap();
    let second = find_pid_in_snapshot(&entries, "tes.exe").unwrap();
    assert_eq!(first, 4242);
    assert_eq!(first, second);
    // Matching is case-sensitive.
    assert!(find_pid_in_snapshot(&entries, "Init").is_err());
}

#[test]
fn capability_denial_is_permission_denied() {
    // A refusal of rights is PermissionDenied, never another kind.
    let denied = open_capability(7, NativeOpenOutcome::Denied);
    assert!(matches!(denied, Err(SystemError::PermissionDenied(_))));
    let dead = open_capability(7, NativeOpenOutcome::NoSuchProcess);
    assert!(matches!(dead, Err(SystemError::ProcessError(_))));
    let granted = open_capability(7, NativeOpenOutcome::Granted(99)).unwrap();
    assert_eq!(granted.pid(), 7);
    assert_eq!(granted.token(), 99);
    // Releasing consumes the handle; the token comes back exactly once.
    assert_eq!(granted.release(), 99);
}

#[test]
fn instance_round_trip_and_release() {
    let declared: u64 = 0xF000;
    let loaded: usize = 0x10000;
    let mut mem = TargetMemory::new();
    assert!(mem.add_region(
        loaded,
        MemoryPermission::ReadWriteExecute,
        padded(image_with_code_segment(declared), 0x2000),
    ));
    let entries = vec![ProcessEntry { pid: 4242, name: "tes.exe".to_string() }];
    let inst = ProcessInstance::new_by_name(&mem, &entries, "tes.exe", NativeOpenOutcome::Granted(5))
        .expect("instance");
    assert_eq!(inst.pid(), 4242);
    assert_eq!(inst.base_addr(), loaded);
    assert_eq!(inst.name(), Some("tes.exe"));
    // Write then read back: equality exactly because the reported count
    // equals the payload length.
    let result = inst.write_u32(&mut mem, 0x100, 666).expect("write");
    assert!(result.success);
    assert_eq!(result.bytes_processed, 4);
    assert!(result.error_message.is_none());
    assert_eq!(inst.read_u32(&mem, 0x100).unwrap(), 666);
    let bytes = inst.read_memory(&mem, 0x100, 16).expect("read");
    assert!(!bytes.is_empty());
    assert_eq!(&bytes[..4], &666u32.to_le_bytes());
    // Absolute-address variants agree with offset-relative ones.
    assert_eq!(inst.read_u32_at(&mem, loaded + 0x100).unwrap(), 666);
    // The 64-bit pair round-trips the same way.
    let r64 = inst.write_u64(&mut mem, 0x200, 0xDEAD_BEEF_CAFE_F00D).expect("write");
    assert!(r64.success);
    assert_eq!(r64.bytes_processed, 8);
    assert_eq!(inst.read_u64(&mem, 0x200).unwrap(), 0xDEAD_BEEF_CAFE_F00D);
    assert_eq!(inst.read_u64_at(&mem, loaded + 0x200).unwrap(), 0xDEAD_BEEF_CAFE_F00D);
    // Releasing consumes the instance and yields the native token exactly
    // once; further use does not compile.
    assert_eq!(inst.release(), 5);
}

#[test]
fn instance_write_partial_is_observable() {
    let loaded: usize = 0x10000;
    let mut mem = TargetMemory::new();
    assert!(mem.add_region(
        loaded,
        MemoryPermission::ReadWriteExecute,
        padded(image_with_code_segment(loaded as u64), 0x2000),
    ));
    let inst = ProcessInstance::new_by_pid(&mem, 1, NativeOpenOutcome::Granted(1)).expect("inst");
    assert_eq!(inst.base_addr(), loaded);
    // Only 4 of the 6 bytes fit before the region ends: the count says so
    // and the result is flagged as incomplete.
    let r = inst.write_memory(&mut mem, 0x2000 - 4, &[1, 2, 3, 4, 5, 6]).expect("reaches region");
    assert!(!r.success);
    assert_eq!(r.bytes_processed, 4);
    assert!(r.error_message.is_some());
    assert!(r.error_message.unwrap().contains("Only wrote 4 of 6 bytes"));
}

#[test]
fn instance_denied_maps_to_permission_denied() {
    let mem = TargetMemory::new();
    let entries = vec![ProcessEntry { pid: 1, name: "a".to_string() }];
    let r = ProcessInstance::new_by_name(&mem, &entries, "a", NativeOpenOutcome::Denied);
    assert!(matches!(r, Err(SystemError::PermissionDenied(_))));
    let r2 = ProcessInstance::new_by_name(&mem, &entries, "b", NativeOpenOutcome::Denied);
    assert!(matches!(r2, Err(SystemError::NotFound(_))));
}

#[test]
fn parse_first_pid_reads_first_line() {
    assert_eq!(parse_first_pid("1234\n5678\n"), Some(1234));
    assert_eq!(parse_first_pid("42"), Some(42));
    assert_eq!(parse_first_pid("abc\n"), None);
    assert_eq!(parse_first_pid(""), None);
    assert_eq!(parse_first_pid("99999999999999"), None);
}
