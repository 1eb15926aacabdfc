//! The process instance: the public-facing object composing resolution,
//! capability acquisition, the image base locator and raw memory I/O into
//! an offset-relative API with typed accessors.
//!
//! The base address is located once, at construction, and never changes for
//! the lifetime of the instance.  The capability handle is owned
//! exclusively and given back by [`ProcessInstance::release`], which
//! consumes the instance: use after release does not compile.

use vstd::prelude::*;
use vstd::utf8::{valid_utf8, decode_utf8};
use crate::common::error::SystemError;
use crate::common::types::MemoryOperationResult;
use crate::memory::capability::{CapabilityHandle, NativeOpenOutcome, open_capability};
use crate::memory::locator::{get_main_module_base_address, spec_main_module_base};
use crate::memory::resolver::{ProcessEntry, find_pid_in_snapshot, spec_resolution};
use crate::memory::target::{TargetMemory, spec_wrote, lemma_wrote_preserves_find_region,
    lemma_region_at_found};
use crate::memory::utils::{bytes_to_u32, bytes_to_u64, bytes_to_utf8_string, spec_le_u32,
    spec_le_u64, spec_null_prefix, spec_u32_le_bytes, spec_u64_le_bytes, u32_to_le_vec,
    u64_to_le_vec, lemma_u32_le_round_trip, lemma_u64_le_round_trip};
use crate::text::usize_to_dec;

verus! {

/// A handle-owning view of one target process: its identifier, its
/// (optional) name, the located base address of its main executable image,
/// and the capability handle that grants access.
pub struct ProcessInstance {
    pid: u32,
    name: Option<String>,
    base_address: usize,
    capability: CapabilityHandle,
}

/// What a typed read of `width` bytes at `addr` yields when the underlying
/// read succeeds: the little-endian value of the bytes, or zero when fewer
/// than `width` arrived.
pub open spec fn spec_read_le32(mem: TargetMemory, addr: int) -> Option<u32> {
    match mem.spec_read(addr, 4) {
        None => None,
        Some(d) => Some(
            if d.len() >= 4 {
                spec_le_u32(d)
            } else {
                0u32
            },
        ),
    }
}

/// The 64-bit counterpart of [`spec_read_le32`].
pub open spec fn spec_read_le64(mem: TargetMemory, addr: int) -> Option<u64> {
    match mem.spec_read(addr, 8) {
        None => None,
        Some(d) => Some(
            if d.len() >= 8 {
                spec_le_u64(d)
            } else {
                0u64
            },
        ),
    }
}

impl ProcessInstance {
    /// The identifier of the target process.
    pub closed spec fn spec_pid(&self) -> u32 {
        self.pid
    }

    /// The name the instance was created by, if one was.
    pub closed spec fn spec_name(&self) -> Option<String> {
        self.name
    }

    /// The located base address of the main executable image; fixed for the
    /// lifetime of the instance.
    pub closed spec fn spec_base(&self) -> usize {
        self.base_address
    }

    /// The capability handle's native token.
    pub closed spec fn spec_token(&self) -> u64 {
        self.capability.spec_token()
    }

    /// Builds an instance from an already-acquired capability handle,
    /// locating the main image's base address in the given address space.
    /// Fails with `NotFound` — and the capability is dropped — when
    /// base-address discovery finds no valid image header anywhere.
    pub fn attach(
        mem: &TargetMemory,
        pid: u32,
        name: Option<String>,
        capability: CapabilityHandle,
    ) -> (r: Result<ProcessInstance, SystemError>)
        ensures
            match spec_main_module_base(*mem) {
                Some(b) => r matches Ok(inst) && {
                    &&& inst.spec_pid() == pid
                    &&& inst.spec_name() == name
                    &&& inst.spec_base() == b
                    &&& inst.spec_token() == capability.spec_token()
                },
                None => r matches Err(e) && e is NotFound,
            },
    {
        let base_address = match get_main_module_base_address(mem) {
            Ok(b) => b,
            Err(e) => {
                return Err(e);
            },
        };
        Ok(ProcessInstance { pid, name, base_address, capability })
    }

    /// Creates an instance for the first live process with the given name:
    /// resolves the name in the snapshot, interprets the open outcome, and
    /// locates the base address.  Fails with `NotFound` when no process
    /// matches or when base-address discovery fails, `PermissionDenied`
    /// when the open was refused, and `ProcessError` when the process died
    /// before it could be opened.
    pub fn new_by_name(
        mem: &TargetMemory,
        entries: &Vec<ProcessEntry>,
        process_name: &str,
        outcome: NativeOpenOutcome,
    ) -> (r: Result<ProcessInstance, SystemError>)
        ensures
            match spec_resolution(entries@, process_name@) {
                None => r matches Err(e) && e is NotFound,
                Some(pid) => match outcome {
                    NativeOpenOutcome::Granted(token) => match spec_main_module_base(*mem) {
                        Some(b) => r matches Ok(inst) && {
                            &&& inst.spec_pid() == pid
                            &&& inst.spec_token() == token
                            &&& inst.spec_base() == b
                            &&& inst.spec_name() matches Some(n) && n@ == process_name@
                        },
                        None => r matches Err(e) && e is NotFound,
                    },
                    NativeOpenOutcome::Denied => r matches Err(e) && e is PermissionDenied,
                    NativeOpenOutcome::NoSuchProcess => r matches Err(e) && e is ProcessError,
                },
            },
    {
        let pid = match find_pid_in_snapshot(entries, process_name) {
            Ok(pid) => pid,
            Err(e) => {
                return Err(e);
            },
        };
        let capability = match open_capability(pid, outcome) {
            Ok(c) => c,
            Err(e) => {
                return Err(e);
            },
        };
        Self::attach(mem, pid, Some(process_name.to_owned()), capability)
    }

    /// Creates an instance for a known process identifier: interprets the
    /// open outcome and locates the base address.  Fails with `NotFound`
    /// when base-address discovery fails.
    pub fn new_by_pid(mem: &TargetMemory, pid: u32, outcome: NativeOpenOutcome) -> (r: Result<
        ProcessInstance,
        SystemError,
    >)
        ensures
            match outcome {
                NativeOpenOutcome::Granted(token) => match spec_main_module_base(*mem) {
                    Some(b) => r matches Ok(inst) && inst.spec_pid() == pid && inst.spec_token()
                        == token && inst.spec_base() == b && inst.spec_name() is None,
                    None => r matches Err(e) && e is NotFound,
                },
                NativeOpenOutcome::Denied => r matches Err(e) && e is PermissionDenied,
                NativeOpenOutcome::NoSuchProcess => r matches Err(e) && e is ProcessError,
            },
    {
        let capability = match open_capability(pid, outcome) {
            Ok(c) => c,
            Err(e) => {
                return Err(e);
            },
        };
        Self::attach(mem, pid, None, capability)
    }

    /// Reads at an offset from the base address.  An offset that would
    /// carry the address past the end of the address range fails with
    /// `MemoryError`; otherwise the read follows
    /// [`TargetMemory::read_at`]'s partial-transfer semantics.
    pub fn read_memory(&self, mem: &TargetMemory, offset: usize, size: usize) -> (r: Result<
        Vec<u8>,
        SystemError,
    >)
        ensures
            self.spec_base() + offset > usize::MAX ==> (r matches Err(e) && e is MemoryError),
            self.spec_base() + offset <= usize::MAX ==> match r {
                Ok(v) => mem.spec_read(self.spec_base() + offset, size as int) == Some(v@),
                Err(_) => mem.spec_read(self.spec_base() + offset, size as int) is None,
            },
    {
        proof {
            reveal_strlit("the offset lies past the end of the address range");
        }
        if offset > usize::MAX - self.base_address {
            return Err(
                SystemError::MemoryError(
                    String::from_str("the offset lies past the end of the address range"),
                ),
            );
        }
        mem.read_at(self.base_address + offset, size)
    }

    /// Reads at an absolute address, for callers that already hold a
    /// runtime address.
    pub fn read_memory_at(&self, mem: &TargetMemory, address: usize, size: usize) -> (r: Result<
        Vec<u8>,
        SystemError,
    >)
        ensures
            match r {
                Ok(v) => mem.spec_read(address as int, size as int) == Some(v@),
                Err(_) => mem.spec_read(address as int, size as int) is None,
            },
    {
        mem.read_at(address, size)
    }

    /// Writes at an offset from the base address.  The result reports how
    /// many bytes were moved; a count below `data.len()` is a partial
    /// write, flagged as unsuccessful with an explanatory message so the
    /// caller can decide whether to retry.
    pub fn write_memory(&self, mem: &mut TargetMemory, offset: usize, data: &[u8]) -> (r: Result<
        MemoryOperationResult,
        SystemError,
    >)
        requires
            old(mem).wf(),
        ensures
            final(mem).wf(),
            self.spec_base() + offset > usize::MAX ==> (r matches Err(e) && e is MemoryError
                && final(mem).regions@ == old(mem).regions@),
            self.spec_base() + offset <= usize::MAX ==> match r {
                Ok(res) => {
                    &&& spec_wrote(
                        *old(mem),
                        *final(mem),
                        self.spec_base() + offset,
                        data@,
                        res.bytes_processed as int,
                    )
                    &&& res.success == (res.bytes_processed == data@.len())
                    &&& res.bytes_processed <= data@.len()
                    &&& (res.success <==> res.error_message is None)
                },
                Err(e) => {
                    &&& e is MemoryError
                    &&& old(mem).spec_find_region(self.spec_base() + offset) is None
                    &&& final(mem).regions@ == old(mem).regions@
                },
            },
    {
        proof {
            reveal_strlit("the offset lies past the end of the address range");
            reveal_strlit("Only wrote ");
            reveal_strlit(" of ");
            reveal_strlit(" bytes");
        }
        if offset > usize::MAX - self.base_address {
            return Err(
                SystemError::MemoryError(
                    String::from_str("the offset lies past the end of the address range"),
                ),
            );
        }
        let written = match mem.write_at(self.base_address + offset, data) {
            Ok(w) => w,
            Err(e) => {
                return Err(e);
            },
        };
        if written == data.len() {
            Ok(
                MemoryOperationResult {
                    success: true,
                    bytes_processed: written,
                    error_message: None,
                },
            )
        } else {
            let mut msg = String::new();
            msg.append("Only wrote ");
            let w = usize_to_dec(written);
            msg.append(w.as_str());
            msg.append(" of ");
            let l = usize_to_dec(data.len());
            msg.append(l.as_str());
            msg.append(" bytes");
            Ok(
                MemoryOperationResult {
                    success: false,
                    bytes_processed: written,
                    error_message: Some(msg),
                },
            )
        }
    }

    /// Reads a little-endian `u32` at an offset from the base; a truncated
    /// transfer yields zero, as [`bytes_to_u32`] does.  An offset past the
    /// end of the address range fails with `MemoryError`.
    pub fn read_u32(&self, mem: &TargetMemory, offset: usize) -> (r: Result<u32, SystemError>)
        ensures
            self.spec_base() + offset > usize::MAX ==> (r matches Err(e) && e is MemoryError),
            self.spec_base() + offset <= usize::MAX ==> match r {
                Ok(v) => spec_read_le32(*mem, self.spec_base() + offset) == Some(v),
                Err(_) => spec_read_le32(*mem, self.spec_base() + offset) is None,
            },
    {
        let bytes = match self.read_memory(mem, offset, 4) {
            Ok(b) => b,
            Err(e) => {
                return Err(e);
            },
        };
        Ok(bytes_to_u32(bytes.as_slice()))
    }

    /// Reads a little-endian `u64` at an offset from the base; a truncated
    /// transfer yields zero, as [`bytes_to_u64`] does.  An offset past the
    /// end of the address range fails with `MemoryError`.
    pub fn read_u64(&self, mem: &TargetMemory, offset: usize) -> (r: Result<u64, SystemError>)
        ensures
            self.spec_base() + offset > usize::MAX ==> (r matches Err(e) && e is MemoryError),
            self.spec_base() + offset <= usize::MAX ==> match r {
                Ok(v) => spec_read_le64(*mem, self.spec_base() + offset) == Some(v),
                Err(_) => spec_read_le64(*mem, self.spec_base() + offset) is None,
            },
    {
        let bytes = match self.read_memory(mem, offset, 8) {
            Ok(b) => b,
            Err(e) => {
                return Err(e);
            },
        };
        Ok(bytes_to_u64(bytes.as_slice()))
    }

    /// Reads a little-endian `u32` at an absolute address.
    pub fn read_u32_at(&self, mem: &TargetMemory, address: usize) -> (r: Result<u32, SystemError>)
        ensures
            match r {
                Ok(v) => spec_read_le32(*mem, address as int) == Some(v),
                Err(_) => spec_read_le32(*mem, address as int) is None,
            },
    {
        let bytes = match self.read_memory_at(mem, address, 4) {
            Ok(b) => b,
            Err(e) => {
                return Err(e);
            },
        };
        Ok(bytes_to_u32(bytes.as_slice()))
    }

    /// Reads a little-endian `u64` at an absolute address.
    pub fn read_u64_at(&self, mem: &TargetMemory, address: usize) -> (r: Result<u64, SystemError>)
        ensures
            match r {
                Ok(v) => spec_read_le64(*mem, address as int) == Some(v),
                Err(_) => spec_read_le64(*mem, address as int) is None,
            },
    {
        let bytes = match self.read_memory_at(mem, address, 8) {
            Ok(b) => b,
            Err(e) => {
                return Err(e);
            },
        };
        Ok(bytes_to_u64(bytes.as_slice()))
    }

    /// Reads `size` bytes at an offset and decodes them as UTF-8 up to the
    /// first zero byte, as [`bytes_to_utf8_string`] does.  An offset past
    /// the end of the address range fails with `MemoryError`.
    pub fn read_utf8(&self, mem: &TargetMemory, offset: usize, size: usize) -> (r: Result<
        String,
        SystemError,
    >)
        ensures
            self.spec_base() + offset > usize::MAX ==> (r matches Err(e) && e is MemoryError),
            self.spec_base() + offset <= usize::MAX ==> match r {
                Ok(s) => mem.spec_read(self.spec_base() + offset, size as int) matches Some(d)
                    && (valid_utf8(spec_null_prefix(d)) ==> s@ == decode_utf8(
                    spec_null_prefix(d),
                )) && (!valid_utf8(spec_null_prefix(d)) ==> s@ == Seq::<char>::empty()),
                Err(_) => mem.spec_read(self.spec_base() + offset, size as int) is None,
            },
    {
        let bytes = match self.read_memory(mem, offset, size) {
            Ok(b) => b,
            Err(e) => {
                return Err(e);
            },
        };
        Ok(bytes_to_utf8_string(bytes.as_slice()))
    }

    /// Writes a `u32` in little-endian form at an offset from the base.  An
    /// offset past the end of the address range fails with `MemoryError`
    /// and leaves the memory unchanged.
    #[verifier::rlimit(100)]
    pub fn write_u32(&self, mem: &mut TargetMemory, offset: usize, value: u32) -> (r: Result<
        MemoryOperationResult,
        SystemError,
    >)
        requires
            old(mem).wf(),
        ensures
            final(mem).wf(),
            self.spec_base() + offset > usize::MAX ==> (r matches Err(e) && e is MemoryError
                && final(mem).regions@ == old(mem).regions@),
            self.spec_base() + offset <= usize::MAX ==> match r {
                Ok(res) => spec_wrote(
                    *old(mem),
                    *final(mem),
                    self.spec_base() + offset,
                    spec_u32_le_bytes(value),
                    res.bytes_processed as int,
                ) && res.success == (res.bytes_processed == 4),
                Err(e) => e is MemoryError && final(mem).regions@ == old(mem).regions@,
            },
    {
        let bytes = u32_to_le_vec(value);
        self.write_memory(mem, offset, bytes.as_slice())
    }

    /// Writes a `u64` in little-endian form at an offset from the base.  An
    /// offset past the end of the address range fails with `MemoryError`
    /// and leaves the memory unchanged.
    #[verifier::rlimit(100)]
    pub fn write_u64(&self, mem: &mut TargetMemory, offset: usize, value: u64) -> (r: Result<
        MemoryOperationResult,
        SystemError,
    >)
        requires
            old(mem).wf(),
        ensures
            final(mem).wf(),
            self.spec_base() + offset > usize::MAX ==> (r matches Err(e) && e is MemoryError
                && final(mem).regions@ == old(mem).regions@),
            self.spec_base() + offset <= usize::MAX ==> match r {
                Ok(res) => spec_wrote(
                    *old(mem),
                    *final(mem),
                    self.spec_base() + offset,
                    spec_u64_le_bytes(value),
                    res.bytes_processed as int,
                ) && res.success == (res.bytes_processed == 8),
                Err(e) => e is MemoryError && final(mem).regions@ == old(mem).regions@,
            },
    {
        let bytes = u64_to_le_vec(value);
        self.write_memory(mem, offset, bytes.as_slice())
    }

    /// Writes a string's UTF-8 bytes at an offset from the base.  An offset
    /// past the end of the address range fails with `MemoryError` and
    /// leaves the memory unchanged.
    pub fn write_utf8(&self, mem: &mut TargetMemory, offset: usize, s: &str) -> (r: Result<
        MemoryOperationResult,
        SystemError,
    >)
        requires
            old(mem).wf(),
        ensures
            final(mem).wf(),
            self.spec_base() + offset > usize::MAX ==> (r matches Err(e) && e is MemoryError
                && final(mem).regions@ == old(mem).regions@),
            self.spec_base() + offset <= usize::MAX ==> match r {
                Ok(res) => spec_wrote(
                    *old(mem),
                    *final(mem),
                    self.spec_base() + offset,
                    vstd::utf8::encode_utf8(s@),
                    res.bytes_processed as int,
                ) && res.success == (res.bytes_processed == vstd::utf8::encode_utf8(s@).len()),
                Err(e) => e is MemoryError && final(mem).regions@ == old(mem).regions@,
            },
    {
        self.write_memory(mem, offset, s.as_bytes())
    }

    /// The identifier of the target process.
    pub fn pid(&self) -> (r: u32)
        ensures
            r == self.spec_pid(),
    {
        self.pid
    }

    /// The located base address of the main executable image.
    pub fn base_addr(&self) -> (r: usize)
        ensures
            r == self.spec_base(),
    {
        self.base_address
    }

    /// The name the instance was created by, if one was.
    pub fn name(&self) -> (r: Option<&str>)
        ensures
            match r {
                Some(s) => self.spec_name() matches Some(n) && n@ == s@,
                None => self.spec_name() is None,
            },
    {
        match &self.name {
            Some(s) => Some(s.as_str()),
            None => None,
        }
    }

    /// Releases the capability handle, consuming the instance: the handle
    /// is given back exactly once, and no read or write through this
    /// instance can follow.  Returns the native token for the caller to
    /// hand back to the operating system.
    pub fn release(self) -> (r: u64)
        ensures
            r == self.spec_token(),
    {
        self.capability.release()
    }
}

/// A completed typed 32-bit write is read back exactly: when a write of the
/// four little-endian bytes of `v` at `addr` moved all four bytes, a typed
/// 32-bit read at `addr` against the written memory yields `v`.
pub proof fn lemma_write_u32_read_back(pre: TargetMemory, post: TargetMemory, addr: int, v: u32)
    requires
        spec_wrote(pre, post, addr, spec_u32_le_bytes(v), 4),
    ensures
        spec_read_le32(post, addr) == Some(v),
{
    let i = pre.spec_find_region(addr)->0;
    lemma_region_at_found(pre.regions@, addr, 0, i);
    lemma_wrote_preserves_find_region(pre, post, addr, spec_u32_le_bytes(v), 4, addr);
    let reg = pre.regions@[i];
    let off = addr - reg.base;
    assert(spec_u32_le_bytes(v).len() == 4);
    assert(reg.bytes@.len() - off >= 4);
    assert(post.spec_read(addr, 4) == Some(post.regions@[i].bytes@.subrange(off, off + 4)));
    assert(post.regions@[i].bytes@.subrange(off, off + 4) =~= spec_u32_le_bytes(v));
    lemma_u32_le_round_trip(v);
}

/// A completed typed 64-bit write is read back exactly: when a write of the
/// eight little-endian bytes of `v` at `addr` moved all eight bytes, a
/// typed 64-bit read at `addr` against the written memory yields `v`.
pub proof fn lemma_write_u64_read_back(pre: TargetMemory, post: TargetMemory, addr: int, v: u64)
    requires
        spec_wrote(pre, post, addr, spec_u64_le_bytes(v), 8),
    ensures
        spec_read_le64(post, addr) == Some(v),
{
    let i = pre.spec_find_region(addr)->0;
    lemma_region_at_found(pre.regions@, addr, 0, i);
    lemma_wrote_preserves_find_region(pre, post, addr, spec_u64_le_bytes(v), 8, addr);
    let reg = pre.regions@[i];
    let off = addr - reg.base;
    assert(spec_u64_le_bytes(v).len() == 8);
    assert(reg.bytes@.len() - off >= 8);
    assert(post.spec_read(addr, 8) == Some(post.regions@[i].bytes@.subrange(off, off + 8)));
    assert(post.regions@[i].bytes@.subrange(off, off + 8) =~= spec_u64_le_bytes(v));
    lemma_u64_le_round_trip(v);
}

} // verus!
