//! A region-described address space and bounded raw memory I/O against it.
//!
//! A target process's memory is a set of disjoint regions, each a contiguous
//! byte range with a protection.  Reads and writes honor partial-transfer
//! semantics: a transfer that crosses the end of a region's accessible bytes
//! moves only the bytes that are there, and reports how many.

use vstd::prelude::*;
use crate::common::error::SystemError;
use crate::common::types::{MemoryPermission, spec_allows_read, spec_allows_write,
    spec_allows_execute};

verus! {

/// One contiguous range of a target's address space: its base address, its
/// protection and the bytes it holds.
pub struct TargetRegion {
    pub base: usize,
    pub protection: MemoryPermission,
    pub bytes: Vec<u8>,
}

impl TargetRegion {
    /// The first address after the region.
    pub open spec fn spec_end(&self) -> int {
        self.base + self.bytes@.len()
    }

    /// True when the region contains the address.
    pub open spec fn spec_contains(&self, addr: int) -> bool {
        self.base <= addr < self.spec_end()
    }
}

/// A target's address space: regions in ascending order, pairwise disjoint,
/// each ending within the address range.
pub struct TargetMemory {
    pub regions: Vec<TargetRegion>,
}

/// The index of the first region containing `addr`, searching from index
/// `i`.
pub open spec fn spec_region_at(regions: Seq<TargetRegion>, addr: int, i: int) -> Option<int>
    decreases regions.len() - i when 0 <= i <= regions.len()
{
    if i >= regions.len() {
        None
    } else if regions[i].spec_contains(addr) {
        Some(i)
    } else {
        spec_region_at(regions, addr, i + 1)
    }
}

/// Overwrites `bytes[off..off + m]` with the first `m` bytes of `data`,
/// leaving the rest untouched.
fn overwrite_range(bytes: &mut Vec<u8>, off: usize, data: &[u8], m: usize)
    requires
        m <= data@.len(),
        off + m <= old(bytes)@.len(),
    ensures
        final(bytes)@.len() == old(bytes)@.len(),
        forall|j: int|
            0 <= j < final(bytes)@.len() ==> final(bytes)@[j] == (if off <= j < off + m {
                data@[j - off]
            } else {
                old(bytes)@[j]
            }),
{
    let ghost orig = bytes@;
    let n = bytes.len();
    let mut k: usize = 0;
    while k < m
        invariant
            0 <= k <= m,
            m <= data@.len(),
            off + m <= bytes@.len(),
            bytes@.len() == orig.len(),
            n == bytes@.len(),
            forall|j: int|
                0 <= j < bytes@.len() ==> bytes@[j] == (if off <= j < off + k {
                    data@[j - off]
                } else {
                    orig[j]
                }),
        decreases m - k,
    {
        bytes[off + k] = data[k];
        k = k + 1;
    }
}

/// What a successful write did: in the region containing `address`, the
/// window from the address to at most the region's end now holds the head
/// of `data`, `m` says how many bytes that is, the region is now readable
/// and writable, and everything else is unchanged.
pub open spec fn spec_wrote(
    pre: TargetMemory,
    post: TargetMemory,
    address: int,
    data: Seq<u8>,
    m: int,
) -> bool {
    &&& pre.spec_find_region(address) matches Some(i) && {
        let reg = pre.regions@[i];
        let off = address - reg.base;
        let avail = reg.bytes@.len() - off;
        &&& m == if data.len() <= avail {
            data.len() as int
        } else {
            avail
        }
        &&& post.regions@.len() == pre.regions@.len()
        &&& post.regions@[i].base == reg.base
        &&& spec_allows_read(post.regions@[i].protection)
        &&& spec_allows_write(post.regions@[i].protection)
        &&& spec_allows_execute(post.regions@[i].protection) == spec_allows_execute(
            reg.protection,
        )
        &&& post.regions@[i].bytes@.len() == reg.bytes@.len()
        &&& forall|j: int|
            0 <= j < reg.bytes@.len() ==> post.regions@[i].bytes@[j] == (if off <= j < off + m {
                data[j - off]
            } else {
                reg.bytes@[j]
            })
        &&& forall|k: int|
            0 <= k < pre.regions@.len() && k != i ==> post.regions@[k] == pre.regions@[k]
    }
}

/// Two region lists of the same shape — same length, and region by region
/// the same base and byte count — resolve every address alike.
proof fn lemma_region_at_same_shape(a: Seq<TargetRegion>, b: Seq<TargetRegion>, addr: int, k: int)
    requires
        b.len() == a.len(),
        forall|i: int|
            0 <= i < b.len() ==> (#[trigger] b[i]).base == a[i].base && b[i].bytes@.len()
                == a[i].bytes@.len(),
        0 <= k <= a.len(),
    ensures
        spec_region_at(b, addr, k) == spec_region_at(a, addr, k),
    decreases a.len() - k,
{
    if k < a.len() {
        assert(b[k].spec_contains(addr) == a[k].spec_contains(addr));
        lemma_region_at_same_shape(a, b, addr, k + 1);
    }
}

/// A write moves bytes within one region and never changes which region any
/// address — the written one or any other — belongs to.
pub proof fn lemma_wrote_preserves_find_region(
    pre: TargetMemory,
    post: TargetMemory,
    waddr: int,
    data: Seq<u8>,
    m: int,
    addr: int,
)
    requires
        spec_wrote(pre, post, waddr, data, m),
    ensures
        post.spec_find_region(addr) == pre.spec_find_region(addr),
{
    let i = pre.spec_find_region(waddr)->0;
    assert forall|k: int|
        0 <= k < post.regions@.len() implies (#[trigger] post.regions@[k]).base
        == pre.regions@[k].base && post.regions@[k].bytes@.len()
        == pre.regions@[k].bytes@.len() by {
        if k != i {
            assert(post.regions@[k] == pre.regions@[k]);
        }
    }
    lemma_region_at_same_shape(pre.regions@, post.regions@, addr, 0);
}

/// A found index points at a region that contains the address.
pub proof fn lemma_region_at_found(regions: Seq<TargetRegion>, addr: int, i: int, j: int)
    requires
        0 <= i <= regions.len(),
        spec_region_at(regions, addr, i) == Some(j),
    ensures
        i <= j < regions.len(),
        regions[j].spec_contains(addr),
    decreases regions.len() - i,
{
    if i < regions.len() && !regions[i].spec_contains(addr) {
        lemma_region_at_found(regions, addr, i + 1, j);
    }
}

/// Regions in ascending order, pairwise disjoint, each ending within the
/// address range.
pub open spec fn spec_regions_wf(regions: Seq<TargetRegion>) -> bool {
    &&& forall|i: int|
        0 <= i < regions.len() ==> (#[trigger] regions[i]).spec_end() <= usize::MAX
    &&& forall|i: int|
        0 <= i && i + 1 < regions.len() ==> (#[trigger] regions[i]).spec_end() <= regions[i
            + 1].base
}

/// Well-formedness carries over to a region list of the same shape: same
/// length, and region by region the same base and byte count.
proof fn lemma_wf_same_shape(a: Seq<TargetRegion>, b: Seq<TargetRegion>)
    requires
        spec_regions_wf(a),
        b.len() == a.len(),
        forall|i: int|
            0 <= i < b.len() ==> (#[trigger] b[i]).base == a[i].base
                && b[i].bytes@.len() == a[i].bytes@.len(),
    ensures
        spec_regions_wf(b),
{
    assert forall|i: int| 0 <= i < b.len() implies (#[trigger] b[i]).spec_end()
        <= usize::MAX by {
        assert(b[i].spec_end() == a[i].spec_end());
    }
    assert forall|i: int| 0 <= i && i + 1 < b.len() implies (#[trigger] b[i]).spec_end() <= b[i
        + 1].base by {
        assert(b[i].spec_end() == a[i].spec_end());
        assert(b[i + 1].base == a[i + 1].base);
    }
}

impl TargetMemory {
    /// Well-formedness: regions ascending and disjoint, each fitting in the
    /// address range.
    pub open spec fn wf(&self) -> bool {
        spec_regions_wf(self.regions@)
    }

    /// The index of the region containing `addr`, if one does.
    pub open spec fn spec_find_region(&self, addr: int) -> Option<int> {
        spec_region_at(self.regions@, addr, 0)
    }

    /// What a read of `size` bytes at `addr` yields: `None` when no region
    /// contains `addr` or the containing region forbids reading, otherwise
    /// the bytes from `addr` to at most the region's end.
    pub open spec fn spec_read(&self, addr: int, size: int) -> Option<Seq<u8>> {
        match self.spec_find_region(addr) {
            None => None,
            Some(i) => {
                let reg = self.regions@[i];
                if !spec_allows_read(reg.protection) {
                    None
                } else {
                    let off = addr - reg.base;
                    let avail = reg.bytes@.len() - off;
                    let m = if size <= avail {
                        size
                    } else {
                        avail
                    };
                    Some(reg.bytes@.subrange(off, off + m))
                }
            },
        }
    }

    /// An empty address space.
    pub fn new() -> (r: TargetMemory)
        ensures
            r.regions@.len() == 0,
            r.wf(),
    {
        TargetMemory { regions: Vec::new() }
    }

    /// Appends a region after all existing ones.  Returns `false` — leaving
    /// the space unchanged — when the region would not come after the last
    /// one or would run past the end of the address range.
    #[verifier::rlimit(100)]
    pub fn add_region(&mut self, base: usize, protection: MemoryPermission, bytes: Vec<u8>) -> (ok:
        bool)
        requires
            old(self).wf(),
        ensures
            final(self).wf(),
            ok == (base + bytes@.len() <= usize::MAX && (old(self).regions@.len() == 0 || old(
                self,
            ).regions@.last().spec_end() <= base)),
            ok ==> {
                &&& final(self).regions@.len() == old(self).regions@.len() + 1
                &&& forall|i: int|
                    0 <= i < old(self).regions@.len() ==> final(self).regions@[i] == old(
                        self,
                    ).regions@[i]
                &&& final(self).regions@.last().base == base
                &&& final(self).regions@.last().protection == protection
                &&& final(self).regions@.last().bytes@ == bytes@
            },
            !ok ==> final(self).regions@ == old(self).regions@,
    {
        if bytes.len() > usize::MAX - base {
            return false;
        }
        if self.regions.len() > 0 {
            let last = self.regions.len() - 1;
            let last_base = self.regions[last].base;
            let last_len = self.regions[last].bytes.len();
            if last_base + last_len > base {
                return false;
            }
        }
        let ghost old_regions = self.regions@;
        self.regions.push(TargetRegion { base, protection, bytes });
        proof {
            assert forall|i: int|
                0 <= i < self.regions@.len() implies (#[trigger] self.regions@[i]).spec_end()
                <= usize::MAX by {
                if i < old_regions.len() {
                    assert(self.regions@[i] == old_regions[i]);
                }
            }
            assert forall|i: int|
                0 <= i && i + 1 < self.regions@.len() implies (#[trigger] self.regions@[i]).spec_end() <= self.regions@[i + 1].base by {
                if i + 1 < old_regions.len() {
                    assert(self.regions@[i] == old_regions[i]);
                    assert(self.regions@[i + 1] == old_regions[i + 1]);
                }
            }
        }
        true
    }

    /// Finds the index of the region containing `addr`.
    fn find_region(&self, addr: usize) -> (r: Option<usize>)
        ensures
            match r {
                Some(i) => self.spec_find_region(addr as int) == Some(i as int) && i
                    < self.regions@.len(),
                None => self.spec_find_region(addr as int) is None,
            },
    {
        let n = self.regions.len();
        let mut k: usize = 0;
        while k < n
            invariant
                n == self.regions@.len(),
                0 <= k <= n,
                spec_region_at(self.regions@, addr as int, 0) == spec_region_at(
                    self.regions@,
                    addr as int,
                    k as int,
                ),
            decreases n - k,
        {
            let base = self.regions[k].base;
            let len = self.regions[k].bytes.len();
            if base <= addr && addr - base < len {
                return Some(k);
            }
            k = k + 1;
        }
        None
    }

    /// Issues a single bounded read at an absolute address.  A read that
    /// crosses the end of the region's accessible bytes is truncated to the
    /// bytes actually there — never padded, never an error.  An address in
    /// no region fails with `MemoryError`; a region that forbids reading
    /// fails with `PermissionDenied`.
    #[verifier::rlimit(100)]
    pub fn read_at(&self, address: usize, size: usize) -> (r: Result<Vec<u8>, SystemError>)
        ensures
            match r {
                Ok(v) => self.spec_read(address as int, size as int) == Some(v@),
                Err(e) => self.spec_read(address as int, size as int) is None && match self
                    .spec_find_region(address as int) {
                    None => e is MemoryError,
                    Some(i) => e is PermissionDenied && !spec_allows_read(
                        self.regions@[i].protection,
                    ),
                },
            },
    {
        proof {
            reveal_strlit("no region contains the address");
            reveal_strlit("the region forbids reading");
        }
        let i = match self.find_region(address) {
            Some(i) => i,
            None => {
                return Err(
                    SystemError::MemoryError(String::from_str("no region contains the address")),
                );
            },
        };
        proof {
            lemma_region_at_found(self.regions@, address as int, 0, i as int);
        }
        let reg = &self.regions[i];
        if !reg.protection.allows_read() {
            return Err(
                SystemError::PermissionDenied(String::from_str("the region forbids reading")),
            );
        }
        let off = address - reg.base;
        let avail = reg.bytes.len() - off;
        let m = if size <= avail {
            size
        } else {
            avail
        };
        let out = vstd::slice::slice_to_vec(
            vstd::slice::slice_subrange(reg.bytes.as_slice(), off, off + m),
        );
        Ok(out)
    }

    /// Issues a single bounded write at an absolute address, first relaxing
    /// the region's protection to readable and writable.  A write that
    /// crosses the end of the region is truncated; the returned count says
    /// how many bytes were moved, so a partial write is observable.  An
    /// address in no region fails with `MemoryError`.
    pub fn write_at(&mut self, address: usize, data: &[u8]) -> (r: Result<usize, SystemError>)
        requires
            old(self).wf(),
        ensures
            final(self).wf(),
            match r {
                Ok(m) => {
                    &&& old(self).spec_find_region(address as int) matches Some(i)
                    &&& spec_wrote(*old(self), *final(self), address as int, data@, m as int)
                },
                Err(e) => {
                    &&& e is MemoryError
                    &&& old(self).spec_find_region(address as int) is None
                    &&& final(self).regions@ == old(self).regions@
                },
            },
    {
        proof {
            reveal_strlit("no region contains the address");
        }
        let i = match self.find_region(address) {
            Some(i) => i,
            None => {
                return Err(
                    SystemError::MemoryError(String::from_str("no region contains the address")),
                );
            },
        };
        let m = self.write_in_region(i, address, data);
        Ok(m)
    }

    /// The inner write step: writes into region `i`, already known to
    /// contain the address.
    #[verifier::rlimit(100)]
    fn write_in_region(&mut self, i: usize, address: usize, data: &[u8]) -> (m: usize)
        requires
            old(self).wf(),
            old(self).spec_find_region(address as int) == Some(i as int),
        ensures
            final(self).wf(),
            spec_wrote(*old(self), *final(self), address as int, data@, m as int),
    {
        proof {
            lemma_region_at_found(self.regions@, address as int, 0, i as int);
        }
        let ghost old_regions = self.regions@;
        let reg = &mut self.regions[i];
        let ghost old_reg = *reg;
        reg.protection = reg.protection.relaxed_to_read_write();
        let off = address - reg.base;
        let avail = reg.bytes.len() - off;
        let m = if data.len() <= avail {
            data.len()
        } else {
            avail
        };
        overwrite_range(&mut reg.bytes, off, data, m);
        proof {
            assert(self.regions@ == old_regions.update(i as int, self.regions@[i as int]));
            assert forall|idx: int|
                0 <= idx < self.regions@.len() implies (#[trigger] self.regions@[idx]).base
                == old_regions[idx].base && self.regions@[idx].bytes@.len()
                == old_regions[idx].bytes@.len() by {
                if idx != i {
                    assert(self.regions@[idx] == old_regions[idx]);
                }
            }
            lemma_wf_same_shape(old_regions, self.regions@);
        }
        m
    }
}

} // verus!
