//! Allocation and management of guest memory mappings.
//!
//! A [`Memory`] object owns a page-aligned, zero-initialized host allocation
//! and an optional binding to a guest address. All reads and writes are
//! validated against the mapped range, with checked address arithmetic,
//! before any byte is touched; mapping and unmapping go through the backend,
//! which rejects unaligned or overlapping regions.

use vstd::prelude::*;

use crate::backend::Backend;
use crate::backend::Region;
use crate::backend::HV_MEMORY_EXEC;
use crate::backend::HV_MEMORY_READ;
use crate::backend::HV_MEMORY_WRITE;
use crate::backend::HV_SUCCESS;
use crate::error::HypervisorError;

verus! {

/// The size of a memory page of the host platform.
pub const PAGE_SIZE: usize = 0x4000;

/// The access permissions of a memory range.
#[derive(Copy, Clone, Eq, PartialEq, Structural, Hash, Debug)]
pub enum MemPerms {
    /// No permission.
    NoAccess,
    /// Read permission.
    Read,
    /// Write permission.
    Write,
    /// Execute permission.
    Exec,
    /// Read and write permissions.
    ReadWrite,
    /// Read and execute permissions.
    ReadExec,
    /// Write and execute permissions.
    WriteExec,
    /// Read, write and execute permissions.
    ReadWriteExec,
}

/// The facility permission bits a permission set corresponds to.
pub open spec fn perm_flags(p: MemPerms) -> u64 {
    match p {
        MemPerms::NoAccess => 0,
        MemPerms::Read => HV_MEMORY_READ,
        MemPerms::Write => HV_MEMORY_WRITE,
        MemPerms::Exec => HV_MEMORY_EXEC,
        MemPerms::ReadWrite => HV_MEMORY_READ | HV_MEMORY_WRITE,
        MemPerms::ReadExec => HV_MEMORY_READ | HV_MEMORY_EXEC,
        MemPerms::WriteExec => HV_MEMORY_WRITE | HV_MEMORY_EXEC,
        MemPerms::ReadWriteExec => HV_MEMORY_READ | HV_MEMORY_WRITE | HV_MEMORY_EXEC,
    }
}

/// The permission set the given facility permission bits correspond to; bits
/// outside the three permission bits yield the empty set.
pub open spec fn perms_of_flags(flags: u64) -> MemPerms {
    if flags == HV_MEMORY_READ {
        MemPerms::Read
    } else if flags == HV_MEMORY_WRITE {
        MemPerms::Write
    } else if flags == HV_MEMORY_EXEC {
        MemPerms::Exec
    } else if flags == HV_MEMORY_READ | HV_MEMORY_WRITE {
        MemPerms::ReadWrite
    } else if flags == HV_MEMORY_READ | HV_MEMORY_EXEC {
        MemPerms::ReadExec
    } else if flags == HV_MEMORY_WRITE | HV_MEMORY_EXEC {
        MemPerms::WriteExec
    } else if flags == HV_MEMORY_READ | HV_MEMORY_WRITE | HV_MEMORY_EXEC {
        MemPerms::ReadWriteExec
    } else {
        MemPerms::NoAccess
    }
}

impl MemPerms {
    /// Read permission alias.
    pub const R: MemPerms = MemPerms::Read;

    /// Write permission alias.
    pub const W: MemPerms = MemPerms::Write;

    /// Execute permission alias.
    pub const X: MemPerms = MemPerms::Exec;

    /// Read and write permissions alias.
    pub const RW: MemPerms = MemPerms::ReadWrite;

    /// Read and execute permissions alias.
    pub const RX: MemPerms = MemPerms::ReadExec;

    /// Write and execute permissions alias.
    pub const WX: MemPerms = MemPerms::WriteExec;

    /// Read, write and execute permissions alias.
    pub const RWX: MemPerms = MemPerms::ReadWriteExec;

    /// Returns the facility permission bits of this permission set.
    pub fn flags(self) -> (r: u64)
        ensures
            r == perm_flags(self),
    {
        match self {
            MemPerms::NoAccess => 0,
            MemPerms::Read => HV_MEMORY_READ,
            MemPerms::Write => HV_MEMORY_WRITE,
            MemPerms::Exec => HV_MEMORY_EXEC,
            MemPerms::ReadWrite => HV_MEMORY_READ | HV_MEMORY_WRITE,
            MemPerms::ReadExec => HV_MEMORY_READ | HV_MEMORY_EXEC,
            MemPerms::WriteExec => HV_MEMORY_WRITE | HV_MEMORY_EXEC,
            MemPerms::ReadWriteExec => HV_MEMORY_READ | HV_MEMORY_WRITE | HV_MEMORY_EXEC,
        }
    }

    /// Returns the permission set of the given facility permission bits.
    pub fn from_flags(flags: u64) -> (r: MemPerms)
        ensures
            r == perms_of_flags(flags),
    {
        if flags == HV_MEMORY_READ {
            MemPerms::Read
        } else if flags == HV_MEMORY_WRITE {
            MemPerms::Write
        } else if flags == HV_MEMORY_EXEC {
            MemPerms::Exec
        } else if flags == HV_MEMORY_READ | HV_MEMORY_WRITE {
            MemPerms::ReadWrite
        } else if flags == HV_MEMORY_READ | HV_MEMORY_EXEC {
            MemPerms::ReadExec
        } else if flags == HV_MEMORY_WRITE | HV_MEMORY_EXEC {
            MemPerms::WriteExec
        } else if flags == HV_MEMORY_READ | HV_MEMORY_WRITE | HV_MEMORY_EXEC {
            MemPerms::ReadWriteExec
        } else {
            MemPerms::NoAccess
        }
    }

    /// Returns the union of two permission sets.
    pub fn bitor(self, rhs: MemPerms) -> (r: MemPerms)
        ensures
            r == perms_of_flags(perm_flags(self) | perm_flags(rhs)),
    {
        let combined = self.flags() | rhs.flags();
        MemPerms::from_flags(combined)
    }

    /// Returns the conventional three-letter rendering of this permission
    /// set.
    pub fn as_str(self) -> (r: &'static str)
        ensures
            r@ == perm_str(self),
    {
        match self {
            MemPerms::NoAccess => "---",
            MemPerms::Read => "r--",
            MemPerms::Write => "-w-",
            MemPerms::Exec => "--x",
            MemPerms::ReadWrite => "rw-",
            MemPerms::ReadExec => "r-x",
            MemPerms::WriteExec => "-wx",
            MemPerms::ReadWriteExec => "rwx",
        }
    }
}

/// The conventional three-letter rendering of a permission set.
pub open spec fn perm_str(p: MemPerms) -> Seq<char> {
    match p {
        MemPerms::NoAccess => "---"@,
        MemPerms::Read => "r--"@,
        MemPerms::Write => "-w-"@,
        MemPerms::Exec => "--x"@,
        MemPerms::ReadWrite => "rw-"@,
        MemPerms::ReadExec => "r-x"@,
        MemPerms::WriteExec => "-wx"@,
        MemPerms::ReadWriteExec => "rwx"@,
    }
}

/// How many bytes a size is short of the next page boundary.
pub open spec fn round_up_pad(size: int) -> int {
    (PAGE_SIZE - (size % (PAGE_SIZE as int))) % (PAGE_SIZE as int)
}

/// The byte sequence `s` with `d` written at offset `off`.
pub open spec fn bytes_written(s: Seq<u8>, off: int, d: Seq<u8>) -> Seq<u8> {
    Seq::new(s.len(), |i: int| if off <= i < off + d.len() { d[i - off] } else { s[i] })
}

/// Law: a write followed by a read of the same range returns exactly the
/// bytes written, for every buffer, offset and data in range.
pub proof fn lemma_read_after_write(s: Seq<u8>, off: int, d: Seq<u8>)
    requires
        0 <= off,
        off + d.len() <= s.len(),
    ensures
        bytes_written(s, off, d).subrange(off, off + d.len()) == d,
{
    assert(bytes_written(s, off, d).subrange(off, off + d.len()) =~= d);
}

/// Law: a write leaves every byte outside the written range unchanged.
pub proof fn lemma_write_frames_rest(s: Seq<u8>, off: int, d: Seq<u8>, i: int)
    requires
        0 <= off,
        off + d.len() <= s.len(),
        0 <= i < s.len(),
        i < off || off + d.len() <= i,
    ensures
        bytes_written(s, off, d)[i] == s[i],
{
}

/// The little-endian byte rendering of a 16-bit value.
pub open spec fn u16_le_bytes(v: u16) -> Seq<u8> {
    seq![(v & 0xff) as u8, ((v >> 8) & 0xff) as u8]
}

/// The 16-bit value read little-endian from two bytes.
pub open spec fn u16_of_le_bytes(b: Seq<u8>) -> u16
    recommends
        b.len() == 2,
{
    (b[0] as u16) | ((b[1] as u16) << 8)
}

/// The little-endian byte rendering of a 32-bit value.
pub open spec fn u32_le_bytes(v: u32) -> Seq<u8> {
    seq![
        (v & 0xff) as u8,
        ((v >> 8) & 0xff) as u8,
        ((v >> 16) & 0xff) as u8,
        ((v >> 24) & 0xff) as u8,
    ]
}

/// The 32-bit value read little-endian from four bytes.
pub open spec fn u32_of_le_bytes(b: Seq<u8>) -> u32
    recommends
        b.len() == 4,
{
    (b[0] as u32) | ((b[1] as u32) << 8) | ((b[2] as u32) << 16) | ((b[3] as u32) << 24)
}

/// The little-endian byte rendering of a 64-bit value.
pub open spec fn u64_le_bytes(v: u64) -> Seq<u8> {
    seq![
        (v & 0xff) as u8,
        ((v >> 8) & 0xff) as u8,
        ((v >> 16) & 0xff) as u8,
        ((v >> 24) & 0xff) as u8,
        ((v >> 32) & 0xff) as u8,
        ((v >> 40) & 0xff) as u8,
        ((v >> 48) & 0xff) as u8,
        ((v >> 56) & 0xff) as u8,
    ]
}

/// The 64-bit value read little-endian from eight bytes.
pub open spec fn u64_of_le_bytes(b: Seq<u8>) -> u64
    recommends
        b.len() == 8,
{
    (b[0] as u64) | ((b[1] as u64) << 8) | ((b[2] as u64) << 16) | ((b[3] as u64) << 24) | (
    (b[4] as u64) << 32) | ((b[5] as u64) << 40) | ((b[6] as u64) << 48) | ((b[7] as u64) << 56)
}

/// Law: encoding a 16-bit value little-endian and decoding it back yields
/// the value, for every value.
pub proof fn lemma_u16_le_round_trip(v: u16)
    ensures
        u16_of_le_bytes(u16_le_bytes(v)) == v,
{
    assert((((v & 0xff) as u8) as u16) | ((((v >> 8) & 0xff) as u8) as u16) << 8 == v)
        by (bit_vector);
}

/// Law: encoding a 32-bit value little-endian and decoding it back yields
/// the value, for every value.
pub proof fn lemma_u32_le_round_trip(v: u32)
    ensures
        u32_of_le_bytes(u32_le_bytes(v)) == v,
{
    assert((((v & 0xff) as u8) as u32) | ((((v >> 8) & 0xff) as u8) as u32) << 8 | ((((v >> 16)
        & 0xff) as u8) as u32) << 16 | ((((v >> 24) & 0xff) as u8) as u32) << 24 == v)
        by (bit_vector);
}

/// Law: encoding a 64-bit value little-endian and decoding it back yields
/// the value, for every value.
pub proof fn lemma_u64_le_round_trip(v: u64)
    ensures
        u64_of_le_bytes(u64_le_bytes(v)) == v,
{
    assert((((v & 0xff) as u8) as u64) | ((((v >> 8) & 0xff) as u8) as u64) << 8 | ((((v >> 16)
        & 0xff) as u8) as u64) << 16 | ((((v >> 24) & 0xff) as u8) as u64) << 24 | ((((v >> 32)
        & 0xff) as u8) as u64) << 32 | ((((v >> 40) & 0xff) as u8) as u64) << 40 | ((((v >> 48)
        & 0xff) as u8) as u64) << 48 | ((((v >> 56) & 0xff) as u8) as u64) << 56 == v)
        by (bit_vector);
}

/// A memory mapping between a host-allocated range and its optional binding
/// in the hypervisor guest.
#[derive(Debug)]
pub struct Memory {
    /// The host allocation's contents; a direct view of the backing bytes.
    pub bytes: Vec<u8>,
    /// The guest address the range is mapped at; `None` while unmapped.
    pub guest_addr: Option<u64>,
    /// The permission set of the current mapping.
    pub perms: MemPerms,
}

impl Memory {
    /// The size of the host allocation in bytes.
    pub open spec fn size_spec(&self) -> int {
        self.bytes@.len() as int
    }

    /// Whether the range is currently mapped in the guest.
    pub open spec fn mapped(&self) -> bool {
        self.guest_addr is Some
    }

    /// The guest base address of the current mapping.
    pub open spec fn base(&self) -> int {
        self.guest_addr->0 as int
    }

    /// The backend region this mapping occupies while mapped.
    pub open spec fn region(&self) -> Region {
        Region {
            base: self.guest_addr->0,
            size: self.bytes@.len() as u64,
            flags: perm_flags(self.perms),
        }
    }

    /// Local well-formedness: the allocation size is a whole number of
    /// pages.
    pub open spec fn wf(&self) -> bool {
        self.bytes@.len() as int % (PAGE_SIZE as int) == 0
    }

    /// Well-formedness against the shared state: while mapped, the backend
    /// holds exactly this object's region.
    pub open spec fn valid(&self, b: Backend) -> bool {
        &&& self.wf()
        &&& self.mapped() ==> b.regions@.contains(self.region())
    }

    /// Whether a guest range of the given length lies entirely inside the
    /// current mapping, with no address arithmetic overflowing.
    pub open spec fn range_ok(&self, ga: int, len: int) -> bool {
        &&& self.base() <= ga
        &&& self.base() + self.size_spec() <= u64::MAX
        &&& ga + len <= self.base() + self.size_spec()
    }

    /// Allocates a zero-initialized host range of the given size rounded up
    /// to the page size; rejects sizes whose rounding overflows. The object
    /// holds no reference on a virtual machine; mapping it requires a live
    /// machine.
    pub fn allocate(size: usize) -> (r: Result<Memory, HypervisorError>)
        ensures
            size as int + round_up_pad(size as int) > usize::MAX ==> r == Result::<
                Memory,
                HypervisorError,
            >::Err(HypervisorError::BadArgument),
            size as int + round_up_pad(size as int) <= usize::MAX ==> (r matches Result::Ok(m) && {
                &&& m.bytes@.len() == size as int + round_up_pad(size as int)
                &&& forall|i: int| 0 <= i < m.bytes@.len() ==> m.bytes@[i] == 0
                &&& m.guest_addr is None
                &&& m.perms == MemPerms::NoAccess
                &&& m.wf()
            }),
    {
        let rem = size % PAGE_SIZE;
        let pad = (PAGE_SIZE - rem) % PAGE_SIZE;
        if size > usize::MAX - pad {
            return Err(HypervisorError::BadArgument);
        }
        let rounded = size + pad;
        let mut bytes: Vec<u8> = Vec::new();
        while bytes.len() < rounded
            invariant
                bytes@.len() <= rounded,
                forall|i: int| 0 <= i < bytes@.len() ==> bytes@[i] == 0,
            decreases rounded - bytes@.len(),
        {
            bytes.push(0);
        }
        Ok(Memory { bytes, guest_addr: None, perms: MemPerms::NoAccess })
    }

    /// Maps the host allocation at the given guest address. Fails with busy
    /// while already mapped; the backend rejects unaligned or empty ranges
    /// as invalid arguments and overlapping ranges as a generic failure.
    pub fn map(&mut self, b: &mut Backend, guest_addr: u64, perms: MemPerms) -> (r: Result<
        (),
        HypervisorError,
    >)
        requires
            crate::vm::vm_inv(*old(b)),
            old(b).vm_refs > 0,
            old(self).valid(*old(b)),
        ensures
            crate::vm::vm_inv(*final(b)),
            final(self).valid(*final(b)),
            final(self).bytes@ == old(self).bytes@,
            final(b).vcpus == old(b).vcpus,
            final(b).vm_refs == old(b).vm_refs,
            final(b).live_vms == old(b).live_vms,
            old(self).mapped() ==> r == Result::<(), HypervisorError>::Err(HypervisorError::Busy)
                && *final(self) == *old(self) && *final(b) == *old(b),
            !old(self).mapped() && !Backend::map_args_ok(guest_addr, old(self).bytes@.len() as u64)
                ==> r == Result::<(), HypervisorError>::Err(HypervisorError::BadArgument)
                && *final(self) == *old(self) && *final(b) == *old(b),
            !old(self).mapped() && Backend::map_args_ok(guest_addr, old(self).bytes@.len() as u64)
                && !old(b).range_free(guest_addr as int, old(self).bytes@.len() as int) ==> r
                == Result::<(), HypervisorError>::Err(HypervisorError::Error) && *final(self)
                == *old(self) && *final(b) == *old(b),
            !old(self).mapped() && Backend::map_args_ok(guest_addr, old(self).bytes@.len() as u64)
                && old(b).range_free(guest_addr as int, old(self).bytes@.len() as int) ==> {
                &&& r is Ok
                &&& final(self).guest_addr == Option::Some(guest_addr)
                &&& final(self).perms == perms
                &&& final(b).regions@ == old(b).regions@.push(final(self).region())
            },
    {
        if self.guest_addr.is_some() {
            return Err(HypervisorError::Busy);
        }
        let flags = perms.flags();
        let code = b.vm_map(guest_addr, self.bytes.len(), flags);
        if code != HV_SUCCESS {
            return Err(HypervisorError::from_code(code));
        }
        self.guest_addr = Some(guest_addr);
        self.perms = perms;
        proof {
            assert(b.regions@[b.regions@.len() - 1] == self.region());
            assert(b.regions@.contains(self.region()));
        }
        Ok(())
    }

    /// Unmaps the host allocation from the guest; fails with a generic
    /// failure while not mapped.
    pub fn unmap(&mut self, b: &mut Backend) -> (r: Result<(), HypervisorError>)
        requires
            crate::vm::vm_inv(*old(b)),
            old(self).valid(*old(b)),
        ensures
            crate::vm::vm_inv(*final(b)),
            final(self).valid(*final(b)),
            final(self).bytes@ == old(self).bytes@,
            final(b).vcpus == old(b).vcpus,
            final(b).vm_refs == old(b).vm_refs,
            final(b).live_vms == old(b).live_vms,
            !old(self).mapped() ==> r == Result::<(), HypervisorError>::Err(HypervisorError::Error)
                && *final(self) == *old(self) && *final(b) == *old(b),
            old(self).mapped() ==> {
                &&& r is Ok
                &&& final(self).guest_addr is None
                &&& final(self).perms == old(self).perms
                &&& final(b).regions@.len() == old(b).regions@.len() - 1
                &&& forall|rg: Region|
                    #[trigger] final(b).regions@.contains(rg) ==> old(b).regions@.contains(rg)
                        && rg.base != old(self).region().base
                &&& forall|rg: Region|
                    #[trigger] old(b).regions@.contains(rg) && rg.base != old(self).region().base
                        ==> final(b).regions@.contains(rg)
            },
    {
        let base = match self.guest_addr {
            Some(a) => a,
            None => { return Err(HypervisorError::Error) },
        };
        proof {
            // The backend holds this object's region, so the unmap call
            // cannot fail.
            assert(b.regions@.contains(self.region()));
        }
        let code = b.vm_unmap(base, self.bytes.len());
        proof {
            assert(code == HV_SUCCESS);
        }
        self.guest_addr = None;
        Ok(())
    }

    /// Changes the protections of the memory mapping in the guest; fails
    /// with a generic failure while not mapped.
    pub fn protect(&mut self, b: &mut Backend, perms: MemPerms) -> (r: Result<
        (),
        HypervisorError,
    >)
        requires
            crate::vm::vm_inv(*old(b)),
            old(self).valid(*old(b)),
        ensures
            crate::vm::vm_inv(*final(b)),
            final(self).valid(*final(b)),
            final(self).bytes@ == old(self).bytes@,
            final(self).guest_addr == old(self).guest_addr,
            final(b).vcpus == old(b).vcpus,
            final(b).vm_refs == old(b).vm_refs,
            final(b).live_vms == old(b).live_vms,
            !old(self).mapped() ==> r == Result::<(), HypervisorError>::Err(HypervisorError::Error)
                && *final(self) == *old(self) && *final(b) == *old(b),
            old(self).mapped() ==> {
                &&& r is Ok
                &&& final(self).perms == perms
                &&& final(b).regions@.len() == old(b).regions@.len()
                &&& final(b).regions@.contains(final(self).region())
                &&& forall|rg: Region|
                    #[trigger] final(b).regions@.contains(rg) && rg.base != old(self).region().base ==> old(b).regions@.contains(rg)
                &&& forall|rg: Region|
                    #[trigger] old(b).regions@.contains(rg) && rg.base != old(self).region().base
                        ==> final(b).regions@.contains(rg)
            },
    {
        let base = match self.guest_addr {
            Some(a) => a,
            None => { return Err(HypervisorError::Error) },
        };
        proof {
            assert(b.regions@.contains(self.region()));
        }
        let flags = perms.flags();
        let code = b.vm_protect(base, self.bytes.len(), flags);
        proof {
            assert(code == HV_SUCCESS);
        }
        self.perms = perms;
        Ok(())
    }

    /// Reads from the mapping at guest address `guest_addr` into `data`,
    /// filling it completely. Fails with a generic failure while unmapped
    /// and with an invalid-argument error when any part of the requested
    /// range lies outside the mapping or the address arithmetic would
    /// overflow.
    pub fn read(&self, guest_addr: u64, data: &mut Vec<u8>) -> (r: Result<(), HypervisorError>)
        ensures
            final(data)@.len() == old(data)@.len(),
            !self.mapped() ==> r == Result::<(), HypervisorError>::Err(HypervisorError::Error)
                && final(data)@ == old(data)@,
            self.mapped() && !self.range_ok(guest_addr as int, old(data)@.len() as int) ==> r
                == Result::<(), HypervisorError>::Err(HypervisorError::BadArgument) && final(data)@
                == old(data)@,
            self.mapped() && self.range_ok(guest_addr as int, old(data)@.len() as int) ==> r is Ok
                && final(data)@ == self.bytes@.subrange(
                guest_addr - self.base(),
                guest_addr - self.base() + old(data)@.len(),
            ),
    {
        let base = match self.guest_addr {
            Some(a) => a,
            None => { return Err(HypervisorError::Error) },
        };
        let len = data.len();
        if guest_addr < base {
            return Err(HypervisorError::BadArgument);
        }
        if (len as u64) > u64::MAX - guest_addr {
            return Err(HypervisorError::BadArgument);
        }
        let size64 = self.bytes.len() as u64;
        if size64 > u64::MAX - base {
            return Err(HypervisorError::BadArgument);
        }
        if guest_addr + (len as u64) > base + size64 {
            return Err(HypervisorError::BadArgument);
        }
        let off = (guest_addr - base) as usize;
        let mut i: usize = 0;
        while i < len
            invariant
                0 <= i <= len,
                data@.len() == len,
                off + len <= self.bytes@.len(),
                off + len <= usize::MAX,
                forall|j: int| 0 <= j < i ==> data@[j] == self.bytes@[off + j],
            decreases len - i,
        {
            let v = self.bytes[off + i];
            data.set(i, v);
            i = i + 1;
        }
        proof {
            assert(data@ =~= self.bytes@.subrange(off as int, off + len));
        }
        Ok(())
    }

    /// Writes `data` into the mapping at guest address `guest_addr`. Fails
    /// with a generic failure while unmapped and with an invalid-argument
    /// error when any part of the range lies outside the mapping or the
    /// address arithmetic would overflow.
    pub fn write(&mut self, guest_addr: u64, data: &Vec<u8>) -> (r: Result<(), HypervisorError>)
        ensures
            final(self).guest_addr == old(self).guest_addr,
            final(self).perms == old(self).perms,
            final(self).bytes@.len() == old(self).bytes@.len(),
            !old(self).mapped() ==> r == Result::<(), HypervisorError>::Err(HypervisorError::Error)
                && *final(self) == *old(self),
            old(self).mapped() && !old(self).range_ok(guest_addr as int, data@.len() as int) ==> r
                == Result::<(), HypervisorError>::Err(HypervisorError::BadArgument) && *final(self)
                == *old(self),
            old(self).mapped() && old(self).range_ok(guest_addr as int, data@.len() as int) ==> r
                is Ok && final(self).bytes@ == bytes_written(
                old(self).bytes@,
                guest_addr - old(self).base(),
                data@,
            ),
    {
        let base = match self.guest_addr {
            Some(a) => a,
            None => { return Err(HypervisorError::Error) },
        };
        let len = data.len();
        if guest_addr < base {
            return Err(HypervisorError::BadArgument);
        }
        if (len as u64) > u64::MAX - guest_addr {
            return Err(HypervisorError::BadArgument);
        }
        let size64 = self.bytes.len() as u64;
        if size64 > u64::MAX - base {
            return Err(HypervisorError::BadArgument);
        }
        if guest_addr + (len as u64) > base + size64 {
            return Err(HypervisorError::BadArgument);
        }
        let off = (guest_addr - base) as usize;
        let mut i: usize = 0;
        while i < len
            invariant
                0 <= i <= len,
                data@.len() == len,
                off + len <= self.bytes@.len(),
                off + len <= usize::MAX,
                self.bytes@.len() == old(self).bytes@.len(),
                self.guest_addr == old(self).guest_addr,
                self.perms == old(self).perms,
                forall|j: int| 0 <= j < i ==> self.bytes@[off + j] == data@[j],
                forall|j: int|
                    0 <= j < self.bytes@.len() && !(off <= j < off + i) ==> self.bytes@[j] == old(self).bytes@[j],
            decreases len - i,
        {
            let v = data[i];
            self.bytes.set(off + i, v);
            i = i + 1;
        }
        proof {
            assert(self.bytes@ =~= bytes_written(
                old(self).bytes@,
                guest_addr - old(self).base(),
                data@,
            ));
        }
        Ok(())
    }

    /// Reads one byte at address `guest_addr`.
    pub fn read_u8(&self, guest_addr: u64) -> (r: Result<u8, HypervisorError>)
        ensures
            !self.mapped() ==> r == Result::<u8, HypervisorError>::Err(HypervisorError::Error),
            self.mapped() && !self.range_ok(guest_addr as int, 1) ==> r == Result::<
                u8,
                HypervisorError,
            >::Err(HypervisorError::BadArgument),
            self.mapped() && self.range_ok(guest_addr as int, 1) ==> r == Result::<
                u8,
                HypervisorError,
            >::Ok(self.bytes@[guest_addr - self.base()]),
    {
        let mut data: Vec<u8> = Vec::new();
        data.push(0);
        self.read(guest_addr, &mut data)?;
        Ok(data[0])
    }

    /// Reads one little-endian 16-bit word at address `guest_addr`.
    pub fn read_u16(&self, guest_addr: u64) -> (r: Result<u16, HypervisorError>)
        ensures
            !self.mapped() ==> r == Result::<u16, HypervisorError>::Err(HypervisorError::Error),
            self.mapped() && !self.range_ok(guest_addr as int, 2) ==> r == Result::<
                u16,
                HypervisorError,
            >::Err(HypervisorError::BadArgument),
            self.mapped() && self.range_ok(guest_addr as int, 2) ==> r == Result::<
                u16,
                HypervisorError,
            >::Ok(
                u16_of_le_bytes(
                    self.bytes@.subrange(guest_addr - self.base(), guest_addr - self.base() + 2),
                ),
            ),
    {
        let mut data: Vec<u8> = Vec::new();
        data.push(0);
        data.push(0);
        self.read(guest_addr, &mut data)?;
        Ok((data[0] as u16) | ((data[1] as u16) << 8))
    }

    /// Reads one little-endian 32-bit word at address `guest_addr`.
    pub fn read_u32(&self, guest_addr: u64) -> (r: Result<u32, HypervisorError>)
        ensures
            !self.mapped() ==> r == Result::<u32, HypervisorError>::Err(HypervisorError::Error),
            self.mapped() && !self.range_ok(guest_addr as int, 4) ==> r == Result::<
                u32,
                HypervisorError,
            >::Err(HypervisorError::BadArgument),
            self.mapped() && self.range_ok(guest_addr as int, 4) ==> r == Result::<
                u32,
                HypervisorError,
            >::Ok(
                u32_of_le_bytes(
                    self.bytes@.subrange(guest_addr - self.base(), guest_addr - self.base() + 4),
                ),
            ),
    {
        let mut data: Vec<u8> = Vec::new();
        data.push(0);
        data.push(0);
        data.push(0);
        data.push(0);
        self.read(guest_addr, &mut data)?;
        Ok(
            (data[0] as u32) | ((data[1] as u32) << 8) | ((data[2] as u32) << 16) | ((
            data[3] as u32) << 24),
        )
    }

    /// Reads one little-endian 64-bit word at address `guest_addr`.
    pub fn read_u64(&self, guest_addr: u64) -> (r: Result<u64, HypervisorError>)
        ensures
            !self.mapped() ==> r == Result::<u64, HypervisorError>::Err(HypervisorError::Error),
            self.mapped() && !self.range_ok(guest_addr as int, 8) ==> r == Result::<
                u64,
                HypervisorError,
            >::Err(HypervisorError::BadArgument),
            self.mapped() && self.range_ok(guest_addr as int, 8) ==> r == Result::<
                u64,
                HypervisorError,
            >::Ok(
                u64_of_le_bytes(
                    self.bytes@.subrange(guest_addr - self.base(), guest_addr - self.base() + 8),
                ),
            ),
    {
        let mut data: Vec<u8> = Vec::new();
        let mut i: usize = 0;
        while i < 8
            invariant
                0 <= i <= 8,
                data@.len() == i,
            decreases 8 - i,
        {
            data.push(0);
            i = i + 1;
        }
        self.read(guest_addr, &mut data)?;
        Ok(
            (data[0] as u64) | ((data[1] as u64) << 8) | ((data[2] as u64) << 16) | ((
            data[3] as u64) << 24) | ((data[4] as u64) << 32) | ((data[5] as u64) << 40) | ((
            data[6] as u64) << 48) | ((data[7] as u64) << 56),
        )
    }

    /// Writes one byte at address `guest_addr`.
    pub fn write_u8(&mut self, guest_addr: u64, data: u8) -> (r: Result<(), HypervisorError>)
        ensures
            final(self).guest_addr == old(self).guest_addr,
            final(self).perms == old(self).perms,
            final(self).bytes@.len() == old(self).bytes@.len(),
            !old(self).mapped() ==> r == Result::<(), HypervisorError>::Err(HypervisorError::Error)
                && *final(self) == *old(self),
            old(self).mapped() && !old(self).range_ok(guest_addr as int, 1) ==> r == Result::<
                (),
                HypervisorError,
            >::Err(HypervisorError::BadArgument) && *final(self) == *old(self),
            old(self).mapped() && old(self).range_ok(guest_addr as int, 1) ==> r is Ok && final(self).bytes@ == bytes_written(
                old(self).bytes@,
                guest_addr - old(self).base(),
                seq![data],
            ),
    {
        let mut d: Vec<u8> = Vec::new();
        d.push(data);
        proof {
            assert(d@ =~= seq![data]);
        }
        self.write(guest_addr, &d)
    }

    /// Writes one little-endian 16-bit word at address `guest_addr`.
    pub fn write_u16(&mut self, guest_addr: u64, data: u16) -> (r: Result<(), HypervisorError>)
        ensures
            final(self).guest_addr == old(self).guest_addr,
            final(self).perms == old(self).perms,
            final(self).bytes@.len() == old(self).bytes@.len(),
            !old(self).mapped() ==> r == Result::<(), HypervisorError>::Err(HypervisorError::Error)
                && *final(self) == *old(self),
            old(self).mapped() && !old(self).range_ok(guest_addr as int, 2) ==> r == Result::<
                (),
                HypervisorError,
            >::Err(HypervisorError::BadArgument) && *final(self) == *old(self),
            old(self).mapped() && old(self).range_ok(guest_addr as int, 2) ==> r is Ok && final(self).bytes@ == bytes_written(
                old(self).bytes@,
                guest_addr - old(self).base(),
                u16_le_bytes(data),
            ),
    {
        let mut d: Vec<u8> = Vec::new();
        d.push((data & 0xff) as u8);
        d.push(((data >> 8) & 0xff) as u8);
        proof {
            assert(d@ =~= u16_le_bytes(data));
        }
        self.write(guest_addr, &d)
    }

    /// Writes one little-endian 32-bit word at address `guest_addr`.
    pub fn write_u32(&mut self, guest_addr: u64, data: u32) -> (r: Result<(), HypervisorError>)
        ensures
            final(self).guest_addr == old(self).guest_addr,
            final(self).perms == old(self).perms,
            final(self).bytes@.len() == old(self).bytes@.len(),
            !old(self).mapped() ==> r == Result::<(), HypervisorError>::Err(HypervisorError::Error)
                && *final(self) == *old(self),
            old(self).mapped() && !old(self).range_ok(guest_addr as int, 4) ==> r == Result::<
                (),
                HypervisorError,
            >::Err(HypervisorError::BadArgument) && *final(self) == *old(self),
            old(self).mapped() && old(self).range_ok(guest_addr as int, 4) ==> r is Ok && final(self).bytes@ == bytes_written(
                old(self).bytes@,
                guest_addr - old(self).base(),
                u32_le_bytes(data),
            ),
    {
        let mut d: Vec<u8> = Vec::new();
        d.push((data & 0xff) as u8);
        d.push(((data >> 8) & 0xff) as u8);
        d.push(((data >> 16) & 0xff) as u8);
        d.push(((data >> 24) & 0xff) as u8);
        proof {
            assert(d@ =~= u32_le_bytes(data));
        }
        self.write(guest_addr, &d)
    }

    /// Writes one little-endian 64-bit word at address `guest_addr`.
    pub fn write_u64(&mut self, guest_addr: u64, data: u64) -> (r: Result<(), HypervisorError>)
        ensures
            final(self).guest_addr == old(self).guest_addr,
            final(self).perms == old(self).perms,
            final(self).bytes@.len() == old(self).bytes@.len(),
            !old(self).mapped() ==> r == Result::<(), HypervisorError>::Err(HypervisorError::Error)
                && *final(self) == *old(self),
            old(self).mapped() && !old(self).range_ok(guest_addr as int, 8) ==> r == Result::<
                (),
                HypervisorError,
            >::Err(HypervisorError::BadArgument) && *final(self) == *old(self),
            old(self).mapped() && old(self).range_ok(guest_addr as int, 8) ==> r is Ok && final(self).bytes@ == bytes_written(
                old(self).bytes@,
                guest_addr - old(self).base(),
                u64_le_bytes(data),
            ),
    {
        let mut d: Vec<u8> = Vec::new();
        d.push((data & 0xff) as u8);
        d.push(((data >> 8) & 0xff) as u8);
        d.push(((data >> 16) & 0xff) as u8);
        d.push(((data >> 24) & 0xff) as u8);
        d.push(((data >> 32) & 0xff) as u8);
        d.push(((data >> 40) & 0xff) as u8);
        d.push(((data >> 48) & 0xff) as u8);
        d.push(((data >> 56) & 0xff) as u8);
        proof {
            assert(d@ =~= u64_le_bytes(data));
        }
        self.write(guest_addr, &d)
    }

    /// Returns a direct view of the host allocation's bytes.
    pub fn host_bytes(&self) -> (r: &Vec<u8>)
        ensures
            r@ == self.bytes@,
    {
        &self.bytes
    }

    /// Returns the guest address the range is mapped at, or `None` while
    /// unmapped.
    pub fn guest_addr(&self) -> (r: Option<u64>)
        ensures
            r == self.guest_addr,
    {
        self.guest_addr
    }

    /// Retrieves the memory mapping's size.
    pub fn size(&self) -> (r: usize)
        ensures
            r == self.bytes@.len(),
    {
        self.bytes.len()
    }

    /// Unmaps the range if it is still mapped, then releases the strong
    /// reference this object holds on the virtual machine, destroying the
    /// machine when it was the last reference and nothing else remains.
    pub fn release(self, b: &mut Backend) -> (r: Result<(), HypervisorError>)
        requires
            crate::vm::vm_inv(*old(b)),
            old(b).vm_refs > 0,
            self.valid(*old(b)),
        ensures
            crate::vm::vm_inv(*final(b)),
            final(b).vcpus == old(b).vcpus,
            final(b).regions@.len() == old(b).regions@.len() - (
            if self.mapped() {
                1int
            } else {
                0int
            }),
            forall|rg: Region|
                #[trigger] final(b).regions@.contains(rg) ==> old(b).regions@.contains(rg),
            old(b).vm_refs > 1 ==> r is Ok && final(b).vm_refs == old(b).vm_refs - 1 && final(b).live_vms == old(b).live_vms,
            old(b).vm_refs == 1 && old(b).no_live_vcpus() && old(b).regions@.len() == (
            if self.mapped() {
                1int
            } else {
                0int
            }) ==> r is Ok && final(b).vm_refs == 0 && final(b).live_vms == 0,
            old(b).vm_refs == 1 && !(old(b).no_live_vcpus() && old(b).regions@.len() == (
            if self.mapped() {
                1int
            } else {
                0int
            })) ==> r == Result::<(), HypervisorError>::Err(HypervisorError::Busy) && final(b).vm_refs == 1 && final(b).live_vms == 1,
    {
        let mut m = self;
        if m.guest_addr.is_some() {
            let _unmap_result = m.unmap(b);
        }
        crate::vm::release_vm_ref(b)
    }
}

} // verus!
