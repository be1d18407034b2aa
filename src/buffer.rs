//! A GPU buffer bound to one memory allocation, and synchronous writes into
//! its host-visible mapping.
use vstd::prelude::*;
use gpu_allocator::vulkan::Allocation;

verus! {

#[verifier::external_type_specification]
#[verifier::external_body]
pub struct ExAllocation(Allocation);

/// Whether the allocation's memory is mapped into the host's address space.
pub uninterp spec fn host_mapped(a: Allocation) -> bool;

/// The bytes of the allocation's host mapping, as the host sees them. Host
/// writes go through this module; the device is not to write memory that
/// the host reads back.
pub uninterp spec fn mapped_region(a: Allocation) -> Seq<u8>;

/// The size in bytes of the allocation.
pub uninterp spec fn allocation_size(a: Allocation) -> u64;

/// Relies on `Allocation::size`: the allocation's size in bytes.
#[verifier::external_body]
fn size_of_allocation(a: &Allocation) -> (r: u64)
    ensures
        r == allocation_size(*a),
{
    a.size()
}

/// Relies on `Allocation::mapped_ptr`: whether the memory is host visible
/// and mapped; the mapping then spans the allocation's size (`mapped_slice`
/// is built over `self.size` bytes).
#[verifier::external_body]
fn has_mapping(a: &Allocation) -> (r: bool)
    ensures
        r == host_mapped(*a),
        r ==> mapped_region(*a).len() == allocation_size(*a),
{
    a.mapped_ptr().is_some()
}

/// Relies on `Allocation::mapped_slice`: `None` without a host mapping,
/// else the mapped bytes.
#[verifier::external_body]
fn read_mapping(a: &Allocation) -> (r: Option<Vec<u8>>)
    ensures
        r is Some <==> host_mapped(*a),
        r matches Some(v) ==> v@ == mapped_region(*a),
{
    match a.mapped_slice() {
        Some(s) => Some(s.to_vec()),
        None => None,
    }
}

/// Relies on `Allocation::mapped_slice_mut`: with a host mapping, copies
/// `bytes` to its start (`copy_from_slice`) and leaves the rest; without
/// one, changes nothing.
#[verifier::external_body]
fn write_mapping(a: &mut Allocation, bytes: &[u8]) -> (r: bool)
    requires
        host_mapped(*old(a)) ==> bytes@.len() <= mapped_region(*old(a)).len(),
    ensures
        r == host_mapped(*old(a)),
        host_mapped(*final(a)) == host_mapped(*old(a)),
        allocation_size(*final(a)) == allocation_size(*old(a)),
        r ==> mapped_region(*final(a)) == bytes@ + mapped_region(*old(a)).skip(bytes@.len() as int),
        !r ==> *final(a) == *old(a),
{
    match a.mapped_slice_mut() {
        Some(s) => {
            s[..bytes.len()].copy_from_slice(bytes);
            true
        },
        None => false,
    }
}

/// Errors of buffer creation and host writes.
#[derive(Clone, Copy, Debug, PartialEq, Eq, Structural)]
pub enum BufferError {
    /// The memory cannot hold the buffer, or none could be had.
    AllocationError,
    /// The buffer has no host-visible mapping.
    MapError,
    /// The write is longer than the buffer's declared size.
    OutOfBounds,
}

/// Outcome of writing `len` bytes at offset 0 into a buffer of declared size
/// `size`.
pub open spec fn write_outcome(mapped: bool, size: u64, len: int) -> Result<(), BufferError> {
    if !mapped {
        Err(BufferError::MapError)
    } else if len > size {
        Err(BufferError::OutOfBounds)
    } else {
        Ok(())
    }
}

/// `region` after `bytes` were copied to its start.
pub open spec fn written(region: Seq<u8>, bytes: Seq<u8>) -> Seq<u8> {
    bytes + region.skip(bytes.len() as int)
}

/// Decides whether a write of `len` bytes may go ahead.
pub fn check_write(mapped: bool, size: u64, len: usize) -> (r: Result<(), BufferError>)
    ensures
        r == write_outcome(mapped, size, len as int),
{
    if !mapped {
        Err(BufferError::MapError)
    } else if len as u64 > size {
        Err(BufferError::OutOfBounds)
    } else {
        Ok(())
    }
}

/// A buffer object, its memory allocation (until released) and its declared
/// size in bytes. `buffer` is the raw Vulkan handle of the buffer object.
pub struct Buffer {
    pub buffer: u64,
    pub allocation: Option<Allocation>,
    pub size: u64,
}

impl Buffer {
    /// The allocation, while held, spans at least the declared size.
    pub open spec fn wf(&self) -> bool {
        self.allocation matches Some(a) ==> self.size <= allocation_size(a)
    }

    /// Whether the buffer holds memory with a host mapping.
    pub open spec fn mapped(&self) -> bool {
        self.allocation matches Some(a) && host_mapped(a)
    }

    /// What the host mapping holds.
    pub open spec fn contents(&self) -> Seq<u8> {
        mapped_region(self.allocation->Some_0)
    }

    /// A buffer over `allocation`, which must span at least `size` bytes.
    pub fn from_parts(buffer: u64, allocation: Allocation, size: u64) -> (r: Result<
        Buffer,
        BufferError,
    >)
        ensures
            (size <= allocation_size(allocation)) <==> r is Ok,
            r matches Ok(b) ==> b.wf() && b.buffer == buffer && b.allocation == Some(allocation)
                && b.size == size,
            r matches Err(e) ==> e == BufferError::AllocationError,
    {
        if size_of_allocation(&allocation) < size {
            Err(BufferError::AllocationError)
        } else {
            Ok(Buffer { buffer, allocation: Some(allocation), size })
        }
    }

    /// Copies `bytes` to the start of the host mapping. Fails with `MapError`
    /// without a mapping and with `OutOfBounds` past the declared size, and
    /// then changes nothing.
    pub fn update_slice(&mut self, bytes: &[u8]) -> (r: Result<(), BufferError>)
        requires
            old(self).wf(),
        ensures
            r == write_outcome(old(self).mapped(), old(self).size, bytes@.len() as int),
            final(self).wf(),
            final(self).buffer == old(self).buffer,
            final(self).size == old(self).size,
            final(self).mapped() == old(self).mapped(),
            r is Ok ==> final(self).contents() == written(old(self).contents(), bytes@),
            r is Err ==> *final(self) == *old(self),
    {
        match &mut self.allocation {
            Some(a) => {
                let mapped = has_mapping(a);
                let c = check_write(mapped, self.size, bytes.len());
                if c.is_ok() {
                    write_mapping(a, bytes);
                }
                c
            },
            None => check_write(false, self.size, bytes.len()),
        }
    }

    /// The bytes of the host mapping, or `None` without one.
    pub fn read_back(&self) -> (r: Option<Vec<u8>>)
        ensures
            r is Some <==> self.mapped(),
            r matches Some(v) ==> v@ == self.contents(),
    {
        match &self.allocation {
            Some(a) => read_mapping(a),
            None => None,
        }
    }

    /// Hands the allocation out, to be freed before the buffer object is
    /// destroyed.
    pub fn take_allocation(&mut self) -> (r: Option<Allocation>)
        ensures
            r == old(self).allocation,
            final(self).allocation is None,
            final(self).buffer == old(self).buffer,
            final(self).size == old(self).size,
            final(self).wf(),
    {
        self.allocation.take()
    }
}

/// Writing bytes and reading the mapping back gives those bytes at its
/// start, and the rest of the mapping as it was.
pub proof fn lemma_write_read_back(region: Seq<u8>, bytes: Seq<u8>)
    requires
        bytes.len() <= region.len(),
    ensures
        written(region, bytes).len() == region.len(),
        written(region, bytes).take(bytes.len() as int) == bytes,
        written(region, bytes).skip(bytes.len() as int) == region.skip(bytes.len() as int),
{
    assert(written(region, bytes).take(bytes.len() as int) =~= bytes);
    assert(written(region, bytes).skip(bytes.len() as int) =~= region.skip(bytes.len() as int));
}

} // verus!
