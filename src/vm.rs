//! A virtual machine: its control channel, its memory operations and its vCPUs.
use vstd::prelude::*;
use crate::ioctl::{IoRequest, HAX_VM_IOCTL_ALLOC_RAM, HAX_VM_IOCTL_SET_RAM, HAX_VM_IOCTL_VCPU_CREATE};
use crate::layout::{
    alloc_ram_info_bytes, alloc_ram_info_of, le32, set_ram_info_bytes, set_ram_info_fields,
    hax_alloc_ram_info, hax_set_ram_info, lemma_alloc_ram_info_round_trip,
    lemma_set_ram_info_round_trip,
};
use crate::naming::{vcpu_channel_name, vcpu_name};
use crate::vcpu::{reply_error, reply_status, HaxmVCPU};
use vstd::bytes::u32_to_le_bytes;

verus! {

/// The registration descriptor of the host buffer at `hva` of `size` bytes.
pub open spec fn registration(hva: u64, size: u32) -> hax_alloc_ram_info {
    hax_alloc_ram_info { size, pad: 0, va: hva }
}

/// The mapping descriptor of `size` bytes of guest-physical memory at `gpa_start`
/// onto the host range at `hva_start`; flags and padding are zero.
pub open spec fn mapping(gpa_start: u64, size: u32, hva_start: u64) -> hax_set_ram_info {
    hax_set_ram_info { pa_start: gpa_start, size, flags: 0, pad: [0, 0, 0], va: hva_start }
}

/// The size of a page of guest and host memory.
pub const PAGE_SIZE: u64 = 0x1000;

pub open spec fn page_aligned(x: int) -> bool {
    x % (PAGE_SIZE as int) == 0
}

/// The host ranges `[a, a + m)` and `[b, b + n)` share no byte.
pub open spec fn disjoint(a: u64, m: u32, b: u64, n: u32) -> bool {
    a + m <= b || b + n <= a
}

/// The driver's documented conditions on registering the host buffer at `va` of
/// `size` bytes, after the registrations `prior` of the same machine: a non-zero
/// page-aligned address and size (under 4 GiB by its type), apart from every
/// earlier buffer.
pub open spec fn registration_admissible(va: u64, size: u32, prior: Seq<(u64, u32)>) -> bool {
    &&& va != 0
    &&& page_aligned(va as int)
    &&& size != 0
    &&& page_aligned(size as int)
    &&& forall|k: int| 0 <= k < prior.len() ==> disjoint(va, size, #[trigger] prior[k].0, prior[k].1)
}

/// The driver's documented conditions on mapping `size` bytes of guest-physical
/// memory at `pa` onto the host range at `va`, given the registered buffers
/// `regs`: page-aligned addresses and size, a non-zero host address and size, and
/// the host range inside one registered buffer.
pub open spec fn mapping_admissible(pa: u64, size: u32, va: u64, regs: Seq<(u64, u32)>) -> bool {
    &&& page_aligned(pa as int)
    &&& size != 0
    &&& page_aligned(size as int)
    &&& va != 0
    &&& page_aligned(va as int)
    &&& exists|k: int| 0 <= k < regs.len() && #[trigger] regs[k].0 <= va && va + size <= regs[k].0 + regs[k].1
}

/// For a valid registration of a host buffer and a page-aligned range inside it,
/// the registration request and then the mapping request, as the driver reads
/// them, meet every condition the driver documents for them to succeed; the
/// mapping's flags are zero.
pub proof fn lemma_registered_range_can_be_mapped(
    hva: u64,
    size: u32,
    prior: Seq<(u64, u32)>,
    gpa: u64,
    map_size: u32,
    map_hva: u64,
)
    requires
        registration_admissible(hva, size, prior),
        page_aligned(gpa as int),
        map_size != 0,
        page_aligned(map_size as int),
        page_aligned(map_hva as int),
        hva <= map_hva,
        map_hva + map_size <= hva + size,
    ensures
        ({
            let r = alloc_ram_info_of(alloc_ram_info_bytes(registration(hva, size)));
            let (pa, msize, flags, va) = set_ram_info_fields(
                set_ram_info_bytes(mapping(gpa, map_size, map_hva)),
            );
            &&& registration_admissible(r.va, r.size, prior)
            &&& flags == 0
            &&& mapping_admissible(pa, msize, va, prior.push((r.va, r.size)))
        }),
{
    lemma_alloc_ram_info_round_trip(registration(hva, size));
    lemma_set_ram_info_round_trip(mapping(gpa, map_size, map_hva));
    let regs = prior.push((hva, size));
    let k = prior.len() as int;
    assert(regs[k] == (hva, size));
    assert(regs[k].0 <= map_hva && map_hva + map_size <= regs[k].0 + regs[k].1);
    assert(mapping_admissible(gpa, map_size, map_hva, regs));
}

/// A virtual machine of the device.
pub struct HaxmVM {
    pub vm_handle: u64,
    pub id: u32,
    pub vcpus: Vec<HaxmVCPU>,
}

impl HaxmVM {
    /// The virtual machine `id` once the attempt to open its channel has given
    /// `opened`: the channel's handle, or the platform error code.
    pub fn new(id: u32, opened: Result<u64, u32>) -> (r: Result<HaxmVM, u32>)
        ensures
            match opened {
                Ok(h) => r is Ok && r->Ok_0.vm_handle == h && r->Ok_0.id == id
                    && r->Ok_0.vcpus@.len() == 0,
                Err(e) => r is Err && r->Err_0 == e,
            },
    {
        match opened {
            Ok(h) => Ok(HaxmVM { vm_handle: h, id, vcpus: Vec::new() }),
            Err(e) => Err(e),
        }
    }

    /// The request that registers the host buffer at `hva` of `size` bytes as
    /// memory of this machine. The buffer is expected to be page-aligned, non-zero,
    /// under 4 GiB and apart from earlier registrations; the driver enforces that.
    pub fn alloc_ram_request(&self, hva: u64, size: u32) -> (r: IoRequest)
        ensures
            r.handle == self.vm_handle,
            r.code == HAX_VM_IOCTL_ALLOC_RAM,
            r.input@ == alloc_ram_info_bytes(registration(hva, size)),
            r.output_len == 0,
    {
        let info = hax_alloc_ram_info { size, pad: 0, va: hva };
        IoRequest {
            handle: self.vm_handle,
            code: HAX_VM_IOCTL_ALLOC_RAM,
            input: info.to_bytes(),
            output_len: 0,
        }
    }

    /// The outcome of a registration: `None` on success, else the code.
    pub fn alloc_ram(&self, reply: Result<Vec<u8>, u32>) -> (r: Option<u32>)
        ensures
            r == reply_error(reply),
    {
        reply_status(&reply)
    }

    /// The request that maps `size` bytes of guest-physical memory at `gpa_start`
    /// onto the host range at `hva_start`, which is expected to lie in a registered
    /// buffer. A mapped guest range mapped again is replaced.
    pub fn set_ram_request(&self, gpa_start: u64, size: u32, hva_start: u64) -> (r: IoRequest)
        ensures
            r.handle == self.vm_handle,
            r.code == HAX_VM_IOCTL_SET_RAM,
            r.input@ == set_ram_info_bytes(mapping(gpa_start, size, hva_start)),
            r.output_len == 0,
    {
        let info = hax_set_ram_info {
            pa_start: gpa_start,
            size,
            flags: 0,
            pad: [0, 0, 0],
            va: hva_start,
        };
        IoRequest {
            handle: self.vm_handle,
            code: HAX_VM_IOCTL_SET_RAM,
            input: info.to_bytes(),
            output_len: 0,
        }
    }

    /// The outcome of a mapping: `None` on success, else the code.
    pub fn set_ram(&self, reply: Result<Vec<u8>, u32>) -> (r: Option<u32>)
        ensures
            r == reply_error(reply),
    {
        reply_status(&reply)
    }

    /// The request that creates vCPU `vcpu_id`. The id travels as all four of its
    /// bytes: ids of 16 and above reach the driver unchanged, which rejects them.
    pub fn new_cpu_request(&self, vcpu_id: u32) -> (r: IoRequest)
        ensures
            r.handle == self.vm_handle,
            r.code == HAX_VM_IOCTL_VCPU_CREATE,
            r.input@ == le32(vcpu_id),
            r.output_len == 0,
    {
        IoRequest {
            handle: self.vm_handle,
            code: HAX_VM_IOCTL_VCPU_CREATE,
            input: u32_to_le_bytes(vcpu_id),
            output_len: 0,
        }
    }

    /// Applies the reply to the creation of vCPU `vcpu_id`: on success, the name of
    /// the vCPU's channel to open next; on failure the driver's code. Nothing in the
    /// machine changes either way.
    pub fn new_cpu(&self, vcpu_id: u32, reply: Result<Vec<u8>, u32>) -> (r: Result<Vec<u8>, u32>)
        ensures
            match reply {
                Ok(_) => r is Ok && r->Ok_0@ == vcpu_name(self.id, vcpu_id),
                Err(e) => r is Err && r->Err_0 == e,
            },
    {
        match reply {
            Ok(_) => Ok(vcpu_channel_name(self.id, vcpu_id)),
            Err(e) => Err(e),
        }
    }

    /// Adds vCPU `vcpu_id` once the attempt to open its channel has given `opened`.
    /// On failure the vCPUs are left as they were and the code is returned.
    pub fn attach_cpu(&mut self, vcpu_id: u32, opened: Result<u64, u32>) -> (r: Option<u32>)
        ensures
            final(self).vm_handle == old(self).vm_handle,
            final(self).id == old(self).id,
            match opened {
                Ok(h) => r is None && final(self).vcpus@.len() == old(self).vcpus@.len() + 1
                    && final(self).vcpus@.drop_last() == old(self).vcpus@
                    && final(self).vcpus@.last().is_fresh(vcpu_id, h),
                Err(e) => r == Some(e) && final(self).vcpus@ == old(self).vcpus@,
            },
    {
        match HaxmVCPU::new(vcpu_id, opened) {
            Ok(v) => {
                self.vcpus.push(v);
                assert(self.vcpus@.drop_last() =~= old(self).vcpus@);
                None
            },
            Err(e) => Some(e),
        }
    }
}

} // verus!
