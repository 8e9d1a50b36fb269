//! The device: the root control channel and the virtual machines created on it.
use vstd::prelude::*;
use vstd::bytes::{u32_from_le_bytes};
use crate::ioctl::{IoRequest, HAX_IOCTL_CREATE_VM};
use crate::layout::u32_at;
use crate::vm::HaxmVM;

verus! {

/// The handle value of a channel that was never opened.
pub const NULL_HANDLE: u64 = 0;

/// The number of bytes of the driver's answer to a VM creation: the new id.
pub const VM_ID_SIZE: u32 = 4;

/// The device and the virtual machines it owns, in order of creation.
pub struct HaxmDevice {
    pub device_handle: u64,
    pub vms: Vec<HaxmVM>,
}

impl HaxmDevice {
    /// A device whose channel is not open yet, with no virtual machine.
    pub fn new() -> (r: HaxmDevice)
        ensures
            r.device_handle == NULL_HANDLE,
            r.vms@.len() == 0,
    {
        HaxmDevice { device_handle: NULL_HANDLE, vms: Vec::new() }
    }

    /// Records the outcome of opening the device's channel: on success the handle
    /// is kept (replacing any earlier one) and returned; on failure nothing changes
    /// and the platform error code is returned.
    pub fn initialize(&mut self, opened: Result<u64, u32>) -> (r: Result<u64, u32>)
        ensures
            r == opened,
            final(self).vms@ == old(self).vms@,
            match opened {
                Ok(h) => final(self).device_handle == h,
                Err(_) => final(self).device_handle == old(self).device_handle,
            },
    {
        match opened {
            Ok(h) => {
                self.device_handle = h;
                Ok(h)
            },
            Err(e) => Err(e),
        }
    }

    /// The request that creates a virtual machine: no input, the new id back.
    pub fn new_vm_request(&self) -> (r: IoRequest)
        ensures
            r.handle == self.device_handle,
            r.code == HAX_IOCTL_CREATE_VM,
            r.input@ == Seq::<u8>::empty(),
            r.output_len == VM_ID_SIZE,
    {
        IoRequest {
            handle: self.device_handle,
            code: HAX_IOCTL_CREATE_VM,
            input: Vec::new(),
            output_len: VM_ID_SIZE,
        }
    }

    /// Applies the reply to a VM creation: on success the id the driver chose,
    /// whose channel is to be opened next; on failure the driver's code.
    pub fn new_vm(&self, reply: Result<Vec<u8>, u32>) -> (r: Result<u32, u32>)
        requires
            reply matches Ok(b) ==> b@.len() == VM_ID_SIZE,
        ensures
            match reply {
                Ok(b) => r == Ok::<u32, u32>(u32_at(b@, 0)),
                Err(e) => r == Err::<u32, u32>(e),
            },
    {
        match reply {
            Ok(b) => {
                assert(b@.subrange(0, 4) =~= b@);
                Ok(u32_from_le_bytes(b.as_slice()))
            },
            Err(e) => Err(e),
        }
    }

    /// Tracks virtual machine `id` once the attempt to open its channel has given
    /// `opened`. The machine exists in the driver either way; when its channel
    /// could not be opened it is not tracked, and the open's code is returned.
    pub fn attach_vm(&mut self, id: u32, opened: Result<u64, u32>) -> (r: Option<u32>)
        ensures
            final(self).device_handle == old(self).device_handle,
            match opened {
                Ok(h) => r is None && final(self).vms@.len() == old(self).vms@.len() + 1
                    && final(self).vms@.drop_last() == old(self).vms@
                    && final(self).vms@.last().vm_handle == h && final(self).vms@.last().id == id
                    && final(self).vms@.last().vcpus@.len() == 0,
                Err(e) => r == Some(e) && final(self).vms@ == old(self).vms@,
            },
    {
        match HaxmVM::new(id, opened) {
            Ok(vm) => {
                self.vms.push(vm);
                assert(self.vms@.drop_last() =~= old(self).vms@);
                None
            },
            Err(e) => Some(e),
        }
    }
}

} // verus!
