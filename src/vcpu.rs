//! A virtual CPU: its control channel, its register snapshot and its exit channel.
//!
//! Each operation is split in two: a method that builds the request to send on
//! the vCPU's channel, and a method that takes the driver's reply (the response
//! bytes, or the platform error code) and applies it.
use vstd::prelude::*;
use crate::ioctl::{
    IoRequest, HAX_VCPU_GET_REGS, HAX_VCPU_IOCTL_RUN, HAX_VCPU_IOCTL_SETUP_TUNNEL,
    HAX_VCPU_SET_REGS,
};
use crate::layout::{
    hax_tunnel_info, state_bytes, state_of, tunnel_info_of, TUNNEL_INFO_SIZE, VCPU_STATE_SIZE,
};
use crate::state::vcpu_state_t;

verus! {

/// The error code of a reply, or none when the driver reported success.
pub open spec fn reply_error(reply: Result<Vec<u8>, u32>) -> Option<u32> {
    match reply {
        Ok(_) => None,
        Err(e) => Some(e),
    }
}

/// The error code of the driver's reply, or `None` on success. The code is passed
/// on as the driver gave it.
pub fn reply_status(reply: &Result<Vec<u8>, u32>) -> (r: Option<u32>)
    ensures
        r == reply_error(*reply),
{
    match reply {
        Ok(_) => None,
        Err(e) => Some(*e),
    }
}

/// An exit-channel descriptor with every field zero.
pub open spec fn zero_tunnel() -> hax_tunnel_info {
    hax_tunnel_info { va: 0, io_va: 0, size: 0, pad: [0, 0, 0] }
}

/// A virtual CPU of one virtual machine.
pub struct HaxmVCPU {
    pub vcpu_handle: u64,
    pub id: u32,
    pub cpu_state: vcpu_state_t,
    pub tunnel: hax_tunnel_info,
}

impl HaxmVCPU {
    /// A freshly created vCPU: channel `handle`, zeroed registers, no exit channel.
    pub open spec fn is_fresh(&self, id: u32, handle: u64) -> bool {
        &&& self.vcpu_handle == handle
        &&& self.id == id
        &&& self.cpu_state.is_zeroed()
        &&& self.tunnel == zero_tunnel()
    }

    /// The vCPU `id` once the attempt to open its channel has given `opened`:
    /// the channel's handle, or the platform error code of the failed open.
    pub fn new(id: u32, opened: Result<u64, u32>) -> (r: Result<HaxmVCPU, u32>)
        ensures
            match opened {
                Ok(h) => r is Ok && r->Ok_0.is_fresh(id, h),
                Err(e) => r == Err::<HaxmVCPU, u32>(e),
            },
    {
        match opened {
            Ok(h) => Ok(
                HaxmVCPU {
                    vcpu_handle: h,
                    id,
                    cpu_state: vcpu_state_t::zeroed(),
                    tunnel: hax_tunnel_info { va: 0, io_va: 0, size: 0, pad: [0, 0, 0] },
                },
            ),
            Err(e) => Err(e),
        }
    }

    /// The request that sets up the exit channel: no input, the descriptor back.
    pub fn setup_vcpu_tunnel_request(&self) -> (r: IoRequest)
        ensures
            r.handle == self.vcpu_handle,
            r.code == HAX_VCPU_IOCTL_SETUP_TUNNEL,
            r.input@ == Seq::<u8>::empty(),
            r.output_len == TUNNEL_INFO_SIZE,
    {
        IoRequest {
            handle: self.vcpu_handle,
            code: HAX_VCPU_IOCTL_SETUP_TUNNEL,
            input: Vec::new(),
            output_len: TUNNEL_INFO_SIZE,
        }
    }

    /// Applies the reply to the exit-channel request: on success the returned
    /// descriptor is kept; on failure nothing changes and the code is returned.
    pub fn setup_vcpu_tunnel(&mut self, reply: Result<Vec<u8>, u32>) -> (r: Option<u32>)
        requires
            reply matches Ok(b) ==> b@.len() == TUNNEL_INFO_SIZE,
        ensures
            r == reply_error(reply),
            match reply {
                Ok(b) => final(self).tunnel == tunnel_info_of(b@) && final(self).vcpu_handle
                    == old(self).vcpu_handle && final(self).id == old(self).id
                    && final(self).cpu_state == old(self).cpu_state,
                Err(_) => *final(self) == *old(self),
            },
    {
        match reply {
            Ok(b) => {
                self.tunnel = hax_tunnel_info::from_bytes(b.as_slice());
                None
            },
            Err(e) => Some(e),
        }
    }

    /// The request that reads the registers: no input, the snapshot back.
    pub fn get_regs_request(&self) -> (r: IoRequest)
        ensures
            r.handle == self.vcpu_handle,
            r.code == HAX_VCPU_GET_REGS,
            r.input@ == Seq::<u8>::empty(),
            r.output_len == VCPU_STATE_SIZE,
    {
        IoRequest {
            handle: self.vcpu_handle,
            code: HAX_VCPU_GET_REGS,
            input: Vec::new(),
            output_len: VCPU_STATE_SIZE,
        }
    }

    /// Applies the reply to the register read: on success the snapshot becomes
    /// the one returned; on failure nothing changes and the code is returned.
    pub fn get_regs(&mut self, reply: Result<Vec<u8>, u32>) -> (r: Option<u32>)
        requires
            reply matches Ok(b) ==> b@.len() == VCPU_STATE_SIZE,
        ensures
            r == reply_error(reply),
            match reply {
                Ok(b) => final(self).cpu_state == state_of(b@) && final(self).vcpu_handle
                    == old(self).vcpu_handle && final(self).id == old(self).id
                    && final(self).tunnel == old(self).tunnel,
                Err(_) => *final(self) == *old(self),
            },
    {
        match reply {
            Ok(b) => {
                self.cpu_state = vcpu_state_t::from_bytes(b.as_slice());
                None
            },
            Err(e) => Some(e),
        }
    }

    /// The request that writes the whole snapshot: its bytes in, nothing back.
    pub fn set_regs_request(&self) -> (r: IoRequest)
        ensures
            r.handle == self.vcpu_handle,
            r.code == HAX_VCPU_SET_REGS,
            r.input@ == state_bytes(self.cpu_state),
            state_of(r.input@) == self.cpu_state,
            r.output_len == 0,
    {
        IoRequest {
            handle: self.vcpu_handle,
            code: HAX_VCPU_SET_REGS,
            input: self.cpu_state.to_bytes(),
            output_len: 0,
        }
    }

    /// The outcome of the register write: `None` on success, else the code.
    pub fn set_regs(&self, reply: Result<Vec<u8>, u32>) -> (r: Option<u32>)
        ensures
            r == reply_error(reply),
    {
        reply_status(&reply)
    }

    /// The request that runs the vCPU until the next VM exit: nothing in or back.
    pub fn run_request(&self) -> (r: IoRequest)
        ensures
            r.handle == self.vcpu_handle,
            r.code == HAX_VCPU_IOCTL_RUN,
            r.input@ == Seq::<u8>::empty(),
            r.output_len == 0,
    {
        IoRequest {
            handle: self.vcpu_handle,
            code: HAX_VCPU_IOCTL_RUN,
            input: Vec::new(),
            output_len: 0,
        }
    }

    /// The outcome of a run: `None` when the vCPU ran to a VM exit, else the code.
    pub fn run(&self, reply: Result<Vec<u8>, u32>) -> (r: Option<u32>)
        ensures
            r == reply_error(reply),
    {
        reply_status(&reply)
    }
}

} // verus!
