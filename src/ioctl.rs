//! Control codes and the shape of one request to the driver.
use vstd::prelude::*;

verus! {

/// The value of a control code built from its four fields: device type in the
/// high sixteen bits, access in bits 14..16, function number in bits 2..14 and
/// transfer method in the low two bits.
pub open spec fn spec_ctl_code(device_type: u32, function: u32, method: u32, access: u32) -> int {
    device_type * 0x10000 + access * 0x4000 + function * 4 + method
}

/// Packs the four fields of a control code.
pub fn ctl_code(device_type: u32, function: u32, method: u32, access: u32) -> (r: u32)
    requires
        device_type < 0x10000,
        function < 0x1000,
        method < 4,
        access < 4,
    ensures
        r == spec_ctl_code(device_type, function, method, access),
        r >> 16 == device_type,
        (r >> 14) & 3 == access,
        (r >> 2) & 0xfff == function,
        r & 3 == method,
{
    let r: u32 = (device_type << 16) | (access << 14) | (function << 2) | method;
    assert(r == device_type * 0x10000 + access * 0x4000 + function * 4 + method && r >> 16
        == device_type && (r >> 14) & 3 == access && (r >> 2) & 0xfff == function && r & 3
        == method) by (bit_vector)
        requires
            device_type < 0x10000,
            function < 0x1000,
            method < 4,
            access < 4,
            r == (device_type << 16) | (access << 14) | (function << 2) | method,
    ;
    r
}

/// The device-type tag of every control code of the driver.
pub const HAX_DEVICE_TYPE: u32 = 0x4000;

/// Transfer method: the request and response travel through system buffers.
pub const METHOD_BUFFERED: u32 = 0;

/// Access tag: the request needs no particular access right.
pub const FILE_ANY_ACCESS: u32 = 0;

pub const HAX_IOCTL_VERSION: u32 = 0x4000_2400;

pub const HAX_IOCTL_CREATE_VM: u32 = 0x4000_2404;

pub const HAX_VM_IOCTL_VCPU_CREATE: u32 = 0x4000_2408;

pub const HAX_VM_IOCTL_ALLOC_RAM: u32 = 0x4000_240c;

pub const HAX_VM_IOCTL_SET_RAM: u32 = 0x4000_2410;

pub const HAX_VCPU_IOCTL_RUN: u32 = 0x4000_2418;

pub const HAX_VCPU_IOCTL_SET_MSRS: u32 = 0x4000_241c;

pub const HAX_VCPU_IOCTL_GET_MSRS: u32 = 0x4000_2420;

pub const HAX_VCPU_IOCTL_SET_FPU: u32 = 0x4000_2424;

pub const HAX_VCPU_IOCTL_GET_FPU: u32 = 0x4000_2428;

pub const HAX_VCPU_IOCTL_SETUP_TUNNEL: u32 = 0x4000_242c;

pub const HAX_VCPU_IOCTL_INTERRUPT: u32 = 0x4000_2430;

pub const HAX_VCPU_SET_REGS: u32 = 0x4000_2434;

pub const HAX_VCPU_GET_REGS: u32 = 0x4000_2438;

pub const HAX_VCPU_IOCTL_KICKOFF: u32 = 0x4000_243c;

/// The control code of the driver's operation with the given function number.
pub open spec fn hax_code(function: u32) -> int {
    spec_ctl_code(HAX_DEVICE_TYPE, function, METHOD_BUFFERED, FILE_ANY_ACCESS)
}

/// Each operation code of the driver is the packing of its function number with
/// the driver's device type, buffered transfer and any access.
pub proof fn lemma_operation_codes()
    ensures
        HAX_IOCTL_VERSION == hax_code(0x900),
        HAX_IOCTL_CREATE_VM == hax_code(0x901),
        HAX_VM_IOCTL_VCPU_CREATE == hax_code(0x902),
        HAX_VM_IOCTL_ALLOC_RAM == hax_code(0x903),
        HAX_VM_IOCTL_SET_RAM == hax_code(0x904),
        HAX_VCPU_IOCTL_RUN == hax_code(0x906),
        HAX_VCPU_IOCTL_SET_MSRS == hax_code(0x907),
        HAX_VCPU_IOCTL_GET_MSRS == hax_code(0x908),
        HAX_VCPU_IOCTL_SET_FPU == hax_code(0x909),
        HAX_VCPU_IOCTL_GET_FPU == hax_code(0x90a),
        HAX_VCPU_IOCTL_SETUP_TUNNEL == hax_code(0x90b),
        HAX_VCPU_IOCTL_INTERRUPT == hax_code(0x90c),
        HAX_VCPU_SET_REGS == hax_code(0x90d),
        HAX_VCPU_GET_REGS == hax_code(0x90e),
        HAX_VCPU_IOCTL_KICKOFF == hax_code(0x90f),
{
}

/// Reads a boolean of the host's system interface, where any non-zero value is true.
pub fn win_bool_eval(input: i32) -> (r: bool)
    ensures
        r == (input != 0),
{
    if input == 0 {
        false
    } else {
        true
    }
}

/// One exchange with the driver: the channel to send on, the operation code, the
/// request bytes and the number of response bytes expected back.
pub struct IoRequest {
    pub handle: u64,
    pub code: u32,
    pub input: Vec<u8>,
    pub output_len: u32,
}

} // verus!
