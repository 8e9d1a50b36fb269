use haxm::device::{HaxmDevice, NULL_HANDLE};
use haxm::ioctl::{
    IoRequest, HAX_IOCTL_CREATE_VM, HAX_VCPU_GET_REGS, HAX_VCPU_IOCTL_RUN,
    HAX_VCPU_IOCTL_SETUP_TUNNEL, HAX_VCPU_SET_REGS, HAX_VM_IOCTL_ALLOC_RAM,
    HAX_VM_IOCTL_SET_RAM, HAX_VM_IOCTL_VCPU_CREATE,
};
use haxm::layout::hax_tunnel_info;
use haxm::state::vcpu_state_t;
use haxm::vcpu::{reply_status, HaxmVCPU};
use haxm::vm::HaxmVM;

const ERROR_INVALID_HANDLE: u32 = 6;
const ERROR_INVALID_PARAMETER: u32 = 87;
const DEVICE: u64 = 0x10;
const VM: u64 = 0x20;
const VCPU: u64 = 0x30;
const HOST_BUFFER: u64 = 0x7ff0_0000_0000;
const RAM_SIZE: u32 = 0x4000;

fn u32_at(b: &[u8], at: usize) -> u32 {
    u32::from_le_bytes(b[at..at + 4].try_into().unwrap())
}

fn u64_at(b: &[u8], at: usize) -> u64 {
    u64::from_le_bytes(b[at..at + 8].try_into().unwrap())
}

/// A stand-in for the driver that keeps the rules its documentation states and
/// runs the one instruction sequence the scenario places in guest memory.
struct FakeDriver {
    registrations: Vec<(u64, u64)>,
    mappings: Vec<(u64, u64, u64)>,
    host: Vec<u8>,
    regs: Vec<u8>,
    sent: Vec<u32>,
}

impl FakeDriver {
    fn new() -> Self {
        FakeDriver {
            registrations: vec![],
            mappings: vec![],
            host: vec![0x90; RAM_SIZE as usize],
            regs: vec![0; 512],
            sent: vec![],
        }
    }

    fn open(&self, name: &[u8]) -> Result<u64, u32> {
        match name {
            b"\\\\.\\HAX" => Ok(DEVICE),
            b"\\\\.\\hax_vm00" => Ok(VM),
            b"\\\\.\\hax_vm00_vcpu00" => Ok(VCPU),
            _ => Err(2),
        }
    }

    fn host_offset(&self, gpa: u64) -> Option<usize> {
        for &(pa, size, va) in &self.mappings {
            if gpa >= pa && gpa < pa + size {
                return Some((va + (gpa - pa) - HOST_BUFFER) as usize);
            }
        }
        None
    }

    fn send(&mut self, req: &IoRequest) -> Result<Vec<u8>, u32> {
        self.sent.push(req.code);
        let expected = match req.code {
            HAX_IOCTL_CREATE_VM => DEVICE,
            HAX_VM_IOCTL_ALLOC_RAM | HAX_VM_IOCTL_SET_RAM | HAX_VM_IOCTL_VCPU_CREATE => VM,
            _ => VCPU,
        };
        if req.handle != expected {
            return Err(ERROR_INVALID_HANDLE);
        }
        let out = match req.code {
            HAX_IOCTL_CREATE_VM => 0u32.to_le_bytes().to_vec(),
            HAX_VM_IOCTL_ALLOC_RAM => {
                let (size, va) = (u32_at(&req.input, 0) as u64, u64_at(&req.input, 8));
                let clash = self.registrations.iter().any(|&(v, s)| va < v + s && v < va + size);
                if size == 0 || size % 0x1000 != 0 || va == 0 || va % 0x1000 != 0 || clash {
                    return Err(ERROR_INVALID_PARAMETER);
                }
                self.registrations.push((va, size));
                vec![]
            }
            HAX_VM_IOCTL_SET_RAM => {
                let (pa, size, va) = (u64_at(&req.input, 0), u32_at(&req.input, 8) as u64, u64_at(&req.input, 16));
                let inside = self.registrations.iter().any(|&(v, s)| va >= v && va + size <= v + s);
                if size == 0 || pa % 0x1000 != 0 || req.input[12] != 0 || !inside {
                    return Err(ERROR_INVALID_PARAMETER);
                }
                self.mappings.retain(|&(p, s, _)| p + s <= pa || pa + size <= p);
                self.mappings.push((pa, size, va));
                vec![]
            }
            HAX_VM_IOCTL_VCPU_CREATE => {
                if req.input.len() != 4 || u32_at(&req.input, 0) >= 16 {
                    return Err(ERROR_INVALID_PARAMETER);
                }
                vec![]
            }
            HAX_VCPU_IOCTL_SETUP_TUNNEL => {
                let mut b = vec![0u8; 24];
                b[0..8].copy_from_slice(&0x5000u64.to_le_bytes());
                b[16..18].copy_from_slice(&0x1000u16.to_le_bytes());
                b
            }
            HAX_VCPU_SET_REGS => {
                self.regs = req.input.clone();
                vec![]
            }
            HAX_VCPU_GET_REGS => self.regs.clone(),
            HAX_VCPU_IOCTL_RUN => {
                let mut s = vcpu_state_t::from_bytes(&self.regs);
                let at = self.host_offset(s.cs.base + s.rip).unwrap();
                if self.host[at..at + 4] == [0x66, 0x01, 0xc8, 0xf4] {
                    let sum = s.gprs.rax.b32().wrapping_add(s.gprs.rcx.b32());
                    s.gprs.rax.set_b32(sum);
                    s.rip += 4;
                }
                self.regs = s.to_bytes();
                vec![]
            }
            _ => return Err(ERROR_INVALID_PARAMETER),
        };
        assert_eq!(out.len(), req.output_len as usize);
        Ok(out)
    }
}

fn open_device_with_vm(driver: &mut FakeDriver) -> HaxmDevice {
    let mut device = HaxmDevice::new();
    assert_eq!(device.initialize(driver.open(&haxm::naming::device_channel_name())), Ok(DEVICE));
    let id = device.new_vm(driver.send(&device.new_vm_request())).unwrap();
    assert_eq!(id, 0);
    let opened = driver.open(&haxm::naming::vm_channel_name(id));
    assert_eq!(device.attach_vm(id, opened), None);
    device
}

fn create_vcpu(driver: &mut FakeDriver, vm: &mut HaxmVM, vcpu_id: u32) -> Option<u32> {
    match vm.new_cpu(vcpu_id, driver.send(&vm.new_cpu_request(vcpu_id))) {
        Ok(name) => vm.attach_cpu(vcpu_id, driver.open(&name)),
        Err(e) => Some(e),
    }
}

#[test]
fn end_to_end_guest_adds_two_registers() {
    let mut driver = FakeDriver::new();
    driver.host[0x2000..0x2004].copy_from_slice(&[0x66, 0x01, 0xc8, 0xf4]);
    let mut device = open_device_with_vm(&mut driver);
    let vm = &mut device.vms[0];
    assert_eq!(vm.alloc_ram(driver.send(&vm.alloc_ram_request(HOST_BUFFER, RAM_SIZE))), None);
    assert_eq!(vm.set_ram(driver.send(&vm.set_ram_request(0, RAM_SIZE, HOST_BUFFER))), None);
    assert_eq!(create_vcpu(&mut driver, vm, 0), None);
    let cpu = &mut vm.vcpus[0];
    assert_eq!(cpu.setup_vcpu_tunnel(driver.send(&cpu.setup_vcpu_tunnel_request())), None);
    assert_eq!(cpu.tunnel.va, 0x5000);
    assert_eq!(cpu.tunnel.size, 0x1000);

    let s = &mut cpu.cpu_state;
    s.cs.limit = 0x3fff;
    s.cs.ar = 0x9b;
    s.cs.base = 0x2000;
    s.ds.limit = 0x1fff;
    s.ds.ar = 0x93;
    s.tr.ar = 0x83;
    s.ldt.ar = 0x10000;
    s.gdt.ar = 0x10000;
    s.idt.ar = 0x10000;
    s.cr0 = 0x21;
    s.cr4 = 0x2000;
    s.dr6 = 0xffff_0ff0;
    s.dr7 = 0x400;
    s.gprs.rsp.set_b32(0x100);
    s.rip = 0;
    s.set_eflags(0x202);
    s.gprs.rax.set_b32(7);
    s.gprs.rcx.set_b32(35);

    assert_eq!(cpu.set_regs(driver.send(&cpu.set_regs_request())), None);
    assert_eq!(cpu.run(driver.send(&cpu.run_request())), None);
    assert_eq!(cpu.get_regs(driver.send(&cpu.get_regs_request())), None);
    assert_eq!(cpu.cpu_state.gprs.rax.b32(), 42);
    assert_eq!(cpu.cpu_state.gprs.rcx.b32(), 35);
    assert_eq!(cpu.cpu_state.rip, 4);
}

#[test]
fn registration_then_mapping_within_it_succeeds() {
    let mut driver = FakeDriver::new();
    let mut device = open_device_with_vm(&mut driver);
    let vm = &mut device.vms[0];
    for (hva, size) in [(HOST_BUFFER, RAM_SIZE), (HOST_BUFFER + 0x10_0000, 0x1000), (0x1000, 0xfff_f000)] {
        assert_eq!(vm.alloc_ram(driver.send(&vm.alloc_ram_request(hva, size))), None);
        assert_eq!(vm.set_ram(driver.send(&vm.set_ram_request(0x8000_0000, size, hva))), None);
    }
    let req = vm.alloc_ram_request(HOST_BUFFER, RAM_SIZE);
    assert_eq!(vm.alloc_ram(driver.send(&req)), Some(ERROR_INVALID_PARAMETER));
}

#[test]
fn memory_requests_carry_the_given_values() {
    let vm = HaxmVM::new(3, Ok(VM)).unwrap();
    let r = vm.alloc_ram_request(0x1234_5000, 0x2000);
    assert_eq!((r.handle, r.code, r.output_len), (VM, HAX_VM_IOCTL_ALLOC_RAM, 0));
    assert_eq!(u32_at(&r.input, 0), 0x2000);
    assert_eq!(u64_at(&r.input, 8), 0x1234_5000);
    let m = vm.set_ram_request(0x4000, 0x1000, 0x1234_6000);
    assert_eq!((m.handle, m.code, m.output_len), (VM, HAX_VM_IOCTL_SET_RAM, 0));
    assert_eq!(u64_at(&m.input, 0), 0x4000);
    assert_eq!(u32_at(&m.input, 8), 0x1000);
    assert_eq!(&m.input[12..16], &[0, 0, 0, 0]);
    assert_eq!(u64_at(&m.input, 16), 0x1234_6000);
}

#[test]
fn vcpu_id_of_sixteen_or_more_is_rejected_by_driver() {
    let mut driver = FakeDriver::new();
    let mut device = open_device_with_vm(&mut driver);
    let vm = &mut device.vms[0];
    let req = vm.new_cpu_request(16);
    assert_eq!(req.input, vec![16, 0, 0, 0]);
    assert_eq!(req.code, HAX_VM_IOCTL_VCPU_CREATE);
    assert_eq!(vm.new_cpu_request(0x100).input, vec![0, 1, 0, 0]);
    assert_eq!(create_vcpu(&mut driver, vm, 16), Some(ERROR_INVALID_PARAMETER));
    assert_eq!(create_vcpu(&mut driver, vm, 256), Some(ERROR_INVALID_PARAMETER));
    assert!(vm.vcpus.is_empty());
    assert_eq!(create_vcpu(&mut driver, vm, 0), None);
    assert_eq!(vm.vcpus.len(), 1);
    assert_eq!(vm.vcpus[0].id, 0);
}

#[test]
fn creating_before_open_fails_and_changes_nothing() {
    let mut driver = FakeDriver::new();
    let device = HaxmDevice::new();
    assert_eq!(device.device_handle, NULL_HANDLE);
    let req = device.new_vm_request();
    assert_eq!(req.handle, NULL_HANDLE);
    assert_eq!(device.new_vm(driver.send(&req)), Err(ERROR_INVALID_HANDLE));
    assert!(device.vms.is_empty());

    let mut vm = HaxmVM::new(0, Ok(NULL_HANDLE)).unwrap();
    assert_eq!(create_vcpu(&mut driver, &mut vm, 0), Some(ERROR_INVALID_HANDLE));
    assert!(vm.vcpus.is_empty());
    assert_eq!(vm.attach_cpu(0, Err(2)), Some(2));
    assert!(vm.vcpus.is_empty());
    assert_eq!(vm.new_cpu(0, Err(5)).unwrap_err(), 5);
}

#[test]
fn failed_opens_leave_the_hierarchy_unchanged() {
    let mut device = HaxmDevice::new();
    assert_eq!(device.initialize(Err(2)), Err(2));
    assert_eq!(device.device_handle, NULL_HANDLE);
    assert_eq!(device.initialize(Ok(DEVICE)), Ok(DEVICE));
    assert_eq!(device.attach_vm(4, Err(2)), Some(2));
    assert!(device.vms.is_empty());
    assert_eq!(device.attach_vm(4, Ok(VM)), None);
    assert_eq!(device.vms[0].id, 4);
    assert_eq!(device.vms[0].vm_handle, VM);
    assert!(HaxmVM::new(1, Err(3)).is_err());
    assert_eq!(HaxmVCPU::new(1, Err(3)).err(), Some(3));
}

#[test]
fn new_vm_reads_id_from_reply() {
    let device = HaxmDevice::new();
    assert_eq!(device.new_vm(Ok(vec![0x2a, 0, 0, 0])), Ok(42));
    assert_eq!(device.new_vm(Ok(vec![1, 2, 0, 0])), Ok(0x201));
    assert_eq!(device.new_vm(Err(31)), Err(31));
}

#[test]
fn set_then_get_registers_returns_the_same_snapshot() {
    let mut driver = FakeDriver::new();
    let mut cpu = HaxmVCPU::new(0, Ok(VCPU)).unwrap();
    assert_eq!(cpu.cpu_state, vcpu_state_t::zeroed());
    cpu.cpu_state.gprs.rdx.set_b64(0xfeed_f00d_dead_beef);
    cpu.cpu_state.gs.base = 0xffff_8000_0000_0000;
    cpu.cpu_state.efer = 0x501;
    cpu.cpu_state.interruptibility_state = 1;
    let set = cpu.cpu_state;
    assert_eq!(cpu.set_regs(driver.send(&cpu.set_regs_request())), None);
    cpu.cpu_state = vcpu_state_t::zeroed();
    assert_eq!(cpu.get_regs(driver.send(&cpu.get_regs_request())), None);
    assert_eq!(cpu.cpu_state, set);
}

#[test]
fn failed_replies_keep_the_vcpu_unchanged() {
    let mut cpu = HaxmVCPU::new(2, Ok(VCPU)).unwrap();
    cpu.cpu_state.cr3 = 0x1000;
    assert_eq!(cpu.get_regs(Err(1)), Some(1));
    assert_eq!(cpu.cpu_state.cr3, 0x1000);
    assert_eq!(cpu.setup_vcpu_tunnel(Err(7)), Some(7));
    assert_eq!(cpu.tunnel, hax_tunnel_info { va: 0, io_va: 0, size: 0, pad: [0, 0, 0] });
    assert_eq!(cpu.run(Err(8)), Some(8));
    assert_eq!(cpu.run(Ok(vec![])), None);
    assert_eq!(cpu.set_regs(Err(9)), Some(9));
    assert_eq!(reply_status(&Err(0xc000_0005)), Some(0xc000_0005));
    assert_eq!(reply_status(&Ok(vec![1])), None);
    let r = cpu.run_request();
    assert_eq!((r.handle, r.code, r.input.len(), r.output_len), (VCPU, HAX_VCPU_IOCTL_RUN, 0, 0));
}
