use haxm::ioctl::{
    ctl_code, win_bool_eval, FILE_ANY_ACCESS, HAX_DEVICE_TYPE, HAX_IOCTL_CREATE_VM,
    HAX_IOCTL_VERSION, HAX_VCPU_GET_REGS, HAX_VCPU_IOCTL_KICKOFF, HAX_VCPU_IOCTL_RUN,
    HAX_VCPU_IOCTL_SETUP_TUNNEL, HAX_VCPU_SET_REGS, HAX_VM_IOCTL_ALLOC_RAM,
    HAX_VM_IOCTL_SET_RAM, HAX_VM_IOCTL_VCPU_CREATE, METHOD_BUFFERED,
};
use haxm::registers::{gp_reg, interruptibility_state_t_anon_struct, segment_desc_t_anon_struct};
use haxm::state::{segment_desc_t, vcpu_state_t, vcpu_state_t_anon_union_1_anon_struct};

#[test]
fn control_codes_follow_packing_formula() {
    let code = |f: u32| ctl_code(HAX_DEVICE_TYPE, f, METHOD_BUFFERED, FILE_ANY_ACCESS);
    assert_eq!(code(0x900), HAX_IOCTL_VERSION);
    assert_eq!(code(0x901), HAX_IOCTL_CREATE_VM);
    assert_eq!(code(0x902), HAX_VM_IOCTL_VCPU_CREATE);
    assert_eq!(code(0x903), HAX_VM_IOCTL_ALLOC_RAM);
    assert_eq!(code(0x904), HAX_VM_IOCTL_SET_RAM);
    assert_eq!(code(0x906), HAX_VCPU_IOCTL_RUN);
    assert_eq!(code(0x90b), HAX_VCPU_IOCTL_SETUP_TUNNEL);
    assert_eq!(code(0x90d), HAX_VCPU_SET_REGS);
    assert_eq!(code(0x90e), HAX_VCPU_GET_REGS);
    assert_eq!(code(0x90f), HAX_VCPU_IOCTL_KICKOFF);
    assert_eq!(HAX_IOCTL_CREATE_VM, 0x4000_2404);
}

#[test]
fn control_code_places_every_field() {
    assert_eq!(ctl_code(0x22, 0x801, 3, 2), (0x22 << 16) | (2 << 14) | (0x801 << 2) | 3);
    assert_eq!(ctl_code(0xffff, 0xfff, 3, 3), 0xffff_ffff);
    assert_eq!(ctl_code(0, 0, 0, 0), 0);
}

#[test]
fn win_bool_is_true_for_any_non_zero() {
    assert!(!win_bool_eval(0));
    assert!(win_bool_eval(1));
    assert!(win_bool_eval(-1));
    assert!(win_bool_eval(i32::MAX));
}

#[test]
fn narrow_register_writes_keep_the_other_bits() {
    let mut r = gp_reg::new(0x1122_3344_5566_7788);
    r.set_b32(0xdead_beef);
    assert_eq!(r.b64, 0x1122_3344_dead_beef);
    r.set_b16(0x0102);
    assert_eq!(r.b64, 0x1122_3344_dead_0102);
    r.set_b8_low(0xaa);
    assert_eq!(r.b64, 0x1122_3344_dead_01aa);
    r.set_b8_high(0xbb);
    assert_eq!(r.b64, 0x1122_3344_dead_bbaa);
    assert_eq!(r.b32(), 0xdead_bbaa);
    assert_eq!(r.b16(), 0xbbaa);
    let b8 = r.b8();
    assert_eq!((b8.low, b8.high), (0xaa, 0xbb));
    r.set_b64(7);
    assert_eq!(r.b32(), 7);
}

#[test]
fn register_array_view_matches_named_registers() {
    let mut g = vcpu_state_t_anon_union_1_anon_struct::zeroed();
    g.set_reg(0, 7);
    g.set_reg(1, 35);
    g.set_reg(15, 9);
    assert_eq!(g.rax.b64, 7);
    assert_eq!(g.rcx.b64, 35);
    assert_eq!(g.r15.b64, 9);
    g.rsp.set_b32(0x100);
    assert_eq!(g.reg(4), 0x100);
    for i in 5..15 {
        assert_eq!(g.reg(i), 0);
    }
}

#[test]
fn instruction_pointer_and_flags_views() {
    let mut s = vcpu_state_t::zeroed();
    s.rip = 0xffff_0000_0000_1234;
    s.set_eip(0x10);
    assert_eq!(s.rip, 0xffff_0000_0000_0010);
    assert_eq!(s.eip(), 0x10);
    s.rflags = 0x1_0000_0000;
    s.set_eflags(0x202);
    assert_eq!(s.rflags, 0x1_0000_0202);
    assert_eq!(s.eflags(), 0x202);
}

#[test]
fn access_rights_fields_of_code_segment() {
    let f = segment_desc_t_anon_struct::from_ar(0x9b);
    assert_eq!(f.segment_type, 0xb);
    assert_eq!(f.desc, 1);
    assert_eq!(f.dpl, 0);
    assert_eq!(f.present, 1);
    assert_eq!(f.null, 0);
    assert_eq!(f.to_ar(), 0x9b);
    let unusable = segment_desc_t_anon_struct::from_ar(0x10000);
    assert_eq!(unusable.null, 1);
    assert_eq!(unusable.segment_type, 0);
    let all = segment_desc_t_anon_struct::from_ar(0xffff_ffff);
    assert_eq!(all.reserved2, 0x7fff);
    assert_eq!(all.dpl, 3);
    assert_eq!(all.reserved, 0xf);
    assert_eq!(all.to_ar(), 0xffff_ffff);
}

#[test]
fn access_rights_written_through_fields() {
    let mut d = segment_desc_t::zeroed();
    d.base = 0x2000;
    d.limit = 0x3fff;
    let mut f = d.access_rights();
    f.segment_type = 3;
    f.desc = 1;
    f.present = 1;
    f.granularity = 1;
    f.long_mode = 1;
    d.set_access_rights(f);
    assert_eq!(d.ar, 0x3 | 0x10 | 0x80 | 0x2000 | 0x8000);
    assert_eq!(d.base, 0x2000);
    assert_eq!(d.limit, 0x3fff);
}

#[test]
fn interruptibility_flags_view() {
    let f = interruptibility_state_t_anon_struct::from_raw(0b1010 | (5 << 4));
    assert_eq!(f.sti_blocking, 0);
    assert_eq!(f.movss_blocking, 1);
    assert_eq!(f.smi_blocking, 0);
    assert_eq!(f.nmi_blocking, 1);
    assert_eq!(f.reserved, 5);
    let mut s = vcpu_state_t::zeroed();
    s.interruptibility_state = 0xabcd_0000_0000_0000;
    let g = interruptibility_state_t_anon_struct {
        sti_blocking: 1,
        movss_blocking: 0,
        smi_blocking: 0,
        nmi_blocking: 1,
        reserved: 0,
    };
    s.set_interruptibility(g);
    assert_eq!(s.interruptibility_state, 0xabcd_0000_0000_0009);
    assert_eq!(s.interruptibility_raw(), 9);
    assert_eq!(s.interruptibility(), g);
}
