//! The byte layouts of the structures exchanged with the driver.
//!
//! Every multi-byte integer travels in the byte order of the driver's host,
//! least significant byte first, at a fixed offset with declared padding only.
use vstd::prelude::*;
use vstd::bytes::*;
use vstd::slice::slice_subrange;
use crate::registers::gp_reg;
use crate::state::{segment_desc_t, vcpu_state_t, vcpu_state_t_anon_union_1_anon_struct};

verus! {

broadcast use vstd::seq::group_seq_axioms;

/// The number of bytes of a register snapshot.
pub const VCPU_STATE_SIZE: u32 = 512;

/// The number of bytes of a memory-registration descriptor.
pub const ALLOC_RAM_INFO_SIZE: u32 = 16;

/// The number of bytes of a memory-mapping descriptor.
pub const SET_RAM_INFO_SIZE: u32 = 24;

/// The number of bytes of an exit-channel descriptor.
pub const TUNNEL_INFO_SIZE: u32 = 24;

/// The number of bytes of a segment descriptor.
pub const SEGMENT_DESC_SIZE: u32 = 24;

/// A buffer of the host to register as guest memory: its size and address.
#[derive(Clone, Copy, Debug, PartialEq, Eq, Structural)]
pub struct hax_alloc_ram_info {
    pub size: u32,
    pub pad: u32,
    pub va: u64,
}

/// A mapping of guest-physical memory onto a registered host buffer.
#[derive(Clone, Copy, Debug, PartialEq, Eq)]
pub struct hax_set_ram_info {
    pub pa_start: u64,
    pub size: u32,
    pub flags: u8,
    pub pad: [u8; 3],
    pub va: u64,
}

/// The driver's interface version: the current one and the oldest still served.
#[derive(Clone, Copy, Debug, PartialEq, Eq, Structural)]
pub struct hax_qemu_version {
    pub cur_version: u32,
    pub least_version: u32,
}

/// The exit channel of a virtual CPU: the addresses of the shared region and of
/// its I/O area, and the region's size.
#[derive(Clone, Copy, Debug, PartialEq, Eq)]
pub struct hax_tunnel_info {
    pub va: u64,
    pub io_va: u64,
    pub size: u16,
    pub pad: [u16; 3],
}

pub open spec fn le16(x: u16) -> Seq<u8> {
    spec_u16_to_le_bytes(x)
}

pub open spec fn le32(x: u32) -> Seq<u8> {
    spec_u32_to_le_bytes(x)
}

pub open spec fn le64(x: u64) -> Seq<u8> {
    spec_u64_to_le_bytes(x)
}

/// The 16-bit integer stored at `at` in `b`.
pub open spec fn u16_at(b: Seq<u8>, at: int) -> u16 {
    spec_u16_from_le_bytes(b.subrange(at, at + 2))
}

/// The 32-bit integer stored at `at` in `b`.
pub open spec fn u32_at(b: Seq<u8>, at: int) -> u32 {
    spec_u32_from_le_bytes(b.subrange(at, at + 4))
}

/// The 64-bit integer stored at `at` in `b`.
pub open spec fn u64_at(b: Seq<u8>, at: int) -> u64 {
    spec_u64_from_le_bytes(b.subrange(at, at + 8))
}

/// The bytes of a memory-registration descriptor: size, padding, address.
pub open spec fn alloc_ram_info_bytes(i: hax_alloc_ram_info) -> Seq<u8> {
    le32(i.size) + le32(i.pad) + le64(i.va)
}

/// The bytes of a memory-mapping descriptor: guest address, size, flags,
/// three padding bytes, host address.
pub open spec fn set_ram_info_bytes(i: hax_set_ram_info) -> Seq<u8> {
    le64(i.pa_start) + le32(i.size) + seq![i.flags] + seq![i.pad@[0], i.pad@[1], i.pad@[2]] + le64(
        i.va,
    )
}

/// The exit-channel descriptor held in 24 bytes.
pub open spec fn tunnel_info_of(b: Seq<u8>) -> hax_tunnel_info {
    hax_tunnel_info {
        va: u64_at(b, 0),
        io_va: u64_at(b, 8),
        size: u16_at(b, 16),
        pad: [u16_at(b, 18), u16_at(b, 20), u16_at(b, 22)],
    }
}

/// The bytes of a segment descriptor.
pub open spec fn segment_bytes(d: segment_desc_t) -> Seq<u8> {
    le16(d.selector) + le16(d._dummy) + le32(d.limit) + le64(d.base) + le32(d.ar) + le32(d.ipad)
}

/// The segment descriptor held in 24 bytes.
pub open spec fn segment_of(b: Seq<u8>) -> segment_desc_t {
    segment_desc_t {
        selector: u16_at(b, 0),
        _dummy: u16_at(b, 2),
        limit: u32_at(b, 4),
        base: u64_at(b, 8),
        ar: u32_at(b, 16),
        ipad: u32_at(b, 20),
    }
}

/// The bytes of the sixteen general-purpose registers.
pub open spec fn gprs_bytes(g: vcpu_state_t_anon_union_1_anon_struct) -> Seq<u8> {
    le64(g.rax.b64) + le64(g.rcx.b64) + le64(g.rdx.b64) + le64(g.rbx.b64) + le64(g.rsp.b64) + le64(
        g.rbp.b64,
    ) + le64(g.rsi.b64) + le64(g.rdi.b64) + le64(g.r8.b64) + le64(g.r9.b64) + le64(g.r10.b64)
        + le64(g.r11.b64) + le64(g.r12.b64) + le64(g.r13.b64) + le64(g.r14.b64) + le64(g.r15.b64)
}

/// The sixteen general-purpose registers held in 128 bytes.
pub open spec fn gprs_of(b: Seq<u8>) -> vcpu_state_t_anon_union_1_anon_struct {
    vcpu_state_t_anon_union_1_anon_struct {
        rax: gp_reg { b64: u64_at(b, 0) },
        rcx: gp_reg { b64: u64_at(b, 8) },
        rdx: gp_reg { b64: u64_at(b, 16) },
        rbx: gp_reg { b64: u64_at(b, 24) },
        rsp: gp_reg { b64: u64_at(b, 32) },
        rbp: gp_reg { b64: u64_at(b, 40) },
        rsi: gp_reg { b64: u64_at(b, 48) },
        rdi: gp_reg { b64: u64_at(b, 56) },
        r8: gp_reg { b64: u64_at(b, 64) },
        r9: gp_reg { b64: u64_at(b, 72) },
        r10: gp_reg { b64: u64_at(b, 80) },
        r11: gp_reg { b64: u64_at(b, 88) },
        r12: gp_reg { b64: u64_at(b, 96) },
        r13: gp_reg { b64: u64_at(b, 104) },
        r14: gp_reg { b64: u64_at(b, 112) },
        r15: gp_reg { b64: u64_at(b, 120) },
    }
}

/// The bytes of the control, debug and model-specific registers, the activity
/// state and the interruptibility state: the last 128 bytes of a snapshot.
pub open spec fn tail_bytes(s: vcpu_state_t) -> Seq<u8> {
    le64(s.cr0) + le64(s.cr2) + le64(s.cr3) + le64(s.cr4) + le64(s.dr0) + le64(s.dr1) + le64(s.dr2)
        + le64(s.dr3) + le64(s.dr6) + le64(s.dr7) + le64(s.pde) + le32(s.efer) + le32(
        s.sysenter_cs,
    ) + le64(s.sysenter_eip) + le64(s.sysenter_esp) + le32(s.activity_state) + le32(s.pad) + le64(
        s.interruptibility_state,
    )
}

/// The bytes of a whole register snapshot.
pub open spec fn state_bytes(s: vcpu_state_t) -> Seq<u8> {
    gprs_bytes(s.gprs) + le64(s.rip) + le64(s.rflags) + segment_bytes(s.cs) + segment_bytes(s.ss)
        + segment_bytes(s.ds) + segment_bytes(s.es) + segment_bytes(s.fs) + segment_bytes(s.gs)
        + segment_bytes(s.ldt) + segment_bytes(s.tr) + segment_bytes(s.gdt) + segment_bytes(s.idt)
        + tail_bytes(s)
}

/// The register snapshot held in 512 bytes.
pub open spec fn state_of(b: Seq<u8>) -> vcpu_state_t {
    let t = b.subrange(384, 512);
    vcpu_state_t {
        gprs: gprs_of(b.subrange(0, 128)),
        rip: u64_at(b, 128),
        rflags: u64_at(b, 136),
        cs: segment_of(b.subrange(144, 168)),
        ss: segment_of(b.subrange(168, 192)),
        ds: segment_of(b.subrange(192, 216)),
        es: segment_of(b.subrange(216, 240)),
        fs: segment_of(b.subrange(240, 264)),
        gs: segment_of(b.subrange(264, 288)),
        ldt: segment_of(b.subrange(288, 312)),
        tr: segment_of(b.subrange(312, 336)),
        gdt: segment_of(b.subrange(336, 360)),
        idt: segment_of(b.subrange(360, 384)),
        cr0: u64_at(t, 0),
        cr2: u64_at(t, 8),
        cr3: u64_at(t, 16),
        cr4: u64_at(t, 24),
        dr0: u64_at(t, 32),
        dr1: u64_at(t, 40),
        dr2: u64_at(t, 48),
        dr3: u64_at(t, 56),
        dr6: u64_at(t, 64),
        dr7: u64_at(t, 72),
        pde: u64_at(t, 80),
        efer: u32_at(t, 88),
        sysenter_cs: u32_at(t, 92),
        sysenter_eip: u64_at(t, 96),
        sysenter_esp: u64_at(t, 104),
        activity_state: u32_at(t, 112),
        pad: u32_at(t, 116),
        interruptibility_state: u64_at(t, 120),
    }
}

proof fn lemma_int_bytes()
    ensures
        forall|x: u16| #[trigger] le16(x).len() == 2 && spec_u16_from_le_bytes(le16(x)) == x,
        forall|x: u32| #[trigger] le32(x).len() == 4 && spec_u32_from_le_bytes(le32(x)) == x,
        forall|x: u64| #[trigger] le64(x).len() == 8 && spec_u64_from_le_bytes(le64(x)) == x,
{
    lemma_auto_spec_u16_to_from_le_bytes();
    lemma_auto_spec_u32_to_from_le_bytes();
    lemma_auto_spec_u64_to_from_le_bytes();
    assert forall|x: u16| #[trigger] le16(x).len() == 2 && spec_u16_from_le_bytes(le16(x)) == x by {
        assert(spec_u16_to_le_bytes(x).len() == 2);
    }
    assert forall|x: u32| #[trigger] le32(x).len() == 4 && spec_u32_from_le_bytes(le32(x)) == x by {
        assert(spec_u32_to_le_bytes(x).len() == 4);
    }
    assert forall|x: u64| #[trigger] le64(x).len() == 8 && spec_u64_from_le_bytes(le64(x)) == x by {
        assert(spec_u64_to_le_bytes(x).len() == 8);
    }
}

/// Reading a segment descriptor back from its bytes gives the descriptor.
pub proof fn lemma_segment_round_trip(d: segment_desc_t)
    ensures
        segment_bytes(d).len() == SEGMENT_DESC_SIZE,
        segment_of(segment_bytes(d)) == d,
{
    lemma_int_bytes();
    let b = segment_bytes(d);
    assert(b.subrange(0, 2) =~= le16(d.selector));
    assert(b.subrange(2, 4) =~= le16(d._dummy));
    assert(b.subrange(4, 8) =~= le32(d.limit));
    assert(b.subrange(8, 16) =~= le64(d.base));
    assert(b.subrange(16, 20) =~= le32(d.ar));
    assert(b.subrange(20, 24) =~= le32(d.ipad));
}

fn push_u16(v: &mut Vec<u8>, x: u16)
    ensures
        final(v)@ == old(v)@ + le16(x),
{
    let mut t = u16_to_le_bytes(x);
    v.append(&mut t);
}

fn push_u32(v: &mut Vec<u8>, x: u32)
    ensures
        final(v)@ == old(v)@ + le32(x),
{
    let mut t = u32_to_le_bytes(x);
    v.append(&mut t);
}

fn push_u64(v: &mut Vec<u8>, x: u64)
    ensures
        final(v)@ == old(v)@ + le64(x),
{
    let mut t = u64_to_le_bytes(x);
    v.append(&mut t);
}

fn read_u16(b: &[u8], at: usize) -> (r: u16)
    requires
        at + 2 <= b@.len(),
        at <= VCPU_STATE_SIZE,
    ensures
        r == u16_at(b@, at as int),
{
    u16_from_le_bytes(slice_subrange(b, at, at + 2))
}

fn read_u32(b: &[u8], at: usize) -> (r: u32)
    requires
        at + 4 <= b@.len(),
        at <= VCPU_STATE_SIZE,
    ensures
        r == u32_at(b@, at as int),
{
    u32_from_le_bytes(slice_subrange(b, at, at + 4))
}

fn read_u64(b: &[u8], at: usize) -> (r: u64)
    requires
        at + 8 <= b@.len(),
        at <= VCPU_STATE_SIZE,
    ensures
        r == u64_at(b@, at as int),
{
    u64_from_le_bytes(slice_subrange(b, at, at + 8))
}

impl segment_desc_t {
    /// The descriptor's 24 bytes in the driver's layout.
    pub fn to_bytes(&self) -> (r: Vec<u8>)
        ensures
            r@ == segment_bytes(*self),
            r@.len() == SEGMENT_DESC_SIZE,
    {
        proof {
            lemma_segment_round_trip(*self);
        }
        let mut v = u16_to_le_bytes(self.selector);
        push_u16(&mut v, self._dummy);
        push_u32(&mut v, self.limit);
        push_u64(&mut v, self.base);
        push_u32(&mut v, self.ar);
        push_u32(&mut v, self.ipad);
        v
    }

    /// The descriptor held in 24 bytes of the driver's layout.
    pub fn from_bytes(b: &[u8]) -> (r: segment_desc_t)
        requires
            b@.len() == SEGMENT_DESC_SIZE,
        ensures
            r == segment_of(b@),
    {
        segment_desc_t {
            selector: read_u16(b, 0),
            _dummy: read_u16(b, 2),
            limit: read_u32(b, 4),
            base: read_u64(b, 8),
            ar: read_u32(b, 16),
            ipad: read_u32(b, 20),
        }
    }
}

proof fn lemma_gprs_round_trip(g: vcpu_state_t_anon_union_1_anon_struct)
    ensures
        gprs_bytes(g).len() == 128,
        gprs_of(gprs_bytes(g)) == g,
{
    lemma_int_bytes();
    let b = gprs_bytes(g);
    assert(b.subrange(0, 8) =~= le64(g.rax.b64));
    assert(b.subrange(8, 16) =~= le64(g.rcx.b64));
    assert(b.subrange(16, 24) =~= le64(g.rdx.b64));
    assert(b.subrange(24, 32) =~= le64(g.rbx.b64));
    assert(b.subrange(32, 40) =~= le64(g.rsp.b64));
    assert(b.subrange(40, 48) =~= le64(g.rbp.b64));
    assert(b.subrange(48, 56) =~= le64(g.rsi.b64));
    assert(b.subrange(56, 64) =~= le64(g.rdi.b64));
    assert(b.subrange(64, 72) =~= le64(g.r8.b64));
    assert(b.subrange(72, 80) =~= le64(g.r9.b64));
    assert(b.subrange(80, 88) =~= le64(g.r10.b64));
    assert(b.subrange(88, 96) =~= le64(g.r11.b64));
    assert(b.subrange(96, 104) =~= le64(g.r12.b64));
    assert(b.subrange(104, 112) =~= le64(g.r13.b64));
    assert(b.subrange(112, 120) =~= le64(g.r14.b64));
    assert(b.subrange(120, 128) =~= le64(g.r15.b64));
}

proof fn lemma_tail_round_trip(s: vcpu_state_t)
    ensures
        tail_bytes(s).len() == 128,
        ({
            let t = tail_bytes(s);
            &&& u64_at(t, 0) == s.cr0
            &&& u64_at(t, 8) == s.cr2
            &&& u64_at(t, 16) == s.cr3
            &&& u64_at(t, 24) == s.cr4
            &&& u64_at(t, 32) == s.dr0
            &&& u64_at(t, 40) == s.dr1
            &&& u64_at(t, 48) == s.dr2
            &&& u64_at(t, 56) == s.dr3
            &&& u64_at(t, 64) == s.dr6
            &&& u64_at(t, 72) == s.dr7
            &&& u64_at(t, 80) == s.pde
            &&& u32_at(t, 88) == s.efer
            &&& u32_at(t, 92) == s.sysenter_cs
            &&& u64_at(t, 96) == s.sysenter_eip
            &&& u64_at(t, 104) == s.sysenter_esp
            &&& u32_at(t, 112) == s.activity_state
            &&& u32_at(t, 116) == s.pad
            &&& u64_at(t, 120) == s.interruptibility_state
        }),
{
    lemma_int_bytes();
    let t = tail_bytes(s);
    assert(t.subrange(0, 8) =~= le64(s.cr0));
    assert(t.subrange(8, 16) =~= le64(s.cr2));
    assert(t.subrange(16, 24) =~= le64(s.cr3));
    assert(t.subrange(24, 32) =~= le64(s.cr4));
    assert(t.subrange(32, 40) =~= le64(s.dr0));
    assert(t.subrange(40, 48) =~= le64(s.dr1));
    assert(t.subrange(48, 56) =~= le64(s.dr2));
    assert(t.subrange(56, 64) =~= le64(s.dr3));
    assert(t.subrange(64, 72) =~= le64(s.dr6));
    assert(t.subrange(72, 80) =~= le64(s.dr7));
    assert(t.subrange(80, 88) =~= le64(s.pde));
    assert(t.subrange(88, 92) =~= le32(s.efer));
    assert(t.subrange(92, 96) =~= le32(s.sysenter_cs));
    assert(t.subrange(96, 104) =~= le64(s.sysenter_eip));
    assert(t.subrange(104, 112) =~= le64(s.sysenter_esp));
    assert(t.subrange(112, 116) =~= le32(s.activity_state));
    assert(t.subrange(116, 120) =~= le32(s.pad));
    assert(t.subrange(120, 128) =~= le64(s.interruptibility_state));
}

/// Reading a register snapshot back from its bytes gives the snapshot, field for
/// field: what is written to the driver is what a read of those bytes returns.
pub proof fn lemma_state_round_trip(s: vcpu_state_t)
    ensures
        state_bytes(s).len() == VCPU_STATE_SIZE,
        state_of(state_bytes(s)) == s,
{
    lemma_int_bytes();
    lemma_gprs_round_trip(s.gprs);
    lemma_tail_round_trip(s);
    lemma_segment_round_trip(s.cs);
    lemma_segment_round_trip(s.ss);
    lemma_segment_round_trip(s.ds);
    lemma_segment_round_trip(s.es);
    lemma_segment_round_trip(s.fs);
    lemma_segment_round_trip(s.gs);
    lemma_segment_round_trip(s.ldt);
    lemma_segment_round_trip(s.tr);
    lemma_segment_round_trip(s.gdt);
    lemma_segment_round_trip(s.idt);
    let b = state_bytes(s);
    assert(b.subrange(0, 128) =~= gprs_bytes(s.gprs));
    assert(b.subrange(128, 136) =~= le64(s.rip));
    assert(b.subrange(136, 144) =~= le64(s.rflags));
    assert(b.subrange(144, 168) =~= segment_bytes(s.cs));
    assert(b.subrange(168, 192) =~= segment_bytes(s.ss));
    assert(b.subrange(192, 216) =~= segment_bytes(s.ds));
    assert(b.subrange(216, 240) =~= segment_bytes(s.es));
    assert(b.subrange(240, 264) =~= segment_bytes(s.fs));
    assert(b.subrange(264, 288) =~= segment_bytes(s.gs));
    assert(b.subrange(288, 312) =~= segment_bytes(s.ldt));
    assert(b.subrange(312, 336) =~= segment_bytes(s.tr));
    assert(b.subrange(336, 360) =~= segment_bytes(s.gdt));
    assert(b.subrange(360, 384) =~= segment_bytes(s.idt));
    assert(b.subrange(384, 512) =~= tail_bytes(s));
}

fn append_bytes(v: &mut Vec<u8>, tail: Vec<u8>)
    ensures
        final(v)@ == old(v)@ + tail@,
{
    let mut t = tail;
    v.append(&mut t);
}

impl vcpu_state_t {
    /// The snapshot's 512 bytes in the driver's layout.
    pub fn to_bytes(&self) -> (r: Vec<u8>)
        ensures
            r@ == state_bytes(*self),
            r@.len() == VCPU_STATE_SIZE,
            state_of(r@) == *self,
    {
        proof {
            lemma_state_round_trip(*self);
        }
        let g = &self.gprs;
        let mut v = u64_to_le_bytes(g.rax.b64);
        push_u64(&mut v, g.rcx.b64);
        push_u64(&mut v, g.rdx.b64);
        push_u64(&mut v, g.rbx.b64);
        push_u64(&mut v, g.rsp.b64);
        push_u64(&mut v, g.rbp.b64);
        push_u64(&mut v, g.rsi.b64);
        push_u64(&mut v, g.rdi.b64);
        push_u64(&mut v, g.r8.b64);
        push_u64(&mut v, g.r9.b64);
        push_u64(&mut v, g.r10.b64);
        push_u64(&mut v, g.r11.b64);
        push_u64(&mut v, g.r12.b64);
        push_u64(&mut v, g.r13.b64);
        push_u64(&mut v, g.r14.b64);
        push_u64(&mut v, g.r15.b64);
        assert(v@ == gprs_bytes(self.gprs));
        push_u64(&mut v, self.rip);
        push_u64(&mut v, self.rflags);
        append_bytes(&mut v, self.cs.to_bytes());
        append_bytes(&mut v, self.ss.to_bytes());
        append_bytes(&mut v, self.ds.to_bytes());
        append_bytes(&mut v, self.es.to_bytes());
        append_bytes(&mut v, self.fs.to_bytes());
        append_bytes(&mut v, self.gs.to_bytes());
        append_bytes(&mut v, self.ldt.to_bytes());
        append_bytes(&mut v, self.tr.to_bytes());
        append_bytes(&mut v, self.gdt.to_bytes());
        append_bytes(&mut v, self.idt.to_bytes());
        let mut t = u64_to_le_bytes(self.cr0);
        push_u64(&mut t, self.cr2);
        push_u64(&mut t, self.cr3);
        push_u64(&mut t, self.cr4);
        push_u64(&mut t, self.dr0);
        push_u64(&mut t, self.dr1);
        push_u64(&mut t, self.dr2);
        push_u64(&mut t, self.dr3);
        push_u64(&mut t, self.dr6);
        push_u64(&mut t, self.dr7);
        push_u64(&mut t, self.pde);
        push_u32(&mut t, self.efer);
        push_u32(&mut t, self.sysenter_cs);
        push_u64(&mut t, self.sysenter_eip);
        push_u64(&mut t, self.sysenter_esp);
        push_u32(&mut t, self.activity_state);
        push_u32(&mut t, self.pad);
        push_u64(&mut t, self.interruptibility_state);
        assert(t@ == tail_bytes(*self));
        append_bytes(&mut v, t);
        v
    }

    /// The snapshot held in 512 bytes of the driver's layout.
    pub fn from_bytes(b: &[u8]) -> (r: vcpu_state_t)
        requires
            b@.len() == VCPU_STATE_SIZE,
        ensures
            r == state_of(b@),
            state_bytes(r) == b@,
    {
        proof {
            lemma_state_bytes_round_trip(b@);
        }
        let gb = slice_subrange(b, 0, 128);
        let gprs = vcpu_state_t_anon_union_1_anon_struct {
            rax: gp_reg { b64: read_u64(gb, 0) },
            rcx: gp_reg { b64: read_u64(gb, 8) },
            rdx: gp_reg { b64: read_u64(gb, 16) },
            rbx: gp_reg { b64: read_u64(gb, 24) },
            rsp: gp_reg { b64: read_u64(gb, 32) },
            rbp: gp_reg { b64: read_u64(gb, 40) },
            rsi: gp_reg { b64: read_u64(gb, 48) },
            rdi: gp_reg { b64: read_u64(gb, 56) },
            r8: gp_reg { b64: read_u64(gb, 64) },
            r9: gp_reg { b64: read_u64(gb, 72) },
            r10: gp_reg { b64: read_u64(gb, 80) },
            r11: gp_reg { b64: read_u64(gb, 88) },
            r12: gp_reg { b64: read_u64(gb, 96) },
            r13: gp_reg { b64: read_u64(gb, 104) },
            r14: gp_reg { b64: read_u64(gb, 112) },
            r15: gp_reg { b64: read_u64(gb, 120) },
        };
        let t = slice_subrange(b, 384, 512);
        vcpu_state_t {
            gprs,
            rip: read_u64(b, 128),
            rflags: read_u64(b, 136),
            cs: segment_desc_t::from_bytes(slice_subrange(b, 144, 168)),
            ss: segment_desc_t::from_bytes(slice_subrange(b, 168, 192)),
            ds: segment_desc_t::from_bytes(slice_subrange(b, 192, 216)),
            es: segment_desc_t::from_bytes(slice_subrange(b, 216, 240)),
            fs: segment_desc_t::from_bytes(slice_subrange(b, 240, 264)),
            gs: segment_desc_t::from_bytes(slice_subrange(b, 264, 288)),
            ldt: segment_desc_t::from_bytes(slice_subrange(b, 288, 312)),
            tr: segment_desc_t::from_bytes(slice_subrange(b, 312, 336)),
            gdt: segment_desc_t::from_bytes(slice_subrange(b, 336, 360)),
            idt: segment_desc_t::from_bytes(slice_subrange(b, 360, 384)),
            cr0: read_u64(t, 0),
            cr2: read_u64(t, 8),
            cr3: read_u64(t, 16),
            cr4: read_u64(t, 24),
            dr0: read_u64(t, 32),
            dr1: read_u64(t, 40),
            dr2: read_u64(t, 48),
            dr3: read_u64(t, 56),
            dr6: read_u64(t, 64),
            dr7: read_u64(t, 72),
            pde: read_u64(t, 80),
            efer: read_u32(t, 88),
            sysenter_cs: read_u32(t, 92),
            sysenter_eip: read_u64(t, 96),
            sysenter_esp: read_u64(t, 104),
            activity_state: read_u32(t, 112),
            pad: read_u32(t, 116),
            interruptibility_state: read_u64(t, 120),
        }
    }
}

impl hax_alloc_ram_info {
    /// The descriptor's 16 bytes in the driver's layout.
    pub fn to_bytes(&self) -> (r: Vec<u8>)
        ensures
            r@ == alloc_ram_info_bytes(*self),
            r@.len() == ALLOC_RAM_INFO_SIZE,
    {
        proof {
            lemma_int_bytes();
        }
        let mut v = u32_to_le_bytes(self.size);
        push_u32(&mut v, self.pad);
        push_u64(&mut v, self.va);
        v
    }
}

impl hax_set_ram_info {
    /// The descriptor's 24 bytes in the driver's layout.
    pub fn to_bytes(&self) -> (r: Vec<u8>)
        ensures
            r@ == set_ram_info_bytes(*self),
            r@.len() == SET_RAM_INFO_SIZE,
    {
        proof {
            lemma_int_bytes();
        }
        let mut v = u64_to_le_bytes(self.pa_start);
        push_u32(&mut v, self.size);
        v.push(self.flags);
        let ghost before = v@;
        v.push(self.pad[0]);
        v.push(self.pad[1]);
        v.push(self.pad[2]);
        assert(v@ == before + seq![self.pad@[0], self.pad@[1], self.pad@[2]]);
        push_u64(&mut v, self.va);
        v
    }
}

impl hax_tunnel_info {
    /// The descriptor held in 24 bytes of the driver's layout.
    pub fn from_bytes(b: &[u8]) -> (r: hax_tunnel_info)
        requires
            b@.len() == TUNNEL_INFO_SIZE,
        ensures
            r == tunnel_info_of(b@),
    {
        hax_tunnel_info {
            va: read_u64(b, 0),
            io_va: read_u64(b, 8),
            size: read_u16(b, 16),
            pad: [read_u16(b, 18), read_u16(b, 20), read_u16(b, 22)],
        }
    }
}

/// The registration descriptor held in 16 bytes.
pub open spec fn alloc_ram_info_of(b: Seq<u8>) -> hax_alloc_ram_info {
    hax_alloc_ram_info { size: u32_at(b, 0), pad: u32_at(b, 4), va: u64_at(b, 8) }
}

/// The guest address, size, flags and host address of the mapping descriptor
/// held in 24 bytes.
pub open spec fn set_ram_info_fields(b: Seq<u8>) -> (u64, u32, u8, u64) {
    (u64_at(b, 0), u32_at(b, 8), b[12], u64_at(b, 16))
}

/// Reading a registration descriptor back from its bytes gives the descriptor.
pub proof fn lemma_alloc_ram_info_round_trip(i: hax_alloc_ram_info)
    ensures
        alloc_ram_info_of(alloc_ram_info_bytes(i)) == i,
{
    lemma_int_bytes();
    let b = alloc_ram_info_bytes(i);
    assert(b.subrange(0, 4) =~= le32(i.size));
    assert(b.subrange(4, 8) =~= le32(i.pad));
    assert(b.subrange(8, 16) =~= le64(i.va));
}

/// Reading a mapping descriptor back from its bytes gives its guest address,
/// size, flags and host address.
pub proof fn lemma_set_ram_info_round_trip(i: hax_set_ram_info)
    ensures
        set_ram_info_fields(set_ram_info_bytes(i)) == (i.pa_start, i.size, i.flags, i.va),
{
    lemma_int_bytes();
    let b = set_ram_info_bytes(i);
    assert(b.subrange(0, 8) =~= le64(i.pa_start));
    assert(b.subrange(8, 12) =~= le32(i.size));
    assert(b.subrange(16, 24) =~= le64(i.va));
}

proof fn lemma_bytes_int()
    ensures
        forall|b: Seq<u8>| b.len() == 2 ==> #[trigger] le16(spec_u16_from_le_bytes(b)) == b,
        forall|b: Seq<u8>| b.len() == 4 ==> #[trigger] le32(spec_u32_from_le_bytes(b)) == b,
        forall|b: Seq<u8>| b.len() == 8 ==> #[trigger] le64(spec_u64_from_le_bytes(b)) == b,
{
    lemma_auto_spec_u16_to_from_le_bytes();
    lemma_auto_spec_u32_to_from_le_bytes();
    lemma_auto_spec_u64_to_from_le_bytes();
    assert forall|b: Seq<u8>| b.len() == 2 implies #[trigger] le16(spec_u16_from_le_bytes(b)) == b by {
        assert(spec_u16_to_le_bytes(spec_u16_from_le_bytes(b)) == b);
    }
    assert forall|b: Seq<u8>| b.len() == 4 implies #[trigger] le32(spec_u32_from_le_bytes(b)) == b by {
        assert(spec_u32_to_le_bytes(spec_u32_from_le_bytes(b)) == b);
    }
    assert forall|b: Seq<u8>| b.len() == 8 implies #[trigger] le64(spec_u64_from_le_bytes(b)) == b by {
        assert(spec_u64_to_le_bytes(spec_u64_from_le_bytes(b)) == b);
    }
}

proof fn lemma_segment_bytes_of(b: Seq<u8>)
    requires
        b.len() == SEGMENT_DESC_SIZE,
    ensures
        segment_bytes(segment_of(b)) == b,
{
    lemma_bytes_int();
    assert(le16(u16_at(b, 0)) == b.subrange(0, 2));
    assert(le16(u16_at(b, 2)) == b.subrange(2, 4));
    assert(le32(u32_at(b, 4)) == b.subrange(4, 8));
    assert(le64(u64_at(b, 8)) == b.subrange(8, 16));
    assert(le32(u32_at(b, 16)) == b.subrange(16, 20));
    assert(le32(u32_at(b, 20)) == b.subrange(20, 24));
    assert(segment_bytes(segment_of(b)) =~= b);
}

proof fn lemma_gprs_bytes_of(b: Seq<u8>)
    requires
        b.len() == 128,
    ensures
        gprs_bytes(gprs_of(b)) == b,
{
    lemma_bytes_int();
    assert(le64(u64_at(b, 0)) == b.subrange(0, 8));
    assert(le64(u64_at(b, 8)) == b.subrange(8, 16));
    assert(le64(u64_at(b, 16)) == b.subrange(16, 24));
    assert(le64(u64_at(b, 24)) == b.subrange(24, 32));
    assert(le64(u64_at(b, 32)) == b.subrange(32, 40));
    assert(le64(u64_at(b, 40)) == b.subrange(40, 48));
    assert(le64(u64_at(b, 48)) == b.subrange(48, 56));
    assert(le64(u64_at(b, 56)) == b.subrange(56, 64));
    assert(le64(u64_at(b, 64)) == b.subrange(64, 72));
    assert(le64(u64_at(b, 72)) == b.subrange(72, 80));
    assert(le64(u64_at(b, 80)) == b.subrange(80, 88));
    assert(le64(u64_at(b, 88)) == b.subrange(88, 96));
    assert(le64(u64_at(b, 96)) == b.subrange(96, 104));
    assert(le64(u64_at(b, 104)) == b.subrange(104, 112));
    assert(le64(u64_at(b, 112)) == b.subrange(112, 120));
    assert(le64(u64_at(b, 120)) == b.subrange(120, 128));
    assert(gprs_bytes(gprs_of(b)) =~= b);
}

proof fn lemma_tail_bytes_of(b: Seq<u8>)
    requires
        b.len() == VCPU_STATE_SIZE,
    ensures
        tail_bytes(state_of(b)) == b.subrange(384, 512),
{
    lemma_bytes_int();
    let t = b.subrange(384, 512);
    assert(le64(u64_at(t, 0)) == t.subrange(0, 8));
    assert(le64(u64_at(t, 8)) == t.subrange(8, 16));
    assert(le64(u64_at(t, 16)) == t.subrange(16, 24));
    assert(le64(u64_at(t, 24)) == t.subrange(24, 32));
    assert(le64(u64_at(t, 32)) == t.subrange(32, 40));
    assert(le64(u64_at(t, 40)) == t.subrange(40, 48));
    assert(le64(u64_at(t, 48)) == t.subrange(48, 56));
    assert(le64(u64_at(t, 56)) == t.subrange(56, 64));
    assert(le64(u64_at(t, 64)) == t.subrange(64, 72));
    assert(le64(u64_at(t, 72)) == t.subrange(72, 80));
    assert(le64(u64_at(t, 80)) == t.subrange(80, 88));
    assert(le32(u32_at(t, 88)) == t.subrange(88, 92));
    assert(le32(u32_at(t, 92)) == t.subrange(92, 96));
    assert(le64(u64_at(t, 96)) == t.subrange(96, 104));
    assert(le64(u64_at(t, 104)) == t.subrange(104, 112));
    assert(le32(u32_at(t, 112)) == t.subrange(112, 116));
    assert(le32(u32_at(t, 116)) == t.subrange(116, 120));
    assert(le64(u64_at(t, 120)) == t.subrange(120, 128));
    assert(tail_bytes(state_of(b)) =~= t);
}

/// Writing back the snapshot read from any 512 bytes gives those bytes: a
/// snapshot read from the driver and sent back unchanged is the driver's own.
pub proof fn lemma_state_bytes_round_trip(b: Seq<u8>)
    requires
        b.len() == VCPU_STATE_SIZE,
    ensures
        state_bytes(state_of(b)) == b,
{
    lemma_bytes_int();
    lemma_gprs_bytes_of(b.subrange(0, 128));
    lemma_tail_bytes_of(b);
    lemma_segment_bytes_of(b.subrange(144, 168));
    lemma_segment_bytes_of(b.subrange(168, 192));
    lemma_segment_bytes_of(b.subrange(192, 216));
    lemma_segment_bytes_of(b.subrange(216, 240));
    lemma_segment_bytes_of(b.subrange(240, 264));
    lemma_segment_bytes_of(b.subrange(264, 288));
    lemma_segment_bytes_of(b.subrange(288, 312));
    lemma_segment_bytes_of(b.subrange(312, 336));
    lemma_segment_bytes_of(b.subrange(336, 360));
    lemma_segment_bytes_of(b.subrange(360, 384));
    assert(le64(u64_at(b, 128)) == b.subrange(128, 136));
    assert(le64(u64_at(b, 136)) == b.subrange(136, 144));
    assert(state_bytes(state_of(b)) =~= b);
}

} // verus!
