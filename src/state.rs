//! The full register snapshot of a virtual CPU.
use vstd::prelude::*;
use crate::registers::{
    gp_reg, segment_desc_t_anon_struct, interruptibility_state_t_anon_struct, spec_access_fields,
    spec_interruptibility_fields, with_low32,
};

verus! {

/// A segment or descriptor-table register: selector, limit, base and the
/// access-rights word, with the two padding words of the driver's layout.
#[derive(Clone, Copy, Debug, PartialEq, Eq, Structural)]
pub struct segment_desc_t {
    pub selector: u16,
    pub _dummy: u16,
    pub limit: u32,
    pub base: u64,
    pub ar: u32,
    pub ipad: u32,
}

impl segment_desc_t {
    /// A descriptor with every field zero.
    pub fn zeroed() -> (r: segment_desc_t)
        ensures
            r == (segment_desc_t { selector: 0, _dummy: 0, limit: 0, base: 0, ar: 0, ipad: 0 }),
    {
        segment_desc_t { selector: 0, _dummy: 0, limit: 0, base: 0, ar: 0, ipad: 0 }
    }

    /// The access-rights word read through its field view.
    pub fn access_rights(&self) -> (r: segment_desc_t_anon_struct)
        ensures
            r == spec_access_fields(self.ar),
            r.wf(),
    {
        segment_desc_t_anon_struct::from_ar(self.ar)
    }

    /// Writes the access-rights word through its field view; the other fields of
    /// the descriptor are kept.
    pub fn set_access_rights(&mut self, f: segment_desc_t_anon_struct)
        requires
            f.wf(),
        ensures
            spec_access_fields(final(self).ar) == f,
            *final(self) == (segment_desc_t { ar: final(self).ar, ..*old(self) }),
    {
        self.ar = f.to_ar();
    }
}

/// The sixteen general-purpose registers by name, in the driver's order.
#[derive(Clone, Copy, Debug, PartialEq, Eq, Structural)]
pub struct vcpu_state_t_anon_union_1_anon_struct {
    pub rax: gp_reg,
    pub rcx: gp_reg,
    pub rdx: gp_reg,
    pub rbx: gp_reg,
    pub rsp: gp_reg,
    pub rbp: gp_reg,
    pub rsi: gp_reg,
    pub rdi: gp_reg,
    pub r8: gp_reg,
    pub r9: gp_reg,
    pub r10: gp_reg,
    pub r11: gp_reg,
    pub r12: gp_reg,
    pub r13: gp_reg,
    pub r14: gp_reg,
    pub r15: gp_reg,
}

impl vcpu_state_t_anon_union_1_anon_struct {
    /// The registers as an array indexed by register number.
    pub open spec fn regs(&self) -> Seq<u64> {
        seq![
            self.rax.b64,
            self.rcx.b64,
            self.rdx.b64,
            self.rbx.b64,
            self.rsp.b64,
            self.rbp.b64,
            self.rsi.b64,
            self.rdi.b64,
            self.r8.b64,
            self.r9.b64,
            self.r10.b64,
            self.r11.b64,
            self.r12.b64,
            self.r13.b64,
            self.r14.b64,
            self.r15.b64,
        ]
    }

    /// All sixteen registers zero.
    pub fn zeroed() -> (r: vcpu_state_t_anon_union_1_anon_struct)
        ensures
            r.regs() == Seq::new(16, |i: int| 0u64),
    {
        let z = gp_reg::new(0);
        let r = vcpu_state_t_anon_union_1_anon_struct {
            rax: z,
            rcx: z,
            rdx: z,
            rbx: z,
            rsp: z,
            rbp: z,
            rsi: z,
            rdi: z,
            r8: z,
            r9: z,
            r10: z,
            r11: z,
            r12: z,
            r13: z,
            r14: z,
            r15: z,
        };
        assert(r.regs() =~= Seq::new(16, |i: int| 0u64));
        r
    }

    /// The 64-bit value of register number `i`.
    pub fn reg(&self, i: usize) -> (r: u64)
        requires
            i < 16,
        ensures
            r == self.regs()[i as int],
    {
        match i {
            0 => self.rax.b64,
            1 => self.rcx.b64,
            2 => self.rdx.b64,
            3 => self.rbx.b64,
            4 => self.rsp.b64,
            5 => self.rbp.b64,
            6 => self.rsi.b64,
            7 => self.rdi.b64,
            8 => self.r8.b64,
            9 => self.r9.b64,
            10 => self.r10.b64,
            11 => self.r11.b64,
            12 => self.r12.b64,
            13 => self.r13.b64,
            14 => self.r14.b64,
            _ => self.r15.b64,
        }
    }

    /// Writes the 64-bit value of register number `i`; the others are kept.
    pub fn set_reg(&mut self, i: usize, v: u64)
        requires
            i < 16,
        ensures
            final(self).regs() == old(self).regs().update(i as int, v),
    {
        let g = gp_reg::new(v);
        match i {
            0 => self.rax = g,
            1 => self.rcx = g,
            2 => self.rdx = g,
            3 => self.rbx = g,
            4 => self.rsp = g,
            5 => self.rbp = g,
            6 => self.rsi = g,
            7 => self.rdi = g,
            8 => self.r8 = g,
            9 => self.r9 = g,
            10 => self.r10 = g,
            11 => self.r11 = g,
            12 => self.r12 = g,
            13 => self.r13 = g,
            14 => self.r14 = g,
            _ => self.r15 = g,
        }
        assert(self.regs() =~= old(self).regs().update(i as int, v));
    }
}

/// The architectural state of one virtual CPU, field for field in the driver's
/// order. The instruction pointer, the flags and the interruptibility state are
/// each held in their 64-bit form; their narrower views are methods.
#[derive(Clone, Copy, Debug, PartialEq, Eq, Structural)]
pub struct vcpu_state_t {
    pub gprs: vcpu_state_t_anon_union_1_anon_struct,
    pub rip: u64,
    pub rflags: u64,
    pub cs: segment_desc_t,
    pub ss: segment_desc_t,
    pub ds: segment_desc_t,
    pub es: segment_desc_t,
    pub fs: segment_desc_t,
    pub gs: segment_desc_t,
    pub ldt: segment_desc_t,
    pub tr: segment_desc_t,
    pub gdt: segment_desc_t,
    pub idt: segment_desc_t,
    pub cr0: u64,
    pub cr2: u64,
    pub cr3: u64,
    pub cr4: u64,
    pub dr0: u64,
    pub dr1: u64,
    pub dr2: u64,
    pub dr3: u64,
    pub dr6: u64,
    pub dr7: u64,
    pub pde: u64,
    pub efer: u32,
    pub sysenter_cs: u32,
    pub sysenter_eip: u64,
    pub sysenter_esp: u64,
    pub activity_state: u32,
    pub pad: u32,
    pub interruptibility_state: u64,
}

impl vcpu_state_t {
    /// Every register, descriptor and word zero.
    pub open spec fn is_zeroed(&self) -> bool {
        let z = segment_desc_t { selector: 0, _dummy: 0, limit: 0, base: 0, ar: 0, ipad: 0 };
        &&& self.gprs.regs() == Seq::new(16, |i: int| 0u64)
        &&& self.rip == 0 && self.rflags == 0
        &&& self.cs == z && self.ss == z && self.ds == z && self.es == z && self.fs == z
        &&& self.gs == z && self.ldt == z && self.tr == z && self.gdt == z && self.idt == z
        &&& self.cr0 == 0 && self.cr2 == 0 && self.cr3 == 0 && self.cr4 == 0
        &&& self.dr0 == 0 && self.dr1 == 0 && self.dr2 == 0 && self.dr3 == 0
        &&& self.dr6 == 0 && self.dr7 == 0 && self.pde == 0
        &&& self.efer == 0 && self.sysenter_cs == 0 && self.sysenter_eip == 0
        &&& self.sysenter_esp == 0 && self.activity_state == 0 && self.pad == 0
        &&& self.interruptibility_state == 0
    }

    /// The snapshot with every field zero.
    pub fn zeroed() -> (r: vcpu_state_t)
        ensures
            r.is_zeroed(),
    {
        let z = segment_desc_t::zeroed();
        vcpu_state_t {
            gprs: vcpu_state_t_anon_union_1_anon_struct::zeroed(),
            rip: 0,
            rflags: 0,
            cs: z,
            ss: z,
            ds: z,
            es: z,
            fs: z,
            gs: z,
            ldt: z,
            tr: z,
            gdt: z,
            idt: z,
            cr0: 0,
            cr2: 0,
            cr3: 0,
            cr4: 0,
            dr0: 0,
            dr1: 0,
            dr2: 0,
            dr3: 0,
            dr6: 0,
            dr7: 0,
            pde: 0,
            efer: 0,
            sysenter_cs: 0,
            sysenter_eip: 0,
            sysenter_esp: 0,
            activity_state: 0,
            pad: 0,
            interruptibility_state: 0,
        }
    }

    /// The 32-bit view of the instruction pointer.
    pub fn eip(&self) -> (r: u32)
        ensures
            r == self.rip % 0x1_0000_0000,
    {
        gp_reg::new(self.rip).b32()
    }

    /// Writes the 32-bit view of the instruction pointer; its high half and every
    /// other field are kept.
    pub fn set_eip(&mut self, v: u32)
        ensures
            *final(self) == (vcpu_state_t { rip: with_low32(old(self).rip, v), ..*old(self) }),
    {
        let mut g = gp_reg::new(self.rip);
        g.set_b32(v);
        self.rip = g.b64;
    }

    /// The 32-bit view of the flags register.
    pub fn eflags(&self) -> (r: u32)
        ensures
            r == self.rflags % 0x1_0000_0000,
    {
        gp_reg::new(self.rflags).b32()
    }

    /// Writes the 32-bit view of the flags register; its high half and every other
    /// field are kept.
    pub fn set_eflags(&mut self, v: u32)
        ensures
            *final(self) == (vcpu_state_t { rflags: with_low32(old(self).rflags, v), ..*old(self) }),
    {
        let mut g = gp_reg::new(self.rflags);
        g.set_b32(v);
        self.rflags = g.b64;
    }

    /// The 32-bit raw view of the interruptibility state.
    pub fn interruptibility_raw(&self) -> (r: u32)
        ensures
            r == self.interruptibility_state % 0x1_0000_0000,
    {
        gp_reg::new(self.interruptibility_state).b32()
    }

    /// The interruptibility state read through its field view.
    pub fn interruptibility(&self) -> (r: interruptibility_state_t_anon_struct)
        ensures
            r == spec_interruptibility_fields((self.interruptibility_state % 0x1_0000_0000) as u32),
            r.wf(),
    {
        interruptibility_state_t_anon_struct::from_raw(self.interruptibility_raw())
    }

    /// Writes the interruptibility state through its field view; the high half of
    /// its 64-bit storage and every other field are kept.
    pub fn set_interruptibility(&mut self, f: interruptibility_state_t_anon_struct)
        requires
            f.wf(),
        ensures
            spec_interruptibility_fields((final(self).interruptibility_state % 0x1_0000_0000) as u32)
                == f,
            final(self).interruptibility_state / 0x1_0000_0000 == old(self).interruptibility_state
                / 0x1_0000_0000,
            *final(self) == (vcpu_state_t {
                interruptibility_state: final(self).interruptibility_state,
                ..*old(self)
            }),
    {
        let w: u32 = f.to_raw();
        let mut g = gp_reg::new(self.interruptibility_state);
        g.set_b32(w);
        proof {
            crate::registers::lemma_narrow_write_keeps_other_bits(
                self.interruptibility_state,
                0,
                0,
                w,
            );
        }
        self.interruptibility_state = g.b64;
    }
}

} // verus!
