//! The register snapshot of one virtual CPU and its overlapping views.
//!
//! Each group of overlapping views is held once, in its widest form; the narrower
//! views read and write sub-ranges of those bits, so a write through any view is
//! seen through every other view of the same storage.
use vstd::prelude::*;

verus! {

/// `raw` with its low eight bits replaced by `v`.
pub open spec fn with_low8(raw: u64, v: u8) -> u64 {
    (raw & 0xffff_ffff_ffff_ff00) | (v as u64)
}

/// `raw` with bits 8..16 replaced by `v`.
pub open spec fn with_high8(raw: u64, v: u8) -> u64 {
    (raw & 0xffff_ffff_ffff_00ff) | ((v as u64) << 8)
}

/// `raw` with its low sixteen bits replaced by `v`.
pub open spec fn with_low16(raw: u64, v: u16) -> u64 {
    (raw & 0xffff_ffff_ffff_0000) | (v as u64)
}

/// `raw` with its low thirty-two bits replaced by `v`.
pub open spec fn with_low32(raw: u64, v: u32) -> u64 {
    (raw & 0xffff_ffff_0000_0000) | (v as u64)
}

/// The two byte-wide views of a general-purpose register: bits 0..8 and 8..16.
#[derive(Clone, Copy, Debug, PartialEq, Eq, Structural)]
pub struct eight_bit_values {
    pub low: u8,
    pub high: u8,
}

/// One general-purpose register, addressable as 8-, 16-, 32- and 64-bit views of
/// the same sixty-four bits.
#[derive(Clone, Copy, Debug, PartialEq, Eq, Structural)]
pub struct gp_reg {
    pub b64: u64,
}

impl gp_reg {
    pub fn new(b64: u64) -> (r: gp_reg)
        ensures
            r.b64 == b64,
    {
        gp_reg { b64 }
    }

    /// The low two bytes.
    pub fn b8(&self) -> (r: eight_bit_values)
        ensures
            r.low == self.b64 % 0x100,
            r.high == (self.b64 / 0x100) % 0x100,
    {
        let x: u64 = self.b64;
        let low: u8 = (x & 0xff) as u8;
        let high: u8 = ((x >> 8) & 0xff) as u8;
        assert(x & 0xff == x % 0x100 && (x >> 8) & 0xff == (x / 0x100) % 0x100) by (bit_vector);
        eight_bit_values { low, high }
    }

    /// Writes the lowest byte.
    pub fn set_b8_low(&mut self, v: u8)
        ensures
            final(self).b64 == with_low8(old(self).b64, v),
    {
        self.b64 = (self.b64 & 0xffff_ffff_ffff_ff00) | (v as u64);
    }

    /// Writes the second-lowest byte.
    pub fn set_b8_high(&mut self, v: u8)
        ensures
            final(self).b64 == with_high8(old(self).b64, v),
    {
        self.b64 = (self.b64 & 0xffff_ffff_ffff_00ff) | ((v as u64) << 8);
    }

    pub fn b16(&self) -> (r: u16)
        ensures
            r == self.b64 % 0x1_0000,
    {
        let x: u64 = self.b64;
        assert((x & 0xffff) == x % 0x1_0000) by (bit_vector);
        (x & 0xffff) as u16
    }

    pub fn set_b16(&mut self, v: u16)
        ensures
            final(self).b64 == with_low16(old(self).b64, v),
    {
        self.b64 = (self.b64 & 0xffff_ffff_ffff_0000) | (v as u64);
    }

    pub fn b32(&self) -> (r: u32)
        ensures
            r == self.b64 % 0x1_0000_0000,
    {
        let x: u64 = self.b64;
        assert((x & 0xffff_ffff) == x % 0x1_0000_0000) by (bit_vector);
        (x & 0xffff_ffff) as u32
    }

    pub fn set_b32(&mut self, v: u32)
        ensures
            final(self).b64 == with_low32(old(self).b64, v),
    {
        self.b64 = (self.b64 & 0xffff_ffff_0000_0000) | (v as u64);
    }

    pub fn set_b64(&mut self, v: u64)
        ensures
            final(self).b64 == v,
    {
        self.b64 = v;
    }
}

/// A write through a narrow view of a 64-bit register changes exactly the bits of
/// that view: read back through the 64-bit view, the bits above it are unchanged,
/// the bits below it are unchanged, and the view's own bits hold the written value.
pub proof fn lemma_narrow_write_keeps_other_bits(raw: u64, v8: u8, v16: u16, v32: u32)
    ensures
        with_low8(raw, v8) / 0x100 == raw / 0x100,
        with_low8(raw, v8) % 0x100 == v8,
        with_high8(raw, v8) / 0x1_0000 == raw / 0x1_0000,
        (with_high8(raw, v8) / 0x100) % 0x100 == v8,
        with_high8(raw, v8) % 0x100 == raw % 0x100,
        with_low16(raw, v16) / 0x1_0000 == raw / 0x1_0000,
        with_low16(raw, v16) % 0x1_0000 == v16,
        with_low32(raw, v32) / 0x1_0000_0000 == raw / 0x1_0000_0000,
        with_low32(raw, v32) % 0x1_0000_0000 == v32,
{
    assert((raw & 0xffff_ffff_ffff_ff00 | v8 as u64) / 0x100 == raw / 0x100 && (raw
        & 0xffff_ffff_ffff_ff00 | v8 as u64) % 0x100 == v8) by (bit_vector);
    assert((raw & 0xffff_ffff_ffff_00ff | (v8 as u64) << 8) / 0x1_0000 == raw / 0x1_0000 && ((
    raw & 0xffff_ffff_ffff_00ff | (v8 as u64) << 8) / 0x100) % 0x100 == v8 && (raw
        & 0xffff_ffff_ffff_00ff | (v8 as u64) << 8) % 0x100 == raw % 0x100) by (bit_vector);
    assert((raw & 0xffff_ffff_ffff_0000 | v16 as u64) / 0x1_0000 == raw / 0x1_0000 && (raw
        & 0xffff_ffff_ffff_0000 | v16 as u64) % 0x1_0000 == v16) by (bit_vector);
    assert((raw & 0xffff_ffff_0000_0000 | v32 as u64) / 0x1_0000_0000 == raw / 0x1_0000_0000
        && (raw & 0xffff_ffff_0000_0000 | v32 as u64) % 0x1_0000_0000 == v32) by (bit_vector);
}

/// The access-rights word of a segment descriptor, split into its fields, lowest
/// bits first: type (4 bits), descriptor (1), privilege level (2), present (1),
/// reserved (4), available (1), long mode (1), operand size (1), granularity (1),
/// null (1) and reserved (15).
#[derive(Clone, Copy, Debug, PartialEq, Eq, Structural)]
pub struct segment_desc_t_anon_struct {
    pub segment_type: u8,
    pub desc: u8,
    pub dpl: u8,
    pub present: u8,
    pub reserved: u8,
    pub available: u8,
    pub long_mode: u8,
    pub operand_size: u8,
    pub granularity: u8,
    pub null: u8,
    pub reserved2: u16,
}

/// The fields of the access-rights word `ar`.
pub open spec fn spec_access_fields(ar: u32) -> segment_desc_t_anon_struct {
    segment_desc_t_anon_struct {
        segment_type: (ar & 0xf) as u8,
        desc: ((ar >> 4) & 1) as u8,
        dpl: ((ar >> 5) & 3) as u8,
        present: ((ar >> 7) & 1) as u8,
        reserved: ((ar >> 8) & 0xf) as u8,
        available: ((ar >> 12) & 1) as u8,
        long_mode: ((ar >> 13) & 1) as u8,
        operand_size: ((ar >> 14) & 1) as u8,
        granularity: ((ar >> 15) & 1) as u8,
        null: ((ar >> 16) & 1) as u8,
        reserved2: ((ar >> 17) & 0x7fff) as u16,
    }
}

/// The access-rights word made of the fields `f`.
pub open spec fn spec_access_word(f: segment_desc_t_anon_struct) -> u32 {
    (f.segment_type as u32) | (f.desc as u32) << 4 | (f.dpl as u32) << 5 | (f.present as u32) << 7
        | (f.reserved as u32) << 8 | (f.available as u32) << 12 | (f.long_mode as u32) << 13
        | (f.operand_size as u32) << 14 | (f.granularity as u32) << 15 | (f.null as u32) << 16
        | (f.reserved2 as u32) << 17
}

impl segment_desc_t_anon_struct {
    /// Every field fits in its width.
    pub open spec fn wf(&self) -> bool {
        &&& self.segment_type < 16
        &&& self.desc < 2
        &&& self.dpl < 4
        &&& self.present < 2
        &&& self.reserved < 16
        &&& self.available < 2
        &&& self.long_mode < 2
        &&& self.operand_size < 2
        &&& self.granularity < 2
        &&& self.null < 2
        &&& self.reserved2 < 0x8000
    }

    /// Splits an access-rights word into its fields.
    pub fn from_ar(ar: u32) -> (r: segment_desc_t_anon_struct)
        ensures
            r == spec_access_fields(ar),
            r.wf(),
    {
        proof {
            lemma_access_fields_fit(ar);
        }
        segment_desc_t_anon_struct {
            segment_type: (ar & 0xf) as u8,
            desc: ((ar >> 4) & 1) as u8,
            dpl: ((ar >> 5) & 3) as u8,
            present: ((ar >> 7) & 1) as u8,
            reserved: ((ar >> 8) & 0xf) as u8,
            available: ((ar >> 12) & 1) as u8,
            long_mode: ((ar >> 13) & 1) as u8,
            operand_size: ((ar >> 14) & 1) as u8,
            granularity: ((ar >> 15) & 1) as u8,
            null: ((ar >> 16) & 1) as u8,
            reserved2: ((ar >> 17) & 0x7fff) as u16,
        }
    }

    /// Packs the fields into an access-rights word.
    pub fn to_ar(&self) -> (r: u32)
        requires
            self.wf(),
        ensures
            r == spec_access_word(*self),
            spec_access_fields(r) == *self,
    {
        proof {
            lemma_access_fields_of_word(*self);
        }
        (self.segment_type as u32) | (self.desc as u32) << 4 | (self.dpl as u32) << 5
            | (self.present as u32) << 7 | (self.reserved as u32) << 8 | (self.available as u32)
            << 12 | (self.long_mode as u32) << 13 | (self.operand_size as u32) << 14 | (
        self.granularity as u32) << 15 | (self.null as u32) << 16 | (self.reserved2 as u32) << 17
    }
}

proof fn lemma_access_fields_fit(ar: u32)
    ensures
        spec_access_fields(ar).wf(),
        (ar & 0xf) < 256,
        (ar >> 4) & 1 < 2,
        (ar >> 5) & 3 < 4,
        (ar >> 7) & 1 < 2,
        (ar >> 8) & 0xf < 256,
        (ar >> 12) & 1 < 2,
        (ar >> 13) & 1 < 2,
        (ar >> 14) & 1 < 2,
        (ar >> 15) & 1 < 2,
        (ar >> 16) & 1 < 2,
        (ar >> 17) & 0x7fff < 0x1_0000,
{
    assert(ar & 0xf < 16 && (ar >> 4) & 1 < 2 && (ar >> 5) & 3 < 4 && (ar >> 7) & 1 < 2 && (ar
        >> 8) & 0xf < 16 && (ar >> 12) & 1 < 2 && (ar >> 13) & 1 < 2 && (ar >> 14) & 1 < 2 && (ar
        >> 15) & 1 < 2 && (ar >> 16) & 1 < 2 && (ar >> 17) & 0x7fff < 0x8000) by (bit_vector);
}

/// Splitting an access-rights word and packing its fields again gives the word back.
pub proof fn lemma_access_word_of_fields(ar: u32)
    ensures
        spec_access_word(spec_access_fields(ar)) == ar,
{
    lemma_access_fields_fit(ar);
    let f = spec_access_fields(ar);
    assert(f.segment_type as u32 == ar & 0xf);
    assert(f.desc as u32 == (ar >> 4) & 1);
    assert(f.dpl as u32 == (ar >> 5) & 3);
    assert(f.present as u32 == (ar >> 7) & 1);
    assert(f.reserved as u32 == (ar >> 8) & 0xf);
    assert(f.available as u32 == (ar >> 12) & 1);
    assert(f.long_mode as u32 == (ar >> 13) & 1);
    assert(f.operand_size as u32 == (ar >> 14) & 1);
    assert(f.granularity as u32 == (ar >> 15) & 1);
    assert(f.null as u32 == (ar >> 16) & 1);
    assert(f.reserved2 as u32 == (ar >> 17) & 0x7fff);
    assert(ar == (ar & 0xf) | ((ar >> 4) & 1) << 4 | ((ar >> 5) & 3) << 5 | ((ar >> 7) & 1) << 7
        | ((ar >> 8) & 0xf) << 8 | ((ar >> 12) & 1) << 12 | ((ar >> 13) & 1) << 13 | ((ar >> 14)
        & 1) << 14 | ((ar >> 15) & 1) << 15 | ((ar >> 16) & 1) << 16 | ((ar >> 17) & 0x7fff)
        << 17) by (bit_vector);
}

/// Packing well-formed fields and splitting the word again gives the fields back.
pub proof fn lemma_access_fields_of_word(f: segment_desc_t_anon_struct)
    requires
        f.wf(),
    ensures
        spec_access_fields(spec_access_word(f)) == f,
{
    let t: u32 = f.segment_type as u32;
    let d: u32 = f.desc as u32;
    let p: u32 = f.dpl as u32;
    let pr: u32 = f.present as u32;
    let rs: u32 = f.reserved as u32;
    let av: u32 = f.available as u32;
    let l: u32 = f.long_mode as u32;
    let o: u32 = f.operand_size as u32;
    let g: u32 = f.granularity as u32;
    let n: u32 = f.null as u32;
    let r2: u32 = f.reserved2 as u32;
    let ar: u32 = spec_access_word(f);
    assert(ar == t | d << 4 | p << 5 | pr << 7 | rs << 8 | av << 12 | l << 13 | o << 14 | g << 15
        | n << 16 | r2 << 17);
    assert({
        let w: u32 = t | d << 4 | p << 5 | pr << 7 | rs << 8 | av << 12 | l << 13 | o << 14 | g << 15
            | n << 16 | r2 << 17;
        &&& w & 0xf == t
        &&& (w >> 4) & 1 == d
        &&& (w >> 5) & 3 == p
        &&& (w >> 7) & 1 == pr
        &&& (w >> 8) & 0xf == rs
        &&& (w >> 12) & 1 == av
        &&& (w >> 13) & 1 == l
        &&& (w >> 14) & 1 == o
        &&& (w >> 15) & 1 == g
        &&& (w >> 16) & 1 == n
        &&& (w >> 17) & 0x7fff == r2
    }) by (bit_vector)
        requires
            t < 16,
            d < 2,
            p < 4,
            pr < 2,
            rs < 16,
            av < 2,
            l < 2,
            o < 2,
            g < 2,
            n < 2,
            r2 < 0x8000,
    ;
}

/// The interruptibility-state word split into its fields, lowest bits first: four
/// single-bit blocking flags and twenty-eight reserved bits.
#[derive(Clone, Copy, Debug, PartialEq, Eq, Structural)]
pub struct interruptibility_state_t_anon_struct {
    pub sti_blocking: u8,
    pub movss_blocking: u8,
    pub smi_blocking: u8,
    pub nmi_blocking: u8,
    pub reserved: u32,
}

/// The fields of the interruptibility-state word `raw`.
pub open spec fn spec_interruptibility_fields(raw: u32) -> interruptibility_state_t_anon_struct {
    interruptibility_state_t_anon_struct {
        sti_blocking: (raw & 1) as u8,
        movss_blocking: ((raw >> 1) & 1) as u8,
        smi_blocking: ((raw >> 2) & 1) as u8,
        nmi_blocking: ((raw >> 3) & 1) as u8,
        reserved: raw >> 4,
    }
}

/// The interruptibility-state word made of the fields `f`.
pub open spec fn spec_interruptibility_word(f: interruptibility_state_t_anon_struct) -> u32 {
    (f.sti_blocking as u32) | (f.movss_blocking as u32) << 1 | (f.smi_blocking as u32) << 2
        | (f.nmi_blocking as u32) << 3 | f.reserved << 4
}

impl interruptibility_state_t_anon_struct {
    /// Every field fits in its width.
    pub open spec fn wf(&self) -> bool {
        &&& self.sti_blocking < 2
        &&& self.movss_blocking < 2
        &&& self.smi_blocking < 2
        &&& self.nmi_blocking < 2
        &&& self.reserved < 0x1000_0000
    }

    /// Splits an interruptibility-state word into its fields.
    pub fn from_raw(raw: u32) -> (r: interruptibility_state_t_anon_struct)
        ensures
            r == spec_interruptibility_fields(raw),
            r.wf(),
    {
        assert(raw & 1 < 2 && (raw >> 1) & 1 < 2 && (raw >> 2) & 1 < 2 && (raw >> 3) & 1 < 2 && raw
            >> 4 < 0x1000_0000) by (bit_vector);
        interruptibility_state_t_anon_struct {
            sti_blocking: (raw & 1) as u8,
            movss_blocking: ((raw >> 1) & 1) as u8,
            smi_blocking: ((raw >> 2) & 1) as u8,
            nmi_blocking: ((raw >> 3) & 1) as u8,
            reserved: raw >> 4,
        }
    }

    /// Packs the fields into an interruptibility-state word.
    pub fn to_raw(&self) -> (r: u32)
        requires
            self.wf(),
        ensures
            r == spec_interruptibility_word(*self),
            spec_interruptibility_fields(r) == *self,
    {
        proof {
            lemma_interruptibility_fields_of_word(*self);
        }
        (self.sti_blocking as u32) | (self.movss_blocking as u32) << 1 | (self.smi_blocking as u32)
            << 2 | (self.nmi_blocking as u32) << 3 | self.reserved << 4
    }
}

/// Splitting an interruptibility-state word and packing its fields again gives the
/// word back.
pub proof fn lemma_interruptibility_word_of_fields(raw: u32)
    ensures
        spec_interruptibility_word(spec_interruptibility_fields(raw)) == raw,
        spec_interruptibility_fields(raw).wf(),
{
    assert(raw & 1 < 2 && (raw >> 1) & 1 < 2 && (raw >> 2) & 1 < 2 && (raw >> 3) & 1 < 2 && raw
        >> 4 < 0x1000_0000) by (bit_vector);
    let f = spec_interruptibility_fields(raw);
    assert(f.sti_blocking as u32 == raw & 1);
    assert(f.movss_blocking as u32 == (raw >> 1) & 1);
    assert(f.smi_blocking as u32 == (raw >> 2) & 1);
    assert(f.nmi_blocking as u32 == (raw >> 3) & 1);
    assert(raw == (raw & 1) | ((raw >> 1) & 1) << 1 | ((raw >> 2) & 1) << 2 | ((raw >> 3) & 1) << 3
        | (raw >> 4) << 4) by (bit_vector);
}

/// Packing well-formed fields and splitting the word again gives the fields back.
pub proof fn lemma_interruptibility_fields_of_word(f: interruptibility_state_t_anon_struct)
    requires
        f.wf(),
    ensures
        spec_interruptibility_fields(spec_interruptibility_word(f)) == f,
{
    let a: u32 = f.sti_blocking as u32;
    let b: u32 = f.movss_blocking as u32;
    let c: u32 = f.smi_blocking as u32;
    let d: u32 = f.nmi_blocking as u32;
    let r: u32 = f.reserved;
    assert({
        let w: u32 = a | b << 1 | c << 2 | d << 3 | r << 4;
        &&& w & 1 == a
        &&& (w >> 1) & 1 == b
        &&& (w >> 2) & 1 == c
        &&& (w >> 3) & 1 == d
        &&& w >> 4 == r
    }) by (bit_vector)
        requires
            a < 2,
            b < 2,
            c < 2,
            d < 2,
            r < 0x1000_0000,
    ;
}

} // verus!
