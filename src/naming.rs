//! The names of the driver's control channels.
//!
//! The device has one fixed name; a virtual machine's channel is named from its
//! id, and a virtual CPU's from its machine's id and its own, each id written in
//! decimal with at least two digits.
use vstd::prelude::*;

verus! {

/// The decimal digits of `n`, most significant first, with no leading zero.
pub open spec fn decimal(n: nat) -> Seq<u8>
    decreases n,
{
    if n < 10 {
        seq![(48 + n) as u8]
    } else {
        decimal(n / 10) + seq![(48 + n % 10) as u8]
    }
}

/// The decimal digits of `n`, padded on the left with zeros to two digits.
pub open spec fn two_digits(n: nat) -> Seq<u8> {
    if n < 10 {
        seq![48u8] + decimal(n)
    } else {
        decimal(n)
    }
}

/// `\\.\HAX`
pub open spec fn device_name() -> Seq<u8> {
    seq![92u8, 92, 46, 92, 72, 65, 88]
}

/// `\\.\hax_vm`
pub open spec fn vm_prefix() -> Seq<u8> {
    seq![92u8, 92, 46, 92, 104, 97, 120, 95, 118, 109]
}

/// `_vcpu`
pub open spec fn vcpu_infix() -> Seq<u8> {
    seq![95u8, 118, 99, 112, 117]
}

/// The name of the channel of virtual machine `vm_id`.
pub open spec fn vm_name(vm_id: u32) -> Seq<u8> {
    vm_prefix() + two_digits(vm_id as nat)
}

/// The name of the channel of virtual CPU `vcpu_id` of virtual machine `vm_id`.
pub open spec fn vcpu_name(vm_id: u32, vcpu_id: u32) -> Seq<u8> {
    vm_name(vm_id) + vcpu_infix() + two_digits(vcpu_id as nat)
}

fn push_decimal(v: &mut Vec<u8>, n: u32)
    ensures
        final(v)@ == old(v)@ + decimal(n as nat),
    decreases n,
{
    if n >= 10 {
        push_decimal(v, n / 10);
    }
    v.push((48 + n % 10) as u8);
    proof {
        if n < 10 {
            assert(n % 10 == n);
        }
        assert(v@ =~= old(v)@ + decimal(n as nat));
    }
}

fn push_two_digits(v: &mut Vec<u8>, n: u32)
    ensures
        final(v)@ == old(v)@ + two_digits(n as nat),
{
    if n < 10 {
        v.push(48u8);
        push_decimal(v, n);
        assert(v@ =~= old(v)@ + two_digits(n as nat));
    } else {
        push_decimal(v, n);
    }
}

/// The name of the device's own channel, as ASCII bytes without a terminator.
pub fn device_channel_name() -> (r: Vec<u8>)
    ensures
        r@ == device_name(),
{
    let r = vec![92u8, 92, 46, 92, 72, 65, 88];
    assert(r@ =~= device_name());
    r
}

/// The name of the channel of virtual machine `vm_id`, as ASCII bytes without a
/// terminator.
pub fn vm_channel_name(vm_id: u32) -> (r: Vec<u8>)
    ensures
        r@ == vm_name(vm_id),
{
    let mut r = vec![92u8, 92, 46, 92, 104, 97, 120, 95, 118, 109];
    assert(r@ =~= vm_prefix());
    push_two_digits(&mut r, vm_id);
    r
}

/// The name of the channel of virtual CPU `vcpu_id` of virtual machine `vm_id`, as
/// ASCII bytes without a terminator.
pub fn vcpu_channel_name(vm_id: u32, vcpu_id: u32) -> (r: Vec<u8>)
    ensures
        r@ == vcpu_name(vm_id, vcpu_id),
{
    let mut r = vm_channel_name(vm_id);
    let ghost head = r@;
    r.push(95u8);
    r.push(118u8);
    r.push(99u8);
    r.push(112u8);
    r.push(117u8);
    assert(r@ =~= head + vcpu_infix());
    push_two_digits(&mut r, vcpu_id);
    r
}

} // verus!
