use vstd::prelude::*;
use crate::color::{clear_color, spec_clear_color, Rgba8};
use crate::geometry::{image_byte_count, image_byte_len, MUTATE_FACTOR};
use crate::machine::mutated_element;

verus! {

/// What the mutating shader leaves in one element, computed on the host:
/// the element times the fixed factor, truncated to 32 bits.
fn mutate_one(x: u32) -> (v: u32)
    ensures
        v == mutated_element(x),
{
    proof {
        assert((x as int) * (MUTATE_FACTOR as int) < 0x10_0000_0000) by (nonlinear_arith)
            requires
                x <= 0xFFFF_FFFF && MUTATE_FACTOR == 12,
        ;
    }
    let wide: u64 = (x as u64) * (MUTATE_FACTOR as u64);
    (wide % 0x1_0000_0000u64) as u32
}

/// The host-side reference of one mutating dispatch: multiply every element
/// in place by the fixed factor, truncated to 32 bits. The readback of the
/// pass's storage buffer after one fenced run must equal this applied to
/// what the buffer held before.
pub fn apply_mutate_dispatch(data: &mut Vec<u32>)
    ensures
        final(data)@.len() == old(data)@.len(),
        forall|i: int|
            0 <= i < old(data)@.len() ==> final(data)@[i] == mutated_element(old(data)@[i]),
{
    let mut i: usize = 0;
    while i < data.len()
        invariant
            i <= data@.len(),
            data@.len() == old(data)@.len(),
            forall|j: int| 0 <= j < i ==> data@[j] == mutated_element(old(data)@[j]),
            forall|j: int| i <= j < data@.len() ==> data@[j] == old(data)@[j],
        decreases data@.len() - i,
    {
        let x = data[i];
        let v = mutate_one(x);
        data.set(i, v);
        i = i + 1;
    }
}

/// The bytes the clear/copy pass's staging buffer must hold after one run:
/// the image's byte footprint, with every byte the matching channel of the
/// fixed clear color.
pub fn expected_clear_bytes() -> (v: Vec<u8>)
    ensures
        v@.len() == image_byte_count(),
        forall|j: int| 0 <= j < v@.len() ==> v@[j] == spec_clear_color().spec_channel(j % 4),
{
    let color = clear_color();
    let n = image_byte_len();
    let mut v: Vec<u8> = Vec::new();
    let mut j: usize = 0;
    while j < n
        invariant
            j <= n,
            n == image_byte_count(),
            v@.len() == j,
            color == spec_clear_color(),
            forall|t: int| 0 <= t < j ==> v@[t] == spec_clear_color().spec_channel(t % 4),
        decreases n - j,
    {
        v.push(color.channel((j % 4) as u32));
        j = j + 1;
    }
    v
}

/// Whether a readback holds exactly one image's worth of bytes with every
/// pixel equal to `color`: byte `j` must hold channel `j` modulo four.
pub fn all_pixels_equal(bytes: &Vec<u8>, color: Rgba8) -> (r: bool)
    ensures
        r <==> {
            &&& bytes@.len() == image_byte_count()
            &&& forall|j: int| 0 <= j < bytes@.len() ==> bytes@[j] == color.spec_channel(j % 4)
        },
{
    if bytes.len() != image_byte_len() {
        return false;
    }
    let mut j: usize = 0;
    while j < bytes.len()
        invariant
            j <= bytes@.len(),
            forall|t: int| 0 <= t < j ==> bytes@[t] == color.spec_channel(t % 4),
        decreases bytes@.len() - j,
    {
        if bytes[j] != color.channel((j % 4) as u32) {
            assert(bytes@[j as int] != color.spec_channel((j as int) % 4));
            return false;
        }
        j = j + 1;
    }
    true
}

/// Whether every byte of a readback is zero: the negative answer is the
/// witness that a generating run overwrote the zero-initialized staging
/// buffer.
pub fn is_all_zero(bytes: &Vec<u8>) -> (r: bool)
    ensures
        r <==> forall|j: int| 0 <= j < bytes@.len() ==> bytes@[j] == 0,
{
    let mut j: usize = 0;
    while j < bytes.len()
        invariant
            j <= bytes@.len(),
            forall|t: int| 0 <= t < j ==> bytes@[t] == 0,
        decreases bytes@.len() - j,
    {
        if bytes[j] != 0 {
            assert(bytes@[j as int] != 0);
            return false;
        }
        j = j + 1;
    }
    true
}

/// Whether two byte readbacks are identical, length and contents.
pub fn bytes_equal(a: &Vec<u8>, b: &Vec<u8>) -> (r: bool)
    ensures
        r <==> a@ == b@,
{
    if a.len() != b.len() {
        assert(a@ != b@);
        return false;
    }
    let mut j: usize = 0;
    while j < a.len()
        invariant
            j <= a@.len(),
            a@.len() == b@.len(),
            forall|t: int| 0 <= t < j ==> a@[t] == b@[t],
        decreases a@.len() - j,
    {
        if a[j] != b[j] {
            assert(a@[j as int] != b@[j as int]);
            return false;
        }
        j = j + 1;
    }
    proof {
        assert(a@ =~= b@);
    }
    true
}

/// Whether two element readbacks are identical, length and contents.
pub fn elements_equal(a: &Vec<u32>, b: &Vec<u32>) -> (r: bool)
    ensures
        r <==> a@ == b@,
{
    if a.len() != b.len() {
        assert(a@ != b@);
        return false;
    }
    let mut j: usize = 0;
    while j < a.len()
        invariant
            j <= a@.len(),
            a@.len() == b@.len(),
            forall|t: int| 0 <= t < j ==> a@[t] == b@[t],
        decreases a@.len() - j,
    {
        if a[j] != b[j] {
            assert(a@[j as int] != b@[j as int]);
            return false;
        }
        j = j + 1;
    }
    proof {
        assert(a@ =~= b@);
    }
    true
}

} // verus!
