//! The size and alignment arithmetic behind a record buffer.

use vstd::prelude::*;

verus! {

/// `n` is a power of two (1, 2, 4, ...).
pub open spec fn is_pow2(n: nat) -> bool
    decreases n,
{
    if n == 1 {
        true
    } else if n < 2 || n % 2 != 0 {
        false
    } else {
        is_pow2(n / 2)
    }
}

/// The smallest multiple of `align` that is at least `size`.
pub open spec fn round_up(size: nat, align: nat) -> nat
    recommends
        align > 0,
{
    if size % align == 0 {
        size
    } else {
        (size + (align - size % align)) as nat
    }
}

/// A buffer request of `size` logical bytes and `align` alignment is
/// representable: the alignment is a power of two and the padded size does
/// not exceed `isize::MAX`.
pub open spec fn layout_fits(size: nat, align: nat) -> bool {
    is_pow2(align) && round_up(size, align) <= isize::MAX
}

/// Whether `align` is a power of two.
pub fn is_power_of_two(align: usize) -> (r: bool)
    ensures
        r == is_pow2(align as nat),
{
    if align == 0 {
        return false;
    }
    let mut n: usize = align;
    while n > 1 && n % 2 == 0
        invariant
            n > 0,
            is_pow2(n as nat) == is_pow2(align as nat),
        decreases n,
    {
        n = n / 2;
    }
    n == 1
}

/// A multiple of `align` rounded up from `size` lies in `[size, size + align)`.
pub proof fn lemma_round_up(size: nat, align: nat)
    requires
        align > 0,
    ensures
        round_up(size, align) % align == 0,
        size <= round_up(size, align),
        round_up(size, align) < size + align,
{
    let s = size as int;
    let a = align as int;
    let r = s % a;
    if r != 0 {
        let q = s / a;
        vstd::arithmetic::div_mod::lemma_fundamental_div_mod(s, a);
        vstd::arithmetic::div_mod::lemma_mod_multiples_basic(q + 1, a);
        assert(s + (a - r) == (q + 1) * a) by (nonlinear_arith)
            requires
                s == a * q + r,
        ;
    }
}

/// The number of bytes to allocate for a record of `size` bytes whose type
/// requires `align` alignment: `size` rounded up to a multiple of `align`.
/// `None` when `align` is not a power of two, or when the padded size would
/// exceed `isize::MAX`.
pub fn padded_capacity(size: usize, align: usize) -> (r: Option<usize>)
    ensures
        r is Some <==> layout_fits(size as nat, align as nat),
        r matches Some(c) ==> c == round_up(size as nat, align as nat) && c % align == 0
            && size <= c && c < size + align,
{
    if !is_power_of_two(align) {
        return None;
    }
    proof {
        lemma_round_up(size as nat, align as nat);
    }
    let rem = size % align;
    let padded = if rem == 0 {
        size
    } else {
        match size.checked_add(align - rem) {
            Some(p) => p,
            None => return None,
        }
    };
    if padded > isize::MAX as usize {
        None
    } else {
        Some(padded)
    }
}

} // verus!
