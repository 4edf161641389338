//! Identifiers: 128-bit ids and their canonical hyphenated hex form.
//!
//! Projects, images, tools, image versions and broker messages are all keyed
//! by 128-bit ids. On the wire and in filesystem paths an id is written in
//! the usual hyphenated lowercase hex form (8-4-4-4-12 digits).

use crate::text::{digit_char, digit_char_exec};
use vstd::arithmetic::div_mod::{lemma_div_denominator, lemma_div_multiples_vanish};
use vstd::prelude::*;

verus! {

/// Sixteen to the power `k`.
pub open spec fn pow16(k: nat) -> nat
    decreases k,
{
    if k == 0 {
        1
    } else {
        16 * pow16((k - 1) as nat)
    }
}

proof fn lemma_pow16_pos(k: nat)
    ensures
        pow16(k) >= 1,
    decreases k,
{
    if k > 0 {
        lemma_pow16_pos((k - 1) as nat);
    }
}

proof fn lemma_pow16_31()
    ensures
        pow16(31) == 0x10000000000000000000000000000000,
{
    assert(pow16(0) == 0x1);
    assert(pow16(1) == 0x10);
    assert(pow16(2) == 0x100);
    assert(pow16(3) == 0x1000);
    assert(pow16(4) == 0x10000);
    assert(pow16(5) == 0x100000);
    assert(pow16(6) == 0x1000000);
    assert(pow16(7) == 0x10000000);
    assert(pow16(8) == 0x100000000);
    assert(pow16(9) == 0x1000000000);
    assert(pow16(10) == 0x10000000000);
    assert(pow16(11) == 0x100000000000);
    assert(pow16(12) == 0x1000000000000);
    assert(pow16(13) == 0x10000000000000);
    assert(pow16(14) == 0x100000000000000);
    assert(pow16(15) == 0x1000000000000000);
    assert(pow16(16) == 0x10000000000000000);
    assert(pow16(17) == 0x100000000000000000);
    assert(pow16(18) == 0x1000000000000000000);
    assert(pow16(19) == 0x10000000000000000000);
    assert(pow16(20) == 0x100000000000000000000);
    assert(pow16(21) == 0x1000000000000000000000);
    assert(pow16(22) == 0x10000000000000000000000);
    assert(pow16(23) == 0x100000000000000000000000);
    assert(pow16(24) == 0x1000000000000000000000000);
    assert(pow16(25) == 0x10000000000000000000000000);
    assert(pow16(26) == 0x100000000000000000000000000);
    assert(pow16(27) == 0x1000000000000000000000000000);
    assert(pow16(28) == 0x10000000000000000000000000000);
    assert(pow16(29) == 0x100000000000000000000000000000);
    assert(pow16(30) == 0x1000000000000000000000000000000);
    assert(pow16(31) == 0x10000000000000000000000000000000);
}

/// The `j`-th hex digit of `u`, counting from the least significant.
pub open spec fn id_nibble(u: u128, j: nat) -> nat {
    ((u as nat) / pow16(j)) % 16
}

/// The 32 hex digit characters of `u`, most significant first.
pub open spec fn id_hex(u: u128) -> Seq<char> {
    Seq::new(32, |k: int| digit_char(id_nibble(u, (31 - k) as nat)))
}

/// The canonical hyphenated text of an id: 8-4-4-4-12 lowercase hex digits.
pub open spec fn id_str(u: u128) -> Seq<char> {
    let h = id_hex(u);
    h.subrange(0, 8) + seq!['-'] + h.subrange(8, 12) + seq!['-'] + h.subrange(12, 16) + seq![
        '-',
    ] + h.subrange(16, 20) + seq!['-'] + h.subrange(20, 32)
}

/// The 32 hex digit characters of `u`, most significant first.
pub fn id_hex_chars(u: u128) -> (r: Vec<char>)
    ensures
        r@ == id_hex(u),
{
    let mut r: Vec<char> = Vec::new();
    let mut d: u128 = 0x10000000000000000000000000000000;
    proof {
        lemma_pow16_31();
    }
    let mut k: usize = 0;
    while k < 32
        invariant
            k <= 32,
            r@.len() == k,
            forall|j: int| 0 <= j < k ==> r@[j] == digit_char(id_nibble(u, (31 - j) as nat)),
            k < 32 ==> d as nat == pow16((31 - k) as nat),
        decreases 32 - k,
    {
        proof {
            lemma_pow16_pos((31 - k) as nat);
        }
        let dig: u8 = ((u / d) % 16) as u8;
        r.push(digit_char_exec(dig));
        if k < 31 {
            proof {
                let n = (31 - k) as nat;
                assert(pow16(n) == 16 * pow16((n - 1) as nat));
                lemma_div_multiples_vanish(pow16((n - 1) as nat) as int, 16);
            }
            d = d / 16;
        }
        k = k + 1;
    }
    proof {
        assert(r@ =~= id_hex(u));
    }
    r
}

/// The canonical hyphenated text of `u` as a vector of characters.
pub fn id_chars(u: u128) -> (r: Vec<char>)
    ensures
        r@ == id_str(u),
{
    let h = id_hex_chars(u);
    let mut out: Vec<char> = Vec::new();
    let mut i: usize = 0;
    while i < 8
        invariant
            h@ == id_hex(u),
            i <= 8,
            out@ == id_hex(u).subrange(0, i as int),
        decreases 8 - i,
    {
        out.push(h[i]);
        i = i + 1;
        proof {
            assert(out@ =~= id_hex(u).subrange(0, i as int));
        }
    }
    out.push('-');
    let mut i: usize = 8;
    while i < 12
        invariant
            h@ == id_hex(u),
            8 <= i <= 12,
            out@ == id_hex(u).subrange(0, 8) + seq!['-'] + id_hex(u).subrange(8, i as int),
        decreases 12 - i,
    {
        out.push(h[i]);
        i = i + 1;
        proof {
            assert(out@ =~= id_hex(u).subrange(0, 8) + seq!['-'] + id_hex(u).subrange(
                8,
                i as int,
            ));
        }
    }
    out.push('-');
    let mut i: usize = 12;
    while i < 16
        invariant
            h@ == id_hex(u),
            12 <= i <= 16,
            out@ == id_hex(u).subrange(0, 8) + seq!['-'] + id_hex(u).subrange(8, 12) + seq!['-']
                + id_hex(u).subrange(12, i as int),
        decreases 16 - i,
    {
        out.push(h[i]);
        i = i + 1;
        proof {
            assert(out@ =~= id_hex(u).subrange(0, 8) + seq!['-'] + id_hex(u).subrange(8, 12)
                + seq!['-'] + id_hex(u).subrange(12, i as int));
        }
    }
    out.push('-');
    let mut i: usize = 16;
    while i < 20
        invariant
            h@ == id_hex(u),
            16 <= i <= 20,
            out@ == id_hex(u).subrange(0, 8) + seq!['-'] + id_hex(u).subrange(8, 12) + seq!['-']
                + id_hex(u).subrange(12, 16) + seq!['-'] + id_hex(u).subrange(16, i as int),
        decreases 20 - i,
    {
        out.push(h[i]);
        i = i + 1;
        proof {
            assert(out@ =~= id_hex(u).subrange(0, 8) + seq!['-'] + id_hex(u).subrange(8, 12)
                + seq!['-'] + id_hex(u).subrange(12, 16) + seq!['-'] + id_hex(u).subrange(
                16,
                i as int,
            ));
        }
    }
    out.push('-');
    let mut i: usize = 20;
    while i < 32
        invariant
            h@ == id_hex(u),
            20 <= i <= 32,
            out@ == id_hex(u).subrange(0, 8) + seq!['-'] + id_hex(u).subrange(8, 12) + seq!['-']
                + id_hex(u).subrange(12, 16) + seq!['-'] + id_hex(u).subrange(16, 20) + seq!['-']
                + id_hex(u).subrange(20, i as int),
        decreases 32 - i,
    {
        out.push(h[i]);
        i = i + 1;
        proof {
            assert(out@ =~= id_hex(u).subrange(0, 8) + seq!['-'] + id_hex(u).subrange(8, 12)
                + seq!['-'] + id_hex(u).subrange(12, 16) + seq!['-'] + id_hex(u).subrange(16, 20)
                + seq!['-'] + id_hex(u).subrange(20, i as int));
        }
    }
    proof {
        assert(out@ =~= id_str(u));
    }
    out
}

/// The canonical hyphenated text of `u`.
pub fn id_to_string(u: u128) -> (r: String)
    ensures
        r@ == id_str(u),
{
    let v = id_chars(u);
    crate::text::chars_to_string(&v)
}

/// A fresh random 128-bit id.
///
/// Relies on `uuid::Uuid::new_v4`, which draws a version-4 UUID from the
/// process's random source, read back as its 128-bit value through
/// `uuid::Uuid::as_u128`. A random draw promises nothing a contract could
/// state, so every caller must hold for any returned value.
#[verifier::external_body]
pub fn fresh_id() -> u128 {
    uuid::Uuid::new_v4().as_u128()
}

} // verus!
