//! The ENCINT variable-length integer encoding.
//!
//! An ENCINT is stored most-significant group first; every byte contributes
//! its low seven bits, and the high bit of a byte says that another byte
//! follows. Decoding accumulates `value = value * 128 + (byte % 128)` until a
//! byte without the continuation bit terminates the number. A tenth byte is
//! read only to confirm termination or to detect that the value cannot fit in
//! 64 bits.

use vstd::prelude::*;

use crate::cursor::Cursor;

verus! {

/// 128 raised to the `n`-th power (1 for non-positive `n`).
pub open spec fn pow128(n: int) -> int
    decreases n,
{
    if n <= 0 {
        1
    } else {
        128 * pow128(n - 1)
    }
}

/// Value of a complete big-endian ENCINT byte sequence: each byte contributes
/// its low seven bits.
pub open spec fn encint_val(s: Seq<u8>) -> int
    decreases s.len(),
{
    if s.len() == 0 {
        0
    } else {
        128 * encint_val(s.drop_last()) + s.last() % 128
    }
}

/// Index of the first byte of `s` without the continuation bit, or `s.len()`
/// when every byte carries it.
pub open spec fn encint_term(s: Seq<u8>) -> int
    decreases s.len(),
{
    if s.len() == 0 {
        0
    } else if s[0] < 128 {
        0
    } else {
        1 + encint_term(s.skip(1))
    }
}

/// The window ends before the number terminates and before a tenth byte
/// could be read: decoding cannot finish, but more input could still.
pub open spec fn encint_runs_out(w: Seq<u8>) -> bool {
    encint_term(w) == w.len() && w.len() < 10
}

/// The encoded number cannot fit in 64 bits: either a tenth byte still
/// carries the continuation bit, or the number terminates at the tenth byte
/// while the first nine bytes already hold 57 bits or more.
pub open spec fn encint_too_long(w: Seq<u8>) -> bool {
    ||| encint_term(w) >= 10
    ||| (encint_term(w) == 9 && w.len() >= 10 && encint_val(w.take(9)) >= 0x200_0000_0000_0000)
}

/// A complete ENCINT that fits in 64 bits starts the window.
pub open spec fn encint_ok(w: Seq<u8>) -> bool {
    &&& encint_term(w) < 10
    &&& encint_term(w) < w.len()
    &&& (encint_term(w) == 9 ==> encint_val(w.take(9)) < 0x200_0000_0000_0000)
}

/// Number of bytes a successful decode consumes from the window.
pub open spec fn encint_used(w: Seq<u8>) -> int {
    encint_term(w) + 1
}

/// Value a successful decode yields.
pub open spec fn encint_value(w: Seq<u8>) -> int {
    encint_val(w.take(encint_term(w) + 1))
}

#[derive(Debug, Clone, Copy, PartialEq, Eq, Structural)]
pub enum EncIntParseError {
    NotEnoughData,
    EncodedIntegerTooLong,
}

impl EncIntParseError {
    /// Whether a parser at a choice point may retry another branch after
    /// this error: only running out of input is recoverable.
    pub fn recoverable(&self) -> (r: bool)
        ensures
            r == (self is NotEnoughData),
    {
        match self {
            EncIntParseError::NotEnoughData => true,
            EncIntParseError::EncodedIntegerTooLong => false,
        }
    }
}

pub proof fn lemma_pow128_pos(n: int)
    ensures
        pow128(n) >= 1,
    decreases n,
{
    if n > 0 {
        lemma_pow128_pos(n - 1);
    }
}

pub proof fn lemma_encint_val_bound(s: Seq<u8>)
    ensures
        0 <= encint_val(s) < pow128(s.len() as int),
    decreases s.len(),
{
    if s.len() == 0 {
    } else {
        lemma_encint_val_bound(s.drop_last());
    }
}

/// The terminator index is wherever the continuation bits say it is.
pub proof fn lemma_encint_term_at(w: Seq<u8>, t: int)
    requires
        0 <= t <= w.len(),
        forall|i: int| 0 <= i < t ==> w[i] >= 128,
        t < w.len() ==> w[t] < 128,
    ensures
        encint_term(w) == t,
    decreases t,
{
    if t == 0 {
        if w.len() > 0 {
            assert(w[0] < 128);
        }
    } else {
        assert(w[0] >= 128);
        let w1 = w.skip(1);
        assert forall|i: int| 0 <= i < t - 1 implies w1[i] >= 128 by {
            assert(w1[i] == w[i + 1]);
        }
        if t - 1 < w1.len() {
            assert(w1[t - 1] == w[t]);
        }
        lemma_encint_term_at(w1, t - 1);
    }
}

pub proof fn lemma_encint_term_nonneg(s: Seq<u8>)
    ensures
        0 <= encint_term(s) <= s.len(),
    decreases s.len(),
{
    if s.len() > 0 && s[0] >= 128 {
        lemma_encint_term_nonneg(s.skip(1));
    }
}

/// A run of leading continuation bytes pushes the terminator at least that far.
pub proof fn lemma_encint_term_ge(w: Seq<u8>, k: int)
    requires
        0 <= k <= w.len(),
        forall|i: int| 0 <= i < k ==> w[i] >= 128,
    ensures
        encint_term(w) >= k,
    decreases k,
{
    if k > 0 {
        assert(w[0] >= 128);
        let w1 = w.skip(1);
        assert forall|i: int| 0 <= i < k - 1 implies w1[i] >= 128 by {
            assert(w1[i] == w[i + 1]);
        }
        lemma_encint_term_ge(w1, k - 1);
        assert(encint_term(w) == 1 + encint_term(w1));
    } else {
        lemma_encint_term_nonneg(w);
    }
}

/// Decodes one big-endian ENCINT from the front of the window.
///
/// On success the returned cursor has advanced exactly past the encoding and
/// the value is the one the continuation-bit scheme denotes. Running out of
/// window mid-number is recoverable; a number that cannot fit in 64 bits is
/// not.
pub fn parse_encint_be(buf: &[u8], cur: Cursor) -> (r: Result<(Cursor, u64), EncIntParseError>)
    requires
        cur.wf(buf@),
    ensures
        ({
            let w = cur.window(buf@);
            match r {
                Ok(p) => {
                    &&& encint_ok(w)
                    &&& p.0 == (Cursor {
                        offset: (cur.offset + encint_used(w)) as usize,
                        end: cur.end,
                    })
                    &&& p.1 as int == encint_value(w)
                },
                Err(EncIntParseError::NotEnoughData) => encint_runs_out(w),
                Err(EncIntParseError::EncodedIntegerTooLong) => encint_too_long(w),
            }
        }),
{
    let ghost w = cur.window(buf@);
    let mut off = cur.offset;
    let mut val: u64 = 0;
    let mut n: usize = 0;
    loop
        invariant
            cur.wf(buf@),
            off == cur.offset + n,
            n <= 9,
            n <= cur.remaining(),
            w == cur.window(buf@),
            forall|j: int| 0 <= j < n ==> w[j] >= 128,
            val as int == encint_val(w.take(n as int)),
        decreases 10 - n,
    {
        if off >= cur.end {
            proof {
                lemma_encint_term_at(w, n as int);
            }
            return Err(EncIntParseError::NotEnoughData);
        }
        assert(off < buf@.len());
        let b = buf[off];
        proof {
            assert(w[n as int] == buf@[off as int]);
        }
        off = off + 1;
        n = n + 1;
        let cont = b >= 128;
        if n == 10 {
            if cont {
                proof {
                    lemma_encint_term_ge(w, 10);
                }
                return Err(EncIntParseError::EncodedIntegerTooLong);
            }
            if val >= 0x200_0000_0000_0000u64 {
                proof {
                    lemma_encint_term_at(w, 9);
                    assert(w.take(9int) == w.take((n - 1) as int));
                }
                return Err(EncIntParseError::EncodedIntegerTooLong);
            }
        }
        proof {
            lemma_encint_val_bound(w.take((n - 1) as int));
            if n <= 9 {
                reveal_with_fuel(pow128, 9);
                assert(pow128((n - 1) as int) <= pow128(8int)) by {
                    lemma_pow128_mono((n - 1) as int, 8int);
                }
            }
            assert(w.take(n as int).drop_last() =~= w.take((n - 1) as int));
            assert(w.take(n as int).last() == w[(n - 1) as int]);
        }
        val = val * 128 + (b % 128) as u64;
        if !cont {
            proof {
                lemma_encint_term_at(w, (n - 1) as int);
                if n == 10 {
                    assert(w.take(9int) == w.take((n - 1) as int));
                }
            }
            return Ok((Cursor { offset: off, end: cur.end }, val));
        }
    }
}

pub proof fn lemma_pow128_mono(a: int, b: int)
    requires
        a <= b,
    ensures
        pow128(a) <= pow128(b),
    decreases b - a,
{
    if a < b {
        lemma_pow128_mono(a, b - 1);
        lemma_pow128_pos(b - 1);
    }
}

/// The bytes before an ENCINT's final byte: seven bits of `u` per byte, most
/// significant group first, every byte carrying the continuation bit.
pub open spec fn encint_cont_bytes(u: nat) -> Seq<u8>
    decreases u,
{
    if u == 0 {
        Seq::empty()
    } else {
        encint_cont_bytes(u / 128).push((128 + u % 128) as u8)
    }
}

/// The canonical ENCINT encoding of a value: the continuation-bit bytes of
/// `v / 128` followed by one final byte holding `v % 128`.
pub open spec fn encint_encoding(v: nat) -> Seq<u8> {
    encint_cont_bytes(v / 128).push((v % 128) as u8)
}

proof fn lemma_encint_cont_bytes_wf(u: nat)
    ensures
        forall|i: int| 0 <= i < encint_cont_bytes(u).len() ==> encint_cont_bytes(u)[i] >= 128,
        encint_val(encint_cont_bytes(u)) == u,
        u < pow128(encint_cont_bytes(u).len() as int),
        u == 0 || pow128(encint_cont_bytes(u).len() - 1) <= u,
    decreases u,
{
    if u == 0 {
    } else {
        assert(u / 128 < u) by (nonlinear_arith)
            requires
                u >= 1,
        ;
        lemma_encint_cont_bytes_wf(u / 128);
        let s = encint_cont_bytes(u / 128);
        let e = encint_cont_bytes(u);
        let b = (128 + u % 128) as u8;
        assert(e == s.push(b));
        assert(e.drop_last() =~= s);
        assert(encint_val(e) == 128 * encint_val(s) + b % 128);
        assert(128 * (u / 128) + u % 128 == u) by (nonlinear_arith);
        assert forall|i: int| 0 <= i < e.len() implies e[i] >= 128 by {
            if i < s.len() {
                assert(e[i] == s[i]);
            } else {
                assert(e[i] == b);
            }
        }
        assert(pow128(e.len() as int) == 128 * pow128(s.len() as int));
        assert(u / 128 < pow128(s.len() as int));
        assert(128 * (u / 128) + u % 128 < 128 * pow128(s.len() as int)) by (nonlinear_arith)
            requires
                u / 128 < pow128(s.len() as int),
                0 <= u % 128 < 128,
        ;
        if u / 128 == 0 {
            assert(e.len() == 1);
            assert(pow128(0int) == 1);
            assert(u >= 1);
        } else {
            assert(pow128(s.len() - 1) <= u / 128);
            assert(pow128(e.len() - 1) == pow128(s.len() as int) == 128 * pow128(s.len() - 1));
            assert(128 * pow128(s.len() - 1) <= 128 * (u / 128)) by (nonlinear_arith)
                requires
                    pow128(s.len() - 1) <= u / 128,
            ;
            assert(128 * (u / 128) <= u) by (nonlinear_arith);
        }
    }
}

proof fn lemma_encint_encoding_wf(v: nat)
    ensures
        encint_encoding(v).len() >= 1,
        encint_encoding(v).last() < 128,
        forall|i: int| 0 <= i < encint_encoding(v).len() - 1 ==> encint_encoding(v)[i] >= 128,
        encint_val(encint_encoding(v)) == v,
        v < pow128(encint_encoding(v).len() as int),
        pow128(encint_encoding(v).len() - 1) <= v || encint_encoding(v).len() == 1,
{
    lemma_encint_cont_bytes_wf(v / 128);
    let s = encint_cont_bytes(v / 128);
    let e = encint_encoding(v);
    let b = (v % 128) as u8;
    assert(e == s.push(b));
    assert(e.drop_last() =~= s);
    assert(encint_val(e) == 128 * encint_val(s) + b % 128);
    assert(128 * (v / 128) + v % 128 == v) by (nonlinear_arith);
    assert forall|i: int| 0 <= i < e.len() - 1 implies e[i] >= 128 by {
        assert(e[i] == s[i]);
    }
    assert(pow128(e.len() as int) == 128 * pow128(s.len() as int));
    assert(128 * (v / 128) + v % 128 < 128 * pow128(s.len() as int)) by (nonlinear_arith)
        requires
            v / 128 < pow128(s.len() as int),
            0 <= v % 128 < 128,
    ;
    if s.len() >= 1 {
        assert(pow128(s.len() - 1) <= v / 128);
        assert(pow128(e.len() - 1) == 128 * pow128(s.len() - 1));
        assert(128 * pow128(s.len() - 1) <= 128 * (v / 128)) by (nonlinear_arith)
            requires
                pow128(s.len() - 1) <= v / 128,
        ;
        assert(128 * (v / 128) <= v) by (nonlinear_arith);
    }
}

/// VarInt overflow: an encoding that still carries the continuation bit on
/// its tenth byte (so an eleventh would follow), or that terminates at the
/// tenth byte after nine bytes already holding 57 bits or more, denotes a
/// value that cannot fit in 64 bits; [`parse_encint_be`] rejects exactly
/// these windows as too long, and never wraps or truncates.
pub proof fn lemma_encint_overflow(w: Seq<u8>)
    requires
        w.len() >= 10,
        forall|i: int| 0 <= i < 9 ==> w[i] >= 128,
        w[9] >= 128 || encint_val(w.take(9)) >= 0x200_0000_0000_0000,
    ensures
        encint_too_long(w),
        !encint_ok(w),
        !encint_runs_out(w),
{
    if w[9] >= 128 {
        lemma_encint_term_ge(w, 10);
    } else {
        lemma_encint_term_at(w, 9);
    }
}

/// VarInt round trip: decoding the canonical ENCINT encoding of any 64-bit
/// value yields exactly that value and consumes the whole encoding, which is
/// at most ten bytes long; ten bytes are needed exactly for values of 63 bits
/// or more, so the maximal value decodes from exactly ten bytes.
pub proof fn lemma_encint_round_trip(v: u64)
    ensures
        encint_ok(encint_encoding(v as nat)),
        encint_value(encint_encoding(v as nat)) == v,
        encint_used(encint_encoding(v as nat)) == encint_encoding(v as nat).len(),
        encint_encoding(v as nat).len() <= 10,
        encint_encoding(v as nat).len() == 10 <==> v >= 0x8000_0000_0000_0000,
{
    let w = encint_encoding(v as nat);
    lemma_encint_encoding_wf(v as nat);
    lemma_encint_term_at(w, w.len() - 1);
    assert(w.take(encint_term(w) + 1) =~= w);
    // the length is at most ten because 128^10 exceeds every 64-bit value
    if w.len() >= 11 {
        assert(pow128(10int) <= pow128(w.len() - 1)) by {
            lemma_pow128_mono(10int, w.len() - 1);
        }
        assert(pow128(10int) == 0x4_0000_0000_0000_0000_0000) by {
            reveal_with_fuel(pow128, 11);
        }
    }
    assert(pow128(9int) == 0x8000_0000_0000_0000) by {
        reveal_with_fuel(pow128, 10);
    }
    if w.len() == 10 {
        // the first nine bytes hold v / 128, which fits in 57 bits
        let s = encint_cont_bytes((v as nat) / 128);
        lemma_encint_cont_bytes_wf((v as nat) / 128);
        assert(w == s.push(((v as nat) % 128) as u8));
        assert(w.take(9int) =~= s);
        assert(encint_val(s) == (v as nat) / 128);
        assert((v as nat) / 128 < 0x200_0000_0000_0000) by (nonlinear_arith)
            requires
                v < 0x1_0000_0000_0000_0000,
        ;
    }
    if v >= 0x8000_0000_0000_0000 {
        assert(w.len() >= 10) by {
            if w.len() <= 9 {
                assert(pow128(w.len() as int) <= pow128(9int)) by {
                    lemma_pow128_mono(w.len() as int, 9int);
                }
            }
        }
    }
    if w.len() == 10 && v < 0x8000_0000_0000_0000 {
        assert(pow128(9int) <= v);
    }
}

} // verus!
