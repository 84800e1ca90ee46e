//! Bit-level access to RBSP data (a NAL unit's payload after emulation-prevention
//! bytes have been removed by an earlier stage).
//!
//! The reader hands out fixed-width unsigned integers read most-significant-bit
//! first, single-bit booleans, and unsigned/signed Exp-Golomb codes.  Every read
//! is bounds-checked: running out of buffer yields an error value, never a panic.

use vstd::prelude::*;

verus! {

use vstd::arithmetic::power2::pow2;
use vstd::arithmetic::power2::lemma2_to64;
use vstd::arithmetic::power2::lemma_pow2_adds;
use vstd::slice::slice_to_vec;

/// An error from the bit reader: the buffer ran out mid-field, or a codeword
/// was malformed.
#[derive(Debug, Clone, Copy, PartialEq, Eq)]
pub enum BitReaderError {
    /// A read needed more bits than remain in the buffer.
    NotEnoughData,
    /// An Exp-Golomb codeword began with a run of more than 31 zero bits, so its
    /// value cannot be represented in a `u32`.
    ExpGolombTooLong,
}

/// Total number of bits held by the byte buffer `d`.
pub open spec fn bit_len(d: Seq<u8>) -> nat {
    d.len() * 8
}

/// The bit of `d` at bit position `i`, counting from the most significant bit of
/// the first byte; either 0 or 1.
pub open spec fn bit(d: Seq<u8>, i: nat) -> nat
    recommends
        i < bit_len(d),
{
    (d[i as int / 8] as nat / pow2((7 - i % 8) as nat)) % 2
}

/// True when `n` bits are available at bit position `p`.
pub open spec fn bits_ok(d: Seq<u8>, p: nat, n: nat) -> bool {
    p + n <= bit_len(d)
}

/// The unsigned value of the `n` bits of `d` starting at bit position `p`,
/// most-significant-bit first.
pub open spec fn bits_val(d: Seq<u8>, p: nat, n: nat) -> nat
    decreases n,
{
    if n == 0 {
        0
    } else {
        bits_val(d, p, (n - 1) as nat) * 2 + bit(d, (p + n - 1) as nat)
    }
}

/// The number of consecutive zero bits of `d` starting at bit position `p`
/// (stopping at the end of the buffer).
pub open spec fn zero_run(d: Seq<u8>, p: nat) -> nat
    decreases bit_len(d) - p,
{
    if p >= bit_len(d) {
        0
    } else if bit(d, p) != 0 {
        0
    } else {
        1 + zero_run(d, p + 1)
    }
}

/// Number of bits an unsigned Exp-Golomb codeword starting at `p` occupies: the
/// leading zero run, the terminating one bit, and as many suffix bits as there
/// were leading zeros.
pub open spec fn ue_len(d: Seq<u8>, p: nat) -> nat {
    2 * zero_run(d, p) + 1
}

/// Bit position just past the unsigned Exp-Golomb codeword starting at `p`.
pub open spec fn ue_end(d: Seq<u8>, p: nat) -> nat {
    p + ue_len(d, p)
}

/// True when a whole unsigned Exp-Golomb codeword, representable as a `u32`,
/// starts at bit position `p`.
pub open spec fn ue_ok(d: Seq<u8>, p: nat) -> bool {
    zero_run(d, p) <= 31 && ue_end(d, p) <= bit_len(d)
}

/// The value of the unsigned Exp-Golomb codeword starting at `p`: with `k`
/// leading zeros and suffix value `s`, the value is `2^k - 1 + s`.
pub open spec fn ue_val(d: Seq<u8>, p: nat) -> nat {
    let k = zero_run(d, p);
    (pow2(k) - 1 + bits_val(d, p + k + 1, k)) as nat
}

/// The error reported for a failed unsigned Exp-Golomb read at `p`.
pub open spec fn ue_err(d: Seq<u8>, p: nat) -> BitReaderError {
    if zero_run(d, p) > 31 {
        BitReaderError::ExpGolombTooLong
    } else {
        BitReaderError::NotEnoughData
    }
}

/// The signed value derived from the unsigned Exp-Golomb value `v` by the
/// standard mapping 0, 1, -1, 2, -2, ...
pub open spec fn se_of(v: nat) -> int {
    if v % 2 == 1 {
        ((v + 1) / 2) as int
    } else {
        -((v / 2) as int)
    }
}

/// The value of the signed Exp-Golomb codeword starting at `p`.
pub open spec fn se_val(d: Seq<u8>, p: nat) -> int {
    se_of(ue_val(d, p))
}

/// Result of reading `n` fixed-width bits at `p`: the value and the new position,
/// or an exhaustion error.
pub open spec fn parse_bits(d: Seq<u8>, p: nat, n: nat) -> Result<(nat, nat), BitReaderError> {
    if bits_ok(d, p, n) {
        Ok((bits_val(d, p, n), p + n))
    } else {
        Err(BitReaderError::NotEnoughData)
    }
}

/// Result of reading a single-bit flag at `p`.
pub open spec fn parse_bool(d: Seq<u8>, p: nat) -> Result<(bool, nat), BitReaderError> {
    if bits_ok(d, p, 1) {
        Ok((bit(d, p) == 1, p + 1))
    } else {
        Err(BitReaderError::NotEnoughData)
    }
}

/// Result of reading an unsigned Exp-Golomb codeword at `p`.
pub open spec fn parse_ue(d: Seq<u8>, p: nat) -> Result<(nat, nat), BitReaderError> {
    if ue_ok(d, p) {
        Ok((ue_val(d, p), ue_end(d, p)))
    } else {
        Err(ue_err(d, p))
    }
}

/// Result of reading a signed Exp-Golomb codeword at `p`.
pub open spec fn parse_se(d: Seq<u8>, p: nat) -> Result<(int, nat), BitReaderError> {
    if ue_ok(d, p) {
        Ok((se_val(d, p), ue_end(d, p)))
    } else {
        Err(ue_err(d, p))
    }
}

/// An `n`-bit value is below `2^n`.
pub proof fn lemma_bits_val_bound(d: Seq<u8>, p: nat, n: nat)
    ensures
        bits_val(d, p, n) < pow2(n),
    decreases n,
{
    if n == 0 {
        assert(pow2(0) == 1) by {
            lemma2_to64();
        }
    } else {
        lemma_bits_val_bound(d, p, (n - 1) as nat);
        assert(pow2(n) == pow2((n - 1) as nat) * 2) by {
            lemma_pow2_adds((n - 1) as nat, 1);
            lemma2_to64();
        }
    }
}

/// If the `k` bits at `p` are all zero and the run then stops (a one bit, or the
/// end of the buffer), the zero run at `p` is exactly `k`.
pub proof fn lemma_zero_run_exact(d: Seq<u8>, p: nat, k: nat)
    requires
        p + k <= bit_len(d),
        forall|i: nat| p <= i < p + k ==> #[trigger] bit(d, i) == 0,
        p + k == bit_len(d) || bit(d, p + k) == 1,
    ensures
        zero_run(d, p) == k,
    decreases k,
{
    if k == 0 {
    } else {
        assert(bit(d, p) == 0);
        lemma_zero_run_exact(d, p + 1, (k - 1) as nat);
    }
}

/// If the `k` bits at `p` are all zero, the zero run at `p` is at least `k`.
pub proof fn lemma_zero_run_at_least(d: Seq<u8>, p: nat, k: nat)
    requires
        p + k <= bit_len(d),
        forall|i: nat| p <= i < p + k ==> #[trigger] bit(d, i) == 0,
    ensures
        zero_run(d, p) >= k,
    decreases k,
{
    if k == 0 {
    } else {
        assert(bit(d, p) == 0);
        lemma_zero_run_at_least(d, p + 1, (k - 1) as nat);
    }
}

/// An unsigned Exp-Golomb value with a zero run of at most 31 fits in a `u32`.
pub proof fn lemma_ue_val_bound(d: Seq<u8>, p: nat)
    requires
        zero_run(d, p) <= 31,
    ensures
        ue_val(d, p) <= 0xffff_fffe,
{
    let k = zero_run(d, p);
    lemma_bits_val_bound(d, p + k + 1, k);
    assert(pow2(k) <= pow2(31)) by {
        if k < 31 {
            vstd::arithmetic::power2::lemma_pow2_strictly_increases(k, 31);
        }
    }
    lemma2_to64();
}

/// Law: a codeword made of `k` zero bits, a one bit, and then `k` suffix bits
/// holding the value `s` is a complete unsigned Exp-Golomb codeword, and it
/// decodes to `2^k - 1 + s`.
pub proof fn lemma_exp_golomb_encoding(d: Seq<u8>, p: nat, k: nat, s: nat)
    requires
        p + 2 * k + 1 <= bit_len(d),
        k <= 31,
        forall|i: nat| p <= i < p + k ==> #[trigger] bit(d, i) == 0,
        bit(d, p + k) == 1,
        bits_val(d, p + k + 1, k) == s,
    ensures
        ue_ok(d, p),
        ue_val(d, p) == pow2(k) - 1 + s,
        ue_end(d, p) == p + 2 * k + 1,
        parse_ue(d, p) == Ok::<(nat, nat), BitReaderError>(((pow2(k) - 1 + s) as nat, p + 2 * k
            + 1)),
{
    lemma_zero_run_exact(d, p, k);
    vstd::arithmetic::power2::lemma_pow2_pos(k);
}

/// A stateful cursor over a buffer of RBSP bytes.  `pos` is the position of the
/// next unread bit; the well-formedness condition `wf` bounds it by the buffer
/// length and is preserved by every read.
pub struct RbspBitReader {
    pub data: Vec<u8>,
    pub pos: usize,
}

impl RbspBitReader {
    /// The reader stays inside its buffer, and the whole buffer is addressable
    /// in bits without overflowing `usize`.
    pub open spec fn wf(&self) -> bool {
        self.pos as nat <= bit_len(self.data@) && bit_len(self.data@) <= usize::MAX as nat
    }

    pub fn new(buf: &[u8]) -> (r: RbspBitReader)
        requires
            buf@.len() * 8 <= usize::MAX as nat,
        ensures
            r.data@ == buf@,
            r.pos == 0,
            r.wf(),
    {
        RbspBitReader { data: slice_to_vec(buf), pos: 0 }
    }

    /// `2^sh` for a shift inside a byte.
    fn pow2_in_byte(sh: u8) -> (p: u8)
        requires
            sh < 8,
        ensures
            p as nat == pow2(sh as nat),
            p > 0,
    {
        proof {
            lemma2_to64();
        }
        match sh {
            0 => 1,
            1 => 2,
            2 => 4,
            3 => 8,
            4 => 16,
            5 => 32,
            6 => 64,
            _ => 128,
        }
    }

    /// Reads the single bit at the current position, which must exist.
    fn read_bit_here(&mut self) -> (b: u8)
        requires
            old(self).wf(),
            (old(self).pos as nat) < bit_len(old(self).data@),
        ensures
            final(self).data@ == old(self).data@,
            final(self).pos == old(self).pos + 1,
            final(self).wf(),
            b as nat == bit(old(self).data@, old(self).pos as nat),
            b <= 1,
    {
        let byte_idx = self.pos / 8;
        assert(self.pos / 8 < self.data@.len()) by (nonlinear_arith)
            requires
                (self.pos as nat) < self.data@.len() * 8,
        ;
        let byte = self.data[byte_idx];
        let sh = 7 - (self.pos % 8) as u8;
        let p = Self::pow2_in_byte(sh);
        let b = (byte / p) % 2;
        proof {
            assert(byte_idx as int == self.pos as int / 8);
            assert(b as nat == (byte as nat / pow2(sh as nat)) % 2);
        }
        self.pos = self.pos + 1;
        b
    }

    /// Reads `n` bits (`n <= 32`), most-significant-bit first.
    pub fn read_bits(&mut self, n: u8) -> (r: Result<u32, BitReaderError>)
        requires
            old(self).wf(),
            n <= 32,
        ensures
            final(self).data@ == old(self).data@,
            final(self).wf(),
            match r {
                Ok(v) => parse_bits(old(self).data@, old(self).pos as nat, n as nat) == Ok::<
                    (nat, nat),
                    BitReaderError,
                >((v as nat, final(self).pos as nat)),
                Err(e) => parse_bits(old(self).data@, old(self).pos as nat, n as nat) == Err::<
                    (nat, nat),
                    BitReaderError,
                >(e) && final(self).pos == old(self).pos,
            },
    {
        let ghost d = self.data@;
        let ghost p0 = self.pos as nat;
        let total = self.data.len() * 8;
        if (n as usize) > total - self.pos {
            return Err(BitReaderError::NotEnoughData);
        }
        let mut acc: u32 = 0;
        let mut i: u8 = 0;
        while i < n
            invariant
                self.data@ == d,
                self.wf(),
                i <= n,
                n <= 32,
                self.pos as nat == p0 + i as nat,
                p0 + n as nat <= bit_len(d),
                acc as nat == bits_val(d, p0, i as nat),
            decreases n - i,
        {
            proof {
                lemma_bits_val_bound(d, p0, i as nat);
                lemma_bits_val_bound(d, p0, (i + 1) as nat);
                assert(pow2((i + 1) as nat) <= pow2(32)) by {
                    if ((i + 1) as nat) < 32 {
                        vstd::arithmetic::power2::lemma_pow2_strictly_increases(
                            (i + 1) as nat,
                            32,
                        );
                    }
                }
                lemma2_to64();
            }
            let b = self.read_bit_here();
            acc = acc * 2 + b as u32;
            i = i + 1;
        }
        Ok(acc)
    }

    /// Reads a single-bit flag.
    pub fn read_bool(&mut self) -> (r: Result<bool, BitReaderError>)
        requires
            old(self).wf(),
        ensures
            final(self).data@ == old(self).data@,
            final(self).wf(),
            match r {
                Ok(v) => parse_bool(old(self).data@, old(self).pos as nat) == Ok::<
                    (bool, nat),
                    BitReaderError,
                >((v, final(self).pos as nat)),
                Err(e) => parse_bool(old(self).data@, old(self).pos as nat) == Err::<
                    (bool, nat),
                    BitReaderError,
                >(e) && final(self).pos == old(self).pos,
            },
    {
        proof {
            assert(bits_val(old(self).data@, old(self).pos as nat, 0) == 0);
            assert(bits_val(old(self).data@, old(self).pos as nat, 1) == bit(
                old(self).data@,
                old(self).pos as nat,
            ));
        }
        match self.read_bits(1) {
            Ok(v) => Ok(v == 1),
            Err(e) => Err(e),
        }
    }

    /// Reads an `n`-bit unsigned value into a `u8` (`n <= 8`).
    pub fn read_u8(&mut self, n: u8) -> (r: Result<u8, BitReaderError>)
        requires
            old(self).wf(),
            n <= 8,
        ensures
            final(self).data@ == old(self).data@,
            final(self).wf(),
            match r {
                Ok(v) => parse_bits(old(self).data@, old(self).pos as nat, n as nat) == Ok::<
                    (nat, nat),
                    BitReaderError,
                >((v as nat, final(self).pos as nat)),
                Err(e) => parse_bits(old(self).data@, old(self).pos as nat, n as nat) == Err::<
                    (nat, nat),
                    BitReaderError,
                >(e) && final(self).pos == old(self).pos,
            },
    {
        proof {
            lemma_bits_val_bound(old(self).data@, old(self).pos as nat, n as nat);
            assert(pow2(n as nat) <= pow2(8)) by {
                if (n as nat) < 8 {
                    vstd::arithmetic::power2::lemma_pow2_strictly_increases(n as nat, 8);
                }
            }
            lemma2_to64();
        }
        match self.read_bits(n) {
            Ok(v) => Ok(v as u8),
            Err(e) => Err(e),
        }
    }

    /// Reads an `n`-bit unsigned value into a `u16` (`n <= 16`).
    pub fn read_u16(&mut self, n: u8) -> (r: Result<u16, BitReaderError>)
        requires
            old(self).wf(),
            n <= 16,
        ensures
            final(self).data@ == old(self).data@,
            final(self).wf(),
            match r {
                Ok(v) => parse_bits(old(self).data@, old(self).pos as nat, n as nat) == Ok::<
                    (nat, nat),
                    BitReaderError,
                >((v as nat, final(self).pos as nat)),
                Err(e) => parse_bits(old(self).data@, old(self).pos as nat, n as nat) == Err::<
                    (nat, nat),
                    BitReaderError,
                >(e) && final(self).pos == old(self).pos,
            },
    {
        proof {
            lemma_bits_val_bound(old(self).data@, old(self).pos as nat, n as nat);
            assert(pow2(n as nat) <= pow2(16)) by {
                if (n as nat) < 16 {
                    vstd::arithmetic::power2::lemma_pow2_strictly_increases(n as nat, 16);
                }
            }
            lemma2_to64();
        }
        match self.read_bits(n) {
            Ok(v) => Ok(v as u16),
            Err(e) => Err(e),
        }
    }

    /// Reads an `n`-bit unsigned value into a `u32` (`n <= 32`).
    pub fn read_u32(&mut self, n: u8) -> (r: Result<u32, BitReaderError>)
        requires
            old(self).wf(),
            n <= 32,
        ensures
            final(self).data@ == old(self).data@,
            final(self).wf(),
            match r {
                Ok(v) => parse_bits(old(self).data@, old(self).pos as nat, n as nat) == Ok::<
                    (nat, nat),
                    BitReaderError,
                >((v as nat, final(self).pos as nat)),
                Err(e) => parse_bits(old(self).data@, old(self).pos as nat, n as nat) == Err::<
                    (nat, nat),
                    BitReaderError,
                >(e) && final(self).pos == old(self).pos,
            },
    {
        self.read_bits(n)
    }

    /// Reads an unsigned Exp-Golomb codeword: `k` leading zero bits, a one bit,
    /// then `k` suffix bits of value `s`, decoding to `2^k - 1 + s`.
    pub fn read_ue(&mut self) -> (r: Result<u32, BitReaderError>)
        requires
            old(self).wf(),
        ensures
            final(self).data@ == old(self).data@,
            final(self).wf(),
            match r {
                Ok(v) => parse_ue(old(self).data@, old(self).pos as nat) == Ok::<
                    (nat, nat),
                    BitReaderError,
                >((v as nat, final(self).pos as nat)),
                Err(e) => parse_ue(old(self).data@, old(self).pos as nat) == Err::<
                    (nat, nat),
                    BitReaderError,
                >(e) && final(self).pos == old(self).pos,
            },
    {
        let ghost d = self.data@;
        let p0 = self.pos;
        let total = self.data.len() * 8;
        let mut k: u8 = 0;
        loop
            invariant_except_break
                self.pos as nat == p0 as nat + k as nat,
            invariant
                d == old(self).data@,
                p0 == old(self).pos,
                self.data@ == d,
                self.wf(),
                total == bit_len(d),
                k <= 32,
                p0 as nat + k as nat <= bit_len(d),
                forall|i: nat|
                    p0 as nat <= i < p0 as nat + k as nat ==> #[trigger] bit(d, i) == 0,
            ensures
                self.data@ == d,
                self.wf(),
                k <= 31,
                k as nat == zero_run(d, p0 as nat),
                self.pos as nat == p0 as nat + k as nat + 1,
            decreases bit_len(d) + 33 - (self.pos as nat + k as nat),
        {
            if k == 32 {
                proof {
                    lemma_zero_run_at_least(d, p0 as nat, 32);
                }
                self.pos = p0;
                return Err(BitReaderError::ExpGolombTooLong);
            }
            if self.pos >= total {
                proof {
                    lemma_zero_run_exact(d, p0 as nat, k as nat);
                }
                self.pos = p0;
                return Err(BitReaderError::NotEnoughData);
            }
            let b = self.read_bit_here();
            if b == 1 {
                proof {
                    lemma_zero_run_exact(d, p0 as nat, k as nat);
                }
                break ;
            }
            k = k + 1;
        }
        // Here the zero run at p0 is exactly k <= 31 and the one bit is consumed.
        let ghost kk = k as nat;
        proof {
            lemma_bits_val_bound(d, p0 as nat + kk + 1, kk);
            assert(pow2(kk) <= pow2(31)) by {
                if kk < 31 {
                    vstd::arithmetic::power2::lemma_pow2_strictly_increases(kk, 31);
                }
            }
            lemma2_to64();
        }
        match self.read_bits(k) {
            Ok(s) => {
                let base = Self::pow2_u32(k);
                Ok(base - 1 + s)
            },
            Err(_) => {
                self.pos = p0;
                Err(BitReaderError::NotEnoughData)
            },
        }
    }

    /// `2^k` as a `u32` (`k <= 31`).
    fn pow2_u32(k: u8) -> (p: u32)
        requires
            k <= 31,
        ensures
            p as nat == pow2(k as nat),
            p >= 1,
    {
        proof {
            lemma2_to64();
        }
        let mut p: u32 = 1;
        let mut i: u8 = 0;
        while i < k
            invariant
                i <= k,
                k <= 31,
                p as nat == pow2(i as nat),
                p >= 1,
            decreases k - i,
        {
            proof {
                lemma_pow2_adds(i as nat, 1);
                assert(pow2((i + 1) as nat) <= pow2(31)) by {
                    if ((i + 1) as nat) < 31 {
                        vstd::arithmetic::power2::lemma_pow2_strictly_increases(
                            (i + 1) as nat,
                            31,
                        );
                    }
                }
                lemma2_to64();
            }
            p = p * 2;
            i = i + 1;
        }
        p
    }

    /// Reads a signed Exp-Golomb codeword, mapping the unsigned value `v` to
    /// 0, 1, -1, 2, -2, ...
    pub fn read_se(&mut self) -> (r: Result<i32, BitReaderError>)
        requires
            old(self).wf(),
        ensures
            final(self).data@ == old(self).data@,
            final(self).wf(),
            match r {
                Ok(v) => parse_se(old(self).data@, old(self).pos as nat) == Ok::<
                    (int, nat),
                    BitReaderError,
                >((v as int, final(self).pos as nat)),
                Err(e) => parse_se(old(self).data@, old(self).pos as nat) == Err::<
                    (int, nat),
                    BitReaderError,
                >(e) && final(self).pos == old(self).pos,
            },
    {
        proof {
            if ue_ok(old(self).data@, old(self).pos as nat) {
                lemma_ue_val_bound(old(self).data@, old(self).pos as nat);
            }
        }
        match self.read_ue() {
            Ok(v) => {
                if v % 2 == 1 {
                    Ok(((v + 1) / 2) as i32)
                } else {
                    Ok(-((v / 2) as i32))
                }
            },
            Err(e) => Err(e),
        }
    }

    /// Reads an unsigned Exp-Golomb codeword; the name tags the read for
    /// diagnostics and does not affect behaviour.
    pub fn read_ue_named(&mut self, _name: &'static str) -> (r: Result<u32, BitReaderError>)
        requires
            old(self).wf(),
        ensures
            final(self).data@ == old(self).data@,
            final(self).wf(),
            match r {
                Ok(v) => parse_ue(old(self).data@, old(self).pos as nat) == Ok::<
                    (nat, nat),
                    BitReaderError,
                >((v as nat, final(self).pos as nat)),
                Err(e) => parse_ue(old(self).data@, old(self).pos as nat) == Err::<
                    (nat, nat),
                    BitReaderError,
                >(e) && final(self).pos == old(self).pos,
            },
    {
        self.read_ue()
    }

    /// Reads a single-bit flag; the name tags the read for diagnostics and does
    /// not affect behaviour.
    pub fn read_bool_named(&mut self, _name: &'static str) -> (r: Result<bool, BitReaderError>)
        requires
            old(self).wf(),
        ensures
            final(self).data@ == old(self).data@,
            final(self).wf(),
            match r {
                Ok(v) => parse_bool(old(self).data@, old(self).pos as nat) == Ok::<
                    (bool, nat),
                    BitReaderError,
                >((v, final(self).pos as nat)),
                Err(e) => parse_bool(old(self).data@, old(self).pos as nat) == Err::<
                    (bool, nat),
                    BitReaderError,
                >(e) && final(self).pos == old(self).pos,
            },
    {
        self.read_bool()
    }
}

} // verus!
