//! The full-range uniform integer sampler: one sampling method per supported
//! integer type, each consuming the minimal sufficient number of raw draws
//! and reinterpreting their bits as the target type.

use vstd::prelude::*;

use crate::source::RandomSource;
use crate::target::Target;
use crate::target::sampled_value;

verus! {

/// The full-range uniform distribution selector. It is a stateless,
/// parameter-free marker: "uniform over the whole range" is fixed by
/// construction, and each sampling call is independent.
#[derive(Clone, Copy)]
pub struct Uniform;

proof fn lemma_truncate_u8(d: u32)
    by (bit_vector)
    ensures
        (d as u8) as int == d % 0x100,
{
}

proof fn lemma_reinterpret_i8(d: u32)
    by (bit_vector)
    ensures
        d % 0x100 < 0x80 ==> (d as i8) as int == d % 0x100,
        d % 0x100 >= 0x80 ==> (d as i8) as int == d % 0x100 - 0x100,
{
}

proof fn lemma_truncate_u16(d: u32)
    by (bit_vector)
    ensures
        (d as u16) as int == d % 0x1_0000,
{
}

proof fn lemma_reinterpret_i16(d: u32)
    by (bit_vector)
    ensures
        d % 0x1_0000 < 0x8000 ==> (d as i16) as int == d % 0x1_0000,
        d % 0x1_0000 >= 0x8000 ==> (d as i16) as int == d % 0x1_0000 - 0x1_0000,
{
}

proof fn lemma_reinterpret_i32(d: u32)
    by (bit_vector)
    ensures
        d < 0x8000_0000 ==> (d as i32) as int == d,
        d >= 0x8000_0000 ==> (d as i32) as int == d - 0x1_0000_0000,
{
}

proof fn lemma_reinterpret_i64(d: u64)
    by (bit_vector)
    ensures
        d < 0x8000_0000_0000_0000 ==> (d as i64) as int == d,
        d >= 0x8000_0000_0000_0000 ==> (d as i64) as int == d - 0x1_0000_0000_0000_0000,
{
}

proof fn lemma_concat_u128(hi: u64, lo: u64)
    by (bit_vector)
    ensures
        (((hi as u128) << 64) | (lo as u128)) as int == hi * 0x1_0000_0000_0000_0000 + lo,
{
}

proof fn lemma_reinterpret_i128(p: u128)
    by (bit_vector)
    ensures
        p < 0x8000_0000_0000_0000_0000_0000_0000_0000 ==> (p as i128) as int == p,
        p >= 0x8000_0000_0000_0000_0000_0000_0000_0000 ==> (p as i128) as int == p
            - 0x1_0000_0000_0000_0000_0000_0000_0000_0000,
{
}

proof fn lemma_native_from_u64(d: u64)
    by (bit_vector)
    ensures
        usize::BITS == 64 ==> (d as usize) as int == d,
        usize::BITS == 64 && d < 0x8000_0000_0000_0000 ==> (d as isize) as int == d,
        usize::BITS == 64 && d >= 0x8000_0000_0000_0000 ==> (d as isize) as int == d
            - 0x1_0000_0000_0000_0000,
{
}

proof fn lemma_native_from_u32(d: u32)
    by (bit_vector)
    ensures
        (d as usize) as int == d,
        usize::BITS == 32 && d < 0x8000_0000 ==> (d as isize) as int == d,
        usize::BITS == 32 && d >= 0x8000_0000 ==> (d as isize) as int == d - 0x1_0000_0000,
{
}

impl Uniform {
    /// Sample a uniformly random `u8`: one 32-bit draw, truncated to its low
    /// 8 bits.
    pub fn sample_u8<R: RandomSource>(&self, rng: &mut R) -> (r: u8)
        requires
            old(rng).draws32().len() >= 1,
        ensures
            r as int == sampled_value(Target::U8, old(rng).draws32(), old(rng).draws64()),
            final(rng).draws32() == old(rng).draws32().drop_first(),
            final(rng).draws64() == old(rng).draws64(),
    {
        let d = rng.next_u32();
        proof {
            lemma_truncate_u8(d);
        }
        #[verifier::truncate] (d as u8)
    }

    /// Sample a uniformly random `i8`: one 32-bit draw, truncated to its low
    /// 8 bits and reinterpreted as two's complement.
    pub fn sample_i8<R: RandomSource>(&self, rng: &mut R) -> (r: i8)
        requires
            old(rng).draws32().len() >= 1,
        ensures
            r as int == sampled_value(Target::I8, old(rng).draws32(), old(rng).draws64()),
            final(rng).draws32() == old(rng).draws32().drop_first(),
            final(rng).draws64() == old(rng).draws64(),
    {
        let d = rng.next_u32();
        proof {
            lemma_reinterpret_i8(d);
        }
        #[verifier::truncate] (d as i8)
    }

    /// Sample a uniformly random `u16`: one 32-bit draw, truncated to its
    /// low 16 bits.
    pub fn sample_u16<R: RandomSource>(&self, rng: &mut R) -> (r: u16)
        requires
            old(rng).draws32().len() >= 1,
        ensures
            r as int == sampled_value(Target::U16, old(rng).draws32(), old(rng).draws64()),
            final(rng).draws32() == old(rng).draws32().drop_first(),
            final(rng).draws64() == old(rng).draws64(),
    {
        let d = rng.next_u32();
        proof {
            lemma_truncate_u16(d);
        }
        #[verifier::truncate] (d as u16)
    }

    /// Sample a uniformly random `i16`: one 32-bit draw, truncated to its
    /// low 16 bits and reinterpreted as two's complement.
    pub fn sample_i16<R: RandomSource>(&self, rng: &mut R) -> (r: i16)
        requires
            old(rng).draws32().len() >= 1,
        ensures
            r as int == sampled_value(Target::I16, old(rng).draws32(), old(rng).draws64()),
            final(rng).draws32() == old(rng).draws32().drop_first(),
            final(rng).draws64() == old(rng).draws64(),
    {
        let d = rng.next_u32();
        proof {
            lemma_reinterpret_i16(d);
        }
        #[verifier::truncate] (d as i16)
    }

    /// Sample a uniformly random `u32`: one whole 32-bit draw.
    pub fn sample_u32<R: RandomSource>(&self, rng: &mut R) -> (r: u32)
        requires
            old(rng).draws32().len() >= 1,
        ensures
            r as int == sampled_value(Target::U32, old(rng).draws32(), old(rng).draws64()),
            final(rng).draws32() == old(rng).draws32().drop_first(),
            final(rng).draws64() == old(rng).draws64(),
    {
        rng.next_u32()
    }

    /// Sample a uniformly random `i32`: one 32-bit draw, reinterpreted as
    /// two's complement.
    pub fn sample_i32<R: RandomSource>(&self, rng: &mut R) -> (r: i32)
        requires
            old(rng).draws32().len() >= 1,
        ensures
            r as int == sampled_value(Target::I32, old(rng).draws32(), old(rng).draws64()),
            final(rng).draws32() == old(rng).draws32().drop_first(),
            final(rng).draws64() == old(rng).draws64(),
    {
        let d = rng.next_u32();
        proof {
            lemma_reinterpret_i32(d);
        }
        #[verifier::truncate] (d as i32)
    }

    /// Sample a uniformly random `u64`: one whole 64-bit draw.
    pub fn sample_u64<R: RandomSource>(&self, rng: &mut R) -> (r: u64)
        requires
            old(rng).draws64().len() >= 1,
        ensures
            r as int == sampled_value(Target::U64, old(rng).draws32(), old(rng).draws64()),
            final(rng).draws64() == old(rng).draws64().drop_first(),
            final(rng).draws32() == old(rng).draws32(),
    {
        rng.next_u64()
    }

    /// Sample a uniformly random `i64`: one 64-bit draw, reinterpreted as
    /// two's complement.
    pub fn sample_i64<R: RandomSource>(&self, rng: &mut R) -> (r: i64)
        requires
            old(rng).draws64().len() >= 1,
        ensures
            r as int == sampled_value(Target::I64, old(rng).draws32(), old(rng).draws64()),
            final(rng).draws64() == old(rng).draws64().drop_first(),
            final(rng).draws32() == old(rng).draws32(),
    {
        let d = rng.next_u64();
        proof {
            lemma_reinterpret_i64(d);
        }
        #[verifier::truncate] (d as i64)
    }

    /// Sample a uniformly random `u128`: two 64-bit draws, the first one as
    /// the high half and the second as the low half, in that fixed order.
    pub fn sample_u128<R: RandomSource>(&self, rng: &mut R) -> (r: u128)
        requires
            old(rng).draws64().len() >= 2,
        ensures
            r as int == sampled_value(Target::U128, old(rng).draws32(), old(rng).draws64()),
            final(rng).draws64() == old(rng).draws64().skip(2),
            final(rng).draws32() == old(rng).draws32(),
    {
        let hi = rng.next_u64();
        let lo = rng.next_u64();
        proof {
            lemma_concat_u128(hi, lo);
            assert(rng.draws64() =~= old(rng).draws64().skip(2));
        }
        ((hi as u128) << 64) | (lo as u128)
    }

    /// Sample a uniformly random `i128`: two 64-bit draws concatenated as in
    /// the unsigned case, reinterpreted as two's complement.
    pub fn sample_i128<R: RandomSource>(&self, rng: &mut R) -> (r: i128)
        requires
            old(rng).draws64().len() >= 2,
        ensures
            r as int == sampled_value(Target::I128, old(rng).draws32(), old(rng).draws64()),
            final(rng).draws64() == old(rng).draws64().skip(2),
            final(rng).draws32() == old(rng).draws32(),
    {
        let hi = rng.next_u64();
        let lo = rng.next_u64();
        let p = ((hi as u128) << 64) | (lo as u128);
        proof {
            lemma_concat_u128(hi, lo);
            lemma_reinterpret_i128(p);
            assert(rng.draws64() =~= old(rng).draws64().skip(2));
        }
        #[verifier::truncate] (p as i128)
    }

    /// Sample a uniformly random `usize`: one 32-bit draw on platforms with
    /// 32-bit pointers, one 64-bit draw on platforms with 64-bit pointers.
    pub fn sample_usize<R: RandomSource>(&self, rng: &mut R) -> (r: usize)
        requires
            usize::BITS == 32 ==> old(rng).draws32().len() >= 1,
            usize::BITS == 64 ==> old(rng).draws64().len() >= 1,
        ensures
            r as int == sampled_value(Target::Usize, old(rng).draws32(), old(rng).draws64()),
            usize::BITS == 32 ==> final(rng).draws32() == old(rng).draws32().drop_first()
                && final(rng).draws64() == old(rng).draws64(),
            usize::BITS == 64 ==> final(rng).draws64() == old(rng).draws64().drop_first()
                && final(rng).draws32() == old(rng).draws32(),
    {
        if usize::BITS == 64 {
            let d = rng.next_u64();
            proof {
                lemma_native_from_u64(d);
            }
            #[verifier::truncate] (d as usize)
        } else {
            let d = rng.next_u32();
            proof {
                lemma_native_from_u32(d);
            }
            d as usize
        }
    }

    /// Sample a uniformly random `isize`: a draw of the platform's pointer
    /// width, reinterpreted as two's complement.
    pub fn sample_isize<R: RandomSource>(&self, rng: &mut R) -> (r: isize)
        requires
            usize::BITS == 32 ==> old(rng).draws32().len() >= 1,
            usize::BITS == 64 ==> old(rng).draws64().len() >= 1,
        ensures
            r as int == sampled_value(Target::Isize, old(rng).draws32(), old(rng).draws64()),
            usize::BITS == 32 ==> final(rng).draws32() == old(rng).draws32().drop_first()
                && final(rng).draws64() == old(rng).draws64(),
            usize::BITS == 64 ==> final(rng).draws64() == old(rng).draws64().drop_first()
                && final(rng).draws32() == old(rng).draws32(),
    {
        if usize::BITS == 64 {
            let d = rng.next_u64();
            proof {
                lemma_native_from_u64(d);
            }
            #[verifier::truncate] (d as isize)
        } else {
            let d = rng.next_u32();
            proof {
                lemma_native_from_u32(d);
            }
            #[verifier::truncate] (d as isize)
        }
    }
}

} // verus!
