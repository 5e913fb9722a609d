//! The target descriptor model: which integer type is being sampled, how
//! many raw draws that takes at each granularity, and what value a raw bit
//! pattern denotes under the target's width and signedness.

use vstd::prelude::*;

verus! {

/// Descriptor of a sampling target: one variant per supported integer type,
/// fixing its bit width and signedness. The pointer-sized targets (`Usize`,
/// `Isize`) have the platform's pointer width.
#[derive(Clone, Copy, PartialEq, Eq, Structural, Debug)]
pub enum Target {
    U8,
    U16,
    U32,
    U64,
    U128,
    Usize,
    I8,
    I16,
    I32,
    I64,
    I128,
    Isize,
}

/// Whether the target type is signed.
pub open spec fn is_signed(t: Target) -> bool {
    match t {
        Target::I8 | Target::I16 | Target::I32 | Target::I64 | Target::I128 | Target::Isize =>
            true,
        _ => false,
    }
}

/// The target type's width in bits; the pointer-sized targets have the
/// platform's pointer width.
pub open spec fn width_bits(t: Target) -> nat {
    match t {
        Target::U8 | Target::I8 => 8,
        Target::U16 | Target::I16 => 16,
        Target::U32 | Target::I32 => 32,
        Target::U64 | Target::I64 => 64,
        Target::U128 | Target::I128 => 128,
        Target::Usize | Target::Isize => usize::BITS as nat,
    }
}

/// The number of distinct bit patterns of the target's width: 2 to the power
/// of `width_bits(t)`.
pub open spec fn pattern_count(t: Target) -> nat {
    match t {
        Target::U8 | Target::I8 => 0x100,
        Target::U16 | Target::I16 => 0x1_0000,
        Target::U32 | Target::I32 => 0x1_0000_0000,
        Target::U64 | Target::I64 => 0x1_0000_0000_0000_0000,
        Target::U128 | Target::I128 => 0x1_0000_0000_0000_0000_0000_0000_0000_0000nat,
        Target::Usize | Target::Isize => if usize::BITS == 64 {
            0x1_0000_0000_0000_0000
        } else {
            0x1_0000_0000
        },
    }
}

/// How many 32-bit draws sampling the target consumes.
pub open spec fn draws32_used(t: Target) -> nat {
    if width_bits(t) <= 32 {
        1
    } else {
        0
    }
}

/// How many 64-bit draws sampling the target consumes.
pub open spec fn draws64_used(t: Target) -> nat {
    if width_bits(t) == 128 {
        2
    } else if width_bits(t) == 64 {
        1
    } else {
        0
    }
}

/// The unsigned bit pattern of width `width_bits(t)` assembled from the
/// leading draws: targets up to 32 bits wide keep the low bits of one 32-bit
/// draw, 64-bit targets one whole 64-bit draw, and 128-bit targets the first
/// 64-bit draw as high half concatenated with the second as low half.
pub open spec fn raw_pattern(t: Target, d32: Seq<u32>, d64: Seq<u64>) -> nat {
    if width_bits(t) == 8 {
        (d32[0] % 0x100) as nat
    } else if width_bits(t) == 16 {
        (d32[0] % 0x1_0000) as nat
    } else if width_bits(t) == 32 {
        d32[0] as nat
    } else if width_bits(t) == 64 {
        d64[0] as nat
    } else {
        (d64[0] * 0x1_0000_0000_0000_0000 + d64[1]) as nat
    }
}

/// The value an unsigned bit pattern denotes in the target type: the pattern
/// itself for unsigned targets, and its two's-complement reinterpretation
/// for signed ones (patterns with the top bit set denote negative values).
pub open spec fn value_of_pattern(t: Target, p: nat) -> int {
    if is_signed(t) && p >= pattern_count(t) / 2 {
        p - pattern_count(t)
    } else {
        p as int
    }
}

/// The value sampling the target yields from the given draw sequences: the
/// reinterpretation of the assembled raw pattern.
pub open spec fn sampled_value(t: Target, d32: Seq<u32>, d64: Seq<u64>) -> int {
    value_of_pattern(t, raw_pattern(t, d32, d64))
}

/// Entropy is conserved: a target up to 64 bits wide consumes exactly one
/// raw draw in total, and a 128-bit target exactly two (both of them 64-bit
/// draws), whatever the width and signedness.
pub proof fn lemma_draw_count_conserved(t: Target)
    ensures
        width_bits(t) <= 64 ==> draws32_used(t) + draws64_used(t) == 1,
        width_bits(t) == 128 ==> draws32_used(t) == 0 && draws64_used(t) == 2,
{
}

/// The pointer-sized targets draw at the granularity of the platform's
/// pointer width: one 32-bit draw on platforms with 32-bit pointers, one
/// 64-bit draw on platforms with 64-bit pointers, and nothing else.
pub proof fn lemma_native_draw_granularity()
    ensures
        usize::BITS == 32 ==> draws32_used(Target::Usize) == 1 && draws64_used(Target::Usize)
            == 0 && draws32_used(Target::Isize) == 1 && draws64_used(Target::Isize) == 0,
        usize::BITS == 64 ==> draws32_used(Target::Usize) == 0 && draws64_used(Target::Usize)
            == 1 && draws32_used(Target::Isize) == 0 && draws64_used(Target::Isize) == 1,
{
}

/// Every sampled value is representable in the target type: an unsigned
/// target yields a value in `[0, 2^w)` and a signed one a value in
/// `[-2^(w-1), 2^(w-1))`, for `w` the target's width.
pub proof fn lemma_sampled_value_representable(t: Target, d32: Seq<u32>, d64: Seq<u64>)
    requires
        d32.len() >= draws32_used(t),
        d64.len() >= draws64_used(t),
    ensures
        !is_signed(t) ==> 0 <= sampled_value(t, d32, d64) < pattern_count(t),
        is_signed(t) ==> -(pattern_count(t) / 2) <= sampled_value(t, d32, d64) < pattern_count(
            t,
        ) / 2,
{
    if width_bits(t) == 128 {
        assert(d64[0] * 0x1_0000_0000_0000_0000 <= 0xFFFF_FFFF_FFFF_FFFF
            * 0x1_0000_0000_0000_0000);
    }
}

/// Reinterpretation of the all-ones pattern: an unsigned target yields its
/// maximum representable value, a signed target yields -1.
pub proof fn lemma_all_ones_pattern(t: Target)
    ensures
        !is_signed(t) ==> value_of_pattern(t, (pattern_count(t) - 1) as nat) == pattern_count(t)
            - 1,
        is_signed(t) ==> value_of_pattern(t, (pattern_count(t) - 1) as nat) == -1,
{
}

/// Draws whose bits are all ones assemble into the all-ones pattern, so an
/// unsigned target samples its maximum value and a signed one samples -1.
pub proof fn lemma_all_ones_draws(t: Target, d32: Seq<u32>, d64: Seq<u64>)
    requires
        d32.len() >= draws32_used(t),
        d64.len() >= draws64_used(t),
        draws32_used(t) >= 1 ==> d32[0] == 0xFFFF_FFFFu32,
        draws64_used(t) >= 1 ==> d64[0] == 0xFFFF_FFFF_FFFF_FFFFu64,
        draws64_used(t) >= 2 ==> d64[1] == 0xFFFF_FFFF_FFFF_FFFFu64,
    ensures
        raw_pattern(t, d32, d64) == pattern_count(t) - 1,
        !is_signed(t) ==> sampled_value(t, d32, d64) == pattern_count(t) - 1,
        is_signed(t) ==> sampled_value(t, d32, d64) == -1,
{
    lemma_all_ones_pattern(t);
}

/// The high half of a 128-bit pattern is exactly the first 64-bit draw and
/// the low half exactly the second: concatenation keeps both halves intact
/// and in the committed order.
pub proof fn lemma_concat_halves(d32: Seq<u32>, d64: Seq<u64>)
    requires
        d64.len() >= 2,
    ensures
        raw_pattern(Target::U128, d32, d64) / 0x1_0000_0000_0000_0000 == d64[0],
        raw_pattern(Target::U128, d32, d64) % 0x1_0000_0000_0000_0000 == d64[1],
{
    vstd::arithmetic::div_mod::lemma_fundamental_div_mod_converse(
        d64[0] * 0x1_0000_0000_0000_0000 + d64[1],
        0x1_0000_0000_0000_0000,
        d64[0] as int,
        d64[1] as int,
    );
}

/// Reinterpretation never merges patterns: two distinct patterns of the
/// target's width denote distinct values, so no value is over-represented.
pub proof fn lemma_reinterpretation_injective(t: Target, p1: nat, p2: nat)
    requires
        p1 < pattern_count(t),
        p2 < pattern_count(t),
        value_of_pattern(t, p1) == value_of_pattern(t, p2),
    ensures
        p1 == p2,
{
}

/// Reinterpretation misses no value: every representable value of the
/// target, including the most negative one, is denoted by some pattern of
/// the target's width.
pub proof fn lemma_every_value_reachable(t: Target, v: int)
    requires
        !is_signed(t) ==> 0 <= v < pattern_count(t),
        is_signed(t) ==> -(pattern_count(t) / 2) <= v < pattern_count(t) / 2,
    ensures
        exists|p: nat| p < pattern_count(t) && value_of_pattern(t, p) == v,
{
    let p: nat = if v >= 0 {
        v as nat
    } else {
        (v + pattern_count(t)) as nat
    };
    assert(p < pattern_count(t) && value_of_pattern(t, p) == v);
}

/// Every pattern of the target's width is assembled from some draws of the
/// granularities the target consumes: truncation and concatenation discard
/// no pattern.
pub proof fn lemma_every_pattern_drawable(t: Target, p: nat)
    requires
        p < pattern_count(t),
    ensures
        exists|d32: Seq<u32>, d64: Seq<u64>|
            d32.len() == draws32_used(t) && d64.len() == draws64_used(t) && #[trigger] raw_pattern(
                t,
                d32,
                d64,
            ) == p,
{
    if width_bits(t) == 128 {
        let hi: nat = p / 0x1_0000_0000_0000_0000;
        let lo: nat = p % 0x1_0000_0000_0000_0000;
        vstd::arithmetic::div_mod::lemma_fundamental_div_mod(
            p as int,
            0x1_0000_0000_0000_0000,
        );
        assert(hi <= 0xFFFF_FFFF_FFFF_FFFF) by {
            if hi > 0xFFFF_FFFF_FFFF_FFFF {
                assert(hi * 0x1_0000_0000_0000_0000 >= 0x1_0000_0000_0000_0000
                    * 0x1_0000_0000_0000_0000) by (nonlinear_arith)
                    requires
                        hi >= 0x1_0000_0000_0000_0000,
                ;
            }
        }
        let d32 = Seq::<u32>::empty();
        let d64 = seq![hi as u64, lo as u64];
        assert(raw_pattern(t, d32, d64) == p);
    } else if width_bits(t) == 64 {
        let d32 = Seq::<u32>::empty();
        let d64 = seq![p as u64];
        assert(raw_pattern(t, d32, d64) == p);
    } else {
        let d32 = seq![p as u32];
        let d64 = Seq::<u64>::empty();
        assert(raw_pattern(t, d32, d64) == p);
    }
}

/// The sampler has no hidden state: the sampled value depends only on the
/// draws the target consumes, so two sampling calls fed identical draws
/// produce identical values.
pub proof fn lemma_sampled_value_deterministic(
    t: Target,
    a32: Seq<u32>,
    a64: Seq<u64>,
    b32: Seq<u32>,
    b64: Seq<u64>,
)
    requires
        a32.len() >= draws32_used(t),
        a64.len() >= draws64_used(t),
        b32.len() >= draws32_used(t),
        b64.len() >= draws64_used(t),
        a32.take(draws32_used(t) as int) == b32.take(draws32_used(t) as int),
        a64.take(draws64_used(t) as int) == b64.take(draws64_used(t) as int),
    ensures
        sampled_value(t, a32, a64) == sampled_value(t, b32, b64),
{
    if draws32_used(t) >= 1 {
        assert(a32.take(draws32_used(t) as int)[0] == a32[0]);
        assert(b32.take(draws32_used(t) as int)[0] == b32[0]);
    }
    if draws64_used(t) >= 1 {
        assert(a64.take(draws64_used(t) as int)[0] == a64[0]);
        assert(b64.take(draws64_used(t) as int)[0] == b64[0]);
    }
    if draws64_used(t) >= 2 {
        assert(a64.take(draws64_used(t) as int)[1] == a64[1]);
        assert(b64.take(draws64_used(t) as int)[1] == b64[1]);
    }
}

} // verus!
