use uniform_int::ReplaySource;
use uniform_int::Uniform;

fn source_with(d32: Vec<u32>, d64: Vec<u64>) -> ReplaySource {
    ReplaySource::new(d32, d64)
}

#[test]
fn test_integers() {
    let d32: Vec<u32> = vec![806, 1, 2, 3, 4, 5, 6, 7];
    let d64: Vec<u64> = vec![8, 9, 10, 11, 12, 13, 14, 15];
    let mut rng = source_with(d32, d64);
    let uniform = Uniform;

    uniform.sample_isize(&mut rng);
    uniform.sample_i8(&mut rng);
    uniform.sample_i16(&mut rng);
    uniform.sample_i32(&mut rng);
    uniform.sample_i64(&mut rng);
    uniform.sample_i128(&mut rng);

    uniform.sample_usize(&mut rng);
    uniform.sample_u8(&mut rng);
    uniform.sample_u16(&mut rng);
    uniform.sample_u32(&mut rng);
    uniform.sample_u64(&mut rng);
    uniform.sample_u128(&mut rng);
}

#[test]
fn test_all_ones_reinterpretation() {
    let d32: Vec<u32> = vec![u32::MAX; 8];
    let d64: Vec<u64> = vec![u64::MAX; 8];
    let mut rng = source_with(d32, d64);
    let uniform = Uniform;

    assert_eq!(uniform.sample_u8(&mut rng), 255u8);
    assert_eq!(uniform.sample_i8(&mut rng), -1i8);
    assert_eq!(uniform.sample_u16(&mut rng), 65535u16);
    assert_eq!(uniform.sample_i16(&mut rng), -1i16);
    assert_eq!(uniform.sample_u32(&mut rng), u32::MAX);
    assert_eq!(uniform.sample_i32(&mut rng), -1i32);
    assert_eq!(uniform.sample_u64(&mut rng), u64::MAX);
    assert_eq!(uniform.sample_i64(&mut rng), -1i64);
    assert_eq!(uniform.sample_u128(&mut rng), u128::MAX);
    assert_eq!(uniform.sample_i128(&mut rng), -1i128);
    assert_eq!(uniform.sample_usize(&mut rng), usize::MAX);
    assert_eq!(uniform.sample_isize(&mut rng), -1isize);
}

#[test]
fn test_truncation_keeps_low_bits() {
    let d32: Vec<u32> = vec![0x1234_ABCD; 6];
    let d64: Vec<u64> = vec![];
    let mut rng = source_with(d32, d64);
    let uniform = Uniform;

    assert_eq!(uniform.sample_u8(&mut rng), 0xCDu8);
    assert_eq!(uniform.sample_i8(&mut rng), -51i8); // 0xCD reinterpreted
    assert_eq!(uniform.sample_u16(&mut rng), 0xABCDu16);
    assert_eq!(uniform.sample_i16(&mut rng), -21555i16); // 0xABCD reinterpreted
    assert_eq!(uniform.sample_u32(&mut rng), 0x1234_ABCDu32);
    assert_eq!(uniform.sample_i32(&mut rng), 0x1234_ABCDi32);
}

#[test]
fn test_signed_top_bit_is_negative() {
    let d32: Vec<u32> = vec![0x0000_0080, 0x0000_8000, 0x8000_0000];
    let d64: Vec<u64> = vec![0x8000_0000_0000_0000, 0x8000_0000_0000_0000, 0];
    let mut rng = source_with(d32, d64);
    let uniform = Uniform;

    assert_eq!(uniform.sample_i8(&mut rng), i8::MIN);
    assert_eq!(uniform.sample_i16(&mut rng), i16::MIN);
    assert_eq!(uniform.sample_i32(&mut rng), i32::MIN);
    assert_eq!(uniform.sample_i64(&mut rng), i64::MIN);
    assert_eq!(uniform.sample_i128(&mut rng), i128::MIN);
}

#[test]
fn test_concat_128_high_then_low() {
    let p1: u64 = 0x0123_4567_89AB_CDEF;
    let p2: u64 = 0xFEDC_BA98_7654_3210;
    let mut rng = source_with(vec![], vec![p1, p2]);
    let uniform = Uniform;

    let v = uniform.sample_u128(&mut rng);
    assert_eq!((v >> 64) as u64, p1);
    assert_eq!(v as u64, p2);
    assert_eq!(v, 0x0123_4567_89AB_CDEF_FEDC_BA98_7654_3210u128);
}

#[test]
fn test_draw_counts() {
    let d32: Vec<u32> = vec![7; 6];
    let d64: Vec<u64> = vec![9; 4];
    let mut rng = source_with(d32, d64);
    let uniform = Uniform;

    uniform.sample_u8(&mut rng);
    assert_eq!(rng.remaining32(), 5);
    assert_eq!(rng.remaining64(), 4);

    uniform.sample_i16(&mut rng);
    assert_eq!(rng.remaining32(), 4);
    assert_eq!(rng.remaining64(), 4);

    uniform.sample_u32(&mut rng);
    assert_eq!(rng.remaining32(), 3);
    assert_eq!(rng.remaining64(), 4);

    uniform.sample_i64(&mut rng);
    assert_eq!(rng.remaining32(), 3);
    assert_eq!(rng.remaining64(), 3);

    uniform.sample_u128(&mut rng);
    assert_eq!(rng.remaining32(), 3);
    assert_eq!(rng.remaining64(), 1);
}

#[test]
fn test_determinism_under_fixed_source() {
    let draws32: Vec<u32> = vec![0xDEAD_BEEF, 0x0BAD_F00D, 42, 7, 0, u32::MAX];
    let draws64: Vec<u64> = vec![0x1122_3344_5566_7788, 99, u64::MAX, 3, 1, 0, 2, 4];

    let mut a = source_with(draws32.clone(), draws64.clone());
    let mut b = source_with(draws32, draws64);
    let uniform = Uniform;

    assert_eq!(uniform.sample_u8(&mut a), uniform.sample_u8(&mut b));
    assert_eq!(uniform.sample_i16(&mut a), uniform.sample_i16(&mut b));
    assert_eq!(uniform.sample_u32(&mut a), uniform.sample_u32(&mut b));
    assert_eq!(uniform.sample_i32(&mut a), uniform.sample_i32(&mut b));
    assert_eq!(uniform.sample_u64(&mut a), uniform.sample_u64(&mut b));
    assert_eq!(uniform.sample_i64(&mut a), uniform.sample_i64(&mut b));
    assert_eq!(uniform.sample_u128(&mut a), uniform.sample_u128(&mut b));
    assert_eq!(uniform.sample_i128(&mut a), uniform.sample_i128(&mut b));
    assert_eq!(rem(&a), rem(&b));
}

fn rem(s: &ReplaySource) -> (usize, usize) {
    (s.remaining32(), s.remaining64())
}

#[test]
fn test_native_width_selection() {
    let d32: Vec<u32> = vec![0xAABB_CCDD, 0xAABB_CCDD];
    let d64: Vec<u64> = vec![0x1020_3040_5060_7080, 0x1020_3040_5060_7080];
    let mut rng = source_with(d32, d64);
    let uniform = Uniform;

    let u = uniform.sample_usize(&mut rng);
    let i = uniform.sample_isize(&mut rng);
    if usize::BITS == 64 {
        // 64-bit pointers: both native samples came from the 64-bit queue.
        assert_eq!(rng.remaining32(), 2);
        assert_eq!(rng.remaining64(), 0);
        assert_eq!(u, 0x1020_3040_5060_7080usize);
        assert_eq!(i, 0x1020_3040_5060_7080isize);
    } else {
        // 32-bit pointers: both native samples came from the 32-bit queue.
        assert_eq!(rng.remaining32(), 0);
        assert_eq!(rng.remaining64(), 2);
        assert_eq!(u, 0xAABB_CCDDu32 as usize);
        assert_eq!(i, 0xAABB_CCDDu32 as i32 as isize);
    }
}

#[test]
fn test_replay_source_order() {
    let mut rng = source_with(vec![10, 20, 30], vec![40, 50]);
    let uniform = Uniform;

    assert_eq!(uniform.sample_u32(&mut rng), 10);
    assert_eq!(uniform.sample_u32(&mut rng), 20);
    assert_eq!(uniform.sample_u64(&mut rng), 40);
    assert_eq!(uniform.sample_u32(&mut rng), 30);
    assert_eq!(uniform.sample_u64(&mut rng), 50);
    assert_eq!(rng.remaining32(), 0);
    assert_eq!(rng.remaining64(), 0);
}
