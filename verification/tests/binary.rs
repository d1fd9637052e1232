use blitz::binary::{scale_size, Binary32};

fn noise(x: &mut u64) -> u64 {
    *x = x.wrapping_mul(6364136223846793005).wrapping_add(1442695040888963407);
    *x >> 16
}

fn scaled_by_float(n: u32, scale: f32) -> u32 {
    (n as f64 * scale as f64) as u32
}

fn scaled(n: u32, scale: f32) -> u32 {
    scale_size(n, 0, Binary32::from_bits(scale.to_bits()))
}

#[test]
fn common_scales_are_exact() {
    assert_eq!(scaled(900, 2.0), 1800);
    assert_eq!(scaled(1200, 2.0), 2400);
    assert_eq!(scaled(800, 2.0), 1600);
    assert_eq!(scaled(1200, 1.0), 1200);
    assert_eq!(scaled(1201, 0.5), 600);
    assert_eq!(scaled(100, 1.5), 150);
    assert_eq!(scaled(100, 1.1), 110);
    assert_eq!(scaled(10, 0.01), 0);
}

#[test]
fn unusual_scales_match_floating_point() {
    let scales = [
        0.0f32,
        -0.0,
        -3.5,
        f32::NAN,
        f32::INFINITY,
        f32::NEG_INFINITY,
        f32::MIN_POSITIVE,
        f32::from_bits(1),
        f32::from_bits(0x007F_FFFF),
        f32::from_bits(0x8000_0001),
        f32::MAX,
        f32::MIN,
        1.0e-10,
        1.0e10,
        0.333_333_34,
        16_777_215.0,
        0.999_999_94,
    ];
    let sizes = [0u32, 1, 2, 3, 799, 800, 1200, 4000, 0x00FF_FFFF, 1 << 29, (1 << 30) - 1, u32::MAX];
    for s in scales {
        for n in sizes {
            assert_eq!(scaled(n, s), scaled_by_float(n, s), "{} * {}", n, s);
        }
    }
}

#[test]
fn random_scales_match_floating_point() {
    let mut x: u64 = 99;
    for _ in 0..400_000 {
        let n = noise(&mut x) as u32;
        let any = f32::from_bits(noise(&mut x) as u32);
        assert_eq!(scaled(n, any), scaled_by_float(n, any), "{} * {}", n, any);
        let near_one = f32::from_bits(0x3E00_0000 + (noise(&mut x) as u32 & 0x02FF_FFFF));
        assert_eq!(scaled(n, near_one), scaled_by_float(n, near_one), "{} * {}", n, near_one);
    }
}

#[test]
fn products_beyond_53_bits_round_before_they_are_cut() {
    let cases = [
        (3_965_140_143u32, 0x3F22_65B1u32, 2_515_342_906u32),
        (3_881_533_245, 0x3F1E_2FEB, 2_398_471_861),
        (3_862_929_815, 0x3F73_11D9, 3_667_817_416),
        (4_209_308_857, 0x3F61_2E77, 3_702_572_251),
    ];
    for (n, bits, expected) in cases {
        let scale = f32::from_bits(bits);
        assert_eq!(scaled(n, scale), expected);
        assert_eq!(scaled_by_float(n, scale), expected);
        let significand = (bits & 0x007F_FFFF | 0x0080_0000) as u64;
        assert_eq!((n as u64 * significand >> 24) as u32, expected - 1);
    }
    let scale = f32::from_bits(0x3F80_0001);
    for n in (u32::MAX - 4000)..=u32::MAX {
        assert_eq!(scaled(n, scale), scaled_by_float(n, scale));
    }
}

#[test]
fn fractional_sizes_match_floating_point() {
    let mut x: u64 = 7;
    for _ in 0..200_000 {
        let content = f32::from_bits(0x4000_0000 + (noise(&mut x) as u32 & 0x07FF_FFFF));
        let scale = f32::from_bits(0x3E00_0000 + (noise(&mut x) as u32 & 0x02FF_FFFF));
        let (m, e) = Binary32::from_bits(content.to_bits()).magnitude();
        assert_eq!(
            scale_size(m, e, Binary32::from_bits(scale.to_bits())),
            (content as f64 * scale as f64) as u32
        );
    }
}

#[test]
fn comparisons_match_floating_point() {
    let mut x: u64 = 3;
    for _ in 0..200_000 {
        let bits = noise(&mut x) as u32;
        let f = f32::from_bits(bits);
        let b = Binary32::from_bits(bits);
        assert_eq!(b.is_at_most_zero(), f <= 0.0, "{}", f);
        let n = (noise(&mut x) >> (noise(&mut x) % 32)) as u32;
        assert_eq!(b.is_greater_than(n), f as f64 > n as f64, "{} > {}", f, n);
        let near = n as f32;
        let b = Binary32::from_bits(near.to_bits());
        assert_eq!(b.is_greater_than(n), near as f64 > n as f64, "{} > {}", near, n);
    }
    for f in [0.0f32, -0.0, f32::NAN, f32::INFINITY, f32::NEG_INFINITY, 1.0, -1.0] {
        let b = Binary32::from_bits(f.to_bits());
        assert_eq!(b.is_at_most_zero(), f <= 0.0);
        assert_eq!(b.is_greater_than(0), f > 0.0);
        assert_eq!(b.is_greater_than(u32::MAX), f as f64 > u32::MAX as f64);
    }
}

#[test]
fn scaling_keeps_order_and_doubles() {
    let mut x: u64 = 5;
    for _ in 0..100_000 {
        let scale = f32::from_bits(noise(&mut x) as u32 & 0x7FFF_FFFF);
        let a = noise(&mut x) as u32;
        let b = noise(&mut x) as u32;
        let (a, b) = if a <= b { (a, b) } else { (b, a) };
        assert!(scaled(a, scale) <= scaled(b, scale));
        assert_eq!(scaled(a >> 2, 4.0), a >> 2 << 2);
    }
}
