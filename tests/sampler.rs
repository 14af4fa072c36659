use rand::rngs::StdRng;
use rand::{Rng, SeedableRng};
use range_sampler::float_bits::{is_finite_bits, order_key_of};
use range_sampler::{plan_sample, SampleError, SamplePlan};

fn plan(lower: f32, upper: f32) -> Result<SamplePlan, SampleError> {
    plan_sample(lower.to_bits(), upper.to_bits())
}

fn draw<R: Rng>(rng: &mut R, lower: f32, upper: f32) -> f32 {
    match plan(lower, upper).expect("valid bounds") {
        SamplePlan::Exact(v) => f32::from_bits(v),
        SamplePlan::Uniform { lower, upper } => {
            rng.gen_range(f32::from_bits(lower)..=f32::from_bits(upper))
        }
    }
}

#[test]
fn thousand_draws_stay_in_bounds() {
    assert_eq!(
        plan(0.0, 100.0),
        Ok(SamplePlan::Uniform { lower: 0.0f32.to_bits(), upper: 100.0f32.to_bits() })
    );
    let mut rng = rand::thread_rng();
    for _ in 0..1000 {
        let v = draw(&mut rng, 0.0, 100.0);
        assert!((0.0..=100.0).contains(&v));
    }
}

#[test]
fn equal_bounds_give_that_value() {
    let r = plan(5.0, 5.0);
    assert_eq!(r, Ok(SamplePlan::Exact(5.0f32.to_bits())));
    assert_eq!(draw(&mut rand::thread_rng(), 5.0, 5.0), 5.0);
}

#[test]
fn equal_negative_and_subnormal_bounds() {
    assert_eq!(plan(-2.5, -2.5), Ok(SamplePlan::Exact((-2.5f32).to_bits())));
    let tiny = f32::from_bits(1);
    assert_eq!(plan(tiny, tiny), Ok(SamplePlan::Exact(1)));
    assert_eq!(plan(f32::MAX, f32::MAX), Ok(SamplePlan::Exact(f32::MAX.to_bits())));
}

#[test]
fn zeros_of_both_signs_are_equal_bounds() {
    assert_eq!(plan(-0.0, 0.0), Ok(SamplePlan::Exact((-0.0f32).to_bits())));
    assert_eq!(plan(0.0, -0.0), Ok(SamplePlan::Exact(0)));
}

#[test]
fn inverted_bounds_are_refused() {
    assert_eq!(plan(100.0, 0.0), Err(SampleError::InvertedRange));
    assert_eq!(plan(-1.0, -2.0), Err(SampleError::InvertedRange));
    assert_eq!(plan(f32::from_bits(2), f32::from_bits(1)), Err(SampleError::InvertedRange));
}

#[test]
fn non_finite_bounds_are_refused() {
    assert_eq!(plan(f32::NAN, 1.0), Err(SampleError::NonFinite));
    assert_eq!(plan(0.0, f32::NAN), Err(SampleError::NonFinite));
    assert_eq!(plan(f32::NEG_INFINITY, 0.0), Err(SampleError::NonFinite));
    assert_eq!(plan(0.0, f32::INFINITY), Err(SampleError::NonFinite));
    assert_eq!(plan(f32::INFINITY, f32::INFINITY), Err(SampleError::NonFinite));
    assert_eq!(plan(100.0, f32::NAN), Err(SampleError::NonFinite));
}

#[test]
fn negative_range_gives_uniform_plan() {
    assert_eq!(
        plan(-10.0, -0.5),
        Ok(SamplePlan::Uniform { lower: (-10.0f32).to_bits(), upper: (-0.5f32).to_bits() })
    );
    let mut rng = rand::thread_rng();
    for _ in 0..100 {
        let v = draw(&mut rng, -10.0, 0.5);
        assert!((-10.0..=0.5).contains(&v));
    }
}

#[test]
fn seeded_draws_repeat() {
    let mut a = StdRng::seed_from_u64(42);
    let mut b = StdRng::seed_from_u64(42);
    let xs: Vec<f32> = (0..50).map(|_| draw(&mut a, -3.0, 7.0)).collect();
    let ys: Vec<f32> = (0..50).map(|_| draw(&mut b, -3.0, 7.0)).collect();
    assert_eq!(xs, ys);
}

#[test]
fn classification_of_bit_patterns() {
    assert!(is_finite_bits(1.5f32.to_bits()));
    assert!(is_finite_bits(f32::MAX.to_bits()));
    assert!(is_finite_bits((-0.0f32).to_bits()));
    assert!(!is_finite_bits(f32::INFINITY.to_bits()));
    assert!(!is_finite_bits(f32::NEG_INFINITY.to_bits()));
    assert!(!is_finite_bits(f32::NAN.to_bits()));
}

#[test]
fn order_key_values() {
    assert_eq!(order_key_of(0), 0);
    assert_eq!(order_key_of(0x8000_0000), 0);
    assert_eq!(order_key_of(1.0f32.to_bits()), 0x3f80_0000);
    assert_eq!(order_key_of((-1.0f32).to_bits()), -0x3f80_0000);
}

#[test]
fn order_key_agrees_with_float_order() {
    let vals: [f32; 14] = [
        f32::MIN,
        -1.0e30,
        -100.0,
        -1.0,
        -f32::MIN_POSITIVE,
        -f32::from_bits(1),
        -0.0,
        0.0,
        f32::from_bits(1),
        f32::MIN_POSITIVE,
        0.3,
        1.0,
        12345.678,
        f32::MAX,
    ];
    for a in vals {
        for b in vals {
            let ka = order_key_of(a.to_bits());
            let kb = order_key_of(b.to_bits());
            assert_eq!(ka.cmp(&kb), a.partial_cmp(&b).unwrap());
        }
    }
}
