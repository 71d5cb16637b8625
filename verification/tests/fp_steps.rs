use float_next_after::NextAfter;
use sin_minimax::extremum::find_sign_change_brackets;
use sin_minimax::extremum::running_max_abs;
use sin_minimax::extremum::sample_points;
use sin_minimax::extremum::sign_changed;
use sin_minimax::fp;

// The verified one-step walk agrees with the reference next_after
// implementation, in both directions, across normals, subnormals, zeros
// and the extremes of the finite range.
#[test]
fn next_step_matches_reference() {
    let cases: [f64; 10] = [
        1.5,
        -1.5,
        0.0,
        -0.0,
        1.0,
        -1.0,
        f64::MIN_POSITIVE,
        -f64::MIN_POSITIVE,
        f64::MAX,
        f64::from_bits(1),
    ];
    for x in cases {
        assert_eq!(
            fp::next_up(x.to_bits()),
            x.next_after(f64::INFINITY).to_bits(),
            "next_up at {x}"
        );
        assert_eq!(
            fp::next_down(x.to_bits()),
            x.next_after(f64::NEG_INFINITY).to_bits(),
            "next_down at {x}"
        );
    }
    // Infinities step back into the finite range in one direction and are
    // fixed in the other.
    assert_eq!(fp::next_up(f64::INFINITY.to_bits()), f64::INFINITY.to_bits());
    assert_eq!(fp::next_down(f64::INFINITY.to_bits()), f64::MAX.to_bits());
    assert_eq!(fp::next_up(f64::NEG_INFINITY.to_bits()), f64::MIN.to_bits());
    assert_eq!(
        fp::next_down(f64::NEG_INFINITY.to_bits()),
        f64::NEG_INFINITY.to_bits()
    );
}

#[test]
fn next_step_round_trips() {
    for x in [1.5f64, -2.25, 1e-300, f64::MAX, -f64::MAX] {
        let bits = x.to_bits();
        assert_eq!(fp::next_down(fp::next_up(bits)), bits);
        assert_eq!(fp::next_up(fp::next_down(bits)), bits);
    }
}

#[test]
fn abs_and_neg_flip_only_the_sign() {
    assert_eq!(fp::abs_bits((-2.5f64).to_bits()), 2.5f64.to_bits());
    assert_eq!(fp::abs_bits(2.5f64.to_bits()), 2.5f64.to_bits());
    assert_eq!(fp::neg_bits(2.5f64.to_bits()), (-2.5f64).to_bits());
    assert_eq!(fp::neg_bits((-0.0f64).to_bits()), 0.0f64.to_bits());
}

#[test]
fn half_pi_bits_name_the_double_nearest_half_pi() {
    assert_eq!(fp::HALF_PI_BITS, (std::f64::consts::PI * 0.5).to_bits());
    assert_eq!(fp::ONE_BITS, 1.0f64.to_bits());
    assert_eq!(fp::NEG_ONE_BITS, (-1.0f64).to_bits());
}

// Three samples over [0, 1] land exactly on 0, one half, and 1: every
// operation of the sample formula is exact on these inputs.
#[test]
fn sample_points_exact_on_unit_interval() {
    let samples = sample_points(0.0f64.to_bits(), 1.0f64.to_bits(), 3);
    assert_eq!(
        samples,
        vec![0.0f64.to_bits(), 0.5f64.to_bits(), 1.0f64.to_bits()]
    );
}

#[test]
fn sample_points_hit_both_edges() {
    let min = 0.0001f64;
    let max = std::f64::consts::PI * 0.5;
    let samples = sample_points(min.to_bits(), max.to_bits(), 50);
    assert_eq!(samples.len(), 50);
    assert_eq!(f64::from_bits(samples[0]), min);
    // The right edge computes as (49 / 49) * (max - min) + min, which can
    // differ from max in the last bits.
    let right = f64::from_bits(samples[49]);
    assert!((right - max).abs() < 1e-12);
    for i in 1..50 {
        assert!(f64::from_bits(samples[i]) > f64::from_bits(samples[i - 1]));
    }
}

#[test]
fn sign_changes_are_bracketed() {
    let derivs: Vec<u64> = [1.0f64, 0.5, -0.25, -1.0, 2.0, 3.0]
        .iter()
        .map(|x| x.to_bits())
        .collect();
    assert!(!sign_changed(derivs[0], derivs[1]));
    assert!(sign_changed(derivs[1], derivs[2]));
    assert_eq!(find_sign_change_brackets(&derivs), vec![2, 4]);
    // A NaN compares unequal to every signum value, its own included.
    assert!(sign_changed(f64::NAN.to_bits(), 1.0f64.to_bits()));
    assert!(sign_changed(f64::NAN.to_bits(), f64::NAN.to_bits()));
}

#[test]
fn running_max_takes_absolute_values() {
    let errors: Vec<u64> = [0.5f64, -3.25, 1.0].iter().map(|x| x.to_bits()).collect();
    let seed = 0.75f64.to_bits();
    assert_eq!(f64::from_bits(running_max_abs(seed, &errors)), 3.25);
    let empty: Vec<u64> = vec![];
    assert_eq!(running_max_abs(seed, &empty), seed);
}
