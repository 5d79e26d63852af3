use uci_ab_test::scheduler::{schedule, Tally};
use uci_ab_test::tune::{perturbation, rand, round_score, FeatureVector};

#[test]
fn integer_vectors_round_trip_through_bytes() {
    let v = FeatureVector { features: vec![1, -1, 0x1234_5678, i32::MIN, i32::MAX] };
    let b = v.to_binary();
    assert_eq!(b.len(), 20);
    assert_eq!(&b[0..4], &[1, 0, 0, 0]);
    assert_eq!(&b[4..8], &[0xff, 0xff, 0xff, 0xff]);
    assert_eq!(&b[8..12], &[0x78, 0x56, 0x34, 0x12]);
    assert_eq!(FeatureVector::<i32>::from_binary(&b).features, v.features);
}

#[test]
fn float_vectors_round_trip_bit_for_bit() {
    let values = [0.5f32, -3.25, 1.0e-30, f32::MAX, -0.0];
    let bits = FeatureVector { features: values.iter().map(|x| x.to_bits() as i32).collect() };
    let back = FeatureVector::<i32>::from_binary(&bits.to_binary());
    let floats: Vec<f32> = back.features.iter().map(|b| f32::from_bits(*b as u32)).collect();
    for (a, b) in values.iter().zip(floats.iter()) {
        assert_eq!(a.to_bits(), b.to_bits());
    }
    let le: Vec<u8> = values.iter().flat_map(|x| x.to_le_bytes()).collect();
    assert_eq!(bits.to_binary(), le);
}

#[test]
fn short_tail_is_ignored() {
    let v = FeatureVector::<i32>::from_binary(&[2, 0, 0, 0, 9, 9]);
    assert_eq!(v.features, vec![2]);
    assert!(FeatureVector::<i32>::from_binary(&[]).features.is_empty());
}

#[test]
fn element_wise_arithmetic() {
    let a = FeatureVector { features: vec![1, 2, 3] };
    let b = FeatureVector { features: vec![10, -20, 30] };
    assert_eq!(a.clone().add(b.clone()).features, vec![11, -18, 33]);
    assert_eq!(a.clone().sub(b.clone()).features, vec![-9, 22, -27]);
    assert_eq!(b.clone().mul(-2).features, vec![-20, 40, -60]);
    assert_eq!(FeatureVector::divide(7, FeatureVector { features: vec![2, -2, 7, -1] }).features, vec![3, -3, 1, -7]);
    assert_eq!(FeatureVector::divide(-7, FeatureVector { features: vec![2, -2] }).features, vec![-3, 3]);
    assert_eq!(a.len(), 3);
    assert!(FeatureVector::<i32>::empty_with_capacity(8).features.is_empty());
}

#[test]
fn xorshift_steps() {
    let mut seed = 1;
    assert_eq!(rand(&mut seed), 270369);
    assert_eq!(seed, 270369);
    let mut s = 1;
    let mut expected = 1u32;
    for _ in 0..5 {
        expected ^= expected << 13;
        expected ^= expected >> 17;
        expected ^= expected << 5;
        assert_eq!(rand(&mut s), expected as i32);
    }
}

#[test]
fn perturbation_is_plus_or_minus_one() {
    let mut seed = 7;
    let mut check = 7;
    let d = perturbation(&mut seed, 16);
    assert_eq!(d.features.len(), 16);
    for x in d.features.iter() {
        let r = rand(&mut check);
        assert_eq!(*x, if r & 1 == 1 { 1 } else { -1 });
    }
    assert_eq!(seed, check);
    let mut again = 7;
    assert_eq!(perturbation(&mut again, 16).features, d.features);
    let mut none = 7;
    assert!(perturbation(&mut none, 0).features.is_empty());
    assert_eq!(none, 7);
}

#[test]
fn round_score_reduces_the_tally() {
    assert_eq!(round_score(&Tally { a_wins: 5, draws: 2, b_wins: 1 }), 6);
    assert_eq!(round_score(&Tally { a_wins: 0, draws: 3, b_wins: 9 }), -6);
    assert_eq!(round_score(&Tally { a_wins: u64::MAX, draws: 0, b_wins: 0 }), 2 * u64::MAX as i128);
}

#[test]
fn one_tuning_iteration_plans_one_snapshot() {
    // One iteration over two positions: each of the two perturbed engines
    // meets the other once per position and colour.
    let positions = 2;
    let plan = schedule(positions, true);
    assert_eq!(plan.len(), positions * 2);
    let mut seed = 1;
    let delta = perturbation(&mut seed, 3);
    assert_eq!(delta.features.len(), 3);
    let snapshot = FeatureVector { features: vec![10, -4, 0] }.add(delta);
    assert_eq!(snapshot.to_binary().len(), 12);
}
