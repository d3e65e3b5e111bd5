use creature::mutatable::Mutatable;
use rand::rngs::SmallRng;
use rand::SeedableRng;

#[test]
fn mutated_by_adds_the_noise_and_keeps_the_rate() {
    let m = Mutatable::new(1000, 100);
    assert_eq!(m.mutated_by(0), Mutatable { value: 1000, rate: 100 });
    assert_eq!(m.mutated_by(37), Mutatable { value: 1037, rate: 100 });
    assert_eq!(m.mutated_by(-1500), Mutatable { value: -500, rate: 100 });
}

#[test]
fn mutated_by_stops_at_the_limits_of_a_value() {
    let high = Mutatable::new(i32::MAX - 1, 5);
    assert_eq!(high.mutated_by(1).value, i32::MAX);
    assert_eq!(high.mutated_by(2).value, i32::MAX);
    assert_eq!(high.mutated_by(i64::MAX).value, i32::MAX);
    let low = Mutatable::new(i32::MIN + 1, 5);
    assert_eq!(low.mutated_by(-1).value, i32::MIN);
    assert_eq!(low.mutated_by(-2).value, i32::MIN);
    assert_eq!(low.mutated_by(i64::MIN).value, i32::MIN);
    assert_eq!(low.mutated_by(i64::MAX).value, i32::MAX);
}

#[test]
fn get_mutated_stays_within_the_rate() {
    let mut rng = SmallRng::seed_from_u64(7);
    let parent = Mutatable::new(1000, 100);
    for _ in 0..500 {
        let child = parent.get_mutated(&mut rng);
        assert_eq!(child.rate, 100);
        assert!(900 <= child.value && child.value <= 1100);
    }
}

#[test]
fn get_mutated_draws_from_the_source() {
    let mut rng = SmallRng::seed_from_u64(11);
    let parent = Mutatable::new(0, 1_000_000);
    let first = parent.get_mutated(&mut rng).value;
    let mut differs = false;
    let mut above = false;
    let mut below = false;
    for _ in 0..200 {
        let v = parent.get_mutated(&mut rng).value;
        differs = differs || v != first;
        above = above || v > 0;
        below = below || v < 0;
    }
    assert!(differs);
    assert!(above);
    assert!(below);
}

#[test]
fn get_mutated_is_reproducible_from_a_seed() {
    let parent = Mutatable::new(1000, 100);
    let mut one = SmallRng::seed_from_u64(42);
    let mut two = SmallRng::seed_from_u64(42);
    for _ in 0..50 {
        assert_eq!(parent.get_mutated(&mut one), parent.get_mutated(&mut two));
    }
}

#[test]
fn get_mutated_with_rate_zero_hands_the_value_down() {
    let mut rng = SmallRng::seed_from_u64(3);
    let parent = Mutatable::new(-250, 0);
    for _ in 0..20 {
        assert_eq!(parent.get_mutated(&mut rng), parent);
    }
}

#[test]
fn get_mutated_with_the_largest_rate() {
    let mut rng = SmallRng::seed_from_u64(5);
    let parent = Mutatable::new(i32::MAX, u32::MAX);
    for _ in 0..100 {
        let child = parent.get_mutated(&mut rng);
        assert_eq!(child.rate, u32::MAX);
        assert!(child.value as i64 >= i32::MAX as i64 - u32::MAX as i64);
    }
}
