use kernel_roulette::entropy::{EntropySource, MAX_RAND};
use kernel_roulette::roulette::{
    classify, get_chance, sample, set_chance, RouletteConfig, SampleOutcome,
};

#[test]
fn draw_stays_in_range() {
    let mut entropy = EntropySource::new();
    for _ in 0..32 {
        let v = entropy.draw();
        assert!(v < MAX_RAND);
    }
}

#[test]
fn sampled_values_stay_in_range_and_at_or_above_chance() {
    let mut entropy = EntropySource::new();
    let mut config = RouletteConfig::new(&mut entropy);
    set_chance(&mut config, 50);
    for _ in 0..64 {
        match sample(&mut entropy, &config) {
            SampleOutcome::Value(v) => {
                assert!(v < 100);
                assert!(v >= 50);
            }
            SampleOutcome::Fault => {}
        }
    }
}

#[test]
fn set_chance_in_range_updates() {
    let mut entropy = EntropySource::new();
    let mut config = RouletteConfig::new(&mut entropy);
    for x in [0u8, 1, 50, 99, 100] {
        set_chance(&mut config, x);
        assert_eq!(get_chance(&config), x);
    }
}

#[test]
fn set_chance_out_of_range_is_ignored() {
    let mut entropy = EntropySource::new();
    let mut config = RouletteConfig::new(&mut entropy);
    set_chance(&mut config, 42);
    for x in [101u8, 150, 255] {
        set_chance(&mut config, x);
        assert_eq!(get_chance(&config), 42);
    }
}

#[test]
fn classify_faults_strictly_below_chance() {
    assert_eq!(classify(0, 0), SampleOutcome::Value(0));
    assert_eq!(classify(9, 10), SampleOutcome::Fault);
    assert_eq!(classify(10, 10), SampleOutcome::Value(10));
    assert_eq!(classify(57, 57), SampleOutcome::Value(57));
    assert_eq!(classify(99, 100), SampleOutcome::Fault);
}

#[test]
fn chance_zero_never_faults() {
    let mut entropy = EntropySource::new();
    let mut config = RouletteConfig::new(&mut entropy);
    set_chance(&mut config, 0);
    for _ in 0..64 {
        match sample(&mut entropy, &config) {
            SampleOutcome::Value(v) => assert!(v < 100),
            SampleOutcome::Fault => panic!("a zero chance must never fault"),
        }
    }
}

#[test]
fn chance_max_always_faults() {
    let mut entropy = EntropySource::new();
    let mut config = RouletteConfig::new(&mut entropy);
    set_chance(&mut config, 100);
    for _ in 0..64 {
        assert_eq!(sample(&mut entropy, &config), SampleOutcome::Fault);
    }
}

#[test]
fn get_chance_is_idempotent() {
    let mut entropy = EntropySource::new();
    let mut config = RouletteConfig::new(&mut entropy);
    assert_eq!(get_chance(&config), get_chance(&config));
    set_chance(&mut config, 33);
    let first = get_chance(&config);
    let second = get_chance(&config);
    assert_eq!(first, 33);
    assert_eq!(first, second);
}

#[test]
fn startup_chance_is_randomized_in_range() {
    let mut entropy = EntropySource::new();
    for _ in 0..8 {
        let config = RouletteConfig::new(&mut entropy);
        assert!(get_chance(&config) < MAX_RAND);
    }
}
