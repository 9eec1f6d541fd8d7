// The cooperative-task variant: the level-triggered awaiter, the quiescent
// interval in front of the read, and the heartbeat schedule.

use motion_sampler::coop::heartbeat_due;
use motion_sampler::coop::CoopSampler;
use motion_sampler::coop::HEARTBEAT_PERIOD_MS;
use motion_sampler::coop::QUIESCENT_INTERVAL_MS;
use motion_sampler::reading::dispatch_outcome;
use motion_sampler::reading::Emission;
use motion_sampler::reading::ReadOutcome;
use motion_sampler::reading::SensorError;

#[test]
fn low_pin_leaves_the_sampler_armed() {
    let mut sampler = CoopSampler::new();
    assert!(sampler.is_armed());
    assert!(!sampler.observe_level(false, 5));
    assert!(sampler.is_armed());
}

#[test]
fn high_pin_resolves_and_the_full_interval_is_owed() {
    let mut sampler = CoopSampler::new();
    assert!(sampler.observe_level(true, 100));
    assert!(!sampler.is_armed());
    assert_eq!(sampler.wait_remaining_ms(100), QUIESCENT_INTERVAL_MS);
}

#[test]
fn wait_shrinks_to_zero_exactly_at_the_interval() {
    let mut sampler = CoopSampler::new();
    assert!(sampler.observe_level(true, 1000));
    assert_eq!(sampler.wait_remaining_ms(1500), 1500);
    assert_eq!(sampler.wait_remaining_ms(2999), 1);
    assert_eq!(sampler.wait_remaining_ms(3000), 0);
    assert_eq!(sampler.wait_remaining_ms(7500), 0);
}

#[test]
fn read_rearms_the_awaiter() {
    let mut sampler = CoopSampler::new();
    assert!(sampler.observe_level(true, 0));
    assert_eq!(sampler.wait_remaining_ms(QUIESCENT_INTERVAL_MS), 0);
    sampler.begin_read(QUIESCENT_INTERVAL_MS);
    assert!(sampler.is_armed());
}

#[test]
fn level_held_high_resolves_again_on_rearm() {
    // The awaiter is level-triggered: a pin still high after the read
    // resolves immediately on the next poll.
    let mut sampler = CoopSampler::new();
    assert!(sampler.observe_level(true, 0));
    sampler.begin_read(2000);
    assert!(sampler.observe_level(true, 2001));
    assert_eq!(sampler.wait_remaining_ms(2001), QUIESCENT_INTERVAL_MS);
}

#[test]
fn failed_read_rearms_like_a_successful_one() {
    let mut sampler = CoopSampler::new();
    assert!(sampler.observe_level(true, 0));
    sampler.begin_read(2500);
    let emission = dispatch_outcome(&ReadOutcome::Failed(SensorError::Checksum));
    assert_eq!(emission, Emission::Failure(SensorError::Checksum));
    // The failure changed nothing: the sampler waits for fresh motion.
    assert!(sampler.is_armed());
    assert!(!sampler.observe_level(false, 2600));
    assert!(sampler.is_armed());
}

#[test]
fn heartbeat_fires_each_full_period() {
    assert!(!heartbeat_due(0, 0));
    assert!(!heartbeat_due(0, HEARTBEAT_PERIOD_MS - 1));
    assert!(heartbeat_due(0, HEARTBEAT_PERIOD_MS));
    assert!(heartbeat_due(5000, 6500));
    assert!(!heartbeat_due(6500, 7000));
}
