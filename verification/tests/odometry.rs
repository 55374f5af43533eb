use romi_core::odometry::{encoder_ticks, measure_distance, DriveDirection, TICK_LENGTH};

#[test]
fn forward_wraparound_is_a_small_positive_distance() {
    assert_eq!(encoder_ticks(5, 65530, DriveDirection::Forward), 11);
    assert_eq!(encoder_ticks(5, 65530, DriveDirection::Forward), i32::from(5u16.wrapping_sub(65530)));
    let d: i64 = measure_distance(5, 65530, DriveDirection::Forward);
    assert_eq!(d, 67188);
    assert!(d > 0);
    // in metres
    let metres: f32 = d as f32 * 1.0e-7;
    assert!((metres - 0.0006108 * 11.0).abs() < 1.0e-7);
}

#[test]
fn forward_without_wraparound() {
    assert_eq!(encoder_ticks(150, 100, DriveDirection::Forward), 50);
    assert_eq!(measure_distance(150, 100, DriveDirection::Forward), 50 * TICK_LENGTH);
    assert_eq!(measure_distance(100, 100, DriveDirection::Forward), 0);
}

#[test]
fn reverse_is_negative() {
    assert_eq!(encoder_ticks(100, 150, DriveDirection::Reverse), -50);
    assert_eq!(measure_distance(100, 150, DriveDirection::Reverse), -305400);
    assert_eq!(encoder_ticks(65530, 5, DriveDirection::Reverse), -11);
    assert_eq!(measure_distance(65530, 5, DriveDirection::Reverse), -67188);
    assert_eq!(measure_distance(7, 7, DriveDirection::Reverse), 0);
}

#[test]
fn one_tick_across_the_wrap() {
    assert_eq!(encoder_ticks(0, 65535, DriveDirection::Forward), 1);
    assert_eq!(measure_distance(0, 65535, DriveDirection::Forward), 6108);
    assert_eq!(encoder_ticks(65535, 0, DriveDirection::Reverse), -1);
    assert_eq!(measure_distance(65535, 0, DriveDirection::Reverse), -6108);
}

#[test]
fn extreme_readings() {
    assert_eq!(encoder_ticks(65535, 0, DriveDirection::Forward), 65535);
    assert_eq!(encoder_ticks(0, 65535, DriveDirection::Reverse), -65535);
    assert_eq!(encoder_ticks(1, 2, DriveDirection::Forward), 65535);
    assert_eq!(encoder_ticks(2, 1, DriveDirection::Reverse), -65535);
    assert_eq!(measure_distance(65535, 0, DriveDirection::Forward), 65535 * 6108);
}

#[test]
fn ticks_are_the_wrapping_difference() {
    let readings: [u16; 7] = [0, 1, 5, 32767, 32768, 65530, 65535];
    for curr in readings.iter() {
        for prev in readings.iter() {
            assert_eq!(
                encoder_ticks(*curr, *prev, DriveDirection::Forward),
                i32::from(curr.wrapping_sub(*prev))
            );
            assert_eq!(
                encoder_ticks(*curr, *prev, DriveDirection::Reverse),
                -i32::from(prev.wrapping_sub(*curr))
            );
        }
    }
}
