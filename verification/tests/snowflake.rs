use sdkwork_id_core::layout::{compose, decompose};
use sdkwork_id_core::state::{check_lease, IdRequest, SnowflakeState, MAX_CLOCK_DRIFT_MS};
use sdkwork_id_core::{
    current_time_millis, default_snowflake_epoch_millis, default_snowflake_profile,
    generate_batch, max_snowflake_node_id, validate_snowflake_id, IdGenerator, SnowflakeIdError,
    SnowflakeIdGenerator, SnowflakeLeaseGuard, SnowflakeProfile,
};
use std::sync::Arc;

#[test]
fn snowflake_batch_generates_unique_ids() {
    let gen = SnowflakeIdGenerator::new(1).unwrap();
    let ids = generate_batch(&gen, 100).unwrap();
    assert_eq!(ids.len(), 100);
    // All IDs should be unique within the same millisecond
    let unique: std::collections::HashSet<_> = ids.iter().collect();
    assert_eq!(unique.len(), 100);
}

#[test]
fn validate_snowflake_id_roundtrip() {
    // Use a timestamp after the default epoch (2024-01-01 = 1704067200000)
    let gen = SnowflakeIdGenerator::new(42).unwrap();
    let id = gen.generate_at(1_704_067_200_001).unwrap();
    let id_str = id.to_string();

    let (node_id, _timestamp, _sequence) = validate_snowflake_id(&id_str).unwrap();
    assert_eq!(node_id, 42);
}

#[test]
fn snowflake_ids_are_positive_and_monotonic() {
    let gen = SnowflakeIdGenerator::with_epoch(7, 1_700_000_000_000).unwrap();
    let a = gen.generate_at(1_700_000_000_001).unwrap();
    let b = gen.generate_at(1_700_000_000_001).unwrap();
    let c = gen.generate_at(1_700_000_000_002).unwrap();
    assert!(a > 0);
    assert!(a < b);
    assert!(b < c);
}

#[test]
fn snowflake_rejects_invalid_node_id() {
    assert!(matches!(
        SnowflakeIdGenerator::new(max_snowflake_node_id() + 1),
        Err(SnowflakeIdError::InvalidNodeId { .. })
    ));
}

#[test]
fn lease_guard_fences_generation_at_deadline() {
    let wall_clock = current_time_millis().unwrap();
    let guard = Arc::new(SnowflakeLeaseGuard::new(wall_clock.saturating_sub(1)));
    let generator = SnowflakeIdGenerator::new(1)
        .unwrap()
        .with_lease_guard(guard.clone());

    assert_eq!(
        generator.generate_at(wall_clock),
        Err(SnowflakeIdError::LeaseUnavailable)
    );

    guard.renew_until(wall_clock + 10_000);
    assert!(generator.generate_at(wall_clock).is_ok());
    guard.fence();
    assert_eq!(
        generator.generate_at(wall_clock),
        Err(SnowflakeIdError::LeaseUnavailable)
    );
}

#[test]
fn lease_guard_requires_wall_and_monotonic_deadlines() {
    let wall_clock = current_time_millis().unwrap();
    let guard = SnowflakeLeaseGuard::new(wall_clock + 10_000);
    assert!(guard.allows(wall_clock));

    guard.set_monotonic_deadline(guard.monotonic_millis());
    assert!(!guard.allows(wall_clock));
}

#[test]
fn leased_generator_rejects_historical_timestamp_override() {
    let wall_clock = current_time_millis().unwrap();
    let guard = Arc::new(SnowflakeLeaseGuard::new(wall_clock + 10_000));
    let generator = SnowflakeIdGenerator::new(1)
        .unwrap()
        .with_lease_guard(guard);

    assert!(matches!(
        generator.generate_at(wall_clock - MAX_CLOCK_DRIFT_MS - 1),
        Err(SnowflakeIdError::ClockMovedBackwards { .. })
    ));
}

#[test]
fn snowflake_rejects_clock_rollback() {
    // Use timestamps after the default epoch, with a large backward jump
    let gen = SnowflakeIdGenerator::with_epoch(1, 1_700_000_000_000).unwrap();
    gen.generate_at(1_700_000_001_000).unwrap();
    // Clock moves back by 200ms (beyond 100ms tolerance)
    assert!(matches!(
        gen.generate_at(1_700_000_000_800),
        Err(SnowflakeIdError::ClockMovedBackwards { .. })
    ));
}

#[test]
fn snowflake_handles_clock_drift_within_tolerance() {
    // Use timestamps after the default epoch (2024-01-01 = 1704067200000)
    let gen = SnowflakeIdGenerator::new(1).unwrap();
    let t1 = gen.generate_at(1_704_067_200_001).unwrap();
    // Clock moves back by 50ms (within tolerance), then recovers.
    let t2 = gen.generate_at(1_704_067_200_000).unwrap();
    let t3 = gen.generate_at(1_704_067_200_001).unwrap();
    assert!(t1 < t2);
    assert!(t2 < t3);
    assert_ne!(t1, t2);
    assert_ne!(t2, t3);
}

#[test]
fn id_generator_trait_works() {
    let gen = SnowflakeIdGenerator::new(1).unwrap();
    match gen.next_id() {
        Ok(id) => {
            assert!(!id.is_empty());
            assert_eq!(gen.label(), "snowflake");
        }
        Err(e) => panic!("should generate id: {}", e.to_string()),
    }
}

#[test]
fn first_id_of_a_generator_is_exact() {
    let gen = SnowflakeIdGenerator::new(42).unwrap();
    let id = gen.generate_at(1_704_067_200_001).unwrap();
    assert_eq!(id, (1 << 22) + (42 << 12));
    assert_eq!(
        validate_snowflake_id(&id.to_string()),
        Ok((42, 1, 0))
    );
    let next = gen.generate_at(1_704_067_200_001).unwrap();
    assert_eq!(next, id + 1);
    assert_eq!(validate_snowflake_id(&next.to_string()), Ok((42, 1, 1)));
}

#[test]
fn composed_id_comes_apart_again() {
    let id = compose(2_199_023_255_551, 1023, 4095);
    assert_eq!(id, i64::MAX);
    assert_eq!(decompose(id), (1023, 2_199_023_255_551, 4095));
    let id = compose(123_456_789, 77, 9);
    assert_eq!(id, 123_456_789 * 4_194_304 + 77 * 4096 + 9);
    assert_eq!(decompose(id), (77, 123_456_789, 9));
}

#[test]
fn node_zero_at_the_epoch_gives_out_zero() {
    let gen = SnowflakeIdGenerator::with_epoch(0, 5_000).unwrap();
    let id = gen.generate_at(5_000).unwrap();
    assert_eq!(id, 0);
    assert_eq!(
        validate_snowflake_id("0").unwrap_err().message,
        "Snowflake ID must be positive"
    );
    assert_eq!(gen.generate_at(5_000).unwrap(), 1);
}

#[test]
fn an_epoch_of_zero_starts_with_sequence_one() {
    let gen = SnowflakeIdGenerator::with_epoch(3, 0).unwrap();
    assert_eq!(gen.generate_at(0).unwrap(), 3 * 4096 + 1);
}

#[test]
fn a_millisecond_holds_4096_ids() {
    let gen = SnowflakeIdGenerator::with_epoch(5, 1_000).unwrap();
    let mut last = -1;
    for k in 0..4096 {
        let id = gen.generate_at(2_000).unwrap();
        assert!(id > last);
        assert_eq!(id, 1_000 * 4_194_304 + 5 * 4096 + k);
        last = id;
    }
    assert_eq!(
        gen.generate_at(2_000),
        Err(SnowflakeIdError::SequenceExhausted { millis: 2_000 })
    );
    // Within the tolerance the last millisecond is kept, and it is full.
    assert_eq!(
        gen.generate_at(1_900),
        Err(SnowflakeIdError::SequenceExhausted { millis: 2_000 })
    );
    assert_eq!(
        gen.generate_at(1_899),
        Err(SnowflakeIdError::ClockMovedBackwards {
            last_millis: 2_000,
            now_millis: 1_899
        })
    );
    assert_eq!(
        gen.generate_at(2_001),
        Ok(1_001 * 4_194_304 + 5 * 4096)
    );
}

#[test]
fn a_time_before_the_epoch_is_refused() {
    let gen = SnowflakeIdGenerator::with_epoch(5, 1_000).unwrap();
    assert_eq!(
        gen.generate_at(999),
        Err(SnowflakeIdError::ClockBeforeEpoch {
            now_millis: 999,
            epoch_millis: 1_000
        })
    );
}

#[test]
fn a_timestamp_overflow_still_takes_the_place() {
    let gen = SnowflakeIdGenerator::with_epoch(5, 0).unwrap();
    let mut state = SnowflakeState::new();
    assert_eq!(
        gen.next_id_at(2_199_023_255_551, &mut state),
        Ok(2_199_023_255_551 * 4_194_304 + 5 * 4096)
    );
    assert_eq!(
        gen.next_id_at(2_199_023_255_552, &mut state),
        Err(SnowflakeIdError::TimestampOverflow {
            delta_millis: 2_199_023_255_552,
            max_delta_millis: 2_199_023_255_551
        })
    );
    assert_eq!(state.last_millis, 2_199_023_255_552);
    assert_eq!(state.sequence, 0);
    assert!(matches!(
        gen.next_id_at(2_199_023_255_551, &mut state),
        Err(SnowflakeIdError::TimestampOverflow { .. })
    ));
    assert_eq!(state.sequence, 1);
}

#[test]
fn times_at_the_end_of_the_range_do_not_overflow() {
    let gen = SnowflakeIdGenerator::with_epoch(1, u64::MAX - 10).unwrap();
    assert_eq!(
        gen.generate_at(u64::MAX),
        Ok(10 * 4_194_304 + 4096)
    );
    assert_eq!(
        gen.generate_at(u64::MAX - 5),
        Ok(10 * 4_194_304 + 4096 + 1)
    );
}

#[test]
fn a_refusal_leaves_the_state_alone() {
    let gen = SnowflakeIdGenerator::with_epoch(1, 1_000).unwrap();
    let mut state = SnowflakeState {
        last_millis: 5_000,
        sequence: 17,
    };
    assert!(gen.next_id_at(4_899, &mut state).is_err());
    assert!(gen.next_id_at(999, &mut state).is_err());
    assert_eq!((state.last_millis, state.sequence), (5_000, 17));
    assert_eq!(
        gen.next_id_at(4_900, &mut state),
        Ok(4_000 * 4_194_304 + 4096 + 18)
    );
    assert_eq!((state.last_millis, state.sequence), (5_000, 18));
}

#[test]
fn different_nodes_give_different_ids() {
    let a = SnowflakeIdGenerator::with_epoch(1, 1_000).unwrap();
    let b = SnowflakeIdGenerator::with_epoch(2, 1_000).unwrap();
    assert_ne!(a.generate_at(2_000), b.generate_at(2_000));
}

#[test]
fn clones_share_one_sequence() {
    let a = SnowflakeIdGenerator::with_epoch(1, 1_000).unwrap();
    let b = a.clone();
    let first = a.generate_at(2_000).unwrap();
    let second = b.generate_at(2_000).unwrap();
    assert_eq!(second, first + 1);
    assert_eq!(b.node_id(), 1);
    assert_eq!(b.epoch_millis(), 1_000);
}

#[test]
fn generated_ids_follow_the_wall_clock() {
    let gen = SnowflakeIdGenerator::new(9).unwrap();
    let before = current_time_millis().unwrap();
    let id = gen.generate().unwrap();
    let after = current_time_millis().unwrap();
    let (node_id, delta, sequence) = decompose(id);
    assert_eq!(node_id, 9);
    assert_eq!(sequence, 0);
    let millis = default_snowflake_epoch_millis() + delta;
    assert!(before <= millis && millis <= after);
}

#[test]
fn the_largest_node_is_accepted() {
    assert_eq!(SnowflakeIdGenerator::new(1023).unwrap().node_id(), 1023);
    assert_eq!(
        SnowflakeIdGenerator::with_epoch(1024, 5).err(),
        Some(SnowflakeIdError::InvalidNodeId {
            node_id: 1024,
            max_node_id: 1023
        })
    );
}

#[test]
fn lease_verdicts_are_checked_before_the_time() {
    let request = |permit, now_millis, wall_clock_millis| IdRequest {
        permit,
        now_millis,
        wall_clock_millis,
    };
    assert_eq!(check_lease(request(None, 0, 1_000_000)), Ok(()));
    assert_eq!(
        check_lease(request(Some(false), 5, 5)),
        Err(SnowflakeIdError::LeaseUnavailable)
    );
    assert_eq!(check_lease(request(Some(true), 1_100, 1_000)), Ok(()));
    assert_eq!(check_lease(request(Some(true), 900, 1_000)), Ok(()));
    assert_eq!(
        check_lease(request(Some(true), 1_101, 1_000)),
        Err(SnowflakeIdError::ClockMovedBackwards {
            last_millis: 1_000,
            now_millis: 1_101
        })
    );
    assert_eq!(
        check_lease(request(Some(true), 899, 1_000)),
        Err(SnowflakeIdError::ClockMovedBackwards {
            last_millis: 1_000,
            now_millis: 899
        })
    );
}

#[test]
fn the_profile_is_exact() {
    assert_eq!(
        default_snowflake_profile(),
        SnowflakeProfile {
            epoch_millis: 1_704_067_200_000,
            timestamp_bits: 41,
            node_bits: 10,
            sequence_bits: 12,
            max_node_id: (1 << 10) - 1,
            max_sequence_per_millis: (1 << 12) - 1,
            max_timestamp_delta_millis: (1 << 41) - 1,
            min_required_lifetime_years: 30,
        }
    );
    assert_eq!(default_snowflake_epoch_millis(), 1_704_067_200_000);
    assert_eq!(max_snowflake_node_id(), 1023);
}

#[test]
fn the_profile_lasts_long_enough() {
    let profile = default_snowflake_profile();
    let years = profile.max_timestamp_delta_millis as f64 / 31_556_952_000.0;
    assert!(years >= f64::from(profile.min_required_lifetime_years));
}

#[test]
fn a_generator_shows_its_node_and_epoch() {
    let gen = SnowflakeIdGenerator::new(12).unwrap();
    assert_eq!(
        gen.debug_string(),
        "SnowflakeIdGenerator { node_id: 12, epoch_millis: 1704067200000, .. }"
    );
}

#[test]
fn errors_are_shown_as_text() {
    let shown = [
        (
            SnowflakeIdError::LeaseUnavailable,
            "snowflake node lease is unavailable",
        ),
        (
            SnowflakeIdError::InvalidNodeId {
                node_id: 2000,
                max_node_id: 1023,
            },
            "invalid node_id=2000, max=1023",
        ),
        (
            SnowflakeIdError::ClockBeforeEpoch {
                now_millis: 1,
                epoch_millis: 20,
            },
            "clock before epoch: now=1, epoch=20",
        ),
        (
            SnowflakeIdError::ClockMovedBackwards {
                last_millis: 300,
                now_millis: 0,
            },
            "clock moved backwards: last=300, now=0",
        ),
        (
            SnowflakeIdError::TimestampOverflow {
                delta_millis: u64::MAX,
                max_delta_millis: 2_199_023_255_551,
            },
            "timestamp overflow: delta=18446744073709551615, max=2199023255551",
        ),
        (
            SnowflakeIdError::SequenceExhausted { millis: 77 },
            "sequence exhausted at millis=77",
        ),
        (
            SnowflakeIdError::SystemTime("second time provided".to_string()),
            "system time error: second time provided",
        ),
        (
            SnowflakeIdError::StatePoisoned,
            "generator state poisoned",
        ),
    ];
    for (error, text) in shown {
        assert_eq!(error.to_string(), text);
    }
}

#[test]
fn a_failing_generator_ends_the_batch_with_its_error() {
    let wall_clock = current_time_millis().unwrap();
    let guard = Arc::new(SnowflakeLeaseGuard::new(wall_clock + 10_000));
    guard.fence();
    let gen = SnowflakeIdGenerator::new(1).unwrap().with_lease_guard(guard);
    assert_eq!(
        generate_batch(&gen, 3).unwrap_err().message,
        "snowflake node lease is unavailable"
    );
    assert_eq!(generate_batch(&gen, 0), Ok(vec![]));
}

#[test]
fn consecutive_ids_are_exact() {
    let gen = SnowflakeIdGenerator::with_epoch(7, 1_700_000_000_000).unwrap();
    assert_eq!(gen.generate_at(1_700_000_000_001), Ok(4_222_976));
    assert_eq!(gen.generate_at(1_700_000_000_001), Ok(4_222_977));
    assert_eq!(gen.generate_at(1_700_000_000_002), Ok(8_417_280));
}

#[test]
fn a_clock_that_recovers_repeats_no_id() {
    let gen = SnowflakeIdGenerator::new(1).unwrap();
    assert_eq!(gen.generate_at(1_704_067_200_001), Ok(4_198_400));
    assert_eq!(gen.generate_at(1_704_067_200_000), Ok(4_198_401));
    assert_eq!(gen.generate_at(1_704_067_200_001), Ok(4_198_402));
}

#[test]
fn the_drift_tolerance_is_exact() {
    let gen = SnowflakeIdGenerator::with_epoch(1, 1_700_000_000_000).unwrap();
    assert_eq!(gen.generate_at(1_700_000_001_000), Ok(4_194_308_096));
    assert_eq!(gen.generate_at(1_700_000_000_900), Ok(4_194_308_097));
    assert_eq!(
        gen.generate_at(1_700_000_000_899),
        Err(SnowflakeIdError::ClockMovedBackwards {
            last_millis: 1_700_000_001_000,
            now_millis: 1_700_000_000_899,
        })
    );
}

#[test]
fn fresh_generators_answer_alike() {
    let times = [
        1_704_067_200_005,
        1_704_067_200_005,
        1_704_067_200_001,
        1_704_067_199_999,
        1_704_067_200_300,
        1_704_067_200_199,
    ];
    let a = SnowflakeIdGenerator::new(9).unwrap();
    let b = SnowflakeIdGenerator::new(9).unwrap();
    for time in times {
        assert_eq!(
            a.generate_at_with_wall_clock(time, 0),
            b.generate_at_with_wall_clock(time, u64::MAX)
        );
    }
}

#[test]
fn a_request_that_the_lease_refuses_leaves_no_trace() {
    let plain = SnowflakeIdGenerator::new(1).unwrap();
    let guard = Arc::new(SnowflakeLeaseGuard::new(u64::MAX));
    let leased = plain.clone().with_lease_guard(guard.clone());
    let now = 1_704_067_200_001;

    assert_eq!(plain.generate_at(now), Ok(4_198_400));
    assert_eq!(
        leased.generate_at_with_wall_clock(now + 1_000, now),
        Err(SnowflakeIdError::ClockMovedBackwards {
            last_millis: now,
            now_millis: now + 1_000,
        })
    );
    assert_eq!(plain.generate_at(now), Ok(4_198_401));
    assert_eq!(leased.generate_at_with_wall_clock(now, now), Ok(4_198_402));
    guard.fence();
    assert_eq!(
        leased.generate_at_with_wall_clock(now + 1, now + 1),
        Err(SnowflakeIdError::LeaseUnavailable)
    );
    assert_eq!(plain.generate_at(now), Ok(4_198_403));
}
