use telemetry_reader::reader::{from_slice_u8_to_SharedMemory, read, should_retry, ReadError};
use telemetry_reader::record::{
    SEQUENCE_NUMBER_OFFSET, SHARED_MEMORY_SIZE, SHARED_MEMORY_VERSION, VERSION_OFFSET,
};
use telemetry_reader::states::{TYRE_STATES, VECTOR_AXES};

const VERSION: u32 = SHARED_MEMORY_VERSION as u32;

fn put_u32(buf: &mut [u8], off: usize, v: u32) {
    buf[off..off + 4].copy_from_slice(&v.to_le_bytes());
}

fn put_f32(buf: &mut [u8], off: usize, v: f32) {
    buf[off..off + 4].copy_from_slice(&v.to_le_bytes());
}

/// A full-size buffer with the right version and a stable, even counter.
fn base_buffer() -> Vec<u8> {
    let mut buf = vec![0u8; SHARED_MEMORY_SIZE];
    put_u32(&mut buf, VERSION_OFFSET, VERSION);
    put_u32(&mut buf, SEQUENCE_NUMBER_OFFSET, 42);
    buf
}

fn seq_of(buf: &[u8]) -> u32 {
    u32::from_le_bytes(
        buf[SEQUENCE_NUMBER_OFFSET..SEQUENCE_NUMBER_OFFSET + 4]
            .try_into()
            .unwrap(),
    )
}

#[test]
fn read_succeeds_on_stable_buffer() {
    let buf = base_buffer();
    let snap = read(&buf, VERSION, seq_of(&buf)).expect("stable full-size buffer must read");
    assert_eq!(snap.mVersion, VERSION);
    assert_eq!(snap.mSequenceNumber, 42);
}

#[test]
fn read_decodes_fields_byte_for_byte() {
    let mut buf = base_buffer();
    put_u32(&mut buf, 8, 2); // mGameState: playing
    put_u32(&mut buf, 12, 5); // mSessionState: race
    put_u32(&mut buf, 24, 3); // mNumParticipants
    put_f32(&mut buf, 6848, 83.25); // mSpeed
    put_u32(&mut buf, 6876, 0xFFFF_FFFF); // mGear: -1 (reverse)
    buf[6712] = 1; // mLapInvalidated
    let snap = read(&buf, VERSION, seq_of(&buf)).unwrap();
    assert_eq!(snap.mGameState, 2);
    assert_eq!(snap.mSessionState, 5);
    assert_eq!(snap.mNumParticipants, 3);
    assert_eq!(f32::from_bits(snap.mSpeed), 83.25);
    assert_eq!(snap.mGear, -1);
    assert!(snap.mLapInvalidated);
}

#[test]
fn read_rejects_short_buffer() {
    let buf = vec![0u8; SHARED_MEMORY_SIZE - 1];
    assert_eq!(read(&buf, VERSION, 0).unwrap_err(), ReadError::TooShort);
    let empty: Vec<u8> = Vec::new();
    assert_eq!(read(&empty, VERSION, 0).unwrap_err(), ReadError::TooShort);
}

#[test]
fn read_rejects_version_mismatch() {
    let mut buf = base_buffer();
    put_u32(&mut buf, VERSION_OFFSET, VERSION + 1);
    assert_eq!(
        read(&buf, VERSION, seq_of(&buf)).unwrap_err(),
        ReadError::VersionMismatch {
            expected: VERSION,
            found: VERSION + 1,
        }
    );
}

#[test]
fn read_rejects_torn_capture() {
    // the copy carries counter 5, the live region says 6 by the time the
    // copy is done: the capture mixes two update cycles
    let mut buf = base_buffer();
    put_u32(&mut buf, SEQUENCE_NUMBER_OFFSET, 5);
    assert_eq!(read(&buf, VERSION, 6).unwrap_err(), ReadError::Torn);
}

#[test]
fn read_rejects_write_in_progress() {
    // a stable but odd counter marks a write in progress
    let mut buf = base_buffer();
    put_u32(&mut buf, SEQUENCE_NUMBER_OFFSET, 5);
    assert_eq!(read(&buf, VERSION, 5).unwrap_err(), ReadError::Torn);
}

#[test]
fn version_is_checked_before_torn_state() {
    let mut buf = base_buffer();
    put_u32(&mut buf, VERSION_OFFSET, 7);
    put_u32(&mut buf, SEQUENCE_NUMBER_OFFSET, 5);
    assert_eq!(
        read(&buf, VERSION, 6).unwrap_err(),
        ReadError::VersionMismatch {
            expected: VERSION,
            found: 7,
        }
    );
}

#[test]
fn only_torn_reads_are_retried() {
    assert!(should_retry(&ReadError::Torn));
    assert!(!should_retry(&ReadError::TooShort));
    assert!(!should_retry(&ReadError::Misaligned));
    assert!(!should_retry(&ReadError::VersionMismatch {
        expected: VERSION,
        found: 0,
    }));
}

#[test]
fn plain_decode_ignores_version_and_counter() {
    let mut buf = base_buffer();
    put_u32(&mut buf, VERSION_OFFSET, 999);
    put_u32(&mut buf, SEQUENCE_NUMBER_OFFSET, 5);
    let snap = from_slice_u8_to_SharedMemory(&buf).unwrap();
    assert_eq!(snap.mVersion, 999);
    assert_eq!(snap.mSequenceNumber, 5);
    assert_eq!(
        from_slice_u8_to_SharedMemory(&buf[..SHARED_MEMORY_SIZE - 1]).unwrap_err(),
        ReadError::TooShort
    );
}

#[test]
fn wheel_accessors_follow_the_index_mapping() {
    let mut buf = base_buffer();
    // mTyreTemp at 7068, mTyreGrip at 7084, mTyreWear at 7132,
    // mSuspensionTravel at 7336: distinct values at indices 0..3
    for (i, v) in [80.0f32, 81.0, 82.0, 83.0].iter().enumerate() {
        put_f32(&mut buf, 7068 + 4 * i, *v);
    }
    for (i, v) in [0.9f32, 0.8, 0.7, 0.6].iter().enumerate() {
        put_f32(&mut buf, 7084 + 4 * i, *v);
    }
    for (i, v) in [0.1f32, 0.2, 0.3, 0.4].iter().enumerate() {
        put_f32(&mut buf, 7132 + 4 * i, *v);
    }
    for (i, v) in [1.5f32, 2.5, 3.5, 4.5].iter().enumerate() {
        put_f32(&mut buf, 7336 + 4 * i, *v);
    }
    let snap = read(&buf, VERSION, seq_of(&buf)).unwrap();
    let wheels = [
        (TYRE_STATES::TYRE_FRONT_LEFT, 0usize),
        (TYRE_STATES::TYRE_FRONT_RIGHT, 1),
        (TYRE_STATES::TYRE_REAR_LEFT, 2),
        (TYRE_STATES::TYRE_REAR_RIGHT, 3),
    ];
    let temps = [80.0f32, 81.0, 82.0, 83.0];
    let grips = [0.9f32, 0.8, 0.7, 0.6];
    let wears = [0.1f32, 0.2, 0.3, 0.4];
    let travels = [1.5f32, 2.5, 3.5, 4.5];
    for (w, i) in wheels {
        assert_eq!(f32::from_bits(snap.tyre_temp(w)), temps[i]);
        assert_eq!(f32::from_bits(snap.tyre_grip(w)), grips[i]);
        assert_eq!(f32::from_bits(snap.tyre_wear(w)), wears[i]);
        assert_eq!(f32::from_bits(snap.suspension_travel(w)), travels[i]);
    }
}

#[test]
fn tyre_flags_and_terrain_accessors() {
    let mut buf = base_buffer();
    // mTyreFlags at 6988, mTerrain at 7004
    put_u32(&mut buf, 6988, 0b111);
    put_u32(&mut buf, 6988 + 12, 0b001);
    put_u32(&mut buf, 7004, 8); // gravel under the front-left tyre
    let snap = read(&buf, VERSION, seq_of(&buf)).unwrap();
    assert_eq!(snap.tyre_flags(TYRE_STATES::TYRE_FRONT_LEFT), 0b111);
    assert_eq!(snap.tyre_flags(TYRE_STATES::TYRE_REAR_RIGHT), 0b001);
    assert_eq!(snap.terrain(TYRE_STATES::TYRE_FRONT_LEFT), 8);
    assert_eq!(snap.terrain(TYRE_STATES::TYRE_FRONT_RIGHT), 0);
}

#[test]
fn participants_are_bounded_by_the_valid_count() {
    let mut buf = base_buffer();
    put_u32(&mut buf, 24, 2); // mNumParticipants
    buf[28] = 1; // participant 0: mIsActive
    buf[29..32].copy_from_slice(b"Ali"); // participant 0: mName
    put_u32(&mut buf, 28 + 84, 7); // participant 0: mRacePosition
    buf[28 + 100] = 1; // participant 1: mIsActive
    let snap = read(&buf, VERSION, seq_of(&buf)).unwrap();
    assert_eq!(snap.num_valid_participants(), 2);
    let p0 = snap.participant(0).expect("slot 0 is valid");
    assert!(p0.mIsActive);
    assert_eq!(p0.mRacePosition, 7);
    assert_eq!(telemetry_reader::text::zascii(&p0.mName), "Ali");
    assert!(snap.participant(1).is_some());
    assert!(snap.participant(2).is_none(), "slots beyond the count are ignored");
    assert!(snap.participant(63).is_none());
    assert!(snap.participant(64).is_none());
    assert!(snap.participant(usize::MAX).is_none());
}

#[test]
fn negative_or_oversized_participant_count_is_clamped() {
    let mut buf = base_buffer();
    put_u32(&mut buf, 24, 0xFFFF_FFFF); // mNumParticipants: -1
    let snap = read(&buf, VERSION, seq_of(&buf)).unwrap();
    assert_eq!(snap.num_valid_participants(), 0);
    assert!(snap.participant(0).is_none());
    put_u32(&mut buf, 24, 1000);
    let snap = read(&buf, VERSION, seq_of(&buf)).unwrap();
    assert_eq!(snap.num_valid_participants(), 64);
    assert!(snap.participant(63).is_some());
}

#[test]
fn string_fields_decode_to_their_terminated_content() {
    let mut buf = base_buffer();
    buf[6444..6447].copy_from_slice(b"Car"); // mCarName
    buf[6576..6582].copy_from_slice(b"Monza\0"); // mTrackLocation
    buf[6583] = b'X'; // junk after the terminator must never show
    let snap = read(&buf, VERSION, seq_of(&buf)).unwrap();
    assert_eq!(telemetry_reader::text::zascii(&snap.mCarName), "Car");
    assert_eq!(telemetry_reader::text::zascii(&snap.mTrackLocation), "Monza");
    assert_eq!(telemetry_reader::text::zascii(&snap.mCarClassName), "");
}

#[test]
fn vector_accessors_follow_the_axis_mapping() {
    let mut buf = base_buffer();
    // mOrientation at 6904, mLocalVelocity at 6916
    for (i, v) in [0.25f32, 0.5, 0.75].iter().enumerate() {
        put_f32(&mut buf, 6904 + 4 * i, *v);
    }
    for (i, v) in [10.0f32, 20.0, 30.0].iter().enumerate() {
        put_f32(&mut buf, 6916 + 4 * i, *v);
    }
    // participant 0 world position (28 + 68)
    for (i, v) in [1.0f32, 2.0, 3.0].iter().enumerate() {
        put_f32(&mut buf, 28 + 68 + 4 * i, *v);
    }
    put_u32(&mut buf, 24, 1); // mNumParticipants
    let snap = read(&buf, VERSION, seq_of(&buf)).unwrap();
    assert_eq!(f32::from_bits(snap.orientation(VECTOR_AXES::VEC_X)), 0.25);
    assert_eq!(f32::from_bits(snap.orientation(VECTOR_AXES::VEC_Y)), 0.5);
    assert_eq!(f32::from_bits(snap.orientation(VECTOR_AXES::VEC_Z)), 0.75);
    assert_eq!(f32::from_bits(snap.local_velocity(VECTOR_AXES::VEC_X)), 10.0);
    assert_eq!(f32::from_bits(snap.local_velocity(VECTOR_AXES::VEC_Z)), 30.0);
    let p0 = snap.participant(0).unwrap();
    assert_eq!(f32::from_bits(p0.world_position(VECTOR_AXES::VEC_X)), 1.0);
    assert_eq!(f32::from_bits(p0.world_position(VECTOR_AXES::VEC_Y)), 2.0);
    assert_eq!(f32::from_bits(p0.world_position(VECTOR_AXES::VEC_Z)), 3.0);
}

#[test]
fn words_decode_little_endian() {
    let mut buf = base_buffer();
    buf[4..8].copy_from_slice(&[0x01, 0x02, 0x03, 0x04]); // mBuildVersionNumber
    buf[6888] = 7; // mAntiLockActive: any non-zero byte is true
    let snap = read(&buf, VERSION, seq_of(&buf)).unwrap();
    assert_eq!(snap.mBuildVersionNumber, 0x0403_0201);
    assert!(snap.mAntiLockActive);
    assert!(!snap.mBoostActive);
}
