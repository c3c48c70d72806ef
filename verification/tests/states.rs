use telemetry_reader::states::{
    CAR_FLAGS, CRASH_STATES, DRS_STATES, ERS_DEPLOYMENT_MODES, FLAG_COLORS, FLAG_REASONS,
    GAME_STATES, PIT_MODES, PIT_SCHEDULES, RACE_STATES, SESSION_STATES, TERRAIN_MATERIALS,
    TYRE_FLAGS, TYRE_STATES, VECTOR_AXES,
};

#[test]
fn wheel_indices_are_fixed() {
    assert_eq!(TYRE_STATES::TYRE_FRONT_LEFT.raw(), 0);
    assert_eq!(TYRE_STATES::TYRE_FRONT_RIGHT.raw(), 1);
    assert_eq!(TYRE_STATES::TYRE_REAR_LEFT.raw(), 2);
    assert_eq!(TYRE_STATES::TYRE_REAR_RIGHT.raw(), 3);
    assert_eq!(TYRE_STATES::TYRE_MAX.raw(), 4);
    assert_eq!(VECTOR_AXES::VEC_X.raw(), 0);
    assert_eq!(VECTOR_AXES::VEC_Z.raw(), 2);
    assert_eq!(VECTOR_AXES::VEC_MAX.raw(), 3);
}

#[test]
fn state_enums_classify_known_values() {
    assert_eq!(GAME_STATES::from_u32(2), Some(GAME_STATES::GAME_INGAME_PLAYING));
    assert_eq!(SESSION_STATES::from_u32(5), Some(SESSION_STATES::SESSION_RACE));
    assert_eq!(RACE_STATES::from_u32(3), Some(RACE_STATES::RACESTATE_FINISHED));
    assert_eq!(FLAG_COLORS::from_u32(11), Some(FLAG_COLORS::FLAG_COLOUR_CHEQUERED));
    assert_eq!(FLAG_REASONS::from_u32(1), Some(FLAG_REASONS::FLAG_REASON_SOLO_CRASH));
    assert_eq!(PIT_MODES::from_u32(2), Some(PIT_MODES::PIT_MODE_IN_PIT));
    assert_eq!(
        PIT_SCHEDULES::from_u32(5),
        Some(PIT_SCHEDULES::PIT_SCHEDULE_DRIVE_THROUGH)
    );
    assert_eq!(
        TERRAIN_MATERIALS::from_u32(8),
        Some(TERRAIN_MATERIALS::TERRAIN_GRAVEL)
    );
    assert_eq!(
        TERRAIN_MATERIALS::from_u32(50),
        Some(TERRAIN_MATERIALS::TERRAIN_RALLY_TARMAC)
    );
    assert_eq!(CRASH_STATES::from_u32(4), Some(CRASH_STATES::CRASH_DAMAGE_ROLLING));
    assert_eq!(
        ERS_DEPLOYMENT_MODES::from_u32(5),
        Some(ERS_DEPLOYMENT_MODES::ERS_DEPLOYMENT_MODE_QUAL)
    );
}

#[test]
fn unknown_enumerants_are_passed_through_as_none() {
    assert_eq!(GAME_STATES::from_u32(99), None);
    assert_eq!(SESSION_STATES::from_u32(8), None);
    assert_eq!(TERRAIN_MATERIALS::from_u32(52), None);
    assert_eq!(ERS_DEPLOYMENT_MODES::from_u32(6), None);
    assert_eq!(CRASH_STATES::from_u32(u32::MAX), None);
}

#[test]
fn bit_flags_test_single_bits() {
    let flags = CAR_FLAGS::CAR_HEADLIGHT.raw()
        | CAR_FLAGS::CAR_ABS.raw()
        | CAR_FLAGS::CAR_TCS.raw();
    assert!(CAR_FLAGS::CAR_HEADLIGHT.set_in(flags));
    assert!(CAR_FLAGS::CAR_ABS.set_in(flags));
    assert!(CAR_FLAGS::CAR_TCS.set_in(flags));
    assert!(!CAR_FLAGS::CAR_ENGINE_ACTIVE.set_in(flags));
    assert!(!CAR_FLAGS::CAR_SCS.set_in(flags));
    assert_eq!(CAR_FLAGS::CAR_SCS.raw(), 128);

    assert_eq!(TYRE_FLAGS::TYRE_ATTACHED.raw(), 1);
    assert!(TYRE_FLAGS::TYRE_IS_ON_GROUND.set_in(0b100));
    assert!(!TYRE_FLAGS::TYRE_INFLATED.set_in(0b100));

    assert_eq!(DRS_STATES::DRS_ACTIVE.raw(), 16);
    assert!(DRS_STATES::DRS_INSTALLED.set_in(0b10001));
    assert!(DRS_STATES::DRS_ACTIVE.set_in(0b10001));
    assert!(!DRS_STATES::DRS_ZONE_RULES.set_in(0b10001));
}
