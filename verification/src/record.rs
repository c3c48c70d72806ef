//! The layout definition: the exact shape of one telemetry record for the
//! schema version this crate targets.
//!
//! The producer writes the record with the field order, fixed array lengths
//! and integer/float widths below, under C layout rules on a little-endian
//! machine; every byte offset here is fixed by that layout.  The
//! `*_matches` predicates state, field by field, what it means for a decoded
//! value to be exactly the record stored in a byte buffer, and
//! `decode_snapshot` is proved to produce such a value.  Fields the producer
//! stores as 32-bit floats are carried as their raw IEEE-754 bit patterns in
//! `u32` fields, so the decoding itself stays a pure function on integers.

use vstd::prelude::*;
use crate::states::{TYRE_STATES, VECTOR_AXES};
use crate::codec::{u32_at, i32_at, bool_at, u32s_at, bytes_at};
use crate::codec::{read_u32, read_i32, read_bool, read_u32s, read_bytes, read_bools};
use crate::codec::{read_u32_rows, read_byte_rows};

verus! {

/// Schema version of the producer this layout was written against.
pub const SHARED_MEMORY_VERSION: usize = 13;

/// Fixed byte capacity of a string field.
pub const STRING_LENGTH_MAX: usize = 64;

/// Fixed number of participant slots the record always carries.
pub const STORED_PARTICIPANTS_MAX: usize = 64;

/// Fixed byte capacity of a tyre compound name field.
pub const TYRE_COMPOUND_NAME_LENGTH_MAX: usize = 40;

/// Total byte size of one record under this schema version.
pub const SHARED_MEMORY_SIZE: usize = 20688;

/// Byte size of one participant slot inside the record.
pub const PARTICIPANT_INFO_SIZE: usize = 100;

/// Byte offset of the record's schema version field.
pub const VERSION_OFFSET: usize = 0;

/// Byte offset of the record's update sequence counter.
pub const SEQUENCE_NUMBER_OFFSET: usize = 7316;

/// One participant slot: who is in the race and where they stand.
/// `mCurrentLapDistance` and `mWorldPosition` are 32-bit float bit
/// patterns; `mName` is the slot's raw fixed-capacity name field.
#[allow(non_snake_case)]
#[derive(Debug, Clone)]
pub struct ParticipantInfo {
    pub mIsActive: bool,
    pub mName: Vec<u8>,
    pub mWorldPosition: Vec<u32>,
    pub mCurrentLapDistance: u32,
    pub mRacePosition: u32,
    pub mLapsCompleted: u32,
    pub mCurrentLap: u32,
    pub mCurrentSector: i32,
}

impl ParticipantInfo {
    /// The fixed-capacity fields hold exactly their declared lengths.
    pub open spec fn wf(self) -> bool {
        &&& self.mName@.len() == 64
        &&& self.mWorldPosition@.len() == 3
    }

    /// This participant's world position along one axis, as a 32-bit
    /// float bit pattern.
    pub fn world_position(&self, axis: VECTOR_AXES) -> (r: u32)
        requires
            self.wf(),
            axis.spec_raw() < 3,
        ensures
            r == self.mWorldPosition@[axis.spec_raw() as int],
    {
        self.mWorldPosition[axis.raw() as usize]
    }
}

/// `p` is exactly the participant slot stored at byte offset `off` of `b`.
pub open spec fn participant_matches(p: ParticipantInfo, b: Seq<u8>, off: int) -> bool {
    &&& p.mIsActive == bool_at(b, off)
    &&& p.mName@ == bytes_at(b, off + 1, 64)
    &&& p.mWorldPosition@ == u32s_at(b, off + 68, 3)
    &&& p.mCurrentLapDistance == u32_at(b, off + 80)
    &&& p.mRacePosition == u32_at(b, off + 84)
    &&& p.mLapsCompleted == u32_at(b, off + 88)
    &&& p.mCurrentLap == u32_at(b, off + 92)
    &&& p.mCurrentSector == i32_at(b, off + 96)
}

pub fn decode_participant(b: &[u8], off: usize) -> (r: ParticipantInfo)
    requires
        off + PARTICIPANT_INFO_SIZE <= b@.len(),
    ensures
        participant_matches(r, b@, off as int),
{
    // binding the length teaches the prover it fits in usize
    let _buffer_len: usize = b.len();
    ParticipantInfo {
        mIsActive: read_bool(b, off),
        mName: read_bytes(b, off + 1, 64),
        mWorldPosition: read_u32s(b, off + 68, 3),
        mCurrentLapDistance: read_u32(b, off + 80),
        mRacePosition: read_u32(b, off + 84),
        mLapsCompleted: read_u32(b, off + 88),
        mCurrentLap: read_u32(b, off + 92),
        mCurrentSector: read_i32(b, off + 96),
    }
}

/// Decode all 64 participant slots of the record.
pub fn read_participants(b: &[u8]) -> (r: Vec<ParticipantInfo>)
    requires
        b@.len() >= SHARED_MEMORY_SIZE,
    ensures
        r@.len() == STORED_PARTICIPANTS_MAX,
        forall|i: int|
            0 <= i < STORED_PARTICIPANTS_MAX ==> participant_matches(
                #[trigger] r@[i],
                b@,
                28 + 100 * i,
            ),
{
    let mut out: Vec<ParticipantInfo> = Vec::new();
    let mut i: usize = 0;
    while i < STORED_PARTICIPANTS_MAX
        invariant
            b@.len() >= SHARED_MEMORY_SIZE,
            i <= STORED_PARTICIPANTS_MAX,
            out@.len() == i,
            forall|j: int| 0 <= j < i ==> participant_matches(#[trigger] out@[j], b@, 28 + 100 * j),
        decreases STORED_PARTICIPANTS_MAX - i,
    {
        out.push(decode_participant(b, 28 + 100 * i));
        i = i + 1;
    }
    out
}

/// One full decoded telemetry record.  Field names, order and fixed
/// array lengths follow the producer's layout; fields the producer
/// stores as 32-bit floats hold the raw bit pattern instead.
#[allow(non_snake_case)]
#[derive(Debug, Clone)]
pub struct SharedMemory {
    pub mVersion: u32,
    pub mBuildVersionNumber: u32,
    pub mGameState: u32,
    pub mSessionState: u32,
    pub mRaceState: u32,
    pub mViewedParticipantIndex: i32,
    pub mNumParticipants: i32,
    pub mParticipantInfo: Vec<ParticipantInfo>,
    pub mUnfilteredThrottle: u32,
    pub mUnfilteredBrake: u32,
    pub mUnfilteredSteering: u32,
    pub mUnfilteredClutch: u32,
    pub mCarName: Vec<u8>,
    pub mCarClassName: Vec<u8>,
    pub mLapsInEvent: u32,
    pub mTrackLocation: Vec<u8>,
    pub mTrackVariation: Vec<u8>,
    pub mTrackLength: u32,
    pub mNumSectors: i32,
    pub mLapInvalidated: bool,
    pub mBestLapTime: u32,
    pub mLastLapTime: u32,
    pub mCurrentTime: u32,
    pub mSplitTimeAhead: u32,
    pub mSplitTimeBehind: u32,
    pub mSplitTime: u32,
    pub mEventTimeRemaining: u32,
    pub mPersonalFastestLapTime: u32,
    pub mWorldFastestLapTime: u32,
    pub mCurrentSector1Time: u32,
    pub mCurrentSector2Time: u32,
    pub mCurrentSector3Time: u32,
    pub mFastestSector1Time: u32,
    pub mFastestSector2Time: u32,
    pub mFastestSector3Time: u32,
    pub mPersonalFastestSector1Time: u32,
    pub mPersonalFastestSector2Time: u32,
    pub mPersonalFastestSector3Time: u32,
    pub mWorldFastestSector1Time: u32,
    pub mWorldFastestSector2Time: u32,
    pub mWorldFastestSector3Time: u32,
    pub mHighestFlagColour: u32,
    pub mHighestFlagReason: u32,
    pub mPitMode: u32,
    pub mPitSchedule: u32,
    pub mCarFlags: u32,
    pub mOilTempCelsius: u32,
    pub mOilPressureKPa: u32,
    pub mWaterTempCelsius: u32,
    pub mWaterPressureKPa: u32,
    pub mFuelPressureKPa: u32,
    pub mFuelLevel: u32,
    pub mFuelCapacity: u32,
    pub mSpeed: u32,
    pub mRpm: u32,
    pub mMaxRPM: u32,
    pub mBrake: u32,
    pub mThrottle: u32,
    pub mClutch: u32,
    pub mSteering: u32,
    pub mGear: i32,
    pub mNumGears: i32,
    pub mOdometerKM: u32,
    pub mAntiLockActive: bool,
    pub mLastOpponentCollisionIndex: u32,
    pub mBoostActive: bool,
    pub mBoostAmount: u32,
    pub mOrientation: Vec<u32>,
    pub mLocalVelocity: Vec<u32>,
    pub mWorldVelocity: Vec<u32>,
    pub mAngularVelocity: Vec<u32>,
    pub mLocalAcceleration: Vec<u32>,
    pub mWorldAcceleration: Vec<u32>,
    pub mExtentsCentre: Vec<u32>,
    pub mTyreFlags: Vec<u32>,
    pub mTerrain: Vec<u32>,
    pub mTyreY: Vec<u32>,
    pub mTyreRPS: Vec<u32>,
    pub mTyreSlipSpeed: Vec<u32>,
    pub mTyreTemp: Vec<u32>,
    pub mTyreGrip: Vec<u32>,
    pub mTyreHeightAboveGround: Vec<u32>,
    pub mTyreLateralStiffness: Vec<u32>,
    pub mTyreWear: Vec<u32>,
    pub mBrakeDamage: Vec<u32>,
    pub mSuspensionDamage: Vec<u32>,
    pub mBrakeTempCelsius: Vec<u32>,
    pub mTyreTreadTemp: Vec<u32>,
    pub mTyreLayerTemp: Vec<u32>,
    pub mTyreCarcassTemp: Vec<u32>,
    pub mTyreRimTemp: Vec<u32>,
    pub mTyreInternalAirTemp: Vec<u32>,
    pub mCrashState: u32,
    pub mAeroDamage: u32,
    pub mEngineDamage: u32,
    pub mAmbientTemperature: u32,
    pub mTrackTemperature: u32,
    pub mRainDensity: u32,
    pub mWindSpeed: u32,
    pub mWindDirectionX: u32,
    pub mWindDirectionY: u32,
    pub mCloudBrightness: u32,
    pub mSequenceNumber: u32,
    pub mWheelLocalPositionY: Vec<u32>,
    pub mSuspensionTravel: Vec<u32>,
    pub mSuspensionVelocity: Vec<u32>,
    pub mAirPressure: Vec<u32>,
    pub mEngineSpeed: u32,
    pub mEngineTorque: u32,
    pub mWings: Vec<u32>,
    pub mHandbrake: u32,
    pub mCurrentSector1Times: Vec<u32>,
    pub mCurrentSector2Times: Vec<u32>,
    pub mCurrentSector3Times: Vec<u32>,
    pub mFastestSector1Times: Vec<u32>,
    pub mFastestSector2Times: Vec<u32>,
    pub mFastestSector3Times: Vec<u32>,
    pub mFastestLapTimes: Vec<u32>,
    pub mLastLapTimes: Vec<u32>,
    pub mLapsInvalidated: Vec<bool>,
    pub mRaceStates: Vec<u32>,
    pub mPitModes: Vec<u32>,
    pub mOrientations: Vec<Vec<u32>>,
    pub mSpeeds: Vec<u32>,
    pub mCarNames: Vec<Vec<u8>>,
    pub mCarClassNames: Vec<Vec<u8>>,
    pub mEnforcedPitStopLap: i32,
    pub mTranslatedTrackLocation: Vec<u8>,
    pub mTranslatedTrackVariation: Vec<u8>,
    pub mBrakeBias: u32,
    pub mTurboBoostPressure: u32,
    pub mTyreCompound: Vec<Vec<u8>>,
    pub mPitSchedules: Vec<u32>,
    pub mHighestFlagColours: Vec<u32>,
    pub mHighestFlagReasons: Vec<u32>,
    pub mNationalities: Vec<u32>,
    pub mSnowDensity: u32,
    pub mSessionDuration: u32,
    pub mSessionAdditionalLaps: i32,
    pub mTyreTempLeft: Vec<u32>,
    pub mTyreTempCenter: Vec<u32>,
    pub mTyreTempRight: Vec<u32>,
    pub mDrsState: u32,
    pub mRideHeight: Vec<u32>,
    pub mJoyPad0: u32,
    pub mDPad: u32,
    pub mAntiLockSetting: i32,
    pub mTractionControlSetting: i32,
    pub mErsDeploymentMode: i32,
    pub mErsAutoModeEnabled: bool,
    pub mClutchTemp: u32,
    pub mClutchWear: u32,
    pub mClutchOverheated: bool,
    pub mClutchSlipping: bool,
    pub mYellowFlagState: i32,
}

/// The session-level and vehicle scalar fields ahead of the vector block.
pub open spec fn scalars_a_match(s: SharedMemory, b: Seq<u8>) -> bool {
    &&& s.mVersion == u32_at(b, 0)
    &&& s.mBuildVersionNumber == u32_at(b, 4)
    &&& s.mGameState == u32_at(b, 8)
    &&& s.mSessionState == u32_at(b, 12)
    &&& s.mRaceState == u32_at(b, 16)
    &&& s.mViewedParticipantIndex == i32_at(b, 20)
    &&& s.mNumParticipants == i32_at(b, 24)
    &&& s.mUnfilteredThrottle == u32_at(b, 6428)
    &&& s.mUnfilteredBrake == u32_at(b, 6432)
    &&& s.mUnfilteredSteering == u32_at(b, 6436)
    &&& s.mUnfilteredClutch == u32_at(b, 6440)
    &&& s.mLapsInEvent == u32_at(b, 6572)
    &&& s.mTrackLength == u32_at(b, 6704)
    &&& s.mNumSectors == i32_at(b, 6708)
    &&& s.mLapInvalidated == bool_at(b, 6712)
    &&& s.mBestLapTime == u32_at(b, 6716)
    &&& s.mLastLapTime == u32_at(b, 6720)
    &&& s.mCurrentTime == u32_at(b, 6724)
    &&& s.mSplitTimeAhead == u32_at(b, 6728)
    &&& s.mSplitTimeBehind == u32_at(b, 6732)
    &&& s.mSplitTime == u32_at(b, 6736)
    &&& s.mEventTimeRemaining == u32_at(b, 6740)
    &&& s.mPersonalFastestLapTime == u32_at(b, 6744)
    &&& s.mWorldFastestLapTime == u32_at(b, 6748)
    &&& s.mCurrentSector1Time == u32_at(b, 6752)
    &&& s.mCurrentSector2Time == u32_at(b, 6756)
    &&& s.mCurrentSector3Time == u32_at(b, 6760)
    &&& s.mFastestSector1Time == u32_at(b, 6764)
    &&& s.mFastestSector2Time == u32_at(b, 6768)
    &&& s.mFastestSector3Time == u32_at(b, 6772)
    &&& s.mPersonalFastestSector1Time == u32_at(b, 6776)
    &&& s.mPersonalFastestSector2Time == u32_at(b, 6780)
    &&& s.mPersonalFastestSector3Time == u32_at(b, 6784)
    &&& s.mWorldFastestSector1Time == u32_at(b, 6788)
    &&& s.mWorldFastestSector2Time == u32_at(b, 6792)
    &&& s.mWorldFastestSector3Time == u32_at(b, 6796)
    &&& s.mHighestFlagColour == u32_at(b, 6800)
    &&& s.mHighestFlagReason == u32_at(b, 6804)
    &&& s.mPitMode == u32_at(b, 6808)
    &&& s.mPitSchedule == u32_at(b, 6812)
    &&& s.mCarFlags == u32_at(b, 6816)
    &&& s.mOilTempCelsius == u32_at(b, 6820)
    &&& s.mOilPressureKPa == u32_at(b, 6824)
    &&& s.mWaterTempCelsius == u32_at(b, 6828)
    &&& s.mWaterPressureKPa == u32_at(b, 6832)
    &&& s.mFuelPressureKPa == u32_at(b, 6836)
    &&& s.mFuelLevel == u32_at(b, 6840)
    &&& s.mFuelCapacity == u32_at(b, 6844)
    &&& s.mSpeed == u32_at(b, 6848)
    &&& s.mRpm == u32_at(b, 6852)
    &&& s.mMaxRPM == u32_at(b, 6856)
    &&& s.mBrake == u32_at(b, 6860)
    &&& s.mThrottle == u32_at(b, 6864)
    &&& s.mClutch == u32_at(b, 6868)
    &&& s.mSteering == u32_at(b, 6872)
    &&& s.mGear == i32_at(b, 6876)
    &&& s.mNumGears == i32_at(b, 6880)
    &&& s.mOdometerKM == u32_at(b, 6884)
    &&& s.mAntiLockActive == bool_at(b, 6888)
    &&& s.mLastOpponentCollisionIndex == u32_at(b, 6892)
    &&& s.mBoostActive == bool_at(b, 6896)
    &&& s.mBoostAmount == u32_at(b, 6900)
}

/// The scalar fields from the vector block onward.
pub open spec fn scalars_b_match(s: SharedMemory, b: Seq<u8>) -> bool {
    &&& s.mCrashState == u32_at(b, 7276)
    &&& s.mAeroDamage == u32_at(b, 7280)
    &&& s.mEngineDamage == u32_at(b, 7284)
    &&& s.mAmbientTemperature == u32_at(b, 7288)
    &&& s.mTrackTemperature == u32_at(b, 7292)
    &&& s.mRainDensity == u32_at(b, 7296)
    &&& s.mWindSpeed == u32_at(b, 7300)
    &&& s.mWindDirectionX == u32_at(b, 7304)
    &&& s.mWindDirectionY == u32_at(b, 7308)
    &&& s.mCloudBrightness == u32_at(b, 7312)
    &&& s.mSequenceNumber == u32_at(b, 7316)
    &&& s.mEngineSpeed == u32_at(b, 7384)
    &&& s.mEngineTorque == u32_at(b, 7388)
    &&& s.mHandbrake == u32_at(b, 7400)
    &&& s.mEnforcedPitStopLap == i32_at(b, 19244)
    &&& s.mBrakeBias == u32_at(b, 19376)
    &&& s.mTurboBoostPressure == u32_at(b, 19380)
    &&& s.mSnowDensity == u32_at(b, 20568)
    &&& s.mSessionDuration == u32_at(b, 20572)
    &&& s.mSessionAdditionalLaps == i32_at(b, 20576)
    &&& s.mDrsState == u32_at(b, 20628)
    &&& s.mJoyPad0 == u32_at(b, 20648)
    &&& s.mDPad == u32_at(b, 20652)
    &&& s.mAntiLockSetting == i32_at(b, 20656)
    &&& s.mTractionControlSetting == i32_at(b, 20660)
    &&& s.mErsDeploymentMode == i32_at(b, 20664)
    &&& s.mErsAutoModeEnabled == bool_at(b, 20668)
    &&& s.mClutchTemp == u32_at(b, 20672)
    &&& s.mClutchWear == u32_at(b, 20676)
    &&& s.mClutchOverheated == bool_at(b, 20680)
    &&& s.mClutchSlipping == bool_at(b, 20681)
    &&& s.mYellowFlagState == i32_at(b, 20684)
}

/// The three-component vector fields (and the two wing values).
pub open spec fn vectors_match(s: SharedMemory, b: Seq<u8>) -> bool {
    &&& s.mOrientation@ == u32s_at(b, 6904, 3)
    &&& s.mLocalVelocity@ == u32s_at(b, 6916, 3)
    &&& s.mWorldVelocity@ == u32s_at(b, 6928, 3)
    &&& s.mAngularVelocity@ == u32s_at(b, 6940, 3)
    &&& s.mLocalAcceleration@ == u32s_at(b, 6952, 3)
    &&& s.mWorldAcceleration@ == u32s_at(b, 6964, 3)
    &&& s.mExtentsCentre@ == u32s_at(b, 6976, 3)
    &&& s.mWings@ == u32s_at(b, 7392, 2)
}

/// The wheel-indexed arrays: position 0 is front-left, 1 front-right,
/// 2 rear-left, 3 rear-right.
pub open spec fn wheels_match(s: SharedMemory, b: Seq<u8>) -> bool {
    &&& s.mTyreFlags@ == u32s_at(b, 6988, 4)
    &&& s.mTerrain@ == u32s_at(b, 7004, 4)
    &&& s.mTyreY@ == u32s_at(b, 7020, 4)
    &&& s.mTyreRPS@ == u32s_at(b, 7036, 4)
    &&& s.mTyreSlipSpeed@ == u32s_at(b, 7052, 4)
    &&& s.mTyreTemp@ == u32s_at(b, 7068, 4)
    &&& s.mTyreGrip@ == u32s_at(b, 7084, 4)
    &&& s.mTyreHeightAboveGround@ == u32s_at(b, 7100, 4)
    &&& s.mTyreLateralStiffness@ == u32s_at(b, 7116, 4)
    &&& s.mTyreWear@ == u32s_at(b, 7132, 4)
    &&& s.mBrakeDamage@ == u32s_at(b, 7148, 4)
    &&& s.mSuspensionDamage@ == u32s_at(b, 7164, 4)
    &&& s.mBrakeTempCelsius@ == u32s_at(b, 7180, 4)
    &&& s.mTyreTreadTemp@ == u32s_at(b, 7196, 4)
    &&& s.mTyreLayerTemp@ == u32s_at(b, 7212, 4)
    &&& s.mTyreCarcassTemp@ == u32s_at(b, 7228, 4)
    &&& s.mTyreRimTemp@ == u32s_at(b, 7244, 4)
    &&& s.mTyreInternalAirTemp@ == u32s_at(b, 7260, 4)
    &&& s.mWheelLocalPositionY@ == u32s_at(b, 7320, 4)
    &&& s.mSuspensionTravel@ == u32s_at(b, 7336, 4)
    &&& s.mSuspensionVelocity@ == u32s_at(b, 7352, 4)
    &&& s.mAirPressure@ == u32s_at(b, 7368, 4)
    &&& s.mTyreTempLeft@ == u32s_at(b, 20580, 4)
    &&& s.mTyreTempCenter@ == u32s_at(b, 20596, 4)
    &&& s.mTyreTempRight@ == u32s_at(b, 20612, 4)
    &&& s.mRideHeight@ == u32s_at(b, 20632, 4)
}

/// The fixed-capacity zero-terminated string fields.
pub open spec fn strings_match(s: SharedMemory, b: Seq<u8>) -> bool {
    &&& s.mCarName@ == bytes_at(b, 6444, 64)
    &&& s.mCarClassName@ == bytes_at(b, 6508, 64)
    &&& s.mTrackLocation@ == bytes_at(b, 6576, 64)
    &&& s.mTrackVariation@ == bytes_at(b, 6640, 64)
    &&& s.mTranslatedTrackLocation@ == bytes_at(b, 19248, 64)
    &&& s.mTranslatedTrackVariation@ == bytes_at(b, 19312, 64)
    &&& s.mTyreCompound@.len() == 4
    &&& forall|i: int| 0 <= i < 4 ==> (#[trigger] s.mTyreCompound@[i])@ == bytes_at(b, 19384 + 40 * i, 40)
}

/// The participant slots and every participant-indexed array.
pub open spec fn participants_match(s: SharedMemory, b: Seq<u8>) -> bool {
    &&& s.mParticipantInfo@.len() == 64
    &&& forall|i: int| 0 <= i < 64 ==> participant_matches(#[trigger] s.mParticipantInfo@[i], b, 28 + 100 * i)
    &&& s.mCurrentSector1Times@ == u32s_at(b, 7404, 64)
    &&& s.mCurrentSector2Times@ == u32s_at(b, 7660, 64)
    &&& s.mCurrentSector3Times@ == u32s_at(b, 7916, 64)
    &&& s.mFastestSector1Times@ == u32s_at(b, 8172, 64)
    &&& s.mFastestSector2Times@ == u32s_at(b, 8428, 64)
    &&& s.mFastestSector3Times@ == u32s_at(b, 8684, 64)
    &&& s.mFastestLapTimes@ == u32s_at(b, 8940, 64)
    &&& s.mLastLapTimes@ == u32s_at(b, 9196, 64)
    &&& s.mLapsInvalidated@.len() == 64
    &&& forall|i: int| 0 <= i < 64 ==> s.mLapsInvalidated@[i] == bool_at(b, 9452 + i)
    &&& s.mRaceStates@ == u32s_at(b, 9516, 64)
    &&& s.mPitModes@ == u32s_at(b, 9772, 64)
    &&& s.mOrientations@.len() == 64
    &&& forall|i: int| 0 <= i < 64 ==> (#[trigger] s.mOrientations@[i])@ == u32s_at(b, 10028 + 12 * i, 3)
    &&& s.mSpeeds@ == u32s_at(b, 10796, 64)
    &&& s.mCarNames@.len() == 64
    &&& forall|i: int| 0 <= i < 64 ==> (#[trigger] s.mCarNames@[i])@ == bytes_at(b, 11052 + 64 * i, 64)
    &&& s.mCarClassNames@.len() == 64
    &&& forall|i: int| 0 <= i < 64 ==> (#[trigger] s.mCarClassNames@[i])@ == bytes_at(b, 15148 + 64 * i, 64)
    &&& s.mPitSchedules@ == u32s_at(b, 19544, 64)
    &&& s.mHighestFlagColours@ == u32s_at(b, 19800, 64)
    &&& s.mHighestFlagReasons@ == u32s_at(b, 20056, 64)
    &&& s.mNationalities@ == u32s_at(b, 20312, 64)
}

/// `s` is exactly the record stored in the first 20688 bytes of `b`:
/// the byte-for-byte decoding every field of a successful read must equal.
pub open spec fn snapshot_matches(s: SharedMemory, b: Seq<u8>) -> bool {
    &&& scalars_a_match(s, b)
    &&& scalars_b_match(s, b)
    &&& vectors_match(s, b)
    &&& wheels_match(s, b)
    &&& strings_match(s, b)
    &&& participants_match(s, b)
}

impl SharedMemory {
    /// The vector fields hold exactly their declared lengths.
    pub open spec fn wf_vectors(self) -> bool {
        &&& self.mOrientation@.len() == 3
        &&& self.mLocalVelocity@.len() == 3
        &&& self.mWorldVelocity@.len() == 3
        &&& self.mAngularVelocity@.len() == 3
        &&& self.mLocalAcceleration@.len() == 3
        &&& self.mWorldAcceleration@.len() == 3
        &&& self.mExtentsCentre@.len() == 3
        &&& self.mWings@.len() == 2
    }

    /// The wheel-indexed arrays hold exactly their declared lengths.
    pub open spec fn wf_wheels(self) -> bool {
        &&& self.mTyreFlags@.len() == 4
        &&& self.mTerrain@.len() == 4
        &&& self.mTyreY@.len() == 4
        &&& self.mTyreRPS@.len() == 4
        &&& self.mTyreSlipSpeed@.len() == 4
        &&& self.mTyreTemp@.len() == 4
        &&& self.mTyreGrip@.len() == 4
        &&& self.mTyreHeightAboveGround@.len() == 4
        &&& self.mTyreLateralStiffness@.len() == 4
        &&& self.mTyreWear@.len() == 4
        &&& self.mBrakeDamage@.len() == 4
        &&& self.mSuspensionDamage@.len() == 4
        &&& self.mBrakeTempCelsius@.len() == 4
        &&& self.mTyreTreadTemp@.len() == 4
        &&& self.mTyreLayerTemp@.len() == 4
        &&& self.mTyreCarcassTemp@.len() == 4
        &&& self.mTyreRimTemp@.len() == 4
        &&& self.mTyreInternalAirTemp@.len() == 4
        &&& self.mWheelLocalPositionY@.len() == 4
        &&& self.mSuspensionTravel@.len() == 4
        &&& self.mSuspensionVelocity@.len() == 4
        &&& self.mAirPressure@.len() == 4
        &&& self.mTyreTempLeft@.len() == 4
        &&& self.mTyreTempCenter@.len() == 4
        &&& self.mTyreTempRight@.len() == 4
        &&& self.mRideHeight@.len() == 4
    }

    /// The string fields hold exactly their declared lengths.
    pub open spec fn wf_strings(self) -> bool {
        &&& self.mCarName@.len() == 64
        &&& self.mCarClassName@.len() == 64
        &&& self.mTrackLocation@.len() == 64
        &&& self.mTrackVariation@.len() == 64
        &&& self.mTranslatedTrackLocation@.len() == 64
        &&& self.mTranslatedTrackVariation@.len() == 64
        &&& self.mTyreCompound@.len() == 4
        &&& forall|i: int| 0 <= i < 4 ==> (#[trigger] self.mTyreCompound@[i])@.len() == 40
    }

    /// The participant slots and participant-indexed arrays hold exactly their declared lengths.
    pub open spec fn wf_participants(self) -> bool {
        &&& self.mParticipantInfo@.len() == 64
        &&& forall|i: int| 0 <= i < 64 ==> (#[trigger] self.mParticipantInfo@[i]).wf()
        &&& self.mCurrentSector1Times@.len() == 64
        &&& self.mCurrentSector2Times@.len() == 64
        &&& self.mCurrentSector3Times@.len() == 64
        &&& self.mFastestSector1Times@.len() == 64
        &&& self.mFastestSector2Times@.len() == 64
        &&& self.mFastestSector3Times@.len() == 64
        &&& self.mFastestLapTimes@.len() == 64
        &&& self.mLastLapTimes@.len() == 64
        &&& self.mLapsInvalidated@.len() == 64
        &&& self.mRaceStates@.len() == 64
        &&& self.mPitModes@.len() == 64
        &&& self.mOrientations@.len() == 64
        &&& forall|i: int| 0 <= i < 64 ==> (#[trigger] self.mOrientations@[i])@.len() == 3
        &&& self.mSpeeds@.len() == 64
        &&& self.mCarNames@.len() == 64
        &&& forall|i: int| 0 <= i < 64 ==> (#[trigger] self.mCarNames@[i])@.len() == 64
        &&& self.mCarClassNames@.len() == 64
        &&& forall|i: int| 0 <= i < 64 ==> (#[trigger] self.mCarClassNames@[i])@.len() == 64
        &&& self.mPitSchedules@.len() == 64
        &&& self.mHighestFlagColours@.len() == 64
        &&& self.mHighestFlagReasons@.len() == 64
        &&& self.mNationalities@.len() == 64
    }

    /// Every fixed-capacity field holds exactly its declared length.
    pub open spec fn wf(self) -> bool {
        &&& self.wf_vectors()
        &&& self.wf_wheels()
        &&& self.wf_strings()
        &&& self.wf_participants()
    }
}

/// A decoded participant slot carries its declared field lengths.
pub proof fn lemma_participant_matches_wf(p: ParticipantInfo, b: Seq<u8>, off: int)
    requires
        0 <= off,
        off + PARTICIPANT_INFO_SIZE <= b.len(),
        participant_matches(p, b, off),
    ensures
        p.wf(),
{
}

proof fn lemma_vectors_wf(s: SharedMemory, b: Seq<u8>)
    requires
        b.len() >= SHARED_MEMORY_SIZE,
        vectors_match(s, b),
    ensures
        s.wf_vectors(),
{
}

proof fn lemma_wheels_wf(s: SharedMemory, b: Seq<u8>)
    requires
        b.len() >= SHARED_MEMORY_SIZE,
        wheels_match(s, b),
    ensures
        s.wf_wheels(),
{
}

proof fn lemma_strings_wf(s: SharedMemory, b: Seq<u8>)
    requires
        b.len() >= SHARED_MEMORY_SIZE,
        strings_match(s, b),
    ensures
        s.wf_strings(),
{
    assert forall|i: int| 0 <= i < 4 implies (#[trigger] s.mTyreCompound@[i])@.len() == 40 by {
        assert((s.mTyreCompound@[i])@ == bytes_at(b, 19384 + 40 * i, 40));
    }
}

proof fn lemma_participants_wf(s: SharedMemory, b: Seq<u8>)
    requires
        b.len() >= SHARED_MEMORY_SIZE,
        participants_match(s, b),
    ensures
        s.wf_participants(),
{
    assert forall|i: int| 0 <= i < 64 implies (#[trigger] s.mParticipantInfo@[i]).wf() by {
        lemma_participant_matches_wf(s.mParticipantInfo@[i], b, 28 + 100 * i);
    }
    assert forall|i: int| 0 <= i < 64 implies (#[trigger] s.mOrientations@[i])@.len() == 3 by {
        assert((s.mOrientations@[i])@ == u32s_at(b, 10028 + 12 * i, 3));
    }
    assert forall|i: int| 0 <= i < 64 implies (#[trigger] s.mCarNames@[i])@.len() == 64 by {
        assert((s.mCarNames@[i])@ == bytes_at(b, 11052 + 64 * i, 64));
    }
    assert forall|i: int| 0 <= i < 64 implies (#[trigger] s.mCarClassNames@[i])@.len() == 64 by {
        assert((s.mCarClassNames@[i])@ == bytes_at(b, 15148 + 64 * i, 64));
    }
}

/// A decoded record carries its declared field lengths.
pub proof fn lemma_matches_wf(s: SharedMemory, b: Seq<u8>)
    requires
        b.len() >= SHARED_MEMORY_SIZE,
        snapshot_matches(s, b),
    ensures
        s.wf(),
{
    lemma_vectors_wf(s, b);
    lemma_wheels_wf(s, b);
    lemma_strings_wf(s, b);
    lemma_participants_wf(s, b);
}

/// Decode one whole record out of the first bytes of `b`, field by field
/// at the layout's fixed offsets.
#[verifier::rlimit(100)]
pub fn decode_snapshot(b: &[u8]) -> (r: SharedMemory)
    requires
        b@.len() >= SHARED_MEMORY_SIZE,
    ensures
        snapshot_matches(r, b@),
{
    SharedMemory {
        mVersion: read_u32(b, 0),
        mBuildVersionNumber: read_u32(b, 4),
        mGameState: read_u32(b, 8),
        mSessionState: read_u32(b, 12),
        mRaceState: read_u32(b, 16),
        mViewedParticipantIndex: read_i32(b, 20),
        mNumParticipants: read_i32(b, 24),
        mParticipantInfo: read_participants(b),
        mUnfilteredThrottle: read_u32(b, 6428),
        mUnfilteredBrake: read_u32(b, 6432),
        mUnfilteredSteering: read_u32(b, 6436),
        mUnfilteredClutch: read_u32(b, 6440),
        mCarName: read_bytes(b, 6444, 64),
        mCarClassName: read_bytes(b, 6508, 64),
        mLapsInEvent: read_u32(b, 6572),
        mTrackLocation: read_bytes(b, 6576, 64),
        mTrackVariation: read_bytes(b, 6640, 64),
        mTrackLength: read_u32(b, 6704),
        mNumSectors: read_i32(b, 6708),
        mLapInvalidated: read_bool(b, 6712),
        mBestLapTime: read_u32(b, 6716),
        mLastLapTime: read_u32(b, 6720),
        mCurrentTime: read_u32(b, 6724),
        mSplitTimeAhead: read_u32(b, 6728),
        mSplitTimeBehind: read_u32(b, 6732),
        mSplitTime: read_u32(b, 6736),
        mEventTimeRemaining: read_u32(b, 6740),
        mPersonalFastestLapTime: read_u32(b, 6744),
        mWorldFastestLapTime: read_u32(b, 6748),
        mCurrentSector1Time: read_u32(b, 6752),
        mCurrentSector2Time: read_u32(b, 6756),
        mCurrentSector3Time: read_u32(b, 6760),
        mFastestSector1Time: read_u32(b, 6764),
        mFastestSector2Time: read_u32(b, 6768),
        mFastestSector3Time: read_u32(b, 6772),
        mPersonalFastestSector1Time: read_u32(b, 6776),
        mPersonalFastestSector2Time: read_u32(b, 6780),
        mPersonalFastestSector3Time: read_u32(b, 6784),
        mWorldFastestSector1Time: read_u32(b, 6788),
        mWorldFastestSector2Time: read_u32(b, 6792),
        mWorldFastestSector3Time: read_u32(b, 6796),
        mHighestFlagColour: read_u32(b, 6800),
        mHighestFlagReason: read_u32(b, 6804),
        mPitMode: read_u32(b, 6808),
        mPitSchedule: read_u32(b, 6812),
        mCarFlags: read_u32(b, 6816),
        mOilTempCelsius: read_u32(b, 6820),
        mOilPressureKPa: read_u32(b, 6824),
        mWaterTempCelsius: read_u32(b, 6828),
        mWaterPressureKPa: read_u32(b, 6832),
        mFuelPressureKPa: read_u32(b, 6836),
        mFuelLevel: read_u32(b, 6840),
        mFuelCapacity: read_u32(b, 6844),
        mSpeed: read_u32(b, 6848),
        mRpm: read_u32(b, 6852),
        mMaxRPM: read_u32(b, 6856),
        mBrake: read_u32(b, 6860),
        mThrottle: read_u32(b, 6864),
        mClutch: read_u32(b, 6868),
        mSteering: read_u32(b, 6872),
        mGear: read_i32(b, 6876),
        mNumGears: read_i32(b, 6880),
        mOdometerKM: read_u32(b, 6884),
        mAntiLockActive: read_bool(b, 6888),
        mLastOpponentCollisionIndex: read_u32(b, 6892),
        mBoostActive: read_bool(b, 6896),
        mBoostAmount: read_u32(b, 6900),
        mOrientation: read_u32s(b, 6904, 3),
        mLocalVelocity: read_u32s(b, 6916, 3),
        mWorldVelocity: read_u32s(b, 6928, 3),
        mAngularVelocity: read_u32s(b, 6940, 3),
        mLocalAcceleration: read_u32s(b, 6952, 3),
        mWorldAcceleration: read_u32s(b, 6964, 3),
        mExtentsCentre: read_u32s(b, 6976, 3),
        mTyreFlags: read_u32s(b, 6988, 4),
        mTerrain: read_u32s(b, 7004, 4),
        mTyreY: read_u32s(b, 7020, 4),
        mTyreRPS: read_u32s(b, 7036, 4),
        mTyreSlipSpeed: read_u32s(b, 7052, 4),
        mTyreTemp: read_u32s(b, 7068, 4),
        mTyreGrip: read_u32s(b, 7084, 4),
        mTyreHeightAboveGround: read_u32s(b, 7100, 4),
        mTyreLateralStiffness: read_u32s(b, 7116, 4),
        mTyreWear: read_u32s(b, 7132, 4),
        mBrakeDamage: read_u32s(b, 7148, 4),
        mSuspensionDamage: read_u32s(b, 7164, 4),
        mBrakeTempCelsius: read_u32s(b, 7180, 4),
        mTyreTreadTemp: read_u32s(b, 7196, 4),
        mTyreLayerTemp: read_u32s(b, 7212, 4),
        mTyreCarcassTemp: read_u32s(b, 7228, 4),
        mTyreRimTemp: read_u32s(b, 7244, 4),
        mTyreInternalAirTemp: read_u32s(b, 7260, 4),
        mCrashState: read_u32(b, 7276),
        mAeroDamage: read_u32(b, 7280),
        mEngineDamage: read_u32(b, 7284),
        mAmbientTemperature: read_u32(b, 7288),
        mTrackTemperature: read_u32(b, 7292),
        mRainDensity: read_u32(b, 7296),
        mWindSpeed: read_u32(b, 7300),
        mWindDirectionX: read_u32(b, 7304),
        mWindDirectionY: read_u32(b, 7308),
        mCloudBrightness: read_u32(b, 7312),
        mSequenceNumber: read_u32(b, 7316),
        mWheelLocalPositionY: read_u32s(b, 7320, 4),
        mSuspensionTravel: read_u32s(b, 7336, 4),
        mSuspensionVelocity: read_u32s(b, 7352, 4),
        mAirPressure: read_u32s(b, 7368, 4),
        mEngineSpeed: read_u32(b, 7384),
        mEngineTorque: read_u32(b, 7388),
        mWings: read_u32s(b, 7392, 2),
        mHandbrake: read_u32(b, 7400),
        mCurrentSector1Times: read_u32s(b, 7404, 64),
        mCurrentSector2Times: read_u32s(b, 7660, 64),
        mCurrentSector3Times: read_u32s(b, 7916, 64),
        mFastestSector1Times: read_u32s(b, 8172, 64),
        mFastestSector2Times: read_u32s(b, 8428, 64),
        mFastestSector3Times: read_u32s(b, 8684, 64),
        mFastestLapTimes: read_u32s(b, 8940, 64),
        mLastLapTimes: read_u32s(b, 9196, 64),
        mLapsInvalidated: read_bools(b, 9452, 64),
        mRaceStates: read_u32s(b, 9516, 64),
        mPitModes: read_u32s(b, 9772, 64),
        mOrientations: read_u32_rows(b, 10028, 64, 3),
        mSpeeds: read_u32s(b, 10796, 64),
        mCarNames: read_byte_rows(b, 11052, 64, 64),
        mCarClassNames: read_byte_rows(b, 15148, 64, 64),
        mEnforcedPitStopLap: read_i32(b, 19244),
        mTranslatedTrackLocation: read_bytes(b, 19248, 64),
        mTranslatedTrackVariation: read_bytes(b, 19312, 64),
        mBrakeBias: read_u32(b, 19376),
        mTurboBoostPressure: read_u32(b, 19380),
        mTyreCompound: read_byte_rows(b, 19384, 4, 40),
        mPitSchedules: read_u32s(b, 19544, 64),
        mHighestFlagColours: read_u32s(b, 19800, 64),
        mHighestFlagReasons: read_u32s(b, 20056, 64),
        mNationalities: read_u32s(b, 20312, 64),
        mSnowDensity: read_u32(b, 20568),
        mSessionDuration: read_u32(b, 20572),
        mSessionAdditionalLaps: read_i32(b, 20576),
        mTyreTempLeft: read_u32s(b, 20580, 4),
        mTyreTempCenter: read_u32s(b, 20596, 4),
        mTyreTempRight: read_u32s(b, 20612, 4),
        mDrsState: read_u32(b, 20628),
        mRideHeight: read_u32s(b, 20632, 4),
        mJoyPad0: read_u32(b, 20648),
        mDPad: read_u32(b, 20652),
        mAntiLockSetting: read_i32(b, 20656),
        mTractionControlSetting: read_i32(b, 20660),
        mErsDeploymentMode: read_i32(b, 20664),
        mErsAutoModeEnabled: read_bool(b, 20668),
        mClutchTemp: read_u32(b, 20672),
        mClutchWear: read_u32(b, 20676),
        mClutchOverheated: read_bool(b, 20680),
        mClutchSlipping: read_bool(b, 20681),
        mYellowFlagState: read_i32(b, 20684),
    }
}

impl SharedMemory {
    /// How many of the 64 participant slots are semantically valid:
    /// `mNumParticipants` clamped into the slot range (a foreign producer
    /// may store anything there).
    pub open spec fn spec_num_valid(self) -> int {
        if self.mNumParticipants < 0 {
            0
        } else if self.mNumParticipants > 64 {
            64
        } else {
            self.mNumParticipants as int
        }
    }

    pub fn num_valid_participants(&self) -> (r: usize)
        ensures
            r == self.spec_num_valid(),
    {
        if self.mNumParticipants < 0 {
            0
        } else if self.mNumParticipants > 64 {
            64
        } else {
            self.mNumParticipants as usize
        }
    }

    /// The participant in slot `i`, or `None` for a slot beyond the valid
    /// count, which consumers must ignore.
    pub fn participant(&self, i: usize) -> (r: Option<&ParticipantInfo>)
        requires
            self.wf_participants(),
        ensures
            match r {
                Some(p) => i < self.spec_num_valid() && *p == self.mParticipantInfo@[i as int],
                None => i >= self.spec_num_valid(),
            },
    {
        let n: usize = self.num_valid_participants();
        if i < n {
            Some(&self.mParticipantInfo[i])
        } else {
            None
        }
    }

    /// The car's orientation about one axis, as a 32-bit float bit
    /// pattern.
    pub fn orientation(&self, axis: VECTOR_AXES) -> (r: u32)
        requires
            self.wf_vectors(),
            axis.spec_raw() < 3,
        ensures
            r == self.mOrientation@[axis.spec_raw() as int],
    {
        self.mOrientation[axis.raw() as usize]
    }

    /// The car's velocity in its own frame along one axis, as a 32-bit
    /// float bit pattern.
    pub fn local_velocity(&self, axis: VECTOR_AXES) -> (r: u32)
        requires
            self.wf_vectors(),
            axis.spec_raw() < 3,
        ensures
            r == self.mLocalVelocity@[axis.spec_raw() as int],
    {
        self.mLocalVelocity[axis.raw() as usize]
    }

    /// This tyre's condition bitset (`TYRE_FLAGS` bits).
    pub fn tyre_flags(&self, wheel: TYRE_STATES) -> (r: u32)
        requires
            self.wf_wheels(),
            wheel.spec_raw() < 4,
        ensures
            r == self.mTyreFlags@[wheel.spec_raw() as int],
    {
        self.mTyreFlags[wheel.raw() as usize]
    }

    /// The surface material under this tyre (`TERRAIN_MATERIALS` value).
    pub fn terrain(&self, wheel: TYRE_STATES) -> (r: u32)
        requires
            self.wf_wheels(),
            wheel.spec_raw() < 4,
        ensures
            r == self.mTerrain@[wheel.spec_raw() as int],
    {
        self.mTerrain[wheel.raw() as usize]
    }

    /// This tyre's temperature, as a 32-bit float bit pattern.
    pub fn tyre_temp(&self, wheel: TYRE_STATES) -> (r: u32)
        requires
            self.wf_wheels(),
            wheel.spec_raw() < 4,
        ensures
            r == self.mTyreTemp@[wheel.spec_raw() as int],
    {
        self.mTyreTemp[wheel.raw() as usize]
    }

    /// This tyre's wear, as a 32-bit float bit pattern.
    pub fn tyre_wear(&self, wheel: TYRE_STATES) -> (r: u32)
        requires
            self.wf_wheels(),
            wheel.spec_raw() < 4,
        ensures
            r == self.mTyreWear@[wheel.spec_raw() as int],
    {
        self.mTyreWear[wheel.raw() as usize]
    }

    /// This tyre's grip, as a 32-bit float bit pattern.
    pub fn tyre_grip(&self, wheel: TYRE_STATES) -> (r: u32)
        requires
            self.wf_wheels(),
            wheel.spec_raw() < 4,
        ensures
            r == self.mTyreGrip@[wheel.spec_raw() as int],
    {
        self.mTyreGrip[wheel.raw() as usize]
    }

    /// This wheel's suspension travel, as a 32-bit float bit pattern.
    pub fn suspension_travel(&self, wheel: TYRE_STATES) -> (r: u32)
        requires
            self.wf_wheels(),
            wheel.spec_raw() < 4,
        ensures
            r == self.mSuspensionTravel@[wheel.spec_raw() as int],
    {
        self.mSuspensionTravel[wheel.raw() as usize]
    }
}

} // verus!
