//! The enumerated states and bit-flag sets of the telemetry record.
//!
//! Every one of these is stored in the record as a plain integer, and the
//! producer may add values over time, so decoding never fails: the reader
//! hands the raw integer through, and `from_u32` classifies it, answering
//! `None` for a value this schema does not know.  Each variant's stored
//! integer is given by its `spec_raw` function; the bit-flag sets give the
//! single bit a variant stands for.

use vstd::prelude::*;

verus! {

/// Index of one wheel in the wheel-indexed arrays: position 0 is
/// always the front-left wheel, and so on; the trailing variant is the
/// fixed wheel count.
#[allow(non_camel_case_types)]
#[derive(Clone, Copy, Debug, PartialEq, Eq)]
pub enum TYRE_STATES {
    TYRE_FRONT_LEFT,
    TYRE_FRONT_RIGHT,
    TYRE_REAR_LEFT,
    TYRE_REAR_RIGHT,
    TYRE_MAX,
}

impl TYRE_STATES {
    /// The integer this variant is stored as in the record.
    pub open spec fn spec_raw(self) -> u32 {
        match self {
            TYRE_STATES::TYRE_FRONT_LEFT => 0,
            TYRE_STATES::TYRE_FRONT_RIGHT => 1,
            TYRE_STATES::TYRE_REAR_LEFT => 2,
            TYRE_STATES::TYRE_REAR_RIGHT => 3,
            TYRE_STATES::TYRE_MAX => 4,
        }
    }

    pub fn raw(self) -> (r: u32)
        ensures
            r == self.spec_raw(),
    {
        match self {
            TYRE_STATES::TYRE_FRONT_LEFT => 0,
            TYRE_STATES::TYRE_FRONT_RIGHT => 1,
            TYRE_STATES::TYRE_REAR_LEFT => 2,
            TYRE_STATES::TYRE_REAR_RIGHT => 3,
            TYRE_STATES::TYRE_MAX => 4,
        }
    }

    /// The variant stored as `v`, or `None` for a value this schema
    /// does not know (producers evolve their enums forward).
    pub open spec fn spec_from_u32(v: u32) -> Option<TYRE_STATES> {
        if v == 0 {
            Some(TYRE_STATES::TYRE_FRONT_LEFT)
        } else if v == 1 {
            Some(TYRE_STATES::TYRE_FRONT_RIGHT)
        } else if v == 2 {
            Some(TYRE_STATES::TYRE_REAR_LEFT)
        } else if v == 3 {
            Some(TYRE_STATES::TYRE_REAR_RIGHT)
        } else if v == 4 {
            Some(TYRE_STATES::TYRE_MAX)
        } else {
            None
        }
    }

    pub fn from_u32(v: u32) -> (r: Option<TYRE_STATES>)
        ensures
            r == TYRE_STATES::spec_from_u32(v),
    {
        match v {
            0 => Some(TYRE_STATES::TYRE_FRONT_LEFT),
            1 => Some(TYRE_STATES::TYRE_FRONT_RIGHT),
            2 => Some(TYRE_STATES::TYRE_REAR_LEFT),
            3 => Some(TYRE_STATES::TYRE_REAR_RIGHT),
            4 => Some(TYRE_STATES::TYRE_MAX),
            _ => None,
        }
    }
}

/// Index of one axis in the three-component vector fields; the
/// trailing variant is the fixed axis count.
#[allow(non_camel_case_types)]
#[derive(Clone, Copy, Debug, PartialEq, Eq)]
pub enum VECTOR_AXES {
    VEC_X,
    VEC_Y,
    VEC_Z,
    VEC_MAX,
}

impl VECTOR_AXES {
    /// The integer this variant is stored as in the record.
    pub open spec fn spec_raw(self) -> u32 {
        match self {
            VECTOR_AXES::VEC_X => 0,
            VECTOR_AXES::VEC_Y => 1,
            VECTOR_AXES::VEC_Z => 2,
            VECTOR_AXES::VEC_MAX => 3,
        }
    }

    pub fn raw(self) -> (r: u32)
        ensures
            r == self.spec_raw(),
    {
        match self {
            VECTOR_AXES::VEC_X => 0,
            VECTOR_AXES::VEC_Y => 1,
            VECTOR_AXES::VEC_Z => 2,
            VECTOR_AXES::VEC_MAX => 3,
        }
    }

    /// The variant stored as `v`, or `None` for a value this schema
    /// does not know (producers evolve their enums forward).
    pub open spec fn spec_from_u32(v: u32) -> Option<VECTOR_AXES> {
        if v == 0 {
            Some(VECTOR_AXES::VEC_X)
        } else if v == 1 {
            Some(VECTOR_AXES::VEC_Y)
        } else if v == 2 {
            Some(VECTOR_AXES::VEC_Z)
        } else if v == 3 {
            Some(VECTOR_AXES::VEC_MAX)
        } else {
            None
        }
    }

    pub fn from_u32(v: u32) -> (r: Option<VECTOR_AXES>)
        ensures
            r == VECTOR_AXES::spec_from_u32(v),
    {
        match v {
            0 => Some(VECTOR_AXES::VEC_X),
            1 => Some(VECTOR_AXES::VEC_Y),
            2 => Some(VECTOR_AXES::VEC_Z),
            3 => Some(VECTOR_AXES::VEC_MAX),
            _ => None,
        }
    }
}

/// Overall state of the game process (stored in `mGameState`).
#[allow(non_camel_case_types)]
#[derive(Clone, Copy, Debug, PartialEq, Eq)]
pub enum GAME_STATES {
    GAME_EXITED,
    GAME_FRONT_END,
    GAME_INGAME_PLAYING,
    GAME_INGAME_PAUSED,
    GAME_INGAME_INMENU_TIME_TICKING,
    GAME_INGAME_RESTARTING,
    GAME_INGAME_REPLAY,
    GAME_FRONT_END_REPLAY,
    GAME_MAX,
}

impl GAME_STATES {
    /// The integer this variant is stored as in the record.
    pub open spec fn spec_raw(self) -> u32 {
        match self {
            GAME_STATES::GAME_EXITED => 0,
            GAME_STATES::GAME_FRONT_END => 1,
            GAME_STATES::GAME_INGAME_PLAYING => 2,
            GAME_STATES::GAME_INGAME_PAUSED => 3,
            GAME_STATES::GAME_INGAME_INMENU_TIME_TICKING => 4,
            GAME_STATES::GAME_INGAME_RESTARTING => 5,
            GAME_STATES::GAME_INGAME_REPLAY => 6,
            GAME_STATES::GAME_FRONT_END_REPLAY => 7,
            GAME_STATES::GAME_MAX => 8,
        }
    }

    pub fn raw(self) -> (r: u32)
        ensures
            r == self.spec_raw(),
    {
        match self {
            GAME_STATES::GAME_EXITED => 0,
            GAME_STATES::GAME_FRONT_END => 1,
            GAME_STATES::GAME_INGAME_PLAYING => 2,
            GAME_STATES::GAME_INGAME_PAUSED => 3,
            GAME_STATES::GAME_INGAME_INMENU_TIME_TICKING => 4,
            GAME_STATES::GAME_INGAME_RESTARTING => 5,
            GAME_STATES::GAME_INGAME_REPLAY => 6,
            GAME_STATES::GAME_FRONT_END_REPLAY => 7,
            GAME_STATES::GAME_MAX => 8,
        }
    }

    /// The variant stored as `v`, or `None` for a value this schema
    /// does not know (producers evolve their enums forward).
    pub open spec fn spec_from_u32(v: u32) -> Option<GAME_STATES> {
        if v == 0 {
            Some(GAME_STATES::GAME_EXITED)
        } else if v == 1 {
            Some(GAME_STATES::GAME_FRONT_END)
        } else if v == 2 {
            Some(GAME_STATES::GAME_INGAME_PLAYING)
        } else if v == 3 {
            Some(GAME_STATES::GAME_INGAME_PAUSED)
        } else if v == 4 {
            Some(GAME_STATES::GAME_INGAME_INMENU_TIME_TICKING)
        } else if v == 5 {
            Some(GAME_STATES::GAME_INGAME_RESTARTING)
        } else if v == 6 {
            Some(GAME_STATES::GAME_INGAME_REPLAY)
        } else if v == 7 {
            Some(GAME_STATES::GAME_FRONT_END_REPLAY)
        } else if v == 8 {
            Some(GAME_STATES::GAME_MAX)
        } else {
            None
        }
    }

    pub fn from_u32(v: u32) -> (r: Option<GAME_STATES>)
        ensures
            r == GAME_STATES::spec_from_u32(v),
    {
        match v {
            0 => Some(GAME_STATES::GAME_EXITED),
            1 => Some(GAME_STATES::GAME_FRONT_END),
            2 => Some(GAME_STATES::GAME_INGAME_PLAYING),
            3 => Some(GAME_STATES::GAME_INGAME_PAUSED),
            4 => Some(GAME_STATES::GAME_INGAME_INMENU_TIME_TICKING),
            5 => Some(GAME_STATES::GAME_INGAME_RESTARTING),
            6 => Some(GAME_STATES::GAME_INGAME_REPLAY),
            7 => Some(GAME_STATES::GAME_FRONT_END_REPLAY),
            8 => Some(GAME_STATES::GAME_MAX),
            _ => None,
        }
    }
}

/// Kind of session currently running (stored in `mSessionState`).
#[allow(non_camel_case_types)]
#[derive(Clone, Copy, Debug, PartialEq, Eq)]
pub enum SESSION_STATES {
    SESSION_INVALID,
    SESSION_PRACTICE,
    SESSION_TEST,
    SESSION_QUALIFY,
    SESSION_FORMATION_LAP,
    SESSION_RACE,
    SESSION_TIME_ATTACK,
    SESSION_MAX,
}

impl SESSION_STATES {
    /// The integer this variant is stored as in the record.
    pub open spec fn spec_raw(self) -> u32 {
        match self {
            SESSION_STATES::SESSION_INVALID => 0,
            SESSION_STATES::SESSION_PRACTICE => 1,
            SESSION_STATES::SESSION_TEST => 2,
            SESSION_STATES::SESSION_QUALIFY => 3,
            SESSION_STATES::SESSION_FORMATION_LAP => 4,
            SESSION_STATES::SESSION_RACE => 5,
            SESSION_STATES::SESSION_TIME_ATTACK => 6,
            SESSION_STATES::SESSION_MAX => 7,
        }
    }

    pub fn raw(self) -> (r: u32)
        ensures
            r == self.spec_raw(),
    {
        match self {
            SESSION_STATES::SESSION_INVALID => 0,
            SESSION_STATES::SESSION_PRACTICE => 1,
            SESSION_STATES::SESSION_TEST => 2,
            SESSION_STATES::SESSION_QUALIFY => 3,
            SESSION_STATES::SESSION_FORMATION_LAP => 4,
            SESSION_STATES::SESSION_RACE => 5,
            SESSION_STATES::SESSION_TIME_ATTACK => 6,
            SESSION_STATES::SESSION_MAX => 7,
        }
    }

    /// The variant stored as `v`, or `None` for a value this schema
    /// does not know (producers evolve their enums forward).
    pub open spec fn spec_from_u32(v: u32) -> Option<SESSION_STATES> {
        if v == 0 {
            Some(SESSION_STATES::SESSION_INVALID)
        } else if v == 1 {
            Some(SESSION_STATES::SESSION_PRACTICE)
        } else if v == 2 {
            Some(SESSION_STATES::SESSION_TEST)
        } else if v == 3 {
            Some(SESSION_STATES::SESSION_QUALIFY)
        } else if v == 4 {
            Some(SESSION_STATES::SESSION_FORMATION_LAP)
        } else if v == 5 {
            Some(SESSION_STATES::SESSION_RACE)
        } else if v == 6 {
            Some(SESSION_STATES::SESSION_TIME_ATTACK)
        } else if v == 7 {
            Some(SESSION_STATES::SESSION_MAX)
        } else {
            None
        }
    }

    pub fn from_u32(v: u32) -> (r: Option<SESSION_STATES>)
        ensures
            r == SESSION_STATES::spec_from_u32(v),
    {
        match v {
            0 => Some(SESSION_STATES::SESSION_INVALID),
            1 => Some(SESSION_STATES::SESSION_PRACTICE),
            2 => Some(SESSION_STATES::SESSION_TEST),
            3 => Some(SESSION_STATES::SESSION_QUALIFY),
            4 => Some(SESSION_STATES::SESSION_FORMATION_LAP),
            5 => Some(SESSION_STATES::SESSION_RACE),
            6 => Some(SESSION_STATES::SESSION_TIME_ATTACK),
            7 => Some(SESSION_STATES::SESSION_MAX),
            _ => None,
        }
    }
}

/// Race progress of one participant (stored in `mRaceState` and
/// `mRaceStates`).
#[allow(non_camel_case_types)]
#[derive(Clone, Copy, Debug, PartialEq, Eq)]
pub enum RACE_STATES {
    RACESTATE_INVALID,
    RACESTATE_NOT_STARTED,
    RACESTATE_RACING,
    RACESTATE_FINISHED,
    RACESTATE_DISQUALIFIED,
    RACESTATE_RETIRED,
    RACESTATE_DNF,
    RACESTATE_MAX,
}

impl RACE_STATES {
    /// The integer this variant is stored as in the record.
    pub open spec fn spec_raw(self) -> u32 {
        match self {
            RACE_STATES::RACESTATE_INVALID => 0,
            RACE_STATES::RACESTATE_NOT_STARTED => 1,
            RACE_STATES::RACESTATE_RACING => 2,
            RACE_STATES::RACESTATE_FINISHED => 3,
            RACE_STATES::RACESTATE_DISQUALIFIED => 4,
            RACE_STATES::RACESTATE_RETIRED => 5,
            RACE_STATES::RACESTATE_DNF => 6,
            RACE_STATES::RACESTATE_MAX => 7,
        }
    }

    pub fn raw(self) -> (r: u32)
        ensures
            r == self.spec_raw(),
    {
        match self {
            RACE_STATES::RACESTATE_INVALID => 0,
            RACE_STATES::RACESTATE_NOT_STARTED => 1,
            RACE_STATES::RACESTATE_RACING => 2,
            RACE_STATES::RACESTATE_FINISHED => 3,
            RACE_STATES::RACESTATE_DISQUALIFIED => 4,
            RACE_STATES::RACESTATE_RETIRED => 5,
            RACE_STATES::RACESTATE_DNF => 6,
            RACE_STATES::RACESTATE_MAX => 7,
        }
    }

    /// The variant stored as `v`, or `None` for a value this schema
    /// does not know (producers evolve their enums forward).
    pub open spec fn spec_from_u32(v: u32) -> Option<RACE_STATES> {
        if v == 0 {
            Some(RACE_STATES::RACESTATE_INVALID)
        } else if v == 1 {
            Some(RACE_STATES::RACESTATE_NOT_STARTED)
        } else if v == 2 {
            Some(RACE_STATES::RACESTATE_RACING)
        } else if v == 3 {
            Some(RACE_STATES::RACESTATE_FINISHED)
        } else if v == 4 {
            Some(RACE_STATES::RACESTATE_DISQUALIFIED)
        } else if v == 5 {
            Some(RACE_STATES::RACESTATE_RETIRED)
        } else if v == 6 {
            Some(RACE_STATES::RACESTATE_DNF)
        } else if v == 7 {
            Some(RACE_STATES::RACESTATE_MAX)
        } else {
            None
        }
    }

    pub fn from_u32(v: u32) -> (r: Option<RACE_STATES>)
        ensures
            r == RACE_STATES::spec_from_u32(v),
    {
        match v {
            0 => Some(RACE_STATES::RACESTATE_INVALID),
            1 => Some(RACE_STATES::RACESTATE_NOT_STARTED),
            2 => Some(RACE_STATES::RACESTATE_RACING),
            3 => Some(RACE_STATES::RACESTATE_FINISHED),
            4 => Some(RACE_STATES::RACESTATE_DISQUALIFIED),
            5 => Some(RACE_STATES::RACESTATE_RETIRED),
            6 => Some(RACE_STATES::RACESTATE_DNF),
            7 => Some(RACE_STATES::RACESTATE_MAX),
            _ => None,
        }
    }
}

/// Marshalling flag colour (stored in `mHighestFlagColour`).
#[allow(non_camel_case_types)]
#[derive(Clone, Copy, Debug, PartialEq, Eq)]
pub enum FLAG_COLORS {
    FLAG_COLOUR_NONE,
    FLAG_COLOUR_GREEN,
    FLAG_COLOUR_BLUE,
    FLAG_COLOUR_WHITE_SLOW_CAR,
    FLAG_COLOUR_WHITE_FINAL_LAP,
    FLAG_COLOUR_RED,
    FLAG_COLOUR_YELLOW,
    FLAG_COLOUR_DOUBLE_YELLOW,
    FLAG_COLOUR_BLACK_AND_WHITE,
    FLAG_COLOUR_BLACK_ORANGE_CIRCLE,
    FLAG_COLOUR_BLACK,
    FLAG_COLOUR_CHEQUERED,
    FLAG_COLOUR_MAX,
}

impl FLAG_COLORS {
    /// The integer this variant is stored as in the record.
    pub open spec fn spec_raw(self) -> u32 {
        match self {
            FLAG_COLORS::FLAG_COLOUR_NONE => 0,
            FLAG_COLORS::FLAG_COLOUR_GREEN => 1,
            FLAG_COLORS::FLAG_COLOUR_BLUE => 2,
            FLAG_COLORS::FLAG_COLOUR_WHITE_SLOW_CAR => 3,
            FLAG_COLORS::FLAG_COLOUR_WHITE_FINAL_LAP => 4,
            FLAG_COLORS::FLAG_COLOUR_RED => 5,
            FLAG_COLORS::FLAG_COLOUR_YELLOW => 6,
            FLAG_COLORS::FLAG_COLOUR_DOUBLE_YELLOW => 7,
            FLAG_COLORS::FLAG_COLOUR_BLACK_AND_WHITE => 8,
            FLAG_COLORS::FLAG_COLOUR_BLACK_ORANGE_CIRCLE => 9,
            FLAG_COLORS::FLAG_COLOUR_BLACK => 10,
            FLAG_COLORS::FLAG_COLOUR_CHEQUERED => 11,
            FLAG_COLORS::FLAG_COLOUR_MAX => 12,
        }
    }

    pub fn raw(self) -> (r: u32)
        ensures
            r == self.spec_raw(),
    {
        match self {
            FLAG_COLORS::FLAG_COLOUR_NONE => 0,
            FLAG_COLORS::FLAG_COLOUR_GREEN => 1,
            FLAG_COLORS::FLAG_COLOUR_BLUE => 2,
            FLAG_COLORS::FLAG_COLOUR_WHITE_SLOW_CAR => 3,
            FLAG_COLORS::FLAG_COLOUR_WHITE_FINAL_LAP => 4,
            FLAG_COLORS::FLAG_COLOUR_RED => 5,
            FLAG_COLORS::FLAG_COLOUR_YELLOW => 6,
            FLAG_COLORS::FLAG_COLOUR_DOUBLE_YELLOW => 7,
            FLAG_COLORS::FLAG_COLOUR_BLACK_AND_WHITE => 8,
            FLAG_COLORS::FLAG_COLOUR_BLACK_ORANGE_CIRCLE => 9,
            FLAG_COLORS::FLAG_COLOUR_BLACK => 10,
            FLAG_COLORS::FLAG_COLOUR_CHEQUERED => 11,
            FLAG_COLORS::FLAG_COLOUR_MAX => 12,
        }
    }

    /// The variant stored as `v`, or `None` for a value this schema
    /// does not know (producers evolve their enums forward).
    pub open spec fn spec_from_u32(v: u32) -> Option<FLAG_COLORS> {
        if v == 0 {
            Some(FLAG_COLORS::FLAG_COLOUR_NONE)
        } else if v == 1 {
            Some(FLAG_COLORS::FLAG_COLOUR_GREEN)
        } else if v == 2 {
            Some(FLAG_COLORS::FLAG_COLOUR_BLUE)
        } else if v == 3 {
            Some(FLAG_COLORS::FLAG_COLOUR_WHITE_SLOW_CAR)
        } else if v == 4 {
            Some(FLAG_COLORS::FLAG_COLOUR_WHITE_FINAL_LAP)
        } else if v == 5 {
            Some(FLAG_COLORS::FLAG_COLOUR_RED)
        } else if v == 6 {
            Some(FLAG_COLORS::FLAG_COLOUR_YELLOW)
        } else if v == 7 {
            Some(FLAG_COLORS::FLAG_COLOUR_DOUBLE_YELLOW)
        } else if v == 8 {
            Some(FLAG_COLORS::FLAG_COLOUR_BLACK_AND_WHITE)
        } else if v == 9 {
            Some(FLAG_COLORS::FLAG_COLOUR_BLACK_ORANGE_CIRCLE)
        } else if v == 10 {
            Some(FLAG_COLORS::FLAG_COLOUR_BLACK)
        } else if v == 11 {
            Some(FLAG_COLORS::FLAG_COLOUR_CHEQUERED)
        } else if v == 12 {
            Some(FLAG_COLORS::FLAG_COLOUR_MAX)
        } else {
            None
        }
    }

    pub fn from_u32(v: u32) -> (r: Option<FLAG_COLORS>)
        ensures
            r == FLAG_COLORS::spec_from_u32(v),
    {
        match v {
            0 => Some(FLAG_COLORS::FLAG_COLOUR_NONE),
            1 => Some(FLAG_COLORS::FLAG_COLOUR_GREEN),
            2 => Some(FLAG_COLORS::FLAG_COLOUR_BLUE),
            3 => Some(FLAG_COLORS::FLAG_COLOUR_WHITE_SLOW_CAR),
            4 => Some(FLAG_COLORS::FLAG_COLOUR_WHITE_FINAL_LAP),
            5 => Some(FLAG_COLORS::FLAG_COLOUR_RED),
            6 => Some(FLAG_COLORS::FLAG_COLOUR_YELLOW),
            7 => Some(FLAG_COLORS::FLAG_COLOUR_DOUBLE_YELLOW),
            8 => Some(FLAG_COLORS::FLAG_COLOUR_BLACK_AND_WHITE),
            9 => Some(FLAG_COLORS::FLAG_COLOUR_BLACK_ORANGE_CIRCLE),
            10 => Some(FLAG_COLORS::FLAG_COLOUR_BLACK),
            11 => Some(FLAG_COLORS::FLAG_COLOUR_CHEQUERED),
            12 => Some(FLAG_COLORS::FLAG_COLOUR_MAX),
            _ => None,
        }
    }
}

/// Reason a flag is being shown (stored in `mHighestFlagReason`).
#[allow(non_camel_case_types)]
#[derive(Clone, Copy, Debug, PartialEq, Eq)]
pub enum FLAG_REASONS {
    FLAG_REASON_NONE,
    FLAG_REASON_SOLO_CRASH,
    FLAG_REASON_VEHICLE_CRASH,
    FLAG_REASON_VEHICLE_OBSTRUCTION,
    FLAG_REASON_MAX,
}

impl FLAG_REASONS {
    /// The integer this variant is stored as in the record.
    pub open spec fn spec_raw(self) -> u32 {
        match self {
            FLAG_REASONS::FLAG_REASON_NONE => 0,
            FLAG_REASONS::FLAG_REASON_SOLO_CRASH => 1,
            FLAG_REASONS::FLAG_REASON_VEHICLE_CRASH => 2,
            FLAG_REASONS::FLAG_REASON_VEHICLE_OBSTRUCTION => 3,
            FLAG_REASONS::FLAG_REASON_MAX => 4,
        }
    }

    pub fn raw(self) -> (r: u32)
        ensures
            r == self.spec_raw(),
    {
        match self {
            FLAG_REASONS::FLAG_REASON_NONE => 0,
            FLAG_REASONS::FLAG_REASON_SOLO_CRASH => 1,
            FLAG_REASONS::FLAG_REASON_VEHICLE_CRASH => 2,
            FLAG_REASONS::FLAG_REASON_VEHICLE_OBSTRUCTION => 3,
            FLAG_REASONS::FLAG_REASON_MAX => 4,
        }
    }

    /// The variant stored as `v`, or `None` for a value this schema
    /// does not know (producers evolve their enums forward).
    pub open spec fn spec_from_u32(v: u32) -> Option<FLAG_REASONS> {
        if v == 0 {
            Some(FLAG_REASONS::FLAG_REASON_NONE)
        } else if v == 1 {
            Some(FLAG_REASONS::FLAG_REASON_SOLO_CRASH)
        } else if v == 2 {
            Some(FLAG_REASONS::FLAG_REASON_VEHICLE_CRASH)
        } else if v == 3 {
            Some(FLAG_REASONS::FLAG_REASON_VEHICLE_OBSTRUCTION)
        } else if v == 4 {
            Some(FLAG_REASONS::FLAG_REASON_MAX)
        } else {
            None
        }
    }

    pub fn from_u32(v: u32) -> (r: Option<FLAG_REASONS>)
        ensures
            r == FLAG_REASONS::spec_from_u32(v),
    {
        match v {
            0 => Some(FLAG_REASONS::FLAG_REASON_NONE),
            1 => Some(FLAG_REASONS::FLAG_REASON_SOLO_CRASH),
            2 => Some(FLAG_REASONS::FLAG_REASON_VEHICLE_CRASH),
            3 => Some(FLAG_REASONS::FLAG_REASON_VEHICLE_OBSTRUCTION),
            4 => Some(FLAG_REASONS::FLAG_REASON_MAX),
            _ => None,
        }
    }
}

/// Where the car is in the pit sequence (stored in `mPitMode`).
#[allow(non_camel_case_types)]
#[derive(Clone, Copy, Debug, PartialEq, Eq)]
pub enum PIT_MODES {
    PIT_MODE_NONE,
    PIT_MODE_DRIVING_INTO_PITS,
    PIT_MODE_IN_PIT,
    PIT_MODE_DRIVING_OUT_OF_PITS,
    PIT_MODE_IN_GARAGE,
    PIT_MODE_DRIVING_OUT_OF_GARAGE,
    PIT_MODE_MAX,
}

impl PIT_MODES {
    /// The integer this variant is stored as in the record.
    pub open spec fn spec_raw(self) -> u32 {
        match self {
            PIT_MODES::PIT_MODE_NONE => 0,
            PIT_MODES::PIT_MODE_DRIVING_INTO_PITS => 1,
            PIT_MODES::PIT_MODE_IN_PIT => 2,
            PIT_MODES::PIT_MODE_DRIVING_OUT_OF_PITS => 3,
            PIT_MODES::PIT_MODE_IN_GARAGE => 4,
            PIT_MODES::PIT_MODE_DRIVING_OUT_OF_GARAGE => 5,
            PIT_MODES::PIT_MODE_MAX => 6,
        }
    }

    pub fn raw(self) -> (r: u32)
        ensures
            r == self.spec_raw(),
    {
        match self {
            PIT_MODES::PIT_MODE_NONE => 0,
            PIT_MODES::PIT_MODE_DRIVING_INTO_PITS => 1,
            PIT_MODES::PIT_MODE_IN_PIT => 2,
            PIT_MODES::PIT_MODE_DRIVING_OUT_OF_PITS => 3,
            PIT_MODES::PIT_MODE_IN_GARAGE => 4,
            PIT_MODES::PIT_MODE_DRIVING_OUT_OF_GARAGE => 5,
            PIT_MODES::PIT_MODE_MAX => 6,
        }
    }

    /// The variant stored as `v`, or `None` for a value this schema
    /// does not know (producers evolve their enums forward).
    pub open spec fn spec_from_u32(v: u32) -> Option<PIT_MODES> {
        if v == 0 {
            Some(PIT_MODES::PIT_MODE_NONE)
        } else if v == 1 {
            Some(PIT_MODES::PIT_MODE_DRIVING_INTO_PITS)
        } else if v == 2 {
            Some(PIT_MODES::PIT_MODE_IN_PIT)
        } else if v == 3 {
            Some(PIT_MODES::PIT_MODE_DRIVING_OUT_OF_PITS)
        } else if v == 4 {
            Some(PIT_MODES::PIT_MODE_IN_GARAGE)
        } else if v == 5 {
            Some(PIT_MODES::PIT_MODE_DRIVING_OUT_OF_GARAGE)
        } else if v == 6 {
            Some(PIT_MODES::PIT_MODE_MAX)
        } else {
            None
        }
    }

    pub fn from_u32(v: u32) -> (r: Option<PIT_MODES>)
        ensures
            r == PIT_MODES::spec_from_u32(v),
    {
        match v {
            0 => Some(PIT_MODES::PIT_MODE_NONE),
            1 => Some(PIT_MODES::PIT_MODE_DRIVING_INTO_PITS),
            2 => Some(PIT_MODES::PIT_MODE_IN_PIT),
            3 => Some(PIT_MODES::PIT_MODE_DRIVING_OUT_OF_PITS),
            4 => Some(PIT_MODES::PIT_MODE_IN_GARAGE),
            5 => Some(PIT_MODES::PIT_MODE_DRIVING_OUT_OF_GARAGE),
            6 => Some(PIT_MODES::PIT_MODE_MAX),
            _ => None,
        }
    }
}

/// Why a pit stop is scheduled (stored in `mPitSchedule`).
#[allow(non_camel_case_types)]
#[derive(Clone, Copy, Debug, PartialEq, Eq)]
pub enum PIT_SCHEDULES {
    PIT_SCHEDULE_NONE,
    PIT_SCHEDULE_PLAYER_REQUESTED,
    PIT_SCHEDULE_ENGINEER_REQUESTED,
    PIT_SCHEDULE_DAMAGE_REQUESTED,
    PIT_SCHEDULE_MANDATORY,
    PIT_SCHEDULE_DRIVE_THROUGH,
    PIT_SCHEDULE_STOP_GO,
    PIT_SCHEDULE_PITSPOT_OCCUPIED,
    PIT_SCHEDULE_MAX,
}

impl PIT_SCHEDULES {
    /// The integer this variant is stored as in the record.
    pub open spec fn spec_raw(self) -> u32 {
        match self {
            PIT_SCHEDULES::PIT_SCHEDULE_NONE => 0,
            PIT_SCHEDULES::PIT_SCHEDULE_PLAYER_REQUESTED => 1,
            PIT_SCHEDULES::PIT_SCHEDULE_ENGINEER_REQUESTED => 2,
            PIT_SCHEDULES::PIT_SCHEDULE_DAMAGE_REQUESTED => 3,
            PIT_SCHEDULES::PIT_SCHEDULE_MANDATORY => 4,
            PIT_SCHEDULES::PIT_SCHEDULE_DRIVE_THROUGH => 5,
            PIT_SCHEDULES::PIT_SCHEDULE_STOP_GO => 6,
            PIT_SCHEDULES::PIT_SCHEDULE_PITSPOT_OCCUPIED => 7,
            PIT_SCHEDULES::PIT_SCHEDULE_MAX => 8,
        }
    }

    pub fn raw(self) -> (r: u32)
        ensures
            r == self.spec_raw(),
    {
        match self {
            PIT_SCHEDULES::PIT_SCHEDULE_NONE => 0,
            PIT_SCHEDULES::PIT_SCHEDULE_PLAYER_REQUESTED => 1,
            PIT_SCHEDULES::PIT_SCHEDULE_ENGINEER_REQUESTED => 2,
            PIT_SCHEDULES::PIT_SCHEDULE_DAMAGE_REQUESTED => 3,
            PIT_SCHEDULES::PIT_SCHEDULE_MANDATORY => 4,
            PIT_SCHEDULES::PIT_SCHEDULE_DRIVE_THROUGH => 5,
            PIT_SCHEDULES::PIT_SCHEDULE_STOP_GO => 6,
            PIT_SCHEDULES::PIT_SCHEDULE_PITSPOT_OCCUPIED => 7,
            PIT_SCHEDULES::PIT_SCHEDULE_MAX => 8,
        }
    }

    /// The variant stored as `v`, or `None` for a value this schema
    /// does not know (producers evolve their enums forward).
    pub open spec fn spec_from_u32(v: u32) -> Option<PIT_SCHEDULES> {
        if v == 0 {
            Some(PIT_SCHEDULES::PIT_SCHEDULE_NONE)
        } else if v == 1 {
            Some(PIT_SCHEDULES::PIT_SCHEDULE_PLAYER_REQUESTED)
        } else if v == 2 {
            Some(PIT_SCHEDULES::PIT_SCHEDULE_ENGINEER_REQUESTED)
        } else if v == 3 {
            Some(PIT_SCHEDULES::PIT_SCHEDULE_DAMAGE_REQUESTED)
        } else if v == 4 {
            Some(PIT_SCHEDULES::PIT_SCHEDULE_MANDATORY)
        } else if v == 5 {
            Some(PIT_SCHEDULES::PIT_SCHEDULE_DRIVE_THROUGH)
        } else if v == 6 {
            Some(PIT_SCHEDULES::PIT_SCHEDULE_STOP_GO)
        } else if v == 7 {
            Some(PIT_SCHEDULES::PIT_SCHEDULE_PITSPOT_OCCUPIED)
        } else if v == 8 {
            Some(PIT_SCHEDULES::PIT_SCHEDULE_MAX)
        } else {
            None
        }
    }

    pub fn from_u32(v: u32) -> (r: Option<PIT_SCHEDULES>)
        ensures
            r == PIT_SCHEDULES::spec_from_u32(v),
    {
        match v {
            0 => Some(PIT_SCHEDULES::PIT_SCHEDULE_NONE),
            1 => Some(PIT_SCHEDULES::PIT_SCHEDULE_PLAYER_REQUESTED),
            2 => Some(PIT_SCHEDULES::PIT_SCHEDULE_ENGINEER_REQUESTED),
            3 => Some(PIT_SCHEDULES::PIT_SCHEDULE_DAMAGE_REQUESTED),
            4 => Some(PIT_SCHEDULES::PIT_SCHEDULE_MANDATORY),
            5 => Some(PIT_SCHEDULES::PIT_SCHEDULE_DRIVE_THROUGH),
            6 => Some(PIT_SCHEDULES::PIT_SCHEDULE_STOP_GO),
            7 => Some(PIT_SCHEDULES::PIT_SCHEDULE_PITSPOT_OCCUPIED),
            8 => Some(PIT_SCHEDULES::PIT_SCHEDULE_MAX),
            _ => None,
        }
    }
}

/// One bit of the car-systems bitset (stored in `mCarFlags`).
#[allow(non_camel_case_types)]
#[derive(Clone, Copy, Debug, PartialEq, Eq)]
pub enum CAR_FLAGS {
    CAR_HEADLIGHT,
    CAR_ENGINE_ACTIVE,
    CAR_ENGINE_WARNING,
    CAR_SPEED_LIMITER,
    CAR_ABS,
    CAR_HANDBRAKE,
    CAR_TCS,
    CAR_SCS,
}

impl CAR_FLAGS {
    /// The integer this variant is stored as in the record.
    pub open spec fn spec_raw(self) -> u32 {
        match self {
            CAR_FLAGS::CAR_HEADLIGHT => 1,
            CAR_FLAGS::CAR_ENGINE_ACTIVE => 2,
            CAR_FLAGS::CAR_ENGINE_WARNING => 4,
            CAR_FLAGS::CAR_SPEED_LIMITER => 8,
            CAR_FLAGS::CAR_ABS => 16,
            CAR_FLAGS::CAR_HANDBRAKE => 32,
            CAR_FLAGS::CAR_TCS => 64,
            CAR_FLAGS::CAR_SCS => 128,
        }
    }

    pub fn raw(self) -> (r: u32)
        ensures
            r == self.spec_raw(),
    {
        match self {
            CAR_FLAGS::CAR_HEADLIGHT => 1,
            CAR_FLAGS::CAR_ENGINE_ACTIVE => 2,
            CAR_FLAGS::CAR_ENGINE_WARNING => 4,
            CAR_FLAGS::CAR_SPEED_LIMITER => 8,
            CAR_FLAGS::CAR_ABS => 16,
            CAR_FLAGS::CAR_HANDBRAKE => 32,
            CAR_FLAGS::CAR_TCS => 64,
            CAR_FLAGS::CAR_SCS => 128,
        }
    }

    /// Whether this flag's bit is set in the stored bitset `flags`.
    pub fn set_in(self, flags: u32) -> (r: bool)
        ensures
            r == (flags & self.spec_raw() != 0),
    {
        flags & self.raw() != 0
    }
}

/// One bit of the per-tyre condition bitset (stored in `mTyreFlags`).
#[allow(non_camel_case_types)]
#[derive(Clone, Copy, Debug, PartialEq, Eq)]
pub enum TYRE_FLAGS {
    TYRE_ATTACHED,
    TYRE_INFLATED,
    TYRE_IS_ON_GROUND,
}

impl TYRE_FLAGS {
    /// The integer this variant is stored as in the record.
    pub open spec fn spec_raw(self) -> u32 {
        match self {
            TYRE_FLAGS::TYRE_ATTACHED => 1,
            TYRE_FLAGS::TYRE_INFLATED => 2,
            TYRE_FLAGS::TYRE_IS_ON_GROUND => 4,
        }
    }

    pub fn raw(self) -> (r: u32)
        ensures
            r == self.spec_raw(),
    {
        match self {
            TYRE_FLAGS::TYRE_ATTACHED => 1,
            TYRE_FLAGS::TYRE_INFLATED => 2,
            TYRE_FLAGS::TYRE_IS_ON_GROUND => 4,
        }
    }

    /// Whether this flag's bit is set in the stored bitset `flags`.
    pub fn set_in(self, flags: u32) -> (r: bool)
        ensures
            r == (flags & self.spec_raw() != 0),
    {
        flags & self.raw() != 0
    }
}

/// Surface material under one tyre (stored in `mTerrain`).
#[allow(non_camel_case_types)]
#[derive(Clone, Copy, Debug, PartialEq, Eq)]
pub enum TERRAIN_MATERIALS {
    TERRAIN_ROAD,
    TERRAIN_LOW_GRIP_ROAD,
    TERRAIN_BUMPY_ROAD1,
    TERRAIN_BUMPY_ROAD2,
    TERRAIN_BUMPY_ROAD3,
    TERRAIN_MARBLES,
    TERRAIN_GRASSY_BERMS,
    TERRAIN_GRASS,
    TERRAIN_GRAVEL,
    TERRAIN_BUMPY_GRAVEL,
    TERRAIN_RUMBLE_STRIPS,
    TERRAIN_DRAINS,
    TERRAIN_TYREWALLS,
    TERRAIN_CEMENTWALLS,
    TERRAIN_GUARDRAILS,
    TERRAIN_SAND,
    TERRAIN_BUMPY_SAND,
    TERRAIN_DIRT,
    TERRAIN_BUMPY_DIRT,
    TERRAIN_DIRT_ROAD,
    TERRAIN_BUMPY_DIRT_ROAD,
    TERRAIN_PAVEMENT,
    TERRAIN_DIRT_BANK,
    TERRAIN_WOOD,
    TERRAIN_DRY_VERGE,
    TERRAIN_EXIT_RUMBLE_STRIPS,
    TERRAIN_GRASSCRETE,
    TERRAIN_LONG_GRASS,
    TERRAIN_SLOPE_GRASS,
    TERRAIN_COBBLES,
    TERRAIN_SAND_ROAD,
    TERRAIN_BAKED_CLAY,
    TERRAIN_ASTROTURF,
    TERRAIN_SNOWHALF,
    TERRAIN_SNOWFULL,
    TERRAIN_DAMAGED_ROAD1,
    TERRAIN_TRAIN_TRACK_ROAD,
    TERRAIN_BUMPYCOBBLES,
    TERRAIN_ARIES_ONLY,
    TERRAIN_ORION_ONLY,
    TERRAIN_B1RUMBLES,
    TERRAIN_B2RUMBLES,
    TERRAIN_ROUGH_SAND_MEDIUM,
    TERRAIN_ROUGH_SAND_HEAVY,
    TERRAIN_SNOWWALLS,
    TERRAIN_ICE_ROAD,
    TERRAIN_RUNOFF_ROAD,
    TERRAIN_ILLEGAL_STRIP,
    TERRAIN_PAINT_CONCRETE,
    TERRAIN_PAINT_CONCRETE_ILLEGAL,
    TERRAIN_RALLY_TARMAC,
    TERRAIN_MAX,
}

impl TERRAIN_MATERIALS {
    /// The integer this variant is stored as in the record.
    pub open spec fn spec_raw(self) -> u32 {
        match self {
            TERRAIN_MATERIALS::TERRAIN_ROAD => 0,
            TERRAIN_MATERIALS::TERRAIN_LOW_GRIP_ROAD => 1,
            TERRAIN_MATERIALS::TERRAIN_BUMPY_ROAD1 => 2,
            TERRAIN_MATERIALS::TERRAIN_BUMPY_ROAD2 => 3,
            TERRAIN_MATERIALS::TERRAIN_BUMPY_ROAD3 => 4,
            TERRAIN_MATERIALS::TERRAIN_MARBLES => 5,
            TERRAIN_MATERIALS::TERRAIN_GRASSY_BERMS => 6,
            TERRAIN_MATERIALS::TERRAIN_GRASS => 7,
            TERRAIN_MATERIALS::TERRAIN_GRAVEL => 8,
            TERRAIN_MATERIALS::TERRAIN_BUMPY_GRAVEL => 9,
            TERRAIN_MATERIALS::TERRAIN_RUMBLE_STRIPS => 10,
            TERRAIN_MATERIALS::TERRAIN_DRAINS => 11,
            TERRAIN_MATERIALS::TERRAIN_TYREWALLS => 12,
            TERRAIN_MATERIALS::TERRAIN_CEMENTWALLS => 13,
            TERRAIN_MATERIALS::TERRAIN_GUARDRAILS => 14,
            TERRAIN_MATERIALS::TERRAIN_SAND => 15,
            TERRAIN_MATERIALS::TERRAIN_BUMPY_SAND => 16,
            TERRAIN_MATERIALS::TERRAIN_DIRT => 17,
            TERRAIN_MATERIALS::TERRAIN_BUMPY_DIRT => 18,
            TERRAIN_MATERIALS::TERRAIN_DIRT_ROAD => 19,
            TERRAIN_MATERIALS::TERRAIN_BUMPY_DIRT_ROAD => 20,
            TERRAIN_MATERIALS::TERRAIN_PAVEMENT => 21,
            TERRAIN_MATERIALS::TERRAIN_DIRT_BANK => 22,
            TERRAIN_MATERIALS::TERRAIN_WOOD => 23,
            TERRAIN_MATERIALS::TERRAIN_DRY_VERGE => 24,
            TERRAIN_MATERIALS::TERRAIN_EXIT_RUMBLE_STRIPS => 25,
            TERRAIN_MATERIALS::TERRAIN_GRASSCRETE => 26,
            TERRAIN_MATERIALS::TERRAIN_LONG_GRASS => 27,
            TERRAIN_MATERIALS::TERRAIN_SLOPE_GRASS => 28,
            TERRAIN_MATERIALS::TERRAIN_COBBLES => 29,
            TERRAIN_MATERIALS::TERRAIN_SAND_ROAD => 30,
            TERRAIN_MATERIALS::TERRAIN_BAKED_CLAY => 31,
            TERRAIN_MATERIALS::TERRAIN_ASTROTURF => 32,
            TERRAIN_MATERIALS::TERRAIN_SNOWHALF => 33,
            TERRAIN_MATERIALS::TERRAIN_SNOWFULL => 34,
            TERRAIN_MATERIALS::TERRAIN_DAMAGED_ROAD1 => 35,
            TERRAIN_MATERIALS::TERRAIN_TRAIN_TRACK_ROAD => 36,
            TERRAIN_MATERIALS::TERRAIN_BUMPYCOBBLES => 37,
            TERRAIN_MATERIALS::TERRAIN_ARIES_ONLY => 38,
            TERRAIN_MATERIALS::TERRAIN_ORION_ONLY => 39,
            TERRAIN_MATERIALS::TERRAIN_B1RUMBLES => 40,
            TERRAIN_MATERIALS::TERRAIN_B2RUMBLES => 41,
            TERRAIN_MATERIALS::TERRAIN_ROUGH_SAND_MEDIUM => 42,
            TERRAIN_MATERIALS::TERRAIN_ROUGH_SAND_HEAVY => 43,
            TERRAIN_MATERIALS::TERRAIN_SNOWWALLS => 44,
            TERRAIN_MATERIALS::TERRAIN_ICE_ROAD => 45,
            TERRAIN_MATERIALS::TERRAIN_RUNOFF_ROAD => 46,
            TERRAIN_MATERIALS::TERRAIN_ILLEGAL_STRIP => 47,
            TERRAIN_MATERIALS::TERRAIN_PAINT_CONCRETE => 48,
            TERRAIN_MATERIALS::TERRAIN_PAINT_CONCRETE_ILLEGAL => 49,
            TERRAIN_MATERIALS::TERRAIN_RALLY_TARMAC => 50,
            TERRAIN_MATERIALS::TERRAIN_MAX => 51,
        }
    }

    pub fn raw(self) -> (r: u32)
        ensures
            r == self.spec_raw(),
    {
        match self {
            TERRAIN_MATERIALS::TERRAIN_ROAD => 0,
            TERRAIN_MATERIALS::TERRAIN_LOW_GRIP_ROAD => 1,
            TERRAIN_MATERIALS::TERRAIN_BUMPY_ROAD1 => 2,
            TERRAIN_MATERIALS::TERRAIN_BUMPY_ROAD2 => 3,
            TERRAIN_MATERIALS::TERRAIN_BUMPY_ROAD3 => 4,
            TERRAIN_MATERIALS::TERRAIN_MARBLES => 5,
            TERRAIN_MATERIALS::TERRAIN_GRASSY_BERMS => 6,
            TERRAIN_MATERIALS::TERRAIN_GRASS => 7,
            TERRAIN_MATERIALS::TERRAIN_GRAVEL => 8,
            TERRAIN_MATERIALS::TERRAIN_BUMPY_GRAVEL => 9,
            TERRAIN_MATERIALS::TERRAIN_RUMBLE_STRIPS => 10,
            TERRAIN_MATERIALS::TERRAIN_DRAINS => 11,
            TERRAIN_MATERIALS::TERRAIN_TYREWALLS => 12,
            TERRAIN_MATERIALS::TERRAIN_CEMENTWALLS => 13,
            TERRAIN_MATERIALS::TERRAIN_GUARDRAILS => 14,
            TERRAIN_MATERIALS::TERRAIN_SAND => 15,
            TERRAIN_MATERIALS::TERRAIN_BUMPY_SAND => 16,
            TERRAIN_MATERIALS::TERRAIN_DIRT => 17,
            TERRAIN_MATERIALS::TERRAIN_BUMPY_DIRT => 18,
            TERRAIN_MATERIALS::TERRAIN_DIRT_ROAD => 19,
            TERRAIN_MATERIALS::TERRAIN_BUMPY_DIRT_ROAD => 20,
            TERRAIN_MATERIALS::TERRAIN_PAVEMENT => 21,
            TERRAIN_MATERIALS::TERRAIN_DIRT_BANK => 22,
            TERRAIN_MATERIALS::TERRAIN_WOOD => 23,
            TERRAIN_MATERIALS::TERRAIN_DRY_VERGE => 24,
            TERRAIN_MATERIALS::TERRAIN_EXIT_RUMBLE_STRIPS => 25,
            TERRAIN_MATERIALS::TERRAIN_GRASSCRETE => 26,
            TERRAIN_MATERIALS::TERRAIN_LONG_GRASS => 27,
            TERRAIN_MATERIALS::TERRAIN_SLOPE_GRASS => 28,
            TERRAIN_MATERIALS::TERRAIN_COBBLES => 29,
            TERRAIN_MATERIALS::TERRAIN_SAND_ROAD => 30,
            TERRAIN_MATERIALS::TERRAIN_BAKED_CLAY => 31,
            TERRAIN_MATERIALS::TERRAIN_ASTROTURF => 32,
            TERRAIN_MATERIALS::TERRAIN_SNOWHALF => 33,
            TERRAIN_MATERIALS::TERRAIN_SNOWFULL => 34,
            TERRAIN_MATERIALS::TERRAIN_DAMAGED_ROAD1 => 35,
            TERRAIN_MATERIALS::TERRAIN_TRAIN_TRACK_ROAD => 36,
            TERRAIN_MATERIALS::TERRAIN_BUMPYCOBBLES => 37,
            TERRAIN_MATERIALS::TERRAIN_ARIES_ONLY => 38,
            TERRAIN_MATERIALS::TERRAIN_ORION_ONLY => 39,
            TERRAIN_MATERIALS::TERRAIN_B1RUMBLES => 40,
            TERRAIN_MATERIALS::TERRAIN_B2RUMBLES => 41,
            TERRAIN_MATERIALS::TERRAIN_ROUGH_SAND_MEDIUM => 42,
            TERRAIN_MATERIALS::TERRAIN_ROUGH_SAND_HEAVY => 43,
            TERRAIN_MATERIALS::TERRAIN_SNOWWALLS => 44,
            TERRAIN_MATERIALS::TERRAIN_ICE_ROAD => 45,
            TERRAIN_MATERIALS::TERRAIN_RUNOFF_ROAD => 46,
            TERRAIN_MATERIALS::TERRAIN_ILLEGAL_STRIP => 47,
            TERRAIN_MATERIALS::TERRAIN_PAINT_CONCRETE => 48,
            TERRAIN_MATERIALS::TERRAIN_PAINT_CONCRETE_ILLEGAL => 49,
            TERRAIN_MATERIALS::TERRAIN_RALLY_TARMAC => 50,
            TERRAIN_MATERIALS::TERRAIN_MAX => 51,
        }
    }

    /// The variant stored as `v`, or `None` for a value this schema
    /// does not know (producers evolve their enums forward).
    pub open spec fn spec_from_u32(v: u32) -> Option<TERRAIN_MATERIALS> {
        if v == 0 {
            Some(TERRAIN_MATERIALS::TERRAIN_ROAD)
        } else if v == 1 {
            Some(TERRAIN_MATERIALS::TERRAIN_LOW_GRIP_ROAD)
        } else if v == 2 {
            Some(TERRAIN_MATERIALS::TERRAIN_BUMPY_ROAD1)
        } else if v == 3 {
            Some(TERRAIN_MATERIALS::TERRAIN_BUMPY_ROAD2)
        } else if v == 4 {
            Some(TERRAIN_MATERIALS::TERRAIN_BUMPY_ROAD3)
        } else if v == 5 {
            Some(TERRAIN_MATERIALS::TERRAIN_MARBLES)
        } else if v == 6 {
            Some(TERRAIN_MATERIALS::TERRAIN_GRASSY_BERMS)
        } else if v == 7 {
            Some(TERRAIN_MATERIALS::TERRAIN_GRASS)
        } else if v == 8 {
            Some(TERRAIN_MATERIALS::TERRAIN_GRAVEL)
        } else if v == 9 {
            Some(TERRAIN_MATERIALS::TERRAIN_BUMPY_GRAVEL)
        } else if v == 10 {
            Some(TERRAIN_MATERIALS::TERRAIN_RUMBLE_STRIPS)
        } else if v == 11 {
            Some(TERRAIN_MATERIALS::TERRAIN_DRAINS)
        } else if v == 12 {
            Some(TERRAIN_MATERIALS::TERRAIN_TYREWALLS)
        } else if v == 13 {
            Some(TERRAIN_MATERIALS::TERRAIN_CEMENTWALLS)
        } else if v == 14 {
            Some(TERRAIN_MATERIALS::TERRAIN_GUARDRAILS)
        } else if v == 15 {
            Some(TERRAIN_MATERIALS::TERRAIN_SAND)
        } else if v == 16 {
            Some(TERRAIN_MATERIALS::TERRAIN_BUMPY_SAND)
        } else if v == 17 {
            Some(TERRAIN_MATERIALS::TERRAIN_DIRT)
        } else if v == 18 {
            Some(TERRAIN_MATERIALS::TERRAIN_BUMPY_DIRT)
        } else if v == 19 {
            Some(TERRAIN_MATERIALS::TERRAIN_DIRT_ROAD)
        } else if v == 20 {
            Some(TERRAIN_MATERIALS::TERRAIN_BUMPY_DIRT_ROAD)
        } else if v == 21 {
            Some(TERRAIN_MATERIALS::TERRAIN_PAVEMENT)
        } else if v == 22 {
            Some(TERRAIN_MATERIALS::TERRAIN_DIRT_BANK)
        } else if v == 23 {
            Some(TERRAIN_MATERIALS::TERRAIN_WOOD)
        } else if v == 24 {
            Some(TERRAIN_MATERIALS::TERRAIN_DRY_VERGE)
        } else if v == 25 {
            Some(TERRAIN_MATERIALS::TERRAIN_EXIT_RUMBLE_STRIPS)
        } else if v == 26 {
            Some(TERRAIN_MATERIALS::TERRAIN_GRASSCRETE)
        } else if v == 27 {
            Some(TERRAIN_MATERIALS::TERRAIN_LONG_GRASS)
        } else if v == 28 {
            Some(TERRAIN_MATERIALS::TERRAIN_SLOPE_GRASS)
        } else if v == 29 {
            Some(TERRAIN_MATERIALS::TERRAIN_COBBLES)
        } else if v == 30 {
            Some(TERRAIN_MATERIALS::TERRAIN_SAND_ROAD)
        } else if v == 31 {
            Some(TERRAIN_MATERIALS::TERRAIN_BAKED_CLAY)
        } else if v == 32 {
            Some(TERRAIN_MATERIALS::TERRAIN_ASTROTURF)
        } else if v == 33 {
            Some(TERRAIN_MATERIALS::TERRAIN_SNOWHALF)
        } else if v == 34 {
            Some(TERRAIN_MATERIALS::TERRAIN_SNOWFULL)
        } else if v == 35 {
            Some(TERRAIN_MATERIALS::TERRAIN_DAMAGED_ROAD1)
        } else if v == 36 {
            Some(TERRAIN_MATERIALS::TERRAIN_TRAIN_TRACK_ROAD)
        } else if v == 37 {
            Some(TERRAIN_MATERIALS::TERRAIN_BUMPYCOBBLES)
        } else if v == 38 {
            Some(TERRAIN_MATERIALS::TERRAIN_ARIES_ONLY)
        } else if v == 39 {
            Some(TERRAIN_MATERIALS::TERRAIN_ORION_ONLY)
        } else if v == 40 {
            Some(TERRAIN_MATERIALS::TERRAIN_B1RUMBLES)
        } else if v == 41 {
            Some(TERRAIN_MATERIALS::TERRAIN_B2RUMBLES)
        } else if v == 42 {
            Some(TERRAIN_MATERIALS::TERRAIN_ROUGH_SAND_MEDIUM)
        } else if v == 43 {
            Some(TERRAIN_MATERIALS::TERRAIN_ROUGH_SAND_HEAVY)
        } else if v == 44 {
            Some(TERRAIN_MATERIALS::TERRAIN_SNOWWALLS)
        } else if v == 45 {
            Some(TERRAIN_MATERIALS::TERRAIN_ICE_ROAD)
        } else if v == 46 {
            Some(TERRAIN_MATERIALS::TERRAIN_RUNOFF_ROAD)
        } else if v == 47 {
            Some(TERRAIN_MATERIALS::TERRAIN_ILLEGAL_STRIP)
        } else if v == 48 {
            Some(TERRAIN_MATERIALS::TERRAIN_PAINT_CONCRETE)
        } else if v == 49 {
            Some(TERRAIN_MATERIALS::TERRAIN_PAINT_CONCRETE_ILLEGAL)
        } else if v == 50 {
            Some(TERRAIN_MATERIALS::TERRAIN_RALLY_TARMAC)
        } else if v == 51 {
            Some(TERRAIN_MATERIALS::TERRAIN_MAX)
        } else {
            None
        }
    }

    pub fn from_u32(v: u32) -> (r: Option<TERRAIN_MATERIALS>)
        ensures
            r == TERRAIN_MATERIALS::spec_from_u32(v),
    {
        match v {
            0 => Some(TERRAIN_MATERIALS::TERRAIN_ROAD),
            1 => Some(TERRAIN_MATERIALS::TERRAIN_LOW_GRIP_ROAD),
            2 => Some(TERRAIN_MATERIALS::TERRAIN_BUMPY_ROAD1),
            3 => Some(TERRAIN_MATERIALS::TERRAIN_BUMPY_ROAD2),
            4 => Some(TERRAIN_MATERIALS::TERRAIN_BUMPY_ROAD3),
            5 => Some(TERRAIN_MATERIALS::TERRAIN_MARBLES),
            6 => Some(TERRAIN_MATERIALS::TERRAIN_GRASSY_BERMS),
            7 => Some(TERRAIN_MATERIALS::TERRAIN_GRASS),
            8 => Some(TERRAIN_MATERIALS::TERRAIN_GRAVEL),
            9 => Some(TERRAIN_MATERIALS::TERRAIN_BUMPY_GRAVEL),
            10 => Some(TERRAIN_MATERIALS::TERRAIN_RUMBLE_STRIPS),
            11 => Some(TERRAIN_MATERIALS::TERRAIN_DRAINS),
            12 => Some(TERRAIN_MATERIALS::TERRAIN_TYREWALLS),
            13 => Some(TERRAIN_MATERIALS::TERRAIN_CEMENTWALLS),
            14 => Some(TERRAIN_MATERIALS::TERRAIN_GUARDRAILS),
            15 => Some(TERRAIN_MATERIALS::TERRAIN_SAND),
            16 => Some(TERRAIN_MATERIALS::TERRAIN_BUMPY_SAND),
            17 => Some(TERRAIN_MATERIALS::TERRAIN_DIRT),
            18 => Some(TERRAIN_MATERIALS::TERRAIN_BUMPY_DIRT),
            19 => Some(TERRAIN_MATERIALS::TERRAIN_DIRT_ROAD),
            20 => Some(TERRAIN_MATERIALS::TERRAIN_BUMPY_DIRT_ROAD),
            21 => Some(TERRAIN_MATERIALS::TERRAIN_PAVEMENT),
            22 => Some(TERRAIN_MATERIALS::TERRAIN_DIRT_BANK),
            23 => Some(TERRAIN_MATERIALS::TERRAIN_WOOD),
            24 => Some(TERRAIN_MATERIALS::TERRAIN_DRY_VERGE),
            25 => Some(TERRAIN_MATERIALS::TERRAIN_EXIT_RUMBLE_STRIPS),
            26 => Some(TERRAIN_MATERIALS::TERRAIN_GRASSCRETE),
            27 => Some(TERRAIN_MATERIALS::TERRAIN_LONG_GRASS),
            28 => Some(TERRAIN_MATERIALS::TERRAIN_SLOPE_GRASS),
            29 => Some(TERRAIN_MATERIALS::TERRAIN_COBBLES),
            30 => Some(TERRAIN_MATERIALS::TERRAIN_SAND_ROAD),
            31 => Some(TERRAIN_MATERIALS::TERRAIN_BAKED_CLAY),
            32 => Some(TERRAIN_MATERIALS::TERRAIN_ASTROTURF),
            33 => Some(TERRAIN_MATERIALS::TERRAIN_SNOWHALF),
            34 => Some(TERRAIN_MATERIALS::TERRAIN_SNOWFULL),
            35 => Some(TERRAIN_MATERIALS::TERRAIN_DAMAGED_ROAD1),
            36 => Some(TERRAIN_MATERIALS::TERRAIN_TRAIN_TRACK_ROAD),
            37 => Some(TERRAIN_MATERIALS::TERRAIN_BUMPYCOBBLES),
            38 => Some(TERRAIN_MATERIALS::TERRAIN_ARIES_ONLY),
            39 => Some(TERRAIN_MATERIALS::TERRAIN_ORION_ONLY),
            40 => Some(TERRAIN_MATERIALS::TERRAIN_B1RUMBLES),
            41 => Some(TERRAIN_MATERIALS::TERRAIN_B2RUMBLES),
            42 => Some(TERRAIN_MATERIALS::TERRAIN_ROUGH_SAND_MEDIUM),
            43 => Some(TERRAIN_MATERIALS::TERRAIN_ROUGH_SAND_HEAVY),
            44 => Some(TERRAIN_MATERIALS::TERRAIN_SNOWWALLS),
            45 => Some(TERRAIN_MATERIALS::TERRAIN_ICE_ROAD),
            46 => Some(TERRAIN_MATERIALS::TERRAIN_RUNOFF_ROAD),
            47 => Some(TERRAIN_MATERIALS::TERRAIN_ILLEGAL_STRIP),
            48 => Some(TERRAIN_MATERIALS::TERRAIN_PAINT_CONCRETE),
            49 => Some(TERRAIN_MATERIALS::TERRAIN_PAINT_CONCRETE_ILLEGAL),
            50 => Some(TERRAIN_MATERIALS::TERRAIN_RALLY_TARMAC),
            51 => Some(TERRAIN_MATERIALS::TERRAIN_MAX),
            _ => None,
        }
    }
}

/// Crash damage state of the car (stored in `mCrashState`).
#[allow(non_camel_case_types)]
#[derive(Clone, Copy, Debug, PartialEq, Eq)]
pub enum CRASH_STATES {
    CRASH_DAMAGE_NONE,
    CRASH_DAMAGE_OFFTRACK,
    CRASH_DAMAGE_LARGE_PROP,
    CRASH_DAMAGE_SPINNING,
    CRASH_DAMAGE_ROLLING,
    CRASH_MAX,
}

impl CRASH_STATES {
    /// The integer this variant is stored as in the record.
    pub open spec fn spec_raw(self) -> u32 {
        match self {
            CRASH_STATES::CRASH_DAMAGE_NONE => 0,
            CRASH_STATES::CRASH_DAMAGE_OFFTRACK => 1,
            CRASH_STATES::CRASH_DAMAGE_LARGE_PROP => 2,
            CRASH_STATES::CRASH_DAMAGE_SPINNING => 3,
            CRASH_STATES::CRASH_DAMAGE_ROLLING => 4,
            CRASH_STATES::CRASH_MAX => 5,
        }
    }

    pub fn raw(self) -> (r: u32)
        ensures
            r == self.spec_raw(),
    {
        match self {
            CRASH_STATES::CRASH_DAMAGE_NONE => 0,
            CRASH_STATES::CRASH_DAMAGE_OFFTRACK => 1,
            CRASH_STATES::CRASH_DAMAGE_LARGE_PROP => 2,
            CRASH_STATES::CRASH_DAMAGE_SPINNING => 3,
            CRASH_STATES::CRASH_DAMAGE_ROLLING => 4,
            CRASH_STATES::CRASH_MAX => 5,
        }
    }

    /// The variant stored as `v`, or `None` for a value this schema
    /// does not know (producers evolve their enums forward).
    pub open spec fn spec_from_u32(v: u32) -> Option<CRASH_STATES> {
        if v == 0 {
            Some(CRASH_STATES::CRASH_DAMAGE_NONE)
        } else if v == 1 {
            Some(CRASH_STATES::CRASH_DAMAGE_OFFTRACK)
        } else if v == 2 {
            Some(CRASH_STATES::CRASH_DAMAGE_LARGE_PROP)
        } else if v == 3 {
            Some(CRASH_STATES::CRASH_DAMAGE_SPINNING)
        } else if v == 4 {
            Some(CRASH_STATES::CRASH_DAMAGE_ROLLING)
        } else if v == 5 {
            Some(CRASH_STATES::CRASH_MAX)
        } else {
            None
        }
    }

    pub fn from_u32(v: u32) -> (r: Option<CRASH_STATES>)
        ensures
            r == CRASH_STATES::spec_from_u32(v),
    {
        match v {
            0 => Some(CRASH_STATES::CRASH_DAMAGE_NONE),
            1 => Some(CRASH_STATES::CRASH_DAMAGE_OFFTRACK),
            2 => Some(CRASH_STATES::CRASH_DAMAGE_LARGE_PROP),
            3 => Some(CRASH_STATES::CRASH_DAMAGE_SPINNING),
            4 => Some(CRASH_STATES::CRASH_DAMAGE_ROLLING),
            5 => Some(CRASH_STATES::CRASH_MAX),
            _ => None,
        }
    }
}

/// One bit of the drag-reduction-system bitset (stored in `mDrsState`).
#[allow(non_camel_case_types)]
#[derive(Clone, Copy, Debug, PartialEq, Eq)]
pub enum DRS_STATES {
    DRS_INSTALLED,
    DRS_ZONE_RULES,
    DRS_AVAILABLE_NEXT,
    DRS_AVAILABLE_NOW,
    DRS_ACTIVE,
}

impl DRS_STATES {
    /// The integer this variant is stored as in the record.
    pub open spec fn spec_raw(self) -> u32 {
        match self {
            DRS_STATES::DRS_INSTALLED => 1,
            DRS_STATES::DRS_ZONE_RULES => 2,
            DRS_STATES::DRS_AVAILABLE_NEXT => 4,
            DRS_STATES::DRS_AVAILABLE_NOW => 8,
            DRS_STATES::DRS_ACTIVE => 16,
        }
    }

    pub fn raw(self) -> (r: u32)
        ensures
            r == self.spec_raw(),
    {
        match self {
            DRS_STATES::DRS_INSTALLED => 1,
            DRS_STATES::DRS_ZONE_RULES => 2,
            DRS_STATES::DRS_AVAILABLE_NEXT => 4,
            DRS_STATES::DRS_AVAILABLE_NOW => 8,
            DRS_STATES::DRS_ACTIVE => 16,
        }
    }

    /// Whether this flag's bit is set in the stored bitset `flags`.
    pub fn set_in(self, flags: u32) -> (r: bool)
        ensures
            r == (flags & self.spec_raw() != 0),
    {
        flags & self.raw() != 0
    }
}

/// Energy-recovery deployment mode (stored in
/// `mErsDeploymentMode`).
#[allow(non_camel_case_types)]
#[derive(Clone, Copy, Debug, PartialEq, Eq)]
pub enum ERS_DEPLOYMENT_MODES {
    ERS_DEPLOYMENT_MODE_NONE,
    ERS_DEPLOYMENT_MODE_OFF,
    ERS_DEPLOYMENT_MODE_BUILD,
    ERS_DEPLOYMENT_MODE_BALANCED,
    ERS_DEPLOYMENT_MODE_ATTACK,
    ERS_DEPLOYMENT_MODE_QUAL,
}

impl ERS_DEPLOYMENT_MODES {
    /// The integer this variant is stored as in the record.
    pub open spec fn spec_raw(self) -> u32 {
        match self {
            ERS_DEPLOYMENT_MODES::ERS_DEPLOYMENT_MODE_NONE => 0,
            ERS_DEPLOYMENT_MODES::ERS_DEPLOYMENT_MODE_OFF => 1,
            ERS_DEPLOYMENT_MODES::ERS_DEPLOYMENT_MODE_BUILD => 2,
            ERS_DEPLOYMENT_MODES::ERS_DEPLOYMENT_MODE_BALANCED => 3,
            ERS_DEPLOYMENT_MODES::ERS_DEPLOYMENT_MODE_ATTACK => 4,
            ERS_DEPLOYMENT_MODES::ERS_DEPLOYMENT_MODE_QUAL => 5,
        }
    }

    pub fn raw(self) -> (r: u32)
        ensures
            r == self.spec_raw(),
    {
        match self {
            ERS_DEPLOYMENT_MODES::ERS_DEPLOYMENT_MODE_NONE => 0,
            ERS_DEPLOYMENT_MODES::ERS_DEPLOYMENT_MODE_OFF => 1,
            ERS_DEPLOYMENT_MODES::ERS_DEPLOYMENT_MODE_BUILD => 2,
            ERS_DEPLOYMENT_MODES::ERS_DEPLOYMENT_MODE_BALANCED => 3,
            ERS_DEPLOYMENT_MODES::ERS_DEPLOYMENT_MODE_ATTACK => 4,
            ERS_DEPLOYMENT_MODES::ERS_DEPLOYMENT_MODE_QUAL => 5,
        }
    }

    /// The variant stored as `v`, or `None` for a value this schema
    /// does not know (producers evolve their enums forward).
    pub open spec fn spec_from_u32(v: u32) -> Option<ERS_DEPLOYMENT_MODES> {
        if v == 0 {
            Some(ERS_DEPLOYMENT_MODES::ERS_DEPLOYMENT_MODE_NONE)
        } else if v == 1 {
            Some(ERS_DEPLOYMENT_MODES::ERS_DEPLOYMENT_MODE_OFF)
        } else if v == 2 {
            Some(ERS_DEPLOYMENT_MODES::ERS_DEPLOYMENT_MODE_BUILD)
        } else if v == 3 {
            Some(ERS_DEPLOYMENT_MODES::ERS_DEPLOYMENT_MODE_BALANCED)
        } else if v == 4 {
            Some(ERS_DEPLOYMENT_MODES::ERS_DEPLOYMENT_MODE_ATTACK)
        } else if v == 5 {
            Some(ERS_DEPLOYMENT_MODES::ERS_DEPLOYMENT_MODE_QUAL)
        } else {
            None
        }
    }

    pub fn from_u32(v: u32) -> (r: Option<ERS_DEPLOYMENT_MODES>)
        ensures
            r == ERS_DEPLOYMENT_MODES::spec_from_u32(v),
    {
        match v {
            0 => Some(ERS_DEPLOYMENT_MODES::ERS_DEPLOYMENT_MODE_NONE),
            1 => Some(ERS_DEPLOYMENT_MODES::ERS_DEPLOYMENT_MODE_OFF),
            2 => Some(ERS_DEPLOYMENT_MODES::ERS_DEPLOYMENT_MODE_BUILD),
            3 => Some(ERS_DEPLOYMENT_MODES::ERS_DEPLOYMENT_MODE_BALANCED),
            4 => Some(ERS_DEPLOYMENT_MODES::ERS_DEPLOYMENT_MODE_ATTACK),
            5 => Some(ERS_DEPLOYMENT_MODES::ERS_DEPLOYMENT_MODE_QUAL),
            _ => None,
        }
    }
}

} // verus!
