//! The host's fixed interface surface: integer handle newtypes, status codes,
//! talking states, transmission modes and versions, as plain values.
use vstd::prelude::*;

verus! {

pub const EC_INTERNAL_ERROR: i32 = -2;

pub const EC_GENERIC_ERROR: i32 = -1;

/// Status value the host reports on success.
pub const EC_OK: i32 = 0;

pub const EC_POINTER_NOT_FOUND: i32 = 1;

pub const EC_NO_ACTIVE_CONNECTION: i32 = 2;

/// Status value of a user search that found nobody.
pub const EC_USER_NOT_FOUND: i32 = 3;

/// Status value of a channel search that found nothing.
pub const EC_CHANNEL_NOT_FOUND: i32 = 4;

pub const EC_CONNECTION_NOT_FOUND: i32 = 5;

/// The host interface version this library is written against.
pub const PLUGIN_API_VERSION_MAJOR: i32 = 1;

pub const PLUGIN_API_VERSION_MINOR: i32 = 0;

pub const PLUGIN_API_VERSION_PATCH: i32 = 0;

/// Identity token the host assigns to this plugin instance.
#[derive(Clone, Copy, Debug, PartialEq, Eq, Structural)]
pub struct PluginId(pub u32);

/// Handle of a server connection.
#[derive(Clone, Copy, Debug, PartialEq, Eq, Structural)]
pub struct ConnectionT(pub i32);

/// Handle of a user on a server.
#[derive(Clone, Copy, Debug, PartialEq, Eq, Structural)]
pub struct UserIdT(pub u32);

/// Handle of a channel; a negative value stands for "no channel".
#[derive(Clone, Copy, Debug, PartialEq, Eq, Structural)]
pub struct ChannelIdT(pub i32);

/// Raw status code as the host reports it.
#[derive(Clone, Copy, Debug, PartialEq, Eq, Structural)]
pub struct ErrorCode(pub i32);

/// Status returned by every host function.
#[derive(Clone, Copy, Debug, PartialEq, Eq, Structural)]
pub struct ErrorT(pub ErrorCode);

impl ErrorT {
    pub open spec fn spec_code(self) -> i32 {
        self.0.0
    }

    /// The raw status value.
    pub fn code(self) -> (r: i32)
        ensures
            r == self.spec_code(),
    {
        self.0.0
    }

    /// Builds a status from its raw value.
    pub fn from_code(code: i32) -> (r: ErrorT)
        ensures
            r.spec_code() == code,
    {
        ErrorT(ErrorCode(code))
    }

    pub open spec fn spec_is_ok(self) -> bool {
        self.spec_code() == EC_OK
    }

    /// Whether this status is the success value.
    pub fn is_ok(self) -> (r: bool)
        ensures
            r == self.spec_is_ok(),
    {
        self.0.0 == EC_OK
    }
}

impl From<ErrorCode> for ErrorT {
    fn from(code: ErrorCode) -> (r: ErrorT)
        ensures
            r == ErrorT(code),
    {
        ErrorT(code)
    }
}

impl vstd::std_specs::convert::FromSpecImpl<ErrorCode> for ErrorT {
    open spec fn obeys_from_spec() -> bool {
        true
    }

    open spec fn from_spec(code: ErrorCode) -> ErrorT {
        ErrorT(code)
    }
}

impl From<ErrorT> for ErrorCode {
    fn from(status: ErrorT) -> (r: ErrorCode)
        ensures
            r == status.0,
    {
        status.0
    }
}

impl vstd::std_specs::convert::FromSpecImpl<ErrorT> for ErrorCode {
    open spec fn obeys_from_spec() -> bool {
        true
    }

    open spec fn from_spec(status: ErrorT) -> ErrorCode {
        status.0
    }
}

/// Talking state of a user, as the host reports it.
#[allow(non_camel_case_types)]
#[derive(Clone, Copy, Debug, PartialEq, Eq, Structural)]
pub enum TalkingState {
    INVALID,
    PASSIVE,
    TALKING,
    WHISPERING,
    SHOUTING,
    TALKING_MUTED,
}

impl TalkingState {
    pub open spec fn spec_raw(self) -> int {
        match self {
            TalkingState::INVALID => -1,
            TalkingState::PASSIVE => 0,
            TalkingState::TALKING => 1,
            TalkingState::WHISPERING => 2,
            TalkingState::SHOUTING => 3,
            TalkingState::TALKING_MUTED => 4,
        }
    }

    /// The host's numeric encoding of this state.
    pub fn raw(self) -> (r: i32)
        ensures
            r as int == self.spec_raw(),
    {
        match self {
            TalkingState::INVALID => -1,
            TalkingState::PASSIVE => 0,
            TalkingState::TALKING => 1,
            TalkingState::WHISPERING => 2,
            TalkingState::SHOUTING => 3,
            TalkingState::TALKING_MUTED => 4,
        }
    }

    /// Decodes the host's numeric encoding; an unknown value is `None`.
    pub fn from_raw(v: i32) -> (r: Option<TalkingState>)
        ensures
            match r {
                Some(s) => s.spec_raw() == v as int,
                None => -1 > v || v > 4,
            },
    {
        if v == -1 {
            Some(TalkingState::INVALID)
        } else if v == 0 {
            Some(TalkingState::PASSIVE)
        } else if v == 1 {
            Some(TalkingState::TALKING)
        } else if v == 2 {
            Some(TalkingState::WHISPERING)
        } else if v == 3 {
            Some(TalkingState::SHOUTING)
        } else if v == 4 {
            Some(TalkingState::TALKING_MUTED)
        } else {
            None
        }
    }
}

/// Talking state as carried across the host boundary.
#[derive(Clone, Copy, Debug, PartialEq, Eq, Structural)]
pub struct TalkingStateT(pub TalkingState);

impl TalkingStateT {
    /// Decodes the host's numeric encoding; a value outside the known states
    /// is read as `INVALID`, the host's own "no meaningful state".
    pub fn from_raw(v: i32) -> (r: TalkingStateT)
        ensures
            -1 <= v <= 4 ==> r.0.spec_raw() == v as int,
            !(-1 <= v <= 4) ==> r.0 == TalkingState::INVALID,
    {
        match TalkingState::from_raw(v) {
            Some(s) => TalkingStateT(s),
            None => TalkingStateT(TalkingState::INVALID),
        }
    }
}

impl From<TalkingState> for TalkingStateT {
    fn from(state: TalkingState) -> (r: TalkingStateT)
        ensures
            r == TalkingStateT(state),
    {
        TalkingStateT(state)
    }
}

impl vstd::std_specs::convert::FromSpecImpl<TalkingState> for TalkingStateT {
    open spec fn obeys_from_spec() -> bool {
        true
    }

    open spec fn from_spec(state: TalkingState) -> TalkingStateT {
        TalkingStateT(state)
    }
}

impl From<TalkingStateT> for TalkingState {
    fn from(state: TalkingStateT) -> (r: TalkingState)
        ensures
            r == state.0,
    {
        state.0
    }
}

impl vstd::std_specs::convert::FromSpecImpl<TalkingStateT> for TalkingState {
    open spec fn obeys_from_spec() -> bool {
        true
    }

    open spec fn from_spec(state: TalkingStateT) -> TalkingState {
        state.0
    }
}

/// How the local user's microphone is keyed.
#[allow(non_camel_case_types)]
#[derive(Clone, Copy, Debug, PartialEq, Eq, Structural)]
pub enum TransmissionMode {
    TM_CONTINOUS,
    TM_VOICE_ACTIVATION,
    TM_PUSH_TO_TALK,
}

impl TransmissionMode {
    pub open spec fn spec_raw(self) -> int {
        match self {
            TransmissionMode::TM_CONTINOUS => 0,
            TransmissionMode::TM_VOICE_ACTIVATION => 1,
            TransmissionMode::TM_PUSH_TO_TALK => 2,
        }
    }

    /// The host's numeric encoding of this mode.
    pub fn raw(self) -> (r: i32)
        ensures
            r as int == self.spec_raw(),
    {
        match self {
            TransmissionMode::TM_CONTINOUS => 0,
            TransmissionMode::TM_VOICE_ACTIVATION => 1,
            TransmissionMode::TM_PUSH_TO_TALK => 2,
        }
    }

    /// Decodes the host's numeric encoding; an unknown value is `None`.
    pub fn from_raw(v: i32) -> (r: Option<TransmissionMode>)
        ensures
            match r {
                Some(m) => m.spec_raw() == v as int,
                None => 0 > v || v > 2,
            },
    {
        if v == 0 {
            Some(TransmissionMode::TM_CONTINOUS)
        } else if v == 1 {
            Some(TransmissionMode::TM_VOICE_ACTIVATION)
        } else if v == 2 {
            Some(TransmissionMode::TM_PUSH_TO_TALK)
        } else {
            None
        }
    }
}

/// Transmission mode as carried across the host boundary.
#[derive(Clone, Copy, Debug, PartialEq, Eq, Structural)]
pub struct TransmissionModeT(pub TransmissionMode);

/// A three-part version number.
#[derive(Clone, Copy, Debug, PartialEq, Eq, Structural)]
pub struct Version {
    pub major: i32,
    pub minor: i32,
    pub patch: i32,
}

} // verus!
