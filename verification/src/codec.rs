//! Enumerations whose values cross the native boundary as fixed bit
//! patterns, together with their encoding and decoding.
//!
//! The patterns are part of the foreign ABI: an integer that decodes to no
//! variant means the wrapper and the native binary have diverged, which the
//! caller cannot recover from.  Decoding therefore returns `None` for such
//! an integer, and the callers that treat the mismatch as fatal abort on
//! `None` at the boundary.

use vstd::prelude::*;

verus! {

/// File-access mode, encoded as the native bit patterns.
#[derive(Clone, Copy, PartialEq, Eq, Structural, Debug)]
pub enum Access {
    OpenExisting,
    ShareRead,
    CreateAlways,
}

impl Access {
    /// The native bit pattern of this access mode.
    pub open spec fn bits_spec(self) -> u32 {
        match self {
            Access::OpenExisting => 0,
            Access::ShareRead => 0x8000_0000,
            Access::CreateAlways => 0x4000_0000,
        }
    }

    /// Decoding of a native bit pattern; `None` for every unsupported value.
    pub open spec fn from_bits_spec(bits: u32) -> Option<Access> {
        if bits == 0 {
            Some(Access::OpenExisting)
        } else if bits == 0x8000_0000 {
            Some(Access::ShareRead)
        } else if bits == 0x4000_0000 {
            Some(Access::CreateAlways)
        } else {
            None
        }
    }

    /// Encodes this access mode as its native bit pattern.
    pub fn bits(self) -> (r: u32)
        ensures
            r == self.bits_spec(),
    {
        match self {
            Access::OpenExisting => 0,
            Access::ShareRead => 0x8000_0000,
            Access::CreateAlways => 0x4000_0000,
        }
    }

    /// Decodes a native bit pattern, rejecting every unsupported value.
    pub fn from_bits(bits: u32) -> (r: Option<Access>)
        ensures
            r == Self::from_bits_spec(bits),
    {
        if bits == 0 {
            Some(Access::OpenExisting)
        } else if bits == 0x8000_0000 {
            Some(Access::ShareRead)
        } else if bits == 0x4000_0000 {
            Some(Access::CreateAlways)
        } else {
            None
        }
    }

    /// Decoding for callers that have already ruled a mismatch out; on any
    /// other input the ABI mismatch is treated as fatal.
    pub fn from(bits: u32) -> (r: Access)
        requires
            Self::from_bits_spec(bits) is Some,
        ensures
            Some(r) == Self::from_bits_spec(bits),
    {
        if bits == 0 {
            Access::OpenExisting
        } else if bits == 0x8000_0000 {
            Access::ShareRead
        } else {
            Access::CreateAlways
        }
    }
}

/// Container mode: parse an existing container or construct a new one.
#[derive(Clone, Copy, PartialEq, Eq, Structural, Debug)]
pub enum Mode {
    CP,
    CW,
}

impl Mode {
    /// The native code of this container mode.
    pub open spec fn code_spec(self) -> i32 {
        match self {
            Mode::CP => 1,
            Mode::CW => 2,
        }
    }

    /// Decoding of a native code; `None` for every unsupported value.
    pub open spec fn from_code_spec(code: i32) -> Option<Mode> {
        if code == 1 {
            Some(Mode::CP)
        } else if code == 2 {
            Some(Mode::CW)
        } else {
            None
        }
    }

    /// Encodes this container mode as its native code.
    pub fn code(self) -> (r: i32)
        ensures
            r == self.code_spec(),
    {
        match self {
            Mode::CP => 1,
            Mode::CW => 2,
        }
    }

    /// Decodes a native code, rejecting every unsupported value.
    pub fn from_code(code: i32) -> (r: Option<Mode>)
        ensures
            r == Self::from_code_spec(code),
    {
        if code == 1 {
            Some(Mode::CP)
        } else if code == 2 {
            Some(Mode::CW)
        } else {
            None
        }
    }

    /// Decoding for callers that have already ruled a mismatch out; on any
    /// other input the ABI mismatch is treated as fatal.
    pub fn from(code: i32) -> (r: Mode)
        requires
            Self::from_code_spec(code) is Some,
        ensures
            Some(r) == Self::from_code_spec(code),
    {
        if code == 1 {
            Mode::CP
        } else {
            Mode::CW
        }
    }
}

/// The phase an entry-enumeration callback is invoked for.
#[derive(Clone, Copy, PartialEq, Eq, Structural, Debug)]
pub enum CallbackState {
    Init,
    EnterDir,
    LeaveDir,
    File,
}

impl CallbackState {
    /// The native code of this callback phase.
    pub open spec fn code_spec(self) -> i32 {
        match self {
            CallbackState::Init => 0,
            CallbackState::EnterDir => 1,
            CallbackState::LeaveDir => 2,
            CallbackState::File => 3,
        }
    }

    /// Decoding of a native code; `None` for every unsupported value.
    pub open spec fn from_code_spec(code: i32) -> Option<CallbackState> {
        if code == 0 {
            Some(CallbackState::Init)
        } else if code == 1 {
            Some(CallbackState::EnterDir)
        } else if code == 2 {
            Some(CallbackState::LeaveDir)
        } else if code == 3 {
            Some(CallbackState::File)
        } else {
            None
        }
    }

    /// Encodes this callback phase as its native code.
    pub fn code(self) -> (r: i32)
        ensures
            r == self.code_spec(),
    {
        match self {
            CallbackState::Init => 0,
            CallbackState::EnterDir => 1,
            CallbackState::LeaveDir => 2,
            CallbackState::File => 3,
        }
    }

    /// Decodes a native code, rejecting every unsupported value.
    pub fn from_code(code: i32) -> (r: Option<CallbackState>)
        ensures
            r == Self::from_code_spec(code),
    {
        if code == 0 {
            Some(CallbackState::Init)
        } else if code == 1 {
            Some(CallbackState::EnterDir)
        } else if code == 2 {
            Some(CallbackState::LeaveDir)
        } else if code == 3 {
            Some(CallbackState::File)
        } else {
            None
        }
    }
}

/// Where a seek offset is measured from, matching the native conventions.
#[derive(Clone, Copy, PartialEq, Eq, Structural, Debug)]
pub enum MoveMethod {
    Start,
    Current,
    End,
}

impl MoveMethod {
    /// The native code of this move method.
    pub open spec fn code_spec(self) -> u32 {
        match self {
            MoveMethod::Start => 0,
            MoveMethod::Current => 1,
            MoveMethod::End => 2,
        }
    }

    /// Encodes this move method as its native code.
    pub fn code(self) -> (r: u32)
        ensures
            r == self.code_spec(),
    {
        match self {
            MoveMethod::Start => 0,
            MoveMethod::Current => 1,
            MoveMethod::End => 2,
        }
    }

    /// Decoding of a native code; `None` for every unsupported value.
    pub open spec fn from_code_spec(code: u32) -> Option<MoveMethod> {
        if code == 0 {
            Some(MoveMethod::Start)
        } else if code == 1 {
            Some(MoveMethod::Current)
        } else if code == 2 {
            Some(MoveMethod::End)
        } else {
            None
        }
    }

    /// Decodes a native code, rejecting every unsupported value.
    pub fn from_code(code: u32) -> (r: Option<MoveMethod>)
        ensures
            r == Self::from_code_spec(code),
    {
        if code == 0 {
            Some(MoveMethod::Start)
        } else if code == 1 {
            Some(MoveMethod::Current)
        } else if code == 2 {
            Some(MoveMethod::End)
        } else {
            None
        }
    }
}

/// Every supported access mode decodes back from its own bit pattern.
pub proof fn lemma_access_round_trip(a: Access)
    ensures
        Access::from_bits_spec(a.bits_spec()) == Some(a),
{
}

/// Every supported container mode decodes back from its own code.
pub proof fn lemma_mode_round_trip(m: Mode)
    ensures
        Mode::from_code_spec(m.code_spec()) == Some(m),
{
}

/// Every supported callback phase decodes back from its own code.
pub proof fn lemma_callback_state_round_trip(s: CallbackState)
    ensures
        CallbackState::from_code_spec(s.code_spec()) == Some(s),
{
}

/// Every supported move method decodes back from its own code.
pub proof fn lemma_move_method_round_trip(m: MoveMethod)
    ensures
        MoveMethod::from_code_spec(m.code_spec()) == Some(m),
{
}

} // verus!
