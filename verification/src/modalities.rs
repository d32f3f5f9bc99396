//! Switches that a token contract stores as single bytes.

use vstd::prelude::*;
use crate::contract::Cep18Error;

verus! {

/// How a token contract reports what it did.
#[derive(Clone, Copy, PartialEq, Eq, Structural, Debug)]
pub enum EventsMode {
    NoEvents,
    CES,
    Native,
    NativeBytes,
}

/// Whether minting and burning are switched on.
#[derive(Clone, Copy, PartialEq, Eq, Structural, Debug)]
pub enum MintBurn {
    Disabled,
    MintAndBurn,
}

impl EventsMode {
    /// The mode that a stored byte stands for.
    pub open spec fn spec_try_from(value: u8) -> Result<EventsMode, Cep18Error> {
        if value == 0 {
            Ok(EventsMode::NoEvents)
        } else if value == 1 {
            Ok(EventsMode::CES)
        } else if value == 2 {
            Ok(EventsMode::Native)
        } else if value == 3 {
            Ok(EventsMode::NativeBytes)
        } else {
            Err(Cep18Error::InvalidEventsMode)
        }
    }

    /// The mode that a stored byte stands for, or the error of an invalid
    /// events mode.
    pub fn try_from(value: u8) -> (r: Result<EventsMode, Cep18Error>)
        ensures
            r == EventsMode::spec_try_from(value),
            r is Ok ==> r.unwrap().spec_code() == value,
    {
        match value {
            0 => Ok(EventsMode::NoEvents),
            1 => Ok(EventsMode::CES),
            2 => Ok(EventsMode::Native),
            3 => Ok(EventsMode::NativeBytes),
            _ => Err(Cep18Error::InvalidEventsMode),
        }
    }

    /// The byte under which a mode is stored.
    pub open spec fn spec_code(self) -> u8 {
        match self {
            EventsMode::NoEvents => 0,
            EventsMode::CES => 1,
            EventsMode::Native => 2,
            EventsMode::NativeBytes => 3,
        }
    }

    /// The byte under which a mode is stored.
    pub fn code(self) -> (c: u8)
        ensures
            c == self.spec_code(),
    {
        match self {
            EventsMode::NoEvents => 0,
            EventsMode::CES => 1,
            EventsMode::Native => 2,
            EventsMode::NativeBytes => 3,
        }
    }
}

impl Default for EventsMode {
    fn default() -> (r: EventsMode)
        ensures
            r == EventsMode::NoEvents,
    {
        EventsMode::NoEvents
    }
}

impl MintBurn {
    /// The byte under which the switch is stored.
    pub open spec fn spec_code(self) -> u8 {
        match self {
            MintBurn::Disabled => 0,
            MintBurn::MintAndBurn => 1,
        }
    }

    /// The switch that a stored byte stands for.
    pub open spec fn spec_try_from(value: u8) -> Result<MintBurn, Cep18Error> {
        if value == 0 {
            Ok(MintBurn::Disabled)
        } else if value == 1 {
            Ok(MintBurn::MintAndBurn)
        } else {
            Err(Cep18Error::InvalidEnableMBFlag)
        }
    }

    /// The switch that a stored byte stands for, or the error of an invalid
    /// flag.
    pub fn try_from(value: u8) -> (r: Result<MintBurn, Cep18Error>)
        ensures
            r == MintBurn::spec_try_from(value),
            r is Ok ==> r.unwrap().spec_code() == value,
    {
        match value {
            0 => Ok(MintBurn::Disabled),
            1 => Ok(MintBurn::MintAndBurn),
            _ => Err(Cep18Error::InvalidEnableMBFlag),
        }
    }

    /// The byte under which the switch is stored.
    pub fn code(self) -> (c: u8)
        ensures
            c == self.spec_code(),
    {
        match self {
            MintBurn::Disabled => 0,
            MintBurn::MintAndBurn => 1,
        }
    }
}

} // verus!
