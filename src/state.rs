//! The lifecycle stages of a channel, none of which has any behaviour yet.
use vstd::prelude::*;

verus! {

/// A channel's lifecycle, with what each stage carries.
#[derive(Debug)]
pub enum State {
    Init,
    /// The outcome that led here: `Err` holds a code.
    Error(Result<(), u32>),
    /// A channel number and a count of samples.
    Read((u8, u32)),
    /// The bytes to write.
    Write(Vec<u8>),
    Close,
}

/// The stage of a `State`, without its data.
#[derive(Clone, Copy, Debug, PartialEq, Eq, Structural)]
pub enum Stage {
    Init,
    Error,
    Read,
    Write,
    Close,
}

/// The handling of a stage was reached, but that stage does nothing yet.
#[derive(Clone, Copy, Debug, PartialEq, Eq, Structural)]
pub struct Unimplemented {
    pub stage: Stage,
}

impl State {
    pub open spec fn stage(&self) -> Stage {
        match self {
            State::Init => Stage::Init,
            State::Error(_) => Stage::Error,
            State::Read(_) => Stage::Read,
            State::Write(_) => Stage::Write,
            State::Close => Stage::Close,
        }
    }
}

/// Dispatches on every stage. No stage has an action yet, so each one reports
/// itself as unimplemented.
pub fn match_test(state: State) -> (r: Result<(), Unimplemented>)
    ensures
        r == Err::<(), Unimplemented>(Unimplemented { stage: state.stage() }),
{
    match state {
        State::Init => Err(Unimplemented { stage: Stage::Init }),
        State::Error(_error) => Err(Unimplemented { stage: Stage::Error }),
        State::Read((_channel, _samples)) => Err(Unimplemented { stage: Stage::Read }),
        State::Write(_bytes) => Err(Unimplemented { stage: Stage::Write }),
        State::Close => Err(Unimplemented { stage: Stage::Close }),
    }
}

} // verus!
