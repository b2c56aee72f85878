//! The exchange with the forecasting engine, one step at a time.
//!
//! The engine is a single stateful resource behind a mutual-exclusion lock.
//! This module decides what happens next in one inference call; a driver
//! that owns the lock and the engine carries each step out and reports how
//! it went.

use vstd::prelude::*;
use crate::error::EngineError;

verus! {

/// Progress of one inference call.
#[derive(Debug, Clone, Copy, PartialEq, Eq)]
pub enum Exchange {
    /// The lock has been asked for.
    Waiting,
    /// The lock is held and the tensor is being handed to the engine.
    Submitting,
    /// The lock is held and the forward pass is under way.
    Running,
    /// The lock is held and the chosen output is being copied out of the
    /// engine's memory.
    Copying,
    /// The call is over and the lock is not held.
    Finished,
}

/// What the driver reports of the step it was last asked to take.
#[derive(Debug, PartialEq, Eq)]
pub enum Reply {
    LockGranted,
    LockRefused,
    InputAccepted,
    InputRejected(String),
    /// The forward pass ended; these are the names of its output tensors in
    /// the engine's order.
    RunCompleted(Vec<String>),
    RunFailed(String),
    /// The values of the chosen output, as binary32 bit patterns.
    OutputCopied(Vec<u32>),
    OutputUnreadable(String),
}

/// What the driver is to do next.
#[derive(Debug, PartialEq, Eq)]
pub enum Action {
    /// Acquire exclusive access to the engine.
    AcquireLock,
    /// Hand the tensor to the engine under this name.
    SubmitInput(String),
    /// Execute a forward pass.
    Run,
    /// Copy the output tensor at this position into an owned buffer.
    CopyOutput(usize),
    /// Release the lock if it is held and end the call with this result.
    Conclude(Result<Vec<u32>, EngineError>),
}

/// The name under which the engine takes its input tensor.
pub fn input_name() -> (name: &'static str)
    ensures
        name@ == "input"@,
{
    "input"
}

/// The name of the output tensor that is preferred.
pub fn output_name() -> (name: &'static str)
    ensures
        name@ == "output"@,
{
    "output"
}

/// Some output among `names` is called `output`.
pub open spec fn has_named_output(names: Seq<String>) -> bool {
    exists|j: int| 0 <= j < names.len() && (#[trigger] names[j])@ == "output"@
}

/// `index` is the output to read among `names`: the first one called
/// `output`, or the first of all where none is called so.
pub open spec fn is_selected(names: Seq<String>, index: int) -> bool {
    &&& 0 <= index < names.len()
    &&& if has_named_output(names) {
        &&& names[index]@ == "output"@
        &&& forall|j: int| 0 <= j < index ==> (#[trigger] names[j])@ != "output"@
    } else {
        index == 0
    }
}

/// There is one output to read at most: two positions that are both
/// selected are the same position.
pub proof fn selection_is_unique(names: Seq<String>, first: int, second: int)
    requires
        is_selected(names, first),
        is_selected(names, second),
    ensures
        first == second,
{
}

/// Picks the output tensor to read: the one named `output` if there is one,
/// else the first. With no output at all there is nothing to pick.
pub fn select_output(names: &Vec<String>) -> (picked: Result<usize, EngineError>)
    ensures
        picked is Ok <==> names@.len() > 0,
        picked matches Ok(index) ==> is_selected(names@, index as int),
        picked matches Err(fault) ==> fault == EngineError::NoOutputFailure,
{
    if names.len() == 0 {
        return Err(EngineError::NoOutputFailure);
    }
    let wanted = String::from_str(output_name());
    let mut index: usize = 0;
    while index < names.len()
        invariant
            wanted@ == "output"@,
            index <= names@.len(),
            forall|j: int| 0 <= j < index ==> (#[trigger] names@[j])@ != "output"@,
        decreases names@.len() - index,
    {
        if names[index] == wanted {
            return Ok(index);
        }
        index += 1;
    }
    Ok(0)
}

impl Exchange {
    /// The engine is held: the lock was granted and has not been given back.
    pub open spec fn holds_engine(self) -> bool {
        self == Exchange::Submitting || self == Exchange::Running || self == Exchange::Copying
    }

    /// The most replies that can still follow in this state.
    pub open spec fn steps_left(self) -> nat {
        match self {
            Exchange::Waiting => 4,
            Exchange::Submitting => 3,
            Exchange::Running => 2,
            Exchange::Copying => 1,
            Exchange::Finished => 0,
        }
    }

    /// `reply` answers the step that was asked for in this state.
    pub open spec fn expects(self, reply: Reply) -> bool {
        match self {
            Exchange::Waiting => reply is LockGranted || reply is LockRefused,
            Exchange::Submitting => reply is InputAccepted || reply is InputRejected,
            Exchange::Running => reply is RunCompleted || reply is RunFailed,
            Exchange::Copying => reply is OutputCopied || reply is OutputUnreadable,
            Exchange::Finished => false,
        }
    }

    /// The state and the action that follow `reply` in this state. Every
    /// success moves one step on; every failure ends the call at once with
    /// the error of the step that failed, and so does a forward pass without
    /// outputs.
    pub open spec fn follows(self, reply: Reply, next: Exchange, action: Action) -> bool {
        match (self, reply) {
            (Exchange::Waiting, Reply::LockGranted) => {
                &&& next == Exchange::Submitting
                &&& action matches Action::SubmitInput(name)
                &&& name@ == "input"@
            },
            (Exchange::Waiting, Reply::LockRefused) => {
                next == Exchange::Finished && action == Action::Conclude(
                    Err(EngineError::LockAcquisitionFailure),
                )
            },
            (Exchange::Submitting, Reply::InputAccepted) => {
                next == Exchange::Running && action == Action::Run
            },
            (Exchange::Submitting, Reply::InputRejected(why)) => {
                next == Exchange::Finished && action == Action::Conclude(
                    Err(EngineError::TensorConstructionFailure(why)),
                )
            },
            (Exchange::Running, Reply::RunCompleted(names)) => {
                if names@.len() == 0 {
                    next == Exchange::Finished && action == Action::Conclude(
                        Err(EngineError::NoOutputFailure),
                    )
                } else {
                    &&& next == Exchange::Copying
                    &&& action matches Action::CopyOutput(index)
                    &&& is_selected(names@, index as int)
                }
            },
            (Exchange::Running, Reply::RunFailed(why)) => {
                next == Exchange::Finished && action == Action::Conclude(
                    Err(EngineError::ExecutionFailure(why)),
                )
            },
            (Exchange::Copying, Reply::OutputCopied(values)) => {
                next == Exchange::Finished && action == Action::Conclude(Ok(values))
            },
            (Exchange::Copying, Reply::OutputUnreadable(why)) => {
                next == Exchange::Finished && action == Action::Conclude(
                    Err(EngineError::OutputExtractionFailure(why)),
                )
            },
            _ => false,
        }
    }

    /// Opens an inference call: the first thing to do is to acquire the
    /// lock.
    pub fn begin() -> (step: (Exchange, Action))
        ensures
            step.0 == Exchange::Waiting,
            step.1 == Action::AcquireLock,
    {
        (Exchange::Waiting, Action::AcquireLock)
    }

    /// Tells whether `reply` answers the step asked for in this state.
    pub fn accepts(self, reply: &Reply) -> (fits: bool)
        ensures
            fits == self.expects(*reply),
    {
        match self {
            Exchange::Waiting => matches!(reply, Reply::LockGranted | Reply::LockRefused),
            Exchange::Submitting => matches!(reply, Reply::InputAccepted | Reply::InputRejected(_)),
            Exchange::Running => matches!(reply, Reply::RunCompleted(_) | Reply::RunFailed(_)),
            Exchange::Copying => matches!(reply, Reply::OutputCopied(_) | Reply::OutputUnreadable(_)),
            Exchange::Finished => false,
        }
    }

    /// Takes the driver's report of the last step and decides the next one.
    pub fn advance(self, reply: Reply) -> (step: (Exchange, Action))
        requires
            self.expects(reply),
        ensures
            self.follows(reply, step.0, step.1),
    {
        match reply {
            Reply::LockGranted => (
                Exchange::Submitting,
                Action::SubmitInput(String::from_str(input_name())),
            ),
            Reply::LockRefused => (
                Exchange::Finished,
                Action::Conclude(Err(EngineError::LockAcquisitionFailure)),
            ),
            Reply::InputAccepted => (Exchange::Running, Action::Run),
            Reply::InputRejected(why) => (
                Exchange::Finished,
                Action::Conclude(Err(EngineError::TensorConstructionFailure(why))),
            ),
            Reply::RunCompleted(names) => match select_output(&names) {
                Ok(index) => (Exchange::Copying, Action::CopyOutput(index)),
                Err(fault) => (Exchange::Finished, Action::Conclude(Err(fault))),
            },
            Reply::RunFailed(why) => (
                Exchange::Finished,
                Action::Conclude(Err(EngineError::ExecutionFailure(why))),
            ),
            Reply::OutputCopied(values) => (Exchange::Finished, Action::Conclude(Ok(values))),
            Reply::OutputUnreadable(why) => (
                Exchange::Finished,
                Action::Conclude(Err(EngineError::OutputExtractionFailure(why))),
            ),
        }
    }

    /// The lock is given back on every path: a step that ends the call
    /// leaves the engine free, and while the engine is held the call goes on.
    /// The engine is never held before the lock was granted.
    pub proof fn released_when_concluded(self, reply: Reply, next: Exchange, action: Action)
        requires
            self.follows(reply, next, action),
        ensures
            action is Conclude <==> next == Exchange::Finished,
            action is Conclude <==> !next.holds_engine(),
            next.holds_engine() && !self.holds_engine() ==> reply is LockGranted,
    {
    }

    /// Every call comes to an end: each reply brings the end nearer, so a
    /// call takes four replies at most, and once it is over no reply is
    /// awaited.
    pub proof fn every_call_ends(self, reply: Reply, next: Exchange, action: Action)
        requires
            self.follows(reply, next, action),
        ensures
            next.steps_left() < self.steps_left() <= 4,
            next.steps_left() == 0 <==> action is Conclude,
            forall|late: Reply| !Exchange::Finished.expects(late),
    {
    }

    /// Nothing is retried: a failed step ends the call with an error, and
    /// only the copied output ends it well.
    pub proof fn failure_is_final(self, reply: Reply, next: Exchange, action: Action)
        requires
            self.follows(reply, next, action),
        ensures
            reply is LockRefused || reply is InputRejected || reply is RunFailed
                || reply is OutputUnreadable ==> action matches Action::Conclude(Err(_)),
            action matches Action::Conclude(Ok(values)) ==> reply == Reply::OutputCopied(values),
    {
    }
}

} // verus!
