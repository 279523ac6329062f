//! Reading a device's events: what to do after each read.
//!
//! The caller reads the device with the flag that the sequence holds and
//! hands back what the read gave. The sequence answers with an event to
//! yield, with an order to read again, or with the end of the sequence.

use vstd::prelude::*;

verus! {

/// The OS error code of a read that would block.
pub const EAGAIN: i32 = 11;

/// How the next read is made.
#[derive(Clone, Copy, Debug, PartialEq, Eq, Structural)]
pub enum ReadFlag {
    /// An ordinary read of the next event.
    Normal,
    /// A read that resynchronises after the kernel dropped events.
    Sync,
}

/// What a successful read reports beside its event.
#[derive(Clone, Copy, Debug, PartialEq, Eq, Structural)]
pub enum ReadStatus {
    /// An event was delivered.
    Success,
    /// Events were dropped; the reader has to resynchronise.
    Sync,
}

/// The time of an event.
#[derive(Clone, Copy, Debug, PartialEq, Eq, Structural)]
pub struct TimeVal {
    pub tv_sec: i64,
    pub tv_usec: i64,
}

/// The code of an event: its type and its number within that type.
#[derive(Clone, Copy, Debug, PartialEq, Eq, Structural)]
pub struct EventCode {
    pub event_type: u32,
    pub event_code: u32,
}

/// One input event.
#[derive(Clone, Copy, Debug, PartialEq, Eq, Structural)]
pub struct InputEvent {
    pub time: TimeVal,
    pub event_code: EventCode,
    pub value: i32,
}

/// What the sequence does after a read.
#[derive(Clone, Copy, Debug, PartialEq, Eq, Structural)]
pub enum Step {
    /// The sequence yields this event.
    Yield(InputEvent),
    /// Nothing to yield yet: read again.
    Retry,
    /// The sequence has ended on this error; the code is absent where the
    /// error carried none.
    Stop(Option<i32>),
}

/// The step that follows a read: a delivered event is yielded, a request to
/// resynchronise and a read that would block are retried, any other error
/// ends the sequence.
pub open spec fn step_after(outcome: Result<(ReadStatus, InputEvent), Option<i32>>) -> Step {
    match outcome {
        Ok((ReadStatus::Success, event)) => Step::Yield(event),
        Ok((ReadStatus::Sync, _)) => Step::Retry,
        Err(code) => if code == Some(EAGAIN) {
            Step::Retry
        } else {
            Step::Stop(code)
        },
    }
}

/// The flag of the read that follows: a resynchronising read after a request
/// to resynchronise, an ordinary read in every other case.
pub open spec fn flag_after(outcome: Result<(ReadStatus, InputEvent), Option<i32>>) -> ReadFlag {
    match outcome {
        Ok((ReadStatus::Sync, _)) => ReadFlag::Sync,
        _ => ReadFlag::Normal,
    }
}

/// The events that a run of reads yields, in the order of the reads, up to
/// the first error that ends the sequence.
pub open spec fn yielded(outcomes: Seq<Result<(ReadStatus, InputEvent), Option<i32>>>) -> Seq<
    InputEvent,
>
    decreases outcomes.len(),
{
    if outcomes.len() == 0 {
        Seq::empty()
    } else {
        match step_after(outcomes[0]) {
            Step::Yield(event) => seq![event] + yielded(outcomes.drop_first()),
            Step::Retry => yielded(outcomes.drop_first()),
            Step::Stop(_) => Seq::empty(),
        }
    }
}

/// The sequence of a device's events.
pub struct JoystickEvents {
    read_flag: ReadFlag,
}

impl JoystickEvents {
    /// The flag of the next read.
    pub closed spec fn flag(self) -> ReadFlag {
        self.read_flag
    }

    /// A sequence at its start: the first read is an ordinary one.
    pub fn new() -> (r: JoystickEvents)
        ensures
            r.flag() == ReadFlag::Normal,
    {
        JoystickEvents { read_flag: ReadFlag::Normal }
    }

    /// The flag to make the next read with.
    pub fn read_flag(&self) -> (r: ReadFlag)
        ensures
            r == self.flag(),
    {
        self.read_flag
    }

    /// Takes what the last read gave: the status and the event, or the OS
    /// error code of a failed read. Says what the sequence does next.
    pub fn step(&mut self, outcome: Result<(ReadStatus, InputEvent), Option<i32>>) -> (r: Step)
        ensures
            r == step_after(outcome),
            final(self).flag() == flag_after(outcome),
    {
        match outcome {
            Ok((status, event)) => match status {
                ReadStatus::Success => {
                    self.read_flag = ReadFlag::Normal;
                    Step::Yield(event)
                },
                ReadStatus::Sync => {
                    self.read_flag = ReadFlag::Sync;
                    Step::Retry
                },
            },
            Err(code) => {
                self.read_flag = ReadFlag::Normal;
                match code {
                    Some(raw) => if raw == EAGAIN {
                        Step::Retry
                    } else {
                        Step::Stop(code)
                    },
                    None => Step::Stop(code),
                }
            },
        }
    }

    /// Runs the sequence over the reads in `outcomes`, from its start, and
    /// collects what it yields.
    pub fn replay(outcomes: &Vec<Result<(ReadStatus, InputEvent), Option<i32>>>) -> (r: Vec<
        InputEvent,
    >)
        ensures
            r@ == yielded(outcomes@),
    {
        let mut events = JoystickEvents::new();
        let mut found: Vec<InputEvent> = Vec::new();
        let mut i: usize = 0;
        assert(outcomes@.skip(0) =~= outcomes@);
        assert(found@ + yielded(outcomes@) =~= yielded(outcomes@));
        while i < outcomes.len()
            invariant
                i <= outcomes.len(),
                found@ + yielded(outcomes@.skip(i as int)) == yielded(outcomes@),
            decreases outcomes.len() - i,
        {
            let ghost rest = outcomes@.skip(i as int);
            assert(rest.drop_first() =~= outcomes@.skip(i + 1));
            assert(rest[0] == outcomes@[i as int]);
            match events.step(outcomes[i]) {
                Step::Yield(event) => {
                    assert(found@.push(event) + yielded(rest.drop_first()) =~= found@ + yielded(
                        rest,
                    ));
                    found.push(event);
                },
                Step::Retry => {},
                Step::Stop(_) => {
                    assert(found@ + Seq::<InputEvent>::empty() =~= found@);
                    return found;
                },
            }
            i += 1;
        }
        assert(found@ + yielded(outcomes@.skip(i as int)) =~= found@);
        found
    }
}

} // verus!
