//! Leaf behaviors: the core behaviors of an agent, communication and timer
//! behaviors, and example behaviors. What they print or read from a blackboard
//! stands outside the library; here are their decisions, kinds and ports.

use vstd::prelude::*;
use vstd::string::*;
use crate::behavior::{BehaviorType, PortDirection, PortList, input_port, output_port, port_is};
use crate::status::BehaviorStatus;
use crate::step::BehaviorError;

verus! {

/// A successful result with the given status.
pub open spec fn ok_status(s: BehaviorStatus) -> Result<BehaviorStatus, BehaviorError> {
    Ok(s)
}

/// Condition `NotInterrupted` of an agent's core tree.
pub struct NotInterrupted {}

impl NotInterrupted {
    /// Always success.
    pub fn tick(&mut self) -> (r: Result<BehaviorStatus, BehaviorError>)
        ensures
            r == ok_status(BehaviorStatus::Success),
    {
        Ok(BehaviorStatus::Success)
    }

    /// A condition.
    pub fn kind() -> (r: BehaviorType)
        ensures
            r == BehaviorType::Condition,
    {
        BehaviorType::Condition
    }
}

/// Action `AlwaysRunning` of an agent's core tree.
pub struct AlwaysRunning {}

impl AlwaysRunning {
    /// Always running.
    pub fn tick(&mut self) -> (r: Result<BehaviorStatus, BehaviorError>)
        ensures
            r == ok_status(BehaviorStatus::Running),
    {
        Ok(BehaviorStatus::Running)
    }

    /// A decorator.
    pub fn kind() -> (r: BehaviorType)
        ensures
            r == BehaviorType::Decorator,
    {
        BehaviorType::Decorator
    }
}

/// Action `Shutdown` of an agent's core tree.
pub struct Shutdown {}

impl Shutdown {
    /// Always success.
    pub fn tick(&mut self) -> (r: Result<BehaviorStatus, BehaviorError>)
        ensures
            r == ok_status(BehaviorStatus::Success),
    {
        Ok(BehaviorStatus::Success)
    }

    /// An action.
    pub fn kind() -> (r: BehaviorType)
        ensures
            r == BehaviorType::Action,
    {
        BehaviorType::Action
    }
}

/// An agent keeps ticking its tree while the tree returns running.
pub fn agent_keeps_running(result: BehaviorStatus) -> (r: bool)
    ensures
        r == (result == BehaviorStatus::Running),
{
    result == BehaviorStatus::Running
}

/// A publisher behavior.
#[derive(Debug, Default)]
pub struct Publisher {}

impl Publisher {
    /// Start: the same as a tick.
    pub fn start(&mut self) -> (r: Result<BehaviorStatus, BehaviorError>)
        ensures
            r == ok_status(BehaviorStatus::Success),
    {
        self.tick()
    }

    /// Always success.
    pub fn tick(&mut self) -> (r: Result<BehaviorStatus, BehaviorError>)
        ensures
            r == ok_status(BehaviorStatus::Success),
    {
        Ok(BehaviorStatus::Success)
    }

    /// An action.
    pub fn kind() -> (r: BehaviorType)
        ensures
            r == BehaviorType::Action,
    {
        BehaviorType::Action
    }

    /// Input ports `topic` and `message`.
    pub fn provided_ports() -> (r: PortList)
        ensures
            r.ports@.len() == 2,
            port_is(r.ports@[0], "topic"@, PortDirection::Input, Some(""@), "Topic to publish."@),
            port_is(r.ports@[1], "message"@, PortDirection::Input, Some(""@), "Message to publish."@),
    {
        let mut ports = PortList::new();
        ports.insert("topic", input_port(Some(""), "Topic to publish."));
        ports.insert("message", input_port(Some(""), "Message to publish."));
        ports
    }
}

/// A subscriber behavior.
#[derive(Debug, Default)]
pub struct Subscriber {}

impl Subscriber {
    /// Start: the same as a tick.
    pub fn start(&mut self) -> (r: Result<BehaviorStatus, BehaviorError>)
        ensures
            r == ok_status(BehaviorStatus::Running),
    {
        self.tick()
    }

    /// Always running.
    pub fn tick(&mut self) -> (r: Result<BehaviorStatus, BehaviorError>)
        ensures
            r == ok_status(BehaviorStatus::Running),
    {
        Ok(BehaviorStatus::Running)
    }

    /// An action.
    pub fn kind() -> (r: BehaviorType)
        ensures
            r == BehaviorType::Action,
    {
        BehaviorType::Action
    }

    /// Input port `topic`.
    pub fn provided_ports() -> (r: PortList)
        ensures
            r.ports@.len() == 1,
            port_is(r.ports@[0], "topic"@, PortDirection::Input, Some(""@), "Topic to subscribe."@),
    {
        let mut ports = PortList::new();
        ports.insert("topic", input_port(Some(""), "Topic to subscribe."));
        ports
    }
}

/// What an interval timer asks its driver to do with the task that ticks its children.
#[derive(Clone, Copy, Debug, PartialEq, Eq, Structural)]
pub enum TimerAction {
    /// nothing
    Nothing,
    /// start a task that ticks the children at every interval
    Spawn,
    /// give the children back to the node and abort the task
    Abort,
}

/// An interval timer behavior: while started, a task ticks its children at every interval.
#[derive(Debug, Default)]
pub struct IntervalTimer {
    started: bool,
}

impl View for IntervalTimer {
    type V = bool;

    closed spec fn view(&self) -> bool {
        self.started
    }
}

impl IntervalTimer {
    /// Start the timer: running with a new task, or failure when already started.
    pub fn start(&mut self) -> (r: (Result<BehaviorStatus, BehaviorError>, TimerAction))
        ensures
            !old(self)@ ==> final(self)@ && r.0 == ok_status(BehaviorStatus::Running) && r.1
                == TimerAction::Spawn,
            old(self)@ ==> final(self)@ && r.0 == ok_status(BehaviorStatus::Failure) && r.1
                == TimerAction::Nothing,
    {
        if !self.started {
            self.started = true;
            (Ok(BehaviorStatus::Running), TimerAction::Spawn)
        } else {
            (Ok(BehaviorStatus::Failure), TimerAction::Nothing)
        }
    }

    /// Always running.
    pub fn tick(&mut self) -> (r: Result<BehaviorStatus, BehaviorError>)
        ensures
            final(self)@ == old(self)@,
            r == ok_status(BehaviorStatus::Running),
    {
        Ok(BehaviorStatus::Running)
    }

    /// Halt the timer: the children are reset and a running task is aborted.
    pub fn halt(&mut self) -> (r: TimerAction)
        ensures
            !final(self)@,
            r == (if old(self)@ { TimerAction::Abort } else { TimerAction::Nothing }),
    {
        if self.started {
            self.started = false;
            TimerAction::Abort
        } else {
            TimerAction::Nothing
        }
    }

    /// A decorator.
    pub fn kind() -> (r: BehaviorType)
        ensures
            r == BehaviorType::Decorator,
    {
        BehaviorType::Decorator
    }

    /// Input port `interval`, in ms.
    pub fn provided_ports() -> (r: PortList)
        ensures
            r.ports@.len() == 1,
            port_is(
                r.ports@[0],
                "interval"@,
                PortDirection::Input,
                Some("1000"@),
                "Default value in ms."@,
            ),
    {
        let mut ports = PortList::new();
        ports.insert("interval", input_port(Some("1000"), "Default value in ms."));
        ports
    }
}

/// Example action `ApproachObject`, without ports.
#[derive(Debug, Default)]
pub struct ApproachObject {}

impl ApproachObject {
    /// Always success.
    pub fn tick(&mut self) -> (r: Result<BehaviorStatus, BehaviorError>)
        ensures
            r == ok_status(BehaviorStatus::Success),
    {
        Ok(BehaviorStatus::Success)
    }

    /// An action.
    pub fn kind() -> (r: BehaviorType)
        ensures
            r == BehaviorType::Action,
    {
        BehaviorType::Action
    }
}

/// Example condition `CheckBattery`: always success.
pub fn check_battery() -> (r: Result<BehaviorStatus, BehaviorError>)
    ensures
        r == ok_status(BehaviorStatus::Success),
{
    Ok(BehaviorStatus::Success)
}

/// Example behaviors `OpenGripper` and `CloseGripper`.
#[derive(Debug, Default)]
pub struct GripperInterface {}

impl GripperInterface {
    /// Open the gripper: always success.
    pub fn open(&mut self) -> (r: Result<BehaviorStatus, BehaviorError>)
        ensures
            r == ok_status(BehaviorStatus::Success),
    {
        Ok(BehaviorStatus::Success)
    }

    /// Close the gripper: always success.
    pub fn close(&mut self) -> (r: Result<BehaviorStatus, BehaviorError>)
        ensures
            r == ok_status(BehaviorStatus::Success),
    {
        Ok(BehaviorStatus::Success)
    }
}

/// Example action `SaySomething`, with input port `message`.
#[derive(Debug, Default)]
pub struct SaySomething {}

impl SaySomething {
    /// The line said for the message, then success.
    pub fn tick(&mut self, message: &str) -> (r: (String, Result<BehaviorStatus, BehaviorError>))
        ensures
            r.0@ == "Robot says: "@ + message@,
            r.1 == ok_status(BehaviorStatus::Success),
    {
        (String::from_str("Robot says: ").concat(message), Ok(BehaviorStatus::Success))
    }

    /// An action.
    pub fn kind() -> (r: BehaviorType)
        ensures
            r == BehaviorType::Action,
    {
        BehaviorType::Action
    }

    /// Input port `message`, by default `hello`.
    pub fn provided_ports() -> (r: PortList)
        ensures
            r.ports@.len() == 1,
            port_is(r.ports@[0], "message"@, PortDirection::Input, Some("hello"@), ""@),
    {
        let mut ports = PortList::new();
        ports.insert("message", input_port(Some("hello"), ""));
        ports
    }
}

/// The simple form of `SaySomething`: the line said for the message, then success.
pub fn new_say_something_simple(message: &str) -> (r: (String, Result<BehaviorStatus, BehaviorError>))
    ensures
        r.0@ == "Robot2 says: "@ + message@,
        r.1 == ok_status(BehaviorStatus::Success),
{
    (String::from_str("Robot2 says: ").concat(message), Ok(BehaviorStatus::Success))
}

/// Example action `ThinkWhatToSay`, with output port `text`.
#[derive(Debug, Default)]
pub struct ThinkWhatToSay {}

impl ThinkWhatToSay {
    /// The text to write to port `text`, then success.
    pub fn tick(&mut self) -> (r: (String, Result<BehaviorStatus, BehaviorError>))
        ensures
            r.0@ == "The answer is 42"@,
            r.1 == ok_status(BehaviorStatus::Success),
    {
        (String::from_str("The answer is 42"), Ok(BehaviorStatus::Success))
    }

    /// An action.
    pub fn kind() -> (r: BehaviorType)
        ensures
            r == BehaviorType::Action,
    {
        BehaviorType::Action
    }

    /// Output port `text`.
    pub fn provided_ports() -> (r: PortList)
        ensures
            r.ports@.len() == 1,
            port_is(r.ports@[0], "text"@, PortDirection::Output, None, ""@),
    {
        let mut ports = PortList::new();
        ports.insert("text", output_port(""));
        ports
    }
}

/// Example action `CalculateGoal`, with output port `goal`.
#[derive(Debug, Default)]
pub struct CalculateGoal {}

impl CalculateGoal {
    /// Success, once the goal is written.
    pub fn tick(&mut self) -> (r: Result<BehaviorStatus, BehaviorError>)
        ensures
            r == ok_status(BehaviorStatus::Success),
    {
        Ok(BehaviorStatus::Success)
    }

    /// An action.
    pub fn kind() -> (r: BehaviorType)
        ensures
            r == BehaviorType::Action,
    {
        BehaviorType::Action
    }

    /// Output port `goal`.
    pub fn provided_ports() -> (r: PortList)
        ensures
            r.ports@.len() == 1,
            port_is(r.ports@[0], "goal"@, PortDirection::Output, None, ""@),
    {
        let mut ports = PortList::new();
        ports.insert("goal", output_port(""));
        ports
    }
}

/// Example action `PrintTarget`, with input port `target`.
#[derive(Debug, Default)]
pub struct PrintTarget {}

impl PrintTarget {
    /// Success, once the target is printed.
    pub fn tick(&mut self) -> (r: Result<BehaviorStatus, BehaviorError>)
        ensures
            r == ok_status(BehaviorStatus::Success),
    {
        Ok(BehaviorStatus::Success)
    }

    /// An action.
    pub fn kind() -> (r: BehaviorType)
        ensures
            r == BehaviorType::Action,
    {
        BehaviorType::Action
    }

    /// Input port `target`.
    pub fn provided_ports() -> (r: PortList)
        ensures
            r.ports@.len() == 1,
            port_is(r.ports@[0], "target"@, PortDirection::Input, None, ""@),
    {
        let mut ports = PortList::new();
        ports.insert("target", input_port(None, ""));
        ports
    }
}

/// Example asynchronous action `MoveBase`, with input port `goal`: it runs until
/// its completion time has passed since it started.
#[derive(Debug, Default)]
pub struct MoveBaseAction {
    completion_time_ms: u64,
}

impl View for MoveBaseAction {
    type V = u64;

    closed spec fn view(&self) -> u64 {
        self.completion_time_ms
    }
}

impl MoveBaseAction {
    /// Start moving: the move takes 220 ms; running.
    pub fn start(&mut self) -> (r: Result<BehaviorStatus, BehaviorError>)
        ensures
            final(self)@ == 220,
            r == ok_status(BehaviorStatus::Running),
    {
        self.completion_time_ms = 220;
        Ok(BehaviorStatus::Running)
    }

    /// Success once `elapsed_ms` since the start reach the completion time, else running.
    pub fn tick(&mut self, elapsed_ms: u64) -> (r: Result<BehaviorStatus, BehaviorError>)
        ensures
            final(self)@ == old(self)@,
            r == ok_status(
                if elapsed_ms >= old(self)@ { BehaviorStatus::Success } else { BehaviorStatus::Running },
            ),
    {
        if elapsed_ms >= self.completion_time_ms {
            return Ok(BehaviorStatus::Success);
        }
        Ok(BehaviorStatus::Running)
    }

    /// An action.
    pub fn kind() -> (r: BehaviorType)
        ensures
            r == BehaviorType::Action,
    {
        BehaviorType::Action
    }

    /// Input port `goal`.
    pub fn provided_ports() -> (r: PortList)
        ensures
            r.ports@.len() == 1,
            port_is(r.ports@[0], "goal"@, PortDirection::Input, None, ""@),
    {
        let mut ports = PortList::new();
        ports.insert("goal", input_port(None, ""));
        ports
    }
}

} // verus!
