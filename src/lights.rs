//! The decisions around the lighting bridge: the order in which every light is
//! sent a command, how failures end the process, and how the registration of a
//! new user waits for the bridge's link button.
use vstd::prelude::*;
use crate::color::LightCommand;

verus! {

/// Milliseconds to wait after each light is sent a command.
pub const LIGHT_PAUSE_MS: u64 = 50;

/// Exit status of the process when the bridge cannot be found or its lights
/// cannot be listed.
pub const LIGHTING_EXIT_CODE: i32 = 2;

/// Error code by which the bridge says that its link button has not been
/// pressed.
pub const LINK_BUTTON_NOT_PRESSED: usize = 101;

/// Seconds to wait before asking the bridge again to register a user.
pub const REGISTER_POLL_SECS: u64 = 5;

/// One step of pushing a command to every light.
#[derive(Clone, Copy, Debug, PartialEq, Eq, Structural)]
pub enum LightStep {
    /// Send `command` to the light with id `id`.
    Send { id: usize, command: LightCommand },
    /// Wait this many milliseconds.
    Pause(u64),
}

/// Sends `command` to each light in turn, each send followed by a pause of
/// `pause_ms`.
pub open spec fn light_plan_spec(ids: Seq<usize>, command: LightCommand, pause_ms: u64) -> Seq<
    LightStep,
>
    decreases ids.len(),
{
    if ids.len() == 0 {
        Seq::empty()
    } else {
        light_plan_spec(ids.drop_last(), command, pause_ms).push(
            LightStep::Send { id: ids.last(), command },
        ).push(LightStep::Pause(pause_ms))
    }
}

/// The plan for `ids` sends the same command exactly once to each light, in
/// the order of `ids`, and follows each send with the pause: it holds nothing
/// else.
pub proof fn lemma_light_plan_shape(ids: Seq<usize>, command: LightCommand, pause_ms: u64)
    ensures
        light_plan_spec(ids, command, pause_ms).len() == 2 * ids.len(),
        forall|i: int|
            0 <= i < ids.len() ==> light_plan_spec(ids, command, pause_ms)[2 * i]
                == (LightStep::Send { id: ids[i], command }) && light_plan_spec(
                ids,
                command,
                pause_ms,
            )[2 * i + 1] == LightStep::Pause(pause_ms),
    decreases ids.len(),
{
    if ids.len() > 0 {
        let prev = ids.drop_last();
        lemma_light_plan_shape(prev, command, pause_ms);
        let p = light_plan_spec(prev, command, pause_ms);
        let q = light_plan_spec(ids, command, pause_ms);
        assert forall|i: int| 0 <= i < ids.len() implies q[2 * i] == (LightStep::Send { id: ids[i], command })
            && q[2 * i + 1] == LightStep::Pause(pause_ms) by {
            if i < prev.len() {
                assert(q[2 * i] == p[2 * i]);
                assert(q[2 * i + 1] == p[2 * i + 1]);
                assert(prev[i] == ids[i]);
            }
        }
    }
}

/// The steps that push `command` to the lights `ids`: one send to each, in
/// the order given, each followed by a pause of `pause_ms` milliseconds.
pub fn light_plan(ids: &Vec<usize>, command: LightCommand, pause_ms: u64) -> (plan: Vec<
    LightStep,
>)
    requires
        2 * ids@.len() <= usize::MAX,
    ensures
        plan@ == light_plan_spec(ids@, command, pause_ms),
        plan@.len() == 2 * ids@.len(),
        forall|i: int|
            0 <= i < ids@.len() ==> plan@[2 * i] == (LightStep::Send { id: ids@[i], command })
                && plan@[2 * i + 1] == LightStep::Pause(pause_ms),
{
    let mut plan: Vec<LightStep> = Vec::new();
    let mut k: usize = 0;
    while k < ids.len()
        invariant
            k <= ids@.len(),
            plan@ == light_plan_spec(ids@.subrange(0, k as int), command, pause_ms),
        decreases ids@.len() - k,
    {
        proof {
            assert(ids@.subrange(0, k + 1).drop_last() == ids@.subrange(0, k as int));
        }
        plan.push(LightStep::Send { id: ids[k], command });
        plan.push(LightStep::Pause(pause_ms));
        k = k + 1;
    }
    proof {
        assert(ids@.subrange(0, ids@.len() as int) == ids@);
        lemma_light_plan_shape(ids@, command, pause_ms);
    }
    plan
}

/// A failure to reach the bridge or to list its lights.
#[derive(Clone, Copy, Debug, PartialEq, Eq, Structural)]
pub enum LightError {
    /// No bridge was found on the network.
    Discovery,
    /// The bridge did not list its lights.
    Listing,
}

impl LightError {
    /// The exit status with which the process ends on this failure.
    pub fn exit_code(&self) -> (r: i32)
        ensures
            r == LIGHTING_EXIT_CODE,
    {
        match self {
            LightError::Discovery => LIGHTING_EXIT_CODE,
            LightError::Listing => LIGHTING_EXIT_CODE,
        }
    }
}

/// What the bridge answered to a request to register a user.
#[derive(Clone, Copy, Debug, PartialEq, Eq, Structural)]
pub enum RegisterReply {
    /// The user was registered.
    Registered,
    /// The bridge refused with this error code.
    BridgeError(usize),
    /// The request failed otherwise.
    Failed,
}

/// What to do after a reply to a registration request.
#[derive(Clone, Copy, Debug, PartialEq, Eq, Structural)]
pub enum RegisterAction {
    /// Report the new user and stop.
    Done,
    /// Ask the user to press the link button, wait `wait_secs`, and retry.
    Retry { wait_secs: u64 },
    /// Give up with the error.
    Abort,
}

/// Registration is retried, after `poll_secs`, only while the link button has
/// not been pressed; it ends on success and gives up on any other error.
pub open spec fn register_action_spec(reply: RegisterReply, poll_secs: u64) -> RegisterAction {
    match reply {
        RegisterReply::Registered => RegisterAction::Done,
        RegisterReply::BridgeError(code) => if code == LINK_BUTTON_NOT_PRESSED {
            RegisterAction::Retry { wait_secs: poll_secs }
        } else {
            RegisterAction::Abort
        },
        RegisterReply::Failed => RegisterAction::Abort,
    }
}

/// Decides what follows a reply to a registration request.
pub fn register_action(reply: RegisterReply, poll_secs: u64) -> (a: RegisterAction)
    ensures
        a == register_action_spec(reply, poll_secs),
{
    match reply {
        RegisterReply::Registered => RegisterAction::Done,
        RegisterReply::BridgeError(code) => if code == LINK_BUTTON_NOT_PRESSED {
            RegisterAction::Retry { wait_secs: poll_secs }
        } else {
            RegisterAction::Abort
        },
        RegisterReply::Failed => RegisterAction::Abort,
    }
}

/// The device type given on a command line of exactly one argument after the
/// program's name.
pub fn device_type(args: &Vec<String>) -> (r: Option<String>)
    ensures
        r is Some <==> args@.len() == 2,
        r is Some ==> r->Some_0@ == args@[1]@,
{
    if args.len() == 2 {
        Some(args[1].clone())
    } else {
        None
    }
}

} // verus!
