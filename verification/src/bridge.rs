//! Rules that map camera events to published messages and received
//! messages to camera commands.
use vstd::prelude::*;
use crate::config::CameraConfig;
use crate::text::str_eq;

verus! {

/// What travels between the camera side and the messaging side.
#[derive(Clone, Copy, Debug, PartialEq, Eq, Structural)]
pub enum Messages {
    /// The camera has logged in.
    Login,
    /// Motion is no longer detected.
    MotionStop,
    /// Motion has been detected.
    MotionStart,
    /// Restart the camera.
    Reboot,
    /// Switch the status light on.
    StatusLedOn,
    /// Switch the status light off.
    StatusLedOff,
    /// Switch the infrared lights on.
    IRLedOn,
    /// Switch the infrared lights off.
    IRLedOff,
    /// Let the camera decide about the infrared lights.
    IRLedAuto,
}

/// One message to publish: sub-topic, payload and the retain flag.
#[derive(Clone, Copy, Debug)]
pub struct Publication {
    pub topic: &'static str,
    pub payload: &'static str,
    pub retain: bool,
}

/// A publication as plain values.
pub struct PublicationView {
    pub topic: Seq<char>,
    pub payload: Seq<char>,
    pub retain: bool,
}

impl View for Publication {
    type V = PublicationView;

    open spec fn view(&self) -> PublicationView {
        PublicationView { topic: self.topic@, payload: self.payload@, retain: self.retain }
    }
}

/// The publication that a camera event calls for, if any: a login reports
/// the status as connected, motion start and stop report the motion status,
/// and every publication is retained. Commands are not events and publish
/// nothing.
pub open spec fn spec_publication_for(msg: Messages) -> Option<PublicationView> {
    match msg {
        Messages::Login => Some(
            PublicationView { topic: "status"@, payload: "connected"@, retain: true },
        ),
        Messages::MotionStop => Some(
            PublicationView { topic: "status/motion"@, payload: "off"@, retain: true },
        ),
        Messages::MotionStart => Some(
            PublicationView { topic: "status/motion"@, payload: "on"@, retain: true },
        ),
        _ => None,
    }
}

/// The view of an optional publication.
pub open spec fn publication_view(p: Option<Publication>) -> Option<PublicationView> {
    match p {
        Some(p) => Some(p@),
        None => None,
    }
}

/// Decides what to publish for an event that the camera reported.
pub fn publication_for(msg: Messages) -> (out: Option<Publication>)
    ensures
        publication_view(out) == spec_publication_for(msg),
{
    match msg {
        Messages::Login => Some(
            Publication { topic: "status", payload: "connected", retain: true },
        ),
        Messages::MotionStop => Some(
            Publication { topic: "status/motion", payload: "off", retain: true },
        ),
        Messages::MotionStart => Some(
            Publication { topic: "status/motion", payload: "on", retain: true },
        ),
        _ => None,
    }
}

/// The camera command that a received message stands for, if any. The
/// status light takes `on` and `off`, the infrared lights take `on`, `off`
/// and `auto`, and a message on the reboot topic restarts the camera
/// whatever its payload.
pub open spec fn spec_command_for(topic: Seq<char>, message: Seq<char>) -> Option<Messages> {
    if topic == "control/led"@ {
        if message == "on"@ {
            Some(Messages::StatusLedOn)
        } else if message == "off"@ {
            Some(Messages::StatusLedOff)
        } else {
            None
        }
    } else if topic == "control/ir"@ {
        if message == "on"@ {
            Some(Messages::IRLedOn)
        } else if message == "off"@ {
            Some(Messages::IRLedOff)
        } else if message == "auto"@ {
            Some(Messages::IRLedAuto)
        } else {
            None
        }
    } else if topic == "control/reboot"@ {
        Some(Messages::Reboot)
    } else {
        None
    }
}

/// Decides which command, if any, a received message asks of the camera.
pub fn command_for(topic: &str, message: &str) -> (out: Option<Messages>)
    ensures
        out == spec_command_for(topic@, message@),
{
    if str_eq(topic, "control/led") {
        if str_eq(message, "on") {
            Some(Messages::StatusLedOn)
        } else if str_eq(message, "off") {
            Some(Messages::StatusLedOff)
        } else {
            None
        }
    } else if str_eq(topic, "control/ir") {
        if str_eq(message, "on") {
            Some(Messages::IRLedOn)
        } else if str_eq(message, "off") {
            Some(Messages::IRLedOff)
        } else if str_eq(message, "auto") {
            Some(Messages::IRLedAuto)
        } else {
            None
        }
    } else if str_eq(topic, "control/reboot") {
        Some(Messages::Reboot)
    } else {
        None
    }
}

/// Whether a message is an event that the camera reports, as opposed to a
/// command that it receives.
pub open spec fn is_event(msg: Messages) -> bool {
    msg == Messages::Login || msg == Messages::MotionStop || msg == Messages::MotionStart
}

/// Events are published and commands are received, never the other way
/// round: every event has a publication, no command has one, and no
/// received message stands for an event.
pub proof fn lemma_events_and_commands_are_disjoint(
    msg: Messages,
    topic: Seq<char>,
    message: Seq<char>,
)
    ensures
        spec_publication_for(msg).is_some() <==> is_event(msg),
        spec_command_for(topic, message) matches Some(cmd) ==> !is_event(cmd),
{
}


/// Whether `i` names a camera that is bridged to a message broker.
pub open spec fn is_bridged(cameras: Seq<CameraConfig>, i: int) -> bool {
    0 <= i < cameras.len() && cameras[i].mqtt.is_some()
}

/// Picks the cameras to bridge: the positions, in ascending order, of the
/// cameras that have broker settings. An empty result means that there is
/// nothing to run.
pub fn bridged_cameras(cameras: &Vec<CameraConfig>) -> (chosen: Vec<usize>)
    ensures
        forall|k: int| 0 <= k < chosen.len() ==> is_bridged(cameras@, #[trigger] chosen[k] as int),
        forall|j: int, k: int| 0 <= j < k < chosen.len() ==> chosen[j] < chosen[k],
        forall|i: int| is_bridged(cameras@, i) ==> chosen@.contains(i as usize),
{
    let mut chosen: Vec<usize> = Vec::new();
    let mut i: usize = 0;
    while i < cameras.len()
        invariant
            i <= cameras.len(),
            forall|k: int|
                0 <= k < chosen.len() ==> is_bridged(cameras@, #[trigger] chosen[k] as int),
            forall|k: int| 0 <= k < chosen.len() ==> #[trigger] chosen[k] < i,
            forall|j: int, k: int| 0 <= j < k < chosen.len() ==> chosen[j] < chosen[k],
            forall|c: int| is_bridged(cameras@, c) && c < i ==> chosen@.contains(c as usize),
        decreases cameras.len() - i,
    {
        if cameras[i].mqtt.is_some() {
            let ghost before = chosen@;
            chosen.push(i);
            proof {
                assert(chosen@[before.len() as int] == i);
                assert forall|c: int| is_bridged(cameras@, c) && c < i + 1 implies chosen@.contains(
                    c as usize,
                ) by {
                    if c < i {
                        let k = choose|k: int| 0 <= k < before.len() && before[k] == c as usize;
                        assert(chosen@[k] == c as usize);
                    }
                }
            }
        }
        i = i + 1;
    }
    chosen
}

} // verus!
