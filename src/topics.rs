//! MQTT topic names and their parsing.

use vstd::prelude::*;
use crate::text::{ends_with, owned, starts_with, str_eq};

verus! {

/// End of the topic segment that starts at `i`: the first `/` at or after `i`,
/// or the end of `s`.
pub open spec fn segment_end(s: Seq<char>, i: int) -> int
    decreases s.len() - i,
{
    if i >= s.len() || s[i] == '/' {
        i
    } else {
        segment_end(s, i + 1)
    }
}

proof fn lemma_segment_end(s: Seq<char>, i: int)
    requires
        0 <= i <= s.len(),
    ensures
        i <= segment_end(s, i) <= s.len(),
        forall|j: int| i <= j < segment_end(s, i) ==> s[j] != '/',
        segment_end(s, i) < s.len() ==> s[segment_end(s, i)] == '/',
    decreases s.len() - i,
{
    if i < s.len() && s[i] != '/' {
        lemma_segment_end(s, i + 1);
    }
}

/// The third `/`-separated part of `topic` when it starts with `prefix`
/// (`ajime/<kind>/`), else nothing.
pub open spec fn id_after(topic: Seq<char>, prefix: Seq<char>) -> Option<Seq<char>> {
    if prefix.len() <= topic.len() && topic.subrange(0, prefix.len() as int) == prefix {
        Some(topic.subrange(prefix.len() as int, segment_end(topic, prefix.len() as int)))
    } else {
        None
    }
}

fn parse_id(topic: &str, prefix: &str) -> (r: Option<String>)
    ensures
        match id_after(topic@, prefix@) {
            Some(id) => r is Some && r->0@ == id,
            None => r is None,
        },
{
    if !starts_with(topic, prefix) {
        return None;
    }
    let n = topic.unicode_len();
    let start = prefix.unicode_len();
    let mut i = start;
    proof {
        lemma_segment_end(topic@, start as int);
    }
    while i < n && topic.get_char(i) != '/'
        invariant
            n == topic@.len(),
            start <= i <= n,
            forall|j: int| start <= j < i ==> topic@[j] != '/',
            segment_end(topic@, start as int) >= i,
            i <= segment_end(topic@, start as int) <= n,
            forall|j: int| start <= j < segment_end(topic@, start as int) ==> topic@[j] != '/',
            segment_end(topic@, start as int) < n ==> topic@[segment_end(topic@, start as int)]
                == '/',
        decreases n - i,
    {
        i = i + 1;
    }
    assert(i == segment_end(topic@, start as int));
    Some(owned(topic.substring_char(start, i)))
}

/// MQTT topic patterns.
pub struct Topics;

impl Topics {
    /// `ajime/device/{device_id}/command`
    pub fn device_command(device_id: &str) -> (r: String)
        ensures
            r@ == "ajime/device/"@ + device_id@ + "/command"@,
    {
        owned("ajime/device/").concat(device_id).concat("/command")
    }

    /// `ajime/device/{device_id}/status`
    pub fn device_status(device_id: &str) -> (r: String)
        ensures
            r@ == "ajime/device/"@ + device_id@ + "/status"@,
    {
        owned("ajime/device/").concat(device_id).concat("/status")
    }

    /// `ajime/device/{device_id}/telemetry`
    pub fn device_telemetry(device_id: &str) -> (r: String)
        ensures
            r@ == "ajime/device/"@ + device_id@ + "/telemetry"@,
    {
        owned("ajime/device/").concat(device_id).concat("/telemetry")
    }

    /// `ajime/workflow/{workflow_id}/control`
    pub fn workflow_control(workflow_id: &str) -> (r: String)
        ensures
            r@ == "ajime/workflow/"@ + workflow_id@ + "/control"@,
    {
        owned("ajime/workflow/").concat(workflow_id).concat("/control")
    }

    /// `ajime/workflow/{workflow_id}/status`
    pub fn workflow_status(workflow_id: &str) -> (r: String)
        ensures
            r@ == "ajime/workflow/"@ + workflow_id@ + "/status"@,
    {
        owned("ajime/workflow/").concat(workflow_id).concat("/status")
    }

    /// The device id of an `ajime/device/{id}/...` topic.
    pub fn parse_device_id(topic: &str) -> (r: Option<String>)
        ensures
            match id_after(topic@, "ajime/device/"@) {
                Some(id) => r is Some && r->0@ == id,
                None => r is None,
            },
    {
        parse_id(topic, "ajime/device/")
    }

    /// The workflow id of an `ajime/workflow/{id}/...` topic.
    pub fn parse_workflow_id(topic: &str) -> (r: Option<String>)
        ensures
            match id_after(topic@, "ajime/workflow/"@) {
                Some(id) => r is Some && r->0@ == id,
                None => r is None,
            },
    {
        parse_id(topic, "ajime/workflow/")
    }

    /// True when the topic ends with `/command`.
    pub fn is_command_topic(topic: &str) -> (r: bool)
        ensures
            r == ("/command"@.len() <= topic@.len() && topic@.subrange(
                topic@.len() - "/command"@.len(),
                topic@.len() as int,
            ) == "/command"@),
    {
        ends_with(topic, "/command")
    }

    /// True when the topic ends with `/control`.
    pub fn is_control_topic(topic: &str) -> (r: bool)
        ensures
            r == ("/control"@.len() <= topic@.len() && topic@.subrange(
                topic@.len() - "/control"@.len(),
                topic@.len() as int,
            ) == "/control"@),
    {
        ends_with(topic, "/control")
    }
}

/// Where a broker message goes.
#[derive(Debug, Clone, PartialEq, Eq)]
pub enum TopicRoute {
    /// A device command.
    Command,
    /// A control message for the named workflow.
    Control(String),
    /// Neither.
    Ignored,
}

/// Routes a broker message by topic: command topics first, then control topics
/// that name a workflow.
pub fn route_topic(topic: &str) -> (r: TopicRoute)
    ensures
        ("/command"@.len() <= topic@.len() && topic@.subrange(
            topic@.len() - "/command"@.len(),
            topic@.len() as int,
        ) == "/command"@) ==> r is Command,
        !("/command"@.len() <= topic@.len() && topic@.subrange(
            topic@.len() - "/command"@.len(),
            topic@.len() as int,
        ) == "/command"@) ==> (if ("/control"@.len() <= topic@.len() && topic@.subrange(
            topic@.len() - "/control"@.len(),
            topic@.len() as int,
        ) == "/control"@) {
            match id_after(topic@, "ajime/workflow/"@) {
                Some(id) => r is Control && r->Control_0@ == id,
                None => r is Ignored,
            }
        } else {
            r is Ignored
        }),
{
    if Topics::is_command_topic(topic) {
        TopicRoute::Command
    } else if Topics::is_control_topic(topic) {
        match Topics::parse_workflow_id(topic) {
            Some(id) => TopicRoute::Control(id),
            None => TopicRoute::Ignored,
        }
    } else {
        TopicRoute::Ignored
    }
}

/// Device commands received over the broker.
#[derive(Debug, Clone, Copy, PartialEq, Eq, Structural)]
pub enum DeviceCommand {
    Sync,
    Restart,
    UpdateSettings,
    Unknown,
}

/// The device command named `name`.
pub fn device_command_kind(name: &str) -> (r: DeviceCommand)
    ensures
        r == (if name@ == "sync"@ {
            DeviceCommand::Sync
        } else if name@ == "restart"@ {
            DeviceCommand::Restart
        } else if name@ == "update_settings"@ {
            DeviceCommand::UpdateSettings
        } else {
            DeviceCommand::Unknown
        }),
{
    if str_eq(name, "sync") {
        DeviceCommand::Sync
    } else if str_eq(name, "restart") {
        DeviceCommand::Restart
    } else if str_eq(name, "update_settings") {
        DeviceCommand::UpdateSettings
    } else {
        DeviceCommand::Unknown
    }
}

/// Workflow control commands received over the broker.
#[derive(Debug, Clone, Copy, PartialEq, Eq, Structural)]
pub enum WorkflowControl {
    Start,
    Stop,
    Pause,
    Resume,
    Unknown,
}

/// The workflow control command named `name`.
pub fn workflow_control_kind(name: &str) -> (r: WorkflowControl)
    ensures
        r == (if name@ == "start"@ {
            WorkflowControl::Start
        } else if name@ == "stop"@ {
            WorkflowControl::Stop
        } else if name@ == "pause"@ {
            WorkflowControl::Pause
        } else if name@ == "resume"@ {
            WorkflowControl::Resume
        } else {
            WorkflowControl::Unknown
        }),
{
    if str_eq(name, "start") {
        WorkflowControl::Start
    } else if str_eq(name, "stop") {
        WorkflowControl::Stop
    } else if str_eq(name, "pause") {
        WorkflowControl::Pause
    } else if str_eq(name, "resume") {
        WorkflowControl::Resume
    } else {
        WorkflowControl::Unknown
    }
}

} // verus!
