//! Data records for the dedicated server endpoints, the exact JSON text of
//! their request bodies, and the numeric wire code of the reinstall step.

use crate::json::append_quoted;
use crate::json::dec_str;
use crate::json::fmt_u64;
use crate::json::quoted;
use vstd::prelude::*;
use vstd::string::StringExecFns;

verus! {

/// A power action on a dedicated server.
#[derive(Debug, Clone, Copy, PartialEq, Eq, Structural)]
pub enum DedicatedServerAction {
    Start,
    Stop,
    Restart,
}

impl DedicatedServerAction {
    /// The action's name on the wire.
    pub open spec fn wire_name(self) -> Seq<char> {
        match self {
            DedicatedServerAction::Start => "setPowerOn"@,
            DedicatedServerAction::Stop => "setPowerOff"@,
            DedicatedServerAction::Restart => "setPowerReset"@,
        }
    }

    /// The action's name on the wire.
    pub fn wire_str(self) -> (r: &'static str)
        ensures
            r@ == self.wire_name(),
    {
        match self {
            DedicatedServerAction::Start => "setPowerOn",
            DedicatedServerAction::Stop => "setPowerOff",
            DedicatedServerAction::Restart => "setPowerReset",
        }
    }

    /// The JSON body of an action request: `{"action":"<name>"}`.
    pub open spec fn json_text(self) -> Seq<char> {
        "{\"action\":\""@ + self.wire_name() + "\"}"@
    }

    /// Renders the JSON body of an action request.
    pub fn to_json(self) -> (r: String)
        ensures
            r@ == self.json_text(),
    {
        let mut out = String::from_str("{\"action\":\"");
        out.append(self.wire_str());
        out.append("\"}");
        proof {
            assert(out@ =~= self.json_text());
        }
        out
    }
}

/// CPU details of a dedicated server.
#[derive(Debug, Clone, PartialEq, Eq)]
pub struct DedicatedServerCpuDetails {
    pub model: String,
    pub speed: u32,
    pub turbo_speed: u32,
    pub cores: u8,
    pub threads: u8,
}

/// Details of a dedicated server.
#[derive(Debug, Clone, PartialEq, Eq)]
pub struct DedicatedServerDetails {
    pub dedicated_id: String,
    pub status: bool,
    pub available_actions: Vec<DedicatedServerAction>,
    pub mainboard: String,
    pub ram: u32,
    pub disk: u32,
    pub cpu: DedicatedServerCpuDetails,
}

/// An operating system template a dedicated server can be reinstalled with.
#[derive(Debug, Clone, PartialEq, Eq)]
pub struct DedicatedServerOsTemplate {
    pub id: u32,
    pub name: String,
}

/// The payload of a dedicated server reinstall request.
#[derive(Debug, Clone, PartialEq, Eq)]
pub struct DedicatedServerReinstallData {
    pub password: String,
    pub os_id: u32,
}

impl DedicatedServerReinstallData {
    /// The JSON body of a reinstall request:
    /// `{"password":<password>,"osId":<os_id>}`.
    pub open spec fn json_text(self) -> Seq<char> {
        "{\"password\":"@ + quoted(self.password@) + ",\"osId\":"@ + dec_str(self.os_id as nat)
            + "}"@
    }

    /// Renders the JSON body of a reinstall request.
    pub fn to_json(&self) -> (r: String)
        ensures
            r@ == self.json_text(),
    {
        let mut out = String::from_str("{\"password\":");
        append_quoted(&mut out, self.password.as_str());
        out.append(",\"osId\":");
        let os_id = fmt_u64(self.os_id as u64);
        out.append(os_id.as_str());
        out.append("}");
        proof {
            assert(out@ =~= self.json_text());
        }
        out
    }
}

/// One queued or finished task on a dedicated server.
#[derive(Debug, Clone, PartialEq, Eq)]
pub struct DedicatedServerTask {
    pub action: String,
    pub started_at: u64,
    pub updated_at: u64,
}

/// One hardware component of a dedicated server.
#[derive(Debug, Clone, PartialEq, Eq)]
pub struct DedicatedServerHardwareComponent {
    pub component: String,
    pub model: String,
    pub value: u32,
    pub value_suffix: String,
}

/// The stage a dedicated server reinstallation is in.  On the wire it is a
/// numeric code; see [`Self::try_from`] and [`Self::code`].
#[derive(Debug, Clone, Copy, PartialEq, Eq, Structural)]
pub enum DedicatedServerReinstallStep {
    RebootingServer,
    PreparingBootEnvironment,
    InstallingOperatingSystem,
    InstallationCompleted,
}

/// The numeric wire code of a reinstall step.
pub open spec fn spec_step_code(step: DedicatedServerReinstallStep) -> u8 {
    match step {
        DedicatedServerReinstallStep::RebootingServer => 0,
        DedicatedServerReinstallStep::PreparingBootEnvironment => 1,
        DedicatedServerReinstallStep::InstallingOperatingSystem => 2,
        DedicatedServerReinstallStep::InstallationCompleted => 3,
    }
}

/// The reinstall step a numeric wire code stands for, if any.
pub open spec fn spec_step_of_code(value: u8) -> Option<DedicatedServerReinstallStep> {
    if value == 0 {
        Some(DedicatedServerReinstallStep::RebootingServer)
    } else if value == 1 {
        Some(DedicatedServerReinstallStep::PreparingBootEnvironment)
    } else if value == 2 {
        Some(DedicatedServerReinstallStep::InstallingOperatingSystem)
    } else if value == 3 {
        Some(DedicatedServerReinstallStep::InstallationCompleted)
    } else {
        None
    }
}

impl DedicatedServerReinstallStep {
    /// Decodes a numeric wire code; codes above three are rejected.
    pub fn try_from(value: u8) -> (r: Result<Self, &'static str>)
        ensures
            spec_step_of_code(value) is Some ==> r == Ok::<Self, &'static str>(spec_step_of_code(
                value,
            )->0),
            spec_step_of_code(value) is None ==> r is Err,
    {
        match value {
            0 => Ok(DedicatedServerReinstallStep::RebootingServer),
            1 => Ok(DedicatedServerReinstallStep::PreparingBootEnvironment),
            2 => Ok(DedicatedServerReinstallStep::InstallingOperatingSystem),
            3 => Ok(DedicatedServerReinstallStep::InstallationCompleted),
            _ => Err("unknown DedicatedServerReinstallStep data"),
        }
    }

    /// Encodes the step as its numeric wire code.
    pub fn code(self) -> (r: u8)
        ensures
            r == spec_step_code(self),
    {
        match self {
            DedicatedServerReinstallStep::RebootingServer => 0,
            DedicatedServerReinstallStep::PreparingBootEnvironment => 1,
            DedicatedServerReinstallStep::InstallingOperatingSystem => 2,
            DedicatedServerReinstallStep::InstallationCompleted => 3,
        }
    }
}

/// Encoding a reinstall step and decoding the code gives the step back.
pub proof fn lemma_step_code_round_trip(step: DedicatedServerReinstallStep)
    ensures
        spec_step_of_code(spec_step_code(step)) == Some(step),
{
}

/// Decoding a valid wire code and encoding the step gives the code back.
pub proof fn lemma_step_decode_round_trip(value: u8)
    ensures
        spec_step_of_code(value) is Some ==> spec_step_code(spec_step_of_code(value)->0) == value,
{
}

/// Where a dedicated server reinstallation stands.
#[derive(Debug, Clone, PartialEq, Eq)]
pub struct DedicatedServerReinstallStatus {
    pub completed: bool,
    pub step: DedicatedServerReinstallStep,
}

} // verus!
