//! Data records for the VPS endpoints, and the exact JSON text of the VPS
//! request bodies.

use crate::json::append_quoted;
use crate::json::dec_str;
use crate::json::fmt_u64;
use crate::json::quoted;
use vstd::prelude::*;
use vstd::string::StringExecFns;

verus! {

/// A power action on a VPS.
#[derive(Debug, Clone, Copy, PartialEq, Eq, Structural)]
pub enum VpsAction {
    Start,
    Stop,
    Restart,
    PowerOff,
}

impl VpsAction {
    /// The action's name on the wire.
    pub open spec fn wire_name(self) -> Seq<char> {
        match self {
            VpsAction::Start => "start"@,
            VpsAction::Stop => "stop"@,
            VpsAction::Restart => "restart"@,
            VpsAction::PowerOff => "poweroff"@,
        }
    }

    /// The action's name on the wire.
    pub fn wire_str(self) -> (r: &'static str)
        ensures
            r@ == self.wire_name(),
    {
        match self {
            VpsAction::Start => "start",
            VpsAction::Stop => "stop",
            VpsAction::Restart => "restart",
            VpsAction::PowerOff => "poweroff",
        }
    }

    /// The JSON body of an action request: `{"action":"<name>"}`.
    pub open spec fn json_text(self) -> Seq<char> {
        "{\"action\":\""@ + self.wire_name() + "\"}"@
    }

    /// Renders the JSON body of an action request.
    pub fn to_json(self) -> (r: String)
        ensures
            r@ == self.json_text(),
    {
        let mut out = String::from_str("{\"action\":\"");
        out.append(self.wire_str());
        out.append("\"}");
        proof {
            assert(out@ =~= self.json_text());
        }
        out
    }
}

/// One backup of a VPS.
#[derive(Debug, Clone, PartialEq, Eq)]
pub struct VpsBackup {
    pub date: String,
    pub file: String,
    pub created_at: u64,
}

/// The payload of a password change request.
#[derive(Debug, Clone, PartialEq, Eq)]
pub struct VpsChangePasswordData {
    pub username: String,
    pub password: String,
}

impl VpsChangePasswordData {
    /// The JSON body of a password change request:
    /// `{"username":<username>,"password":<password>}`.
    pub open spec fn json_text(self) -> Seq<char> {
        "{\"username\":"@ + quoted(self.username@) + ",\"password\":"@ + quoted(self.password@)
            + "}"@
    }

    /// Renders the JSON body of a password change request.
    pub fn to_json(&self) -> (r: String)
        ensures
            r@ == self.json_text(),
    {
        let mut out = String::from_str("{\"username\":");
        append_quoted(&mut out, self.username.as_str());
        out.append(",\"password\":");
        append_quoted(&mut out, self.password.as_str());
        out.append("}");
        proof {
            assert(out@ =~= self.json_text());
        }
        out
    }
}

/// RAM usage of a VPS.
#[derive(Debug, Clone, PartialEq, Eq)]
pub struct VpsRamDetails {
    pub limit: u64,
    pub used: u64,
    pub free: u64,
    pub percent: u32,
}

/// Inode usage of a VPS.
#[derive(Debug, Clone, PartialEq, Eq)]
pub struct VpsInodeDetails {
    pub limit: u64,
    pub used: u64,
    pub free: u64,
    pub percent: u32,
}

/// Configured network speed of a VPS.
#[derive(Debug, Clone, PartialEq, Eq)]
pub struct VpsNetworkSpeedDetails {
    pub network_in: u32,
    pub out: u32,
}

/// Total bandwidth consumption of a VPS.
#[derive(Debug, Clone, PartialEq, Eq)]
pub struct VpsBandwidthOverall {
    pub usage: u64,
    pub bandwidth_in: u64,
    pub out: u64,
}

/// One point of a bandwidth graph.
#[derive(Debug, Clone, PartialEq, Eq)]
pub struct VpsBandwidthGraphPoint {
    pub usage: u64,
    pub bandwidth_in: u64,
    pub out: u64,
}

/// VNC access details of a VPS.
#[derive(Debug, Clone, PartialEq, Eq)]
pub struct VpsVncDetails {
    pub enabled: bool,
    pub ip: String,
    pub port: String,
    pub password: String,
}

/// The operating system installed on a VPS.
#[derive(Debug, Clone, PartialEq, Eq)]
pub struct VpsOsInfo {
    pub name: String,
    pub distro: String,
}

/// Disk usage of a VPS.
#[derive(Debug, Clone, PartialEq, Eq)]
pub struct VpsDiskDetails {
    pub limit: u64,
    pub used: u64,
    pub free: u64,
    pub percent: u32,
}

/// Bandwidth usage of a VPS, totals and per-period series.
#[derive(Debug, Clone, PartialEq, Eq)]
pub struct VpsBandwidthInfo {
    pub total: VpsBandwidthOverall,
    pub usage: Vec<u64>,
    pub bandwidth_in: Vec<u64>,
    pub out: Vec<u64>,
    pub categories: Vec<String>,
}

/// An I/O speed graph.
#[derive(Debug, Clone, PartialEq, Eq)]
pub struct VpsIoSpeed {
    pub read: Vec<u64>,
    pub write: Vec<u64>,
    pub categories: Vec<u64>,
}

/// A network speed graph.
#[derive(Debug, Clone, PartialEq, Eq)]
pub struct VpsNetworkSpeedGraph {
    pub download: Vec<u64>,
    pub upload: Vec<u64>,
    pub categories: Vec<u64>,
}

/// An operating system template a VPS can be reinstalled with.
#[derive(Debug, Clone, PartialEq, Eq)]
pub struct VpsOsTemplate {
    pub id: u32,
    pub name: String,
}

/// The payload of a VPS reinstall request.
#[derive(Debug, Clone, PartialEq, Eq)]
pub struct VpsReinstallData {
    pub password: String,
    pub os_id: u32,
}

impl VpsReinstallData {
    /// The JSON body of a reinstall request:
    /// `{"password":<password>,"osId":<os_id>}`.
    pub open spec fn json_text(self) -> Seq<char> {
        "{\"password\":"@ + quoted(self.password@) + ",\"osId\":"@ + dec_str(self.os_id as nat)
            + "}"@
    }

    /// Renders the JSON body of a reinstall request.
    pub fn to_json(&self) -> (r: String)
        ensures
            r@ == self.json_text(),
    {
        let mut out = String::from_str("{\"password\":");
        append_quoted(&mut out, self.password.as_str());
        out.append(",\"osId\":");
        let os_id = fmt_u64(self.os_id as u64);
        out.append(os_id.as_str());
        out.append("}");
        proof {
            assert(out@ =~= self.json_text());
        }
        out
    }
}

/// One queued or finished task on a VPS.
#[derive(Debug, Clone, PartialEq, Eq)]
pub struct VpsTask {
    pub action: String,
    pub progress: String,
    pub started_at: u64,
    pub ended_at: u64,
}

} // verus!
