//! Data records for the firewall endpoints and the exact JSON text of their
//! request bodies.

use crate::json::append_bool;
use crate::json::append_quoted;
use crate::json::bool_text;
use crate::json::dec_str;
use crate::json::fmt_u64;
use crate::json::quoted;
use vstd::prelude::*;
use vstd::string::StringExecFns;

verus! {

/// How the owner is notified of an attack.
#[derive(Debug, Clone, PartialEq, Eq)]
pub struct AttackNotificationSettings {
    pub email_notification: bool,
    pub discord_webhook_url: Option<String>,
}

impl AttackNotificationSettings {
    /// The JSON body of a notification settings update:
    /// `{"emailNotification":<flag>}`, with `"discordWebhookUrl"` appended
    /// only when a webhook is set.
    pub open spec fn json_text(self) -> Seq<char> {
        "{\"emailNotification\":"@ + bool_text(self.email_notification) + (
        if self.discord_webhook_url is Some {
            ",\"discordWebhookUrl\":"@ + quoted((self.discord_webhook_url->0)@)
        } else {
            Seq::<char>::empty()
        }) + "}"@
    }

    /// Renders the JSON body of a notification settings update.
    pub fn to_json(&self) -> (r: String)
        ensures
            r@ == self.json_text(),
    {
        let mut out = String::from_str("{\"emailNotification\":");
        append_bool(&mut out, self.email_notification);
        if let Some(url) = &self.discord_webhook_url {
            out.append(",\"discordWebhookUrl\":");
            append_quoted(&mut out, url.as_str());
        }
        out.append("}");
        proof {
            assert(out@ =~= self.json_text());
        }
        out
    }
}

/// One recorded attack on an IP.
#[derive(Debug, Clone, PartialEq, Eq)]
pub struct FirewallAttackLog {
    pub started_at: u64,
    pub ended_at: u64,
    pub vectors: Vec<String>,
    pub peak: u64,
}

/// The reverse DNS entry of an IP.
#[derive(Debug, Clone, PartialEq, Eq)]
pub struct FirewallReverseDns {
    pub rdns: Option<String>,
}

impl FirewallReverseDns {
    /// The JSON body of a reverse DNS update: `{"rdns":<name>}`, or `{}`
    /// when no name is set.
    pub open spec fn json_text(self) -> Seq<char> {
        if self.rdns is Some {
            "{\"rdns\":"@ + quoted((self.rdns->0)@) + "}"@
        } else {
            "{}"@
        }
    }

    /// Renders the JSON body of a reverse DNS update.
    pub fn to_json(&self) -> (r: String)
        ensures
            r@ == self.json_text(),
    {
        match &self.rdns {
            Some(name) => {
                let mut out = String::from_str("{\"rdns\":");
                append_quoted(&mut out, name.as_str());
                out.append("}");
                proof {
                    assert(out@ =~= self.json_text());
                }
                out
            },
            None => String::from_str("{}"),
        }
    }
}

/// One firewall rule on an IP.
#[derive(Debug, Clone, PartialEq, Eq)]
pub struct FirewallRule {
    pub id: u32,
    pub protocol: String,
    pub service: String,
    pub port: u16,
}

/// The payload of a rule creation request.
#[derive(Debug, Clone, PartialEq, Eq)]
pub struct FirewallCreateRuleData {
    pub port: u16,
    pub app_id: u32,
}

impl FirewallCreateRuleData {
    /// The JSON body of a rule creation request:
    /// `{"port":<port>,"appId":<app_id>}`.
    pub open spec fn json_text(self) -> Seq<char> {
        "{\"port\":"@ + dec_str(self.port as nat) + ",\"appId\":"@ + dec_str(self.app_id as nat)
            + "}"@
    }

    /// Renders the JSON body of a rule creation request.
    pub fn to_json(&self) -> (r: String)
        ensures
            r@ == self.json_text(),
    {
        let mut out = String::from_str("{\"port\":");
        let port = fmt_u64(self.port as u64);
        out.append(port.as_str());
        out.append(",\"appId\":");
        let app_id = fmt_u64(self.app_id as u64);
        out.append(app_id.as_str());
        out.append("}");
        proof {
            assert(out@ =~= self.json_text());
        }
        out
    }
}

/// Traffic through the firewall at one point in time.
#[derive(Debug, Clone, PartialEq, Eq)]
pub struct FirewallStatistics {
    pub timestamp: String,
    pub total_pass_traffic: String,
    pub total_drop_traffic: String,
}

} // verus!
