//! The firewall facade: one method per firewall endpoint, each describing
//! exactly one request.

use crate::client::NodestyApiClient;
use crate::http::HttpMethod;
use crate::http::HttpRequest;
use crate::json::dec_str;
use crate::json::fmt_u64;
use crate::models::firewall::AttackNotificationSettings;
use crate::models::firewall::FirewallCreateRuleData;
use crate::models::firewall::FirewallReverseDns;
use vstd::prelude::*;
use vstd::string::StringExecFns;

verus! {

/// The path prefix shared by every firewall endpoint of one IP of one
/// service.
pub open spec fn firewall_prefix(service_id: Seq<char>, ip: Seq<char>) -> Seq<char> {
    "/services/"@ + service_id + "/firewall/"@ + ip
}

/// Builds a firewall endpoint path: the shared prefix with `tail` appended.
fn firewall_path(service_id: &str, ip: &str, tail: &str) -> (r: String)
    ensures
        r@ == firewall_prefix(service_id@, ip@) + tail@,
{
    let mut path = String::from_str("/services/");
    path.append(service_id);
    path.append("/firewall/");
    path.append(ip);
    path.append(tail);
    proof {
        assert(path@ =~= firewall_prefix(service_id@, ip@) + tail@);
    }
    path
}

/// Endpoint methods for the firewall of one service's IPs.
#[derive(Debug, Clone)]
pub struct FirewallApiService {
    pub client: NodestyApiClient,
}

impl FirewallApiService {
    pub fn new(client: NodestyApiClient) -> (r: Self)
        ensures
            r.client == client,
    {
        Self { client }
    }

    /// `GET /services/{serviceId}/firewall/{ip}/attack-logs`: recorded
    /// attacks on the IP.
    pub fn get_attack_logs(&self, service_id: &str, ip: &str) -> (r: HttpRequest)
        ensures
            self.client.sends(
                r,
                HttpMethod::Get,
                firewall_prefix(service_id@, ip@) + "/attack-logs"@,
            ),
            r.body is None,
    {
        let path = firewall_path(service_id, ip, "/attack-logs");
        self.client.prepare_request(HttpMethod::Get, path.as_str(), None)
    }

    /// `GET /services/{serviceId}/firewall/{ip}/attack-notification`: how
    /// attacks on the IP are notified.
    pub fn get_attack_notification_settings(&self, service_id: &str, ip: &str) -> (r: HttpRequest)
        ensures
            self.client.sends(
                r,
                HttpMethod::Get,
                firewall_prefix(service_id@, ip@) + "/attack-notification"@,
            ),
            r.body is None,
    {
        let path = firewall_path(service_id, ip, "/attack-notification");
        self.client.prepare_request(HttpMethod::Get, path.as_str(), None)
    }

    /// `PUT /services/{serviceId}/firewall/{ip}/attack-notification`:
    /// replaces how attacks on the IP are notified.
    pub fn update_attack_notification_settings(
        &self,
        service_id: &str,
        ip: &str,
        data: AttackNotificationSettings,
    ) -> (r: HttpRequest)
        ensures
            self.client.sends(
                r,
                HttpMethod::Put,
                firewall_prefix(service_id@, ip@) + "/attack-notification"@,
            ),
            r.body is Some && (r.body->0)@ == data.json_text(),
    {
        let body = data.to_json();
        let path = firewall_path(service_id, ip, "/attack-notification");
        self.client.prepare_request(HttpMethod::Put, path.as_str(), Some(body))
    }

    /// `DELETE /services/{serviceId}/firewall/{ip}/rdns`: clears the IP's
    /// reverse DNS entry.
    pub fn reset_reverse_dns(&self, service_id: &str, ip: &str) -> (r: HttpRequest)
        ensures
            self.client.sends(r, HttpMethod::Delete, firewall_prefix(service_id@, ip@) + "/rdns"@),
            r.body is None,
    {
        let path = firewall_path(service_id, ip, "/rdns");
        self.client.prepare_request(HttpMethod::Delete, path.as_str(), None)
    }

    /// `GET /services/{serviceId}/firewall/{ip}/rdns`: the IP's reverse DNS
    /// entry.
    pub fn get_reverse_dns(&self, service_id: &str, ip: &str) -> (r: HttpRequest)
        ensures
            self.client.sends(r, HttpMethod::Get, firewall_prefix(service_id@, ip@) + "/rdns"@),
            r.body is None,
    {
        let path = firewall_path(service_id, ip, "/rdns");
        self.client.prepare_request(HttpMethod::Get, path.as_str(), None)
    }

    /// `PUT /services/{serviceId}/firewall/{ip}/rdns`: sets the IP's reverse
    /// DNS entry.
    pub fn upsert_reverse_dns(&self, service_id: &str, ip: &str, data: FirewallReverseDns) -> (r:
        HttpRequest)
        ensures
            self.client.sends(r, HttpMethod::Put, firewall_prefix(service_id@, ip@) + "/rdns"@),
            r.body is Some && (r.body->0)@ == data.json_text(),
    {
        let body = data.to_json();
        let path = firewall_path(service_id, ip, "/rdns");
        self.client.prepare_request(HttpMethod::Put, path.as_str(), Some(body))
    }

    /// `DELETE /services/{serviceId}/firewall/{ip}/rules/{ruleId}`: removes
    /// one rule.
    pub fn delete_rule(&self, service_id: &str, ip: &str, rule_id: u32) -> (r: HttpRequest)
        ensures
            self.client.sends(
                r,
                HttpMethod::Delete,
                firewall_prefix(service_id@, ip@) + "/rules/"@ + dec_str(rule_id as nat),
            ),
            r.body is None,
    {
        let mut path = firewall_path(service_id, ip, "/rules/");
        let rule = fmt_u64(rule_id as u64);
        path.append(rule.as_str());
        let r = self.client.prepare_request(HttpMethod::Delete, path.as_str(), None);
        proof {
            assert(r.url@ =~= self.client.base_url@ + (firewall_prefix(service_id@, ip@)
                + "/rules/"@ + dec_str(rule_id as nat)));
        }
        r
    }

    /// `GET /services/{serviceId}/firewall/{ip}/rules`: the IP's rules.
    pub fn get_rules(&self, service_id: &str, ip: &str) -> (r: HttpRequest)
        ensures
            self.client.sends(r, HttpMethod::Get, firewall_prefix(service_id@, ip@) + "/rules"@),
            r.body is None,
    {
        let path = firewall_path(service_id, ip, "/rules");
        self.client.prepare_request(HttpMethod::Get, path.as_str(), None)
    }

    /// `POST /services/{serviceId}/firewall/{ip}/rules`: adds a rule.
    pub fn create_rule(&self, service_id: &str, ip: &str, data: FirewallCreateRuleData) -> (r:
        HttpRequest)
        ensures
            self.client.sends(r, HttpMethod::Post, firewall_prefix(service_id@, ip@) + "/rules"@),
            r.body is Some && (r.body->0)@ == data.json_text(),
    {
        let body = data.to_json();
        let path = firewall_path(service_id, ip, "/rules");
        self.client.prepare_request(HttpMethod::Post, path.as_str(), Some(body))
    }

    /// `GET /services/{serviceId}/firewall/{ip}/stats`: traffic through the
    /// firewall.
    pub fn get_statistics(&self, service_id: &str, ip: &str) -> (r: HttpRequest)
        ensures
            self.client.sends(r, HttpMethod::Get, firewall_prefix(service_id@, ip@) + "/stats"@),
            r.body is None,
    {
        let path = firewall_path(service_id, ip, "/stats");
        self.client.prepare_request(HttpMethod::Get, path.as_str(), None)
    }
}

} // verus!
