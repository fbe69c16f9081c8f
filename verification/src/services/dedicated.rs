//! The dedicated server facade: one method per dedicated server endpoint,
//! each describing exactly one request.

use crate::client::NodestyApiClient;
use crate::http::HttpMethod;
use crate::http::HttpRequest;
use crate::models::dedicated::DedicatedServerAction;
use crate::models::dedicated::DedicatedServerReinstallData;
use vstd::prelude::*;
use vstd::string::StringExecFns;

verus! {

/// Endpoint methods for a dedicated server service.
#[derive(Debug, Clone)]
pub struct DedicatedServerApiService {
    pub client: NodestyApiClient,
}

impl DedicatedServerApiService {
    pub fn new(client: NodestyApiClient) -> (r: Self)
        ensures
            r.client == client,
    {
        Self { client }
    }

    /// `POST /services/{id}/dedicated/action`: a power action on the server.
    pub fn perform_action(&self, id: &str, action: DedicatedServerAction) -> (r: HttpRequest)
        ensures
            self.client.sends(r, HttpMethod::Post, "/services/"@ + id@ + "/dedicated/action"@),
            r.body is Some && (r.body->0)@ == action.json_text(),
    {
        let mut path = String::from_str("/services/");
        path.append(id);
        path.append("/dedicated/action");
        let r = self.client.prepare_request(HttpMethod::Post, path.as_str(), Some(
            action.to_json(),
        ));
        proof {
            assert(r.url@ =~= self.client.base_url@ + ("/services/"@ + id@ + "/dedicated/action"@));
        }
        r
    }

    /// `GET /services/{id}/dedicated/info`: details of the server.
    pub fn get_details(&self, id: &str) -> (r: HttpRequest)
        ensures
            self.client.sends(r, HttpMethod::Get, "/services/"@ + id@ + "/dedicated/info"@),
            r.body is None,
    {
        let mut path = String::from_str("/services/");
        path.append(id);
        path.append("/dedicated/info");
        let r = self.client.prepare_request(HttpMethod::Get, path.as_str(), None);
        proof {
            assert(r.url@ =~= self.client.base_url@ + ("/services/"@ + id@ + "/dedicated/info"@));
        }
        r
    }

    /// `GET /services/{id}/dedicated/hardware`: the server's hardware
    /// components.
    pub fn get_hardware_components(&self, id: &str) -> (r: HttpRequest)
        ensures
            self.client.sends(r, HttpMethod::Get, "/services/"@ + id@ + "/dedicated/hardware"@),
            r.body is None,
    {
        let mut path = String::from_str("/services/");
        path.append(id);
        path.append("/dedicated/hardware");
        let r = self.client.prepare_request(HttpMethod::Get, path.as_str(), None);
        proof {
            assert(r.url@ =~= self.client.base_url@ + ("/services/"@ + id@
                + "/dedicated/hardware"@));
        }
        r
    }

    /// `GET /services/{id}/dedicated/os-templates`: the templates the server
    /// can be reinstalled with.
    pub fn get_os_templates(&self, id: &str) -> (r: HttpRequest)
        ensures
            self.client.sends(
                r,
                HttpMethod::Get,
                "/services/"@ + id@ + "/dedicated/os-templates"@,
            ),
            r.body is None,
    {
        let mut path = String::from_str("/services/");
        path.append(id);
        path.append("/dedicated/os-templates");
        let r = self.client.prepare_request(HttpMethod::Get, path.as_str(), None);
        proof {
            assert(r.url@ =~= self.client.base_url@ + ("/services/"@ + id@
                + "/dedicated/os-templates"@));
        }
        r
    }

    /// `GET /services/{id}/dedicated/reinstall-status`: where a running
    /// reinstallation stands.
    pub fn get_reinstall_status(&self, id: &str) -> (r: HttpRequest)
        ensures
            self.client.sends(
                r,
                HttpMethod::Get,
                "/services/"@ + id@ + "/dedicated/reinstall-status"@,
            ),
            r.body is None,
    {
        let mut path = String::from_str("/services/");
        path.append(id);
        path.append("/dedicated/reinstall-status");
        let r = self.client.prepare_request(HttpMethod::Get, path.as_str(), None);
        proof {
            assert(r.url@ =~= self.client.base_url@ + ("/services/"@ + id@
                + "/dedicated/reinstall-status"@));
        }
        r
    }

    /// `POST /services/{id}/dedicated/reinstall`: reinstalls the server.
    pub fn reinstall(&self, id: &str, data: DedicatedServerReinstallData) -> (r: HttpRequest)
        ensures
            self.client.sends(r, HttpMethod::Post, "/services/"@ + id@ + "/dedicated/reinstall"@),
            r.body is Some && (r.body->0)@ == data.json_text(),
    {
        let body = data.to_json();
        let mut path = String::from_str("/services/");
        path.append(id);
        path.append("/dedicated/reinstall");
        let r = self.client.prepare_request(HttpMethod::Post, path.as_str(), Some(body));
        proof {
            assert(r.url@ =~= self.client.base_url@ + ("/services/"@ + id@
                + "/dedicated/reinstall"@));
        }
        r
    }

    /// `GET /services/{id}/dedicated/tasks`: the server's tasks.
    pub fn get_tasks(&self, id: &str) -> (r: HttpRequest)
        ensures
            self.client.sends(r, HttpMethod::Get, "/services/"@ + id@ + "/dedicated/tasks"@),
            r.body is None,
    {
        let mut path = String::from_str("/services/");
        path.append(id);
        path.append("/dedicated/tasks");
        let r = self.client.prepare_request(HttpMethod::Get, path.as_str(), None);
        proof {
            assert(r.url@ =~= self.client.base_url@ + ("/services/"@ + id@ + "/dedicated/tasks"@));
        }
        r
    }
}

} // verus!
