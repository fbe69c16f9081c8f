//! The VPS facade: one method per VPS endpoint, each describing exactly one
//! request.

use crate::client::NodestyApiClient;
use crate::http::HttpMethod;
use crate::http::HttpRequest;
use crate::models::vps::VpsAction;
use crate::models::vps::VpsBackup;
use crate::models::vps::VpsChangePasswordData;
use crate::models::vps::VpsReinstallData;
use vstd::prelude::*;
use vstd::string::StringExecFns;

verus! {

/// Endpoint methods for a VPS service.
#[derive(Debug, Clone)]
pub struct VpsApiService {
    pub client: NodestyApiClient,
}

impl VpsApiService {
    pub fn new(client: NodestyApiClient) -> (r: Self)
        ensures
            r.client == client,
    {
        Self { client }
    }

    /// `POST /services/{id}/vps/action`: a power action on the VPS.
    pub fn perform_action(&self, id: &str, action: VpsAction) -> (r: HttpRequest)
        ensures
            self.client.sends(r, HttpMethod::Post, "/services/"@ + id@ + "/vps/action"@),
            r.body is Some && (r.body->0)@ == action.json_text(),
    {
        let mut path = String::from_str("/services/");
        path.append(id);
        path.append("/vps/action");
        let r = self.client.prepare_request(HttpMethod::Post, path.as_str(), Some(
            action.to_json(),
        ));
        proof {
            assert(r.url@ =~= self.client.base_url@ + ("/services/"@ + id@ + "/vps/action"@));
        }
        r
    }

    /// `POST /services/{id}/vps/backups/{date}/{file}`: restores a backup.
    pub fn restore_backup(&self, id: &str, data: &VpsBackup) -> (r: HttpRequest)
        ensures
            self.client.sends(
                r,
                HttpMethod::Post,
                "/services/"@ + id@ + "/vps/backups/"@ + data.date@ + "/"@ + data.file@,
            ),
            r.body is None,
    {
        let mut path = String::from_str("/services/");
        path.append(id);
        path.append("/vps/backups/");
        path.append(data.date.as_str());
        path.append("/");
        path.append(data.file.as_str());
        let r = self.client.prepare_request(HttpMethod::Post, path.as_str(), None);
        proof {
            assert(r.url@ =~= self.client.base_url@ + ("/services/"@ + id@ + "/vps/backups/"@
                + data.date@ + "/"@ + data.file@));
        }
        r
    }

    /// `GET /services/{id}/vps/backups`: the VPS's backups.
    pub fn get_backups(&self, id: &str) -> (r: HttpRequest)
        ensures
            self.client.sends(r, HttpMethod::Get, "/services/"@ + id@ + "/vps/backups"@),
            r.body is None,
    {
        let mut path = String::from_str("/services/");
        path.append(id);
        path.append("/vps/backups");
        let r = self.client.prepare_request(HttpMethod::Get, path.as_str(), None);
        proof {
            assert(r.url@ =~= self.client.base_url@ + ("/services/"@ + id@ + "/vps/backups"@));
        }
        r
    }

    /// `POST /services/{id}/vps/change-password`: sets the VPS password.
    pub fn change_password(&self, id: &str, data: VpsChangePasswordData) -> (r: HttpRequest)
        ensures
            self.client.sends(r, HttpMethod::Post, "/services/"@ + id@ + "/vps/change-password"@),
            r.body is Some && (r.body->0)@ == data.json_text(),
    {
        let body = data.to_json();
        let mut path = String::from_str("/services/");
        path.append(id);
        path.append("/vps/change-password");
        let r = self.client.prepare_request(HttpMethod::Post, path.as_str(), Some(body));
        proof {
            assert(r.url@ =~= self.client.base_url@ + ("/services/"@ + id@
                + "/vps/change-password"@));
        }
        r
    }

    /// `GET /services/{id}/vps/graphs`: usage graphs of the VPS.
    pub fn get_usage_statistics(&self, id: &str) -> (r: HttpRequest)
        ensures
            self.client.sends(r, HttpMethod::Get, "/services/"@ + id@ + "/vps/graphs"@),
            r.body is None,
    {
        let mut path = String::from_str("/services/");
        path.append(id);
        path.append("/vps/graphs");
        let r = self.client.prepare_request(HttpMethod::Get, path.as_str(), None);
        proof {
            assert(r.url@ =~= self.client.base_url@ + ("/services/"@ + id@ + "/vps/graphs"@));
        }
        r
    }

    /// `GET /services/{id}/vps/info`: details of the VPS.
    pub fn get_details(&self, id: &str) -> (r: HttpRequest)
        ensures
            self.client.sends(r, HttpMethod::Get, "/services/"@ + id@ + "/vps/info"@),
            r.body is None,
    {
        let mut path = String::from_str("/services/");
        path.append(id);
        path.append("/vps/info");
        let r = self.client.prepare_request(HttpMethod::Get, path.as_str(), None);
        proof {
            assert(r.url@ =~= self.client.base_url@ + ("/services/"@ + id@ + "/vps/info"@));
        }
        r
    }

    /// `GET /services/{id}/vps/os-templates`: the templates the VPS can be
    /// reinstalled with.
    pub fn get_os_templates(&self, id: &str) -> (r: HttpRequest)
        ensures
            self.client.sends(r, HttpMethod::Get, "/services/"@ + id@ + "/vps/os-templates"@),
            r.body is None,
    {
        let mut path = String::from_str("/services/");
        path.append(id);
        path.append("/vps/os-templates");
        let r = self.client.prepare_request(HttpMethod::Get, path.as_str(), None);
        proof {
            assert(r.url@ =~= self.client.base_url@ + ("/services/"@ + id@ + "/vps/os-templates"@));
        }
        r
    }

    /// `POST /services/{id}/vps/reinstall`: reinstalls the VPS.
    pub fn reinstall(&self, id: &str, data: VpsReinstallData) -> (r: HttpRequest)
        ensures
            self.client.sends(r, HttpMethod::Post, "/services/"@ + id@ + "/vps/reinstall"@),
            r.body is Some && (r.body->0)@ == data.json_text(),
    {
        let body = data.to_json();
        let mut path = String::from_str("/services/");
        path.append(id);
        path.append("/vps/reinstall");
        let r = self.client.prepare_request(HttpMethod::Post, path.as_str(), Some(body));
        proof {
            assert(r.url@ =~= self.client.base_url@ + ("/services/"@ + id@ + "/vps/reinstall"@));
        }
        r
    }

    /// `GET /services/{id}/vps/tasks`: the VPS's tasks.
    pub fn get_tasks(&self, id: &str) -> (r: HttpRequest)
        ensures
            self.client.sends(r, HttpMethod::Get, "/services/"@ + id@ + "/vps/tasks"@),
            r.body is None,
    {
        let mut path = String::from_str("/services/");
        path.append(id);
        path.append("/vps/tasks");
        let r = self.client.prepare_request(HttpMethod::Get, path.as_str(), None);
        proof {
            assert(r.url@ =~= self.client.base_url@ + ("/services/"@ + id@ + "/vps/tasks"@));
        }
        r
    }
}

} // verus!
