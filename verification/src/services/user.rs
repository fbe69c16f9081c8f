//! The user facade: one method per user account endpoint, each describing
//! exactly one request.

use crate::client::NodestyApiClient;
use crate::http::HttpMethod;
use crate::http::HttpRequest;
use vstd::prelude::*;
use vstd::string::StringExecFns;

verus! {

/// Endpoint methods for the user account.
#[derive(Debug, Clone)]
pub struct UserApiService {
    pub client: NodestyApiClient,
}

impl UserApiService {
    pub fn new(client: NodestyApiClient) -> (r: Self)
        ensures
            r.client == client,
    {
        Self { client }
    }

    /// `GET /services`: the account's services.
    pub fn get_services(&self) -> (r: HttpRequest)
        ensures
            self.client.sends(r, HttpMethod::Get, "/services"@),
            r.body is None,
    {
        self.client.prepare_request(HttpMethod::Get, "/services", None)
    }

    /// `GET /tickets/{id}`: one support ticket with its messages.
    pub fn get_ticket_by_id(&self, ticket_id: &str) -> (r: HttpRequest)
        ensures
            self.client.sends(r, HttpMethod::Get, "/tickets/"@ + ticket_id@),
            r.body is None,
    {
        let mut path = String::from_str("/tickets/");
        path.append(ticket_id);
        let r = self.client.prepare_request(HttpMethod::Get, path.as_str(), None);
        proof {
            assert(r.url@ =~= self.client.base_url@ + ("/tickets/"@ + ticket_id@));
        }
        r
    }

    /// `GET /tickets`: the account's support tickets.
    pub fn get_tickets(&self) -> (r: HttpRequest)
        ensures
            self.client.sends(r, HttpMethod::Get, "/tickets"@),
            r.body is None,
    {
        self.client.prepare_request(HttpMethod::Get, "/tickets", None)
    }

    /// `GET /users/@me`: the account itself.
    pub fn get_current_user(&self) -> (r: HttpRequest)
        ensures
            self.client.sends(r, HttpMethod::Get, "/users/@me"@),
            r.body is None,
    {
        self.client.prepare_request(HttpMethod::Get, "/users/@me", None)
    }

    /// `GET /users/@me/invoices/{id}`: one invoice with its items.
    pub fn get_invoice_by_id(&self, invoice_id: &str) -> (r: HttpRequest)
        ensures
            self.client.sends(r, HttpMethod::Get, "/users/@me/invoices/"@ + invoice_id@),
            r.body is None,
    {
        let mut path = String::from_str("/users/@me/invoices/");
        path.append(invoice_id);
        let r = self.client.prepare_request(HttpMethod::Get, path.as_str(), None);
        proof {
            assert(r.url@ =~= self.client.base_url@ + ("/users/@me/invoices/"@ + invoice_id@));
        }
        r
    }

    /// `GET /users/@me/invoices`: the account's invoices.
    pub fn get_invoices(&self) -> (r: HttpRequest)
        ensures
            self.client.sends(r, HttpMethod::Get, "/users/@me/invoices"@),
            r.body is None,
    {
        self.client.prepare_request(HttpMethod::Get, "/users/@me/invoices", None)
    }

    /// `GET /users/@me/sessions`: the account's login sessions.
    pub fn get_sessions(&self) -> (r: HttpRequest)
        ensures
            self.client.sends(r, HttpMethod::Get, "/users/@me/sessions"@),
            r.body is None,
    {
        self.client.prepare_request(HttpMethod::Get, "/users/@me/sessions", None)
    }
}

} // verus!
