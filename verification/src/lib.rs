//! Typed client library for a hosting provider's REST API.
//!
//! The library builds every HTTP request as a plain description (method, URL,
//! authorization header, optional JSON body) and maps every HTTP response
//! (status code plus decoded payload) into a common success/error envelope.
//! Performing the actual network exchange is left to the embedding
//! application; everything that decides what is sent and what a response
//! means is verified here.

pub mod client;
pub mod http;
pub mod json;
pub mod models;
pub mod services;

pub use client::NodestyApiClient;
pub use models::shared::ApiResponse;
pub use models::shared::RestClientOptions;
pub use models::shared::default_success;
pub use services::dedicated::DedicatedServerApiService;
pub use services::firewall::FirewallApiService;
pub use services::user::UserApiService;
pub use services::vps::VpsApiService;
