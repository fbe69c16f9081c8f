//! Data records for the user endpoints.

use vstd::prelude::*;

verus! {

/// The state a support ticket is in.
#[derive(Debug, Clone, Copy, PartialEq, Eq, Structural)]
pub enum TicketStatus {
    Open,
    Answered,
    Closed,
}

/// Who wrote a ticket message.
#[derive(Debug, Clone, PartialEq, Eq)]
pub struct TicketAuthor {
    pub id: String,
    pub avatar: Option<String>,
    pub name: String,
    pub role: String,
}

/// One message inside a support ticket.
#[derive(Debug, Clone, PartialEq, Eq)]
pub struct TicketMessage {
    pub id: String,
    pub message_id: String,
    pub content: String,
    pub attachments: Vec<String>,
    pub author_id: String,
    pub created_at: String,
    pub author: TicketAuthor,
}

/// A support ticket with its messages.
#[derive(Debug, Clone, PartialEq, Eq)]
pub struct Ticket {
    pub id: String,
    pub subject: String,
    pub status: TicketStatus,
    pub priority: String,
    pub last_reply: String,
    pub marked: bool,
    pub messages: Vec<TicketMessage>,
}

/// A support ticket as listed, without its messages.
#[derive(Debug, Clone, PartialEq, Eq)]
pub struct UserTicketSummary {
    pub id: String,
    pub subject: String,
    pub status: TicketStatus,
    pub priority: String,
    pub last_reply: String,
    pub marked: bool,
}

/// The state an invoice is in.
#[derive(Debug, Clone, Copy, PartialEq, Eq, Structural)]
pub enum InvoiceStatus {
    Paid,
    Unpaid,
    Cancelled,
    Refunded,
}

/// The kind of device a session was opened from.
#[derive(Debug, Clone, Copy, PartialEq, Eq, Structural)]
pub enum SessionOs {
    Desktop,
    Mobile,
}

/// One login session of the account.
#[derive(Debug, Clone, PartialEq, Eq)]
pub struct Session {
    pub id: String,
    pub ip: String,
    pub location: String,
    pub os: SessionOs,
    pub platform: String,
    pub last_seen: String,
}

} // verus!
