//! Messages on their way into the inbound pipeline, and what the pipeline
//! answers.

use std::collections::HashMap;

use vstd::prelude::*;

verus! {

/// An IP address, by its bits in network order.
#[derive(Debug, Clone, Copy, PartialEq, Eq, Structural)]
pub enum IpAddr {
    V4(u32),
    V6(u128),
}

/// A message, by the 128 bits of its UUID.
#[derive(Debug, Clone, Copy, PartialEq, Eq, Structural)]
pub struct MessageId(pub u128);

/// A message for the inbound pipeline.
#[derive(Debug)]
pub struct InboundMessage {
    pub raw_data: Vec<u8>,
    pub envelope_from: String,
    pub envelope_to: Vec<String>,
    pub peer_addr: IpAddr,
    pub client_domain: Option<String>,
    pub server_hostname: String,
    /// The SMTP AUTH user. With one, the pipeline takes the message for an
    /// outbound submission and skips the inbound checks.
    pub authenticated_user: Option<String>,
    pub tls_active: bool,
    pub max_received_headers: u32,
    pub dsn_ret: Option<String>,
    pub dsn_envid: Option<String>,
    pub dsn_notify: HashMap<String, String>,
    pub dsn_orcpt: HashMap<String, String>,
}

/// What an [`InboundMessage`] says.
pub struct InboundMessageView {
    pub raw_data: Seq<u8>,
    pub envelope_from: Seq<char>,
    pub envelope_to: Seq<Seq<char>>,
    pub peer_addr: IpAddr,
    pub client_domain: Option<Seq<char>>,
    pub server_hostname: Seq<char>,
    pub authenticated_user: Option<Seq<char>>,
    pub tls_active: bool,
    pub max_received_headers: u32,
    pub dsn_ret: Option<Seq<char>>,
    pub dsn_envid: Option<Seq<char>>,
    pub dsn_notify: Map<String, String>,
    pub dsn_orcpt: Map<String, String>,
}

impl View for InboundMessage {
    type V = InboundMessageView;

    open spec fn view(&self) -> InboundMessageView {
        InboundMessageView {
            raw_data: self.raw_data@,
            envelope_from: self.envelope_from@,
            envelope_to: self.envelope_to.deep_view(),
            peer_addr: self.peer_addr,
            client_domain: self.client_domain.deep_view(),
            server_hostname: self.server_hostname@,
            authenticated_user: self.authenticated_user.deep_view(),
            tls_active: self.tls_active,
            max_received_headers: self.max_received_headers,
            dsn_ret: self.dsn_ret.deep_view(),
            dsn_envid: self.dsn_envid.deep_view(),
            dsn_notify: self.dsn_notify@,
            dsn_orcpt: self.dsn_orcpt@,
        }
    }
}

/// What the pipeline made of a message that it took.
#[derive(Debug)]
pub struct ProcessingOutcome {
    pub queue_id: String,
    pub message_id: MessageId,
}

/// What a [`ProcessingOutcome`] says.
pub struct ProcessingOutcomeView {
    pub queue_id: Seq<char>,
    pub message_id: MessageId,
}

impl View for ProcessingOutcome {
    type V = ProcessingOutcomeView;

    open spec fn view(&self) -> ProcessingOutcomeView {
        ProcessingOutcomeView { queue_id: self.queue_id@, message_id: self.message_id }
    }
}

/// Why the pipeline did not take a message.
#[derive(Debug)]
pub enum ProcessingError {
    /// For good.
    Reject { message: String },
    /// For now.
    TempFail { message: String },
}

/// What a [`ProcessingError`] says.
pub enum ProcessingErrorView {
    Reject { message: Seq<char> },
    TempFail { message: Seq<char> },
}

impl View for ProcessingError {
    type V = ProcessingErrorView;

    open spec fn view(&self) -> ProcessingErrorView {
        match self {
            ProcessingError::Reject { message } => ProcessingErrorView::Reject {
                message: message@,
            },
            ProcessingError::TempFail { message } => ProcessingErrorView::TempFail {
                message: message@,
            },
        }
    }
}

} // verus!
