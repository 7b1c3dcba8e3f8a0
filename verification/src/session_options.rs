//! The options of a session that the setters of a cluster write.
use vstd::prelude::*;
use vstd::string::*;
use openssl::ssl::SslContext;
use crate::types::Compression;

verus! {

/// What the driver and the application tell the server about themselves.
pub struct SelfIdentity {
    pub custom_driver_name: Option<String>,
    pub custom_driver_version: Option<String>,
    pub application_name: Option<String>,
    pub application_version: Option<String>,
    pub client_id: Option<String>,
}

/// The texts of a [`SelfIdentity`].
pub struct SelfIdentityView {
    pub custom_driver_name: Option<Seq<char>>,
    pub custom_driver_version: Option<Seq<char>>,
    pub application_name: Option<Seq<char>>,
    pub application_version: Option<Seq<char>>,
    pub client_id: Option<Seq<char>>,
}

impl View for SelfIdentity {
    type V = SelfIdentityView;

    open spec fn view(&self) -> SelfIdentityView {
        SelfIdentityView {
            custom_driver_name: self.custom_driver_name.deep_view(),
            custom_driver_version: self.custom_driver_version.deep_view(),
            application_name: self.application_name.deep_view(),
            application_version: self.application_version.deep_view(),
            client_id: self.client_id.deep_view(),
        }
    }
}

impl SelfIdentityView {
    /// An identity that tells nothing.
    pub open spec fn anonymous() -> Self {
        SelfIdentityView {
            custom_driver_name: None,
            custom_driver_version: None,
            application_name: None,
            application_version: None,
            client_id: None,
        }
    }
}

/// A copy of a text that may be missing.
pub(crate) fn clone_text(text: &Option<String>) -> (res: Option<String>)
    ensures
        res.deep_view() == text.deep_view(),
{
    match text {
        Some(s) => Some(s.clone()),
        None => None,
    }
}

impl Clone for SelfIdentity {
    fn clone(&self) -> (res: Self)
        ensures
            res@ == self@,
    {
        SelfIdentity {
            custom_driver_name: clone_text(&self.custom_driver_name),
            custom_driver_version: clone_text(&self.custom_driver_version),
            application_name: clone_text(&self.application_name),
            application_version: clone_text(&self.application_version),
            client_id: clone_text(&self.client_id),
        }
    }
}

/// Options that hold for every connection of a session. Times are in
/// milliseconds.
pub struct SessionOptions {
    pub identity: SelfIdentity,
    pub fetch_schema_metadata: bool,
    pub schema_agreement_timeout_ms: u64,
    pub schema_agreement_interval_ms: u64,
    pub tcp_nodelay: bool,
    /// `None` sends no TCP keepalive probes.
    pub tcp_keepalive_interval_ms: Option<u64>,
    pub connect_timeout_ms: u64,
    /// `None` sends no heartbeats.
    pub keepalive_interval_ms: Option<u64>,
    /// `None` never closes a connection for want of an answer to a heartbeat.
    pub keepalive_timeout_ms: Option<u64>,
    pub compression: Option<Compression>,
    pub tls_context: Option<SslContext>,
}

/// A [`SessionOptions`] with texts in place of strings.
pub struct SessionOptionsView {
    pub identity: SelfIdentityView,
    pub fetch_schema_metadata: bool,
    pub schema_agreement_timeout_ms: u64,
    pub schema_agreement_interval_ms: u64,
    pub tcp_nodelay: bool,
    pub tcp_keepalive_interval_ms: Option<u64>,
    pub connect_timeout_ms: u64,
    pub keepalive_interval_ms: Option<u64>,
    pub keepalive_timeout_ms: Option<u64>,
    pub compression: Option<Compression>,
    pub tls_context: Option<SslContext>,
}

impl View for SessionOptions {
    type V = SessionOptionsView;

    open spec fn view(&self) -> SessionOptionsView {
        SessionOptionsView {
            identity: self.identity@,
            fetch_schema_metadata: self.fetch_schema_metadata,
            schema_agreement_timeout_ms: self.schema_agreement_timeout_ms,
            schema_agreement_interval_ms: self.schema_agreement_interval_ms,
            tcp_nodelay: self.tcp_nodelay,
            tcp_keepalive_interval_ms: self.tcp_keepalive_interval_ms,
            connect_timeout_ms: self.connect_timeout_ms,
            keepalive_interval_ms: self.keepalive_interval_ms,
            keepalive_timeout_ms: self.keepalive_timeout_ms,
            compression: self.compression,
            tls_context: self.tls_context,
        }
    }
}

impl Clone for SessionOptions {
    fn clone(&self) -> (res: Self)
        ensures
            res@ == self@,
    {
        SessionOptions {
            identity: self.identity.clone(),
            fetch_schema_metadata: self.fetch_schema_metadata,
            schema_agreement_timeout_ms: self.schema_agreement_timeout_ms,
            schema_agreement_interval_ms: self.schema_agreement_interval_ms,
            tcp_nodelay: self.tcp_nodelay,
            tcp_keepalive_interval_ms: self.tcp_keepalive_interval_ms,
            connect_timeout_ms: self.connect_timeout_ms,
            keepalive_interval_ms: self.keepalive_interval_ms,
            keepalive_timeout_ms: self.keepalive_timeout_ms,
            compression: self.compression,
            tls_context: match &self.tls_context {
                Some(context) => Some(context.clone()),
                None => None,
            },
        }
    }
}

} // verus!
