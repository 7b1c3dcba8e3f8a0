//! The calls into the `scylla` driver, `openssl` and `uuid`. What a value of
//! the driver holds is named by a spec function here, and each call says what
//! it does to it.
use vstd::prelude::*;
use openssl::ssl::SslContext;
use scylla::authentication::PlainTextAuthenticator;
use scylla::client::execution_profile::ExecutionProfileBuilder;
use scylla::client::session::SessionConfig;
use scylla::policies::load_balancing::{DefaultPolicyBuilder, LatencyAwarenessBuilder};
use scylla::policies::retry::RetryPolicy;
use scylla::policies::speculative_execution::SimpleSpeculativeExecutionPolicy;
use std::sync::Arc;
use std::time::Duration;
use vstd::arithmetic::power::pow;
use crate::contact_points::texts;
use crate::exec_profile::{ExecutionProfileSettings, SpeculativeExecution};
use crate::load_balancing::LatencyAwarenessSettings;
use crate::session_options::{SelfIdentityView, SessionOptions, SessionOptionsView};
use crate::types::{CassRetryPolicy, Compression, Consistency, SerialConsistency};

verus! {

// ---------------------------------------------------------------------------
// Client identifiers
// ---------------------------------------------------------------------------

/// The lower case hexadecimal digit of a number below sixteen.
pub open spec fn hex_digit(n: int) -> char {
    if n < 10 {
        (48 + n) as char
    } else {
        (87 + n) as char
    }
}

/// The `k`-th hexadecimal digit of a 128 bit number, counted from the most
/// significant of its thirty-two.
pub open spec fn hex_digit_at(value: u128, k: int) -> char {
    hex_digit((value as int / pow(16, (31 - k) as nat)) % 16)
}

/// A UUID as text: thirty-two hexadecimal digits in groups of 8, 4, 4, 4 and
/// 12, with a hyphen between the groups.
pub open spec fn uuid_text(value: u128) -> Seq<char> {
    Seq::new(
        36,
        |i: int|
            if i == 8 || i == 13 || i == 18 || i == 23 {
                '-'
            } else if i < 8 {
                hex_digit_at(value, i)
            } else if i < 13 {
                hex_digit_at(value, i - 1)
            } else if i < 18 {
                hex_digit_at(value, i - 2)
            } else if i < 23 {
                hex_digit_at(value, i - 3)
            } else {
                hex_digit_at(value, i - 4)
            },
    )
}

/// `uuid::Uuid::to_string` writes the hyphenated form in lower case.
#[verifier::external_body]
pub(crate) fn uuid_to_string(value: u128) -> (text: String)
    ensures
        text@ == uuid_text(value),
{
    uuid::Uuid::from_u128(value).to_string()
}

// ---------------------------------------------------------------------------
// Sessions
// ---------------------------------------------------------------------------

/// The driver's TLS context, a counted reference to an `SSL_CTX`.
#[verifier::external_type_specification]
#[verifier::external_body]
pub struct ExSslContext(openssl::ssl::SslContext);

/// `SslContext::clone` is one more reference to the same context.
pub assume_specification[ <SslContext as Clone>::clone ](context: &SslContext) -> (res: SslContext)
    ensures
        res == *context,
;

/// The driver's own session configuration.
#[verifier::external_type_specification]
#[verifier::external_body]
pub struct ExSessionConfig(scylla::client::session::SessionConfig);

/// What a session configuration of the driver holds. Only `options`,
/// `known_nodes` and `user` are written by this library.
pub struct SessionContents {
    pub options: SessionOptionsView,
    pub known_nodes: Seq<Seq<char>>,
    /// User name and password.
    pub user: Option<(Seq<char>, Seq<char>)>,
    /// Every other option of the driver's `SessionConfig` has the value that
    /// `SessionConfig::new` gives to it.
    pub others_have_defaults: bool,
}

impl SessionContents {
    /// What the driver itself starts from.
    pub open spec fn initial() -> Self {
        SessionContents {
            options: SessionOptionsView {
                identity: SelfIdentityView::anonymous(),
                fetch_schema_metadata: true,
                schema_agreement_timeout_ms: 60000,
                schema_agreement_interval_ms: 200,
                tcp_nodelay: true,
                tcp_keepalive_interval_ms: None,
                connect_timeout_ms: 5000,
                keepalive_interval_ms: Some(30000),
                keepalive_timeout_ms: Some(30000),
                compression: None,
                tls_context: None,
            },
            known_nodes: Seq::empty(),
            user: None,
            others_have_defaults: true,
        }
    }
}

/// What a session configuration of the driver holds.
pub uninterp spec fn session_contents(
    config: SessionConfig,
) -> SessionContents;

/// `SessionConfig::new` names no node, no user, no identity, no compression
/// and no TLS context, and has the flags and times of
/// [`SessionContents::initial`].
#[verifier::external_body]
pub(crate) fn new_session_config() -> (config: SessionConfig)
    ensures
        session_contents(config) == SessionContents::initial(),
{
    SessionConfig::new()
}

/// `SessionConfig::add_known_nodes` appends the host names, in order.
#[verifier::external_body]
pub(crate) fn add_known_nodes(
    config: &mut SessionConfig,
    nodes: &Vec<String>,
)
    ensures
        session_contents(*final(config)) == (SessionContents {
            known_nodes: session_contents(*old(config)).known_nodes + texts(nodes@),
            ..session_contents(*old(config))
        }),
{
    config.add_known_nodes(nodes);
}

/// `PlainTextAuthenticator::new` answers the server with this name and
/// password; as the session's authenticator it replaces any other.
#[verifier::external_body]
pub(crate) fn set_user(
    config: &mut SessionConfig,
    username: String,
    password: String,
)
    ensures
        session_contents(*final(config)) == (SessionContents {
            user: Some((username@, password@)),
            ..session_contents(*old(config))
        }),
{
    config.authenticator = Some(Arc::new(PlainTextAuthenticator::new(username, password)));
}

/// `SelfIdentity::set_custom_driver_name` replaces the driver's name.
#[verifier::external_body]
pub(crate) fn set_custom_driver_name(
    config: &mut SessionConfig,
    name: String,
)
    ensures
        session_contents(*final(config)) == with_identity(
            session_contents(*old(config)),
            (SelfIdentityView {
                custom_driver_name: Some(name@),
                ..session_contents(*old(config)).options.identity
            }),
        ),
{
    config.identity.set_custom_driver_name(name);
}

/// `SelfIdentity::set_custom_driver_version` replaces the driver's version.
#[verifier::external_body]
pub(crate) fn set_custom_driver_version(
    config: &mut SessionConfig,
    version: String,
)
    ensures
        session_contents(*final(config)) == with_identity(
            session_contents(*old(config)),
            (SelfIdentityView {
                custom_driver_version: Some(version@),
                ..session_contents(*old(config)).options.identity
            }),
        ),
{
    config.identity.set_custom_driver_version(version);
}

/// `SelfIdentity::set_application_name` replaces the application's name.
#[verifier::external_body]
pub(crate) fn set_application_name(
    config: &mut SessionConfig,
    name: String,
)
    ensures
        session_contents(*final(config)) == with_identity(
            session_contents(*old(config)),
            (SelfIdentityView {
                application_name: Some(name@),
                ..session_contents(*old(config)).options.identity
            }),
        ),
{
    config.identity.set_application_name(name);
}

/// `SelfIdentity::set_application_version` replaces the application's version.
#[verifier::external_body]
pub(crate) fn set_application_version(
    config: &mut SessionConfig,
    version: String,
)
    ensures
        session_contents(*final(config)) == with_identity(
            session_contents(*old(config)),
            (SelfIdentityView {
                application_version: Some(version@),
                ..session_contents(*old(config)).options.identity
            }),
        ),
{
    config.identity.set_application_version(version);
}

/// `SelfIdentity::set_client_id` replaces the client's identifier.
#[verifier::external_body]
pub(crate) fn set_client_id(config: &mut SessionConfig, id: String)
    ensures
        session_contents(*final(config)) == with_identity(
            session_contents(*old(config)),
            (SelfIdentityView {
                client_id: Some(id@),
                ..session_contents(*old(config)).options.identity
            }),
        ),
{
    config.identity.set_client_id(id);
}

/// The contents with another identity.
pub open spec fn with_identity(
    contents: SessionContents,
    identity: SelfIdentityView,
) -> SessionContents {
    SessionContents {
        options: SessionOptionsView { identity, ..contents.options },
        ..contents
    }
}

/// Writes the flags and times of `options` to the fields of the same names in
/// the driver's `SessionConfig`; `Duration::from_millis` turns each time into
/// the driver's unit. The identity, the compression and the TLS context stay.
#[verifier::external_body]
pub(crate) fn set_flags_and_times(
    config: &mut SessionConfig,
    options: &SessionOptions,
)
    ensures
        session_contents(*final(config)) == (SessionContents {
            options: SessionOptionsView {
                identity: session_contents(*old(config)).options.identity,
                compression: session_contents(*old(config)).options.compression,
                tls_context: session_contents(*old(config)).options.tls_context,
                ..options@
            },
            ..session_contents(*old(config))
        }),
{
    config.fetch_schema_metadata = options.fetch_schema_metadata;
    config.schema_agreement_timeout = Duration::from_millis(options.schema_agreement_timeout_ms);
    config.schema_agreement_interval = Duration::from_millis(options.schema_agreement_interval_ms);
    config.tcp_nodelay = options.tcp_nodelay;
    config.tcp_keepalive_interval = options.tcp_keepalive_interval_ms.map(Duration::from_millis);
    config.connect_timeout = Duration::from_millis(options.connect_timeout_ms);
    config.keepalive_interval = options.keepalive_interval_ms.map(Duration::from_millis);
    config.keepalive_timeout = options.keepalive_timeout_ms.map(Duration::from_millis);
}

/// Writes the field `compression` of the driver's `SessionConfig`.
#[verifier::external_body]
pub(crate) fn set_compression(
    config: &mut SessionConfig,
    compression: Option<Compression>,
)
    ensures
        session_contents(*final(config)) == (SessionContents {
            options: SessionOptionsView { compression, ..session_contents(*old(config)).options },
            ..session_contents(*old(config))
        }),
{
    config.compression = match compression {
        Some(Compression::Lz4) => Some(scylla::frame::Compression::Lz4),
        Some(Compression::Snappy) => Some(scylla::frame::Compression::Snappy),
        None => None,
    };
}

/// Writes the field `tls_context` of the driver's `SessionConfig`.
#[verifier::external_body]
pub(crate) fn set_tls_context(
    config: &mut SessionConfig,
    context: SslContext,
)
    ensures
        session_contents(*final(config)) == (SessionContents {
            options: SessionOptionsView {
                tls_context: Some(context),
                ..session_contents(*old(config)).options
            },
            ..session_contents(*old(config))
        }),
{
    config.tls_context = Some(context.into());
}

// ---------------------------------------------------------------------------
// Execution profiles
// ---------------------------------------------------------------------------

/// The driver's builder of execution profiles.
#[verifier::external_type_specification]
#[verifier::external_body]
pub struct ExExecutionProfileBuilder(scylla::client::execution_profile::ExecutionProfileBuilder);

/// The options that were set on a builder of execution profiles, its load
/// balancing policy left aside.
pub uninterp spec fn profile_options(builder: ExecutionProfileBuilder) -> ExecutionProfileSettings;

/// `ExecutionProfileBuilder::default` has no option set.
#[verifier::external_body]
pub(crate) fn new_profile_builder() -> (builder: ExecutionProfileBuilder)
    ensures
        profile_options(builder) == ExecutionProfileSettings::unset(),
{
    ExecutionProfileBuilder::default()
}

/// `ExecutionProfileBuilder::consistency` sets the consistency and nothing
/// else.
#[verifier::external_body]
pub(crate) fn profile_consistency(
    builder: ExecutionProfileBuilder,
    consistency: Consistency,
) -> (res: ExecutionProfileBuilder)
    ensures
        profile_options(res) == (ExecutionProfileSettings {
            consistency: Some(consistency),
            ..profile_options(builder)
        }),
{
    builder.consistency(match consistency {
        Consistency::Any => scylla::statement::Consistency::Any,
        Consistency::One => scylla::statement::Consistency::One,
        Consistency::Two => scylla::statement::Consistency::Two,
        Consistency::Three => scylla::statement::Consistency::Three,
        Consistency::Quorum => scylla::statement::Consistency::Quorum,
        Consistency::All => scylla::statement::Consistency::All,
        Consistency::LocalQuorum => scylla::statement::Consistency::LocalQuorum,
        Consistency::EachQuorum => scylla::statement::Consistency::EachQuorum,
        Consistency::Serial => scylla::statement::Consistency::Serial,
        Consistency::LocalSerial => scylla::statement::Consistency::LocalSerial,
        Consistency::LocalOne => scylla::statement::Consistency::LocalOne,
    })
}

/// `ExecutionProfileBuilder::serial_consistency` sets the serial consistency
/// and nothing else.
#[verifier::external_body]
pub(crate) fn profile_serial_consistency(
    builder: ExecutionProfileBuilder,
    consistency: Option<SerialConsistency>,
) -> (res: ExecutionProfileBuilder)
    ensures
        profile_options(res) == (ExecutionProfileSettings {
            serial_consistency: Some(consistency),
            ..profile_options(builder)
        }),
{
    builder.serial_consistency(match consistency {
        Some(SerialConsistency::Serial) => Some(scylla::statement::SerialConsistency::Serial),
        Some(SerialConsistency::LocalSerial) => Some(
            scylla::statement::SerialConsistency::LocalSerial,
        ),
        None => None,
    })
}

/// `ExecutionProfileBuilder::request_timeout` sets the client-side timeout and
/// nothing else.
#[verifier::external_body]
pub(crate) fn profile_request_timeout(
    builder: ExecutionProfileBuilder,
    timeout_ms: Option<u64>,
) -> (res: ExecutionProfileBuilder)
    ensures
        profile_options(res) == (ExecutionProfileSettings {
            request_timeout_ms: Some(timeout_ms),
            ..profile_options(builder)
        }),
{
    builder.request_timeout(timeout_ms.map(Duration::from_millis))
}

/// The driver's policy that retries where a retry is likely to help.
#[verifier::external_type_specification]
#[verifier::external_body]
pub struct ExDefaultRetryPolicy(scylla::policies::retry::DefaultRetryPolicy);

/// The driver's policy that never retries.
#[verifier::external_type_specification]
#[verifier::external_body]
pub struct ExFallthroughRetryPolicy(scylla::policies::retry::FallthroughRetryPolicy);

/// The driver's policy that retries with a lower consistency.
#[verifier::external_type_specification]
#[verifier::external_body]
pub struct ExDowngradingConsistencyRetryPolicy(
    scylla::policies::retry::DowngradingConsistencyRetryPolicy,
);

/// `Arc::clone` is one more pointer to the same object. That the object is the
/// same one, and not only equal, is not stated: contracts do not tell two
/// pointers to equal objects apart.
#[verifier::external_body]
pub(crate) fn share<T>(object: &Arc<T>) -> (res: Arc<T>)
    ensures
        res == *object,
{
    Arc::clone(object)
}

/// `ExecutionProfileBuilder::retry_policy` sets the retry policy and nothing
/// else.
#[verifier::external_body]
pub(crate) fn profile_retry_policy(
    builder: ExecutionProfileBuilder,
    policy: CassRetryPolicy,
) -> (res: ExecutionProfileBuilder)
    ensures
        profile_options(res) == (ExecutionProfileSettings {
            retry_policy: Some(policy),
            ..profile_options(builder)
        }),
{
    let policy: Arc<dyn RetryPolicy> = match policy {
        CassRetryPolicy::DefaultRetryPolicy(default) => default,
        CassRetryPolicy::FallthroughRetryPolicy(fallthrough) => fallthrough,
        CassRetryPolicy::DowngradingConsistencyRetryPolicy(downgrading) => downgrading,
    };
    builder.retry_policy(policy)
}

/// `ExecutionProfileBuilder::speculative_execution_policy` with a policy sets
/// speculative execution, with the given count and delay, and nothing else.
#[verifier::external_body]
pub(crate) fn profile_speculative_execution(
    builder: ExecutionProfileBuilder,
    policy: SpeculativeExecution,
) -> (res: ExecutionProfileBuilder)
    ensures
        profile_options(res) == (ExecutionProfileSettings {
            speculative_execution: Some(Some(policy)),
            ..profile_options(builder)
        }),
{
    builder.speculative_execution_policy(Some(Arc::new(SimpleSpeculativeExecutionPolicy {
        max_retry_count: policy.max_retry_count,
        retry_interval: Duration::from_millis(policy.retry_interval_ms),
    })))
}

/// `ExecutionProfileBuilder::speculative_execution_policy` with `None` switches
/// speculative execution off and changes nothing else.
#[verifier::external_body]
pub(crate) fn profile_no_speculative_execution(builder: ExecutionProfileBuilder) -> (res:
    ExecutionProfileBuilder)
    ensures
        profile_options(res) == (ExecutionProfileSettings {
            speculative_execution: Some(None),
            ..profile_options(builder)
        }),
{
    builder.speculative_execution_policy(None)
}

// ---------------------------------------------------------------------------
// Load balancing
// ---------------------------------------------------------------------------

/// The driver's builder of latency awareness.
#[verifier::external_type_specification]
#[verifier::external_body]
pub struct ExLatencyAwarenessBuilder(scylla::policies::load_balancing::LatencyAwarenessBuilder);

/// The driver's builder of load balancing policies.
#[verifier::external_type_specification]
#[verifier::external_body]
pub struct ExDefaultPolicyBuilder(scylla::policies::load_balancing::DefaultPolicyBuilder);

/// The options that a builder of latency awareness holds.
pub uninterp spec fn latency_options(builder: LatencyAwarenessBuilder) -> LatencyAwarenessSettings;

/// `LatencyAwarenessBuilder::new` excludes nodes that are more than twice as
/// slow as the fastest, for ten seconds, once fifty measurements were taken;
/// it looks at the fastest every 100 milliseconds, and its scale is 100
/// milliseconds.
#[verifier::external_body]
pub(crate) fn new_latency_builder() -> (builder: LatencyAwarenessBuilder)
    ensures
        latency_options(builder) == LatencyAwarenessSettings::initial(),
{
    LatencyAwarenessBuilder::new()
}

/// `LatencyAwarenessBuilder::clone` copies every option.
pub assume_specification[ <LatencyAwarenessBuilder as Clone>::clone ](
    builder: &LatencyAwarenessBuilder,
) -> (res: LatencyAwarenessBuilder)
    ensures
        latency_options(res) == latency_options(*builder),
;

/// `LatencyAwarenessBuilder::scale` sets the scale and nothing else. It panics
/// on a scale of zero.
#[verifier::external_body]
pub(crate) fn latency_scale(builder: LatencyAwarenessBuilder, scale_ms: u64) -> (res:
    LatencyAwarenessBuilder)
    requires
        scale_ms > 0,
    ensures
        latency_options(res) == (LatencyAwarenessSettings { scale_ms, ..latency_options(builder) }),
{
    builder.scale(Duration::from_millis(scale_ms))
}

/// `LatencyAwarenessBuilder::retry_period` sets the retry period and nothing
/// else.
#[verifier::external_body]
pub(crate) fn latency_retry_period(builder: LatencyAwarenessBuilder, retry_period_ms: u64) -> (res:
    LatencyAwarenessBuilder)
    ensures
        latency_options(res) == (LatencyAwarenessSettings { retry_period_ms, ..latency_options(builder) }),
{
    builder.retry_period(Duration::from_millis(retry_period_ms))
}

/// `LatencyAwarenessBuilder::update_rate` sets the update rate and nothing
/// else.
#[verifier::external_body]
pub(crate) fn latency_update_rate(builder: LatencyAwarenessBuilder, update_rate_ms: u64) -> (res:
    LatencyAwarenessBuilder)
    ensures
        latency_options(res) == (LatencyAwarenessSettings { update_rate_ms, ..latency_options(builder) }),
{
    builder.update_rate(Duration::from_millis(update_rate_ms))
}

/// `LatencyAwarenessBuilder::minimum_measurements` sets the number of
/// measurements and nothing else.
#[verifier::external_body]
pub(crate) fn latency_minimum_measurements(
    builder: LatencyAwarenessBuilder,
    minimum_measurements: usize,
) -> (res: LatencyAwarenessBuilder)
    ensures
        latency_options(res) == (LatencyAwarenessSettings {
            minimum_measurements,
            ..latency_options(builder)
        }),
{
    builder.minimum_measurements(minimum_measurements)
}

/// The nodes that a policy prefers.
pub enum PreferredNodes {
    /// None were named.
    Unnamed,
    Datacenter(Seq<char>),
    DatacenterAndRack(Seq<char>, Seq<char>),
}

/// The options of a load balancing policy.
pub struct PolicyOptions {
    pub preferred_nodes: PreferredNodes,
    pub token_aware: bool,
    pub shuffle_replicas: bool,
    pub permit_dc_failover: bool,
    pub latency_awareness: Option<LatencyAwarenessSettings>,
}

/// The options that a builder of load balancing policies holds.
pub uninterp spec fn policy_options(builder: DefaultPolicyBuilder) -> PolicyOptions;

/// `DefaultPolicyBuilder::new` prefers no nodes, is token aware, shuffles
/// replicas, stays in the datacenter and takes no notice of latency.
#[verifier::external_body]
pub(crate) fn new_policy_builder() -> (builder: DefaultPolicyBuilder)
    ensures
        policy_options(builder) == (PolicyOptions {
            preferred_nodes: PreferredNodes::Unnamed,
            token_aware: true,
            shuffle_replicas: true,
            permit_dc_failover: false,
            latency_awareness: None,
        }),
{
    DefaultPolicyBuilder::new()
}

/// `DefaultPolicyBuilder::token_aware` switches token awareness and nothing
/// else.
#[verifier::external_body]
pub(crate) fn policy_token_aware(builder: DefaultPolicyBuilder, token_aware: bool) -> (res:
    DefaultPolicyBuilder)
    ensures
        policy_options(res) == (PolicyOptions { token_aware, ..policy_options(builder) }),
{
    builder.token_aware(token_aware)
}

/// `DefaultPolicyBuilder::enable_shuffling_replicas` switches shuffling and
/// nothing else.
#[verifier::external_body]
pub(crate) fn policy_shuffle_replicas(builder: DefaultPolicyBuilder, shuffle_replicas: bool) -> (res:
    DefaultPolicyBuilder)
    ensures
        policy_options(res) == (PolicyOptions { shuffle_replicas, ..policy_options(builder) }),
{
    builder.enable_shuffling_replicas(shuffle_replicas)
}

/// `DefaultPolicyBuilder::prefer_datacenter` replaces the preferred nodes by
/// those of a datacenter.
#[verifier::external_body]
pub(crate) fn policy_prefer_datacenter(builder: DefaultPolicyBuilder, datacenter: String) -> (res:
    DefaultPolicyBuilder)
    ensures
        policy_options(res) == (PolicyOptions {
            preferred_nodes: PreferredNodes::Datacenter(datacenter@),
            ..policy_options(builder)
        }),
{
    builder.prefer_datacenter(datacenter)
}

/// `DefaultPolicyBuilder::prefer_datacenter_and_rack` replaces the preferred
/// nodes by those of a rack in a datacenter.
#[verifier::external_body]
pub(crate) fn policy_prefer_datacenter_and_rack(
    builder: DefaultPolicyBuilder,
    datacenter: String,
    rack: String,
) -> (res: DefaultPolicyBuilder)
    ensures
        policy_options(res) == (PolicyOptions {
            preferred_nodes: PreferredNodes::DatacenterAndRack(datacenter@, rack@),
            ..policy_options(builder)
        }),
{
    builder.prefer_datacenter_and_rack(datacenter, rack)
}

/// `DefaultPolicyBuilder::permit_dc_failover` switches failover to other
/// datacenters and nothing else.
#[verifier::external_body]
pub(crate) fn policy_permit_dc_failover(builder: DefaultPolicyBuilder, permit_dc_failover: bool) -> (res:
    DefaultPolicyBuilder)
    ensures
        policy_options(res) == (PolicyOptions { permit_dc_failover, ..policy_options(builder) }),
{
    builder.permit_dc_failover(permit_dc_failover)
}

/// `DefaultPolicyBuilder::latency_awareness` switches latency awareness on,
/// with the options that the given builder holds.
#[verifier::external_body]
pub(crate) fn policy_latency_awareness(
    builder: DefaultPolicyBuilder,
    latency: LatencyAwarenessBuilder,
) -> (res: DefaultPolicyBuilder)
    ensures
        policy_options(res) == (PolicyOptions {
            latency_awareness: Some(latency_options(latency)),
            ..policy_options(builder)
        }),
{
    builder.latency_awareness(latency)
}

} // verus!
