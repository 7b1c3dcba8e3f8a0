//! A cluster to connect to, and the setters that C callers configure it with.
use vstd::prelude::*;
use vstd::string::*;
use vstd::utf8::{decode_utf8, valid_utf8};
use openssl::ssl::SslContext;
use scylla::client::execution_profile::ExecutionProfileBuilder;
use scylla::client::session::SessionConfig;
use scylla::policies::load_balancing::{DefaultPolicyBuilder, LatencyAwarenessBuilder};
use crate::contact_points::{
    append_listed_points, decimal, is_blank, is_contact_point, is_white_space, known_nodes,
    lemma_listed_points, node_addresses, set_points, texts,
};
use crate::cstring::{
    c_length, c_text, is_c_string, is_readable, ptr_to_cstr_n, strlen,
};
use crate::driver::{
    add_known_nodes, latency_options, new_session_config, policy_options, profile_options,
    session_contents, set_application_name, set_application_version, set_client_id,
    set_compression, set_custom_driver_name, set_custom_driver_version, set_flags_and_times,
    set_tls_context, set_user, uuid_text, uuid_to_string, SessionContents,
};
use crate::exec_profile::{
    CassExecProfile, CassExecProfileView, ExecProfileName, ExecutionProfileMap,
    ExecutionProfileSettings, SpeculativeExecution,
};
use crate::load_balancing::{
    dc_aware_kind, latency_awareness_builder, rack_aware_kind, set_load_balance_dc_aware_n,
    set_load_balance_rack_aware_n, LatencyAwarenessSettings, LoadBalancingConfig,
    LoadBalancingConfigView, LoadBalancingKind, LoadBalancingKindView,
};
use crate::session_options::{
    clone_text, SelfIdentity, SelfIdentityView, SessionOptions, SessionOptionsView,
};
use crate::types::{
    answer, cass_bool_t, cass_true, CassCompressionType, CassConsistency, CassCustomPayload,
    CassError, CassRetryPolicy, CassUuid, Compression, Consistency,
};

verus! {

/// The consistency of statements that name no other.
pub const DEFAULT_CONSISTENCY: Consistency = Consistency::LocalOne;

/// How long a client waits for the answer to a request.
pub const DEFAULT_REQUEST_TIMEOUT_MS: u64 = 12000;

/// Whether schema metadata is fetched.
pub const DEFAULT_DO_FETCH_SCHEMA_METADATA: bool = true;

/// How long schema agreement is waited for.
pub const DEFAULT_MAX_SCHEMA_WAIT_TIME_MS: u64 = 10000;

/// How often schema agreement is asked for.
pub const DEFAULT_SCHEMA_AGREEMENT_INTERVAL_MS: u64 = 200;

/// Whether TCP_NODELAY is set.
pub const DEFAULT_SET_TCP_NO_DELAY: bool = true;

/// How long opening a connection may take.
pub const DEFAULT_CONNECT_TIMEOUT_MS: u64 = 5000;

/// How often heartbeats are sent.
pub const DEFAULT_KEEPALIVE_INTERVAL_MS: u64 = 30000;

/// How long the answer to a heartbeat is waited for.
pub const DEFAULT_KEEPALIVE_TIMEOUT_MS: u64 = 60000;

/// The port that nodes listen on.
pub const DEFAULT_PORT: u16 = 9042;

/// The name that the driver gives to the server.
pub const DRIVER_NAME: &'static str = "ScyllaDB Cpp-Rust Driver";

/// The version that the driver gives to the server: that of this package.
pub const DRIVER_VERSION: &'static str = "0.5.0";

/// The configuration of a cluster.
pub struct CassCluster {
    session_options: SessionOptions,
    default_execution_profile: ExecutionProfileSettings,
    execution_profile_map: ExecutionProfileMap,
    contact_points: Vec<String>,
    port: u16,
    load_balancing_config: LoadBalancingConfig,
    use_beta_protocol_version: bool,
    auth_username: Option<String>,
    auth_password: Option<String>,
    client_id: Option<u128>,
}

/// What the configuration of a cluster says.
pub struct CassClusterView {
    pub session: SessionOptionsView,
    pub default_execution_profile: ExecutionProfileSettings,
    pub execution_profiles: Map<Seq<char>, CassExecProfileView>,
    pub contact_points: Seq<Seq<char>>,
    pub port: u16,
    pub load_balancing: LoadBalancingConfigView,
    pub use_beta_protocol_version: bool,
    pub auth_username: Option<Seq<char>>,
    pub auth_password: Option<Seq<char>>,
    pub client_id: Option<u128>,
}

impl View for CassCluster {
    type V = CassClusterView;

    closed spec fn view(&self) -> CassClusterView {
        CassClusterView {
            session: self.session_options@,
            default_execution_profile: self.default_execution_profile,
            execution_profiles: self.execution_profile_map@,
            contact_points: texts(self.contact_points@),
            port: self.port,
            load_balancing: self.load_balancing_config@,
            use_beta_protocol_version: self.use_beta_protocol_version,
            auth_username: self.auth_username.deep_view(),
            auth_password: self.auth_password.deep_view(),
            client_id: self.client_id,
        }
    }
}

impl CassClusterView {
    /// A cluster as it is made.
    pub open spec fn initial() -> Self {
        CassClusterView {
            session: SessionOptionsView {
                identity: SelfIdentityView {
                    custom_driver_name: Some(DRIVER_NAME@),
                    custom_driver_version: Some(DRIVER_VERSION@),
                    ..SelfIdentityView::anonymous()
                },
                fetch_schema_metadata: DEFAULT_DO_FETCH_SCHEMA_METADATA,
                schema_agreement_timeout_ms: DEFAULT_MAX_SCHEMA_WAIT_TIME_MS,
                schema_agreement_interval_ms: DEFAULT_SCHEMA_AGREEMENT_INTERVAL_MS,
                tcp_nodelay: DEFAULT_SET_TCP_NO_DELAY,
                tcp_keepalive_interval_ms: None,
                connect_timeout_ms: DEFAULT_CONNECT_TIMEOUT_MS,
                keepalive_interval_ms: Some(DEFAULT_KEEPALIVE_INTERVAL_MS),
                keepalive_timeout_ms: Some(DEFAULT_KEEPALIVE_TIMEOUT_MS),
                compression: None,
                tls_context: None,
            },
            default_execution_profile: ExecutionProfileSettings {
                consistency: Some(DEFAULT_CONSISTENCY),
                request_timeout_ms: Some(Some(DEFAULT_REQUEST_TIMEOUT_MS)),
                ..ExecutionProfileSettings::unset()
            },
            execution_profiles: Map::empty(),
            contact_points: Seq::empty(),
            port: DEFAULT_PORT,
            load_balancing: LoadBalancingConfigView::initial(),
            use_beta_protocol_version: false,
            auth_username: None,
            auth_password: None,
            client_id: None,
        }
    }

    /// What holds of every cluster.
    pub open spec fn valid(self) -> bool {
        // Contact points are names, without white space around them.
        &&& forall|i: int|
            0 <= i < self.contact_points.len() ==> is_contact_point(
                #[trigger] self.contact_points[i],
            )
        // No execution profile has an empty name.
        &&& !self.execution_profiles.contains_key(Seq::<char>::empty())
        // There is a user name exactly where there is a password.
        &&& self.auth_username is Some <==> self.auth_password is Some
        // The server is told the identifier that was set, as text.
        &&& self.session.identity.client_id == match self.client_id {
            Some(id) => Some(uuid_text(id)),
            None => None,
        }
        // The driver keeps its own name.
        &&& self.session.identity.custom_driver_name == Some(DRIVER_NAME@)
        &&& self.session.identity.custom_driver_version == Some(DRIVER_VERSION@)
        &&& self.load_balancing.wf()
    }

    /// The cluster with other session options.
    pub open spec fn with_session(self, session: SessionOptionsView) -> Self {
        CassClusterView { session, ..self }
    }

    /// The cluster with another identity.
    pub open spec fn with_identity(self, identity: SelfIdentityView) -> Self {
        self.with_session(SessionOptionsView { identity, ..self.session })
    }

    /// The cluster with other settings of the default execution profile.
    pub open spec fn with_profile(self, settings: ExecutionProfileSettings) -> Self {
        CassClusterView { default_execution_profile: settings, ..self }
    }

    /// The cluster with other load balancing options.
    pub open spec fn with_load_balancing(self, load_balancing: LoadBalancingConfigView) -> Self {
        CassClusterView { load_balancing, ..self }
    }

    /// User name and password, where both are set.
    pub open spec fn user(self) -> Option<(Seq<char>, Seq<char>)> {
        match (self.auth_username, self.auth_password) {
            (Some(username), Some(password)) => Some((username, password)),
            _ => None,
        }
    }

    /// What the driver's session configuration holds for this cluster: what was
    /// set, and the driver's defaults for every option that no setter is for.
    pub open spec fn session_contents(self) -> SessionContents {
        SessionContents {
            options: self.session,
            known_nodes: node_addresses(self.contact_points, self.port),
            user: self.user(),
            others_have_defaults: true,
        }
    }
}

impl CassCluster {
    /// What holds of every cluster that was made by [`cass_cluster_new`].
    pub closed spec fn wf(&self) -> bool {
        &&& self@.valid()
        &&& self.execution_profile_map.wf()
    }

    /// The execution profiles by name.
    pub fn execution_profile_map(&self) -> (map: &ExecutionProfileMap)
        requires
            self.wf(),
        ensures
            map.wf(),
            map@ == self@.execution_profiles,
    {
        &self.execution_profile_map
    }

    /// The options of sessions.
    pub fn get_session_config(&self) -> (options: &SessionOptions)
        ensures
            options@ == self@.session,
    {
        &self.session_options
    }

    /// The settings of the execution profile of statements that name no other.
    pub fn default_execution_profile(&self) -> (settings: &ExecutionProfileSettings)
        ensures
            *settings == self@.default_execution_profile,
    {
        &self.default_execution_profile
    }

    /// The load balancing options.
    pub fn load_balancing_config(&self) -> (config: &LoadBalancingConfig)
        ensures
            config@ == self@.load_balancing,
    {
        &self.load_balancing_config
    }

    /// The port that nodes listen on.
    pub fn get_port(&self) -> (port: u16)
        ensures
            port == self@.port,
    {
        self.port
    }

    /// The contact points, without ports.
    pub fn get_contact_points(&self) -> (points: &[String])
        ensures
            texts(points@) == self@.contact_points,
    {
        self.contact_points.as_slice()
    }

    /// The 128 bits of the identifier of this client, if one was set.
    pub fn get_client_id(&self) -> (id: Option<u128>)
        ensures
            id == self@.client_id,
    {
        self.client_id
    }
}

impl Clone for CassCluster {
    fn clone(&self) -> (res: Self)
        ensures
            res@ == self@,
            res.wf() == self.wf(),
    {
        let contact_points: Vec<String> = clone_strings(&self.contact_points);
        CassCluster {
            session_options: self.session_options.clone(),
            default_execution_profile: self.default_execution_profile.clone(),
            execution_profile_map: self.execution_profile_map.clone(),
            contact_points,
            port: self.port,
            load_balancing_config: self.load_balancing_config.clone(),
            use_beta_protocol_version: self.use_beta_protocol_version,
            auth_username: clone_text(&self.auth_username),
            auth_password: clone_text(&self.auth_password),
            client_id: self.client_id,
        }
    }
}

/// A copy of a list of strings.
fn clone_strings(strings: &Vec<String>) -> (res: Vec<String>)
    ensures
        texts(res@) == texts(strings@),
{
    let res: Vec<String> = strings.clone();
    assert(texts(res@) =~= texts(strings@));
    res
}

/// What a configuration says is valid, of every cluster.
pub proof fn law_cluster_is_valid(cluster: CassCluster)
    requires
        cluster.wf(),
    ensures
        cluster@.valid(),
        forall|i: int|
            #![trigger cluster@.contact_points[i]]
            0 <= i < cluster@.contact_points.len() ==> {
                &&& cluster@.contact_points[i].len() > 0
                &&& !is_white_space(cluster@.contact_points[i][0])
                &&& !is_white_space(cluster@.contact_points[i].last())
                &&& !cluster@.contact_points[i].contains(',')
            },
        !cluster@.execution_profiles.contains_key(Seq::<char>::empty()),
        cluster@.auth_username is Some <==> cluster@.auth_password is Some,
        cluster@.session.identity.client_id is Some <==> cluster@.client_id is Some,
        cluster@.client_id matches Some(id) ==> cluster@.session.identity.client_id->0 == uuid_text(
            id,
        ),
        cluster@.load_balancing.latency_awareness_settings.scale_ms > 0,
{
}

/// A cluster with default options and no contact points.
pub fn cass_cluster_new() -> (cluster: CassCluster)
    ensures
        cluster.wf(),
        cluster@ == CassClusterView::initial(),
{
    let default_execution_profile = ExecutionProfileSettings {
        consistency: Some(DEFAULT_CONSISTENCY),
        serial_consistency: None,
        request_timeout_ms: Some(Some(DEFAULT_REQUEST_TIMEOUT_MS)),
        retry_policy: None,
        speculative_execution: None,
    };
    let session_options = SessionOptions {
        identity: SelfIdentity {
            custom_driver_name: Some(DRIVER_NAME.to_owned()),
            custom_driver_version: Some(DRIVER_VERSION.to_owned()),
            application_name: None,
            application_version: None,
            client_id: None,
        },
        fetch_schema_metadata: DEFAULT_DO_FETCH_SCHEMA_METADATA,
        schema_agreement_timeout_ms: DEFAULT_MAX_SCHEMA_WAIT_TIME_MS,
        schema_agreement_interval_ms: DEFAULT_SCHEMA_AGREEMENT_INTERVAL_MS,
        tcp_nodelay: DEFAULT_SET_TCP_NO_DELAY,
        tcp_keepalive_interval_ms: None,
        connect_timeout_ms: DEFAULT_CONNECT_TIMEOUT_MS,
        keepalive_interval_ms: Some(DEFAULT_KEEPALIVE_INTERVAL_MS),
        keepalive_timeout_ms: Some(DEFAULT_KEEPALIVE_TIMEOUT_MS),
        compression: None,
        tls_context: None,
    };
    let cluster = CassCluster {
        session_options,
        default_execution_profile,
        execution_profile_map: ExecutionProfileMap::new(),
        contact_points: Vec::new(),
        port: DEFAULT_PORT,
        load_balancing_config: LoadBalancingConfig::default(),
        use_beta_protocol_version: false,
        auth_username: None,
        auth_password: None,
        client_id: None,
    };
    assert(texts(cluster.contact_points@) == Seq::<Seq<char>>::empty());
    cluster
}

/// Gives a cluster up.
pub fn cass_cluster_free(cluster: CassCluster) {
}

/// The cluster after [`cass_cluster_set_contact_points_n`] was given a text,
/// or none.
pub open spec fn after_contact_points(
    cluster: CassClusterView,
    list: Option<Seq<char>>,
) -> CassClusterView {
    match list {
        Some(text) => CassClusterView {
            contact_points: set_points(cluster.contact_points, text),
            ..cluster
        },
        None => cluster,
    }
}

/// Adds the contact points of a comma separated list, a C string. See
/// [`cass_cluster_set_contact_points_n`].
pub fn cass_cluster_set_contact_points(
    cluster: &mut CassCluster,
    contact_points: Option<&[u8]>,
) -> (res: CassError)
    requires
        old(cluster).wf(),
        is_c_string(contact_points),
    ensures
        final(cluster).wf(),
        ({
            let list = c_text(contact_points, c_length(contact_points) as int);
            &&& res == answer(list is Some)
            &&& final(cluster)@ == after_contact_points(old(cluster)@, list)
        }),
{
    let length: usize = strlen(contact_points);
    cass_cluster_set_contact_points_n(cluster, contact_points, length)
}

/// Adds the contact points of a comma separated list to those that the
/// cluster has. White space around a contact point and extra commas do not
/// count. A list of nothing but commas clears the contact points. A NULL
/// pointer, or bytes that are not UTF-8, are refused.
pub fn cass_cluster_set_contact_points_n(
    cluster: &mut CassCluster,
    contact_points: Option<&[u8]>,
    contact_points_length: usize,
) -> (res: CassError)
    requires
        old(cluster).wf(),
        is_readable(contact_points, contact_points_length as int),
    ensures
        final(cluster).wf(),
        ({
            let list = c_text(contact_points, contact_points_length as int);
            &&& res == answer(list is Some)
            &&& final(cluster)@ == after_contact_points(old(cluster)@, list)
        }),
        res == CassError::CASS_OK <==> contact_points is Some && valid_utf8(
            contact_points->0@.take(contact_points_length as int),
        ),
{
    match cluster_set_contact_points(cluster, contact_points, contact_points_length) {
        Ok(()) => CassError::CASS_OK,
        Err(err) => err,
    }
}

/// Adds the contact points of a comma separated list, or says why not.
pub fn cluster_set_contact_points(
    cluster: &mut CassCluster,
    contact_points_raw: Option<&[u8]>,
    contact_points_length: usize,
) -> (res: Result<(), CassError>)
    requires
        old(cluster).wf(),
        is_readable(contact_points_raw, contact_points_length as int),
    ensures
        final(cluster).wf(),
        ({
            let list = c_text(contact_points_raw, contact_points_length as int);
            &&& res is Ok <==> list is Some
            &&& res matches Err(err) ==> err == CassError::CASS_ERROR_LIB_BAD_PARAMS
            &&& final(cluster)@ == after_contact_points(old(cluster)@, list)
        }),
{
    let list: &str = match ptr_to_cstr_n(contact_points_raw, contact_points_length) {
        Some(list) => list,
        None => return Err(CassError::CASS_ERROR_LIB_BAD_PARAMS),
    };
    if is_blank(list) {
        // An empty set of contact points clears them.
        cluster.contact_points.clear();
        assert(texts(cluster.contact_points@) == Seq::<Seq<char>>::empty());
        return Ok(());
    }
    // Contact points add up over several calls.
    proof {
        lemma_listed_points(list@);
    }
    append_listed_points(&mut cluster.contact_points, list);
    Ok(())
}

/// Has no effect.
pub fn cass_cluster_set_use_randomized_contact_points(
    cluster: &mut CassCluster,
    _enabled: cass_bool_t,
) -> (res: CassError)
    requires
        old(cluster).wf(),
    ensures
        final(cluster).wf(),
        res == CassError::CASS_OK,
        final(cluster)@ == old(cluster)@,
{
    CassError::CASS_OK
}

/// Sets the name of the application, a C string.
pub fn cass_cluster_set_application_name(
    cluster: &mut CassCluster,
    app_name: Option<&[u8]>,
)
    requires
        old(cluster).wf(),
        is_c_string(app_name),
        c_text(app_name, c_length(app_name) as int) is Some,
    ensures
        final(cluster).wf(),
        final(cluster)@ == old(cluster)@.with_identity((SelfIdentityView {
            application_name: c_text(app_name, c_length(app_name) as int),
            ..old(cluster)@.session.identity
        })),
{
    let length: usize = strlen(app_name);
    cass_cluster_set_application_name_n(cluster, app_name, length)
}

/// Sets the name of the application, which the server is told.
pub fn cass_cluster_set_application_name_n(
    cluster: &mut CassCluster,
    app_name: Option<&[u8]>,
    app_name_len: usize,
)
    requires
        old(cluster).wf(),
        is_readable(app_name, app_name_len as int),
        c_text(app_name, app_name_len as int) is Some,
    ensures
        final(cluster).wf(),
        final(cluster)@ == old(cluster)@.with_identity((SelfIdentityView {
            application_name: c_text(app_name, app_name_len as int),
            ..old(cluster)@.session.identity
        })),
{
    let app_name: String = ptr_to_cstr_n(app_name, app_name_len).unwrap().to_owned();
    cluster.session_options.identity.application_name = Some(app_name);
}

/// Sets the version of the application, a C string.
pub fn cass_cluster_set_application_version(
    cluster: &mut CassCluster,
    app_version: Option<&[u8]>,
)
    requires
        old(cluster).wf(),
        is_c_string(app_version),
        c_text(app_version, c_length(app_version) as int) is Some,
    ensures
        final(cluster).wf(),
        final(cluster)@ == old(cluster)@.with_identity((SelfIdentityView {
            application_version: c_text(app_version, c_length(app_version) as int),
            ..old(cluster)@.session.identity
        })),
{
    let length: usize = strlen(app_version);
    cass_cluster_set_application_version_n(cluster, app_version, length)
}

/// Sets the version of the application, which the server is told.
pub fn cass_cluster_set_application_version_n(
    cluster: &mut CassCluster,
    app_version: Option<&[u8]>,
    app_version_len: usize,
)
    requires
        old(cluster).wf(),
        is_readable(app_version, app_version_len as int),
        c_text(app_version, app_version_len as int) is Some,
    ensures
        final(cluster).wf(),
        final(cluster)@ == old(cluster)@.with_identity((SelfIdentityView {
            application_version: c_text(app_version, app_version_len as int),
            ..old(cluster)@.session.identity
        })),
{
    let app_version: String = ptr_to_cstr_n(app_version, app_version_len).unwrap().to_owned();
    cluster.session_options.identity.application_version = Some(app_version);
}

/// Sets the identifier of this client, a UUID; the server is told its text.
pub fn cass_cluster_set_client_id(
    cluster: &mut CassCluster,
    client_id: CassUuid,
)
    requires
        old(cluster).wf(),
    ensures
        final(cluster).wf(),
        final(cluster)@ == (CassClusterView {
            client_id: Some(client_id.bits() as u128),
            ..old(cluster)@.with_identity(
                (SelfIdentityView {
                    client_id: Some(uuid_text(client_id.bits() as u128)),
                    ..old(cluster)@.session.identity
                }),
            )
        }),
{
    let client_uuid: u128 = client_id.to_u128();
    let client_uuid_text: String = uuid_to_string(client_uuid);
    cluster.client_id = Some(client_uuid);
    cluster.session_options.identity.client_id = Some(client_uuid_text);
}

/// Switches the fetching of schema metadata.
pub fn cass_cluster_set_use_schema(
    cluster: &mut CassCluster,
    enabled: cass_bool_t,
)
    requires
        old(cluster).wf(),
    ensures
        final(cluster).wf(),
        final(cluster)@ == old(cluster)@.with_session((SessionOptionsView {
            fetch_schema_metadata: enabled != 0,
            ..old(cluster)@.session
        })),
{
    cluster.session_options.fetch_schema_metadata = enabled != 0;
}

/// Switches TCP_NODELAY.
pub fn cass_cluster_set_tcp_nodelay(
    cluster: &mut CassCluster,
    enabled: cass_bool_t,
)
    requires
        old(cluster).wf(),
    ensures
        final(cluster).wf(),
        final(cluster)@ == old(cluster)@.with_session((SessionOptionsView {
            tcp_nodelay: enabled != 0,
            ..old(cluster)@.session
        })),
{
    cluster.session_options.tcp_nodelay = enabled != 0;
}

/// Switches TCP keepalive probes, and says how many seconds lie between them.
pub fn cass_cluster_set_tcp_keepalive(
    cluster: &mut CassCluster,
    enabled: cass_bool_t,
    delay_secs: u32,
)
    requires
        old(cluster).wf(),
    ensures
        final(cluster).wf(),
        final(cluster)@ == old(cluster)@.with_session((SessionOptionsView {
            tcp_keepalive_interval_ms: if enabled != 0 {
                Some((delay_secs * 1000) as u64)
            } else {
                None
            },
            ..old(cluster)@.session
        })),
{
    cluster.session_options.tcp_keepalive_interval_ms = if enabled != 0 {
        Some(delay_secs as u64 * 1000)
    } else {
        None
    };
}

/// Sets the seconds between heartbeats; zero sends none.
pub fn cass_cluster_set_connection_heartbeat_interval(
    cluster: &mut CassCluster,
    interval_secs: u32,
)
    requires
        old(cluster).wf(),
    ensures
        final(cluster).wf(),
        final(cluster)@ == old(cluster)@.with_session((SessionOptionsView {
            keepalive_interval_ms: if interval_secs > 0 {
                Some((interval_secs * 1000) as u64)
            } else {
                None
            },
            ..old(cluster)@.session
        })),
{
    cluster.session_options.keepalive_interval_ms = if interval_secs > 0 {
        Some(interval_secs as u64 * 1000)
    } else {
        None
    };
}

/// Sets the seconds that the answer to a heartbeat is waited for; zero waits
/// without limit.
pub fn cass_cluster_set_connection_idle_timeout(
    cluster: &mut CassCluster,
    timeout_secs: u32,
)
    requires
        old(cluster).wf(),
    ensures
        final(cluster).wf(),
        final(cluster)@ == old(cluster)@.with_session((SessionOptionsView {
            keepalive_timeout_ms: if timeout_secs > 0 {
                Some((timeout_secs * 1000) as u64)
            } else {
                None
            },
            ..old(cluster)@.session
        })),
{
    cluster.session_options.keepalive_timeout_ms = if timeout_secs > 0 {
        Some(timeout_secs as u64 * 1000)
    } else {
        None
    };
}

/// Sets the milliseconds that opening a connection may take.
pub fn cass_cluster_set_connect_timeout(
    cluster: &mut CassCluster,
    timeout_ms: u32,
)
    requires
        old(cluster).wf(),
    ensures
        final(cluster).wf(),
        final(cluster)@ == old(cluster)@.with_session((SessionOptionsView {
            connect_timeout_ms: timeout_ms as u64,
            ..old(cluster)@.session
        })),
{
    cluster.session_options.connect_timeout_ms = timeout_ms as u64;
}

/// Sets the milliseconds that the answer to a request is waited for; zero
/// waits without limit.
pub fn cass_cluster_set_request_timeout(
    cluster: &mut CassCluster,
    timeout_ms: u32,
)
    requires
        old(cluster).wf(),
    ensures
        final(cluster).wf(),
        final(cluster)@ == old(cluster)@.with_profile((ExecutionProfileSettings {
            request_timeout_ms: Some(
                if timeout_ms > 0 {
                    Some(timeout_ms as u64)
                } else {
                    None
                },
            ),
            ..old(cluster)@.default_execution_profile
        })),
{
    cluster.default_execution_profile.request_timeout_ms =
    Some(
        if timeout_ms > 0 {
            Some(timeout_ms as u64)
        } else {
            None
        },
    );
}

/// Sets the milliseconds that schema agreement is waited for.
pub fn cass_cluster_set_max_schema_wait_time(
    cluster: &mut CassCluster,
    wait_time_ms: u32,
)
    requires
        old(cluster).wf(),
    ensures
        final(cluster).wf(),
        final(cluster)@ == old(cluster)@.with_session((SessionOptionsView {
            schema_agreement_timeout_ms: wait_time_ms as u64,
            ..old(cluster)@.session
        })),
{
    cluster.session_options.schema_agreement_timeout_ms = wait_time_ms as u64;
}

/// Sets the milliseconds between two questions for schema agreement.
pub fn cass_cluster_set_schema_agreement_interval(
    cluster: &mut CassCluster,
    interval_ms: u32,
)
    requires
        old(cluster).wf(),
    ensures
        final(cluster).wf(),
        final(cluster)@ == old(cluster)@.with_session((SessionOptionsView {
            schema_agreement_interval_ms: interval_ms as u64,
            ..old(cluster)@.session
        })),
{
    cluster.session_options.schema_agreement_interval_ms = interval_ms as u64;
}

/// Sets the port, of which the sixteen low bits count. A port that is not
/// positive is refused.
pub fn cass_cluster_set_port(
    cluster: &mut CassCluster,
    port: i32,
) -> (res: CassError)
    requires
        old(cluster).wf(),
    ensures
        final(cluster).wf(),
        res == answer(port > 0),
        final(cluster)@ == if port > 0 {
            CassClusterView { port: (port % 0x10000) as u16, ..old(cluster)@ }
        } else {
            old(cluster)@
        },
{
    if port <= 0 {
        return CassError::CASS_ERROR_LIB_BAD_PARAMS;
    }
    assert(#[verifier::truncate] (port as u16) == port % 0x10000) by (bit_vector)
        requires
            port > 0,
    ;
    cluster.port = #[verifier::truncate] (port as u16);
    CassError::CASS_OK
}

/// Sets user name and password, two C strings.
pub fn cass_cluster_set_credentials(
    cluster: &mut CassCluster,
    username: Option<&[u8]>,
    password: Option<&[u8]>,
)
    requires
        old(cluster).wf(),
        is_c_string(username),
        is_c_string(password),
        c_text(username, c_length(username) as int) is Some,
        c_text(password, c_length(password) as int) is Some,
    ensures
        final(cluster).wf(),
        final(cluster)@ == (CassClusterView {
            auth_username: c_text(username, c_length(username) as int),
            auth_password: c_text(password, c_length(password) as int),
            ..old(cluster)@
        }),
{
    let username_length: usize = strlen(username);
    let password_length: usize = strlen(password);
    cass_cluster_set_credentials_n(
        cluster,
        username,
        username_length,
        password,
        password_length,
    )
}

/// Sets user name and password.
pub fn cass_cluster_set_credentials_n(
    cluster: &mut CassCluster,
    username_raw: Option<&[u8]>,
    username_length: usize,
    password_raw: Option<&[u8]>,
    password_length: usize,
)
    requires
        old(cluster).wf(),
        is_readable(username_raw, username_length as int),
        is_readable(password_raw, password_length as int),
        c_text(username_raw, username_length as int) is Some,
        c_text(password_raw, password_length as int) is Some,
    ensures
        final(cluster).wf(),
        final(cluster)@ == (CassClusterView {
            auth_username: c_text(username_raw, username_length as int),
            auth_password: c_text(password_raw, password_length as int),
            ..old(cluster)@
        }),
{
    let username: String = ptr_to_cstr_n(username_raw, username_length).unwrap().to_owned();
    let password: String = ptr_to_cstr_n(password_raw, password_length).unwrap().to_owned();
    cluster.auth_username = Some(username);
    cluster.auth_password = Some(password);
}

/// Prefers no nodes to others.
pub fn cass_cluster_set_load_balance_round_robin(
    cluster: &mut CassCluster,
)
    requires
        old(cluster).wf(),
    ensures
        final(cluster).wf(),
        final(cluster)@ == old(cluster)@.with_load_balancing((LoadBalancingConfigView {
            load_balancing_kind: Some(LoadBalancingKindView::RoundRobin),
            ..old(cluster)@.load_balancing
        })),
{
    cluster.load_balancing_config.load_balancing_kind = Some(LoadBalancingKind::RoundRobin);
}

/// Prefers the nodes of a datacenter, whose name is a C string. See
/// [`cass_cluster_set_load_balance_dc_aware_n`].
pub fn cass_cluster_set_load_balance_dc_aware(
    cluster: &mut CassCluster,
    local_dc: Option<&[u8]>,
    used_hosts_per_remote_dc: u32,
    allow_remote_dcs_for_local_cl: cass_bool_t,
) -> (res: CassError)
    requires
        old(cluster).wf(),
        is_c_string(local_dc),
        dc_aware_kind(
            local_dc,
            c_length(local_dc) as int,
            used_hosts_per_remote_dc,
            allow_remote_dcs_for_local_cl,
        ) is Some ==> c_text(local_dc, c_length(local_dc) as int) is Some,
    ensures
        final(cluster).wf(),
        ({
            let kind = dc_aware_kind(
                local_dc,
                c_length(local_dc) as int,
                used_hosts_per_remote_dc,
                allow_remote_dcs_for_local_cl,
            );
            &&& res == answer(kind is Some)
            &&& final(cluster)@ == old(cluster)@.with_load_balancing(
                old(cluster)@.load_balancing.choose_kind(kind),
            )
        }),
{
    let local_dc_length: usize = strlen(local_dc);
    cass_cluster_set_load_balance_dc_aware_n(
        cluster,
        local_dc,
        local_dc_length,
        used_hosts_per_remote_dc,
        allow_remote_dcs_for_local_cl,
    )
}

/// Prefers the nodes of a datacenter. No name, an empty one, or a deprecated
/// parameter that is not zero are refused.
pub fn cass_cluster_set_load_balance_dc_aware_n(
    cluster: &mut CassCluster,
    local_dc_raw: Option<&[u8]>,
    local_dc_length: usize,
    used_hosts_per_remote_dc: u32,
    allow_remote_dcs_for_local_cl: cass_bool_t,
) -> (res: CassError)
    requires
        old(cluster).wf(),
        is_readable(local_dc_raw, local_dc_length as int),
        dc_aware_kind(
            local_dc_raw,
            local_dc_length as int,
            used_hosts_per_remote_dc,
            allow_remote_dcs_for_local_cl,
        ) is Some ==> c_text(local_dc_raw, local_dc_length as int) is Some,
    ensures
        final(cluster).wf(),
        ({
            let kind = dc_aware_kind(
                local_dc_raw,
                local_dc_length as int,
                used_hosts_per_remote_dc,
                allow_remote_dcs_for_local_cl,
            );
            &&& res == answer(kind is Some)
            &&& final(cluster)@ == old(cluster)@.with_load_balancing(
                old(cluster)@.load_balancing.choose_kind(kind),
            )
        }),
{
    set_load_balance_dc_aware_n(
        &mut cluster.load_balancing_config,
        local_dc_raw,
        local_dc_length,
        used_hosts_per_remote_dc,
        allow_remote_dcs_for_local_cl,
    )
}

/// Prefers the nodes of a rack in a datacenter, whose names are C strings. See
/// [`cass_cluster_set_load_balance_rack_aware_n`].
pub fn cass_cluster_set_load_balance_rack_aware(
    cluster: &mut CassCluster,
    local_dc_raw: Option<&[u8]>,
    local_rack_raw: Option<&[u8]>,
) -> (res: CassError)
    requires
        old(cluster).wf(),
        is_c_string(local_dc_raw),
        is_c_string(local_rack_raw),
    ensures
        final(cluster).wf(),
        ({
            let kind = rack_aware_kind(
                local_dc_raw,
                c_length(local_dc_raw) as int,
                local_rack_raw,
                c_length(local_rack_raw) as int,
            );
            &&& res == answer(kind is Some)
            &&& final(cluster)@ == old(cluster)@.with_load_balancing(
                old(cluster)@.load_balancing.choose_kind(kind),
            )
        }),
{
    let local_dc_length: usize = strlen(local_dc_raw);
    let local_rack_length: usize = strlen(local_rack_raw);
    cass_cluster_set_load_balance_rack_aware_n(
        cluster,
        local_dc_raw,
        local_dc_length,
        local_rack_raw,
        local_rack_length,
    )
}

/// Prefers the nodes of a rack in a datacenter. A name that is a NULL pointer,
/// is empty or is not UTF-8 is refused.
pub fn cass_cluster_set_load_balance_rack_aware_n(
    cluster: &mut CassCluster,
    local_dc_raw: Option<&[u8]>,
    local_dc_length: usize,
    local_rack_raw: Option<&[u8]>,
    local_rack_length: usize,
) -> (res: CassError)
    requires
        old(cluster).wf(),
        is_readable(local_dc_raw, local_dc_length as int),
        is_readable(local_rack_raw, local_rack_length as int),
    ensures
        final(cluster).wf(),
        ({
            let kind = rack_aware_kind(
                local_dc_raw,
                local_dc_length as int,
                local_rack_raw,
                local_rack_length as int,
            );
            &&& res == answer(kind is Some)
            &&& final(cluster)@ == old(cluster)@.with_load_balancing(
                old(cluster)@.load_balancing.choose_kind(kind),
            )
        }),
{
    set_load_balance_rack_aware_n(
        &mut cluster.load_balancing_config,
        local_dc_raw,
        local_dc_length,
        local_rack_raw,
        local_rack_length,
    )
}

/// Accepts any name of a connection bundle but `invalid_filename`. The bundle
/// itself is not read.
pub fn cass_cluster_set_cloud_secure_connection_bundle_n(
    cluster: &mut CassCluster,
    path: Option<&[u8]>,
    path_length: usize,
) -> (res: CassError)
    requires
        old(cluster).wf(),
        is_readable(path, path_length as int),
        c_text(path, path_length as int) is Some,
    ensures
        final(cluster).wf(),
        res == answer(c_text(path, path_length as int)->0 != "invalid_filename"@),
        final(cluster)@ == old(cluster)@,
{
    let zip_file: String = ptr_to_cstr_n(path, path_length).unwrap().to_owned();
    if zip_file == "invalid_filename".to_owned() {
        return CassError::CASS_ERROR_LIB_BAD_PARAMS;
    }
    CassError::CASS_OK
}

/// Checks the delays of an exponential reconnection policy: both above one
/// millisecond, the longest not below the first. They have no other effect.
pub fn cass_cluster_set_exponential_reconnect(
    cluster: &mut CassCluster,
    base_delay_ms: u64,
    max_delay_ms: u64,
) -> (res: CassError)
    requires
        old(cluster).wf(),
    ensures
        final(cluster).wf(),
        res == answer(base_delay_ms > 1 && max_delay_ms > 1 && max_delay_ms >= base_delay_ms),
        final(cluster)@ == old(cluster)@,
{
    if base_delay_ms <= 1 {
        // Base delay must be greater than 1.
        return CassError::CASS_ERROR_LIB_BAD_PARAMS;
    }
    if max_delay_ms <= 1 {
        // Max delay must be greater than 1.
        return CassError::CASS_ERROR_LIB_BAD_PARAMS;
    }
    if max_delay_ms < base_delay_ms {
        // Max delay cannot be less than base delay.
        return CassError::CASS_ERROR_LIB_BAD_PARAMS;
    }
    CassError::CASS_OK
}

/// Custom payloads are not supported: there is never one.
pub fn cass_custom_payload_new() -> (payload: Option<CassCustomPayload>)
    ensures
        payload is None,
{
    None
}

/// Has no effect on the item of a future's custom payload that it names.
pub fn cass_future_custom_payload_item(
    _i: usize,
    _name: Option<&[u8]>,
    _name_length: usize,
    _value: Option<&[u8]>,
    _value_size: usize,
) -> (res: CassError)
    ensures
        res == CassError::CASS_OK,
{
    CassError::CASS_OK
}

/// The custom payload of a future has no items.
pub fn cass_future_custom_payload_item_count() -> (count: usize)
    ensures
        count == 0,
{
    0
}

/// Switches the newest beta version of the protocol; only [`cass_true`]
/// switches it on.
pub fn cass_cluster_set_use_beta_protocol_version(
    cluster: &mut CassCluster,
    enable: cass_bool_t,
) -> (res: CassError)
    requires
        old(cluster).wf(),
    ensures
        final(cluster).wf(),
        res == CassError::CASS_OK,
        final(cluster)@ == (CassClusterView {
            use_beta_protocol_version: enable == cass_true,
            ..old(cluster)@
        }),
{
    cluster.use_beta_protocol_version = enable == cass_true;
    CassError::CASS_OK
}

/// Accepts version 4 of the protocol, unless a beta version is in use, and no
/// other.
pub fn cass_cluster_set_protocol_version(
    cluster: &CassCluster,
    protocol_version: i32,
) -> (res: CassError)
    requires
        cluster.wf(),
    ensures
        res == answer(protocol_version == 4 && !cluster@.use_beta_protocol_version),
{
    if protocol_version == 4 && !cluster.use_beta_protocol_version {
        CassError::CASS_OK
    } else {
        CassError::CASS_ERROR_LIB_BAD_PARAMS
    }
}

/// Has no effect.
pub fn cass_cluster_set_queue_size_event(
    cluster: &mut CassCluster,
    _queue_size: u32,
) -> (res: CassError)
    requires
        old(cluster).wf(),
    ensures
        final(cluster).wf(),
        res == CassError::CASS_OK,
        final(cluster)@ == old(cluster)@,
{
    CassError::CASS_OK
}

/// Sends statements again while no answer came, up to
/// `max_speculative_executions` times and `constant_delay_ms` milliseconds
/// apart. Negative numbers are refused.
pub fn cass_cluster_set_constant_speculative_execution_policy(
    cluster: &mut CassCluster,
    constant_delay_ms: i64,
    max_speculative_executions: i32,
) -> (res: CassError)
    requires
        old(cluster).wf(),
    ensures
        final(cluster).wf(),
        res == answer(constant_delay_ms >= 0 && max_speculative_executions >= 0),
        final(cluster)@ == if constant_delay_ms >= 0 && max_speculative_executions >= 0 {
            old(cluster)@.with_profile((ExecutionProfileSettings {
                speculative_execution: Some(
                    Some(
                        SpeculativeExecution {
                            max_retry_count: max_speculative_executions as usize,
                            retry_interval_ms: constant_delay_ms as u64,
                        },
                    ),
                ),
                ..old(cluster)@.default_execution_profile
            }))
        } else {
            old(cluster)@
        },
{
    if constant_delay_ms < 0 || max_speculative_executions < 0 {
        return CassError::CASS_ERROR_LIB_BAD_PARAMS;
    }
    let policy = SpeculativeExecution {
        max_retry_count: max_speculative_executions as usize,
        retry_interval_ms: constant_delay_ms as u64,
    };
    cluster.default_execution_profile.speculative_execution = Some(Some(policy));
    CassError::CASS_OK
}

/// Never sends a statement again while no answer came.
pub fn cass_cluster_set_no_speculative_execution_policy(
    cluster: &mut CassCluster,
) -> (res: CassError)
    requires
        old(cluster).wf(),
    ensures
        final(cluster).wf(),
        res == CassError::CASS_OK,
        final(cluster)@ == old(cluster)@.with_profile((ExecutionProfileSettings {
            speculative_execution: Some(None),
            ..old(cluster)@.default_execution_profile
        })),
{
    cluster.default_execution_profile.speculative_execution = Some(None);
    CassError::CASS_OK
}

/// Switches token aware routing.
pub fn cass_cluster_set_token_aware_routing(
    cluster: &mut CassCluster,
    enabled: cass_bool_t,
)
    requires
        old(cluster).wf(),
    ensures
        final(cluster).wf(),
        final(cluster)@ == old(cluster)@.with_load_balancing((LoadBalancingConfigView {
            token_awareness_enabled: enabled != 0,
            ..old(cluster)@.load_balancing
        })),
{
    cluster.load_balancing_config.token_awareness_enabled = enabled != 0;
}

/// Switches the shuffling of replicas, which token aware routing may do.
pub fn cass_cluster_set_token_aware_routing_shuffle_replicas(
    cluster: &mut CassCluster,
    enabled: cass_bool_t,
)
    requires
        old(cluster).wf(),
    ensures
        final(cluster).wf(),
        final(cluster)@ == old(cluster)@.with_load_balancing((LoadBalancingConfigView {
            token_aware_shuffling_replicas_enabled: enabled != 0,
            ..old(cluster)@.load_balancing
        })),
{
    cluster.load_balancing_config.token_aware_shuffling_replicas_enabled = enabled != 0;
}

/// Sets the retry policy, an object that the cluster shares with the caller.
pub fn cass_cluster_set_retry_policy(
    cluster: &mut CassCluster,
    retry_policy: &CassRetryPolicy,
)
    requires
        old(cluster).wf(),
    ensures
        final(cluster).wf(),
        final(cluster)@ == old(cluster)@.with_profile((ExecutionProfileSettings {
            retry_policy: Some(*retry_policy),
            ..old(cluster)@.default_execution_profile
        })),
{
    cluster.default_execution_profile.retry_policy = Some(retry_policy.clone());
}

/// Encrypts connections by this TLS context.
pub fn cass_cluster_set_ssl(
    cluster: &mut CassCluster,
    ssl_context: SslContext,
)
    requires
        old(cluster).wf(),
    ensures
        final(cluster).wf(),
        final(cluster)@ == old(cluster)@.with_session((SessionOptionsView {
            tls_context: Some(ssl_context),
            ..old(cluster)@.session
        })),
{
    cluster.session_options.tls_context = Some(ssl_context);
}

/// Sets the compression of connections; any other than LZ4 and Snappy means
/// none.
pub fn cass_cluster_set_compression(
    cluster: &mut CassCluster,
    compression_type: CassCompressionType,
)
    requires
        old(cluster).wf(),
    ensures
        final(cluster).wf(),
        final(cluster)@ == old(cluster)@.with_session((SessionOptionsView {
            compression: compression_type.algorithm(),
            ..old(cluster)@.session
        })),
{
    cluster.session_options.compression = match compression_type {
        CassCompressionType::CASS_COMPRESSION_LZ4 => Some(Compression::Lz4),
        CassCompressionType::CASS_COMPRESSION_SNAPPY => Some(Compression::Snappy),
        _ => None,
    };
}

/// Switches latency aware routing.
pub fn cass_cluster_set_latency_aware_routing(
    cluster: &mut CassCluster,
    enabled: cass_bool_t,
)
    requires
        old(cluster).wf(),
    ensures
        final(cluster).wf(),
        final(cluster)@ == old(cluster)@.with_load_balancing((LoadBalancingConfigView {
            latency_awareness_enabled: enabled != 0,
            ..old(cluster)@.load_balancing
        })),
{
    cluster.load_balancing_config.latency_awareness_enabled = enabled != 0;
}

/// Sets the options of latency aware routing. `threshold` is a builder that has
/// the exclusion threshold, a floating point number; nothing else of it counts.
/// Times are in milliseconds. The driver takes no scale of zero.
pub fn cass_cluster_set_latency_aware_routing_settings(
    cluster: &mut CassCluster,
    threshold: LatencyAwarenessBuilder,
    scale_ms: u64,
    retry_period_ms: u64,
    update_rate_ms: u64,
    min_measured: u64,
)
    requires
        old(cluster).wf(),
        scale_ms > 0,
    ensures
        final(cluster).wf(),
        final(cluster)@ == old(cluster)@.with_load_balancing((LoadBalancingConfigView {
            latency_awareness_settings: LatencyAwarenessSettings {
                exclusion_threshold_bits: latency_options(threshold).exclusion_threshold_bits,
                scale_ms,
                retry_period_ms,
                update_rate_ms,
                minimum_measurements: min_measured as usize,
            },
            ..old(cluster)@.load_balancing
        })),
{
    cluster.load_balancing_config.latency_awareness_builder =
    latency_awareness_builder(
        threshold,
        scale_ms,
        retry_period_ms,
        update_rate_ms,
        #[verifier::truncate] (min_measured as usize),
    );
}

/// Sets the consistency of statements that name no other. A name that stands
/// for no level is refused.
pub fn cass_cluster_set_consistency(
    cluster: &mut CassCluster,
    consistency: CassConsistency,
) -> (res: CassError)
    requires
        old(cluster).wf(),
    ensures
        final(cluster).wf(),
        res == answer(consistency.level() is Some),
        final(cluster)@ == if consistency.level() is Some {
            old(cluster)@.with_profile((ExecutionProfileSettings {
                consistency: consistency.level(),
                ..old(cluster)@.default_execution_profile
            }))
        } else {
            old(cluster)@
        },
{
    match consistency.to_consistency() {
        Some(level) => {
            cluster.default_execution_profile.consistency = Some(level);
            CassError::CASS_OK
        },
        None => CassError::CASS_ERROR_LIB_BAD_PARAMS,
    }
}

/// Sets the serial consistency of statements that name no other. A name that
/// stands for no serial level is refused.
pub fn cass_cluster_set_serial_consistency(
    cluster: &mut CassCluster,
    serial_consistency: CassConsistency,
) -> (res: CassError)
    requires
        old(cluster).wf(),
    ensures
        final(cluster).wf(),
        res == answer(serial_consistency.serial_level() is Some),
        final(cluster)@ == if serial_consistency.serial_level() is Some {
            old(cluster)@.with_profile((ExecutionProfileSettings {
                serial_consistency: Some(serial_consistency.serial_level()),
                ..old(cluster)@.default_execution_profile
            }))
        } else {
            old(cluster)@
        },
{
    match serial_consistency.to_serial_consistency() {
        Some(level) => {
            cluster.default_execution_profile.serial_consistency = Some(Some(level));
            CassError::CASS_OK
        },
        None => CassError::CASS_ERROR_LIB_BAD_PARAMS,
    }
}

/// The profiles after `profile` was registered under `name`, or as they are
/// where there is no profile, no name, or an empty one.
pub open spec fn after_registration(
    profiles: Map<Seq<char>, CassExecProfileView>,
    name: Option<Seq<char>>,
    profile: Option<&CassExecProfile>,
) -> Map<Seq<char>, CassExecProfileView> {
    match (name, profile) {
        (Some(text), Some(p)) => if text.len() > 0 {
            profiles.insert(text, p@)
        } else {
            profiles
        },
        _ => profiles,
    }
}

/// Whether a registration is accepted: there are a profile and a name that is
/// not empty.
pub open spec fn registration_accepted(
    name: Option<Seq<char>>,
    profile: Option<&CassExecProfile>,
) -> bool {
    name is Some && name->0.len() > 0 && profile is Some
}

/// Registers a copy of an execution profile under a name, a C string. See
/// [`cass_cluster_set_execution_profile_n`].
pub fn cass_cluster_set_execution_profile(
    cluster: &mut CassCluster,
    name: Option<&[u8]>,
    profile: Option<&CassExecProfile>,
) -> (res: CassError)
    requires
        old(cluster).wf(),
        is_c_string(name),
    ensures
        final(cluster).wf(),
        ({
            let text = c_text(name, c_length(name) as int);
            &&& res == answer(registration_accepted(text, profile))
            &&& final(cluster)@ == (CassClusterView {
                execution_profiles: after_registration(
                    old(cluster)@.execution_profiles,
                    text,
                    profile,
                ),
                ..old(cluster)@
            })
        }),
{
    let length: usize = strlen(name);
    cass_cluster_set_execution_profile_n(cluster, name, length, profile)
}

/// Registers a copy of an execution profile under a name; a profile that had
/// the name before is replaced. A NULL pointer for either, a name that is empty
/// and one that is not UTF-8 are refused.
pub fn cass_cluster_set_execution_profile_n(
    cluster: &mut CassCluster,
    name: Option<&[u8]>,
    name_length: usize,
    profile: Option<&CassExecProfile>,
) -> (res: CassError)
    requires
        old(cluster).wf(),
        is_readable(name, name_length as int),
    ensures
        final(cluster).wf(),
        ({
            let text = c_text(name, name_length as int);
            &&& res == answer(registration_accepted(text, profile))
            &&& final(cluster)@ == (CassClusterView {
                execution_profiles: after_registration(
                    old(cluster)@.execution_profiles,
                    text,
                    profile,
                ),
                ..old(cluster)@
            })
        }),
        res == CassError::CASS_OK <==> {
            &&& name is Some
            &&& name_length > 0
            &&& valid_utf8(name->0@.take(name_length as int))
            &&& profile is Some
        },
        res == CassError::CASS_OK ==> final(cluster)@.execution_profiles == old(
            cluster,
        )@.execution_profiles.insert(
            decode_utf8(name->0@.take(name_length as int)),
            profile->0@,
        ),
{
    let name: ExecProfileName = match ptr_to_cstr_n(name, name_length) {
        Some(text) => match ExecProfileName::try_from(text.to_owned()) {
            Ok(name) => name,
            Err(_) => return CassError::CASS_ERROR_LIB_BAD_PARAMS,
        },
        None => return CassError::CASS_ERROR_LIB_BAD_PARAMS,
    };
    let profile: CassExecProfile = match profile {
        Some(profile) => profile.clone(),
        None => return CassError::CASS_ERROR_LIB_BAD_PARAMS,
    };
    cluster.execution_profile_map.insert(name, profile);
    CassError::CASS_OK
}

/// What a session is built from: the driver's session configuration, and its
/// builders of the default execution profile and of that profile's load
/// balancing policy.
pub struct SessionParts {
    pub config: SessionConfig,
    pub execution_profile: ExecutionProfileBuilder,
    pub load_balancing: DefaultPolicyBuilder,
}

/// Everything that a session to this cluster is built from. What remains, to
/// build the policy, the profile and the session of it, starts background
/// tasks and is left to the caller.
pub fn build_session_builder(cluster: &CassCluster) -> (parts: SessionParts)
    requires
        cluster.wf(),
    ensures
        session_contents(parts.config) == cluster@.session_contents(),
        session_contents(parts.config).options == cluster@.session,
        session_contents(parts.config).known_nodes.len() == cluster@.contact_points.len(),
        forall|i: int|
            0 <= i < cluster@.contact_points.len() ==> #[trigger] session_contents(
                parts.config,
            ).known_nodes[i] == cluster@.contact_points[i] + seq![':'] + decimal(
                cluster@.port as nat,
            ),
        session_contents(parts.config).user == match (
            cluster@.auth_username,
            cluster@.auth_password,
        ) {
            (Some(username), Some(password)) => Some((username, password)),
            _ => None,
        },
        session_contents(parts.config).others_have_defaults,
        profile_options(parts.execution_profile) == cluster@.default_execution_profile,
        policy_options(parts.load_balancing) == cluster@.load_balancing.policy(),
{
    let mut config = session_config(&cluster.session_options);
    let nodes: Vec<String> = known_nodes(&cluster.contact_points, cluster.port);
    add_known_nodes(&mut config, &nodes);
    assert(Seq::<Seq<char>>::empty() + texts(nodes@) == texts(nodes@));
    if let (Some(username), Some(password)) = (&cluster.auth_username, &cluster.auth_password) {
        set_user(&mut config, username.clone(), password.clone());
    }
    SessionParts {
        config,
        execution_profile: cluster.default_execution_profile.to_builder(),
        load_balancing: cluster.load_balancing_config.clone().build(),
    }
}

/// The driver's session configuration with these options, no nodes and no
/// user; everything else as the driver has it by default.
fn session_config(options: &SessionOptions) -> (config: SessionConfig)
    ensures
        session_contents(config) == (SessionContents {
            options: options@,
            known_nodes: Seq::empty(),
            user: None,
            others_have_defaults: true,
        }),
{
    let mut config = new_session_config();
    set_flags_and_times(&mut config, options);
    set_compression(&mut config, options.compression);
    if let Some(context) = &options.tls_context {
        set_tls_context(&mut config, context.clone());
    }
    if let Some(name) = &options.identity.custom_driver_name {
        set_custom_driver_name(&mut config, name.clone());
    }
    if let Some(version) = &options.identity.custom_driver_version {
        set_custom_driver_version(&mut config, version.clone());
    }
    if let Some(name) = &options.identity.application_name {
        set_application_name(&mut config, name.clone());
    }
    if let Some(version) = &options.identity.application_version {
        set_application_version(&mut config, version.clone());
    }
    if let Some(id) = &options.identity.client_id {
        set_client_id(&mut config, id.clone());
    }
    config
}

} // verus!
