use cass_cluster::cluster::{
    build_session_builder, cass_cluster_new, cass_cluster_set_application_name,
    cass_cluster_set_application_name_n, cass_cluster_set_application_version,
    cass_cluster_set_application_version_n, cass_cluster_set_client_id,
    cass_cluster_set_cloud_secure_connection_bundle_n, cass_cluster_set_compression,
    cass_cluster_set_connect_timeout, cass_cluster_set_consistency,
    cass_cluster_set_contact_points, cass_cluster_set_connection_heartbeat_interval,
    cass_cluster_set_connection_idle_timeout, cass_cluster_set_credentials,
    cass_cluster_set_credentials_n, cass_cluster_set_execution_profile,
    cass_cluster_set_exponential_reconnect, cass_cluster_set_load_balance_dc_aware,
    cass_cluster_set_load_balance_round_robin, cass_cluster_set_max_schema_wait_time,
    cass_cluster_set_port, cass_cluster_set_protocol_version,
    cass_cluster_set_queue_size_event, cass_cluster_set_schema_agreement_interval,
    cass_cluster_set_ssl, cass_cluster_set_tcp_keepalive, cass_cluster_set_tcp_nodelay,
    cass_cluster_set_use_beta_protocol_version, cass_cluster_set_use_randomized_contact_points,
    cass_cluster_set_use_schema, cass_custom_payload_new, cass_future_custom_payload_item,
    cass_future_custom_payload_item_count, CassCluster,
};
use cass_cluster::exec_profile::cass_execution_profile_new;
use cass_cluster::load_balancing::LoadBalancingKind;
use cass_cluster::types::{CassCompressionType, CassConsistency, CassError, CassUuid, Compression, Consistency};
use openssl::ssl::{SslContextBuilder, SslMethod};
use scylla::client::session::SessionConfig;
use std::time::Duration;

/// The driver's configuration of a session to the cluster.
fn config_of(cluster: &CassCluster) -> SessionConfig {
    build_session_builder(cluster).config
}

#[test]
fn defaults_reach_the_driver() {
    let config = config_of(&cass_cluster_new());
    assert!(config.known_nodes.is_empty());
    assert!(config.authenticator.is_none());
    assert!(config.tls_context.is_none());
    assert_eq!(config.compression, None);
    assert!(config.fetch_schema_metadata);
    assert_eq!(config.schema_agreement_timeout, Duration::from_millis(10000));
    assert_eq!(config.schema_agreement_interval, Duration::from_millis(200));
    assert!(config.tcp_nodelay);
    assert_eq!(config.tcp_keepalive_interval, None);
    assert_eq!(config.connect_timeout, Duration::from_millis(5000));
    assert_eq!(config.keepalive_interval, Some(Duration::from_secs(30)));
    assert_eq!(config.keepalive_timeout, Some(Duration::from_secs(60)));
    assert_eq!(
        config.identity.get_custom_driver_name(),
        Some("ScyllaDB Cpp-Rust Driver")
    );
    assert_eq!(config.identity.get_custom_driver_version(), Some("0.5.0"));
    assert_eq!(config.identity.get_application_name(), None);
    assert_eq!(config.identity.get_application_version(), None);
    assert_eq!(config.identity.get_client_id(), None);
}

#[test]
fn other_options_keep_the_drivers_defaults() {
    let mut cluster = cass_cluster_new();
    cass_cluster_set_contact_points(&mut cluster, Some(b"a\0"));
    cass_cluster_set_credentials(&mut cluster, Some(b"u\0"), Some(b"p\0"));
    cass_cluster_set_connect_timeout(&mut cluster, 4);
    let config = config_of(&cluster);
    let driver = SessionConfig::new();
    assert_eq!(config.local_ip_address, driver.local_ip_address);
    assert_eq!(config.tcp_recv_buffer_size, driver.tcp_recv_buffer_size);
    assert_eq!(config.tcp_send_buffer_size, driver.tcp_send_buffer_size);
    assert_eq!(config.tcp_reuse_address, driver.tcp_reuse_address);
    assert_eq!(config.tcp_linger, driver.tcp_linger);
    assert_eq!(config.used_keyspace, driver.used_keyspace);
    assert_eq!(config.keyspace_case_sensitive, driver.keyspace_case_sensitive);
    assert_eq!(
        format!("{:?}", config.connection_pool_size),
        format!("{:?}", driver.connection_pool_size)
    );
    assert_eq!(config.disallow_shard_aware_port, driver.disallow_shard_aware_port);
    assert!(config.timestamp_generator.is_none());
    assert_eq!(config.keyspaces_to_fetch, driver.keyspaces_to_fetch);
    assert_eq!(
        config.metadata_request_serverside_timeout,
        driver.metadata_request_serverside_timeout
    );
    assert_eq!(
        config.schema_agreement_automatic_waiting,
        driver.schema_agreement_automatic_waiting
    );
    assert_eq!(
        config.hostname_resolution_timeout,
        driver.hostname_resolution_timeout
    );
    assert!(config.address_translator.is_none());
    assert!(config.host_filter.is_none());
    assert_eq!(config.enable_write_coalescing, driver.enable_write_coalescing);
    assert_eq!(
        config.cluster_metadata_refresh_interval,
        driver.cluster_metadata_refresh_interval
    );
}

#[test]
fn flags_and_times_reach_the_driver() {
    let mut cluster = cass_cluster_new();
    cass_cluster_set_use_schema(&mut cluster, 0);
    cass_cluster_set_tcp_nodelay(&mut cluster, 0);
    cass_cluster_set_tcp_keepalive(&mut cluster, 1, 1);
    cass_cluster_set_connection_heartbeat_interval(&mut cluster, 2);
    cass_cluster_set_connection_idle_timeout(&mut cluster, 3);
    cass_cluster_set_connect_timeout(&mut cluster, 4);
    cass_cluster_set_max_schema_wait_time(&mut cluster, 5);
    cass_cluster_set_schema_agreement_interval(&mut cluster, 6);

    let options = cluster.get_session_config();
    assert!(!options.fetch_schema_metadata);
    assert!(!options.tcp_nodelay);
    assert_eq!(options.tcp_keepalive_interval_ms, Some(1000));
    assert_eq!(options.keepalive_interval_ms, Some(2000));
    assert_eq!(options.keepalive_timeout_ms, Some(3000));
    assert_eq!(options.connect_timeout_ms, 4);
    assert_eq!(options.schema_agreement_timeout_ms, 5);
    assert_eq!(options.schema_agreement_interval_ms, 6);

    let config = config_of(&cluster);
    assert!(!config.fetch_schema_metadata);
    assert!(!config.tcp_nodelay);
    assert_eq!(config.tcp_keepalive_interval, Some(Duration::from_secs(1)));
    assert_eq!(config.keepalive_interval, Some(Duration::from_secs(2)));
    assert_eq!(config.keepalive_timeout, Some(Duration::from_secs(3)));
    assert_eq!(config.connect_timeout, Duration::from_millis(4));
    assert_eq!(config.schema_agreement_timeout, Duration::from_millis(5));
    assert_eq!(config.schema_agreement_interval, Duration::from_millis(6));

    cass_cluster_set_use_schema(&mut cluster, 7);
    cass_cluster_set_tcp_nodelay(&mut cluster, 7);
    let config = config_of(&cluster);
    assert!(config.fetch_schema_metadata);
    assert!(config.tcp_nodelay);
}

#[test]
fn zero_switches_heartbeats_off() {
    let mut cluster = cass_cluster_new();
    cass_cluster_set_connection_heartbeat_interval(&mut cluster, 0);
    cass_cluster_set_connection_idle_timeout(&mut cluster, 0);
    let config = config_of(&cluster);
    assert_eq!(config.keepalive_interval, None);
    assert_eq!(config.keepalive_timeout, None);

    cass_cluster_set_connection_heartbeat_interval(&mut cluster, u32::MAX);
    let config = config_of(&cluster);
    assert_eq!(
        config.keepalive_interval,
        Some(Duration::from_secs(u64::from(u32::MAX)))
    );
}

#[test]
fn keepalive_probes_are_switched_by_the_flag_alone() {
    let mut cluster = cass_cluster_new();
    cass_cluster_set_tcp_keepalive(&mut cluster, 2, 0);
    assert_eq!(
        config_of(&cluster).tcp_keepalive_interval,
        Some(Duration::from_secs(0))
    );
    cass_cluster_set_tcp_keepalive(&mut cluster, 0, 60);
    assert_eq!(config_of(&cluster).tcp_keepalive_interval, None);
}

#[test]
fn application_is_named_to_the_server() {
    let mut cluster = cass_cluster_new();
    cass_cluster_set_application_name(&mut cluster, Some(b"shop\0"));
    cass_cluster_set_application_version_n(&mut cluster, Some(b"1.2.3-beta"), 5);
    let config = config_of(&cluster);
    assert_eq!(config.identity.get_application_name(), Some("shop"));
    assert_eq!(config.identity.get_application_version(), Some("1.2.3"));

    cass_cluster_set_application_name_n(&mut cluster, Some(b"shopping"), 8);
    cass_cluster_set_application_version(&mut cluster, Some(b"2\0"));
    let config = config_of(&cluster);
    assert_eq!(config.identity.get_application_name(), Some("shopping"));
    assert_eq!(config.identity.get_application_version(), Some("2"));
    assert_eq!(
        config.identity.get_custom_driver_name(),
        Some("ScyllaDB Cpp-Rust Driver")
    );
}

#[test]
fn client_id_is_told_as_text() {
    let mut cluster = cass_cluster_new();
    assert_eq!(cluster.get_client_id(), None);
    cass_cluster_set_client_id(
        &mut cluster,
        CassUuid {
            time_and_version: 0x426f_10b1_67e5_5044,
            clock_seq_and_node: 0x9247_bb68_0e5f_e0c8,
        },
    );
    assert_eq!(
        cluster.get_client_id(),
        Some(0x67e55044_10b1_426f_9247_bb680e5fe0c8)
    );
    assert_eq!(
        cluster.get_session_config().identity.client_id,
        Some("67e55044-10b1-426f-9247-bb680e5fe0c8".to_owned())
    );
    assert_eq!(
        config_of(&cluster).identity.get_client_id(),
        Some("67e55044-10b1-426f-9247-bb680e5fe0c8")
    );
    cass_cluster_set_client_id(
        &mut cluster,
        CassUuid {
            time_and_version: 0,
            clock_seq_and_node: 0xa,
        },
    );
    assert_eq!(
        config_of(&cluster).identity.get_client_id(),
        Some("00000000-0000-0000-0000-00000000000a")
    );
}

#[test]
fn client_ids_differ() {
    let ids = [
        CassUuid { time_and_version: 1, clock_seq_and_node: 0 },
        CassUuid { time_and_version: 1 << 32, clock_seq_and_node: 0 },
        CassUuid { time_and_version: 1 << 48, clock_seq_and_node: 0 },
        CassUuid { time_and_version: 0, clock_seq_and_node: 1 },
        CassUuid { time_and_version: u64::MAX, clock_seq_and_node: u64::MAX },
    ];
    assert_eq!(
        ids.map(|id| id.to_u128()),
        [1 << 96, 1 << 80, 1 << 64, 1, u128::MAX]
    );
}

#[test]
fn credentials_make_the_session_authenticate() {
    let mut cluster = cass_cluster_new();
    assert!(config_of(&cluster).authenticator.is_none());
    cass_cluster_set_credentials(&mut cluster, Some(b"cassandra\0"), Some(b"\0"));
    assert!(config_of(&cluster).authenticator.is_some());

    let mut cluster = cass_cluster_new();
    cass_cluster_set_credentials_n(&mut cluster, Some(b"user"), 4, Some(b"secret"), 6);
    assert!(config_of(&cluster).authenticator.is_some());
}

#[test]
fn compression_reaches_the_driver() {
    let mut cluster = cass_cluster_new();
    cass_cluster_set_compression(&mut cluster, CassCompressionType::CASS_COMPRESSION_LZ4);
    assert_eq!(
        cluster.get_session_config().compression,
        Some(Compression::Lz4)
    );
    assert_eq!(
        config_of(&cluster).compression,
        Some(scylla::frame::Compression::Lz4)
    );
    cass_cluster_set_compression(&mut cluster, CassCompressionType::CASS_COMPRESSION_SNAPPY);
    assert_eq!(
        config_of(&cluster).compression,
        Some(scylla::frame::Compression::Snappy)
    );
    cass_cluster_set_compression(&mut cluster, CassCompressionType::CASS_COMPRESSION_NONE);
    assert_eq!(config_of(&cluster).compression, None);
}

#[test]
fn tls_context_reaches_the_driver() {
    let mut cluster = cass_cluster_new();
    let context = SslContextBuilder::new(SslMethod::tls()).unwrap().build();
    cass_cluster_set_ssl(&mut cluster, context);
    assert!(config_of(&cluster).tls_context.is_some());
    // The cluster keeps its own reference.
    assert!(config_of(&cluster).tls_context.is_some());
}

#[test]
fn only_protocol_version_four_is_accepted() {
    let mut cluster = cass_cluster_new();
    assert_eq!(
        cass_cluster_set_protocol_version(&cluster, 4),
        CassError::CASS_OK
    );
    for version in [-1, 0, 3, 5] {
        assert_eq!(
            cass_cluster_set_protocol_version(&cluster, version),
            CassError::CASS_ERROR_LIB_BAD_PARAMS
        );
    }
    assert_eq!(
        cass_cluster_set_use_beta_protocol_version(&mut cluster, 1),
        CassError::CASS_OK
    );
    assert_eq!(
        cass_cluster_set_protocol_version(&cluster, 4),
        CassError::CASS_ERROR_LIB_BAD_PARAMS
    );
    // Only the value for "true" counts.
    assert_eq!(
        cass_cluster_set_use_beta_protocol_version(&mut cluster, 2),
        CassError::CASS_OK
    );
    assert_eq!(
        cass_cluster_set_protocol_version(&cluster, 4),
        CassError::CASS_OK
    );
}

#[test]
fn reconnection_delays_are_checked() {
    let mut cluster = cass_cluster_new();
    for (base, max, answer) in [
        (2, 2, CassError::CASS_OK),
        (2000, 60000, CassError::CASS_OK),
        (1, 60000, CassError::CASS_ERROR_LIB_BAD_PARAMS),
        (0, 0, CassError::CASS_ERROR_LIB_BAD_PARAMS),
        (2, 1, CassError::CASS_ERROR_LIB_BAD_PARAMS),
        (3, 2, CassError::CASS_ERROR_LIB_BAD_PARAMS),
    ] {
        assert_eq!(
            cass_cluster_set_exponential_reconnect(&mut cluster, base, max),
            answer
        );
    }
}

#[test]
fn bundle_name_is_checked() {
    let mut cluster = cass_cluster_new();
    assert_eq!(
        cass_cluster_set_cloud_secure_connection_bundle_n(
            &mut cluster,
            Some(b"invalid_filename"),
            16
        ),
        CassError::CASS_ERROR_LIB_BAD_PARAMS
    );
    assert_eq!(
        cass_cluster_set_cloud_secure_connection_bundle_n(
            &mut cluster,
            Some(b"invalid_filename"),
            15
        ),
        CassError::CASS_OK
    );
}

#[test]
fn options_without_effect_are_accepted() {
    let mut cluster = cass_cluster_new();
    assert_eq!(
        cass_cluster_set_use_randomized_contact_points(&mut cluster, 1),
        CassError::CASS_OK
    );
    assert_eq!(
        cass_cluster_set_queue_size_event(&mut cluster, 8192),
        CassError::CASS_OK
    );
    assert!(cass_custom_payload_new().is_none());
    assert_eq!(
        cass_future_custom_payload_item(0, Some(b"k"), 1, None, 0),
        CassError::CASS_OK
    );
    assert_eq!(cass_future_custom_payload_item_count(), 0);
}

#[test]
fn a_clone_is_equal_and_independent() {
    let mut cluster = cass_cluster_new();
    cass_cluster_set_contact_points(&mut cluster, Some(b"a,b\0"));
    cass_cluster_set_port(&mut cluster, 7);
    cass_cluster_set_application_name(&mut cluster, Some(b"shop\0"));
    cass_cluster_set_credentials(&mut cluster, Some(b"u\0"), Some(b"p\0"));
    cass_cluster_set_ssl(
        &mut cluster,
        SslContextBuilder::new(SslMethod::tls()).unwrap().build(),
    );
    cass_cluster_set_load_balance_dc_aware(&mut cluster, Some(b"eu\0"), 0, 0);
    cass_cluster_set_consistency(&mut cluster, CassConsistency::CASS_CONSISTENCY_TWO);
    cass_cluster_set_execution_profile(
        &mut cluster,
        Some(b"p\0"),
        Some(&cass_execution_profile_new()),
    );

    let copy = cluster.clone();
    cass_cluster_set_contact_points(&mut cluster, Some(b"\0"));
    cass_cluster_set_port(&mut cluster, 8);
    cass_cluster_set_application_name(&mut cluster, Some(b"other\0"));
    cass_cluster_set_load_balance_round_robin(&mut cluster);

    assert_eq!(copy.get_contact_points(), &["a", "b"]);
    assert_eq!(copy.get_port(), 7);
    assert_eq!(copy.execution_profile_map().keys(), vec!["p".to_owned()]);
    assert_eq!(
        copy.default_execution_profile().consistency,
        Some(Consistency::Two)
    );
    assert!(matches!(
        &copy.load_balancing_config().load_balancing_kind,
        Some(LoadBalancingKind::DcAware { local_dc }) if local_dc == "eu"
    ));
    let config = config_of(&copy);
    assert_eq!(config.known_nodes.len(), 2);
    assert_eq!(config.identity.get_application_name(), Some("shop"));
    assert!(config.authenticator.is_some());
    assert!(config.tls_context.is_some());
    assert!(config_of(&cluster).known_nodes.is_empty());
}

#[test]
fn options_can_be_set_in_any_order() {
    let mut a = cass_cluster_new();
    cass_cluster_set_connect_timeout(&mut a, 4);
    cass_cluster_set_consistency(&mut a, CassConsistency::CASS_CONSISTENCY_ALL);
    cass_cluster_set_contact_points(&mut a, Some(b"x\0"));
    let mut b = cass_cluster_new();
    cass_cluster_set_contact_points(&mut b, Some(b"x\0"));
    cass_cluster_set_consistency(&mut b, CassConsistency::CASS_CONSISTENCY_ALL);
    cass_cluster_set_connect_timeout(&mut b, 4);
    assert_eq!(a.get_contact_points(), b.get_contact_points());
    assert_eq!(
        format!("{:?}", a.default_execution_profile()),
        format!("{:?}", b.default_execution_profile())
    );
    assert_eq!(config_of(&a).connect_timeout, config_of(&b).connect_timeout);
}
