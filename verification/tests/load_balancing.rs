use cass_cluster::cluster::{
    build_session_builder, cass_cluster_free, cass_cluster_new,
    cass_cluster_set_latency_aware_routing, cass_cluster_set_latency_aware_routing_settings,
    cass_cluster_set_load_balance_dc_aware, cass_cluster_set_load_balance_dc_aware_n,
    cass_cluster_set_load_balance_rack_aware, cass_cluster_set_load_balance_rack_aware_n,
    cass_cluster_set_load_balance_round_robin, cass_cluster_set_token_aware_routing,
    cass_cluster_set_token_aware_routing_shuffle_replicas, CassCluster,
};
use cass_cluster::load_balancing::LoadBalancingKind;
use cass_cluster::types::CassError;
use scylla::policies::load_balancing::{DefaultPolicyBuilder, LatencyAwarenessBuilder};
use std::time::Duration;

/// The driver's policy builder for the cluster, as the driver prints it.
fn policy_of(cluster: &CassCluster) -> String {
    let parts = build_session_builder(cluster);
    format!("{:?}", parts.load_balancing)
}

/// A builder of latency awareness that has this threshold.
fn threshold_of(threshold: f64) -> LatencyAwarenessBuilder {
    LatencyAwarenessBuilder::new().exclusion_threshold(threshold)
}

#[test]
fn test_load_balancing_config() {
    let mut cluster = cass_cluster_new();
    /* Test valid configurations */
    {
        assert!(matches!(cluster.load_balancing_config().load_balancing_kind, None));
        assert!(cluster.load_balancing_config().token_awareness_enabled);
        assert!(!cluster.load_balancing_config().latency_awareness_enabled);
    }
    {
        cass_cluster_set_token_aware_routing(&mut cluster, 0);
        assert_eq!(
            cass_cluster_set_load_balance_dc_aware(&mut cluster, Some(b"eu\0"), 0, 0),
            CassError::CASS_OK
        );
        cass_cluster_set_latency_aware_routing(&mut cluster, 1);
        cass_cluster_set_latency_aware_routing_settings(
            &mut cluster,
            threshold_of(2_f64),
            1,
            2000,
            100,
            40,
        );

        match &cluster.load_balancing_config().load_balancing_kind {
            Some(LoadBalancingKind::DcAware { local_dc }) => {
                assert_eq!(local_dc, "eu")
            }
            _ => panic!("Expected preferred dc"),
        }
        assert!(!cluster.load_balancing_config().token_awareness_enabled);
        assert!(cluster.load_balancing_config().latency_awareness_enabled);

        // set preferred rack+dc
        assert_eq!(
            cass_cluster_set_load_balance_rack_aware(
                &mut cluster,
                Some(b"eu-east\0"),
                Some(b"rack1\0"),
            ),
            CassError::CASS_OK
        );

        match &cluster.load_balancing_config().load_balancing_kind {
            Some(LoadBalancingKind::RackAware {
                local_dc,
                local_rack,
            }) => {
                assert_eq!(local_dc, "eu-east");
                assert_eq!(local_rack, "rack1");
            }
            _ => panic!("Expected preferred dc and rack"),
        }

        // set back to preferred dc
        assert_eq!(
            cass_cluster_set_load_balance_dc_aware(&mut cluster, Some(b"eu\0"), 0, 0),
            CassError::CASS_OK
        );

        match &cluster.load_balancing_config().load_balancing_kind {
            Some(LoadBalancingKind::DcAware { local_dc }) => {
                assert_eq!(local_dc, "eu")
            }
            _ => panic!("Expected preferred dc"),
        }
    }
    /* Test invalid configurations */
    {
        // Nonzero deprecated parameters
        assert_eq!(
            cass_cluster_set_load_balance_dc_aware(&mut cluster, Some(b"eu\0"), 1, 0),
            CassError::CASS_ERROR_LIB_BAD_PARAMS
        );
        assert_eq!(
            cass_cluster_set_load_balance_dc_aware(&mut cluster, Some(b"eu\0"), 0, 1),
            CassError::CASS_ERROR_LIB_BAD_PARAMS
        );

        // null pointers
        assert_eq!(
            cass_cluster_set_load_balance_dc_aware(&mut cluster, None, 0, 0),
            CassError::CASS_ERROR_LIB_BAD_PARAMS
        );
        assert_eq!(
            cass_cluster_set_load_balance_rack_aware(&mut cluster, Some(b"eu\0"), None),
            CassError::CASS_ERROR_LIB_BAD_PARAMS
        );
        assert_eq!(
            cass_cluster_set_load_balance_rack_aware(&mut cluster, None, Some(b"rack\0")),
            CassError::CASS_ERROR_LIB_BAD_PARAMS
        );

        // empty strings
        let empty_str: &[u8] = b"\0";
        assert_eq!(
            cass_cluster_set_load_balance_dc_aware(&mut cluster, None, 0, 0),
            CassError::CASS_ERROR_LIB_BAD_PARAMS
        );
        assert_eq!(
            cass_cluster_set_load_balance_rack_aware(&mut cluster, Some(b"eu\0"), Some(empty_str)),
            CassError::CASS_ERROR_LIB_BAD_PARAMS
        );
        assert_eq!(
            cass_cluster_set_load_balance_rack_aware(
                &mut cluster,
                Some(empty_str),
                Some(b"rack\0"),
            ),
            CassError::CASS_ERROR_LIB_BAD_PARAMS
        );
    }

    cass_cluster_free(cluster);
}

#[test]
fn refused_names_leave_the_kind_in_place() {
    let mut cluster = cass_cluster_new();
    assert_eq!(
        cass_cluster_set_load_balance_dc_aware_n(&mut cluster, Some(b"europe"), 2, 0, 0),
        CassError::CASS_OK
    );
    assert_eq!(
        cass_cluster_set_load_balance_dc_aware_n(&mut cluster, Some(b"asia"), 0, 0, 0),
        CassError::CASS_ERROR_LIB_BAD_PARAMS
    );
    assert_eq!(
        cass_cluster_set_load_balance_rack_aware_n(&mut cluster, Some(b"\xff"), 1, Some(b"r"), 1),
        CassError::CASS_ERROR_LIB_BAD_PARAMS
    );
    match &cluster.load_balancing_config().load_balancing_kind {
        Some(LoadBalancingKind::DcAware { local_dc }) => assert_eq!(local_dc, "eu"),
        _ => panic!("Expected preferred dc"),
    }
}

#[test]
fn latency_settings_are_kept() {
    let mut cluster = cass_cluster_new();
    assert_eq!(
        format!("{:?}", cluster.load_balancing_config().latency_awareness_builder),
        format!("{:?}", LatencyAwarenessBuilder::new())
    );
    // Of the builder that is handed in only the threshold counts.
    let threshold = threshold_of(1.5)
        .scale(Duration::from_millis(9))
        .minimum_measurements(9);
    cass_cluster_set_latency_aware_routing_settings(&mut cluster, threshold, 7, 2000, 100, 40);
    let expected = threshold_of(1.5)
        .scale(Duration::from_millis(7))
        .retry_period(Duration::from_millis(2000))
        .update_rate(Duration::from_millis(100))
        .minimum_measurements(40);
    assert_eq!(
        format!("{:?}", cluster.load_balancing_config().latency_awareness_builder),
        format!("{:?}", expected)
    );
}

#[test]
fn policy_is_round_robin_by_default() {
    let mut cluster = cass_cluster_new();
    let expected = format!("{:?}", DefaultPolicyBuilder::new().token_aware(true));
    assert_eq!(policy_of(&cluster), expected);
    cass_cluster_set_load_balance_round_robin(&mut cluster);
    assert_eq!(policy_of(&cluster), expected);
}

#[test]
fn policy_prefers_the_datacenter() {
    let mut cluster = cass_cluster_new();
    cass_cluster_set_load_balance_dc_aware(&mut cluster, Some(b"eu\0"), 0, 0);
    let expected = DefaultPolicyBuilder::new()
        .prefer_datacenter("eu".to_owned())
        .permit_dc_failover(true);
    assert_eq!(policy_of(&cluster), format!("{:?}", expected));
}

#[test]
fn policy_prefers_the_rack() {
    let mut cluster = cass_cluster_new();
    cass_cluster_set_load_balance_rack_aware(&mut cluster, Some(b"eu\0"), Some(b"r1\0"));
    let expected = DefaultPolicyBuilder::new()
        .prefer_datacenter_and_rack("eu".to_owned(), "r1".to_owned())
        .permit_dc_failover(true);
    assert_eq!(policy_of(&cluster), format!("{:?}", expected));
}

#[test]
fn policy_shuffles_only_with_token_awareness() {
    let mut cluster = cass_cluster_new();
    cass_cluster_set_token_aware_routing_shuffle_replicas(&mut cluster, 0);
    let expected = DefaultPolicyBuilder::new().enable_shuffling_replicas(false);
    assert_eq!(policy_of(&cluster), format!("{:?}", expected));

    cass_cluster_set_token_aware_routing(&mut cluster, 0);
    let expected = DefaultPolicyBuilder::new().token_aware(false);
    assert_eq!(policy_of(&cluster), format!("{:?}", expected));
    cass_cluster_set_token_aware_routing_shuffle_replicas(&mut cluster, 1);
    assert_eq!(policy_of(&cluster), format!("{:?}", expected));
}

#[test]
fn policy_is_latency_aware_once_switched_on() {
    let mut cluster = cass_cluster_new();
    cass_cluster_set_latency_aware_routing_settings(
        &mut cluster,
        threshold_of(3_f64),
        11,
        22,
        33,
        44,
    );
    assert_eq!(policy_of(&cluster), format!("{:?}", DefaultPolicyBuilder::new()));

    cass_cluster_set_latency_aware_routing(&mut cluster, 1);
    let expected = DefaultPolicyBuilder::new().latency_awareness(
        threshold_of(3_f64)
            .scale(Duration::from_millis(11))
            .retry_period(Duration::from_millis(22))
            .update_rate(Duration::from_millis(33))
            .minimum_measurements(44),
    );
    assert_eq!(policy_of(&cluster), format!("{:?}", expected));
}

#[test]
fn latency_awareness_without_settings_is_left_to_the_driver() {
    let mut cluster = cass_cluster_new();
    cass_cluster_set_latency_aware_routing(&mut cluster, 1);
    let expected = DefaultPolicyBuilder::new().latency_awareness(
        threshold_of(f64::from_bits(0x4000_0000_0000_0000))
            .scale(Duration::from_millis(100))
            .retry_period(Duration::from_millis(10000))
            .update_rate(Duration::from_millis(100))
            .minimum_measurements(50),
    );
    assert_eq!(policy_of(&cluster), format!("{:?}", expected));
}

#[test]
fn last_chosen_kind_holds() {
    let mut cluster = cass_cluster_new();
    cass_cluster_set_load_balance_rack_aware(&mut cluster, Some(b"eu\0"), Some(b"r1\0"));
    cass_cluster_set_load_balance_round_robin(&mut cluster);
    assert_eq!(policy_of(&cluster), format!("{:?}", DefaultPolicyBuilder::new()));
}
