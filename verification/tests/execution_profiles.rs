use cass_cluster::cluster::{
    build_session_builder, cass_cluster_free, cass_cluster_new, cass_cluster_set_consistency,
    cass_cluster_set_constant_speculative_execution_policy, cass_cluster_set_execution_profile,
    cass_cluster_set_execution_profile_n, cass_cluster_set_no_speculative_execution_policy,
    cass_cluster_set_request_timeout, cass_cluster_set_retry_policy,
    cass_cluster_set_serial_consistency, CassCluster,
};
use cass_cluster::exec_profile::{
    cass_execution_profile_new, ExecProfileName, SpeculativeExecution,
};
use cass_cluster::types::{
    CassConsistency, CassError, CassRetryPolicy, Consistency, SerialConsistency,
};
use scylla::client::execution_profile::{ExecutionProfile, ExecutionProfileBuilder};
use scylla::policies::retry::{
    DefaultRetryPolicy, DowngradingConsistencyRetryPolicy, FallthroughRetryPolicy,
};
use scylla::policies::speculative_execution::SimpleSpeculativeExecutionPolicy;
use std::collections::HashSet;
use std::sync::Arc;
use std::time::Duration;

fn builder_of(cluster: &CassCluster) -> ExecutionProfileBuilder {
    build_session_builder(cluster).execution_profile
}

fn profile_of(cluster: &CassCluster) -> ExecutionProfile {
    builder_of(cluster).build()
}

#[test]
fn test_register_exec_profile() {
    let mut cluster = cass_cluster_new();
    let exec_profile = cass_execution_profile_new();
    /* Test valid configurations */
    {
        assert!(cluster.execution_profile_map().is_empty());
    }
    {
        assert_eq!(
            cass_cluster_set_execution_profile(
                &mut cluster,
                Some(b"profile1\0"),
                Some(&exec_profile)
            ),
            CassError::CASS_OK
        );

        assert!(cluster.execution_profile_map().len() == 1);
        let _profile = cluster
            .execution_profile_map()
            .get(&ExecProfileName::try_from("profile1".to_owned()).unwrap())
            .unwrap();

        let name = "profile1";
        assert_eq!(
            cass_cluster_set_execution_profile_n(
                &mut cluster,
                Some(name.as_bytes()),
                name.len(),
                Some(&exec_profile)
            ),
            CassError::CASS_OK
        );

        assert!(cluster.execution_profile_map().len() == 1);
        let _profile = cluster
            .execution_profile_map()
            .get(&ExecProfileName::try_from("profile1".to_owned()).unwrap())
            .unwrap();

        assert_eq!(
            cass_cluster_set_execution_profile(
                &mut cluster,
                Some(b"profile2\0"),
                Some(&exec_profile)
            ),
            CassError::CASS_OK
        );

        assert!(cluster.execution_profile_map().len() == 2);
        let _profile = cluster
            .execution_profile_map()
            .get(&ExecProfileName::try_from("profile2".to_owned()).unwrap())
            .unwrap();
    }

    /* Test invalid configurations */
    {
        // NULL name
        assert_eq!(
            cass_cluster_set_execution_profile(&mut cluster, None, Some(&exec_profile)),
            CassError::CASS_ERROR_LIB_BAD_PARAMS
        );
    }
    {
        // empty name
        assert_eq!(
            cass_cluster_set_execution_profile(&mut cluster, Some(b"\0"), Some(&exec_profile)),
            CassError::CASS_ERROR_LIB_BAD_PARAMS
        );
    }
    {
        // NULL profile
        assert_eq!(
            cass_cluster_set_execution_profile(&mut cluster, Some(b"profile1\0"), None),
            CassError::CASS_ERROR_LIB_BAD_PARAMS
        );
    }
    // Make sure that invalid configuration did not influence the profile map
    assert_eq!(
        cluster
            .execution_profile_map()
            .keys()
            .into_iter()
            .collect::<HashSet<String>>(),
        vec!["profile1".to_owned(), "profile2".to_owned()]
            .into_iter()
            .collect::<HashSet<String>>()
    );

    cass_cluster_free(cluster);
}

#[test]
fn registering_again_replaces_the_profile() {
    let mut cluster = cass_cluster_new();
    let mut profile = cass_execution_profile_new();
    cass_cluster_set_execution_profile(&mut cluster, Some(b"p\0"), Some(&profile));
    cass_cluster_set_execution_profile(&mut cluster, Some(b"q\0"), Some(&profile));
    profile.settings.consistency = Some(Consistency::Two);
    cass_cluster_set_execution_profile(&mut cluster, Some(b"p\0"), Some(&profile));
    let map = cluster.execution_profile_map();
    assert_eq!(map.keys(), vec!["p".to_owned(), "q".to_owned()]);
    let p = map.get(&ExecProfileName::try_from("p".to_owned()).unwrap());
    let q = map.get(&ExecProfileName::try_from("q".to_owned()).unwrap());
    assert_eq!(p.unwrap().settings.consistency, Some(Consistency::Two));
    assert_eq!(q.unwrap().settings.consistency, None);
    assert!(map
        .get(&ExecProfileName::try_from("r".to_owned()).unwrap())
        .is_none());
}

#[test]
fn registrations_under_two_names_commute() {
    let mut profile = cass_execution_profile_new();
    profile.settings.consistency = Some(Consistency::Three);
    let other = cass_execution_profile_new();
    let mut a = cass_cluster_new();
    cass_cluster_set_execution_profile(&mut a, Some(b"p\0"), Some(&profile));
    cass_cluster_set_execution_profile(&mut a, Some(b"q\0"), Some(&other));
    let mut b = cass_cluster_new();
    cass_cluster_set_execution_profile(&mut b, Some(b"q\0"), Some(&other));
    cass_cluster_set_execution_profile(&mut b, Some(b"p\0"), Some(&profile));
    for name in ["p", "q"] {
        let name = ExecProfileName::try_from(name.to_owned()).unwrap();
        let in_a = a.execution_profile_map().get(&name).unwrap();
        let in_b = b.execution_profile_map().get(&name).unwrap();
        assert_eq!(
            format!("{:?}", in_a.settings),
            format!("{:?}", in_b.settings)
        );
    }
    assert_eq!(a.execution_profile_map().len(), 2);
    assert_eq!(b.execution_profile_map().len(), 2);
}

#[test]
fn names_that_are_not_utf8_are_refused() {
    let mut cluster = cass_cluster_new();
    let profile = cass_execution_profile_new();
    assert_eq!(
        cass_cluster_set_execution_profile_n(&mut cluster, Some(b"\xc3\x28"), 2, Some(&profile)),
        CassError::CASS_ERROR_LIB_BAD_PARAMS
    );
    assert!(cluster.execution_profile_map().is_empty());
    assert!(ExecProfileName::try_from(String::new()).is_err());
}

#[test]
fn default_profile_is_local_one_within_twelve_seconds() {
    let cluster = cass_cluster_new();
    let profile = profile_of(&cluster);
    assert_eq!(profile.get_consistency(), scylla::statement::Consistency::LocalOne);
    assert_eq!(profile.get_request_timeout(), Some(Duration::from_millis(12000)));
    let expected = ExecutionProfileBuilder::default()
        .consistency(scylla::statement::Consistency::LocalOne)
        .request_timeout(Some(Duration::from_millis(12000)));
    assert_eq!(format!("{:?}", builder_of(&cluster)), format!("{:?}", expected));
}

#[test]
fn request_timeout_of_zero_means_none() {
    let mut cluster = cass_cluster_new();
    cass_cluster_set_request_timeout(&mut cluster, 250);
    assert_eq!(
        cluster.default_execution_profile().request_timeout_ms,
        Some(Some(250))
    );
    assert_eq!(
        profile_of(&cluster).get_request_timeout(),
        Some(Duration::from_millis(250))
    );
    cass_cluster_set_request_timeout(&mut cluster, 0);
    assert_eq!(
        cluster.default_execution_profile().request_timeout_ms,
        Some(None)
    );
    assert_eq!(profile_of(&cluster).get_request_timeout(), None);
}

#[test]
fn every_consistency_reaches_the_driver() {
    let names = [
        CassConsistency::CASS_CONSISTENCY_ANY,
        CassConsistency::CASS_CONSISTENCY_ONE,
        CassConsistency::CASS_CONSISTENCY_TWO,
        CassConsistency::CASS_CONSISTENCY_THREE,
        CassConsistency::CASS_CONSISTENCY_QUORUM,
        CassConsistency::CASS_CONSISTENCY_ALL,
        CassConsistency::CASS_CONSISTENCY_LOCAL_QUORUM,
        CassConsistency::CASS_CONSISTENCY_EACH_QUORUM,
        CassConsistency::CASS_CONSISTENCY_SERIAL,
        CassConsistency::CASS_CONSISTENCY_LOCAL_SERIAL,
        CassConsistency::CASS_CONSISTENCY_LOCAL_ONE,
    ];
    let levels = [
        scylla::statement::Consistency::Any,
        scylla::statement::Consistency::One,
        scylla::statement::Consistency::Two,
        scylla::statement::Consistency::Three,
        scylla::statement::Consistency::Quorum,
        scylla::statement::Consistency::All,
        scylla::statement::Consistency::LocalQuorum,
        scylla::statement::Consistency::EachQuorum,
        scylla::statement::Consistency::Serial,
        scylla::statement::Consistency::LocalSerial,
        scylla::statement::Consistency::LocalOne,
    ];
    for (name, level) in names.into_iter().zip(levels) {
        let mut cluster = cass_cluster_new();
        assert_eq!(
            cass_cluster_set_consistency(&mut cluster, name),
            CassError::CASS_OK
        );
        assert_eq!(profile_of(&cluster).get_consistency(), level);
    }
}

#[test]
fn unknown_consistency_is_refused() {
    let mut cluster = cass_cluster_new();
    assert_eq!(
        cass_cluster_set_consistency(&mut cluster, CassConsistency::CASS_CONSISTENCY_UNKNOWN),
        CassError::CASS_ERROR_LIB_BAD_PARAMS
    );
    assert_eq!(
        cluster.default_execution_profile().consistency,
        Some(Consistency::LocalOne)
    );
}

#[test]
fn only_serial_consistencies_are_serial() {
    let mut cluster = cass_cluster_new();
    assert_eq!(cluster.default_execution_profile().serial_consistency, None);
    assert_eq!(
        cass_cluster_set_serial_consistency(
            &mut cluster,
            CassConsistency::CASS_CONSISTENCY_QUORUM
        ),
        CassError::CASS_ERROR_LIB_BAD_PARAMS
    );
    assert_eq!(cluster.default_execution_profile().serial_consistency, None);
    assert_eq!(
        cass_cluster_set_serial_consistency(
            &mut cluster,
            CassConsistency::CASS_CONSISTENCY_SERIAL
        ),
        CassError::CASS_OK
    );
    assert_eq!(
        cluster.default_execution_profile().serial_consistency,
        Some(Some(SerialConsistency::Serial))
    );
    assert_eq!(
        profile_of(&cluster).get_serial_consistency(),
        Some(scylla::statement::SerialConsistency::Serial)
    );
    cass_cluster_set_serial_consistency(
        &mut cluster,
        CassConsistency::CASS_CONSISTENCY_LOCAL_SERIAL,
    );
    assert_eq!(
        profile_of(&cluster).get_serial_consistency(),
        Some(scylla::statement::SerialConsistency::LocalSerial)
    );
}

#[test]
fn speculative_execution_is_set_and_switched_off() {
    let mut cluster = cass_cluster_new();
    assert_eq!(
        cass_cluster_set_constant_speculative_execution_policy(&mut cluster, -1, 2),
        CassError::CASS_ERROR_LIB_BAD_PARAMS
    );
    assert_eq!(
        cass_cluster_set_constant_speculative_execution_policy(&mut cluster, 1, -2),
        CassError::CASS_ERROR_LIB_BAD_PARAMS
    );
    assert_eq!(cluster.default_execution_profile().speculative_execution, None);

    assert_eq!(
        cass_cluster_set_constant_speculative_execution_policy(&mut cluster, 150, 3),
        CassError::CASS_OK
    );
    assert_eq!(
        cluster.default_execution_profile().speculative_execution,
        Some(Some(SpeculativeExecution {
            max_retry_count: 3,
            retry_interval_ms: 150,
        }))
    );
    let expected = ExecutionProfileBuilder::default()
        .consistency(scylla::statement::Consistency::LocalOne)
        .request_timeout(Some(Duration::from_millis(12000)))
        .speculative_execution_policy(Some(Arc::new(SimpleSpeculativeExecutionPolicy {
            max_retry_count: 3,
            retry_interval: Duration::from_millis(150),
        })));
    assert_eq!(format!("{:?}", builder_of(&cluster)), format!("{:?}", expected));

    assert_eq!(
        cass_cluster_set_no_speculative_execution_policy(&mut cluster),
        CassError::CASS_OK
    );
    assert_eq!(
        cluster.default_execution_profile().speculative_execution,
        Some(None)
    );
    let expected = expected.speculative_execution_policy(None);
    assert_eq!(format!("{:?}", builder_of(&cluster)), format!("{:?}", expected));
}

#[test]
fn every_retry_policy_reaches_the_driver() {
    let plain = ExecutionProfileBuilder::default()
        .consistency(scylla::statement::Consistency::LocalOne)
        .request_timeout(Some(Duration::from_millis(12000)));
    let mut cluster = cass_cluster_new();

    cass_cluster_set_retry_policy(&mut cluster, &CassRetryPolicy::DefaultRetryPolicy(Arc::new(DefaultRetryPolicy::new())));
    let expected = plain.clone().retry_policy(Arc::new(DefaultRetryPolicy::new()));
    assert_eq!(format!("{:?}", builder_of(&cluster)), format!("{:?}", expected));

    cass_cluster_set_retry_policy(&mut cluster, &CassRetryPolicy::FallthroughRetryPolicy(Arc::new(FallthroughRetryPolicy::new())));
    let expected = plain.clone().retry_policy(Arc::new(FallthroughRetryPolicy::new()));
    assert_eq!(format!("{:?}", builder_of(&cluster)), format!("{:?}", expected));

    cass_cluster_set_retry_policy(
        &mut cluster,
        &CassRetryPolicy::DowngradingConsistencyRetryPolicy(Arc::new(
            DowngradingConsistencyRetryPolicy::new(),
        )),
    );
    let expected = plain.retry_policy(Arc::new(DowngradingConsistencyRetryPolicy::new()));
    assert_eq!(format!("{:?}", builder_of(&cluster)), format!("{:?}", expected));
}

#[test]
fn retry_policy_is_shared_with_the_caller() {
    let object = Arc::new(FallthroughRetryPolicy::new());
    let policy = CassRetryPolicy::FallthroughRetryPolicy(Arc::clone(&object));
    let mut cluster = cass_cluster_new();
    cass_cluster_set_retry_policy(&mut cluster, &policy);
    // This test, the caller's policy and the cluster.
    assert_eq!(Arc::strong_count(&object), 3);
    match &cluster.default_execution_profile().retry_policy {
        Some(CassRetryPolicy::FallthroughRetryPolicy(kept)) => {
            assert!(Arc::ptr_eq(kept, &object))
        }
        _ => panic!("Expected the fallthrough policy"),
    }
    // A profile for the driver has the same object, and so has a clone.
    let builder = builder_of(&cluster);
    assert_eq!(Arc::strong_count(&object), 4);
    let copy = cluster.clone();
    assert_eq!(Arc::strong_count(&object), 5);
    drop((policy, cluster, builder, copy));
    assert_eq!(Arc::strong_count(&object), 1);
}
