use cass_cluster::cluster::{
    build_session_builder, cass_cluster_new, cass_cluster_set_contact_points,
    cass_cluster_set_contact_points_n, cass_cluster_set_port, CassCluster,
};
use cass_cluster::cstring::{ptr_to_cstr_n, strlen};
use cass_cluster::types::CassError;

fn set(cluster: &mut CassCluster, list: &str) {
    assert_eq!(
        cass_cluster_set_contact_points_n(cluster, Some(list.as_bytes()), list.len()),
        CassError::CASS_OK
    );
}

/// The nodes that a session to the cluster would contact first, as the driver
/// prints them.
fn known_nodes(cluster: &CassCluster) -> String {
    let parts = build_session_builder(cluster);
    format!("{:?}", parts.config.known_nodes)
}

fn nodes_of(hosts: &[&str]) -> String {
    let mut config = scylla::client::session::SessionConfig::new();
    config.add_known_nodes(hosts);
    format!("{:?}", config.known_nodes)
}

#[test]
fn strlen_counts_up_to_the_nul() {
    assert_eq!(strlen(Some(b"eu\0")), 2);
    assert_eq!(strlen(Some(b"\0eu\0")), 0);
    assert_eq!(strlen(None), 0);
}

#[test]
fn text_is_read_up_to_the_length() {
    assert_eq!(ptr_to_cstr_n(Some(b"europe"), 2), Some("eu"));
    assert_eq!(ptr_to_cstr_n(Some(b"europe"), 0), Some(""));
    assert_eq!(ptr_to_cstr_n(Some("d\u{e9}j\u{e0}".as_bytes()), 6), Some("d\u{e9}j\u{e0}"));
    assert_eq!(ptr_to_cstr_n(Some("d\u{e9}j\u{e0}".as_bytes()), 2), None);
    assert_eq!(ptr_to_cstr_n(None, 3), None);
}

#[test]
fn contact_points_add_up() {
    let mut cluster = cass_cluster_new();
    assert!(cluster.get_contact_points().is_empty());
    set(&mut cluster, "127.0.0.1,127.0.0.2");
    set(&mut cluster, "db.example.com");
    assert_eq!(
        cluster.get_contact_points(),
        &["127.0.0.1", "127.0.0.2", "db.example.com"]
    );

    let mut at_once = cass_cluster_new();
    set(&mut at_once, "127.0.0.1,127.0.0.2,db.example.com");
    assert_eq!(at_once.get_contact_points(), cluster.get_contact_points());
}

#[test]
fn extra_commas_are_ignored() {
    let mut cluster = cass_cluster_new();
    set(&mut cluster, ",,a,,,b,");
    assert_eq!(cluster.get_contact_points(), &["a", "b"]);
}

#[test]
fn surrounding_white_space_is_ignored() {
    let mut cluster = cass_cluster_new();
    set(&mut cluster, " a\t,\n b c \u{3000},\u{a0}d\u{2003}, ,\u{200b}");
    assert_eq!(cluster.get_contact_points(), &["a", "b c", "d", "\u{200b}"]);
}

#[test]
fn every_white_space_character_is_trimmed() {
    for code in 0..=0x10ffff_u32 {
        if let Some(c) = char::from_u32(code) {
            if c.is_whitespace() {
                let mut cluster = cass_cluster_new();
                set(&mut cluster, &format!("{}x{}", c, c));
                assert_eq!(cluster.get_contact_points(), &["x"]);
            }
        }
    }
}

#[test]
fn blank_list_clears() {
    for blank in ["", ",", ",,,"] {
        let mut cluster = cass_cluster_new();
        set(&mut cluster, "a,b");
        set(&mut cluster, blank);
        assert!(cluster.get_contact_points().is_empty());
    }
}

#[test]
fn list_of_white_space_clears_nothing() {
    let mut cluster = cass_cluster_new();
    set(&mut cluster, "a,b");
    set(&mut cluster, " , ");
    assert_eq!(cluster.get_contact_points(), &["a", "b"]);
}

#[test]
fn refused_lists_change_nothing() {
    let mut cluster = cass_cluster_new();
    set(&mut cluster, "a");
    assert_eq!(
        cass_cluster_set_contact_points(&mut cluster, None),
        CassError::CASS_ERROR_LIB_BAD_PARAMS
    );
    assert_eq!(
        cass_cluster_set_contact_points_n(&mut cluster, Some(b"b,\xff"), 3),
        CassError::CASS_ERROR_LIB_BAD_PARAMS
    );
    assert_eq!(cluster.get_contact_points(), &["a"]);
}

#[test]
fn list_may_be_a_c_string() {
    let mut cluster = cass_cluster_new();
    assert_eq!(
        cass_cluster_set_contact_points(&mut cluster, Some(b"a, b\0,c\0")),
        CassError::CASS_OK
    );
    assert_eq!(cluster.get_contact_points(), &["a", "b"]);
}

#[test]
fn points_written_as_a_list_are_read_back() {
    let points = ["10.0.0.1", "h\u{f6}st", "a b"];
    let mut cluster = cass_cluster_new();
    set(&mut cluster, &points.join(","));
    assert_eq!(cluster.get_contact_points(), &points);
}

#[test]
fn known_nodes_carry_the_port() {
    let mut cluster = cass_cluster_new();
    set(&mut cluster, "127.0.0.1,db");
    assert_eq!(known_nodes(&cluster), nodes_of(&["127.0.0.1:9042", "db:9042"]));
    assert_eq!(cass_cluster_set_port(&mut cluster, 7), CassError::CASS_OK);
    assert_eq!(known_nodes(&cluster), nodes_of(&["127.0.0.1:7", "db:7"]));
    assert_eq!(cass_cluster_set_port(&mut cluster, 65535), CassError::CASS_OK);
    assert_eq!(known_nodes(&cluster), nodes_of(&["127.0.0.1:65535", "db:65535"]));
}

#[test]
fn port_must_be_positive() {
    let mut cluster = cass_cluster_new();
    assert_eq!(cluster.get_port(), 9042);
    for port in [0, -1, i32::MIN] {
        assert_eq!(
            cass_cluster_set_port(&mut cluster, port),
            CassError::CASS_ERROR_LIB_BAD_PARAMS
        );
        assert_eq!(cluster.get_port(), 9042);
    }
    assert_eq!(cass_cluster_set_port(&mut cluster, 1), CassError::CASS_OK);
    assert_eq!(cluster.get_port(), 1);
    assert_eq!(cass_cluster_set_port(&mut cluster, 65537), CassError::CASS_OK);
    assert_eq!(cluster.get_port(), 1);
    assert_eq!(cass_cluster_set_port(&mut cluster, i32::MAX), CassError::CASS_OK);
    assert_eq!(cluster.get_port(), 65535);
}
