use clickward::{ClickwardMetadata, Deployment, Error, NodeKind};
use std::collections::BTreeSet;

fn ids(list: &[u64]) -> BTreeSet<u64> {
    list.iter().copied().collect()
}

fn cluster(keepers: &[u64], servers: &[u64]) -> ClickwardMetadata {
    ClickwardMetadata::new(ids(keepers), ids(servers))
}

#[test]
fn new_takes_the_largest_ids_as_marks() {
    let meta = cluster(&[1, 2, 3], &[1, 2]);
    assert_eq!(meta.keeper_ids, ids(&[1, 2, 3]));
    assert_eq!(meta.max_keeper_id, 3);
    assert_eq!(meta.server_ids, ids(&[1, 2]));
    assert_eq!(meta.max_server_id, 2);
}

#[test]
fn new_accepts_sets_with_gaps() {
    let meta = cluster(&[2, 9, 5], &[40]);
    assert_eq!(meta.max_keeper_id, 9);
    assert_eq!(meta.max_server_id, 40);
    assert_eq!(meta.keeper_ids, ids(&[2, 5, 9]));
}

#[test]
fn genesis_with_three_keepers_and_two_replicas() {
    let deployment = Deployment::new_with_default_port_config("/tmp/cluster");
    let (meta, _) = deployment.generate_config(3, 2).unwrap();
    assert_eq!(meta.keeper_ids, ids(&[1, 2, 3]));
    assert_eq!(meta.max_keeper_id, 3);
    assert_eq!(meta.server_ids, ids(&[1, 2]));
    assert_eq!(meta.max_server_id, 2);
}

#[test]
fn genesis_refuses_an_empty_range() {
    assert_eq!(
        ClickwardMetadata::genesis(ids(&[]), ids(&[1])),
        Err(Error::EmptyRange { kind: NodeKind::Keeper })
    );
    assert_eq!(
        ClickwardMetadata::genesis(ids(&[1]), ids(&[])),
        Err(Error::EmptyRange { kind: NodeKind::Server })
    );
    assert_eq!(
        ClickwardMetadata::genesis(ids(&[]), ids(&[])),
        Err(Error::EmptyRange { kind: NodeKind::Keeper })
    );
    assert_eq!(ClickwardMetadata::genesis(ids(&[4]), ids(&[6])), Ok(cluster(&[4], &[6])));
}

#[test]
fn add_keeper_hands_out_the_next_id() {
    let mut meta = cluster(&[1, 2, 3], &[1, 2]);
    assert_eq!(meta.add_keeper(), 4);
    assert_eq!(meta.keeper_ids, ids(&[1, 2, 3, 4]));
    assert_eq!(meta.max_keeper_id, 4);
    assert_eq!(meta.server_ids, ids(&[1, 2]));
    assert_eq!(meta.max_server_id, 2);
}

#[test]
fn add_server_hands_out_the_next_id() {
    let mut meta = cluster(&[1, 2, 3], &[1, 2]);
    assert_eq!(meta.add_server(), 3);
    assert_eq!(meta.server_ids, ids(&[1, 2, 3]));
    assert_eq!(meta.max_server_id, 3);
    assert_eq!(meta.keeper_ids, ids(&[1, 2, 3]));
    assert_eq!(meta.max_keeper_id, 3);
}

#[test]
fn removed_keeper_id_is_never_reused() {
    let mut meta = cluster(&[1, 2, 3], &[1, 2]);
    assert_eq!(meta.remove_keeper(2), Ok(()));
    assert_eq!(meta.keeper_ids, ids(&[1, 3]));
    assert_eq!(meta.max_keeper_id, 3);
    assert_eq!(meta.add_keeper(), 4);
    assert_eq!(meta.keeper_ids, ids(&[1, 3, 4]));
    assert_eq!(meta.max_keeper_id, 4);
}

#[test]
fn removed_server_id_is_never_reused() {
    let mut meta = cluster(&[1], &[1, 2]);
    assert_eq!(meta.remove_server(2), Ok(()));
    assert_eq!(meta.server_ids, ids(&[1]));
    assert_eq!(meta.max_server_id, 2);
    assert_eq!(meta.add_server(), 3);
    assert_eq!(meta.server_ids, ids(&[1, 3]));
}

#[test]
fn removing_an_absent_keeper_fails_and_changes_nothing() {
    let mut meta = cluster(&[1, 2, 3], &[1, 2]);
    let before = meta.clone();
    assert_eq!(
        meta.remove_keeper(7),
        Err(Error::NotFound { kind: NodeKind::Keeper, id: 7 })
    );
    assert_eq!(meta, before);
    assert_eq!(meta.remove_keeper(2), Ok(()));
    let before = meta.clone();
    assert_eq!(
        meta.remove_keeper(2),
        Err(Error::NotFound { kind: NodeKind::Keeper, id: 2 })
    );
    assert_eq!(meta, before);
}

#[test]
fn removing_an_absent_server_fails_and_changes_nothing() {
    let mut meta = cluster(&[1, 2, 3], &[1, 2]);
    let before = meta.clone();
    assert_eq!(
        meta.remove_server(3),
        Err(Error::NotFound { kind: NodeKind::Server, id: 3 })
    );
    assert_eq!(meta, before);
}

#[test]
fn the_two_id_spaces_are_independent() {
    let mut meta = cluster(&[1, 2], &[1, 2]);
    assert_eq!(meta.remove_keeper(2), Ok(()));
    assert!(meta.server_ids.contains(&2));
    assert_eq!(meta.add_server(), 3);
    assert_eq!(meta.add_keeper(), 3);
}

#[test]
fn marks_never_go_down_and_bound_every_id_ever_live() {
    let mut meta = cluster(&[1, 2, 3], &[1]);
    let mut seen: BTreeSet<u64> = meta.keeper_ids.clone();
    let mut mark = meta.max_keeper_id;
    for round in 0..40u64 {
        if round % 3 == 0 {
            let _ = meta.remove_keeper(round / 2);
        } else {
            let id = meta.add_keeper();
            assert!(!seen.contains(&id));
        }
        assert!(meta.max_keeper_id >= mark);
        mark = meta.max_keeper_id;
        seen.extend(meta.keeper_ids.iter().copied());
        assert!(seen.iter().all(|id| *id <= meta.max_keeper_id));
    }
}

#[test]
fn messages_name_the_missing_node() {
    assert_eq!(
        Error::NotFound { kind: NodeKind::Keeper, id: 7 }.message(),
        "No such keeper: 7"
    );
    assert_eq!(
        Error::NotFound { kind: NodeKind::Server, id: 120 }.message(),
        "No such replica: 120"
    );
    assert_eq!(
        Error::EmptyRange { kind: NodeKind::Keeper }.message(),
        "A cluster needs at least one keeper"
    );
    assert_eq!(
        Error::EmptyRange { kind: NodeKind::Server }.message(),
        "A cluster needs at least one replica"
    );
}
