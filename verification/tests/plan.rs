use clickward::plan::id_range;
use clickward::{ClickwardMetadata, Deployment, Error, NodeKind, Step};
use std::collections::BTreeSet;

fn ids(list: &[u64]) -> BTreeSet<u64> {
    list.iter().copied().collect()
}

fn deployment() -> Deployment {
    Deployment::new_with_default_port_config("/tmp/cluster")
}

#[test]
fn id_range_counts_from_one() {
    assert_eq!(id_range(0), ids(&[]));
    assert_eq!(id_range(1), ids(&[1]));
    assert_eq!(id_range(4), ids(&[1, 2, 3, 4]));
}

#[test]
fn genesis_configures_everything_and_then_saves() {
    let (meta, steps) = deployment().generate_config(3, 2).unwrap();
    assert_eq!(meta, ClickwardMetadata::new(ids(&[1, 2, 3]), ids(&[1, 2])));
    assert_eq!(
        steps,
        vec![
            Step::ConfigureServers,
            Step::ConfigureKeeper(1),
            Step::ConfigureKeeper(2),
            Step::ConfigureKeeper(3),
            Step::SaveMetadata,
        ]
    );
}

#[test]
fn genesis_needs_a_keeper_and_a_server() {
    assert_eq!(
        deployment().generate_config(0, 2),
        Err(Error::EmptyRange { kind: NodeKind::Keeper })
    );
    assert_eq!(
        deployment().generate_config(3, 0),
        Err(Error::EmptyRange { kind: NodeKind::Server })
    );
    assert_eq!(
        deployment().generate_config(0, 0),
        Err(Error::EmptyRange { kind: NodeKind::Keeper })
    );
    let (meta, steps) = deployment().generate_config(1, 1).unwrap();
    assert_eq!(meta, ClickwardMetadata::new(ids(&[1]), ids(&[1])));
    assert_eq!(steps, vec![Step::ConfigureServers, Step::ConfigureKeeper(1), Step::SaveMetadata]);
}

#[test]
fn add_keeper_starts_the_new_keeper_before_its_peers_hear_of_it() {
    let mut meta = ClickwardMetadata::new(ids(&[1, 2, 3]), ids(&[1, 2]));
    let steps = deployment().add_keeper(&mut meta);
    assert_eq!(meta.keeper_ids, ids(&[1, 2, 3, 4]));
    assert_eq!(meta.max_keeper_id, 4);
    assert_eq!(
        steps,
        vec![
            Step::SaveMetadata,
            Step::ConfigureKeeper(4),
            Step::StartKeeper(4),
            Step::ConfigureKeeper(1),
            Step::ConfigureKeeper(2),
            Step::ConfigureKeeper(3),
            Step::ConfigureServers,
        ]
    );
}

#[test]
fn remove_keeper_configures_the_rest_before_it_stops_the_keeper() {
    let mut meta = ClickwardMetadata::new(ids(&[1, 2, 3]), ids(&[1, 2]));
    let steps = deployment().remove_keeper(&mut meta, 2).unwrap();
    assert_eq!(meta.keeper_ids, ids(&[1, 3]));
    assert_eq!(meta.max_keeper_id, 3);
    assert_eq!(
        steps,
        vec![
            Step::SaveMetadata,
            Step::ConfigureKeeper(1),
            Step::ConfigureKeeper(3),
            Step::StopKeeper(2),
            Step::ConfigureServers,
        ]
    );
    let steps = deployment().add_keeper(&mut meta);
    assert_eq!(meta.keeper_ids, ids(&[1, 3, 4]));
    assert_eq!(
        steps,
        vec![
            Step::SaveMetadata,
            Step::ConfigureKeeper(4),
            Step::StartKeeper(4),
            Step::ConfigureKeeper(1),
            Step::ConfigureKeeper(3),
            Step::ConfigureServers,
        ]
    );
}

#[test]
fn remove_keeper_of_an_absent_id_takes_no_step() {
    let mut meta = ClickwardMetadata::new(ids(&[1, 2, 3]), ids(&[1, 2]));
    let before = meta.clone();
    assert_eq!(
        deployment().remove_keeper(&mut meta, 9),
        Err(Error::NotFound { kind: NodeKind::Keeper, id: 9 })
    );
    assert_eq!(meta, before);
}

#[test]
fn add_server_configures_before_it_starts() {
    let mut meta = ClickwardMetadata::new(ids(&[1, 2, 3]), ids(&[1, 2]));
    let steps = deployment().add_server(&mut meta);
    assert_eq!(meta.server_ids, ids(&[1, 2, 3]));
    assert_eq!(meta.max_server_id, 3);
    assert_eq!(steps, vec![Step::SaveMetadata, Step::ConfigureServers, Step::StartServer(3)]);
}

#[test]
fn remove_server_configures_before_it_stops() {
    let mut meta = ClickwardMetadata::new(ids(&[1, 2, 3]), ids(&[1, 2]));
    let steps = deployment().remove_server(&mut meta, 1).unwrap();
    assert_eq!(meta.server_ids, ids(&[2]));
    assert_eq!(meta.max_server_id, 2);
    assert_eq!(steps, vec![Step::SaveMetadata, Step::ConfigureServers, Step::StopServer(1)]);
    let before = meta.clone();
    assert_eq!(
        deployment().remove_server(&mut meta, 1),
        Err(Error::NotFound { kind: NodeKind::Server, id: 1 })
    );
    assert_eq!(meta, before);
}

#[test]
fn each_step_writes_its_files() {
    let deployment = deployment();
    let mut meta = ClickwardMetadata::new(ids(&[1, 2, 3]), ids(&[1, 2]));
    let steps = deployment.add_keeper(&mut meta);
    assert!(deployment.supports(&meta));
    for step in &steps {
        let files = deployment.files(*step, &meta);
        match *step {
            Step::ConfigureKeeper(id) => {
                assert_eq!(files, vec![deployment.generate_keeper_config(id, &meta.keeper_ids)]);
                assert_eq!(files[0].contents.matches("<server>").count(), 4);
            }
            Step::ConfigureServers => {
                assert_eq!(
                    files,
                    deployment.generate_clickhouse_config(&meta.keeper_ids, &meta.server_ids)
                );
                assert_eq!(files.len(), 2);
                for file in &files {
                    assert_eq!(file.contents.matches("<node>").count(), 4);
                }
            }
            _ => assert_eq!(files, vec![]),
        }
    }
}

#[test]
fn every_configured_keeper_is_live() {
    let deployment = deployment();
    let mut meta = ClickwardMetadata::new(ids(&[2, 5, 9]), ids(&[1]));
    let mut plans = vec![deployment.add_keeper(&mut meta)];
    plans.push(deployment.remove_keeper(&mut meta, 5).unwrap());
    for steps in &plans {
        for step in steps {
            if let Step::ConfigureKeeper(id) = step {
                assert!(meta.keeper_ids.contains(id) || *id == 5);
            }
        }
    }
    let last = plans.last().unwrap();
    assert!(!last.contains(&Step::ConfigureKeeper(5)));
    assert_eq!(
        *last,
        vec![
            Step::SaveMetadata,
            Step::ConfigureKeeper(2),
            Step::ConfigureKeeper(9),
            Step::ConfigureKeeper(10),
            Step::StopKeeper(5),
            Step::ConfigureServers,
        ]
    );
}
