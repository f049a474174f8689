use std::collections::HashSet;

use steamcmd::config::Config;
use steamcmd::config::Modification;
use steamcmd::config::Server;

fn server_with_ids(ids: &[u32]) -> Server {
    let mods: Vec<Modification> = ids.iter().map(|id| Modification::new(*id, None)).collect();
    Server::new(mods)
}

#[test]
fn get_missing_returns_none() {
    let config = Config::new(vec![("alpha".to_string(), server_with_ids(&[1]))]);
    assert!(config.get("missing").is_none());
    assert!(config.get("alpha").is_some());
}

#[test]
fn get_on_empty_config_returns_none() {
    let config = Config::new(Vec::new());
    assert!(config.get("anything").is_none());
}

#[test]
fn mod_ids_deduplicates() {
    let server = server_with_ids(&[5, 5, 7]);
    let mut expected = HashSet::new();
    expected.insert(5);
    expected.insert(7);
    assert_eq!(server.mod_ids(), expected);
}

#[test]
fn mods_keep_order_and_duplicates() {
    let server = server_with_ids(&[5, 5, 7]);
    let ids: Vec<u32> = server.mods().iter().map(Modification::id).collect();
    assert_eq!(ids, vec![5, 5, 7]);
}

#[test]
fn last_entry_with_a_name_wins() {
    let config = Config::new(vec![
        ("alpha".to_string(), server_with_ids(&[1])),
        ("alpha".to_string(), server_with_ids(&[2])),
    ]);
    let server = config.get("alpha").expect("alpha is configured");
    let ids: Vec<u32> = server.mods().iter().map(Modification::id).collect();
    assert_eq!(ids, vec![2]);
    assert_eq!(config.servers().len(), 1);
}

#[test]
fn servers_exposes_the_full_mapping() {
    let config = Config::new(vec![
        ("alpha".to_string(), server_with_ids(&[1])),
        ("beta".to_string(), server_with_ids(&[2, 3])),
    ]);
    let servers = config.servers();
    assert_eq!(servers.len(), 2);
    let names: Vec<&str> = servers.iter().map(|(name, _)| name.as_str()).collect();
    assert!(names.contains(&"alpha"));
    assert!(names.contains(&"beta"));
}

#[test]
fn modification_accessors() {
    let with_name = Modification::new(5, Some("map pack".to_string()));
    assert_eq!(with_name.id(), 5);
    assert_eq!(with_name.name(), Some(&"map pack".to_string()));

    let bare = Modification::new(9, None);
    assert_eq!(bare.id(), 9);
    assert_eq!(bare.name(), None);
}

#[test]
fn modification_converts_to_and_from_bare_id() {
    let m = Modification::from(11u32);
    assert_eq!(m.id(), 11);
    assert!(m.name().is_none());
    assert_eq!(u32::from(m), 11);
}
