use utxo_inquirer::dirs::Dirs;
use utxo_inquirer::node_dirs::Dirs as NodeDirs;

#[test]
fn default_layout_for_mainnet() {
    let d = Dirs::new("/home/u".to_string(), None, None, false, false);
    assert_eq!(d.app_dir, "/home/u/.rusty-kaspa");
    assert_eq!(d.network_dir, "/home/u/.rusty-kaspa/kaspa-mainnet");
    assert_eq!(d.db_dir, "/home/u/.rusty-kaspa/kaspa-mainnet/datadir");
    assert_eq!(d.utxo_index_db_dir, None);
    assert_eq!(d.meta_db_dir, "/home/u/.rusty-kaspa/kaspa-mainnet/datadir/meta");
    assert_eq!(d.consensus_db_dir, "/home/u/.rusty-kaspa/kaspa-mainnet/datadir/consensus");
}

#[test]
fn network_names_select_the_directory() {
    for (name, dir) in [
        ("mainnet", "kaspa-mainnet"),
        ("testnet", "kaspa-testnet"),
        ("devnet", "kaspa-devnet"),
        ("simnet", "kaspa-simnet"),
        ("other", "kaspa-mainnet"),
    ] {
        let d = Dirs::new("/h".to_string(), Some("/data/".to_string()), Some(name.to_string()), true, false);
        assert_eq!(d.app_dir, "/data/");
        assert_eq!(d.network_dir, format!("/data/{}", dir));
        assert_eq!(d.utxo_index_db_dir, Some(format!("/data/{}/datadir/utxoindex", dir)));
        assert_eq!(d.utxo_index_candidate(), format!("/data/{}/datadir/utxoindex", dir));
    }
}

#[test]
fn existence_is_checked_for_every_directory() {
    let d = Dirs::new("/h".to_string(), None, Some("testnet".to_string()), true, false);
    let all = d.required_dirs();
    assert_eq!(all.len(), 7);
    assert!(d.validate_existence(&all));
    let without_meta: Vec<String> = all.iter().filter(|p| **p != d.meta_db_dir).cloned().collect();
    assert!(!d.validate_existence(&without_meta));
    let without_index: Vec<String> = all.iter().filter(|p| Some((*p).clone()) != d.utxo_index_db_dir).cloned().collect();
    assert!(!d.validate_existence(&without_index));
    let e = Dirs::new("/h".to_string(), None, Some("testnet".to_string()), false, false);
    assert_eq!(e.required_dirs().len(), 6);
    assert!(e.validate_existence(&without_index));
}

#[test]
fn default_app_dir_joins_the_home_directory() {
    assert_eq!(Dirs::get_app_dir(&"/home/u".to_string(), false), "/home/u/.rusty-kaspa");
    assert_eq!(Dirs::get_app_dir(&"/home/u/".to_string(), false), "/home/u/.rusty-kaspa");
    assert_eq!(Dirs::get_app_dir(&String::new(), false), ".rusty-kaspa");
}

#[test]
fn windows_app_dir_is_not_hidden() {
    assert_eq!(Dirs::get_app_dir(&"C:/Users/u/AppData/Local".to_string(), true), "C:/Users/u/AppData/Local/rusty-kaspa");
    let d = Dirs::new("/h".to_string(), None, None, false, true);
    assert_eq!(d.app_dir, "/h/rusty-kaspa");
}

#[test]
fn node_layout_under_a_given_app_dir() {
    let d = NodeDirs::new("/srv/kaspa".to_string(), Some("devnet".to_string()), true);
    assert_eq!(d.network_dir, "/srv/kaspa/kaspa-devnet");
    assert_eq!(d.db_dir, "/srv/kaspa/kaspa-devnet/datadir");
    assert_eq!(d.utxo_index_db_dir, Some("/srv/kaspa/kaspa-devnet/datadir/utxoindex".to_string()));
    assert_eq!(d.meta_db_dir, "/srv/kaspa/kaspa-devnet/datadir/meta");
    assert_eq!(d.consensus_db_dir, "/srv/kaspa/kaspa-devnet/datadir/consensus");
    assert_eq!(d.utxo_index_candidate(), "/srv/kaspa/kaspa-devnet/datadir/utxoindex");
    let all = vec![
        d.app_dir.clone(),
        d.network_dir.clone(),
        d.db_dir.clone(),
        d.utxo_index_db_dir.clone().unwrap(),
        d.meta_db_dir.clone(),
        d.consensus_db_dir.clone(),
    ];
    assert!(d.validate_existence(&all));
    assert!(!d.validate_existence(&all[1..].to_vec()));
    let e = NodeDirs::new("/srv/kaspa".to_string(), None, false);
    assert_eq!(e.utxo_index_db_dir, None);
    assert_eq!(e.network_dir, "/srv/kaspa/kaspa-mainnet");
}
