use vstd::prelude::*;

use crate::dirs::{is_listed, join_path, joined, listed, network_dir_name, network_dir_name_of};

verus! {

/// The directories of a node's databases for one network, under an
/// application directory chosen by the caller.
pub struct Dirs {
    pub app_dir: String,
    pub network_dir: String,
    pub db_dir: String,
    pub utxo_index_db_dir: Option<String>,
    pub meta_db_dir: String,
    pub consensus_db_dir: String,
}

impl Dirs {
    /// The directories under `app_dir` for `network`; the UTXO index
    /// directory is set only where `utxo_index_exists` says it is on disk.
    pub fn new(app_dir: String, network: Option<String>, utxo_index_exists: bool) -> (r: Dirs)
        ensures
            r.app_dir@ == app_dir@,
            r.network_dir@ == joined(
                app_dir@,
                network_dir_name(
                    match network {
                        Some(n) => Some(n@),
                        None => None,
                    },
                ),
            ),
            r.db_dir@ == joined(r.network_dir@, "datadir"@),
            match r.utxo_index_db_dir {
                Some(d) => utxo_index_exists && d@ == joined(r.db_dir@, "utxoindex"@),
                None => !utxo_index_exists,
            },
            r.meta_db_dir@ == joined(r.db_dir@, "meta"@),
            r.consensus_db_dir@ == joined(r.db_dir@, "consensus"@),
    {
        let network_dir = join_path(&app_dir, network_dir_name_of(&network));
        let db_dir = join_path(&network_dir, "datadir");
        let utxo_index_db_dir = if utxo_index_exists {
            Some(join_path(&db_dir, "utxoindex"))
        } else {
            None
        };
        let meta_db_dir = join_path(&db_dir, "meta");
        let consensus_db_dir = join_path(&db_dir, "consensus");
        Dirs { app_dir, network_dir, db_dir, utxo_index_db_dir, meta_db_dir, consensus_db_dir }
    }

    /// Where the UTXO index directory is, if it exists.
    pub fn utxo_index_candidate(&self) -> (r: String)
        ensures
            r@ == joined(self.db_dir@, "utxoindex"@),
    {
        join_path(&self.db_dir, "utxoindex")
    }

    /// Whether every directory is among `existing`, the UTXO index directory
    /// only where it is set.
    pub fn validate_existence(&self, existing: &Vec<String>) -> (r: bool)
        ensures
            r == (listed(existing@, self.app_dir@) && listed(existing@, self.network_dir@) && listed(existing@, self.db_dir@)
                && (self.utxo_index_db_dir matches Some(d) ==> listed(existing@, d@)) && listed(existing@, self.meta_db_dir@)
                && listed(existing@, self.consensus_db_dir@)),
    {
        let utxo_ok = match &self.utxo_index_db_dir {
            Some(d) => is_listed(existing, d),
            None => true,
        };
        is_listed(existing, &self.app_dir) && is_listed(existing, &self.network_dir) && is_listed(existing, &self.db_dir)
            && utxo_ok && is_listed(existing, &self.meta_db_dir) && is_listed(existing, &self.consensus_db_dir)
    }
}

} // verus!
