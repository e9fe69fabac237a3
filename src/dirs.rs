use vstd::prelude::*;

verus! {

/// `part` appended to the path `base` as one more component, with a `/`
/// between them unless `base` is empty or already ends with one.
pub open spec fn joined(base: Seq<char>, part: Seq<char>) -> Seq<char> {
    if base.len() == 0 {
        part
    } else if base.last() == '/' {
        base + part
    } else {
        base + seq!['/'] + part
    }
}

/// The name of the directory that holds the data of `network`; unknown
/// names and `None` mean mainnet.
pub open spec fn network_dir_name(network: Option<Seq<char>>) -> Seq<char> {
    match network {
        Some(n) => if n == "testnet"@ {
            "kaspa-testnet"@
        } else if n == "devnet"@ {
            "kaspa-devnet"@
        } else if n == "simnet"@ {
            "kaspa-simnet"@
        } else {
            "kaspa-mainnet"@
        },
        None => "kaspa-mainnet"@,
    }
}

pub open spec fn app_dir_name(windows: bool) -> Seq<char> {
    if windows {
        "rusty-kaspa"@
    } else {
        ".rusty-kaspa"@
    }
}

pub open spec fn listed(paths: Seq<String>, p: Seq<char>) -> bool {
    exists|j: int| 0 <= j < paths.len() && #[trigger] paths[j]@ == p
}

pub(crate) fn join_path(base: &String, part: &str) -> (r: String)
    ensures
        r@ == joined(base@, part@),
{
    let n = base.as_str().unicode_len();
    let mut r = base.clone();
    if n == 0 {
        return part.to_owned();
    }
    if base.as_str().get_char(n - 1) != '/' {
        proof {
            reveal_strlit("/");
        }
        r.append("/");
        assert(r@ == base@ + seq!['/']);
    }
    r.append(part);
    r
}

fn same_text(s: &String, lit: &str) -> (r: bool)
    ensures
        r == (s@ == lit@),
{
    let t = lit.to_owned();
    s.eq(&t)
}

pub(crate) fn network_dir_name_of(network: &Option<String>) -> (r: &'static str)
    ensures
        r@ == network_dir_name(
            match network {
                Some(n) => Some(n@),
                None => None,
            },
        ),
{
    match network {
        Some(n) => if same_text(n, "testnet") {
            "kaspa-testnet"
        } else if same_text(n, "devnet") {
            "kaspa-devnet"
        } else if same_text(n, "simnet") {
            "kaspa-simnet"
        } else {
            "kaspa-mainnet"
        },
        None => "kaspa-mainnet",
    }
}

pub(crate) fn is_listed(paths: &Vec<String>, p: &String) -> (r: bool)
    ensures
        r == listed(paths@, p@),
{
    let mut j: usize = 0;
    while j < paths.len()
        invariant
            j <= paths@.len(),
            forall|i: int| 0 <= i < j ==> #[trigger] paths@[i]@ != p@,
        decreases paths@.len() - j,
    {
        if paths[j].eq(p) {
            return true;
        }
        j += 1;
    }
    false
}

/// The directories of a node's data for one network.
pub struct Dirs {
    pub home_dir: String,
    pub app_dir: String,
    pub network_dir: String,
    pub db_dir: String,
    pub utxo_index_db_dir: Option<String>,
    pub meta_db_dir: String,
    pub consensus_db_dir: String,
}

impl Dirs {
    /// The default application directory in `home_dir`: `rusty-kaspa` on
    /// Windows (where `home_dir` is the local application data directory),
    /// `.rusty-kaspa` elsewhere.
    pub fn get_app_dir(home_dir: &String, windows: bool) -> (r: String)
        ensures
            r@ == joined(home_dir@, app_dir_name(windows)),
    {
        if windows {
            join_path(home_dir, "rusty-kaspa")
        } else {
            join_path(home_dir, ".rusty-kaspa")
        }
    }

    /// The directories under `app_dir` (by default the application directory
    /// in `home_dir`, see `get_app_dir`) for `network`; the UTXO index directory is set only where
    /// `utxo_index_exists` says it is on disk.
    pub fn new(home_dir: String, app_dir: Option<String>, network: Option<String>, utxo_index_exists: bool, windows: bool) -> (r: Dirs)
        ensures
            r.home_dir@ == home_dir@,
            r.app_dir@ == match app_dir {
                Some(d) => d@,
                None => joined(home_dir@, app_dir_name(windows)),
            },
            r.network_dir@ == joined(
                r.app_dir@,
                network_dir_name(
                    match network {
                        Some(n) => Some(n@),
                        None => None,
                    },
                ),
            ),
            r.db_dir@ == joined(r.network_dir@, "datadir"@),
            match r.utxo_index_db_dir {
                Some(d) => utxo_index_exists && d@ == joined(r.db_dir@, "utxoindex"@),
                None => !utxo_index_exists,
            },
            r.meta_db_dir@ == joined(r.db_dir@, "meta"@),
            r.consensus_db_dir@ == joined(r.db_dir@, "consensus"@),
    {
        let app_dir = match app_dir {
            Some(dir) => dir,
            None => Self::get_app_dir(&home_dir, windows),
        };
        let network_dir = join_path(&app_dir, network_dir_name_of(&network));
        let db_dir = join_path(&network_dir, "datadir");
        let utxo_index_db_dir = if utxo_index_exists {
            Some(join_path(&db_dir, "utxoindex"))
        } else {
            None
        };
        let meta_db_dir = join_path(&db_dir, "meta");
        let consensus_db_dir = join_path(&db_dir, "consensus");
        Dirs { home_dir, app_dir, network_dir, db_dir, utxo_index_db_dir, meta_db_dir, consensus_db_dir }
    }

    /// Where the UTXO index directory is, if it exists.
    pub fn utxo_index_candidate(&self) -> (r: String)
        ensures
            r@ == joined(self.db_dir@, "utxoindex"@),
    {
        join_path(&self.db_dir, "utxoindex")
    }

    /// Whether every directory is among `existing`, the UTXO index directory
    /// only where it is set.
    pub fn validate_existence(&self, existing: &Vec<String>) -> (r: bool)
        ensures
            r == (listed(existing@, self.home_dir@) && listed(existing@, self.app_dir@) && listed(existing@, self.network_dir@)
                && listed(existing@, self.db_dir@) && (self.utxo_index_db_dir matches Some(d) ==> listed(existing@, d@))
                && listed(existing@, self.meta_db_dir@) && listed(existing@, self.consensus_db_dir@)),
    {
        let utxo_ok = match &self.utxo_index_db_dir {
            Some(d) => is_listed(existing, d),
            None => true,
        };
        is_listed(existing, &self.home_dir) && is_listed(existing, &self.app_dir) && is_listed(existing, &self.network_dir)
            && is_listed(existing, &self.db_dir) && utxo_ok && is_listed(existing, &self.meta_db_dir)
            && is_listed(existing, &self.consensus_db_dir)
    }

    /// Every directory, the UTXO index one only where it is set.
    pub fn required_dirs(&self) -> (r: Vec<String>)
        ensures
            forall|p: Seq<char>| listed(r@, p) <==> (p == self.home_dir@ || p == self.app_dir@ || p == self.network_dir@
                || p == self.db_dir@ || (self.utxo_index_db_dir matches Some(d) && p == d@) || p == self.meta_db_dir@
                || p == self.consensus_db_dir@),
    {
        let mut r: Vec<String> = Vec::new();
        r.push(self.home_dir.clone());
        r.push(self.app_dir.clone());
        r.push(self.network_dir.clone());
        r.push(self.db_dir.clone());
        match &self.utxo_index_db_dir {
            Some(d) => r.push(d.clone()),
            None => {},
        }
        r.push(self.meta_db_dir.clone());
        r.push(self.consensus_db_dir.clone());
        proof {
            assert forall|p: Seq<char>| listed(r@, p) <==> (p == self.home_dir@ || p == self.app_dir@ || p == self.network_dir@
                || p == self.db_dir@ || (self.utxo_index_db_dir matches Some(d) && p == d@) || p == self.meta_db_dir@
                || p == self.consensus_db_dir@) by {
                if p == self.home_dir@ { assert(r@[0]@ == p); }
                if p == self.app_dir@ { assert(r@[1]@ == p); }
                if p == self.network_dir@ { assert(r@[2]@ == p); }
                if p == self.db_dir@ { assert(r@[3]@ == p); }
                if self.utxo_index_db_dir is Some {
                    if p == self.utxo_index_db_dir->Some_0@ { assert(r@[4]@ == p); }
                    if p == self.meta_db_dir@ { assert(r@[5]@ == p); }
                    if p == self.consensus_db_dir@ { assert(r@[6]@ == p); }
                } else {
                    if p == self.meta_db_dir@ { assert(r@[4]@ == p); }
                    if p == self.consensus_db_dir@ { assert(r@[5]@ == p); }
                }
            }
        }
        r
    }
}

} // verus!
