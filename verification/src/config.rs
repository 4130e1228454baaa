use crate::address::{address_text, parse_address_bytes, Address};
use crate::cli::{GlobalOptions, NetworkName};
use crate::error::CliError;
use crate::text::{concat, decimal, text_eq, texts, u64_to_decimal};
use vstd::prelude::*;
use vstd::string::StrSliceExecFns;
use vstd::utf8::encode_utf8;

verus! {

/// A deployment file: the network's label, chain id and RPC URL, and the
/// addresses of the protocol's contracts and of outside contracts by name.
/// The entries come from JSON objects, so no name occurs twice in a list.
#[derive(Clone, Debug)]
pub struct DeploymentFile {
    pub network: String,
    pub chain_id: u64,
    pub rpc: String,
    pub contracts: Vec<(String, String)>,
    pub external: Vec<(String, String)>,
}

/// The configuration that every command runs with.
#[derive(Clone, Debug)]
pub struct RuntimeConfig {
    pub network: NetworkName,
    pub network_label: String,
    pub chain_id: u64,
    pub rpc_url: String,
    pub factory: Address,
    pub allowlist: Address,
    pub default_collateral: Option<Address>,
    pub deployment_path: String,
}

/// The name/value texts of a list of entries.
pub open spec fn entries_view(e: Seq<(String, String)>) -> Seq<(Seq<char>, Seq<char>)> {
    e.map_values(|p: (String, String)| (p.0@, p.1@))
}

/// The value of the first entry named `key`.
pub open spec fn lookup(entries: Seq<(Seq<char>, Seq<char>)>, key: Seq<char>) -> Option<Seq<char>>
    decreases entries.len(),
{
    if entries.len() == 0 {
        None
    } else if entries[0].0 == key {
        Some(entries[0].1)
    } else {
        lookup(entries.drop_first(), key)
    }
}

/// No name occurs twice among the entries.
pub open spec fn names_distinct(entries: Seq<(Seq<char>, Seq<char>)>) -> bool {
    forall|i: int, j: int| 0 <= i < j < entries.len() ==> entries[i].0 != entries[j].0
}

impl DeploymentFile {
    /// Each list names a contract at most once, as the keys of a JSON object do.
    pub open spec fn well_formed(&self) -> bool {
        &&& names_distinct(entries_view(self.contracts@))
        &&& names_distinct(entries_view(self.external@))
    }
}

/// Where no name occurs twice, the value found for a name is that of the one
/// entry with that name: the entries act as a map.
pub proof fn lemma_lookup_is_entry(entries: Seq<(Seq<char>, Seq<char>)>, key: Seq<char>, value: Seq<char>)
    requires
        names_distinct(entries),
    ensures
        lookup(entries, key) == Some(value) <==> entries.contains((key, value)),
    decreases entries.len(),
{
    if entries.len() > 0 {
        let rest = entries.drop_first();
        assert(names_distinct(rest)) by {
            assert forall|i: int, j: int| 0 <= i < j < rest.len() implies rest[i].0 != rest[j].0 by {
                assert(rest[i] == entries[i + 1] && rest[j] == entries[j + 1]);
            }
        }
        lemma_lookup_is_entry(rest, key, value);
        if entries[0].0 == key {
            if entries.contains((key, value)) {
                let k = choose|k: int| 0 <= k < entries.len() && entries[k] == (key, value);
                if k > 0 {
                    assert(entries[0].0 != entries[k].0);
                }
            }
        } else {
            if entries.contains((key, value)) {
                let k = choose|k: int| 0 <= k < entries.len() && entries[k] == (key, value);
                assert(k > 0);
                assert(rest[k - 1] == (key, value));
            }
            if rest.contains((key, value)) {
                let k = choose|k: int| 0 <= k < rest.len() && rest[k] == (key, value);
                assert(entries[k + 1] == (key, value));
            }
        }
    }
}

/// The address that the entry named `key` holds, if it is there and parses.
pub open spec fn entry_address(entries: Seq<(Seq<char>, Seq<char>)>, key: Seq<char>) -> Option<Seq<u8>> {
    match lookup(entries, key) {
        Some(raw) => parse_address_bytes(encode_utf8(raw)),
        None => None,
    }
}

/// Finds the value of the entry named `key`.
fn find_entry(entries: &Vec<(String, String)>, key: &str) -> (r: Option<String>)
    ensures
        match r {
            Some(v) => lookup(entries_view(entries@), key@) == Some(v@),
            None => lookup(entries_view(entries@), key@) is None,
        },
{
    let ghost ev = entries_view(entries@);
    assert(ev.skip(0) =~= ev);
    let mut i: usize = 0;
    while i < entries.len()
        invariant
            i <= entries@.len(),
            ev == entries_view(entries@),
            lookup(ev, key@) == lookup(ev.skip(i as int), key@),
        decreases entries@.len() - i,
    {
        let ghost rest = ev.skip(i as int);
        assert(rest[0] == (entries@[i as int].0@, entries@[i as int].1@));
        if text_eq(entries[i].0.as_str(), key) {
            return Some(entries[i].1.clone());
        }
        assert(rest.drop_first() =~= ev.skip(i + 1));
        i = i + 1;
    }
    assert(ev.skip(i as int).len() == 0);
    None
}

/// The address of the contract named `key` in the deployment file.
pub fn parse_map_addr(entries: &Vec<(String, String)>, key: &str) -> (r: Result<Address, CliError>)
    ensures
        match r {
            Ok(a) => entry_address(entries_view(entries@), key@) == Some(a@),
            Err(e) => entry_address(entries_view(entries@), key@) is None && match lookup(
                entries_view(entries@),
                key@,
            ) {
                None => e.is_missing_key(key@),
                Some(raw) => e.is_invalid_address(key@, raw),
            },
        },
{
    match find_entry(entries, key) {
        None => Err(CliError::MissingKey { key: key.to_owned() }),
        Some(raw) => match Address::parse(raw.as_str()) {
            Some(a) => Ok(a),
            None => Err(CliError::InvalidAddress { key: key.to_owned(), raw }),
        },
    }
}

/// Where the network's deployment file lies under the repository root `root`:
/// `<root>/backend/deployments/<file>`, as `Path::join` builds it (no `/` is
/// added after a root that is empty or already ends in one).
pub open spec fn deployment_path_text(root: Seq<char>, network: NetworkName) -> Seq<char> {
    let sep = if root.len() == 0 || root.last() == '/' {
        seq![]
    } else {
        seq!['/']
    };
    root + sep + "backend/deployments/"@ + network.deployment_file_name()
}

/// The path of the network's deployment file under the repository root.
pub fn deployment_path(root: &str, network: NetworkName) -> (s: String)
    ensures
        s@ == deployment_path_text(root@, network),
{
    let n = root.unicode_len();
    let mut s = root.to_owned();
    if n != 0 && root.get_char(n - 1) != '/' {
        s.append("/");
    }
    s.append("backend/deployments/");
    s.append(network.deployment_file());
    proof {
        reveal_strlit("/");
    }
    s
}

/// The deployment file names a factory and an allowlist, and any default
/// collateral (`USDM` among the outside contracts) is an address.
pub open spec fn deployment_resolves(d: DeploymentFile) -> bool {
    let cv = entries_view(d.contracts@);
    let ev = entries_view(d.external@);
    &&& entry_address(cv, "AgentRaiseFactory"@) is Some
    &&& entry_address(cv, "ContractAllowlist"@) is Some
    &&& lookup(ev, "USDM"@) is Some ==> entry_address(ev, "USDM"@) is Some
}

/// The error that resolving the configuration reports, checking the factory,
/// then the allowlist, then the default collateral.
pub open spec fn resolve_error(d: DeploymentFile, e: CliError) -> bool {
    let cv = entries_view(d.contracts@);
    let ev = entries_view(d.external@);
    if entry_address(cv, "AgentRaiseFactory"@) is None {
        match lookup(cv, "AgentRaiseFactory"@) {
            None => e.is_missing_key("AgentRaiseFactory"@),
            Some(raw) => e.is_invalid_address("AgentRaiseFactory"@, raw),
        }
    } else if entry_address(cv, "ContractAllowlist"@) is None {
        match lookup(cv, "ContractAllowlist"@) {
            None => e.is_missing_key("ContractAllowlist"@),
            Some(raw) => e.is_invalid_address("ContractAllowlist"@, raw),
        }
    } else {
        e is InvalidDefaultCollateral
    }
}

impl RuntimeConfig {
    /// Resolves the configuration from the shared options and the network's
    /// deployment file, found under the repository root `root`. The factory
    /// and the allowlist of the file must be there and valid even where an
    /// option overrides them; the options win.
    pub fn resolve(opts: &GlobalOptions, deployment: &DeploymentFile, root: &str) -> (r:
        Result<RuntimeConfig, CliError>)
        ensures
            r is Ok <==> deployment_resolves(*deployment),
            r matches Err(e) ==> resolve_error(*deployment, e),
            r matches Ok(cfg) ==> {
                let cv = entries_view(deployment.contracts@);
                let ev = entries_view(deployment.external@);
                &&& cfg.network == opts.network
                &&& cfg.network_label@ == deployment.network@
                &&& cfg.chain_id == deployment.chain_id
                &&& cfg.rpc_url@ == (match opts.rpc_url {
                    Some(u) => u@,
                    None => deployment.rpc@,
                })
                &&& cfg.factory@ == (match opts.factory {
                    Some(a) => a@,
                    None => entry_address(cv, "AgentRaiseFactory"@)->0,
                })
                &&& cfg.allowlist@ == (match opts.allowlist {
                    Some(a) => a@,
                    None => entry_address(cv, "ContractAllowlist"@)->0,
                })
                &&& (match cfg.default_collateral {
                    Some(c) => entry_address(ev, "USDM"@) == Some(c@),
                    None => lookup(ev, "USDM"@) is None,
                })
                &&& cfg.deployment_path@ == deployment_path_text(root@, opts.network)
            },
    {
        let factory_from_file = match parse_map_addr(&deployment.contracts, "AgentRaiseFactory") {
            Ok(a) => a,
            Err(e) => return Err(e),
        };
        let allowlist_from_file = match parse_map_addr(&deployment.contracts, "ContractAllowlist") {
            Ok(a) => a,
            Err(e) => return Err(e),
        };
        let default_collateral = match find_entry(&deployment.external, "USDM") {
            None => None,
            Some(raw) => match Address::parse(raw.as_str()) {
                Some(a) => Some(a),
                None => return Err(CliError::InvalidDefaultCollateral),
            },
        };
        let rpc_url = match &opts.rpc_url {
            Some(u) => u.clone(),
            None => deployment.rpc.clone(),
        };
        let factory = match opts.factory {
            Some(a) => a,
            None => factory_from_file,
        };
        let allowlist = match opts.allowlist {
            Some(a) => a,
            None => allowlist_from_file,
        };
        Ok(RuntimeConfig {
            network: opts.network,
            network_label: deployment.network.clone(),
            chain_id: deployment.chain_id,
            rpc_url,
            factory,
            allowlist,
            default_collateral,
            deployment_path: deployment_path(root, opts.network),
        })
    }
}

/// The report of `network`: one `name: value` line per setting.
pub open spec fn network_report(cfg: RuntimeConfig) -> Seq<Seq<char>> {
    seq![
        "network: "@ + cfg.network.debug_name(),
        "label: "@ + cfg.network_label@,
        "chain_id: "@ + decimal(cfg.chain_id as nat),
        "rpc: "@ + cfg.rpc_url@,
        "factory: "@ + address_text(cfg.factory@),
        "allowlist: "@ + address_text(cfg.allowlist@),
        "default_collateral: "@ + match cfg.default_collateral {
            Some(c) => address_text(c@),
            None => "<none>"@,
        },
        "deployment_file: "@ + cfg.deployment_path@,
    ]
}

/// The lines that `network` prints.
pub fn network_lines(cfg: &RuntimeConfig) -> (lines: Vec<String>)
    ensures
        texts(lines@) == network_report(*cfg),
{
    let mut lines: Vec<String> = Vec::new();
    lines.push(concat("network: ", cfg.network.debug_text()));
    lines.push(concat("label: ", cfg.network_label.as_str()));
    let chain = u64_to_decimal(cfg.chain_id);
    lines.push(concat("chain_id: ", chain.as_str()));
    lines.push(concat("rpc: ", cfg.rpc_url.as_str()));
    let f = cfg.factory.to_text();
    lines.push(concat("factory: ", f.as_str()));
    let a = cfg.allowlist.to_text();
    lines.push(concat("allowlist: ", a.as_str()));
    let c = match &cfg.default_collateral {
        Some(c) => c.to_text(),
        None => "<none>".to_owned(),
    };
    lines.push(concat("default_collateral: ", c.as_str()));
    lines.push(concat("deployment_file: ", cfg.deployment_path.as_str()));
    assert(texts(lines@) =~= network_report(*cfg));
    lines
}

/// The root that the upward search finds along `chain`, the directories from
/// where it starts upward, each with whether it holds `backend/deployments`:
/// the first that does.
pub open spec fn first_root(chain: Seq<(Seq<char>, bool)>) -> Option<Seq<char>>
    decreases chain.len(),
{
    if chain.len() == 0 {
        None
    } else if chain[0].1 {
        Some(chain[0].0)
    } else {
        first_root(chain.drop_first())
    }
}

/// Starting the search at any directory between the start and the root it
/// finds (the root included) finds the same root.
pub proof fn lemma_root_search_restart(chain: Seq<(Seq<char>, bool)>, j: int)
    requires
        0 <= j <= chain.len(),
        forall|i: int| 0 <= i < j ==> !(#[trigger] chain[i]).1,
    ensures
        first_root(chain.skip(j)) == first_root(chain),
    decreases j,
{
    if j > 0 {
        let rest = chain.drop_first();
        assert forall|i: int| 0 <= i < j - 1 implies !(#[trigger] rest[i]).1 by {
            assert(rest[i] == chain[i + 1]);
        }
        lemma_root_search_restart(rest, j - 1);
        assert(rest.skip(j - 1) =~= chain.skip(j));
        assert(!chain[0].1);
    } else {
        assert(chain.skip(0) =~= chain);
    }
}

/// One step of the upward search for the repository root.
#[derive(Clone, Debug, PartialEq, Eq)]
pub enum RootSearch {
    /// This directory holds `backend/deployments`: it is the root.
    Found(String),
    /// Look in the parent directory next.
    Ascend(String),
    /// The search reached the top without finding the root.
    NotFound,
}

/// Decides one step of the search for the repository root, which walks up
/// from the working directory to the first directory that holds
/// `backend/deployments`: given whether `dir` holds it and `dir`'s parent.
pub fn find_repo_root(dir: &str, has_deployments: bool, parent: Option<&str>) -> (r: RootSearch)
    ensures
        has_deployments ==> (r matches RootSearch::Found(p) && p@ == dir@),
        !has_deployments ==> match parent {
            Some(q) => (r matches RootSearch::Ascend(p) && p@ == q@),
            None => r is NotFound,
        },
        forall|chain: Seq<(Seq<char>, bool)>|
            chain.len() > 0 && chain[0] == (dir@, has_deployments) && (chain.len() > 1 <==> parent is Some)
                && (parent matches Some(q) ==> chain.len() > 1 && chain[1].0 == q@) ==> match r {
                RootSearch::Found(p) => #[trigger] first_root(chain) == Some(p@),
                RootSearch::Ascend(q) => first_root(chain) == first_root(chain.drop_first()) && chain.drop_first()[0].0 == q@,
                RootSearch::NotFound => first_root(chain) is None,
            },
{
    if has_deployments {
        RootSearch::Found(dir.to_owned())
    } else {
        match parent {
            Some(q) => RootSearch::Ascend(q.to_owned()),
            None => RootSearch::NotFound,
        }
    }
}

} // verus!
