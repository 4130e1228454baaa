use crate::address::Address;
use crate::formatters::status_name;
use vstd::prelude::*;

verus! {

/// The networks that have a deployment file.
#[derive(Clone, Copy, Debug, PartialEq, Eq)]
pub enum NetworkName {
    Testnet,
    Mainnet,
}

impl NetworkName {
    /// The name of the network's deployment file.
    pub open spec fn deployment_file_name(self) -> Seq<char> {
        match self {
            NetworkName::Testnet => "megaeth-testnet.json"@,
            NetworkName::Mainnet => "megaeth-mainnet.json"@,
        }
    }

    /// How the network prints with `{:?}`.
    pub open spec fn debug_name(self) -> Seq<char> {
        match self {
            NetworkName::Testnet => "Testnet"@,
            NetworkName::Mainnet => "Mainnet"@,
        }
    }

    /// The name of the deployment file under `backend/deployments`.
    pub fn deployment_file(self) -> (s: &'static str)
        ensures
            s@ == self.deployment_file_name(),
    {
        match self {
            NetworkName::Testnet => "megaeth-testnet.json",
            NetworkName::Mainnet => "megaeth-mainnet.json",
        }
    }

    /// The network's name as `{:?}` prints it.
    pub fn debug_text(self) -> (s: &'static str)
        ensures
            s@ == self.debug_name(),
    {
        match self {
            NetworkName::Testnet => "Testnet",
            NetworkName::Mainnet => "Mainnet",
        }
    }
}

/// Different networks read different deployment files.
pub proof fn lemma_deployment_files_distinct(a: NetworkName, b: NetworkName)
    ensures
        a != b ==> a.deployment_file_name() != b.deployment_file_name(),
{
    reveal_strlit("megaeth-testnet.json");
    reveal_strlit("megaeth-mainnet.json");
    if a != b {
        assert(a.deployment_file_name()[8] != b.deployment_file_name()[8]);
    }
}

/// The network prints under its own name, `Testnet` or `Mainnet` as
/// `{:?}` writes the variant, so different networks print differently.
pub proof fn lemma_network_debug_names(a: NetworkName, b: NetworkName)
    ensures
        NetworkName::Testnet.debug_name() == "Testnet"@,
        NetworkName::Mainnet.debug_name() == "Mainnet"@,
        a != b ==> a.debug_name() != b.debug_name(),
{
    reveal_strlit("Testnet");
    reveal_strlit("Mainnet");
    if a != b {
        assert(a.debug_name()[0] != b.debug_name()[0]);
    }
}

/// A yes/no command-line value.
#[derive(Clone, Copy, Debug, PartialEq, Eq)]
pub enum BoolValue {
    True,
    False,
}

impl BoolValue {
    /// `true` exactly for `True`.
    pub fn as_bool(self) -> (b: bool)
        ensures
            b == (self is True),
    {
        match self {
            BoolValue::True => true,
            BoolValue::False => false,
        }
    }
}

/// The operational status of a project, as the factory stores it.
#[derive(Clone, Copy, Debug, PartialEq, Eq)]
pub enum OperationalStatus {
    Raising,
    Deploying,
    Operating,
    Paused,
    Closed,
}

impl OperationalStatus {
    /// The status code the factory stores.
    pub open spec fn code(self) -> u8 {
        match self {
            OperationalStatus::Raising => 0,
            OperationalStatus::Deploying => 1,
            OperationalStatus::Operating => 2,
            OperationalStatus::Paused => 3,
            OperationalStatus::Closed => 4,
        }
    }

    /// The name the status has on the command line.
    pub open spec fn value_name(self) -> Seq<char> {
        match self {
            OperationalStatus::Raising => "raising"@,
            OperationalStatus::Deploying => "deploying"@,
            OperationalStatus::Operating => "operating"@,
            OperationalStatus::Paused => "paused"@,
            OperationalStatus::Closed => "closed"@,
        }
    }

    /// The status code sent to the factory.
    pub fn as_u8(self) -> (r: u8)
        ensures
            r == self.code(),
    {
        match self {
            OperationalStatus::Raising => 0,
            OperationalStatus::Deploying => 1,
            OperationalStatus::Operating => 2,
            OperationalStatus::Paused => 3,
            OperationalStatus::Closed => 4,
        }
    }
}

/// A status set on the command line reads back under the same name: the code
/// sent to the factory is one `format_status` names, with the name the status
/// was given by, and different statuses send different codes.
pub proof fn lemma_status_code_names(s: OperationalStatus, t: OperationalStatus)
    ensures
        s.code() <= 4,
        status_name(s.code()) == s.value_name(),
        s != t ==> s.code() != t.code(),
{
}

/// The options every command shares: the network and the overrides of the
/// deployment file's RPC URL and contract addresses, and the signing key.
#[derive(Clone, Debug)]
pub struct GlobalOptions {
    pub network: NetworkName,
    pub rpc_url: Option<String>,
    pub factory: Option<Address>,
    pub allowlist: Option<Address>,
    pub private_key: Option<String>,
}

/// The arguments of `factory create`.
#[derive(Clone, Debug)]
pub struct CreateArgs {
    pub agent_id: u64,
    pub name: String,
    pub description: String,
    pub categories: String,
    pub token_name: String,
    pub token_symbol: String,
    pub duration_minutes: u64,
    /// How long the fund term lasts after the raise ends, in minutes (0 for
    /// none).
    pub lockup_minutes: u64,
    pub launch_in_minutes: u64,
    pub agent_address: Option<Address>,
    pub collateral: Option<Address>,
}

/// The arguments of `factory update-metadata`.
#[derive(Clone, Debug)]
pub struct UpdateMetadataArgs {
    pub project_id: u64,
    pub description: String,
    pub categories: String,
}

/// The arguments of `factory set-status`.
#[derive(Clone, Debug)]
pub struct SetStatusArgs {
    pub project_id: u64,
    pub status: OperationalStatus,
    pub status_note: String,
}

/// The arguments of `factory set-global`: raise bounds in 18-decimal units,
/// the platform fee, and duration and delay bounds in minutes.
#[derive(Clone, Debug)]
pub struct SetGlobalArgs {
    pub min_raise: String,
    pub max_raise: String,
    pub platform_fee_bps: u16,
    pub platform_fee_recipient: Address,
    pub min_duration_minutes: u64,
    pub max_duration_minutes: u64,
    pub min_launch_delay_minutes: u64,
    pub max_launch_delay_minutes: u64,
}

/// Which sale a sale command acts on: by address, or through the project
/// that owns it.
#[derive(Clone, Copy, Debug)]
pub struct SaleTarget {
    pub sale: Option<Address>,
    pub project_id: Option<u64>,
}

} // verus!
