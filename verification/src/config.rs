//! Configuration resolution: the data directory, the blockchain provider
//! and the remote service endpoints.
//!
//! Command-line flags win over stored configuration, which wins over the
//! built-in fallback; nothing here touches the database or the network.

use vstd::prelude::*;
use crate::btc::Network;

verus! {

/// The directory the local database lives in, as a textual path with
/// `/` separators.
#[derive(Clone, PartialEq, Eq, Debug)]
pub struct DataDir {
    pub path: String,
}

/// The name of the default data directory under the user's home.
pub open spec fn default_dir_name() -> Seq<char> {
    ".heritage-wallet"@
}

/// Whether `p` is a possible default data-directory path: the well-known
/// name, under some home directory or bare when none is known.
pub open spec fn is_default_dir_path(p: Seq<char>) -> bool {
    p == default_dir_name() || exists|h: Seq<char>| p == h + "/"@ + default_dir_name()
}

/// Relies on `dirs_next::home_dir` for the user's home directory; the
/// result depends on the machine and environment, so nothing is promised
/// of it.  A path that is not valid text is treated as absent.
#[verifier::external_body]
fn home_dir_string() -> (r: Option<String>) {
    dirs_next::home_dir().and_then(|p| p.to_str().map(|s| s.to_owned()))
}

/// The default data directory under a given home directory.
pub fn default_data_dir(home: Option<String>) -> (r: DataDir)
    ensures
        ({
            match home {
                Option::Some(h) => r.path@ == h@ + "/"@ + default_dir_name(),
                Option::None => r.path@ == default_dir_name(),
            }
        }),
{
    match home {
        Option::Some(h) => {
            let path = h.concat("/").concat(".heritage-wallet");
            DataDir { path }
        },
        Option::None => DataDir { path: String::from_str(".heritage-wallet") },
    }
}

impl Default for DataDir {
    /// The default directory sits under the user's home when one is
    /// known.
    fn default() -> (r: Self)
        ensures
            is_default_dir_path(r.path@),
    {
        let r = default_data_dir(home_dir_string());
        proof {
            if r.path@ != default_dir_name() {
                assert(is_default_dir_path(r.path@));
            }
        }
        r
    }
}

impl DataDir {
    /// The path as text.
    pub fn to_string(&self) -> (r: String)
        ensures
            r@ == self.path@,
    {
        self.path.clone()
    }

    /// A data directory at the given path.
    pub fn from_str(s: &str) -> (r: Self)
        ensures
            r.path@ == s@,
    {
        DataDir { path: s.to_owned() }
    }
}

/// The global command-line options every operation shares.
#[derive(Clone, Debug)]
pub struct CliGlobalArgs {
    /// The Bitcoin network the invocation operates on.
    pub network: Network,
    /// The database directory.
    pub datadir: DataDir,
}

/// The blockchain-provider command-line flags.
#[derive(Clone, Debug)]
pub struct BlockchainProviderGlobalArgs {
    pub electrum_uri: Option<String>,
    pub bitcoincore_url: Option<String>,
    pub auth_cookie: Option<String>,
    pub username: Option<String>,
    pub password: Option<String>,
}

/// How a Bitcoin Core endpoint authenticates.
#[derive(Clone, PartialEq, Eq, Debug)]
pub enum AuthConfig {
    Cookie { file: String },
    UserPass { username: String, password: String },
}

/// A raw chain provider: an Electrum server or a Bitcoin Core node.
#[derive(Clone, PartialEq, Eq, Debug)]
pub enum BlockchainProviderConfig {
    Electrum { url: String },
    BitcoinCore { url: String, auth: AuthConfig },
}

impl BlockchainProviderConfig {
    /// Reads the provider configuration out of the command-line flags:
    /// an Electrum endpoint wins, then a Bitcoin Core endpoint with its
    /// cookie file or username and password; with no endpoint flag the
    /// caller falls back to the stored configuration.
    pub fn try_from(args: BlockchainProviderGlobalArgs) -> (r: Result<BlockchainProviderConfig, ()>)
        requires
            args.bitcoincore_url is Some && args.auth_cookie is None ==> args.username is Some
                && args.password is Some,
        ensures
            ({
                match args.electrum_uri {
                    Option::Some(url) => r == Ok::<BlockchainProviderConfig, ()>(
                        BlockchainProviderConfig::Electrum { url },
                    ),
                    Option::None => match args.bitcoincore_url {
                        Option::Some(url) => match r {
                            Ok(c) => c == (BlockchainProviderConfig::BitcoinCore {
                                url,
                                auth: match args.auth_cookie {
                                    Option::Some(file) => AuthConfig::Cookie { file },
                                    Option::None => AuthConfig::UserPass {
                                        username: args.username->0,
                                        password: args.password->0,
                                    },
                                },
                            }),
                            Err(_) => false,
                        },
                        Option::None => r == Err::<BlockchainProviderConfig, ()>(()),
                    },
                }
            }),
    {
        if let Option::Some(url) = args.electrum_uri {
            Ok(BlockchainProviderConfig::Electrum { url })
        } else if let Option::Some(url) = args.bitcoincore_url {
            let auth = if let Option::Some(file) = args.auth_cookie {
                AuthConfig::Cookie { file }
            } else {
                AuthConfig::UserPass {
                    username: args.username.unwrap(),
                    password: args.password.unwrap(),
                }
            };
            Ok(BlockchainProviderConfig::BitcoinCore { url, auth })
        } else {
            Err(())
        }
    }
}

/// Picks the provider configuration to use: flags win over the stored
/// one, which wins over the fallback.
pub fn choose_blockchain_config(
    from_args: Option<BlockchainProviderConfig>,
    stored: Option<BlockchainProviderConfig>,
    fallback: BlockchainProviderConfig,
) -> (r: BlockchainProviderConfig)
    ensures
        from_args is Some ==> r == from_args->0,
        from_args is None && stored is Some ==> r == stored->0,
        from_args is None && stored is None ==> r == fallback,
{
    match from_args {
        Option::Some(c) => c,
        Option::None => match stored {
            Option::Some(c) => c,
            Option::None => fallback,
        },
    }
}

/// The remote-service command-line flags.
#[derive(Clone, Debug)]
pub struct HeritageServiceGlobalArgs {
    pub service_api_url: Option<String>,
    pub auth_url: Option<String>,
    pub auth_client_id: Option<String>,
}

/// The resolved remote-service endpoints.
#[derive(Clone, PartialEq, Eq, Debug)]
pub struct ServiceConfig {
    pub service_api_url: String,
    pub auth_url: String,
    pub auth_client_id: String,
}

/// Overlays the service flags on the stored configuration: each flag that
/// was given replaces its stored field.
pub fn overlay_service_config(base: ServiceConfig, args: HeritageServiceGlobalArgs) -> (r:
    ServiceConfig)
    ensures
        r.service_api_url == match args.service_api_url {
            Option::Some(u) => u,
            Option::None => base.service_api_url,
        },
        r.auth_url == match args.auth_url {
            Option::Some(u) => u,
            Option::None => base.auth_url,
        },
        r.auth_client_id == match args.auth_client_id {
            Option::Some(u) => u,
            Option::None => base.auth_client_id,
        },
{
    let service_api_url = match args.service_api_url {
        Option::Some(u) => u,
        Option::None => base.service_api_url,
    };
    let auth_url = match args.auth_url {
        Option::Some(u) => u,
        Option::None => base.auth_url,
    };
    let auth_client_id = match args.auth_client_id {
        Option::Some(u) => u,
        Option::None => base.auth_client_id,
    };
    ServiceConfig { service_api_url, auth_url, auth_client_id }
}

} // verus!
