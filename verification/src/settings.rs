use vstd::prelude::*;
use vstd::string::*;

verus! {

/// What the bot needs from its environment to start.
#[derive(Debug)]
pub struct Settings {
    /// The token the bot logs in to Discord with (`DISCORD_TOKEN`).
    pub discord_token: String,
    /// The network to use, as written (`SPECTRE_NETWORK`).
    pub network: String,
    /// Where the wallets are kept, below the user's data directory
    /// (`WALLET_DATA_PATH`).
    pub wallet_data_path: String,
    /// A node to use instead of asking the resolver for one
    /// (`FORCE_SPECTRE_NODE_ADDRESS`).
    pub forced_node: Option<String>,
}

/// A required setting that the environment lacks.
#[derive(Debug, PartialEq, Eq, Structural)]
pub enum SettingsError {
    MissingDiscordToken,
    MissingNetwork,
    MissingWalletDataPath,
}

impl SettingsError {
    /// The words the bot stops with.
    pub open spec fn text(self) -> Seq<char> {
        match self {
            SettingsError::MissingDiscordToken => "DISCORD_TOKEN environment variable is missing."@,
            SettingsError::MissingNetwork => "SPECTRE_NETWORK environment variable is missing"@,
            SettingsError::MissingWalletDataPath => "WALLET_DATA_PATH environment variable is missing"@,
        }
    }

    /// The words the bot stops with when this setting is missing.
    pub fn message(&self) -> (m: String)
        ensures
            m@ == self.text(),
    {
        match self {
            SettingsError::MissingDiscordToken => String::from_str(
                "DISCORD_TOKEN environment variable is missing.",
            ),
            SettingsError::MissingNetwork => String::from_str(
                "SPECTRE_NETWORK environment variable is missing",
            ),
            SettingsError::MissingWalletDataPath => String::from_str(
                "WALLET_DATA_PATH environment variable is missing",
            ),
        }
    }
}

/// Gathers the settings from the values of the environment variables (`None`
/// where a variable is not set). The first required one that is missing, in
/// the order token, network, data path, is the error.
pub fn settings_from(
    discord_token: Option<String>,
    network: Option<String>,
    wallet_data_path: Option<String>,
    forced_node: Option<String>,
) -> (r: Result<Settings, SettingsError>)
    ensures
        discord_token is None ==> r == Err::<Settings, SettingsError>(
            SettingsError::MissingDiscordToken,
        ),
        discord_token is Some && network is None ==> r == Err::<Settings, SettingsError>(
            SettingsError::MissingNetwork,
        ),
        discord_token is Some && network is Some && wallet_data_path is None ==> r == Err::<
            Settings,
            SettingsError,
        >(SettingsError::MissingWalletDataPath),
        discord_token is Some && network is Some && wallet_data_path is Some ==> r == Ok::<
            Settings,
            SettingsError,
        >(
            Settings {
                discord_token: discord_token->0,
                network: network->0,
                wallet_data_path: wallet_data_path->0,
                forced_node,
            },
        ),
{
    let discord_token = match discord_token {
        Some(t) => t,
        None => return Err(SettingsError::MissingDiscordToken),
    };
    let network = match network {
        Some(n) => n,
        None => return Err(SettingsError::MissingNetwork),
    };
    let wallet_data_path = match wallet_data_path {
        Some(p) => p,
        None => return Err(SettingsError::MissingWalletDataPath),
    };
    Ok(Settings { discord_token, network, wallet_data_path, forced_node })
}

} // verus!
