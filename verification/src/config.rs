//! The relayer's configuration.
use vstd::prelude::*;

use crate::account::valid_account_id;

verus! {

/// The settings as they stand in the configuration file. The switches may be missing there.
pub struct Settings {
    pub network: String,
    pub ip_address: [u8; 4],
    pub port: u16,
    pub relayer_account_id: String,
    pub burn_address: String,
    pub whitelisted_contracts: Vec<String>,
    pub whitelisted_delegate_action_receiver_ids: Vec<String>,
    pub use_whitelisted_delegate_action_receiver_ids: Option<bool>,
    pub use_redis: Option<bool>,
    pub use_fastauth_features: Option<bool>,
    pub use_pay_with_ft: Option<bool>,
    pub use_shared_storage: Option<bool>,
}

/// What the relayer's decisions depend on besides the request.
pub struct DConfig {
    pub port: u16,
    pub ip_address: [u8; 4],
    pub relayer_account_id: String,
    pub use_shared_storage: bool,
    pub use_fastauth_features: bool,
    pub whitelisted_delegate_action_receiver_ids: Vec<String>,
    pub network_env: String,
    pub use_pay_with_ft: bool,
    pub use_whitelisted_delegate_action_receiver_ids: bool,
    pub use_redis: bool,
    pub whitelisted_contracts: Vec<String>,
    pub burn_address: String,
}

/// A switch of the configuration file, which is off where it is missing.
pub open spec fn switch(setting: Option<bool>) -> bool {
    setting == Some(true)
}

impl DConfig {
    /// The burn address is an account id.
    pub open spec fn well_formed(&self) -> bool {
        valid_account_id(self.burn_address@)
    }

    /// Takes the configuration over from the settings. A missing switch is off.
    pub fn prod_config(settings: Settings) -> (config: DConfig)
        requires
            valid_account_id(settings.burn_address@),
        ensures
            config.well_formed(),
            config.port == settings.port,
            config.ip_address == settings.ip_address,
            config.relayer_account_id == settings.relayer_account_id,
            config.use_shared_storage == switch(settings.use_shared_storage),
            config.use_fastauth_features == switch(settings.use_fastauth_features),
            config.whitelisted_delegate_action_receiver_ids
                == settings.whitelisted_delegate_action_receiver_ids,
            config.network_env == settings.network,
            config.use_pay_with_ft == switch(settings.use_pay_with_ft),
            config.use_whitelisted_delegate_action_receiver_ids == switch(
                settings.use_whitelisted_delegate_action_receiver_ids,
            ),
            config.use_redis == switch(settings.use_redis),
            config.whitelisted_contracts == settings.whitelisted_contracts,
            config.burn_address == settings.burn_address,
    {
        DConfig {
            port: settings.port,
            ip_address: settings.ip_address,
            relayer_account_id: settings.relayer_account_id,
            use_shared_storage: settings.use_shared_storage.unwrap_or(false),
            use_fastauth_features: settings.use_fastauth_features.unwrap_or(false),
            whitelisted_delegate_action_receiver_ids: settings.whitelisted_delegate_action_receiver_ids,
            network_env: settings.network,
            use_pay_with_ft: settings.use_pay_with_ft.unwrap_or(false),
            use_whitelisted_delegate_action_receiver_ids: settings.use_whitelisted_delegate_action_receiver_ids.unwrap_or(
                false,
            ),
            use_redis: settings.use_redis.unwrap_or(false),
            whitelisted_contracts: settings.whitelisted_contracts,
            burn_address: settings.burn_address,
        }
    }

    /// Shared storage is in use, by itself or as one of the FastAuth features.
    pub open spec fn shares_storage(&self) -> bool {
        self.use_fastauth_features || self.use_shared_storage
    }

    /// Whether storage is allocated for new accounts, and its pool set up before requests are
    /// taken.
    pub fn uses_storage_pool(&self) -> (uses: bool)
        ensures
            uses == self.shares_storage(),
    {
        self.use_fastauth_features || self.use_shared_storage
    }
}

/// Whether a text stands in a list.
pub open spec fn listed(list: Seq<String>, id: Seq<char>) -> bool {
    exists|i: int| 0 <= i < list.len() && #[trigger] list[i]@ == id
}

/// Looks a text up in a list.
pub fn is_listed(list: &Vec<String>, id: &String) -> (found: bool)
    ensures
        found == listed(list@, id@),
{
    for i in 0..list.len()
        invariant
            forall|j: int| 0 <= j < i ==> #[trigger] list@[j]@ != id@,
    {
        if list[i] == *id {
            return true;
        }
    }
    false
}

} // verus!
