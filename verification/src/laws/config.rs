//! The lists and switches of the configuration.
use vstd::prelude::*;

use crate::config::{is_listed, listed, DConfig, Settings};

verus! {

/// Every entry of a list is found, wherever it stands, and nothing else is.
pub proof fn law_every_entry_is_found(list: &Vec<String>, id: &String, found: bool)
    requires
        call_ensures(is_listed, (list, id), found),
    ensures
        forall|i: int| 0 <= i < list@.len() && #[trigger] list@[i]@ == id@ ==> found,
        found ==> exists|i: int| 0 <= i < list@.len() && #[trigger] list@[i]@ == id@,
{
}

/// A list that grows by an entry finds what it found and the entry, and no more.
pub proof fn law_list_grows(
    list: &Vec<String>,
    entry: String,
    more: &Vec<String>,
    id: &String,
    found: bool,
    more_found: bool,
)
    requires
        call_ensures(is_listed, (list, id), found),
        call_ensures(is_listed, (more, id), more_found),
        more@ == list@.push(entry),
    ensures
        list@.len() == 0 ==> !found,
        more_found == (found || entry@ == id@),
{
    law_listed_grows(list@, entry, id@);
}

/// The same of the texts that stand in a list.
pub proof fn law_listed_grows(list: Seq<String>, entry: String, id: Seq<char>)
    ensures
        !listed(Seq::empty(), id),
        listed(list.push(entry), id) <==> listed(list, id) || entry@ == id,
        forall|i: int| 0 <= i < list.len() ==> listed(list, #[trigger] list[i]@),
{
    let more = list.push(entry);
    assert(more[list.len() as int]@ == entry@);
    if listed(list, id) {
        let i = choose|i: int| 0 <= i < list.len() && #[trigger] list[i]@ == id;
        assert(more[i]@ == id);
    }
    if listed(more, id) {
        let i = choose|i: int| 0 <= i < more.len() && #[trigger] more[i]@ == id;
        if i < list.len() {
            assert(list[i]@ == id);
        }
    }
}

/// A switch that the settings hold is taken over, and one that they lack is off. Everything else is
/// taken over as it is.
pub proof fn law_settings_are_taken_over(settings: Settings, config: DConfig)
    requires
        call_ensures(DConfig::prod_config, (settings,), config),
    ensures
        config.use_redis == (settings.use_redis is Some && settings.use_redis->0),
        config.use_fastauth_features == (settings.use_fastauth_features is Some
            && settings.use_fastauth_features->0),
        config.use_pay_with_ft == (settings.use_pay_with_ft is Some
            && settings.use_pay_with_ft->0),
        config.use_shared_storage == (settings.use_shared_storage is Some
            && settings.use_shared_storage->0),
        config.use_whitelisted_delegate_action_receiver_ids == (
        settings.use_whitelisted_delegate_action_receiver_ids is Some
            && settings.use_whitelisted_delegate_action_receiver_ids->0),
        config.whitelisted_contracts@ == settings.whitelisted_contracts@,
        config.whitelisted_delegate_action_receiver_ids@
            == settings.whitelisted_delegate_action_receiver_ids@,
        config.relayer_account_id@ == settings.relayer_account_id@,
        config.burn_address@ == settings.burn_address@,
        config.network_env@ == settings.network@,
        config.ip_address == settings.ip_address,
        config.port == settings.port,
{
}

/// The storage pool is used with the FastAuth features, with shared storage and with both.
pub proof fn law_storage_pool_is_used(config: &DConfig, uses: bool)
    requires
        call_ensures(DConfig::uses_storage_pool, (config,), uses),
    ensures
        config.use_fastauth_features ==> uses,
        config.use_shared_storage ==> uses,
        uses ==> config.use_fastauth_features || config.use_shared_storage,
{
}

} // verus!
