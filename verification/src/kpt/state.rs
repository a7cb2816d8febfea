//! What the KPT token keeps besides its ledger.

use vstd::prelude::*;
use crate::addr::Addr;

verus! {

/// The largest supply, and the accounts that may mint and that govern.
#[derive(Debug, PartialEq, Eq)]
pub struct KptConfig {
    pub max_supply: u128,
    pub kpt_fund: Addr,
    pub gov: Addr,
    pub kpt_distribute: Addr,
}

/// Everything the token keeps besides its ledger.
pub struct Storage {
    pub kpt_config: KptConfig,
}

impl Clone for KptConfig {
    fn clone(&self) -> (r: KptConfig)
        ensures
            r == *self,
    {
        KptConfig {
            max_supply: self.max_supply,
            kpt_fund: self.kpt_fund.clone(),
            gov: self.gov.clone(),
            kpt_distribute: self.kpt_distribute.clone(),
        }
    }
}

/// Keeps the configuration in place of the one before.
pub fn store_kpt_config(storage: &mut Storage, kpt_config: &KptConfig)
    ensures
        final(storage).kpt_config == *kpt_config,
{
    storage.kpt_config = kpt_config.clone();
}

/// The configuration as it is kept.
pub fn read_kpt_config(storage: &Storage) -> (r: KptConfig)
    ensures
        r == storage.kpt_config,
{
    storage.kpt_config.clone()
}

} // verus!
