//! What the Seilor token keeps besides its ledger.

use vstd::prelude::*;
use crate::addr::Addr;

verus! {

/// The largest supply, and the accounts that may mint and that govern.
#[derive(Debug, PartialEq, Eq)]
pub struct SeilorConfig {
    pub max_supply: u128,
    pub fund: Addr,
    pub gov: Addr,
    pub distribute: Addr,
}

/// Everything the token keeps besides its ledger.
pub struct Storage {
    pub seilor_config: SeilorConfig,
}

impl Clone for SeilorConfig {
    fn clone(&self) -> (r: SeilorConfig)
        ensures
            r == *self,
    {
        SeilorConfig {
            max_supply: self.max_supply,
            fund: self.fund.clone(),
            gov: self.gov.clone(),
            distribute: self.distribute.clone(),
        }
    }
}

/// Keeps the configuration in place of the one before.
pub fn store_seilor_config(storage: &mut Storage, seilor_config: &SeilorConfig)
    ensures
        final(storage).seilor_config == *seilor_config,
{
    storage.seilor_config = seilor_config.clone();
}

/// The configuration as it is kept.
pub fn read_seilor_config(storage: &Storage) -> (r: SeilorConfig)
    ensures
        r == storage.seilor_config,
{
    storage.seilor_config.clone()
}

} // verus!
