//! Vesting and claim settlement for token allocations: schedules, the amounts
//! they release, the records of what was claimed, caps, and forfeiture.
//!
//! Each contract has a module of its own: what it keeps, the operations that
//! change it, and what holds of them. What the chain keeps is modelled by
//! tables in memory; the entry points around the library load what an
//! operation concerns, and write back what it leaves.

pub mod addr;
pub mod dispatcher;
pub mod distribute;
pub mod errors;
pub mod kpt;
pub mod math;
pub mod model_util;
pub mod order;
pub mod pagination;
pub mod response;
pub mod seilor;
pub mod table;
pub mod token;
pub mod treasure;
pub mod ve_kpt;
