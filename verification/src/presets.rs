//! Example pricing presets.
//!
//! These factory functions exist to let integration and test code exercise
//! metering paths without realistic economic tuning. They carry no
//! algorithmic content beyond filling the policy fields with fixed example
//! values, and none belongs in a production configuration-loading path.

use vstd::prelude::*;

use crate::amount::Amount;
use crate::policy::ResourceControlPolicy;

verus! {

impl ResourceControlPolicy {
    /// A policy with no cost for anything except fuel.
    ///
    /// Useful to tests that need whole numbers in their chain balance and
    /// don't expect to execute any VM code.
    pub fn only_fuel() -> (r: ResourceControlPolicy)
        ensures
            r.block@ == 0,
            r.fuel_unit@ == 1_000_000_000_000,
            r.read_operation@ == 0,
            r.byte_read@ == 0,
            r.byte_written@ == 0,
            r.byte_stored@ == 0,
            r.operation@ == 0,
            r.operation_byte@ == 0,
            r.message@ == 0,
            r.message_byte@ == 0,
            r.maximum_bytes_read_per_block == u64::MAX,
            r.maximum_bytes_written_per_block == u64::MAX,
    {
        let mut policy = ResourceControlPolicy::default();
        policy.fuel_unit = Amount::from_atto(1_000_000_000_000);
        policy
    }

    /// A policy with no cost for anything except fuel, and one milli-unit
    /// per block.
    ///
    /// Useful to tests that don't expect to execute any VM code but keep
    /// track of how many blocks were created.
    pub fn fuel_and_block() -> (r: ResourceControlPolicy)
        ensures
            r.block@ == 1_000_000_000_000_000,
            r.fuel_unit@ == 1_000_000_000_000,
            r.read_operation@ == 0,
            r.byte_read@ == 0,
            r.byte_written@ == 0,
            r.byte_stored@ == 0,
            r.operation@ == 0,
            r.operation_byte@ == 0,
            r.message@ == 0,
            r.message_byte@ == 0,
            r.maximum_bytes_read_per_block == u64::MAX,
            r.maximum_bytes_written_per_block == u64::MAX,
    {
        let mut policy = ResourceControlPolicy::default();
        policy.block = Amount::from_milli(1);
        policy.fuel_unit = Amount::from_atto(1_000_000_000_000);
        policy
    }

    /// A policy where all priced categories have a small non-zero cost.
    pub fn all_categories() -> (r: ResourceControlPolicy)
        ensures
            r.block@ == 1_000_000_000_000_000,
            r.fuel_unit@ == 1_000_000_000,
            r.read_operation@ == 0,
            r.byte_read@ == 100,
            r.byte_written@ == 1_000,
            r.byte_stored@ == 0,
            r.operation@ == 10,
            r.operation_byte@ == 1,
            r.message@ == 10,
            r.message_byte@ == 1,
            r.maximum_bytes_read_per_block == u64::MAX,
            r.maximum_bytes_written_per_block == u64::MAX,
    {
        let mut policy = ResourceControlPolicy::default();
        policy.block = Amount::from_milli(1);
        policy.fuel_unit = Amount::from_atto(1_000_000_000);
        policy.byte_read = Amount::from_atto(100);
        policy.byte_written = Amount::from_atto(1_000);
        policy.operation = Amount::from_atto(10);
        policy.operation_byte = Amount::from_atto(1);
        policy.message = Amount::from_atto(10);
        policy.message_byte = Amount::from_atto(1);
        policy
    }
}

} // verus!
