use resource_policy::amount::Amount;
use resource_policy::amount::ArithmeticError;
use resource_policy::policy::Message;
use resource_policy::policy::Operation;
use resource_policy::policy::PricingError;
use resource_policy::policy::ResourceControlPolicy;

fn policy_with(
    operation: u128,
    operation_byte: u128,
    message: u128,
    message_byte: u128,
) -> ResourceControlPolicy {
    let mut policy = ResourceControlPolicy::default();
    policy.operation = Amount::from_atto(operation);
    policy.operation_byte = Amount::from_atto(operation_byte);
    policy.message = Amount::from_atto(message);
    policy.message_byte = Amount::from_atto(message_byte);
    policy
}

#[test]
fn default_policy_fields() {
    let policy = ResourceControlPolicy::default();
    assert_eq!(policy.block.as_atto(), 0);
    assert_eq!(policy.fuel_unit.as_atto(), 0);
    assert_eq!(policy.read_operation.as_atto(), 0);
    assert_eq!(policy.byte_read.as_atto(), 0);
    assert_eq!(policy.byte_written.as_atto(), 0);
    assert_eq!(policy.byte_stored.as_atto(), 0);
    assert_eq!(policy.operation.as_atto(), 0);
    assert_eq!(policy.operation_byte.as_atto(), 0);
    assert_eq!(policy.message.as_atto(), 0);
    assert_eq!(policy.message_byte.as_atto(), 0);
    assert_eq!(policy.maximum_bytes_read_per_block, u64::MAX);
    assert_eq!(policy.maximum_bytes_written_per_block, u64::MAX);
}

#[test]
fn block_price_is_the_flat_block_field() {
    let policy = ResourceControlPolicy::fuel_and_block();
    assert_eq!(policy.block_price().as_atto(), 1_000_000_000_000_000);
    assert_eq!(ResourceControlPolicy::default().block_price().as_atto(), 0);
}

#[test]
fn system_operation_costs_the_flat_operation_price() {
    let policy = policy_with(7, 1_000, 0, 0);
    let price = policy.operation_price(&Operation::System).unwrap();
    assert_eq!(price, policy.operation);
    assert_eq!(price.as_atto(), 7);
}

#[test]
fn user_operation_costs_linear_in_payload() {
    let policy = ResourceControlPolicy::all_categories();
    // operation_byte is 1 atto and operation is 10 atto.
    let op = Operation::User { bytes: vec![0u8; 100] };
    assert_eq!(policy.operation_price(&op).unwrap().as_atto(), 110);
}

#[test]
fn system_message_costs_the_flat_message_price() {
    let policy = policy_with(0, 0, 9, 1_000);
    let price = policy.message_price(&Message::System).unwrap();
    assert_eq!(price.as_atto(), 9);
}

#[test]
fn user_message_costs_linear_in_payload() {
    let policy = ResourceControlPolicy::all_categories();
    // message_byte is 1 atto and message is 10 atto.
    let msg = Message::User { bytes: vec![0u8; 5] };
    assert_eq!(policy.message_price(&msg).unwrap().as_atto(), 15);
}

#[test]
fn free_user_operation_costs_nothing() {
    // Default policy: operation and operation_byte are both zero, so a
    // 100-byte user operation is priced at the zero amount.
    let policy = ResourceControlPolicy::default();
    let op = Operation::User { bytes: vec![0u8; 100] };
    assert_eq!(policy.operation_price(&op).unwrap(), Amount::zero());
}

#[test]
fn storage_prices_are_exact_products() {
    let mut policy = ResourceControlPolicy::default();
    policy.read_operation = Amount::from_atto(4);
    policy.byte_read = Amount::from_atto(100);
    policy.byte_written = Amount::from_atto(1_000);
    policy.byte_stored = Amount::from_atto(11);
    assert_eq!(policy.storage_num_reads_price(9).unwrap().as_atto(), 36);
    assert_eq!(policy.storage_bytes_read_price(9).unwrap().as_atto(), 900);
    assert_eq!(policy.storage_bytes_written_price(9).unwrap().as_atto(), 9_000);
    assert_eq!(policy.storage_bytes_stored_price(9).unwrap().as_atto(), 99);
    assert_eq!(policy.storage_bytes_read_price(0).unwrap().as_atto(), 0);
}

#[test]
fn all_categories_prices_a_thousand_read_bytes_exactly() {
    // byte_read is 100 atto in the all-categories preset.
    let policy = ResourceControlPolicy::all_categories();
    let price = policy.storage_bytes_read_price(1_000).unwrap();
    assert_eq!(price, Amount::from_atto(100).try_mul(1_000).unwrap());
    assert_eq!(price.as_atto(), 100_000);
}

#[test]
fn fuel_price_is_an_exact_product() {
    let policy = ResourceControlPolicy::all_categories();
    // fuel_unit is 10^9 atto in the all-categories preset.
    assert_eq!(policy.fuel_price(5).unwrap().as_atto(), 5_000_000_000);
    assert_eq!(policy.fuel_price(0).unwrap().as_atto(), 0);
}

#[test]
fn pricing_overflow_is_reported_and_one_unit_below_succeeds() {
    let mut policy = ResourceControlPolicy::default();
    // u128::MAX is divisible by 5, so this price times 5 is exactly the
    // largest representable amount, and times 6 is past it.
    policy.byte_read = Amount::from_atto(u128::MAX / 5);
    assert_eq!(policy.storage_bytes_read_price(5).unwrap().as_atto(), u128::MAX);
    assert!(matches!(
        policy.storage_bytes_read_price(6),
        Err(PricingError::ArithmeticError(ArithmeticError::Overflow))
    ));
}

#[test]
fn operation_price_reports_overflow_of_the_byte_term() {
    let policy = policy_with(0, u128::MAX, 0, 0);
    let op = Operation::User { bytes: vec![0u8; 2] };
    assert!(matches!(
        policy.operation_price(&op),
        Err(PricingError::ArithmeticError(ArithmeticError::Overflow))
    ));
}

#[test]
fn operation_price_reports_overflow_of_the_final_sum() {
    let policy = policy_with(u128::MAX, 1, 0, 0);
    let one_byte = Operation::User { bytes: vec![0u8] };
    assert!(matches!(
        policy.operation_price(&one_byte),
        Err(PricingError::ArithmeticError(ArithmeticError::Overflow))
    ));
    // With an empty payload the byte term is zero and the price is exactly
    // the flat operation price, one unit below the boundary crossed above.
    let empty = Operation::User { bytes: vec![] };
    assert_eq!(policy.operation_price(&empty).unwrap().as_atto(), u128::MAX);
}

#[test]
fn message_price_reports_overflow() {
    let policy = policy_with(0, 0, 0, u128::MAX);
    let msg = Message::User { bytes: vec![0u8; 3] };
    assert!(matches!(
        policy.message_price(&msg),
        Err(PricingError::ArithmeticError(ArithmeticError::Overflow))
    ));
}

#[test]
fn remaining_fuel_with_zero_fuel_price_is_unlimited() {
    let policy = ResourceControlPolicy::default();
    assert_eq!(policy.remaining_fuel(Amount::zero()), u64::MAX);
    assert_eq!(policy.remaining_fuel(Amount::from_atto(12345)), u64::MAX);
}

#[test]
fn remaining_fuel_saturates_at_the_maximum_count() {
    let mut policy = ResourceControlPolicy::default();
    policy.fuel_unit = Amount::from_atto(1);
    assert_eq!(policy.remaining_fuel(Amount::from_atto(u128::MAX)), u64::MAX);
    assert_eq!(
        policy.remaining_fuel(Amount::from_atto(u64::MAX as u128 + 1)),
        u64::MAX
    );
    assert_eq!(
        policy.remaining_fuel(Amount::from_atto(u64::MAX as u128)),
        u64::MAX
    );
}

#[test]
fn remaining_fuel_counts_whole_units() {
    // Balance of exactly 500 fuel units at the only-fuel preset price.
    let policy = ResourceControlPolicy::only_fuel();
    let unit: u128 = 1_000_000_000_000;
    let balance = Amount::from_atto(500 * unit);
    assert_eq!(policy.remaining_fuel(balance), 500);
    // A partial unit does not count.
    let balance = Amount::from_atto(500 * unit + unit - 1);
    assert_eq!(policy.remaining_fuel(balance), 500);
}

#[test]
fn pricing_twice_with_identical_inputs_is_identical() {
    let policy = ResourceControlPolicy::all_categories();
    let op = Operation::User { bytes: vec![7u8; 33] };
    assert_eq!(policy.operation_price(&op), policy.operation_price(&op));
    let msg = Message::User { bytes: vec![7u8; 33] };
    assert_eq!(policy.message_price(&msg), policy.message_price(&msg));
    assert_eq!(
        policy.storage_bytes_read_price(77),
        policy.storage_bytes_read_price(77)
    );
    assert_eq!(policy.fuel_price(77), policy.fuel_price(77));
    let balance = Amount::from_atto(1_000_000_000_000);
    assert_eq!(policy.remaining_fuel(balance), policy.remaining_fuel(balance));
}

#[test]
fn only_fuel_preset_fields() {
    let policy = ResourceControlPolicy::only_fuel();
    assert_eq!(policy.fuel_unit.as_atto(), 1_000_000_000_000);
    assert_eq!(policy.block.as_atto(), 0);
    assert_eq!(policy.operation.as_atto(), 0);
    assert_eq!(policy.maximum_bytes_read_per_block, u64::MAX);
}

#[test]
fn fuel_and_block_preset_fields() {
    let policy = ResourceControlPolicy::fuel_and_block();
    assert_eq!(policy.block.as_atto(), 1_000_000_000_000_000);
    assert_eq!(policy.fuel_unit.as_atto(), 1_000_000_000_000);
    assert_eq!(policy.byte_read.as_atto(), 0);
}

#[test]
fn all_categories_preset_fields() {
    let policy = ResourceControlPolicy::all_categories();
    assert_eq!(policy.block.as_atto(), 1_000_000_000_000_000);
    assert_eq!(policy.fuel_unit.as_atto(), 1_000_000_000);
    assert_eq!(policy.read_operation.as_atto(), 0);
    assert_eq!(policy.byte_read.as_atto(), 100);
    assert_eq!(policy.byte_written.as_atto(), 1_000);
    assert_eq!(policy.byte_stored.as_atto(), 0);
    assert_eq!(policy.operation.as_atto(), 10);
    assert_eq!(policy.operation_byte.as_atto(), 1);
    assert_eq!(policy.message.as_atto(), 10);
    assert_eq!(policy.message_byte.as_atto(), 1);
    assert_eq!(policy.maximum_bytes_read_per_block, u64::MAX);
    assert_eq!(policy.maximum_bytes_written_per_block, u64::MAX);
}
