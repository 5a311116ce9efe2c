//! The resource control policy: an immutable record of unit prices and
//! per-block limits, and the pure pricing functions over it.
//!
//! Every fallible pricing function either returns the exact mathematical
//! price or reports [`PricingError`] when that price does not fit an
//! [`Amount`]; nothing wraps, truncates or panics.

use vstd::prelude::*;

use crate::amount::Amount;
use crate::amount::ArithmeticError;

verus! {

/// An operation of a block, as this engine sees it: either a built-in
/// system operation with no payload-dependent cost, or a user operation
/// carrying a byte payload whose length drives a linear cost term.
pub enum Operation {
    /// A built-in operation; priced at the flat operation price.
    System,
    /// A user operation; priced per payload byte on top of the flat price.
    User { bytes: Vec<u8> },
}

/// An outgoing message of a block, classified exactly as [`Operation`] is.
pub enum Message {
    /// A built-in message; priced at the flat message price.
    System,
    /// A user message; priced per payload byte on top of the flat price.
    User { bytes: Vec<u8> },
}

/// The failure of a pricing computation. Arithmetic overflow is the only
/// failure mode of this engine.
#[derive(Clone, Copy, PartialEq, Eq, Structural, Debug)]
pub enum PricingError {
    ArithmeticError(ArithmeticError),
}

/// The one pricing error value: an arithmetic overflow report.
pub open spec fn overflow_error() -> PricingError {
    PricingError::ArithmeticError(ArithmeticError::Overflow)
}

/// What a per-unit pricing call must return: the exact product
/// `per_unit * count` when it fits an amount, the overflow error otherwise.
pub open spec fn mul_price_post(per_unit: Amount, count: u64, r: Result<
    Amount,
    PricingError,
>) -> bool {
    if per_unit@ * count <= u128::MAX {
        r matches Ok(total) && total@ == per_unit@ * count
    } else {
        r == Result::<Amount, PricingError>::Err(overflow_error())
    }
}

/// What a payload-priced call must return: the exact linear price
/// `per_byte * len + base` when it fits an amount, the overflow error
/// otherwise.
pub open spec fn payload_price_post(
    per_byte: Amount,
    base: Amount,
    len: nat,
    r: Result<Amount, PricingError>,
) -> bool {
    if per_byte@ * len + base@ <= u128::MAX {
        r matches Ok(total) && total@ == per_byte@ * len + base@
    } else {
        r == Result::<Amount, PricingError>::Err(overflow_error())
    }
}

/// What a remaining-fuel query must return: with a zero fuel price the
/// maximum count (zero-cost fuel is effectively unlimited), otherwise the
/// whole quotient `balance / fuel_unit`, saturated at the maximum
/// representable 64-bit count.
pub open spec fn remaining_fuel_post(fuel_unit: Amount, balance: Amount, r: u64) -> bool {
    if fuel_unit@ == 0 {
        r == u64::MAX
    } else if balance@ / fuel_unit@ > u64::MAX {
        r == u64::MAX
    } else {
        r == balance@ / fuel_unit@
    }
}

/// A collection of prices and limits associated with block execution.
///
/// Immutable once constructed: one instance is loaded per chain
/// configuration epoch and shared read-only by every caller. All price
/// fields are non-negative by construction of [`Amount`]; the two limit
/// fields default to the maximum 64-bit value, meaning no cap.
///
/// A flat per-write-operation price is a deliberate gap of this policy:
/// a still-open extension point, not priced here.
#[derive(Clone, PartialEq, Eq, Structural, Hash, Debug)]
pub struct ResourceControlPolicy {
    /// The base price for creating a new block.
    pub block: Amount,
    /// The price per unit of fuel (aka gas) for VM execution.
    pub fuel_unit: Amount,
    /// The price of one read operation.
    pub read_operation: Amount,
    /// The price of reading a byte.
    pub byte_read: Amount,
    /// The price of writing a byte.
    pub byte_written: Amount,
    /// The price of increasing storage by a byte.
    pub byte_stored: Amount,
    /// The base price of adding an operation to a block.
    pub operation: Amount,
    /// The additional price for each byte in the argument of a user operation.
    pub operation_byte: Amount,
    /// The base price of sending a message from a block.
    pub message: Amount,
    /// The additional price for each byte in the argument of a user message.
    pub message_byte: Amount,
    /// The maximum data to read per block.
    pub maximum_bytes_read_per_block: u64,
    /// The maximum data to write per block.
    pub maximum_bytes_written_per_block: u64,
}

impl Default for ResourceControlPolicy {
    /// The default policy prices everything at zero and caps nothing.
    fn default() -> (r: ResourceControlPolicy)
        ensures
            r.block@ == 0,
            r.fuel_unit@ == 0,
            r.read_operation@ == 0,
            r.byte_read@ == 0,
            r.byte_written@ == 0,
            r.byte_stored@ == 0,
            r.operation@ == 0,
            r.operation_byte@ == 0,
            r.message@ == 0,
            r.message_byte@ == 0,
            r.maximum_bytes_read_per_block == u64::MAX,
            r.maximum_bytes_written_per_block == u64::MAX,
    {
        ResourceControlPolicy {
            block: Amount::zero(),
            fuel_unit: Amount::zero(),
            read_operation: Amount::zero(),
            byte_read: Amount::zero(),
            byte_written: Amount::zero(),
            byte_stored: Amount::zero(),
            operation: Amount::zero(),
            operation_byte: Amount::zero(),
            message: Amount::zero(),
            message_byte: Amount::zero(),
            maximum_bytes_read_per_block: u64::MAX,
            maximum_bytes_written_per_block: u64::MAX,
        }
    }
}

impl ResourceControlPolicy {
    /// The flat price of creating a block. Never fails.
    pub fn block_price(&self) -> (r: Amount)
        ensures
            r == self.block,
    {
        self.block
    }

    /// The price of one operation: the flat operation price for a system
    /// operation, `operation_byte * payload_len + operation` for a user
    /// operation, checked at every step.
    pub fn operation_price(&self, operation: &Operation) -> (r: Result<Amount, PricingError>)
        ensures
            operation is System ==> r == Result::<Amount, PricingError>::Ok(self.operation),
            (operation matches Operation::User { bytes } ==> payload_price_post(
                self.operation_byte,
                self.operation,
                bytes@.len(),
                r,
            )),
    {
        match operation {
            Operation::System => Ok(self.operation),
            Operation::User { bytes } => Self::payload_price(
                self.operation_byte,
                self.operation,
                bytes,
            ),
        }
    }

    /// The price of one outgoing message, by the same law as
    /// [`Self::operation_price`] with the message prices in place of the
    /// operation prices.
    pub fn message_price(&self, message: &Message) -> (r: Result<Amount, PricingError>)
        ensures
            message is System ==> r == Result::<Amount, PricingError>::Ok(self.message),
            (message matches Message::User { bytes } ==> payload_price_post(
                self.message_byte,
                self.message,
                bytes@.len(),
                r,
            )),
    {
        match message {
            Message::System => Ok(self.message),
            Message::User { bytes } => Self::payload_price(self.message_byte, self.message, bytes),
        }
    }

    /// The price of `count` discrete storage reads: `read_operation * count`,
    /// checked.
    pub fn storage_num_reads_price(&self, count: u64) -> (r: Result<Amount, PricingError>)
        ensures
            mul_price_post(self.read_operation, count, r),
    {
        Self::units_price(self.read_operation, count)
    }

    /// The price of reading `count` bytes from storage: `byte_read * count`,
    /// checked.
    pub fn storage_bytes_read_price(&self, count: u64) -> (r: Result<Amount, PricingError>)
        ensures
            mul_price_post(self.byte_read, count, r),
    {
        Self::units_price(self.byte_read, count)
    }

    /// The price of writing `count` bytes to storage: `byte_written * count`,
    /// checked.
    pub fn storage_bytes_written_price(&self, count: u64) -> (r: Result<Amount, PricingError>)
        ensures
            mul_price_post(self.byte_written, count, r),
    {
        Self::units_price(self.byte_written, count)
    }

    /// The price of occupying `count` bytes of storage: `byte_stored * count`,
    /// checked.
    pub fn storage_bytes_stored_price(&self, count: u64) -> (r: Result<Amount, PricingError>)
        ensures
            mul_price_post(self.byte_stored, count, r),
    {
        Self::units_price(self.byte_stored, count)
    }

    /// The price of `fuel` units of VM fuel: `fuel_unit * fuel`, checked.
    pub fn fuel_price(&self, fuel: u64) -> (r: Result<Amount, PricingError>)
        ensures
            mul_price_post(self.fuel_unit, fuel, r),
    {
        Self::units_price(self.fuel_unit, fuel)
    }

    /// How many whole fuel units the given balance can pay for at the
    /// current fuel price. A capacity query, not a charge: it never fails.
    /// A zero fuel price means unlimited fuel, and a quotient beyond the
    /// maximum 64-bit count saturates to that maximum.
    pub fn remaining_fuel(&self, balance: Amount) -> (r: u64)
        ensures
            remaining_fuel_post(self.fuel_unit, balance, r),
    {
        let quotient = balance.saturating_div(self.fuel_unit);
        if quotient > u64::MAX as u128 {
            u64::MAX
        } else {
            quotient as u64
        }
    }

    /// The checked product `per_unit * count`, shared by every per-unit
    /// pricing function.
    fn units_price(per_unit: Amount, count: u64) -> (r: Result<Amount, PricingError>)
        ensures
            mul_price_post(per_unit, count, r),
    {
        match per_unit.try_mul(count as u128) {
            Ok(total) => Ok(total),
            Err(e) => Err(PricingError::ArithmeticError(e)),
        }
    }

    /// The checked linear price `per_byte * bytes.len() + base`, shared by
    /// operation and message pricing. The multiplication comes first so
    /// that an oversized byte term is detected before the smaller addition.
    fn payload_price(per_byte: Amount, base: Amount, bytes: &Vec<u8>) -> (r: Result<
        Amount,
        PricingError,
    >)
        ensures
            payload_price_post(per_byte, base, bytes@.len(), r),
    {
        let byte_term = match per_byte.try_mul(bytes.len() as u128) {
            Ok(total) => total,
            Err(e) => {
                return Err(PricingError::ArithmeticError(e));
            },
        };
        match byte_term.try_add(base) {
            Ok(total) => Ok(total),
            Err(e) => Err(PricingError::ArithmeticError(e)),
        }
    }
}

/// Pricing is deterministic: any two results that a per-unit pricing call
/// may return for the same price and count are equal, so calling such a
/// function twice with identical inputs yields identical outputs.
pub proof fn lemma_units_price_deterministic(
    per_unit: Amount,
    count: u64,
    r1: Result<Amount, PricingError>,
    r2: Result<Amount, PricingError>,
)
    requires
        mul_price_post(per_unit, count, r1),
        mul_price_post(per_unit, count, r2),
    ensures
        r1 == r2,
{
    if per_unit@ * count <= u128::MAX {
        let t1 = r1->Ok_0;
        let t2 = r2->Ok_0;
        crate::amount::lemma_amount_view_injective(t1, t2);
    }
}

/// Pricing is deterministic: any two results that a payload-priced call
/// may return for the same prices and payload length are equal, so calling
/// such a function twice with identical inputs yields identical outputs.
pub proof fn lemma_payload_price_deterministic(
    per_byte: Amount,
    base: Amount,
    len: nat,
    r1: Result<Amount, PricingError>,
    r2: Result<Amount, PricingError>,
)
    requires
        payload_price_post(per_byte, base, len, r1),
        payload_price_post(per_byte, base, len, r2),
    ensures
        r1 == r2,
{
    if per_byte@ * len + base@ <= u128::MAX {
        let t1 = r1->Ok_0;
        let t2 = r2->Ok_0;
        crate::amount::lemma_amount_view_injective(t1, t2);
    }
}

/// The remaining-fuel query is deterministic: its contract admits exactly
/// one count for a given fuel price and balance.
pub proof fn lemma_remaining_fuel_deterministic(
    fuel_unit: Amount,
    balance: Amount,
    r1: u64,
    r2: u64,
)
    requires
        remaining_fuel_post(fuel_unit, balance, r1),
        remaining_fuel_post(fuel_unit, balance, r2),
    ensures
        r1 == r2,
{
}

} // verus!
