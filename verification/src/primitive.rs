//! Hooks through which an order type can later be tied into a payment.

use vstd::prelude::*;

verus! {

/// What a trade order must expose to take part in a payment; an extension
/// point, not yet wired into the escrow flow.
pub trait OrderTrait {
    fn get_seller() {
    }

    fn get_order_number() {
    }

    fn get_delivery_time() {
    }
}

} // verus!
