//! Payment adapters: stand-ins for a real payment service, satisfying
//! the payment port contract.

use vstd::prelude::*;

use crate::domain::Money;
use crate::domain::OrderError;
use crate::domain::PaymentGateway;

verus! {

/// Payment gateway that always succeeds: no real money moves, but from
/// the orchestrator's perspective the port contract is fulfilled.
#[derive(Debug, Default, Clone, Copy)]
pub struct MockPaymentGateway;

impl PaymentGateway for MockPaymentGateway {
    fn charge(&self, _amount: Money) -> (r: Result<(), OrderError>)
        ensures
            r is Ok,
    {
        Ok(())
    }
}

/// Simulated external payment gateway. A production adapter would call
/// the payment provider's API and translate its errors into
/// `PaymentFailed`; this stand-in accepts every charge.
#[derive(Debug, Default, Clone, Copy)]
pub struct StripePaymentGateway;

impl PaymentGateway for StripePaymentGateway {
    fn charge(&self, _amount: Money) -> (r: Result<(), OrderError>)
        ensures
            r is Ok,
    {
        Ok(())
    }
}

} // verus!
