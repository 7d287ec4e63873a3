//! Notification adapters: stand-ins for a real delivery channel,
//! satisfying the notification port contract.

use vstd::prelude::*;

use crate::domain::Order;
use crate::domain::OrderError;
use crate::domain::Sender;

verus! {

/// Notification sender that always succeeds, standing in for a console
/// or log channel during tests and development.
#[derive(Debug, Default, Clone, Copy)]
pub struct ConsoleSender;

impl Sender for ConsoleSender {
    fn send(&self, _order: &Order) -> (r: Result<(), OrderError>)
        ensures
            r is Ok,
    {
        Ok(())
    }
}

/// Simulated external mail sender. A production adapter would call the
/// mail provider's API and translate its errors into
/// `NotificationFailed`; this stand-in confirms every notification.
#[derive(Debug, Default, Clone, Copy)]
pub struct SendGridSender;

impl Sender for SendGridSender {
    fn send(&self, _order: &Order) -> (r: Result<(), OrderError>)
        ensures
            r is Ok,
    {
        Ok(())
    }
}

} // verus!
