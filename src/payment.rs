use rand::Rng;
use vstd::prelude::*;
use crate::messages::{PaymentMessages, PaymentResponses};

verus! {

/// Out of every `AUTH_DENOMINATOR` card checks, `AUTH_NUMERATOR` are approved
/// on average.
pub const AUTH_NUMERATOR: u32 = 7;

pub const AUTH_DENOMINATOR: u32 = 10;

/// Relies on rand::Rng::gen_ratio over the thread-local generator: `true`
/// with probability `numerator / denominator`; always `true` when they are
/// equal and always `false` when `numerator` is 0. It panics when
/// `denominator` is 0 or `numerator` exceeds it.
#[verifier::external_body]
fn random_ratio(numerator: u32, denominator: u32) -> (r: bool)
    requires
        0 < denominator,
        numerator <= denominator,
    ensures
        numerator == denominator ==> r,
        numerator == 0 ==> !r,
{
    rand::thread_rng().gen_ratio(numerator, denominator)
}

/// The payment service's record of the passengers whose card was approved.
pub struct PaymentLedger {
    auth_passengers: Vec<u32>,
}

impl PaymentLedger {
    /// Passengers whose card was approved, in order of approval.
    pub closed spec fn approved(&self) -> Seq<u32> {
        self.auth_passengers@
    }

    /// A ledger with no approved passenger.
    pub fn new() -> (r: Self)
        ensures
            r.approved().len() == 0,
    {
        PaymentLedger { auth_passengers: Vec::new() }
    }

    /// Records the outcome of a card check for `passenger_id` and builds the
    /// answer: the passenger is remembered when the card was approved.
    pub fn handle_auth_message(&mut self, passenger_id: u32, approved: bool) -> (r: PaymentResponses)
        ensures
            r == (PaymentResponses::AuthPayment { passenger_id, response: approved }),
            approved ==> final(self).approved() == old(self).approved().push(passenger_id),
            !approved ==> final(self).approved() == old(self).approved(),
    {
        if approved {
            self.auth_passengers.push(passenger_id);
        }
        PaymentResponses::AuthPayment { passenger_id, response: approved }
    }

    /// Checks the card of `passenger_id`; seven checks in ten are approved.
    pub fn authorize(&mut self, passenger_id: u32) -> (r: PaymentResponses)
        ensures
            exists|approved: bool| {
                &&& r == (PaymentResponses::AuthPayment { passenger_id, response: approved })
                &&& approved ==> final(self).approved() == old(self).approved().push(passenger_id)
                &&& !approved ==> final(self).approved() == old(self).approved()
            },
    {
        let approved = random_ratio(AUTH_NUMERATOR, AUTH_DENOMINATOR);
        self.handle_auth_message(passenger_id, approved)
    }

    /// Whether the card of `passenger_id` was approved.
    pub fn is_authorized(&self, passenger_id: u32) -> (r: bool)
        ensures
            r == self.approved().contains(passenger_id),
    {
        let mut i: usize = 0;
        while i < self.auth_passengers.len()
            invariant
                0 <= i <= self.auth_passengers@.len(),
                forall|j: int| 0 <= j < i ==> self.auth_passengers@[j] != passenger_id,
            decreases self.auth_passengers@.len() - i,
        {
            if self.auth_passengers[i] == passenger_id {
                return true;
            }
            i += 1;
        }
        false
    }

    /// The answer to a driver collecting the fare of `passenger_id`: paid
    /// exactly when that passenger's card was approved.
    pub fn handle_collect_message(&self, driver_id: u32, passenger_id: u32) -> (r: PaymentResponses)
        ensures
            r == (PaymentResponses::CollectPayment {
                passenger_id,
                response: self.approved().contains(passenger_id),
            }),
    {
        let response = self.is_authorized(passenger_id);
        PaymentResponses::CollectPayment { passenger_id, response }
    }

    /// Serves one request to the payment service.
    pub fn handle(&mut self, message: PaymentMessages) -> (r: PaymentResponses)
        ensures
            match message {
                PaymentMessages::AuthPayment { passenger_id } => exists|approved: bool|
                    {
                        &&& r == (PaymentResponses::AuthPayment { passenger_id, response: approved })
                        &&& approved ==> final(self).approved() == old(self).approved().push(
                            passenger_id,
                        )
                        &&& !approved ==> final(self).approved() == old(self).approved()
                    },
                PaymentMessages::CollectPayment { driver_id, passenger_id } => {
                    &&& r == (PaymentResponses::CollectPayment {
                        passenger_id,
                        response: old(self).approved().contains(passenger_id),
                    })
                    &&& final(self).approved() == old(self).approved()
                },
            },
    {
        match message {
            PaymentMessages::AuthPayment { passenger_id } => self.authorize(passenger_id),
            PaymentMessages::CollectPayment { driver_id, passenger_id } => self.handle_collect_message(
                driver_id,
                passenger_id,
            ),
        }
    }
}

} // verus!
