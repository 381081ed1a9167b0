//! The held secret, replaced only by a candidate that passes the strength rules.
use vstd::prelude::*;
use vstd::string::StringExecFns;
use crate::validator::{validate, validation_of, RejectReason, ValidationResult};

verus! {

/// The secret that stays withheld until the challenge is met.
pub struct Secret {
    current_value: String,
}

impl View for Secret {
    type V = Seq<char>;

    closed spec fn view(&self) -> Seq<char> {
        self.current_value@
    }
}

impl Secret {
    pub fn new(value: &str) -> (r: Self)
        ensures
            r@ == value@,
    {
        Secret { current_value: String::from_str(value) }
    }

    /// The secret as it stands.
    pub fn current_value(&self) -> (r: &str)
        ensures
            r@ == self@,
    {
        self.current_value.as_str()
    }

    /// Replaces the secret with `candidate` when it passes the strength rules;
    /// otherwise keeps it and reports the first rule that failed.
    pub fn confirm(&mut self, candidate: &str) -> (r: Result<(), RejectReason>)
        ensures
            match validation_of(candidate@) {
                ValidationResult::Accepted => r is Ok && final(self)@ == candidate@,
                ValidationResult::Rejected(reason) => r == Err::<(), RejectReason>(reason)
                    && final(self)@ == old(self)@,
            },
    {
        match validate(candidate) {
            ValidationResult::Accepted => {
                self.current_value = String::from_str(candidate);
                Ok(())
            },
            ValidationResult::Rejected(reason) => Err(reason),
        }
    }
}

} // verus!
