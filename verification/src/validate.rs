//! Request payloads and their validation.
//!
//! Inbound JSON payloads arrive with every field optional; validation
//! checks the required ones in declaration order and reports the first
//! missing field's message, exactly as the payload's annotations state
//! them. Email addresses are additionally checked for shape.

use vstd::prelude::*;

use crate::errors::AppError;
use crate::errors::ErrorKind;

verus! {

/// Whether a string has the shape of an email address. Relied on below;
/// the only fact stated beside the name is that an empty string is not
/// an email address.
pub uninterp spec fn is_email(s: Seq<char>) -> bool;

/// Relies on `validator::validate_email`: the verdict is a function of
/// the characters alone, and an empty string is never accepted.
#[verifier::external_body]
fn email_is_valid(s: &str) -> (r: bool)
    ensures
        r == is_email(s@),
        s@.len() == 0 ==> !r,
{
    validator::validate_email(s)
}

/// The payload creating a policy's rule set.
#[derive(Debug)]
pub struct ValidateCreatePolicy {
    pub name: Option<String>,
    pub description: Option<String>,
    pub model_id: Option<i32>,
    pub block_after: Option<i32>,
}

impl ValidateCreatePolicy {
    /// All required fields are present; `block_after` is optional.
    pub open spec fn valid(self) -> bool {
        self.name is Some && self.description is Some && self.model_id is Some
    }

    /// Check required fields in declaration order and report the first
    /// missing one.
    pub fn validate(&self) -> (r: Result<(), AppError>)
        ensures
            r is Ok <==> self.valid(),
            r matches Err(e) ==> e.kind() == ErrorKind::ValidationFailed,
            self.name is None ==> (r matches Err(e) && e.message_view()
                == "missing policy name"@),
            self.name is Some && self.description is None ==> (r matches Err(e)
                && e.message_view() == "missing policy description"@),
            self.name is Some && self.description is Some && self.model_id is None ==> (
            r matches Err(e) && e.message_view() == "missing policy model_id"@),
    {
        if self.name.is_none() {
            Err(AppError::new(ErrorKind::ValidationFailed, "missing policy name"))
        } else if self.description.is_none() {
            Err(AppError::new(ErrorKind::ValidationFailed, "missing policy description"))
        } else if self.model_id.is_none() {
            Err(AppError::new(ErrorKind::ValidationFailed, "missing policy model_id"))
        } else {
            Ok(())
        }
    }
}

/// The payload creating one action of a policy: an endpoint and verb
/// bound to a call limit and a reset window.
#[derive(Debug)]
pub struct ValidateCreatePolicyAction {
    pub policy_id: Option<i32>,
    pub end_point: Option<String>,
    pub description: Option<String>,
    pub end_point_verb: Option<String>,
    pub action_count: Option<i32>,
    pub reset_frequency_id: Option<i32>,
}

impl ValidateCreatePolicyAction {
    /// All required fields are present; `action_count` is optional.
    pub open spec fn valid(self) -> bool {
        &&& self.policy_id is Some
        &&& self.end_point is Some
        &&& self.description is Some
        &&& self.end_point_verb is Some
        &&& self.reset_frequency_id is Some
    }

    /// Check required fields in declaration order and report the first
    /// missing one.
    pub fn validate(&self) -> (r: Result<(), AppError>)
        ensures
            r is Ok <==> self.valid(),
            r matches Err(e) ==> e.kind() == ErrorKind::ValidationFailed,
            self.policy_id is None ==> (r matches Err(e) && e.message_view()
                == "missing policy_id"@),
            self.policy_id is Some && self.end_point is None ==> (r matches Err(e)
                && e.message_view() == "missing policy endPoint"@),
            self.policy_id is Some && self.end_point is Some && self.description is None ==> (
            r matches Err(e) && e.message_view() == "missing policy action description"@),
            self.policy_id is Some && self.end_point is Some && self.description is Some
                && self.end_point_verb is None ==> (r matches Err(e) && e.message_view()
                == "missing policy endPoint Verb"@),
            self.policy_id is Some && self.end_point is Some && self.description is Some
                && self.end_point_verb is Some && self.reset_frequency_id is None ==> (
            r matches Err(e) && e.message_view() == "missing policy reset frequency"@),
    {
        if self.policy_id.is_none() {
            Err(AppError::new(ErrorKind::ValidationFailed, "missing policy_id"))
        } else if self.end_point.is_none() {
            Err(AppError::new(ErrorKind::ValidationFailed, "missing policy endPoint"))
        } else if self.description.is_none() {
            Err(AppError::new(ErrorKind::ValidationFailed, "missing policy action description"))
        } else if self.end_point_verb.is_none() {
            Err(AppError::new(ErrorKind::ValidationFailed, "missing policy endPoint Verb"))
        } else if self.reset_frequency_id.is_none() {
            Err(AppError::new(ErrorKind::ValidationFailed, "missing policy reset frequency"))
        } else {
            Ok(())
        }
    }
}

/// A whole policy creation request: the rule set and its actions.
#[derive(Debug)]
pub struct RequestPolicyValidated {
    pub policy_info: ValidateCreatePolicy,
    pub policy_action_info: Vec<ValidateCreatePolicyAction>,
}

impl RequestPolicyValidated {
    pub open spec fn valid(self) -> bool {
        &&& self.policy_info.valid()
        &&& forall|i: int|
            0 <= i < self.policy_action_info@.len() ==> self.policy_action_info@[i].valid()
    }

    /// Validate the rule set, then each action in order; the first
    /// failure wins.
    pub fn validate(&self) -> (r: Result<(), AppError>)
        ensures
            r is Ok <==> self.valid(),
            r matches Err(e) ==> e.kind() == ErrorKind::ValidationFailed,
    {
        match self.policy_info.validate() {
            Ok(_) => {},
            Err(e) => {
                return Err(e);
            },
        }
        let n = self.policy_action_info.len();
        let mut i: usize = 0;
        while i < n
            invariant
                n == self.policy_action_info@.len(),
                i <= n,
                forall|j: int| 0 <= j < i ==> self.policy_action_info@[j].valid(),
            decreases n - i,
        {
            match self.policy_action_info[i].validate() {
                Ok(_) => {},
                Err(e) => {
                    return Err(e);
                },
            }
            i = i + 1;
        }
        Ok(())
    }
}

/// The payload creating a user account.
#[derive(Debug)]
pub struct RequestCreateUser {
    pub email: String,
    pub first_name: String,
    pub last_name: String,
    pub password: String,
}

/// The sign-in payload: an email address and a password.
#[derive(Debug)]
pub struct ValidateSignInUser {
    pub email: Option<String>,
    pub password: Option<String>,
}

impl ValidateSignInUser {
    /// Both fields are present and the email has an email's shape.
    pub open spec fn valid(self) -> bool {
        &&& self.email matches Some(e) && is_email(e@)
        &&& self.password is Some
    }

    /// Check the email's presence and shape, then the password.
    pub fn validate(&self) -> (r: Result<(), AppError>)
        ensures
            r is Ok <==> self.valid(),
            r matches Err(e) ==> e.kind() == ErrorKind::ValidationFailed,
            self.email is None ==> (r matches Err(e) && e.message_view()
                == "missing user email"@),
            self.email matches Some(m) && !is_email(m@) ==> (r matches Err(e) && e.message_view()
                == "invalid email"@),
            self.email matches Some(m) && is_email(m@) && self.password is None ==> (
            r matches Err(e) && e.message_view() == "missing user password"@),
    {
        match &self.email {
            None => Err(AppError::new(ErrorKind::ValidationFailed, "missing user email")),
            Some(m) => {
                if !email_is_valid(m.as_str()) {
                    Err(AppError::new(ErrorKind::ValidationFailed, "invalid email"))
                } else if self.password.is_none() {
                    Err(AppError::new(ErrorKind::ValidationFailed, "missing user password"))
                } else {
                    Ok(())
                }
            },
        }
    }
}

} // verus!
