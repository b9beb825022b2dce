//! Invitation states and kinds, with the names under which they are stored.

use vstd::prelude::*;

verus! {

#[derive(PartialEq, Eq, Structural, Clone, Copy, Debug)]
pub enum InvitationStatus {
    QUEUED,
    INVITED,
    FAILED,
    REJECTED,
    DELETED,
}

#[allow(non_camel_case_types)]
#[derive(PartialEq, Eq, Structural, Clone, Copy, Debug)]
pub enum TransportType {
    EMAIL_CODE,
    PHONE_CODE,
    EMAIL_LINK,
    PHONE_LINK,
}

#[allow(non_camel_case_types)]
#[derive(PartialEq, Eq, Structural, Clone, Copy, Debug)]
pub enum InvitationType {
    VERIFY_TOKEN,
    MEMBER_INVITATION,
}

/// The stored name of an invitation status. The rejected state is stored with a
/// trailing space.
pub open spec fn status_name(s: InvitationStatus) -> Seq<char> {
    match s {
        InvitationStatus::QUEUED => "QUEUED"@,
        InvitationStatus::INVITED => "INVITED"@,
        InvitationStatus::FAILED => "FAILED"@,
        InvitationStatus::REJECTED => "REJECTED "@,
        InvitationStatus::DELETED => "DELETED"@,
    }
}

pub open spec fn transport_name(t: TransportType) -> Seq<char> {
    match t {
        TransportType::EMAIL_CODE => "EMAIL_CODE"@,
        TransportType::PHONE_CODE => "PHONE_CODE"@,
        TransportType::EMAIL_LINK => "EMAIL_LINK"@,
        TransportType::PHONE_LINK => "PHONE_LINK"@,
    }
}

pub open spec fn invitation_type_name(t: InvitationType) -> Seq<char> {
    match t {
        InvitationType::VERIFY_TOKEN => "VERIFY_TOKEN"@,
        InvitationType::MEMBER_INVITATION => "MEMBER_INVITATION"@,
    }
}

/// The conversion succeeded with `name`.
pub open spec fn is_stored_name(r: Result<String, &'static str>, name: Seq<char>) -> bool {
    match r {
        Ok(s) => s@ == name,
        Err(_) => false,
    }
}

/// Claims no spec-level conversion: callers read the stored name from the
/// contract of `try_into` itself.
impl vstd::std_specs::convert::TryIntoSpecImpl<String> for InvitationStatus {
    open spec fn obeys_try_into_spec() -> bool {
        false
    }

    open spec fn try_into_spec(self) -> Result<String, &'static str> {
        Err("")
    }
}

impl TryInto<String> for InvitationStatus {
    type Error = &'static str;

    fn try_into(self) -> (r: Result<String, &'static str>)
        ensures
            is_stored_name(r, status_name(self)),
    {
        match self {
            InvitationStatus::QUEUED => Ok(String::from_str("QUEUED")),
            InvitationStatus::INVITED => Ok(String::from_str("INVITED")),
            InvitationStatus::FAILED => Ok(String::from_str("FAILED")),
            InvitationStatus::REJECTED => Ok(String::from_str("REJECTED ")),
            InvitationStatus::DELETED => Ok(String::from_str("DELETED")),
        }
    }
}

/// Claims no spec-level conversion: callers read the stored name from the
/// contract of `try_into` itself.
impl vstd::std_specs::convert::TryIntoSpecImpl<String> for InvitationType {
    open spec fn obeys_try_into_spec() -> bool {
        false
    }

    open spec fn try_into_spec(self) -> Result<String, &'static str> {
        Err("")
    }
}

impl TryInto<String> for InvitationType {
    type Error = &'static str;

    fn try_into(self) -> (r: Result<String, &'static str>)
        ensures
            is_stored_name(r, invitation_type_name(self)),
    {
        match self {
            InvitationType::MEMBER_INVITATION => Ok(String::from_str("MEMBER_INVITATION")),
            InvitationType::VERIFY_TOKEN => Ok(String::from_str("VERIFY_TOKEN")),
        }
    }
}

/// Claims no spec-level conversion: callers read the stored name from the
/// contract of `try_into` itself.
impl vstd::std_specs::convert::TryIntoSpecImpl<String> for TransportType {
    open spec fn obeys_try_into_spec() -> bool {
        false
    }

    open spec fn try_into_spec(self) -> Result<String, &'static str> {
        Err("")
    }
}

impl TryInto<String> for TransportType {
    type Error = &'static str;

    fn try_into(self) -> (r: Result<String, &'static str>)
        ensures
            is_stored_name(r, transport_name(self)),
    {
        match self {
            TransportType::EMAIL_CODE => Ok(String::from_str("EMAIL_CODE")),
            TransportType::PHONE_CODE => Ok(String::from_str("PHONE_CODE")),
            TransportType::EMAIL_LINK => Ok(String::from_str("EMAIL_LINK")),
            TransportType::PHONE_LINK => Ok(String::from_str("PHONE_LINK")),
        }
    }
}

} // verus!
