//! The result codes that every response of the service carries.

use vstd::prelude::*;

verus! {

#[derive(Clone, Copy, Debug, PartialEq, Eq, Structural)]
pub enum ResponseCode {
    Success,
    NotImplemented,
    SystemInternalError,
    LoginCsrfViolation,
    DatabaseConnectionError,
    SonicDBConnectionError,
}

impl ResponseCode {
    /// The number that stands for the code on the wire.
    pub open spec fn value(self) -> u32 {
        match self {
            ResponseCode::Success => 0,
            ResponseCode::NotImplemented => 998,
            ResponseCode::SystemInternalError => 999,
            ResponseCode::LoginCsrfViolation => 1001,
            ResponseCode::DatabaseConnectionError => 2001,
            ResponseCode::SonicDBConnectionError => 3001,
        }
    }

    pub fn code(self) -> (r: u32)
        ensures
            r == self.value(),
    {
        match self {
            ResponseCode::Success => 0,
            ResponseCode::NotImplemented => 998,
            ResponseCode::SystemInternalError => 999,
            ResponseCode::LoginCsrfViolation => 1001,
            ResponseCode::DatabaseConnectionError => 2001,
            ResponseCode::SonicDBConnectionError => 3001,
        }
    }

    /// The code that a number stands for, if any.
    pub fn from_code(value: u32) -> (r: Option<ResponseCode>)
        ensures
            match r {
                Some(code) => code.value() == value,
                None => forall|code: ResponseCode| code.value() != value,
            },
    {
        if value == 0 {
            Some(ResponseCode::Success)
        } else if value == 998 {
            Some(ResponseCode::NotImplemented)
        } else if value == 999 {
            Some(ResponseCode::SystemInternalError)
        } else if value == 1001 {
            Some(ResponseCode::LoginCsrfViolation)
        } else if value == 2001 {
            Some(ResponseCode::DatabaseConnectionError)
        } else if value == 3001 {
            Some(ResponseCode::SonicDBConnectionError)
        } else {
            None
        }
    }

    /// Two codes with the same number are the same code.
    pub proof fn value_is_injective(a: ResponseCode, b: ResponseCode)
        requires
            a.value() == b.value(),
        ensures
            a == b,
    {
    }
}

impl From<ResponseCode> for u32 {
    fn from(code: ResponseCode) -> (r: u32) {
        code.code()
    }
}

impl vstd::std_specs::convert::FromSpecImpl<ResponseCode> for u32 {
    open spec fn obeys_from_spec() -> bool {
        true
    }

    open spec fn from_spec(code: ResponseCode) -> u32 {
        code.value()
    }
}

} // verus!
