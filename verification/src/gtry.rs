use vstd::prelude::*;

use crate::genum::{Enum, EnumNil, GenericEnum};

verus! {

pub trait MapEnum {}

/// Makes an enum of results into a result whose error type is an enum over all module errors.
///
/// Basically `Enum<Result<T, FooError>, Result<T, BarError>> -> Result<T, Enum<FooError, BarError>>`
pub trait GTry<T>: GenericEnum + Sized {
    type ReturnError: GenericEnum;

    /// The result that `generic_try` gives: the result at the payload's position, with an
    /// error kept at that same position.
    spec fn try_result(self) -> Result<T, Self::ReturnError>;

    fn generic_try(self) -> (r: Result<T, Self::ReturnError>)
        requires
            self.variant() is Some,
        ensures
            r == self.try_result(),
            r matches Err(e) ==> e.variant() == self.variant(),
    ;
}

impl<T> GTry<T> for EnumNil {
    type ReturnError = EnumNil;

    /// `EnumNil` holds no result.
    open spec fn try_result(self) -> Result<T, EnumNil> {
        Err(EnumNil)
    }

    fn generic_try(self) -> Result<T, EnumNil> {
        vstd::pervasive::unreached()
    }
}

impl<T, N, E> GTry<T> for Enum<Result<T, E>, N> where N: GTry<T> {
    type ReturnError = Enum<E, N::ReturnError>;

    open spec fn try_result(self) -> Result<T, Enum<E, N::ReturnError>> {
        match self {
            Enum::Payload(Ok(val)) => Ok(val),
            Enum::Payload(Err(e)) => Err(Enum::Payload(e)),
            Enum::Next(next) => match next.try_result() {
                Ok(val) => Ok(val),
                Err(e) => Err(Enum::Next(e)),
            },
        }
    }

    fn generic_try(self) -> Result<T, Enum<E, N::ReturnError>> {
        match self {
            Enum::Payload(Ok(val)) => Ok(val),
            Enum::Payload(Err(e)) => Err(Enum::Payload(e)),
            Enum::Next(next) => {
                let res = next.generic_try();
                match res {
                    Ok(val) => Ok(val),
                    Err(e) => Err(Enum::Next(e)),
                }
            },
        }
    }
}

} // verus!
