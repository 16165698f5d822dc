use vstd::prelude::*;

verus! {

/// Enum that gets constructed through the type system.
///
/// Note that even if the concrete variant might be `Enum::Payload(Foo)`, the required type might
/// still be `Enum<Foo, Enum<Bar, EnumNil>>`.
#[derive(Debug)]
pub enum Enum<P, N> {
    Payload(P),
    Next(N),
}

/// The empty end of an [`Enum`] chain: it holds no payload.
#[derive(Debug)]
pub struct EnumNil;

/// The shape of a value of a chain of [`Enum`]s that ends in [`EnumNil`].
pub trait GenericEnum {
    /// How many `Next` steps lead from the outermost level to the payload, or `None` where the
    /// chain runs down to `EnumNil` without one.
    spec fn variant(self) -> Option<nat>;
}

impl GenericEnum for EnumNil {
    open spec fn variant(self) -> Option<nat> {
        None
    }
}

impl<P, N: GenericEnum> GenericEnum for Enum<P, N> {
    open spec fn variant(self) -> Option<nat> {
        match self {
            Enum::Payload(_) => Some(0nat),
            Enum::Next(next) => match next.variant() {
                Some(k) => Some(k + 1),
                None => None,
            },
        }
    }
}

} // verus!
