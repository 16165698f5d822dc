use vstd::prelude::*;

use crate::genum::{Enum, EnumNil, GenericEnum};
use crate::module::FederationModule;

verus! {

/// A zero size type that defines a mapping from a module to a dependent/associated type thereof.
///
/// The module is the trait's parameter `I`; `Mapped` is the type that the mapping gives it.
/// See also [`crate::process::ProcessMapped`] that extends this trait.
pub trait GMap<I: FederationModule> {
    type Mapped;
}

struct Ident;

impl<I: FederationModule> GMap<I> for Ident {
    type Mapped = I;
}

/// Build an enum type containing a certain associated type of all modules: for the list of
/// modules `Cons<A, Cons<B, Nil>>` and the mapping `M`, the type
/// `Enum<M(A), Enum<M(B), EnumNil>>`.
pub trait ToEnumType<M> {
    type EnumType: GenericEnum;
}

impl<M> ToEnumType<M> for hlist::Nil {
    type EnumType = EnumNil;
}

impl<M, P, N> ToEnumType<M> for hlist::Cons<P, N> where
    P: FederationModule,
    M: GMap<P>,
    N: ToEnumType<M>,
 {
    type EnumType = Enum<<M as GMap<P>>::Mapped, <N as ToEnumType<M>>::EnumType>;
}

/// Maps each module to its error type.
pub struct ModuleEror;

impl<I: FederationModule> GMap<I> for ModuleEror {
    type Mapped = I::Error;
}

} // verus!
