use vstd::prelude::*;

use crate::genum::{Enum, EnumNil, GenericEnum};
use crate::gmap::{GMap, ToEnumType};
use crate::module::{FederationModule, InputMeta, OutPoint};
use std::marker::PhantomData;

verus! {

/// Defines how an associated type of a module is to be processed by that module (input,
/// output, …). The module is the trait's parameter `I`.
pub trait ProcessMapped<I: FederationModule>: GMap<I> + 'static {
    type ExtraArgs;
    type Output;

    /// The items, with their extra arguments, that `module` processes without failing.
    spec fn can_process_item(module: I, item: Self::Mapped, args: Self::ExtraArgs) -> bool;

    /// What processing `item` by `module` may give, and `after`, the module after it.
    spec fn process_item_ensures(
        module: I,
        item: Self::Mapped,
        args: Self::ExtraArgs,
        out: Self::Output,
        after: I,
    ) -> bool;

    fn process_item(module: &mut I, item: &Self::Mapped, args: Self::ExtraArgs) -> (out:
        Self::Output)
        requires
            Self::can_process_item(*old(module), *item, args),
        ensures
            Self::process_item_ensures(*old(module), *item, args, out, *final(module)),
    ;
}

/// The outputs of transactions, applied through `FederationModule::apply_output`.
pub struct TxOutput;

impl<I: FederationModule> GMap<I> for TxOutput {
    type Mapped = I::TxOutput;
}

impl<I: FederationModule> ProcessMapped<I> for TxOutput {
    type ExtraArgs = OutPoint;
    type Output = Result<u64, I::Error>;

    open spec fn can_process_item(module: I, item: I::TxOutput, args: OutPoint) -> bool {
        module.can_apply_output(item, args)
    }

    open spec fn process_item_ensures(
        module: I,
        item: I::TxOutput,
        args: OutPoint,
        out: Result<u64, I::Error>,
        after: I,
    ) -> bool {
        module.apply_output_ensures(item, args, out, after)
    }

    fn process_item(module: &mut I, item: &I::TxOutput, out_point: OutPoint) -> Result<
        u64,
        I::Error,
    > {
        module.apply_output(item, out_point)
    }
}

/// The inputs of transactions, applied through `FederationModule::apply_input`.
pub struct TxInput;

impl<I: FederationModule> GMap<I> for TxInput {
    type Mapped = I::TxInput;
}

/// Maps each module to a `Result` of `T` and the module's error.
pub struct ModuleResult<T>(PhantomData<T>);

impl<T, I: FederationModule> GMap<I> for ModuleResult<T> {
    type Mapped = Result<T, I::Error>;
}

impl<I: FederationModule> ProcessMapped<I> for TxInput {
    type ExtraArgs = ();
    type Output = Result<InputMeta, I::Error>;

    open spec fn can_process_item(module: I, item: I::TxInput, args: ()) -> bool {
        module.can_apply_input(item)
    }

    /// Applying an input leaves the module as it was.
    open spec fn process_item_ensures(
        module: I,
        item: I::TxInput,
        args: (),
        out: Result<InputMeta, I::Error>,
        after: I,
    ) -> bool {
        module.apply_input_ensures(item, out) && after == module
    }

    fn process_item(module: &mut I, item: &I::TxInput, _args: ()) -> Result<InputMeta, I::Error> {
        module.apply_input(item)
    }
}

/// Processes an enum over the items of all modules by the module whose item it holds; `M`
/// says which item, `A` is the extra argument that the processing takes.
pub trait Process<M, A>: ToEnumType<M> + Sized {
    type OutputEnum: GenericEnum;

    /// The item enums, with their extra arguments, that this list of modules processes without
    /// failing.
    spec fn can_process(&self, item_enum: Self::EnumType, args: A) -> bool;

    /// What processing `item_enum` may give: the result of the module at the item's position,
    /// at that same position; and `after`, the list with that module as processing leaves it
    /// and the others as they were.
    spec fn process_ensures(
        &self,
        item_enum: Self::EnumType,
        args: A,
        out: Self::OutputEnum,
        after: Self,
    ) -> bool;

    fn process(&mut self, item_enum: Self::EnumType, args: A) -> (out: Self::OutputEnum)
        requires
            old(self).can_process(item_enum, args),
        ensures
            old(self).process_ensures(item_enum, args, out, *final(self)),
            out.variant() == item_enum.variant(),
            out.variant() is Some,
    ;
}

impl<M, A> Process<M, A> for hlist::Nil {
    type OutputEnum = EnumNil;

    /// An empty enum holds no item to process.
    open spec fn can_process(&self, item_enum: EnumNil, args: A) -> bool {
        false
    }

    open spec fn process_ensures(&self, item_enum: EnumNil, args: A, out: EnumNil, after: hlist::Nil) -> bool {
        false
    }

    fn process(&mut self, _item_enum: EnumNil, _args: A) -> EnumNil {
        vstd::pervasive::unreached()
    }
}

impl<M, A, P, N> Process<M, A> for hlist::Cons<P, N> where
    P: FederationModule,
    M: ProcessMapped<P, ExtraArgs = A>,
    N: Process<M, A>,
 {
    type OutputEnum = Enum<<M as ProcessMapped<P>>::Output, <N as Process<M, A>>::OutputEnum>;

    open spec fn can_process(
        &self,
        item_enum: Enum<<M as GMap<P>>::Mapped, <N as ToEnumType<M>>::EnumType>,
        args: A,
    ) -> bool {
        match item_enum {
            Enum::Payload(item) => M::can_process_item(self.0, item, args),
            Enum::Next(next) => self.1.can_process(next, args),
        }
    }

    open spec fn process_ensures(
        &self,
        item_enum: Enum<<M as GMap<P>>::Mapped, <N as ToEnumType<M>>::EnumType>,
        args: A,
        out: Enum<<M as ProcessMapped<P>>::Output, <N as Process<M, A>>::OutputEnum>,
        after: hlist::Cons<P, N>,
    ) -> bool {
        match (item_enum, out) {
            (Enum::Payload(item), Enum::Payload(o)) => M::process_item_ensures(
                self.0,
                item,
                args,
                o,
                after.0,
            ) && after.1 == self.1,
            (Enum::Next(next), Enum::Next(o)) => self.1.process_ensures(next, args, o, after.1)
                && after.0 == self.0,
            _ => false,
        }
    }

    fn process(
        &mut self,
        item_enum: Enum<<M as GMap<P>>::Mapped, <N as ToEnumType<M>>::EnumType>,
        args: A,
    ) -> Enum<<M as ProcessMapped<P>>::Output, <N as Process<M, A>>::OutputEnum> {
        match item_enum {
            Enum::Payload(item) => Enum::Payload(M::process_item(&mut self.0, &item, args)),
            Enum::Next(next) => Enum::Next(self.1.process(next, args)),
        }
    }
}

/// Processing an item of the first module of a list is processing it by that module: the list
/// accepts it exactly where the module does, its results are the module's results at the first
/// position, and only that module changes.
pub proof fn lemma_process_first_module<M, A, P, N>(
    modules: hlist::Cons<P, N>,
    item: <M as GMap<P>>::Mapped,
    args: A,
    out: Enum<<M as ProcessMapped<P>>::Output, <N as Process<M, A>>::OutputEnum>,
    after: hlist::Cons<P, N>,
) where
    P: FederationModule,
    M: ProcessMapped<P, ExtraArgs = A>,
    N: Process<M, A>,

    ensures
        modules.can_process(Enum::Payload(item), args) == M::can_process_item(modules.0, item, args),
        modules.process_ensures(Enum::Payload(item), args, out, after) <==> (out is Payload
            && M::process_item_ensures(modules.0, item, args, out->Payload_0, after.0) && after.1
            == modules.1),
{
}

/// Processing an item of any later module of a list is processing it by the rest of the list:
/// the list accepts it exactly where the rest does, its results are the rest's results one
/// position further, and the first module stays as it was.
pub proof fn lemma_process_later_module<M, A, P, N>(
    modules: hlist::Cons<P, N>,
    rest: <N as ToEnumType<M>>::EnumType,
    args: A,
    out: Enum<<M as ProcessMapped<P>>::Output, <N as Process<M, A>>::OutputEnum>,
    after: hlist::Cons<P, N>,
) where
    P: FederationModule,
    M: ProcessMapped<P, ExtraArgs = A>,
    N: Process<M, A>,

    ensures
        modules.can_process(Enum::Next(rest), args) == modules.1.can_process(rest, args),
        modules.process_ensures(Enum::Next(rest), args, out, after) <==> (out is Next
            && modules.1.process_ensures(rest, args, out->Next_0, after.1) && after.0 == modules.0),
{
}

} // verus!
