pub mod genum;
pub mod gmap;
pub mod gtry;
pub mod list;
pub mod mint;
pub mod module;
pub mod process;
pub mod wallet;

use vstd::prelude::*;

use crate::genum::{Enum, GenericEnum};
use crate::gmap::ToEnumType;
use crate::gtry::GTry;
use crate::module::{FederationModule, InputMeta, OutPoint};
use crate::process::{Process, TxInput, TxOutput};

verus! {

/// A federation: the list of its modules, the most recently attached first.
pub struct Federation<M> {
    modules: M,
}

/// Just a quick way to get types, e.g. to construct the tx type generically over the federation
pub trait FederationTypes {
    type TxOutput;
    type TxInput;
}

impl<M> Federation<M> {
    /// The list of this federation's modules.
    pub closed spec fn modules(self) -> M {
        self.modules
    }
}

impl Federation<hlist::Nil> {
    /// A federation without modules.
    pub fn new() -> (fed: Federation<hlist::Nil>)
        ensures
            fed.modules() == hlist::Nil,
    {
        Federation { modules: hlist::Nil }
    }
}

impl<M> Federation<M> {
    /// The federation with `module` attached in front of the modules it had, as
    /// `hlist::HList::push` puts an item in front of a list: `Cons(item, list)`.
    pub fn attach_module<T: FederationModule>(self, module: T) -> (fed: Federation<hlist::Cons<T, M>>)
        ensures
            fed.modules().0 == module,
            fed.modules().1 == self.modules(),
    {
        Federation { modules: hlist::Cons(module, self.modules) }
    }
}

impl<M> Federation<M> where
    M: Process<TxOutput, OutPoint>,
    <M as Process<TxOutput, OutPoint>>::OutputEnum: GTry<u64>,
 {
    /// `r` is a result that applying `output` may give, and `after` the federation after it: the
    /// result of the module whose output it is, with an error tagged by that module's position,
    /// and that module as applying the output leaves it.
    pub open spec fn output_result(
        self,
        output: <M as ToEnumType<TxOutput>>::EnumType,
        out_point: OutPoint,
        r: Result<u64, <<M as Process<TxOutput, OutPoint>>::OutputEnum as GTry<u64>>::ReturnError>,
        after: Self,
    ) -> bool {
        exists|out: <M as Process<TxOutput, OutPoint>>::OutputEnum|
            #[trigger] self.modules().process_ensures(output, out_point, out, after.modules())
                && r == out.try_result()
    }
}

impl<M> Federation<M> where
    M: Process<TxInput, ()>,
    <M as Process<TxInput, ()>>::OutputEnum: GTry<InputMeta>,
 {
    /// `r` is a result that applying `input` may give, and `after` the federation after it: the
    /// result of the module whose input it is, with an error tagged by that module's position.
    pub open spec fn input_result(
        self,
        input: <M as ToEnumType<TxInput>>::EnumType,
        r: Result<InputMeta, <<M as Process<TxInput, ()>>::OutputEnum as GTry<InputMeta>>::ReturnError>,
        after: Self,
    ) -> bool {
        exists|out: <M as Process<TxInput, ()>>::OutputEnum|
            #[trigger] self.modules().process_ensures(input, (), out, after.modules())
                && r == out.try_result()
    }
}

impl<M> Federation<M> where
    M: Process<TxOutput, OutPoint> + Process<TxInput, ()>,
    <M as Process<TxOutput, OutPoint>>::OutputEnum: GTry<u64>,
    <M as Process<TxInput, ()>>::OutputEnum: GTry<InputMeta>,
 {
    /// Applies `output` by the module whose output it is, and returns that module's result, with
    /// an error tagged by the module's position.
    pub fn process_output(
        &mut self,
        output: <M as ToEnumType<TxOutput>>::EnumType,
        out_point: OutPoint,
    ) -> (r: Result<u64, <<M as Process<TxOutput, OutPoint>>::OutputEnum as GTry<u64>>::ReturnError>)
        requires
            old(self).modules().can_process(output, out_point),
        ensures
            old(self).output_result(output, out_point, r, *final(self)),
            r matches Err(e) ==> e.variant() == output.variant(),
    {
        let out = self.modules.process(output, out_point);
        assert(old(self).modules().process_ensures(output, out_point, out, self.modules()));
        out.generic_try()
    }

    /// Applies `input` by the module whose input it is, and returns that module's result, with
    /// an error tagged by the module's position.
    pub fn process_input(&mut self, input: <M as ToEnumType<TxInput>>::EnumType) -> (r: Result<
        InputMeta,
        <<M as Process<TxInput, ()>>::OutputEnum as GTry<InputMeta>>::ReturnError,
    >)
        requires
            old(self).modules().can_process(input, ()),
        ensures
            old(self).input_result(input, r, *final(self)),
            r matches Err(e) ==> e.variant() == input.variant(),
    {
        let out = self.modules.process(input, ());
        assert(old(self).modules().process_ensures(input, (), out, self.modules()));
        out.generic_try()
    }
}

impl<M> FederationTypes for Federation<M> where
    M: ToEnumType<TxOutput> + ToEnumType<TxInput>,
 {
    type TxOutput = <M as ToEnumType<TxOutput>>::EnumType;
    type TxInput = <M as ToEnumType<TxInput>>::EnumType;
}

/// Applying an output of the module attached last gives that module's own result of
/// `apply_output`, a success as it is and an error tagged with the first position; that module
/// changes as `apply_output` changes it, and the others stay as they were.
pub proof fn lemma_output_of_first_module<P, N>(
    fed: Federation<hlist::Cons<P, N>>,
    output: P::TxOutput,
    out_point: OutPoint,
    r: Result<u64, Enum<P::Error, <<N as Process<TxOutput, OutPoint>>::OutputEnum as GTry<u64>>::ReturnError>>,
    after: Federation<hlist::Cons<P, N>>,
) where
    P: FederationModule,
    N: Process<TxOutput, OutPoint>,
    <N as Process<TxOutput, OutPoint>>::OutputEnum: GTry<u64>,

    requires
        fed.output_result(Enum::Payload(output), out_point, r, after),
    ensures
        exists|o: Result<u64, P::Error>|
            #[trigger] fed.modules().0.apply_output_ensures(output, out_point, o, after.modules().0)
                && match o {
                Ok(v) => r matches Ok(w) && w == v,
                Err(e) => r matches Err(Enum::Payload(f)) && f == e,
            },
        after.modules().1 == fed.modules().1,
{
    let out = choose|out: <hlist::Cons<P, N> as Process<TxOutput, OutPoint>>::OutputEnum|
        #[trigger] fed.modules().process_ensures(Enum::Payload(output), out_point, out, after.modules())
            && r == out.try_result();
    match out {
        Enum::Payload(o) => {
            assert(fed.modules().0.apply_output_ensures(output, out_point, o, after.modules().0));
        },
        Enum::Next(_) => {},
    }
}

/// Applying an output of any module but the one attached last gives the result that the list
/// of the other modules gives, with an error tagged one position further; the module attached
/// last stays as it was.
pub proof fn lemma_output_of_later_module<P, N>(
    fed: Federation<hlist::Cons<P, N>>,
    rest: <N as ToEnumType<TxOutput>>::EnumType,
    out_point: OutPoint,
    r: Result<u64, Enum<P::Error, <<N as Process<TxOutput, OutPoint>>::OutputEnum as GTry<u64>>::ReturnError>>,
    after: Federation<hlist::Cons<P, N>>,
) where
    P: FederationModule,
    N: Process<TxOutput, OutPoint>,
    <N as Process<TxOutput, OutPoint>>::OutputEnum: GTry<u64>,

    requires
        fed.output_result(Enum::Next(rest), out_point, r, after),
    ensures
        exists|o: <N as Process<TxOutput, OutPoint>>::OutputEnum|
            #[trigger] fed.modules().1.process_ensures(rest, out_point, o, after.modules().1)
                && match o.try_result() {
                Ok(v) => r matches Ok(w) && w == v,
                Err(e) => r matches Err(Enum::Next(f)) && f == e,
            },
        after.modules().0 == fed.modules().0,
{
    let out = choose|out: <hlist::Cons<P, N> as Process<TxOutput, OutPoint>>::OutputEnum|
        #[trigger] fed.modules().process_ensures(Enum::Next(rest), out_point, out, after.modules())
            && r == out.try_result();
    match out {
        Enum::Payload(_) => {},
        Enum::Next(o) => {
            assert(fed.modules().1.process_ensures(rest, out_point, o, after.modules().1));
        },
    }
}

/// Applying an input of the module attached last gives that module's own result of
/// `apply_input`, a success as it is and an error tagged with the first position; the modules
/// stay as they were.
pub proof fn lemma_input_of_first_module<P, N>(
    fed: Federation<hlist::Cons<P, N>>,
    input: P::TxInput,
    r: Result<InputMeta, Enum<P::Error, <<N as Process<TxInput, ()>>::OutputEnum as GTry<InputMeta>>::ReturnError>>,
    after: Federation<hlist::Cons<P, N>>,
) where
    P: FederationModule,
    N: Process<TxInput, ()>,
    <N as Process<TxInput, ()>>::OutputEnum: GTry<InputMeta>,

    requires
        fed.input_result(Enum::Payload(input), r, after),
    ensures
        exists|o: Result<InputMeta, P::Error>|
            #[trigger] fed.modules().0.apply_input_ensures(input, o) && match o {
                Ok(v) => r matches Ok(w) && w == v,
                Err(e) => r matches Err(Enum::Payload(f)) && f == e,
            },
        after.modules() == fed.modules(),
{
    let out = choose|out: <hlist::Cons<P, N> as Process<TxInput, ()>>::OutputEnum|
        #[trigger] fed.modules().process_ensures(Enum::Payload(input), (), out, after.modules())
            && r == out.try_result();
    match out {
        Enum::Payload(o) => {
            assert(fed.modules().0.apply_input_ensures(input, o));
        },
        Enum::Next(_) => {},
    }
}

/// Applying an input of any module but the one attached last gives the result that the list
/// of the other modules gives, with an error tagged one position further; the module attached
/// last stays as it was.
pub proof fn lemma_input_of_later_module<P, N>(
    fed: Federation<hlist::Cons<P, N>>,
    rest: <N as ToEnumType<TxInput>>::EnumType,
    r: Result<InputMeta, Enum<P::Error, <<N as Process<TxInput, ()>>::OutputEnum as GTry<InputMeta>>::ReturnError>>,
    after: Federation<hlist::Cons<P, N>>,
) where
    P: FederationModule,
    N: Process<TxInput, ()>,
    <N as Process<TxInput, ()>>::OutputEnum: GTry<InputMeta>,

    requires
        fed.input_result(Enum::Next(rest), r, after),
    ensures
        exists|o: <N as Process<TxInput, ()>>::OutputEnum|
            #[trigger] fed.modules().1.process_ensures(rest, (), o, after.modules().1)
                && match o.try_result() {
                Ok(v) => r matches Ok(w) && w == v,
                Err(e) => r matches Err(Enum::Next(f)) && f == e,
            },
        after.modules().0 == fed.modules().0,
{
    let out = choose|out: <hlist::Cons<P, N> as Process<TxInput, ()>>::OutputEnum|
        #[trigger] fed.modules().process_ensures(Enum::Next(rest), (), out, after.modules())
            && r == out.try_result();
    match out {
        Enum::Payload(_) => {},
        Enum::Next(o) => {
            assert(fed.modules().1.process_ensures(rest, (), o, after.modules().1));
        },
    }
}

/// Through a federation whose first module is the mint module, an output of that module is
/// applied with the amount 0 at every out-point, whatever the other modules are.
pub proof fn lemma_mint_output_in_federation<N>(
    fed: Federation<hlist::Cons<crate::mint::Mint, N>>,
    out_point: OutPoint,
    r: Result<u64, Enum<crate::mint::MintError, <<N as Process<TxOutput, OutPoint>>::OutputEnum as GTry<u64>>::ReturnError>>,
    after: Federation<hlist::Cons<crate::mint::Mint, N>>,
) where
    N: Process<TxOutput, OutPoint>,
    <N as Process<TxOutput, OutPoint>>::OutputEnum: GTry<u64>,

    requires
        fed.output_result(Enum::Payload(()), out_point, r, after),
    ensures
        r matches Ok(amount) && amount == 0,
{
    lemma_output_of_first_module(fed, (), out_point, r, after);
    let o = choose|o: Result<u64, crate::mint::MintError>|
        #[trigger] fed.modules().0.apply_output_ensures((), out_point, o, after.modules().0)
            && match o {
            Ok(v) => r matches Ok(w) && w == v,
            Err(e) => r matches Err(Enum::Payload(f)) && f == e,
        };
    crate::mint::lemma_output_applied_with_zero(fed.modules().0, out_point, o, after.modules().0);
}

/// Through a federation whose first module is the mint module, an input of that module is
/// refused with that module's error "not implemented", tagged with the first position, whatever the
/// other modules are.
pub proof fn lemma_mint_input_in_federation<N>(
    fed: Federation<hlist::Cons<crate::mint::Mint, N>>,
    r: Result<InputMeta, Enum<crate::mint::MintError, <<N as Process<TxInput, ()>>::OutputEnum as GTry<InputMeta>>::ReturnError>>,
    after: Federation<hlist::Cons<crate::mint::Mint, N>>,
) where
    N: Process<TxInput, ()>,
    <N as Process<TxInput, ()>>::OutputEnum: GTry<InputMeta>,

    requires
        fed.input_result(Enum::Payload(()), r, after),
    ensures
        r matches Err(Enum::Payload(e)) && e@ == "not implemented"@,
{
    lemma_input_of_first_module(fed, (), r, after);
    let o = choose|o: Result<InputMeta, crate::mint::MintError>|
        #[trigger] fed.modules().0.apply_input_ensures((), o) && match o {
            Ok(v) => r matches Ok(w) && w == v,
            Err(e) => r matches Err(Enum::Payload(f)) && f == e,
        };
    assert(o matches Err(e) && e@ == "not implemented"@);
}

/// Through a federation whose first module is the wallet module, an output of that module is
/// applied with the amount 0 at every out-point, whatever the other modules are.
pub proof fn lemma_wallet_output_in_federation<N>(
    fed: Federation<hlist::Cons<crate::wallet::Wallet, N>>,
    out_point: OutPoint,
    r: Result<u64, Enum<crate::wallet::WalletError, <<N as Process<TxOutput, OutPoint>>::OutputEnum as GTry<u64>>::ReturnError>>,
    after: Federation<hlist::Cons<crate::wallet::Wallet, N>>,
) where
    N: Process<TxOutput, OutPoint>,
    <N as Process<TxOutput, OutPoint>>::OutputEnum: GTry<u64>,

    requires
        fed.output_result(Enum::Payload(()), out_point, r, after),
    ensures
        r matches Ok(amount) && amount == 0,
{
    lemma_output_of_first_module(fed, (), out_point, r, after);
    let o = choose|o: Result<u64, crate::wallet::WalletError>|
        #[trigger] fed.modules().0.apply_output_ensures((), out_point, o, after.modules().0)
            && match o {
            Ok(v) => r matches Ok(w) && w == v,
            Err(e) => r matches Err(Enum::Payload(f)) && f == e,
        };
    crate::wallet::lemma_output_applied_with_zero(fed.modules().0, out_point, o, after.modules().0);
}

/// Through a federation whose first module is the wallet module, an input of that module is
/// refused with that module's error "FOOOOOO", tagged with the first position, whatever the
/// other modules are.
pub proof fn lemma_wallet_input_in_federation<N>(
    fed: Federation<hlist::Cons<crate::wallet::Wallet, N>>,
    r: Result<InputMeta, Enum<crate::wallet::WalletError, <<N as Process<TxInput, ()>>::OutputEnum as GTry<InputMeta>>::ReturnError>>,
    after: Federation<hlist::Cons<crate::wallet::Wallet, N>>,
) where
    N: Process<TxInput, ()>,
    <N as Process<TxInput, ()>>::OutputEnum: GTry<InputMeta>,

    requires
        fed.input_result(Enum::Payload(()), r, after),
    ensures
        r matches Err(Enum::Payload(e)) && e@ == "FOOOOOO"@,
{
    lemma_input_of_first_module(fed, (), r, after);
    let o = choose|o: Result<InputMeta, crate::wallet::WalletError>|
        #[trigger] fed.modules().0.apply_input_ensures((), o) && match o {
            Ok(v) => r matches Ok(w) && w == v,
            Err(e) => r matches Err(Enum::Payload(f)) && f == e,
        };
    assert(o matches Err(e) && e@ == "FOOOOOO"@);
}

} // verus!
