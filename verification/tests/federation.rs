use federation::genum::{Enum, EnumNil};
use federation::gtry::GTry;
use federation::mint::{Mint, MintError};
use federation::module::{FederationModule, OutPoint};
use federation::process::{Process, TxInput, TxOutput};
use federation::wallet::{Wallet, WalletError};
use federation::Federation;

fn out_point() -> OutPoint {
    OutPoint { txid: [0; 32], out_idx: 0 }
}

#[test]
fn generic_try_keeps_a_success() {
    let e: Enum<Result<u64, String>, Enum<Result<u64, u8>, EnumNil>> = Enum::Payload(Ok(7));
    let r = e.generic_try();
    assert!(matches!(r, Ok(7)));
}

#[test]
fn generic_try_tags_an_error_with_its_position() {
    let first: Enum<Result<u64, u8>, Enum<Result<u64, u16>, EnumNil>> = Enum::Payload(Err(3));
    assert!(matches!(first.generic_try(), Err(Enum::Payload(3u8))));

    let second: Enum<Result<u64, u8>, Enum<Result<u64, u16>, EnumNil>> =
        Enum::Next(Enum::Payload(Err(9)));
    assert!(matches!(second.generic_try(), Err(Enum::Next(Enum::Payload(9u16)))));

    let second_ok: Enum<Result<u64, u8>, Enum<Result<u64, u16>, EnumNil>> =
        Enum::Next(Enum::Payload(Ok(11)));
    assert!(matches!(second_ok.generic_try(), Ok(11)));
}

#[test]
fn mint_applies_outputs_and_refuses_inputs() {
    assert!(matches!(Mint::new().apply_output(&(), out_point()), Ok(0)));
    match Mint::new().apply_input(&()) {
        Err(e) => assert_eq!(e.to_string(), "not implemented"),
        Ok(_) => panic!("the mint accepted an input"),
    }
}

#[test]
fn wallet_applies_outputs_and_refuses_inputs() {
    assert!(matches!(Wallet::new().apply_output(&(), out_point()), Ok(0)));
    match Wallet::new().apply_input(&()) {
        Err(e) => assert_eq!(e.to_string(), "FOOOOOO"),
        Ok(_) => panic!("the wallet accepted an input"),
    }
}

#[test]
fn module_errors_keep_their_message() {
    assert_eq!(MintError::new("boom".to_string()).to_string(), "boom");
    assert_eq!(WalletError::new(String::new()).to_string(), "");
}

#[test]
fn process_routes_an_item_to_the_module_at_its_position() {
    let mut modules = hlist::Cons(Wallet::new(), hlist::Cons(Mint::new(), hlist::Nil));
    let first = Process::<TxInput, ()>::process(&mut modules, Enum::Payload(()), ());
    match first {
        Enum::Payload(Err(e)) => assert_eq!(e.to_string(), "FOOOOOO"),
        _ => panic!("the input went to the wrong module"),
    }
    let second = Process::<TxInput, ()>::process(&mut modules, Enum::Next(Enum::Payload(())), ());
    match second {
        Enum::Next(Enum::Payload(Err(e))) => assert_eq!(e.to_string(), "not implemented"),
        _ => panic!("the input went to the wrong module"),
    }
    let out = Process::<TxOutput, _>::process(&mut modules, Enum::Next(Enum::Payload(())), out_point());
    assert!(matches!(out, Enum::Next(Enum::Payload(Ok(0)))));
}

#[test]
fn federation_processes_outputs_of_both_modules() {
    let mut fed = Federation::new().attach_module(Mint::new()).attach_module(Wallet::new());
    let mint_out = Enum::<(), Enum<(), EnumNil>>::Next(Enum::<(), EnumNil>::Payload(()));
    let wallet_out = Enum::<(), Enum<(), EnumNil>>::Payload(());
    assert!(matches!(fed.process_output(mint_out, out_point()), Ok(0)));
    assert!(matches!(fed.process_output(wallet_out, out_point()), Ok(0)));
}

#[test]
fn federation_tags_input_errors_with_the_module() {
    let mut fed = Federation::new().attach_module(Mint::new()).attach_module(Wallet::new());
    match fed.process_input(Enum::Next(Enum::Payload(()))) {
        Err(Enum::Next(Enum::Payload(e))) => assert_eq!(e.to_string(), "not implemented"),
        _ => panic!("the mint input was not refused by the mint"),
    }
    match fed.process_input(Enum::Payload(())) {
        Err(Enum::Payload(e)) => assert_eq!(e.to_string(), "FOOOOOO"),
        _ => panic!("the wallet input was not refused by the wallet"),
    }
}

#[test]
fn attach_module_puts_the_new_module_first() {
    let mut fed = Federation::new().attach_module(Wallet::new()).attach_module(Mint::new());
    match fed.process_input(Enum::Payload(())) {
        Err(Enum::Payload(e)) => assert_eq!(e.to_string(), "not implemented"),
        _ => panic!("the first position is not the module attached last"),
    }
    match fed.process_input(Enum::Next(Enum::Payload(()))) {
        Err(Enum::Next(Enum::Payload(e))) => assert_eq!(e.to_string(), "FOOOOOO"),
        _ => panic!("the second position is not the module attached first"),
    }
}

#[test]
fn a_single_module_federation() {
    let mut fed = Federation::new().attach_module(Mint::new());
    assert!(matches!(fed.process_output(Enum::Payload(()), out_point()), Ok(0)));
    assert!(matches!(fed.process_input(Enum::Payload(())), Err(Enum::Payload(_))));
}

#[test]
fn validation_agrees_with_application() {
    assert!(matches!(Mint::new().validate_output(&()), Ok(0)));
    assert!(matches!(Wallet::new().validate_output(&()), Ok(0)));
    match Mint::new().validate_input(&()) {
        Err(e) => assert_eq!(e.to_string(), "not implemented"),
        Ok(_) => panic!("the mint validated an input"),
    }
    match Wallet::new().validate_input(&()) {
        Err(e) => assert_eq!(e.to_string(), "FOOOOOO"),
        Ok(_) => panic!("the wallet validated an input"),
    }
}

#[test]
fn an_applied_output_is_known_and_others_are_not() {
    let applied = out_point();
    let other = OutPoint { txid: [0; 32], out_idx: 1 };
    let mut mint = Mint::new();
    assert!(mint.output_status(applied).is_none());
    assert!(matches!(mint.apply_output(&(), applied), Ok(0)));
    assert!(mint.output_status(applied).is_some());
    assert!(mint.output_status(other).is_none());

    let mut wallet = Wallet::new();
    let mut txid = [0u8; 32];
    txid[31] = 7;
    let far = OutPoint { txid, out_idx: 0 };
    assert!(matches!(wallet.apply_output(&(), far), Ok(0)));
    assert!(wallet.output_status(far).is_some());
    assert!(wallet.output_status(applied).is_none());
}

#[test]
fn the_federation_records_outputs_in_the_module_that_applied_them() {
    let mut fed = Federation::new().attach_module(Mint::new()).attach_module(Wallet::new());
    assert!(matches!(fed.process_output(Enum::Next(Enum::Payload(())), out_point()), Ok(0)));
    let mut modules = hlist::Cons(Wallet::new(), hlist::Cons(Mint::new(), hlist::Nil));
    let out = Process::<TxOutput, _>::process(&mut modules, Enum::Next(Enum::Payload(())), out_point());
    assert!(matches!(out, Enum::Next(Enum::Payload(Ok(0)))));
    assert!(modules.1 .0.output_status(out_point()).is_some());
    assert!(modules.0.output_status(out_point()).is_none());
}

#[test]
fn out_points_compare_by_id_and_index() {
    let a = out_point();
    let mut txid = [0u8; 32];
    txid[3] = 1;
    assert!(a == out_point());
    assert!(a != OutPoint { txid, out_idx: 0 });
    assert!(a != OutPoint { txid: [0; 32], out_idx: 2 });
}

#[test]
fn modules_audit_nothing_and_name_their_api() {
    let mut audit = String::from("before");
    Mint::new().audit(&mut audit);
    Wallet::new().audit(&mut audit);
    assert_eq!(audit, "before");
    assert_eq!(Mint::new().api_base_name(), "mint");
    assert_eq!(Wallet::new().api_base_name(), "wallet");
    assert!(Mint::new().api_endpoints().is_empty());
    assert!(Wallet::new().api_endpoints().is_empty());
}
