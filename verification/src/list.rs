use vstd::prelude::*;

verus! {

/// `hlist::Nil`, the empty list of modules: a unit struct, declared as the crate's source
/// defines it, so that a federation can be built with it.
#[verifier::external_type_specification]
pub struct ExNil(hlist::Nil);

/// `hlist::Cons<H, T>`, declared with its two public fields `(pub H, pub T)`, as the crate's
/// source defines them, so that the modules of a federation can be read one by one.
#[verifier::external_type_specification]
#[verifier::reject_recursive_types(H)]
#[verifier::reject_recursive_types(T)]
pub struct ExCons<H, T>(hlist::Cons<H, T>);

} // verus!
