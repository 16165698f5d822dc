use vstd::prelude::*;
use vstd::std_specs::cmp::PartialEqSpec;

verus! {

pub type PeerId = u16;

/// What spending a transaction input yields: its amount and the keys that must sign for it.
#[derive(Debug)]
pub struct InputMeta {
    pub amount: u64,
    pub puk_keys: Vec<String>,
}

/// Identifies a transaction output: the transaction's id and the output's index in it.
#[derive(Debug, Clone, Copy, Eq, Hash)]
pub struct OutPoint {
    pub txid: [u8; 32],
    pub out_idx: u64,
}

/// Two out-points are equal when their transaction ids and their indices are.
impl PartialEq for OutPoint {
    fn eq(&self, other: &OutPoint) -> (r: bool) {
        if self.out_idx != other.out_idx {
            return false;
        }
        let mut i: usize = 0;
        while i < 32
            invariant
                0 <= i <= 32,
                forall|j: int| 0 <= j < i ==> self.txid[j] == other.txid[j],
            decreases 32 - i,
        {
            if self.txid[i] != other.txid[i] {
                return false;
            }
            i = i + 1;
        }
        assert(self.txid =~= other.txid);
        true
    }
}

impl vstd::std_specs::cmp::PartialEqSpecImpl for OutPoint {
    open spec fn obeys_eq_spec() -> bool {
        true
    }

    open spec fn eq_spec(&self, other: &OutPoint) -> bool {
        *self == *other
    }
}

/// A module of a federation: how it validates and applies the inputs and outputs of
/// transactions, reports on outputs, audits itself and names its API.
///
/// Each operation comes with a `can_*` predicate, the inputs on which the module's
/// implementation of it returns normally, and an `*_ensures` relation between its arguments and
/// what it returns. Applying an output records it in the module, so `apply_output` takes the
/// module mutably, and its relation speaks of the module after the call too.
pub trait FederationModule: Sized {
    type Error;
    type TxInput: Send + Sync;
    type TxOutput;
    type TxOutputOutcome;
    type ConsensusItem;

    spec fn can_validate_input(&self, input: Self::TxInput) -> bool;

    spec fn validate_input_ensures(
        &self,
        input: Self::TxInput,
        r: Result<InputMeta, Self::Error>,
    ) -> bool;

    spec fn can_apply_input(&self, input: Self::TxInput) -> bool;

    spec fn apply_input_ensures(&self, input: Self::TxInput, r: Result<InputMeta, Self::Error>) -> bool;

    spec fn can_validate_output(&self, output: Self::TxOutput) -> bool;

    spec fn validate_output_ensures(&self, output: Self::TxOutput, r: Result<u64, Self::Error>) -> bool;

    spec fn can_apply_output(&self, output: Self::TxOutput, out_point: OutPoint) -> bool;

    /// `after` is the module once `output` has been applied at `out_point` with the result `r`.
    spec fn apply_output_ensures(
        &self,
        output: Self::TxOutput,
        out_point: OutPoint,
        r: Result<u64, Self::Error>,
        after: Self,
    ) -> bool;

    spec fn can_output_status(&self, out_point: OutPoint) -> bool;

    spec fn output_status_ensures(&self, out_point: OutPoint, r: Option<Self::TxOutputOutcome>) -> bool;

    spec fn can_audit(&self, audit: Seq<char>) -> bool;

    /// `after` is the audit text once the module has added its assets and liabilities to `before`.
    spec fn audit_ensures(&self, before: Seq<char>, after: Seq<char>) -> bool;

    spec fn can_api_base_name(&self) -> bool;

    spec fn api_base_name_ensures(&self, name: Seq<char>) -> bool;

    spec fn can_api_endpoints(&self) -> bool;

    spec fn api_endpoints_ensures(&self, endpoints: Seq<Seq<char>>) -> bool;

    /// Validate a transaction input before submitting it to the unconfirmed transaction pool. This
    /// function has no side effects and may be called at any time. False positives due to outdated
    /// database state are ok since they get filtered out after consensus has been reached on them
    /// and merely generate a warning.
    fn validate_input(&self, input: &Self::TxInput) -> (r: Result<InputMeta, Self::Error>)
        requires
            self.can_validate_input(*input),
        ensures
            self.validate_input_ensures(*input, r),
    ;

    /// Try to spend a transaction input. On success all necessary updates will be part of the
    /// database `batch`. On failure (e.g. double spend) the batch is reset and the operation will
    /// take no effect.
    ///
    /// This function may only be called after `begin_consensus_epoch` and before
    /// `end_consensus_epoch`. Data is only written to the database once all transaction have been
    /// processed.
    fn apply_input(&self, input: &Self::TxInput) -> (r: Result<InputMeta, Self::Error>)
        requires
            self.can_apply_input(*input),
        ensures
            self.apply_input_ensures(*input, r),
    ;

    /// Validate a transaction output before submitting it to the unconfirmed transaction pool. This
    /// function has no side effects and may be called at any time. False positives due to outdated
    /// database state are ok since they get filtered out after consensus has been reached on them
    /// and merely generate a warning.
    fn validate_output(&self, output: &Self::TxOutput) -> (r: Result<u64, Self::Error>)
        requires
            self.can_validate_output(*output),
        ensures
            self.validate_output_ensures(*output, r),
    ;

    /// Try to create an output (e.g. issue coins, peg-out BTC, …). On success all necessary updates
    /// to the database will be part of the `batch`. On failure (e.g. double spend) the batch is
    /// reset and the operation will take no effect.
    ///
    /// The supplied `out_point` identifies the operation (e.g. a peg-out or coin issuance) and can
    /// be used to retrieve its outcome later using `output_status`.
    ///
    /// This function may only be called after `begin_consensus_epoch` and before
    /// `end_consensus_epoch`. Data is only written to the database once all transactions have been
    /// processed.
    fn apply_output<'a>(&'a mut self, output: &'a Self::TxOutput, out_point: OutPoint) -> (r:
        Result<u64, Self::Error>)
        requires
            old(self).can_apply_output(*output, out_point),
        ensures
            old(self).apply_output_ensures(*output, out_point, r, *final(self)),
    ;

    /// Retrieve the current status of the output. Depending on the module this might contain data
    /// needed by the client to access funds or give an estimate of when funds will be available.
    /// Returns `None` if the output is unknown, **NOT** if it is just not ready yet.
    fn output_status(&self, out_point: OutPoint) -> (r: Option<Self::TxOutputOutcome>)
        requires
            self.can_output_status(out_point),
        ensures
            self.output_status_ensures(out_point, r),
    ;

    /// Queries the database and returns all assets and liabilities of the module.
    ///
    /// Summing over all modules, if liabilities > assets then an error has occurred in the database
    /// and consensus should halt.
    fn audit(&self, audit: &mut String)
        requires
            self.can_audit(old(audit)@),
        ensures
            self.audit_ensures(old(audit)@, final(audit)@),
    ;

    /// Defines the prefix for API endpoints defined by the module.
    ///
    /// E.g. if the module's base path is `foo` and it defines API endpoints `bar` and `baz` then
    /// these endpoints will be reachable under `/foo/bar` and `/foo/baz`.
    fn api_base_name(&self) -> (name: &'static str)
        requires
            self.can_api_base_name(),
        ensures
            self.api_base_name_ensures(name@),
    ;

    /// Returns a list of custom API endpoints defined by the module. These are made available both
    /// to users as well as to other modules. They thus should be deterministic, only dependant on
    /// their input and the current epoch.
    fn api_endpoints(&self) -> (endpoints: &'static [&'static str])
        requires
            self.can_api_endpoints(),
        ensures
            self.api_endpoints_ensures(endpoints@.map_values(|e: &'static str| e@)),
    ;
}

/// Two out-points are equal, by `==`, exactly when their transaction ids agree byte by byte and
/// their indices agree; in particular every out-point equals itself.
pub proof fn lemma_out_point_eq(a: OutPoint, b: OutPoint)
    ensures
        a.eq_spec(&b) <==> ((forall|j: int| 0 <= j < 32 ==> a.txid[j] == b.txid[j]) && a.out_idx
            == b.out_idx),
        a.eq_spec(&a),
{
    if (forall|j: int| 0 <= j < 32 ==> a.txid[j] == b.txid[j]) && a.out_idx == b.out_idx {
        assert(a.txid =~= b.txid);
    }
}

} // verus!
