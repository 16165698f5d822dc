use vstd::prelude::*;

use crate::module::{FederationModule, InputMeta, OutPoint};

verus! {

/// The mint module. It refuses every input, accepts every output with the amount 0, and
/// remembers the out-points of the outputs it applied. It holds no assets and serves its API,
/// which has no custom endpoints, under the name `mint`.
pub struct Mint {
    applied: Vec<OutPoint>,
}

impl Mint {
    /// The out-points of the outputs this module applied, in the order it applied them.
    pub closed spec fn applied(self) -> Seq<OutPoint> {
        self.applied@
    }

    /// The module before it has applied any output.
    pub fn new() -> (m: Mint)
        ensures
            m.applied() == Seq::<OutPoint>::empty(),
    {
        Mint { applied: Vec::new() }
    }
}

/// An error of the mint module, carrying its message.
#[derive(Debug)]
pub struct MintError(String);

impl View for MintError {
    type V = Seq<char>;

    /// The error's message.
    closed spec fn view(&self) -> Seq<char> {
        self.0@
    }
}

impl MintError {
    /// The error with the message `message`.
    pub fn new(message: String) -> (e: MintError)
        ensures
            e@ == message@,
    {
        MintError(message)
    }

    /// The error's message, as the error displays itself.
    pub fn to_string(&self) -> (s: String)
        ensures
            s@ == self@,
    {
        self.0.clone()
    }
}

impl FederationModule for Mint {
    type Error = MintError;
    type TxInput = ();
    type TxOutput = ();
    type TxOutputOutcome = ();
    type ConsensusItem = ();

    /// Every input may be validated, and validating it refuses it as applying it does.
    open spec fn can_validate_input(&self, input: ()) -> bool {
        true
    }

    open spec fn validate_input_ensures(&self, input: (), r: Result<InputMeta, MintError>) -> bool {
        self.apply_input_ensures(input, r)
    }

    /// Every input is accepted, and refused.
    open spec fn can_apply_input(&self, input: ()) -> bool {
        true
    }

    open spec fn apply_input_ensures(&self, input: (), r: Result<InputMeta, MintError>) -> bool {
        match r {
            Err(e) => e@ == "not implemented"@,
            Ok(_) => false,
        }
    }

    /// Every output may be validated, and validating it accepts it with the amount that
    /// applying it gives.
    open spec fn can_validate_output(&self, output: ()) -> bool {
        true
    }

    open spec fn validate_output_ensures(&self, output: (), r: Result<u64, MintError>) -> bool {
        r == Ok::<u64, MintError>(0)
    }

    /// Every output is accepted, applied with the amount 0, and its out-point remembered.
    open spec fn can_apply_output(&self, output: (), out_point: OutPoint) -> bool {
        true
    }

    open spec fn apply_output_ensures(
        &self,
        output: (),
        out_point: OutPoint,
        r: Result<u64, MintError>,
        after: Mint,
    ) -> bool {
        &&& r == Ok::<u64, MintError>(0)
        &&& after.applied() == self.applied().push(out_point)
    }

    /// An output is known exactly when this module applied it.
    open spec fn can_output_status(&self, out_point: OutPoint) -> bool {
        true
    }

    open spec fn output_status_ensures(&self, out_point: OutPoint, r: Option<()>) -> bool {
        r is Some <==> self.applied().contains(out_point)
    }

    /// The module holds no assets and no liabilities, and adds nothing to the audit.
    open spec fn can_audit(&self, audit: Seq<char>) -> bool {
        true
    }

    open spec fn audit_ensures(&self, before: Seq<char>, after: Seq<char>) -> bool {
        after == before
    }

    open spec fn can_api_base_name(&self) -> bool {
        true
    }

    open spec fn api_base_name_ensures(&self, name: Seq<char>) -> bool {
        name == "mint"@
    }

    open spec fn can_api_endpoints(&self) -> bool {
        true
    }

    open spec fn api_endpoints_ensures(&self, endpoints: Seq<Seq<char>>) -> bool {
        endpoints.len() == 0
    }

    fn validate_input(&self, _input: &()) -> Result<InputMeta, MintError> {
        Err(MintError("not implemented".to_owned()))
    }

    fn apply_input(&self, _input: &()) -> Result<InputMeta, MintError> {
        Err(MintError("not implemented".to_owned()))
    }

    fn validate_output(&self, _output: &()) -> Result<u64, MintError> {
        Ok(0)
    }

    fn apply_output<'a>(&'a mut self, _output: &'a (), out_point: OutPoint) -> Result<u64, MintError> {
        self.applied.push(out_point);
        Ok(0)
    }

    fn output_status(&self, out_point: OutPoint) -> Option<()> {
        let n = self.applied.len();
        let mut i: usize = 0;
        while i < n
            invariant
                n == self.applied@.len(),
                0 <= i <= n,
                forall|j: int| 0 <= j < i ==> self.applied@[j] != out_point,
            decreases n - i,
        {
            if self.applied[i] == out_point {
                return Some(());
            }
            i = i + 1;
        }
        None
    }

    fn audit(&self, _audit: &mut String) {
    }

    fn api_base_name(&self) -> &'static str {
        "mint"
    }

    fn api_endpoints(&self) -> &'static [&'static str] {
        &[]
    }
}

/// An output that the mint module applied is known to it afterwards: its status is `Some`.
pub proof fn lemma_applied_output_is_known(
    before: Mint,
    out_point: OutPoint,
    r: Result<u64, MintError>,
    after: Mint,
    status: Option<()>,
)
    requires
        before.apply_output_ensures((), out_point, r, after),
        after.output_status_ensures(out_point, status),
    ensures
        status is Some,
{
    assert(after.applied()[after.applied().len() - 1] == out_point);
}

/// Applying an output keeps every output known that was known before: the mint module
/// forgets no status.
pub proof fn lemma_known_output_stays_known(
    before: Mint,
    out_point: OutPoint,
    r: Result<u64, MintError>,
    after: Mint,
    known: OutPoint,
)
    requires
        before.apply_output_ensures((), out_point, r, after),
        before.applied().contains(known),
    ensures
        after.applied().contains(known),
{
    let j = choose|j: int| 0 <= j < before.applied().len() && before.applied()[j] == known;
    assert(after.applied()[j] == known);
}

/// The mint module applies every output, in every state and at every out-point, with the
/// amount 0.
pub proof fn lemma_output_applied_with_zero(
    before: Mint,
    out_point: OutPoint,
    r: Result<u64, MintError>,
    after: Mint,
)
    requires
        before.apply_output_ensures((), out_point, r, after),
    ensures
        r matches Ok(amount) && amount == 0,
{
}

/// Validating an output agrees with applying it, in every state and at every out-point: both
/// accept it with the amount 0.
pub proof fn lemma_validated_output_as_applied(
    module: Mint,
    v: Result<u64, MintError>,
    out_point: OutPoint,
    r: Result<u64, MintError>,
    after: Mint,
)
    requires
        module.validate_output_ensures((), v),
        module.apply_output_ensures((), out_point, r, after),
    ensures
        v matches Ok(amount) && amount == 0,
        v == r,
{
}

/// The mint module refuses every input, in every state, with the message "not implemented"; validating
/// an input refuses it in the same way.
pub proof fn lemma_input_refused(module: Mint, r: Result<InputMeta, MintError>, v: Result<InputMeta, MintError>)
    requires
        module.apply_input_ensures((), r),
        module.validate_input_ensures((), v),
    ensures
        r matches Err(e) && e@ == "not implemented"@,
        v matches Err(e) && e@ == "not implemented"@,
{
}

/// A module that has applied no output knows no out-point.
pub proof fn lemma_fresh_module_knows_nothing(module: Mint, out_point: OutPoint, status: Option<()>)
    requires
        module.applied() == Seq::<OutPoint>::empty(),
        module.output_status_ensures(out_point, status),
    ensures
        status is None,
{
}

/// Applying an output at `applied` makes exactly that out-point known besides those known
/// before: every other out-point keeps its status, known or unknown.
pub proof fn lemma_status_after_apply(
    before: Mint,
    applied: OutPoint,
    r: Result<u64, MintError>,
    after: Mint,
    asked: OutPoint,
    status_before: Option<()>,
    status_after: Option<()>,
)
    requires
        before.apply_output_ensures((), applied, r, after),
        before.output_status_ensures(asked, status_before),
        after.output_status_ensures(asked, status_after),
    ensures
        status_after is Some <==> (status_before is Some || asked == applied),
{
    if asked == applied {
        assert(after.applied()[after.applied().len() - 1] == asked);
    }
    if status_before is Some {
        let j = choose|j: int| 0 <= j < before.applied().len() && before.applied()[j] == asked;
        assert(after.applied()[j] == asked);
    }
    if status_after is Some && asked != applied {
        let j = choose|j: int| 0 <= j < after.applied().len() && after.applied()[j] == asked;
        assert(j < before.applied().len());
        assert(before.applied()[j] == asked);
    }
}

/// Of two outputs applied one after the other, both are known afterwards, the earlier as well
/// as the later; an out-point applied by neither, starting from a module that had applied none,
/// stays unknown.
pub proof fn lemma_two_applied_outputs_known(
    m0: Mint,
    first: OutPoint,
    r1: Result<u64, MintError>,
    m1: Mint,
    second: OutPoint,
    r2: Result<u64, MintError>,
    m2: Mint,
    asked: OutPoint,
    status: Option<()>,
)
    requires
        m0.apply_output_ensures((), first, r1, m1),
        m1.apply_output_ensures((), second, r2, m2),
        m2.output_status_ensures(asked, status),
    ensures
        asked == first || asked == second ==> status is Some,
        m0.applied() == Seq::<OutPoint>::empty() && asked != first && asked != second ==> status
            is None,
{
    assert(m2.applied()[m2.applied().len() - 1] == second);
    assert(m2.applied()[m1.applied().len() - 1] == first);
    if m0.applied() == Seq::<OutPoint>::empty() && asked != first && asked != second {
        assert(m2.applied() =~= seq![first, second]);
    }
}

/// The mint module adds nothing to an audit, and serves its API under the name "mint" with no
/// custom endpoints, in every state.
pub proof fn lemma_audit_and_api(
    module: Mint,
    before: Seq<char>,
    after: Seq<char>,
    name: Seq<char>,
    endpoints: Seq<Seq<char>>,
)
    requires
        module.audit_ensures(before, after),
        module.api_base_name_ensures(name),
        module.api_endpoints_ensures(endpoints),
    ensures
        after == before,
        name == "mint"@,
        endpoints.len() == 0,
{
}

} // verus!
