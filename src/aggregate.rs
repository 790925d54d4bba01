use vstd::prelude::*;
use crate::error::ServiceError;
use crate::identity::RecordId;
use crate::records::{CreateCustomer, CreateCustomerWithDependents, Customer, Dependents};
use crate::store::{StoreState, Tables};

verus! {

/// Where a write of a customer with its dependents stands: the statement
/// to run next, or how the write ended.
#[derive(Clone, Copy, Debug)]
pub enum Step {
    /// Open a unit of work.
    Begin,
    /// Insert the customer row.
    InsertCustomer,
    /// Insert the dependent row at this position.
    InsertDependent(usize),
    /// Commit the unit of work.
    Commit,
    /// Discard the unit of work.
    Rollback,
    /// Committed; the new customer's identifier.
    Succeeded(RecordId),
    /// Nothing of the write was kept.
    Failed,
}

impl Step {
    pub open spec fn is_finished(self) -> bool {
        self is Succeeded || self is Failed
    }
}

/// The step that follows `step` once its statement has run, successfully
/// or not, for a write of `count` dependents and the customer `id`.
pub open spec fn next_step(step: Step, count: nat, id: RecordId, ok: bool) -> Step {
    match step {
        Step::Begin => if ok { Step::InsertCustomer } else { Step::Failed },
        Step::InsertCustomer => if !ok {
            Step::Rollback
        } else if count == 0 {
            Step::Commit
        } else {
            Step::InsertDependent(0)
        },
        Step::InsertDependent(i) => if !ok {
            Step::Rollback
        } else if i + 1 >= count {
            Step::Commit
        } else {
            Step::InsertDependent((i + 1) as usize)
        },
        Step::Commit => if ok { Step::Succeeded(id) } else { Step::Failed },
        Step::Rollback => Step::Failed,
        Step::Succeeded(_) => step,
        Step::Failed => step,
    }
}

/// The records a write persists and the step it is at.
pub struct WriteView {
    pub customer: Customer,
    pub dependents: Seq<Dependents>,
    pub step: Step,
}

impl WriteView {
    /// Every dependent refers to the customer.
    pub open spec fn refers_to_customer(self) -> bool {
        forall|i: int| 0 <= i < self.dependents.len() ==> #[trigger] self.dependents[i].customer_id == self.customer.id
    }

    pub open spec fn step_in_range(self) -> bool {
        &&& self.dependents.len() <= usize::MAX
        &&& self.step is InsertDependent ==> self.step->InsertDependent_0 < self.dependents.len()
    }

    /// Everything the write adds when it commits.
    pub open spec fn all_rows(self) -> Tables {
        Tables { customers: seq![self.customer], dependents: self.dependents }
    }
}

/// What the store holds after the statement of `step` ran with outcome `ok`,
/// for the write `w`. A failed statement changes nothing; a commit that
/// fails, and any rollback, discard the open unit of work.
pub open spec fn apply_step(w: WriteView, step: Step, s: StoreState, ok: bool) -> StoreState {
    match step {
        Step::Begin => if ok { StoreState { committed: s.committed, pending: Some(Tables::empty()) } } else { s },
        Step::InsertCustomer => if ok && s.pending is Some {
            StoreState { committed: s.committed, pending: Some(s.pending->Some_0.with_customer(w.customer)) }
        } else {
            s
        },
        Step::InsertDependent(i) => if ok && s.pending is Some {
            StoreState {
                committed: s.committed,
                pending: Some(s.pending->Some_0.with_dependent(w.dependents[i as int])),
            }
        } else {
            s
        },
        Step::Commit => if ok && s.pending is Some {
            StoreState { committed: s.committed.append(s.pending->Some_0), pending: None }
        } else {
            StoreState { committed: s.committed, pending: None }
        },
        Step::Rollback => StoreState { committed: s.committed, pending: None },
        Step::Succeeded(_) => s,
        Step::Failed => s,
    }
}

/// Runs the write `w` from `step` against the store `s`, taking the outcome
/// of each statement from `outcomes` in turn, until it finishes or the
/// outcomes run out; the final step and store.
pub open spec fn run(w: WriteView, step: Step, s: StoreState, outcomes: Seq<bool>) -> (Step, StoreState)
    decreases outcomes.len(),
{
    if outcomes.len() == 0 || step.is_finished() {
        (step, s)
    } else {
        run(
            w,
            next_step(step, w.dependents.len(), w.customer.id, outcomes[0]),
            apply_step(w, step, s, outcomes[0]),
            outcomes.drop_first(),
        )
    }
}

/// The number of statements still to run from `step` when all succeed.
pub open spec fn statements_left(w: WriteView, step: Step) -> nat {
    match step {
        Step::Begin => w.dependents.len() + 3,
        Step::InsertCustomer => w.dependents.len() + 2,
        Step::InsertDependent(i) => (w.dependents.len() - i + 1) as nat,
        Step::Commit => 1,
        Step::Rollback => 1,
        Step::Succeeded(_) => 0,
        Step::Failed => 0,
    }
}

/// The rows the open unit of work holds when the write stands at `step`.
pub open spec fn pending_at(w: WriteView, step: Step, pending: Option<Tables>) -> bool {
    match step {
        Step::Begin => pending is None,
        Step::InsertCustomer => pending == Some(Tables::empty()),
        Step::InsertDependent(i) => pending == Some(
            Tables { customers: seq![w.customer], dependents: w.dependents.take(i as int) },
        ),
        Step::Commit => pending == Some(w.all_rows()),
        Step::Rollback => true,
        Step::Succeeded(_) => false,
        Step::Failed => false,
    }
}

pub open spec fn all_succeed(outcomes: Seq<bool>, n: nat) -> bool {
    forall|j: int| 0 <= j < n ==> #[trigger] outcomes[j]
}

proof fn lemma_run_from(w: WriteView, step: Step, s: StoreState, outcomes: Seq<bool>)
    requires
        (WriteView { step, ..w }).step_in_range(),
        pending_at(w, step, s.pending),
        outcomes.len() >= statements_left(w, step),
    ensures
        run(w, step, s, outcomes).1.pending is None,
        !(step is Rollback) && all_succeed(outcomes, statements_left(w, step)) ==> {
            &&& run(w, step, s, outcomes).0 == Step::Succeeded(w.customer.id)
            &&& run(w, step, s, outcomes).1.committed == s.committed.append(w.all_rows())
        },
        !(!(step is Rollback) && all_succeed(outcomes, statements_left(w, step))) ==> {
            &&& run(w, step, s, outcomes).0 == Step::Failed
            &&& run(w, step, s, outcomes).1.committed == s.committed
        },
    decreases outcomes.len(),
{
    let n = w.dependents.len();
    let ok = outcomes[0];
    let next = next_step(step, n, w.customer.id, ok);
    let s2 = apply_step(w, step, s, ok);
    let rest = outcomes.drop_first();
    assert(run(w, step, s, outcomes) == run(w, next, s2, rest));
    if all_succeed(outcomes, statements_left(w, step)) {
        assert(ok);
    }
    if next.is_finished() {
        assert(run(w, next, s2, rest) == (next, s2));
        if step is Commit && ok {
            assert(s2.committed == s.committed.append(w.all_rows()));
        }
    } else {
        match step {
            Step::InsertCustomer => {
                if ok && n == 0 {
                    assert(w.dependents =~= Seq::<Dependents>::empty());
                    assert(Tables::empty().with_customer(w.customer) == w.all_rows());
                } else if ok {
                    assert(Tables::empty().with_customer(w.customer).dependents =~= w.dependents.take(0));
                }
                assert(Seq::<Customer>::empty().push(w.customer) =~= seq![w.customer]);
            },
            Step::InsertDependent(i) => {
                if ok {
                    let p = s.pending->Some_0.with_dependent(w.dependents[i as int]);
                    assert(p.dependents =~= w.dependents.take(i + 1));
                    if i + 1 >= n {
                        assert(w.dependents.take(i + 1) =~= w.dependents);
                        assert(p == w.all_rows());
                    } else {
                        assert(p == Tables { customers: seq![w.customer], dependents: w.dependents.take(i + 1) });
                    }
                }
            },
            _ => {},
        }
        lemma_run_from(w, next, s2, rest);
        if !(step is Rollback) && ok && all_succeed(rest, statements_left(w, next)) {
            assert forall|j: int| 0 <= j < statements_left(w, step) implies #[trigger] outcomes[j] by {
                if j > 0 {
                    assert(outcomes[j] == rest[j - 1]);
                }
            }
        }
        if all_succeed(outcomes, statements_left(w, step)) && !(step is Rollback) {
            assert(statements_left(w, next) + 1 == statements_left(w, step));
            assert forall|j: int| 0 <= j < statements_left(w, next) implies #[trigger] rest[j] by {
                assert(rest[j] == outcomes[j + 1]);
            }
        }
        assert(s2.committed == s.committed);
    }
}

/// A customer and its dependents, materialised and on their way into the
/// store as one unit of work.
pub struct AggregateWrite {
    customer: Customer,
    dependents: Vec<Dependents>,
    step: Step,
}

impl View for AggregateWrite {
    type V = WriteView;

    closed spec fn view(&self) -> WriteView {
        WriteView { customer: self.customer, dependents: self.dependents@, step: self.step }
    }
}

impl AggregateWrite {
    pub open spec fn wf(&self) -> bool {
        self@.step_in_range()
    }

    /// Materialises the payload: an inactive customer, and for each
    /// dependent, in order, an inactive record that refers to that customer.
    /// The write stands at its first statement.
    pub fn new(payload: CreateCustomerWithDependents) -> (r: AggregateWrite)
        ensures
            r.wf(),
            r@.step is Begin,
            r@.customer.has_fields(payload.customer_fields()),
            !r@.customer.is_active,
            r@.customer.is_fresh(),
            r@.refers_to_customer(),
            r@.dependents.len() == payload.dependents@.len(),
            forall|i: int|
                0 <= i < r@.dependents.len() ==> {
                    &&& (#[trigger] r@.dependents[i]).has_fields(payload.dependents@[i])
                    &&& !r@.dependents[i].is_active
                    &&& r@.dependents[i].is_fresh()
                },
    {
        let CreateCustomerWithDependents {
            first_name,
            last_name,
            aadhar_number,
            date_of_birth,
            gender,
            address,
            dependents: payloads,
        } = payload;
        let fields = CreateCustomer { first_name, last_name, aadhar_number, date_of_birth, gender, address };
        let customer = Customer::new(fields, false);
        let mut dependents: Vec<Dependents> = Vec::new();
        let mut i: usize = 0;
        while i < payloads.len()
            invariant
                i <= payloads@.len(),
                dependents@.len() == i,
                forall|j: int|
                    0 <= j < i ==> {
                        &&& (#[trigger] dependents@[j]).has_fields(payloads@[j])
                        &&& dependents@[j].customer_id == customer.id
                        &&& !dependents@[j].is_active
                        &&& dependents@[j].is_fresh()
                    },
            decreases payloads@.len() - i,
        {
            let d = Dependents::new(&payloads[i], customer.id);
            dependents.push(d);
            i = i + 1;
        }
        AggregateWrite { customer, dependents, step: Step::Begin }
    }

    /// The statement to run next, or how the write ended.
    pub fn step(&self) -> (r: Step)
        ensures
            r == self@.step,
    {
        self.step
    }

    /// The customer record the write inserts.
    pub fn customer(&self) -> (r: &Customer)
        ensures
            *r == self@.customer,
    {
        &self.customer
    }

    /// How many dependent records the write inserts.
    pub fn dependent_count(&self) -> (r: usize)
        ensures
            r == self@.dependents.len(),
    {
        self.dependents.len()
    }

    /// The dependent record at position `i`.
    pub fn dependent(&self, i: usize) -> (r: &Dependents)
        requires
            i < self@.dependents.len(),
        ensures
            *r == self@.dependents[i as int],
    {
        &self.dependents[i]
    }

    /// Records the outcome of the statement of the current step and moves to
    /// the next: after a failed insert the unit of work is discarded, and
    /// the write succeeds only once the commit has.
    pub fn advance(&mut self, succeeded: bool)
        requires
            old(self).wf(),
            !old(self)@.step.is_finished(),
        ensures
            final(self).wf(),
            final(self)@ == (WriteView {
                step: next_step(old(self)@.step, old(self)@.dependents.len(), old(self)@.customer.id, succeeded),
                ..old(self)@
            }),
    {
        let count = self.dependents.len();
        let next = match self.step {
            Step::Begin => if succeeded { Step::InsertCustomer } else { Step::Failed },
            Step::InsertCustomer => if !succeeded {
                Step::Rollback
            } else if count == 0 {
                Step::Commit
            } else {
                Step::InsertDependent(0)
            },
            Step::InsertDependent(i) => if !succeeded {
                Step::Rollback
            } else if i + 1 >= count {
                Step::Commit
            } else {
                Step::InsertDependent(i + 1)
            },
            Step::Commit => if succeeded { Step::Succeeded(self.customer.id) } else { Step::Failed },
            Step::Rollback => Step::Failed,
            Step::Succeeded(id) => Step::Succeeded(id),
            Step::Failed => Step::Failed,
        };
        self.step = next;
    }

    /// How the write ended, once it has: the new customer's identifier, or
    /// a store failure.
    pub fn outcome(&self) -> (r: Option<Result<RecordId, ServiceError>>)
        ensures
            r is None <==> !self@.step.is_finished(),
            self@.step is Succeeded ==> r == Some(Ok::<RecordId, ServiceError>(self@.step->Succeeded_0)),
            self@.step is Failed ==> r == Some(Err::<RecordId, ServiceError>(ServiceError::StoreFailure)),
    {
        match self.step {
            Step::Succeeded(id) => Some(Ok(id)),
            Step::Failed => Some(Err(ServiceError::StoreFailure)),
            _ => None,
        }
    }
}

/// When every statement of a write succeeds, it ends with the customer's
/// identifier, the unit of work is closed, and the committed rows gain
/// exactly the customer and, in order, all its dependents, each of which
/// refers to that customer.
pub proof fn lemma_complete_write(w: WriteView, s: StoreState, outcomes: Seq<bool>)
    requires
        w.step is Begin,
        w.step_in_range(),
        w.refers_to_customer(),
        s.pending is None,
        outcomes.len() >= w.dependents.len() + 3,
        forall|j: int| 0 <= j < w.dependents.len() + 3 ==> #[trigger] outcomes[j],
    ensures
        run(w, w.step, s, outcomes).0 == Step::Succeeded(w.customer.id),
        run(w, w.step, s, outcomes).1.pending is None,
        run(w, w.step, s, outcomes).1.committed.customers == s.committed.customers.push(w.customer),
        run(w, w.step, s, outcomes).1.committed.dependents == s.committed.dependents + w.dependents,
        forall|i: int|
            s.committed.dependents.len() <= i < run(w, w.step, s, outcomes).1.committed.dependents.len()
                ==> (#[trigger] run(w, w.step, s, outcomes).1.committed.dependents[i]).customer_id == w.customer.id,
{
    lemma_run_from(w, w.step, s, outcomes);
    assert(all_succeed(outcomes, statements_left(w, w.step)));
    let t = run(w, w.step, s, outcomes).1;
    assert(t.committed.customers =~= s.committed.customers.push(w.customer));
    assert forall|i: int| s.committed.dependents.len() <= i < t.committed.dependents.len()
        implies (#[trigger] t.committed.dependents[i]).customer_id == w.customer.id by {
        assert(t.committed.dependents[i] == w.dependents[i - s.committed.dependents.len()]);
    }
}

/// When any statement of a write fails, whichever it is, the write ends in
/// failure, the unit of work is closed, and the committed rows are those
/// there were before: no customer and no dependent of the write is kept.
pub proof fn lemma_failed_write_keeps_nothing(w: WriteView, s: StoreState, outcomes: Seq<bool>, k: int)
    requires
        w.step is Begin,
        w.step_in_range(),
        s.pending is None,
        outcomes.len() >= w.dependents.len() + 3,
        0 <= k < w.dependents.len() + 3,
        !outcomes[k],
    ensures
        run(w, w.step, s, outcomes).0 == Step::Failed,
        run(w, w.step, s, outcomes).1.pending is None,
        run(w, w.step, s, outcomes).1.committed == s.committed,
{
    lemma_run_from(w, w.step, s, outcomes);
}

} // verus!
