use vstd::prelude::*;
use crate::identity::{RecordId, Timestamp};
use crate::records::{CreateCustomer, Customer, Dependents};

verus! {

/// The rows of the two tables, in the order they were written.
pub struct Tables {
    pub customers: Seq<Customer>,
    pub dependents: Seq<Dependents>,
}

/// The store as seen by one connection: the rows that are committed, and
/// the rows written so far by the open unit of work, if one is open.
pub struct StoreState {
    pub committed: Tables,
    pub pending: Option<Tables>,
}

impl Tables {
    pub open spec fn empty() -> Tables {
        Tables { customers: Seq::empty(), dependents: Seq::empty() }
    }

    pub open spec fn with_customer(self, c: Customer) -> Tables {
        Tables { customers: self.customers.push(c), dependents: self.dependents }
    }

    pub open spec fn with_dependent(self, d: Dependents) -> Tables {
        Tables { customers: self.customers, dependents: self.dependents.push(d) }
    }

    /// The rows of `self` followed by those of `other`.
    pub open spec fn append(self, other: Tables) -> Tables {
        Tables {
            customers: self.customers + other.customers,
            dependents: self.dependents + other.dependents,
        }
    }

    /// The customer rows after `UPDATE ... WHERE id = id` with new fields `f`
    /// at time `now`.
    pub open spec fn with_update(self, id: RecordId, f: CreateCustomer, now: Timestamp) -> Tables {
        Tables {
            customers: self.customers.map_values(
                |c: Customer| if c.id == id { updated_customer(c, f, now) } else { c },
            ),
            dependents: self.dependents,
        }
    }

    /// The customer rows after `DELETE ... WHERE id = id`.
    pub open spec fn without_customer(self, id: RecordId) -> Tables {
        Tables { customers: rows_without_id(self.customers, id), dependents: self.dependents }
    }
}

/// A customer row with every mutable field overwritten from `f` and the
/// modification time set to `now`; identifier, active flag and creation time
/// are kept.
pub open spec fn updated_customer(c: Customer, f: CreateCustomer, now: Timestamp) -> Customer {
    Customer {
        first_name: f.first_name,
        last_name: f.last_name,
        aadhar_number: f.aadhar_number,
        date_of_birth: f.date_of_birth,
        gender: f.gender,
        address: f.address,
        updated_at: now,
        ..c
    }
}

/// How many customer rows carry identifier `id`.
pub open spec fn rows_with_id(rows: Seq<Customer>, id: RecordId) -> nat
    decreases rows.len(),
{
    if rows.len() == 0 {
        0
    } else {
        rows_with_id(rows.drop_last(), id) + if rows.last().id == id { 1nat } else { 0nat }
    }
}

/// The customer rows whose identifier is not `id`, in order.
pub open spec fn rows_without_id(rows: Seq<Customer>, id: RecordId) -> Seq<Customer>
    decreases rows.len(),
{
    if rows.len() == 0 {
        rows
    } else if rows.last().id == id {
        rows_without_id(rows.drop_last(), id)
    } else {
        rows_without_id(rows.drop_last(), id).push(rows.last())
    }
}

/// No row carries `id` exactly when none is counted.
pub proof fn lemma_rows_with_id_zero(rows: Seq<Customer>, id: RecordId)
    ensures
        rows_with_id(rows, id) == 0 <==> forall|i: int| 0 <= i < rows.len() ==> (#[trigger] rows[i]).id != id,
    decreases rows.len(),
{
    if rows.len() > 0 {
        lemma_rows_with_id_zero(rows.drop_last(), id);
        if rows_with_id(rows, id) == 0 {
            assert forall|i: int| 0 <= i < rows.len() implies (#[trigger] rows[i]).id != id by {
                if i < rows.len() - 1 {
                    assert(rows[i] == rows.drop_last()[i]);
                }
            }
        } else if rows.last().id != id {
            let i = choose|i: int| 0 <= i < rows.drop_last().len() && (#[trigger] rows.drop_last()[i]).id == id;
            assert(rows[i] == rows.drop_last()[i]);
        }
    }
}

/// Removing the rows of `id` leaves none of them, and removing them again
/// changes nothing.
pub proof fn lemma_rows_without_id(rows: Seq<Customer>, id: RecordId)
    ensures
        rows_with_id(rows_without_id(rows, id), id) == 0,
        rows_without_id(rows_without_id(rows, id), id) == rows_without_id(rows, id),
    decreases rows.len(),
{
    if rows.len() > 0 {
        let w = rows_without_id(rows.drop_last(), id);
        lemma_rows_without_id(rows.drop_last(), id);
        if rows.last().id != id {
            assert(w.push(rows.last()).drop_last() =~= w);
        }
    }
}

} // verus!
