use vstd::prelude::*;
use crate::error::{error_status, ServiceError, Status};
use crate::identity::{RecordId, Timestamp};
use crate::records::{CreateCustomer, CreateDependents, Customer, Dependents};
use crate::store::{
    lemma_rows_with_id_zero, lemma_rows_without_id, rows_with_id, updated_customer, Tables,
};

verus! {

pub open spec fn update_status_of(affected: Result<u64, ServiceError>) -> Status {
    match affected {
        Ok(n) => if n == 0 { Status::NotFound } else { Status::Success },
        Err(e) => error_status(e),
    }
}

pub open spec fn delete_status_of(affected: Result<u64, ServiceError>) -> Status {
    match affected {
        Ok(_) => Status::Success,
        Err(e) => error_status(e),
    }
}

/// The liveness check: always successful.
pub fn health_check() -> (r: Status)
    ensures
        r == Status::Success,
{
    Status::Success
}

/// Materialises a customer created on its own: active, with a new
/// identifier and both timestamps the current time.
pub fn create_customer(fields: CreateCustomer) -> (r: Customer)
    ensures
        r.has_fields(fields),
        r.is_active,
        r.is_fresh(),
{
    Customer::new(fields, true)
}

/// Materialises a dependent created on its own: inactive, owned by the
/// customer its fields name, whether or not that customer exists.
pub fn create_dependents(fields: &CreateDependents) -> (r: Dependents)
    ensures
        r.has_fields(*fields),
        r.customer_id == fields.customer_id,
        !r.is_active,
        r.is_fresh(),
{
    Dependents::new(fields, fields.customer_id)
}

/// The signal for a creation, from whether the insert succeeded.
pub fn creation_status(stored: bool) -> (r: Status)
    ensures
        r == (if stored { Status::Created } else { Status::InternalServerError }),
{
    if stored {
        Status::Created
    } else {
        Status::InternalServerError
    }
}

/// The result of listing the customers: the rows as read, or a server error.
pub fn get_all_customers(fetched: Result<Vec<Customer>, ServiceError>) -> (r: Result<Vec<Customer>, Status>)
    ensures
        fetched is Ok <==> r is Ok,
        r is Ok ==> r->Ok_0@ == fetched->Ok_0@,
        r is Err ==> r->Err_0 == error_status(fetched->Err_0),
{
    match fetched {
        Ok(rows) => Ok(rows),
        Err(e) => Err(e.status()),
    }
}

/// The signal for an update, from the number of rows it matched: none is
/// not-found.
pub fn update_status(affected: Result<u64, ServiceError>) -> (r: Status)
    ensures
        r == update_status_of(affected),
{
    match affected {
        Ok(n) => if n == 0 {
            Status::NotFound
        } else {
            Status::Success
        },
        Err(e) => e.status(),
    }
}

/// The signal for a delete: success whether or not a row matched.
pub fn delete_status(affected: Result<u64, ServiceError>) -> (r: Status)
    ensures
        r == delete_status_of(affected),
{
    match affected {
        Ok(_) => Status::Success,
        Err(e) => e.status(),
    }
}

/// A customer created on its own and inserted under an identifier no row
/// had appears in the listing exactly once, with its fields and active.
pub proof fn lemma_created_customer_listed(t: Tables, fields: CreateCustomer, c: Customer)
    requires
        c.has_fields(fields),
        c.is_active,
        rows_with_id(t.customers, c.id) == 0,
    ensures
        rows_with_id(t.with_customer(c).customers, c.id) == 1,
        t.with_customer(c).customers.contains(c),
        forall|i: int|
            0 <= i < t.with_customer(c).customers.len() && (#[trigger] t.with_customer(c).customers[i]).id == c.id
                ==> t.with_customer(c).customers[i] == c,
{
    let l = t.with_customer(c).customers;
    assert(l.drop_last() =~= t.customers);
    assert(l[l.len() - 1] == c);
    lemma_rows_with_id_zero(t.customers, c.id);
    assert forall|i: int| 0 <= i < l.len() && (#[trigger] l[i]).id == c.id implies l[i] == c by {
        if i < t.customers.len() {
            assert(l[i] == t.customers[i]);
        }
    }
}

/// An update of an identifier no row has matches nothing, is reported as
/// not-found, and leaves every row as it was.
pub proof fn lemma_update_missing(t: Tables, id: RecordId, f: CreateCustomer, now: Timestamp)
    requires
        rows_with_id(t.customers, id) == 0,
    ensures
        t.with_update(id, f, now) == t,
        update_status_of(Ok(rows_with_id(t.customers, id) as u64)) == Status::NotFound,
{
    lemma_rows_with_id_zero(t.customers, id);
    assert(t.with_update(id, f, now).customers =~= t.customers);
}

/// An update of an existing identifier is reported as successful; each of
/// its rows takes every new field value and the new modification time,
/// which is later than the old one when `now` is, and keeps its identifier,
/// active flag and creation time; other rows are unchanged.
pub proof fn lemma_update_existing(t: Tables, id: RecordId, f: CreateCustomer, now: Timestamp)
    requires
        rows_with_id(t.customers, id) > 0,
        t.customers.len() <= u64::MAX,
    ensures
        update_status_of(Ok(rows_with_id(t.customers, id) as u64)) == Status::Success,
        t.with_update(id, f, now).customers.len() == t.customers.len(),
        t.with_update(id, f, now).dependents == t.dependents,
        forall|i: int|
            0 <= i < t.customers.len() && (#[trigger] t.customers[i]).id == id ==> {
                let n = t.with_update(id, f, now).customers[i];
                &&& n.has_fields(f)
                &&& n.updated_at == now
                &&& (now.is_later_than(t.customers[i].updated_at) ==> n.updated_at.is_later_than(
                    t.customers[i].updated_at,
                ))
                &&& n.id == id
                &&& n.created_at == t.customers[i].created_at
                &&& n.is_active == t.customers[i].is_active
            },
        forall|i: int|
            0 <= i < t.customers.len() && (#[trigger] t.customers[i]).id != id ==> t.with_update(
                id,
                f,
                now,
            ).customers[i] == t.customers[i],
{
    lemma_rows_with_id_bounded(t.customers, id);
}

proof fn lemma_rows_with_id_bounded(rows: Seq<Customer>, id: RecordId)
    ensures
        rows_with_id(rows, id) <= rows.len(),
    decreases rows.len(),
{
    if rows.len() > 0 {
        lemma_rows_with_id_bounded(rows.drop_last(), id);
    }
}

/// Deleting is idempotent: both of two deletes of one identifier are
/// reported as successful, the first leaves no row of it, and the second
/// changes nothing.
pub proof fn lemma_delete_idempotent(t: Tables, id: RecordId)
    ensures
        delete_status_of(Ok(rows_with_id(t.customers, id) as u64)) == Status::Success,
        rows_with_id(t.without_customer(id).customers, id) == 0,
        delete_status_of(Ok(rows_with_id(t.without_customer(id).customers, id) as u64)) == Status::Success,
        t.without_customer(id).without_customer(id) == t.without_customer(id),
{
    lemma_rows_without_id(t.customers, id);
}

} // verus!
