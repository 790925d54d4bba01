use vstd::prelude::*;
use crate::identity::{is_random_uuid, RecordId, Timestamp};

verus! {

/// The client-supplied fields of a customer.
pub struct CreateCustomer {
    pub first_name: String,
    pub last_name: String,
    pub aadhar_number: i64,
    pub date_of_birth: String,
    pub gender: String,
    pub address: String,
}

/// A stored customer.
pub struct Customer {
    pub id: RecordId,
    pub first_name: String,
    pub last_name: String,
    pub aadhar_number: i64,
    pub date_of_birth: String,
    pub gender: String,
    pub address: String,
    pub is_active: bool,
    pub created_at: Timestamp,
    pub updated_at: Timestamp,
}

/// The client-supplied fields of a dependent, with the customer it belongs to.
pub struct CreateDependents {
    pub first_name: String,
    pub last_name: String,
    pub aadhar_number: i64,
    pub customer_id: RecordId,
    pub date_of_birth: String,
    pub gender: String,
    pub address: String,
    pub relation: String,
    pub relationship: String,
}

/// A stored dependent, tied to one customer by `customer_id`.
pub struct Dependents {
    pub id: RecordId,
    pub customer_id: RecordId,
    pub first_name: String,
    pub last_name: String,
    pub aadhar_number: i64,
    pub date_of_birth: String,
    pub gender: String,
    pub address: String,
    pub relation: String,
    pub relationship: String,
    pub is_active: bool,
    pub created_at: Timestamp,
    pub updated_at: Timestamp,
}

/// A customer's fields together with the dependents to create with it. The
/// `customer_id` of each dependent is ignored: the new customer's identifier
/// takes its place.
pub struct CreateCustomerWithDependents {
    pub first_name: String,
    pub last_name: String,
    pub aadhar_number: i64,
    pub date_of_birth: String,
    pub gender: String,
    pub address: String,
    pub dependents: Vec<CreateDependents>,
}

impl CreateCustomerWithDependents {
    /// The customer part of the payload.
    pub open spec fn customer_fields(self) -> CreateCustomer {
        CreateCustomer {
            first_name: self.first_name,
            last_name: self.last_name,
            aadhar_number: self.aadhar_number,
            date_of_birth: self.date_of_birth,
            gender: self.gender,
            address: self.address,
        }
    }
}

impl Customer {
    /// Every client-supplied field equals the one in `f`.
    pub open spec fn has_fields(self, f: CreateCustomer) -> bool {
        &&& self.first_name == f.first_name
        &&& self.last_name == f.last_name
        &&& self.aadhar_number == f.aadhar_number
        &&& self.date_of_birth == f.date_of_birth
        &&& self.gender == f.gender
        &&& self.address == f.address
    }

    /// A record just created: both timestamps are the same valid instant.
    pub open spec fn is_fresh(self) -> bool {
        &&& self.created_at == self.updated_at
        &&& self.created_at.wf()
        &&& is_random_uuid(self.id.0)
    }

    /// The record made of `fields`, identifier `id`, both timestamps `now`,
    /// and the given active flag.
    pub fn assemble(fields: CreateCustomer, id: RecordId, now: Timestamp, is_active: bool) -> (r: Customer)
        ensures
            r.has_fields(fields),
            r.id == id,
            r.created_at == now,
            r.updated_at == now,
            r.is_active == is_active,
    {
        let CreateCustomer { first_name, last_name, aadhar_number, date_of_birth, gender, address } = fields;
        Customer {
            id,
            first_name,
            last_name,
            aadhar_number,
            date_of_birth,
            gender,
            address,
            is_active,
            created_at: now,
            updated_at: now,
        }
    }

    /// Materialises a customer from its fields, with a new random identifier
    /// and the current time as both creation and modification time.
    pub fn new(fields: CreateCustomer, is_active: bool) -> (r: Customer)
        ensures
            r.has_fields(fields),
            r.is_active == is_active,
            r.is_fresh(),
    {
        let id = RecordId::generate();
        let now = Timestamp::now();
        Customer::assemble(fields, id, now, is_active)
    }
}

impl Dependents {
    /// Every client-supplied field but the customer reference equals the one in `f`.
    pub open spec fn has_fields(self, f: CreateDependents) -> bool {
        &&& self.first_name == f.first_name
        &&& self.last_name == f.last_name
        &&& self.aadhar_number == f.aadhar_number
        &&& self.date_of_birth == f.date_of_birth
        &&& self.gender == f.gender
        &&& self.address == f.address
        &&& self.relation == f.relation
        &&& self.relationship == f.relationship
    }

    /// A record just created: both timestamps are the same valid instant.
    pub open spec fn is_fresh(self) -> bool {
        &&& self.created_at == self.updated_at
        &&& self.created_at.wf()
        &&& is_random_uuid(self.id.0)
    }

    /// The inactive record made of `fields`, owned by `customer_id`, with
    /// identifier `id` and both timestamps `now`.
    pub fn assemble(fields: &CreateDependents, customer_id: RecordId, id: RecordId, now: Timestamp) -> (r: Dependents)
        ensures
            r.has_fields(*fields),
            r.customer_id == customer_id,
            r.id == id,
            r.created_at == now,
            r.updated_at == now,
            !r.is_active,
    {
        Dependents {
            id,
            customer_id,
            first_name: fields.first_name.clone(),
            last_name: fields.last_name.clone(),
            aadhar_number: fields.aadhar_number,
            date_of_birth: fields.date_of_birth.clone(),
            gender: fields.gender.clone(),
            address: fields.address.clone(),
            relation: fields.relation.clone(),
            relationship: fields.relationship.clone(),
            is_active: false,
            created_at: now,
            updated_at: now,
        }
    }

    /// Materialises an inactive dependent of `customer_id` from its fields,
    /// with a new random identifier and the current time as both creation
    /// and modification time. The `customer_id` inside `fields` is not read.
    pub fn new(fields: &CreateDependents, customer_id: RecordId) -> (r: Dependents)
        ensures
            r.has_fields(*fields),
            r.customer_id == customer_id,
            !r.is_active,
            r.is_fresh(),
    {
        let id = RecordId::generate();
        let now = Timestamp::now();
        Dependents::assemble(fields, customer_id, id, now)
    }
}

} // verus!
