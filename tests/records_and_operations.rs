use customer_records::error::{ServiceError, Status};
use customer_records::identity::{RecordId, Timestamp};
use customer_records::operations::{
    create_customer, create_dependents, creation_status, delete_status, get_all_customers, health_check,
    update_status,
};
use customer_records::records::{CreateCustomer, CreateDependents, Customer};

fn fields() -> CreateCustomer {
    CreateCustomer {
        first_name: "A".to_string(),
        last_name: "B".to_string(),
        aadhar_number: 123456789012,
        date_of_birth: "1990-01-01".to_string(),
        gender: "M".to_string(),
        address: "X".to_string(),
    }
}

#[test]
fn created_customer_is_active_with_its_fields() {
    let c = create_customer(fields());
    assert_eq!(c.first_name, "A");
    assert_eq!(c.last_name, "B");
    assert_eq!(c.aadhar_number, 123456789012);
    assert_eq!(c.date_of_birth, "1990-01-01");
    assert_eq!(c.gender, "M");
    assert_eq!(c.address, "X");
    assert!(c.is_active);
    assert_eq!(c.created_at, c.updated_at);
}

#[test]
fn created_customers_get_distinct_random_identifiers() {
    let a = create_customer(fields());
    let b = create_customer(fields());
    assert_ne!(a.id, b.id);
    for id in [a.id, b.id] {
        assert_eq!((id.0 >> 76) & 0xf, 4);
        assert_eq!((id.0 >> 62) & 0x3, 2);
    }
}

#[test]
fn assembled_customer_takes_given_identity_and_time() {
    let now = Timestamp { secs: 1_700_000_000, nanos: 123_456_789 };
    let c = Customer::assemble(fields(), RecordId(42), now, false);
    assert_eq!(c.id, RecordId(42));
    assert_eq!(c.created_at, now);
    assert_eq!(c.updated_at, now);
    assert!(!c.is_active);
    assert_eq!(c.address, "X");
}

#[test]
fn created_dependent_is_inactive_and_owned_by_named_customer() {
    let f = CreateDependents {
        first_name: "C".to_string(),
        last_name: "B".to_string(),
        aadhar_number: 1,
        customer_id: RecordId(99),
        date_of_birth: "2015-06-01".to_string(),
        gender: "F".to_string(),
        address: "X".to_string(),
        relation: "child".to_string(),
        relationship: "daughter".to_string(),
    };
    let d = create_dependents(&f);
    assert_eq!(d.customer_id, RecordId(99));
    assert_eq!(d.first_name, "C");
    assert_eq!(d.relation, "child");
    assert_eq!(d.relationship, "daughter");
    assert!(!d.is_active);
    assert_eq!(d.created_at, d.updated_at);
    assert_ne!(d.id, RecordId(99));
}

#[test]
fn clock_reads_after_2020_with_sub_second_part_in_range() {
    let t = Timestamp::now();
    assert!(t.secs > 1_577_836_800);
    assert!(t.nanos < 1_000_000_000);
}

#[test]
fn identifier_text_is_parsed() {
    let id = RecordId::parse("67e55044-10b1-426f-9247-bb680e5fe0c8").unwrap();
    assert_eq!(id, RecordId(0x67e5504410b1426f9247bb680e5fe0c8));
    assert_eq!(RecordId::parse("67e5504410b1426f9247bb680e5fe0c8"), Ok(id));
}

#[test]
fn malformed_identifier_is_rejected() {
    assert_eq!(RecordId::parse("not-a-uuid"), Err(ServiceError::MalformedId));
    assert_eq!(RecordId::parse(""), Err(ServiceError::MalformedId));
    assert_eq!(RecordId::parse("12"), Err(ServiceError::MalformedId));
    assert_eq!(ServiceError::MalformedId.status().code(), 400);
}

#[test]
fn update_of_missing_row_is_not_found() {
    assert_eq!(update_status(Ok(0)), Status::NotFound);
    assert_eq!(update_status(Ok(0)).code(), 404);
}

#[test]
fn update_of_existing_row_succeeds() {
    assert_eq!(update_status(Ok(1)), Status::Success);
    assert_eq!(update_status(Ok(1)).code(), 200);
    assert_eq!(update_status(Err(ServiceError::StoreFailure)), Status::InternalServerError);
}

#[test]
fn delete_succeeds_twice() {
    assert_eq!(delete_status(Ok(1)), Status::Success);
    assert_eq!(delete_status(Ok(0)), Status::Success);
    assert_eq!(delete_status(Err(ServiceError::StoreFailure)).code(), 500);
}

#[test]
fn creation_and_health_signals() {
    assert_eq!(health_check(), Status::Success);
    assert_eq!(creation_status(true).code(), 201);
    assert_eq!(creation_status(false), Status::InternalServerError);
}

#[test]
fn listing_passes_rows_or_reports_server_error() {
    let rows = get_all_customers(Ok(vec![create_customer(fields())])).unwrap();
    assert_eq!(rows.len(), 1);
    assert_eq!(rows[0].first_name, "A");
    assert_eq!(get_all_customers(Err(ServiceError::StoreFailure)).err(), Some(Status::InternalServerError));
}

#[test]
fn error_kinds_map_to_distinct_signals() {
    assert_eq!(ServiceError::MalformedId.status(), Status::BadRequest);
    assert_eq!(ServiceError::NotFound.status(), Status::NotFound);
    assert_eq!(ServiceError::StoreFailure.status(), Status::InternalServerError);
    assert_eq!(Status::Success.code(), 200);
    assert_eq!(Status::Created.code(), 201);
}
