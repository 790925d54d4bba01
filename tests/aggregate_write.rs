use customer_records::aggregate::{AggregateWrite, Step};
use customer_records::error::ServiceError;
use customer_records::identity::RecordId;
use customer_records::records::{CreateCustomerWithDependents, CreateDependents};

fn dependent(first: &str, relation: &str, relationship: &str) -> CreateDependents {
    CreateDependents {
        first_name: first.to_string(),
        last_name: "B".to_string(),
        aadhar_number: 210987654321,
        customer_id: RecordId(7),
        date_of_birth: "2015-06-01".to_string(),
        gender: "M".to_string(),
        address: "X".to_string(),
        relation: relation.to_string(),
        relationship: relationship.to_string(),
    }
}

fn payload(dependents: Vec<CreateDependents>) -> CreateCustomerWithDependents {
    CreateCustomerWithDependents {
        first_name: "A".to_string(),
        last_name: "B".to_string(),
        aadhar_number: 123456789012,
        date_of_birth: "1990-01-01".to_string(),
        gender: "M".to_string(),
        address: "X".to_string(),
        dependents,
    }
}

/// Drives the write, failing the statement at position `fail_at` (if any),
/// and returns the statements it asked for.
fn drive(write: &mut AggregateWrite, fail_at: Option<usize>) -> Vec<String> {
    let mut statements = Vec::new();
    let mut position = 0;
    while write.outcome().is_none() {
        statements.push(match write.step() {
            Step::Begin => "begin".to_string(),
            Step::InsertCustomer => "customer".to_string(),
            Step::InsertDependent(i) => format!("dependent {}", i),
            Step::Commit => "commit".to_string(),
            Step::Rollback => "rollback".to_string(),
            Step::Succeeded(_) | Step::Failed => unreachable!(),
        });
        write.advance(fail_at != Some(position));
        position += 1;
    }
    statements
}

#[test]
fn customer_with_one_dependent_is_written_whole() {
    let mut write = AggregateWrite::new(payload(vec![dependent("C", "child", "son")]));
    let customer = write.customer();
    assert_eq!(customer.first_name, "A");
    assert_eq!(customer.last_name, "B");
    assert_eq!(customer.aadhar_number, 123456789012);
    assert_eq!(customer.date_of_birth, "1990-01-01");
    assert_eq!(customer.gender, "M");
    assert_eq!(customer.address, "X");
    assert!(!customer.is_active);
    assert_eq!(customer.created_at, customer.updated_at);
    let id = customer.id;
    assert_eq!(write.dependent_count(), 1);
    let d = write.dependent(0);
    assert_eq!(d.customer_id, id);
    assert_eq!(d.first_name, "C");
    assert_eq!(d.relation, "child");
    assert_eq!(d.relationship, "son");
    assert!(!d.is_active);
    assert_ne!(d.id, id);
    let statements = drive(&mut write, None);
    assert_eq!(statements, vec!["begin", "customer", "dependent 0", "commit"]);
    assert_eq!(write.outcome(), Some(Ok(id)));
}

#[test]
fn customer_without_dependents_commits_after_its_insert() {
    let mut write = AggregateWrite::new(payload(Vec::new()));
    let id = write.customer().id;
    assert_eq!(write.dependent_count(), 0);
    let statements = drive(&mut write, None);
    assert_eq!(statements, vec!["begin", "customer", "commit"]);
    assert_eq!(write.outcome(), Some(Ok(id)));
}

#[test]
fn all_dependents_refer_to_the_customer_in_order() {
    let mut write = AggregateWrite::new(payload(vec![
        dependent("C", "child", "son"),
        dependent("D", "child", "daughter"),
        dependent("E", "legal", "ward"),
    ]));
    let id = write.customer().id;
    assert_eq!(write.dependent_count(), 3);
    let names: Vec<String> = (0..3).map(|i| write.dependent(i).first_name.clone()).collect();
    assert_eq!(names, vec!["C", "D", "E"]);
    for i in 0..3 {
        assert_eq!(write.dependent(i).customer_id, id);
        assert_ne!(write.dependent(i).customer_id, RecordId(7));
    }
    let statements = drive(&mut write, None);
    assert_eq!(statements, vec!["begin", "customer", "dependent 0", "dependent 1", "dependent 2", "commit"]);
    assert_eq!(write.outcome(), Some(Ok(id)));
}

#[test]
fn failed_dependent_insert_rolls_back() {
    for k in 0..3 {
        let mut write = AggregateWrite::new(payload(vec![
            dependent("C", "child", "son"),
            dependent("D", "child", "daughter"),
            dependent("E", "legal", "ward"),
        ]));
        let statements = drive(&mut write, Some(2 + k));
        assert_eq!(statements.last().map(|s| s.as_str()), Some("rollback"));
        assert_eq!(statements[2 + k], format!("dependent {}", k));
        assert_eq!(statements.len(), 4 + k);
        assert!(!statements.contains(&"commit".to_string()));
        assert_eq!(write.outcome(), Some(Err(ServiceError::StoreFailure)));
    }
}

#[test]
fn failed_customer_insert_rolls_back_before_any_dependent() {
    let mut write = AggregateWrite::new(payload(vec![dependent("C", "child", "son")]));
    let statements = drive(&mut write, Some(1));
    assert_eq!(statements, vec!["begin", "customer", "rollback"]);
    assert_eq!(write.outcome(), Some(Err(ServiceError::StoreFailure)));
}

#[test]
fn failed_begin_and_failed_commit_report_store_failure() {
    let mut write = AggregateWrite::new(payload(vec![dependent("C", "child", "son")]));
    assert_eq!(drive(&mut write, Some(0)), vec!["begin"]);
    assert_eq!(write.outcome(), Some(Err(ServiceError::StoreFailure)));

    let mut write = AggregateWrite::new(payload(vec![dependent("C", "child", "son")]));
    assert_eq!(drive(&mut write, Some(3)), vec!["begin", "customer", "dependent 0", "commit"]);
    assert_eq!(write.outcome(), Some(Err(ServiceError::StoreFailure)));
}

#[test]
fn unfinished_write_has_no_outcome() {
    let mut write = AggregateWrite::new(payload(Vec::new()));
    assert!(matches!(write.step(), Step::Begin));
    assert_eq!(write.outcome(), None);
    write.advance(true);
    assert!(matches!(write.step(), Step::InsertCustomer));
    assert_eq!(write.outcome(), None);
}
