use superoxide::database::test::{TestEntry, TestRowError, TestType};
use superoxide::database::user::InsertOutcome;
use superoxide::database::{CredentialLookup, Database, DatabaseError, MAX_CONNECTIONS};
use superoxide::error::SuperoxideError;

fn some_time() -> chrono::NaiveDateTime {
    chrono::NaiveDate::from_ymd_opt(2024, 5, 17)
        .unwrap()
        .and_hms_opt(12, 30, 0)
        .unwrap()
}

#[test]
fn test_types_parse_from_their_text() {
    assert_eq!(TestType::try_from(String::from("objective")).ok(), Some(TestType::Objective));
    assert_eq!(TestType::try_from(String::from("subjective")).ok(), Some(TestType::Subjective));
}

#[test]
fn other_texts_are_invalid_test_types() {
    let error = TestType::try_from(String::from("Objective")).err().unwrap();
    assert_eq!(error.0, "Objective");
    assert_eq!(error.message(), "Invalid test type: Objective");
    assert!(TestType::try_from(String::new()).is_err());
}

#[test]
fn test_type_text_round_trips() {
    for test_type in [TestType::Objective, TestType::Subjective] {
        assert_eq!(
            TestType::try_from(test_type.as_str().to_owned()).ok(),
            Some(test_type)
        );
        assert_eq!(test_type.to_string(), test_type.as_str());
    }
    assert_eq!(TestType::Objective.as_str(), "objective");
    assert_eq!(TestType::Subjective.as_str(), "subjective");
}

#[test]
fn a_well_formed_row_makes_a_test_entry() {
    let id: Vec<u8> = (1u8..=16).collect();
    let entry = TestEntry::from_row(&id, String::from("Algebra"), String::from("subjective"), some_time())
        .ok()
        .unwrap();
    assert_eq!(entry.public_id.to_vec(), id);
    assert_eq!(entry.name, "Algebra");
    assert_eq!(entry.test_type, TestType::Subjective);
    assert_eq!(entry.updated_at, some_time());
}

#[test]
fn a_row_with_a_short_id_is_refused() {
    let result = TestEntry::from_row(&[1, 2, 3], String::from("x"), String::from("objective"), some_time());
    assert!(matches!(result, Err(TestRowError::InvalidPublicId)));
}

#[test]
fn a_row_with_an_unknown_type_is_refused() {
    let result = TestEntry::from_row(&[0; 16], String::from("x"), String::from("essay"), some_time());
    match result {
        Err(TestRowError::InvalidTestType(invalid)) => assert_eq!(invalid.0, "essay"),
        _ => panic!("an unknown type must be refused"),
    }
}

#[test]
fn new_public_ids_are_version_four_uuids() {
    let first = Database::new_test_public_id();
    let second = Database::new_test_public_id();
    assert_eq!(first[6] >> 4, 4);
    assert_eq!(first[8] >> 6, 2);
    assert_ne!(first, second);
}

#[test]
fn account_creation_outcomes() {
    assert_eq!(Database::account_creation_outcome(InsertOutcome::Inserted(5)).ok(), Some(Some(5)));
    assert_eq!(Database::account_creation_outcome(InsertOutcome::UniqueViolation).ok(), Some(None));
    let failed = Database::account_creation_outcome(InsertOutcome::Failed(DatabaseError {
        message: String::from("connection reset"),
    }));
    assert_eq!(failed.err().map(|e| e.message), Some(String::from("connection reset")));
}

#[test]
fn database_url_comes_from_the_variable() {
    let url = Database::database_url(CredentialLookup::Present(String::from("mysql://localhost/db")));
    assert_eq!(url.ok(), Some(String::from("mysql://localhost/db")));
    assert!(matches!(
        Database::database_url(CredentialLookup::NotPresent),
        Err(SuperoxideError::UnsetCredentials)
    ));
    assert!(matches!(
        Database::database_url(CredentialLookup::NotUnicode),
        Err(SuperoxideError::InvalidUnicodeCredentials)
    ));
    assert_eq!(MAX_CONNECTIONS, 10);
}
