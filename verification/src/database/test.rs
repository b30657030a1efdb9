//! Tests as the database stores them: their type and the rows that list them.
use vstd::prelude::*;
use vstd::std_specs::convert::TryFromSpecImpl;
use vstd::string::*;

use crate::database::Database;

verus! {

/// The date-time type of the `chrono` crate, carried through unopened.
#[verifier::external_type_specification]
#[verifier::external_body]
pub struct ExNaiveDateTime(chrono::NaiveDateTime);

/// Represents the type of a test.
#[derive(Debug, Clone, Copy, PartialEq, Eq, Structural)]
pub enum TestType {
    Objective,
    Subjective,
}

/// Represents an error due to specifying an invalid test type; holds the text given.
pub struct InvalidTestType(pub String);

impl InvalidTestType {
    /// The message this error is shown with: `Invalid test type: <text>`.
    pub fn message(&self) -> (text: String)
        ensures
            text@ == "Invalid test type: "@ + self.0@,
    {
        let mut text = String::from_str("Invalid test type: ");
        text.append(self.0.as_str());
        text
    }
}

/// The text a test type is stored and shown as.
pub open spec fn test_type_text(test_type: TestType) -> Seq<char> {
    match test_type {
        TestType::Objective => "objective"@,
        TestType::Subjective => "subjective"@,
    }
}

/// The test type a text names, if any.
pub open spec fn parse_test_type(text: Seq<char>) -> Option<TestType> {
    if text == "objective"@ {
        Some(TestType::Objective)
    } else if text == "subjective"@ {
        Some(TestType::Subjective)
    } else {
        None
    }
}

impl TryFrom<String> for TestType {
    type Error = InvalidTestType;

    fn try_from(value: String) -> (result: Result<Self, Self::Error>) {
        let objective = String::from_str("objective");
        let subjective = String::from_str("subjective");
        if value == objective {
            Ok(TestType::Objective)
        } else if value == subjective {
            Ok(TestType::Subjective)
        } else {
            Err(InvalidTestType(value))
        }
    }
}

impl TryFromSpecImpl<String> for TestType {
    open spec fn obeys_try_from_spec() -> bool {
        true
    }

    open spec fn try_from_spec(value: String) -> Result<Self, Self::Error> {
        match parse_test_type(value@) {
            Some(test_type) => Ok(test_type),
            None => Err(InvalidTestType(value)),
        }
    }
}

impl TestType {
    /// The text this test type is stored and shown as.
    pub fn as_str(self) -> (text: &'static str)
        ensures
            text@ == test_type_text(self),
    {
        match self {
            TestType::Objective => "objective",
            TestType::Subjective => "subjective",
        }
    }

    /// The text this test type is displayed as (the same as [`TestType::as_str`]).
    pub fn to_string(&self) -> (text: String)
        ensures
            text@ == test_type_text(*self),
    {
        String::from_str(self.as_str())
    }
}

/// A test type's text names that test type, and no other: parsing the text
/// of a test type gives it back.
pub proof fn lemma_test_type_text_round_trip(test_type: TestType)
    ensures
        parse_test_type(test_type_text(test_type)) == Some(test_type),
{
    reveal_strlit("objective");
    reveal_strlit("subjective");
    assert("objective"@ != "subjective"@) by {
        assert("objective"@.len() != "subjective"@.len());
    }
}

/// Represents a test on the surface. It contains the test's:
/// - public ID (the sixteen bytes of a UUID),
/// - name,
/// - type, and
/// - last updated date
pub struct TestEntry {
    pub public_id: [u8; 16],
    pub name: String,
    pub test_type: TestType,
    pub updated_at: chrono::NaiveDateTime,
}

/// Why a stored row does not make a test entry.
pub enum TestRowError {
    /// The stored public ID is not the sixteen bytes of a UUID.
    InvalidPublicId,
    /// The stored type names no test type.
    InvalidTestType(InvalidTestType),
}

/// Calls `uuid::Uuid::from_slice`, which the `uuid` crate documents as failing
/// exactly when the slice does not have sixteen bytes, and hands back the
/// UUID's bytes (`Uuid::as_bytes`), which are the slice's bytes in order.
#[verifier::external_body]
fn uuid_bytes_from_slice(bytes: &[u8]) -> (uuid: Option<[u8; 16]>)
    ensures
        uuid is Some <==> bytes@.len() == 16,
        uuid matches Some(id) ==> id@ == bytes@,
{
    match uuid::Uuid::from_slice(bytes) {
        Ok(id) => Some(*id.as_bytes()),
        Err(_) => None,
    }
}

/// Calls `uuid::Uuid::new_v4` and hands back the UUID's bytes. The source
/// builds it from random bytes with `Builder::from_random_bytes`, which sets the
/// version (4, the high half of byte 6) and the RFC 4122 variant (the two top
/// bits of byte 8 are `10`); the other bits are random and nothing is promised
/// of them.
#[verifier::external_body]
fn new_v4_uuid_bytes() -> (uuid: [u8; 16])
    ensures
        uuid@[6] / 16 == 4,
        uuid@[8] / 64 == 2,
{
    *uuid::Uuid::new_v4().as_bytes()
}

impl TestEntry {
    /// Makes a test entry of a stored row: the public ID must be the sixteen
    /// bytes of a UUID and the type the text of a test type.
    pub fn from_row(
        public_id: &[u8],
        name: String,
        test_type: String,
        updated_at: chrono::NaiveDateTime,
    ) -> (result: Result<TestEntry, TestRowError>)
        ensures
            public_id@.len() != 16 ==> result matches Err(TestRowError::InvalidPublicId),
            public_id@.len() == 16 && parse_test_type(test_type@) is None ==> (result matches Err(
                TestRowError::InvalidTestType(invalid)) && invalid.0 == test_type),
            public_id@.len() == 16 && parse_test_type(test_type@) is Some ==> (result matches Ok(entry)
                && entry.public_id@ == public_id@ && entry.name == name
                && Some(entry.test_type) == parse_test_type(test_type@)
                && entry.updated_at == updated_at),
    {
        let id = match uuid_bytes_from_slice(public_id) {
            Some(id) => id,
            None => return Err(TestRowError::InvalidPublicId),
        };
        let test_type = match TestType::try_from(test_type) {
            Ok(test_type) => test_type,
            Err(invalid) => return Err(TestRowError::InvalidTestType(invalid)),
        };
        Ok(TestEntry { public_id: id, name, test_type, updated_at })
    }
}

impl Database {
    /// A fresh public ID for a new test: a random (version 4) UUID's bytes.
    pub fn new_test_public_id() -> (id: [u8; 16])
        ensures
            id@[6] / 16 == 4,
            id@[8] / 64 == 2,
    {
        new_v4_uuid_bytes()
    }
}

} // verus!
