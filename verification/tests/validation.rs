use echo_chain::payload::{SomeData, ValidationError};

fn payload(id: &str, name: &str) -> SomeData {
    SomeData { id: id.to_string(), name: name.to_string() }
}

#[test]
fn accepts_minimal_lengths() {
    assert_eq!(payload("a", "b").validate(), Ok(()));
}

#[test]
fn accepts_maximal_lengths() {
    let id = "a".repeat(1_000_000);
    let name = "n".repeat(100);
    assert_eq!(payload(&id, &name).validate(), Ok(()));
}

#[test]
fn rejects_empty_id() {
    assert_eq!(payload("", "b").validate(), Err(ValidationError::IdLength));
}

#[test]
fn rejects_overlong_id() {
    let id = "a".repeat(1_000_001);
    assert_eq!(payload(&id, "b").validate(), Err(ValidationError::IdLength));
}

#[test]
fn rejects_empty_name() {
    assert_eq!(payload("a", "").validate(), Err(ValidationError::NameLength));
}

#[test]
fn rejects_overlong_name() {
    let name = "n".repeat(101);
    assert_eq!(payload("a", &name).validate(), Err(ValidationError::NameLength));
}

#[test]
fn reports_id_before_name() {
    assert_eq!(payload("", "").validate(), Err(ValidationError::IdLength));
}

#[test]
fn lengths_count_characters_not_bytes() {
    // 100 multi-byte characters are within the name bound even though the
    // UTF-8 encoding is 300 bytes long.
    let name = "桜".repeat(100);
    assert_eq!(payload("鹿", &name).validate(), Ok(()));
    let name = "桜".repeat(101);
    assert_eq!(payload("鹿", &name).validate(), Err(ValidationError::NameLength));
}

#[test]
fn messages_describe_the_bounds() {
    assert_eq!(ValidationError::IdLength.message(), "id length must be between 1 and 1000000");
    assert_eq!(ValidationError::NameLength.message(), "name length must be between 1 and 100");
}
