use valuecell_supervisor::get_or_create_client_id;

const FRESH: &str = "0f8fad5b-d9cb-469f-a165-70867728950e";

#[test]
fn stored_identifier_is_reused_trimmed() {
    let (id, minted) =
        get_or_create_client_id(Some("  abc-123\n".to_string()), FRESH.to_string());
    assert!(!minted);
    assert_eq!(id, "abc-123");
}

#[test]
fn blank_or_missing_storage_takes_the_fresh_identifier() {
    let (id, minted) = get_or_create_client_id(None, FRESH.to_string());
    assert!(minted);
    assert_eq!(id, FRESH);

    let (id2, minted2) =
        get_or_create_client_id(Some("   \n\t".to_string()), FRESH.to_string());
    assert!(minted2);
    assert_eq!(id2, FRESH);

    let (id3, minted3) = get_or_create_client_id(Some(String::new()), FRESH.to_string());
    assert!(minted3);
    assert_eq!(id3, FRESH);
}

#[test]
fn fresh_identifier_comes_back_trimmed() {
    let (id, minted) = get_or_create_client_id(None, format!(" {}\n", FRESH));
    assert!(minted);
    assert_eq!(id, FRESH);
}

#[test]
fn persisted_identifier_round_trips() {
    // first run: nothing stored, the minted id is returned and persisted
    let (id, minted) = get_or_create_client_id(None, FRESH.to_string());
    assert!(minted);
    // later run: the persisted id is read back and returned unchanged,
    // whatever fresh value stands ready
    let (again, minted_again) =
        get_or_create_client_id(Some(id.clone()), "other-fresh-value".to_string());
    assert!(!minted_again);
    assert_eq!(again, id);
}
