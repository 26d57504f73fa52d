use keyper::client::{ClientData, ClientStore, ClientType, MapClientStore, TestClientStore};
use keyper::text::{clone_strings, contains_text};

#[test]
fn map_store_reads_what_was_inserted() {
    let mut client_store = MapClientStore::new();
    assert_eq!(client_store.len(), 0);
    client_store.insert(
        "abcd1234".to_string(),
        ClientData {
            client_type: ClientType::Public,
            redirect_uris: vec!["https://example.com/auth_success".to_string()],
            name: "TestClient".to_string(),
        },
    );
    assert_eq!(client_store.len(), 1);

    let test_client = client_store.read_client("abcd1234").unwrap();
    assert_eq!(test_client.id, "abcd1234");
    assert_eq!(test_client.name, "TestClient");
    assert_eq!(test_client.client_type, ClientType::Public);
    assert_eq!(test_client.redirect_uris.len(), 1);
    assert_eq!(
        test_client.redirect_uris[0],
        "https://example.com/auth_success"
    );

    assert!(client_store.read_client("abcd123").is_none());
    assert!(client_store.read_client("ABCD1234").is_none());
    assert!(client_store.read_client("").is_none());
}

#[test]
fn map_store_replaces_a_client() {
    let mut client_store = MapClientStore::new();
    for name in ["first", "second"] {
        client_store.insert(
            "abcd1234".to_string(),
            ClientData {
                client_type: ClientType::Confidential,
                redirect_uris: Vec::new(),
                name: name.to_string(),
            },
        );
    }
    assert_eq!(client_store.len(), 1);
    let client = client_store.read_client("abcd1234").unwrap();
    assert_eq!(client.name, "second");
    assert_eq!(client.client_type, ClientType::Confidential);
    assert!(client.redirect_uris.is_empty());
}

#[test]
fn test_store_knows_its_identifiers() {
    let client_store = TestClientStore {
        client_ids: vec!["foobar".to_string(), "s6BhdRkqt3".to_string()],
    };
    let client = client_store.read_client("s6BhdRkqt3").unwrap();
    assert_eq!(client.id, "s6BhdRkqt3");
    assert_eq!(client.client_type, ClientType::Public);
    assert!(client.redirect_uris.is_empty());
    assert_eq!(client.name, "Example Client");

    assert!(client_store.read_client("foobar").is_some());
    assert!(client_store.read_client("Foobar").is_none());
    assert!(client_store.read_client("foo").is_none());

    let nobody = TestClientStore { client_ids: Vec::new() };
    assert!(nobody.read_client("foobar").is_none());
}

#[test]
fn strings_are_copied_in_order() {
    let items = vec!["b".to_string(), "a".to_string(), "b".to_string()];
    assert_eq!(clone_strings(&items), items);
    assert_eq!(clone_strings(&Vec::new()), Vec::<String>::new());
}

#[test]
fn text_is_found_character_for_character() {
    let items = vec!["b".to_string(), "a".to_string(), "".to_string()];
    assert!(contains_text(&items, &"a".to_string()));
    assert!(contains_text(&items, &"".to_string()));
    assert!(!contains_text(&items, &"A".to_string()));
    assert!(!contains_text(&items, &"ab".to_string()));
    assert!(!contains_text(&Vec::new(), &"a".to_string()));
}
