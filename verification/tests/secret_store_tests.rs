use bw_ssh_agent::secret_store::{next_init_step, InitAction, InitStep};
use bw_ssh_agent::secret_store::{
    decode_secret_value, encode_secret_value, from_label, is_item_label, lookup_attributes,
    to_label, SecretItem, SecretValueError,
};

#[test]
fn label_round_trip() {
    let label = to_label("bw-ssh-agent", "refresh-token");
    assert_eq!(label, "refresh-token@bw-ssh-agent");
    assert!(is_item_label(&label));
    let item = from_label(&label);
    assert_eq!(item.id(), "bw-ssh-agent");
    assert_eq!(item.key(), "refresh-token");
}

#[test]
fn label_with_empty_parts() {
    let item = from_label("@");
    assert_eq!(item.id(), "");
    assert_eq!(item.key(), "");
}

#[test]
fn item_labels_need_exactly_one_at() {
    assert!(!is_item_label("no-separator"));
    assert!(!is_item_label("a@b@c"));
    assert!(is_item_label("pub-key:1@bw-ssh-agent"));
}

#[test]
fn secret_item_describe() {
    let item = SecretItem::new("bw-ssh-agent".to_string(), "api-url".to_string());
    assert_eq!(item.describe(), "SecretItem(api-url@bw-ssh-agent)");
}

#[test]
fn stored_value_round_trip() {
    let encoded = encode_secret_value(b"hello");
    assert_eq!(encoded, "aGVsbG8=");
    assert_eq!(decode_secret_value(encoded.as_bytes()).unwrap(), b"hello".to_vec());
    let binary: Vec<u8> = (0u8..=255).collect();
    assert_eq!(decode_secret_value(encode_secret_value(&binary).as_bytes()).unwrap(), binary);
}

#[test]
fn simple_test() {
    let buf = "hello".as_bytes();
    let stored = encode_secret_value(buf);
    let stored_buf = decode_secret_value(stored.as_bytes()).expect("unable to get value");
    assert_eq!(buf, stored_buf);
}

#[test]
fn stored_value_must_be_base64() {
    assert_eq!(decode_secret_value(b"not base64!").unwrap_err(), SecretValueError::InvalidBase64);
}

#[test]
fn lookup_attributes_name_service_and_username() {
    assert_eq!(
        lookup_attributes("bw-ssh-agent", "pub-key:42"),
        vec![
            ("service".to_string(), "bw-ssh-agent".to_string()),
            ("username".to_string(), "pub-key:42".to_string()),
        ]
    );
}

#[test]
fn service_attribute_names_application() {
    assert_eq!(
        bw_ssh_agent::secret_store::service_attribute("bw-ssh-agent"),
        ("service".to_string(), "bw-ssh-agent".to_string())
    );
}

#[test]
fn store_initialisation_steps() {
    assert_eq!(
        next_init_step(InitStep::Connect, true),
        InitAction { next: InitStep::UnlockDefaultCollection, wait_secs: 0 }
    );
    assert_eq!(next_init_step(InitStep::Connect, false), InitAction { next: InitStep::Connect, wait_secs: 1 });
    assert_eq!(
        next_init_step(InitStep::UnlockDefaultCollection, true),
        InitAction { next: InitStep::Ready, wait_secs: 0 }
    );
    assert_eq!(
        next_init_step(InitStep::UnlockDefaultCollection, false),
        InitAction { next: InitStep::Connect, wait_secs: 1 }
    );
    assert_eq!(next_init_step(InitStep::Ready, true), InitAction { next: InitStep::Ready, wait_secs: 0 });
}
