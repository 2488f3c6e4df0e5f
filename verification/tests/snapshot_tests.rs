use ahash::AHashMap;
use mail_core::delivery::{BlobHash, DeliveryResult, IngestMessage, IntoString, IPC_CHANNEL_BUFFER};
use mail_core::oauth::NamedTable;
use mail_core::limiter::{collect_with_limit, exceeds_limit, initial_capacity, BodyLimiter};
use mail_core::snapshot::{
    Core, IpAddress, JmapConfig, MissKind, Network, ResourceId, Scripting, SmtpConfig, Storage,
};

fn table(entries: &[(&str, u32)]) -> AHashMap<String, u32> {
    let mut table = AHashMap::new();
    for (name, id) in entries {
        table.insert(name.to_string(), *id);
    }
    table
}

fn snapshot() -> Core {
    Core {
        storage: Storage {
            data: ResourceId(0),
            blob: ResourceId(1),
            lookup: ResourceId(2),
            directory: ResourceId(3),
            directories: table(&[("ldap", 10), ("sql", 11)]),
            lookups: table(&[("redis", 20)]),
        },
        sieve: Scripting {
            trusted_scripts: table(&[("spam", 30)]),
            untrusted_scripts: table(&[("vacation", 31)]),
        },
        network: Network {
            node_id: 1,
            blocked_ips: vec![IpAddress::V4(0x7F00_0001)],
            allowed_ips: vec![IpAddress::V6(1)],
            http_response_url: ResourceId(4),
            http_allowed_endpoint: ResourceId(5),
        },
        smtp: SmtpConfig {
            sealers: table(&[("arc", 40)]),
            signers: table(&[("rsa", 41), ("ed25519", 42)]),
            relay_hosts: table(&[("relay", 43)]),
        },
        jmap: JmapConfig {
            fallback_admin: None,
            master_user: None,
            oauth_key: "key".to_string(),
            oauth_expiry_token: 3600,
            oauth_expiry_refresh_token: 86400,
            oauth_expiry_refresh_token_renew: 7200,
            oauth_expiry_auth_code: 600,
        },
    }
}

#[test]
fn field_table_keeps_the_last_binding() {
    let mut t = NamedTable::new();
    t.insert("a".to_string(), 1);
    t.insert("b".to_string(), 2);
    t.insert("a".to_string(), 3);
    assert_eq!(t.get("a"), Some(&3));
    assert_eq!(t.get("b"), Some(&2));
    assert_eq!(t.get("A"), None);
    assert_eq!(t.get(""), None);
}

#[test]
fn directory_by_name() {
    let core = snapshot();
    assert_eq!(core.get_directory("ldap"), Some(ResourceId(10)));
    assert_eq!(core.get_directory("nope"), None);
}

#[test]
fn directory_or_default_reports_a_miss_unless_the_name_is_empty() {
    let core = snapshot();
    let (found, event) = core.get_directory_or_default("sql", 77);
    assert_eq!(found, ResourceId(11));
    assert!(event.is_none());
    let (found, event) = core.get_directory_or_default("nope", 77);
    assert_eq!(found, ResourceId(3));
    let event = event.unwrap();
    assert_eq!((event.kind, event.id.as_str(), event.span_id), (MissKind::DirectoryNotFound, "nope", 77));
    let (found, event) = core.get_directory_or_default("", 77);
    assert_eq!(found, ResourceId(3));
    assert!(event.is_none());
}

#[test]
fn lookup_store_or_default() {
    let core = snapshot();
    let (found, event) = core.get_lookup_store("redis", 1);
    assert_eq!((found, event.is_none()), (ResourceId(20), true));
    let (found, event) = core.get_lookup_store("memcache", 5);
    assert_eq!(found, ResourceId(2));
    let event = event.unwrap();
    assert_eq!((event.kind, event.id.as_str(), event.span_id), (MissKind::StoreNotFound, "memcache", 5));
    let (found, event) = core.get_lookup_store("", 5);
    assert_eq!((found, event.is_none()), (ResourceId(2), true));
}

#[test]
fn lookups_without_default_report_each_miss() {
    let core = snapshot();
    assert_eq!(core.get_arc_sealer("arc", 1).0, Some(ResourceId(40)));
    assert!(core.get_arc_sealer("arc", 1).1.is_none());
    assert_eq!(core.get_dkim_signer("ed25519", 1).0, Some(ResourceId(42)));
    assert_eq!(core.get_trusted_sieve_script("spam", 1).0, Some(ResourceId(30)));
    assert_eq!(core.get_untrusted_sieve_script("vacation", 1).0, Some(ResourceId(31)));
    assert_eq!(core.get_relay_host("relay", 1).0, Some(ResourceId(43)));

    let (found, event) = core.get_arc_sealer("x", 9);
    assert_eq!((found, event.unwrap().kind), (None, MissKind::SealerNotFound));
    let (found, event) = core.get_dkim_signer("x", 9);
    assert_eq!((found, event.unwrap().kind), (None, MissKind::SignerNotFound));
    let (found, event) = core.get_trusted_sieve_script("vacation", 9);
    assert_eq!((found, event.unwrap().kind), (None, MissKind::ScriptNotFound));
    let (found, event) = core.get_untrusted_sieve_script("spam", 9);
    assert_eq!((found, event.unwrap().kind), (None, MissKind::ScriptNotFound));
    let (found, event) = core.get_relay_host("", 9);
    let event = event.unwrap();
    assert_eq!(found, None);
    assert_eq!((event.kind, event.id.as_str(), event.span_id), (MissKind::RemoteIdNotFound, "", 9));
}

#[test]
fn http_body_limiter() {
    let limit = 1000usize;
    assert!(exceeds_limit(Some(2 * limit as u64), limit));
    assert!(exceeds_limit(Some(1001), limit));
    assert!(!exceeds_limit(Some(1000), limit));
    assert!(!exceeds_limit(None, limit));
    assert_eq!(initial_capacity(10), 10);
    assert_eq!(initial_capacity(1024), 1024);
    assert_eq!(initial_capacity(1 << 20), 1024);
}

#[test]
fn body_within_and_over_the_budget() {
    let chunks = vec![vec![1u8, 2], vec![], vec![3, 4, 5]];
    assert_eq!(collect_with_limit(&chunks, 5), Some(vec![1, 2, 3, 4, 5]));
    assert_eq!(collect_with_limit(&chunks, 4), None);
    assert_eq!(collect_with_limit(&chunks, 0), None);
    assert_eq!(collect_with_limit(&[], 0), Some(Vec::new()));
    let mut body = BodyLimiter::new(3);
    assert!(body.push(&[1, 2]));
    assert!(!body.push(&[3, 4]));
    assert!(body.push(&[3]));
    assert!(!body.push(&[4]));
    assert_eq!(body.finish(), vec![1, 2, 3]);
}

#[test]
fn bytes_into_string() {
    assert_eq!(b"hello".to_vec().into_string(), "hello");
    assert_eq!("zoë".as_bytes().to_vec().into_string(), "zoë");
    assert_eq!(vec![b'a', 0xFF, b'b'].into_string(), "a\u{FFFD}b");
    assert_eq!(Vec::<u8>::new().into_string(), "");
}

#[test]
fn delivery_messages_and_results() {
    assert_eq!(IPC_CHANNEL_BUFFER, 1024);
    let message = IngestMessage {
        sender_address: "a@example.org".to_string(),
        recipients: vec!["b@example.org".to_string(), "c@example.org".to_string()],
        message_blob: BlobHash([7; 32]),
        message_size: 1234,
        session_id: 5,
    };
    assert_eq!(message.recipients.len(), 2);
    assert_eq!(message.message_blob, BlobHash([7; 32]));
    let results = vec![
        DeliveryResult::Success,
        DeliveryResult::TemporaryFailure { reason: "busy".to_string() },
        DeliveryResult::PermanentFailure { code: [5, 5, 0], reason: "no such user".to_string() },
    ];
    assert_eq!(results[0], DeliveryResult::Success);
    assert_ne!(results[1], results[2].clone());
    assert_eq!(
        results[2],
        DeliveryResult::PermanentFailure { code: [5, 5, 0], reason: "no such user".to_string() }
    );
}
