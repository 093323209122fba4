use hub_core::schema::hex;
use hub_core::schema::sync::{
    check_schema, check_status, go_opt_arg, go_out_arg, proto_file_name, protoc_args,
    record_download, registry_route, schema_url, FetchError, Gen,
};
use hub_core::util::text::decimal;
use hub_core::schema::{
    not_found_opt, same_bytes, LockMap, LockedSchema, Schema, SchemaSpec, SchemaSpecConfig,
};

const ABC_SHA512: &str = "ddaf35a193617abacc417349ae20413112e6fa4e89a97ea20a9eeee64b55d39a\
2192992a274fc1a836ba3c23a3feebbd454d4423643ce80e2a9ac94fa54ca49f";

fn unhex(text: &str) -> Vec<u8> {
    (0..text.len())
        .step_by(2)
        .map(|i| u8::from_str_radix(&text[i..i + 2], 16).unwrap())
        .collect()
}

fn schema(subject: &str, version: usize) -> Schema {
    Schema { subject: subject.into(), spec: SchemaSpec { version, go_mod: None } }
}

fn locked(subject: &str, version: usize, sha512: Vec<u8>) -> LockedSchema {
    LockedSchema { subject: subject.into(), version, sha512 }
}

#[test]
fn simple_entry_into_schema() {
    let s = SchemaSpecConfig::Simple(3).into_schema("orders".into());
    assert_eq!(s, schema("orders", 3));
}

#[test]
fn complex_entry_into_schema() {
    let spec = SchemaSpec { version: 7, go_mod: Some("example.com/orders".into()) };
    let s = SchemaSpecConfig::Complex(spec.clone()).into_schema("orders".into());
    assert_eq!(s.subject, "orders");
    assert_eq!(s.spec, spec);
}

#[test]
fn not_found_is_no_file() {
    let r: Result<Option<u8>, _> =
        not_found_opt(std::io::Error::from(std::io::ErrorKind::NotFound));
    assert!(matches!(r, Ok(None)));
    let r: Result<Option<u8>, _> =
        not_found_opt(std::io::Error::from(std::io::ErrorKind::PermissionDenied));
    assert!(matches!(r, Err(e) if e.kind() == std::io::ErrorKind::PermissionDenied));
}

#[test]
fn read_lock_by_subject_and_version() {
    let map = LockMap::from_locked(vec![locked("a", 1, vec![1]), locked("b", 2, vec![2])]);
    assert_eq!(map.read_lock(&schema("a", 1)), Some(&locked("a", 1, vec![1])));
    assert_eq!(map.read_lock(&schema("b", 2)), Some(&locked("b", 2, vec![2])));
    assert_eq!(map.read_lock(&schema("a", 2)), None);
    assert_eq!(map.read_lock(&schema("c", 1)), None);
    assert_eq!(LockMap::new().read_lock(&schema("a", 1)), None);
}

#[test]
fn later_record_replaces_earlier() {
    let map = LockMap::from_locked(vec![
        locked("a", 1, vec![1]),
        locked("b", 2, vec![2]),
        locked("a", 3, vec![3]),
    ]);
    assert_eq!(map.locked_schemas().len(), 2);
    assert_eq!(map.read_lock(&schema("a", 3)), Some(&locked("a", 3, vec![3])));
    assert_eq!(map.read_lock(&schema("a", 1)), None);
    let mut map = map;
    map.insert(locked("b", 5, vec![5]));
    map.insert(locked("c", 1, vec![]));
    assert_eq!(map.locked_schemas().len(), 3);
    assert_eq!(map.read_lock(&schema("b", 5)), Some(&locked("b", 5, vec![5])));
    assert_eq!(map.read_lock(&schema("c", 1)), Some(&locked("c", 1, vec![])));
}

#[test]
fn locks_compare_by_content() {
    let one = LockMap::from_locked(vec![locked("a", 1, vec![1]), locked("b", 2, vec![2])]);
    let two = LockMap::from_locked(vec![locked("b", 2, vec![2]), locked("a", 1, vec![1])]);
    assert!(one.same_as(&two));
    assert!(two.same_as(&one));
    let other = LockMap::from_locked(vec![locked("a", 1, vec![1]), locked("b", 2, vec![9])]);
    assert!(!one.same_as(&other));
    let other = LockMap::from_locked(vec![locked("a", 1, vec![1]), locked("b", 3, vec![2])]);
    assert!(!one.same_as(&other));
    let other = LockMap::from_locked(vec![locked("a", 1, vec![1]), locked("c", 2, vec![2])]);
    assert!(!one.same_as(&other));
    let other = LockMap::from_locked(vec![locked("a", 1, vec![1])]);
    assert!(!one.same_as(&other));
    assert!(!other.same_as(&one));
    assert!(LockMap::new().same_as(&LockMap::new()));
}

#[test]
fn same_bytes_values() {
    assert!(same_bytes(&vec![], &vec![]));
    assert!(same_bytes(&vec![1, 2, 3], &vec![1, 2, 3]));
    assert!(!same_bytes(&vec![1, 2, 3], &vec![1, 2, 4]));
    assert!(!same_bytes(&vec![1, 2], &vec![1, 2, 3]));
}

#[test]
fn check_schema_against_lock() {
    let map = LockMap::from_locked(vec![locked("abc", 1, unhex(ABC_SHA512))]);
    assert!(check_schema(Some(b"abc"), &schema("abc", 1), &map));
    assert!(!check_schema(Some(b"abd"), &schema("abc", 1), &map));
    assert!(!check_schema(Some(b"abc"), &schema("abc", 2), &map));
    assert!(!check_schema(Some(b"abc"), &schema("other", 1), &map));
    assert!(!check_schema(None, &schema("abc", 1), &map));
}

#[test]
fn download_is_recorded() {
    let mut map = LockMap::new();
    assert_eq!(record_download(&mut map, schema("abc", 4), b"abc"), Ok(()));
    assert_eq!(
        map.read_lock(&schema("abc", 4)),
        Some(&locked("abc", 4, unhex(ABC_SHA512)))
    );
    // The same download again matches the lock.
    assert_eq!(record_download(&mut map, schema("abc", 4), b"abc"), Ok(()));
    assert_eq!(map.locked_schemas().len(), 1);
}

#[test]
fn download_mismatch_is_refused() {
    let mut map = LockMap::from_locked(vec![locked("abc", 4, unhex(ABC_SHA512))]);
    assert_eq!(
        record_download(&mut map, schema("abc", 4), b"tampered"),
        Err(FetchError::ChecksumMismatch { subject: "abc".into(), version: 4 })
    );
    assert_eq!(
        map.read_lock(&schema("abc", 4)),
        Some(&locked("abc", 4, unhex(ABC_SHA512)))
    );
}

#[test]
fn download_of_another_version_replaces_the_record() {
    let mut map = LockMap::from_locked(vec![locked("abc", 3, vec![0; 64])]);
    assert_eq!(record_download(&mut map, schema("abc", 4), b"abc"), Ok(()));
    assert_eq!(map.locked_schemas().len(), 1);
    assert_eq!(
        map.read_lock(&schema("abc", 4)),
        Some(&locked("abc", 4, unhex(ABC_SHA512)))
    );
}

#[test]
fn decimal_values() {
    assert_eq!(decimal(0), "0");
    assert_eq!(decimal(7), "7");
    assert_eq!(decimal(10), "10");
    assert_eq!(decimal(1234567890), "1234567890");
    assert_eq!(decimal(u64::MAX), "18446744073709551615");
}

#[test]
fn hex_encode_values() {
    assert_eq!(hex::encode(&[]), "");
    assert_eq!(hex::encode(&[0x00, 0x0f, 0xa0, 0xff]), "000fa0ff");
    assert_eq!(hex::encode(b"abc"), "616263");
}

#[test]
fn hex_decode_values() {
    assert_eq!(hex::decode(""), Some(vec![]));
    assert_eq!(hex::decode("000fa0ff"), Some(vec![0x00, 0x0f, 0xa0, 0xff]));
    assert_eq!(hex::decode("000FA0Ff"), Some(vec![0x00, 0x0f, 0xa0, 0xff]));
    assert_eq!(hex::decode("0"), None);
    assert_eq!(hex::decode("abc"), None);
    assert_eq!(hex::decode("0g"), None);
    assert_eq!(hex::decode("g0"), None);
    assert_eq!(hex::decode("00 1"), None);
    assert_eq!(hex::decode("\u{e9}\u{e9}"), None);
}

#[test]
fn hex_round_trip() {
    let all: Vec<u8> = (0..=255).collect();
    assert_eq!(hex::decode(&hex::encode(&all)), Some(all));
    assert_eq!(hex::decode(ABC_SHA512), Some(unhex(ABC_SHA512)));
    assert_eq!(hex::encode(&unhex(ABC_SHA512)), ABC_SHA512);
}

#[test]
fn registry_route_of_schema() {
    assert_eq!(
        registry_route(&schema("orders", 12)),
        vec!["subjects", "orders", "versions", "12", "schema"]
    );
    assert_eq!(proto_file_name(&schema("orders", 12)), "orders.proto");
}

#[test]
fn schema_url_below_endpoint() {
    let endpoint = url::Url::parse("https://registry.example.com/api").unwrap();
    let url = schema_url(&endpoint, &schema("orders", 12)).unwrap();
    assert_eq!(
        url.as_str(),
        "https://registry.example.com/api/subjects/orders/versions/12/schema"
    );
    assert_eq!(endpoint.as_str(), "https://registry.example.com/api");
    let endpoint = url::Url::parse("mailto:registry@example.com").unwrap();
    assert_eq!(
        schema_url(&endpoint, &schema("orders", 12)),
        Err(FetchError::InvalidEndpoint)
    );
}

#[test]
fn status_classes() {
    assert_eq!(check_status(200), Ok(()));
    assert_eq!(check_status(299), Ok(()));
    assert_eq!(check_status(199), Err(FetchError::Status(199)));
    assert_eq!(check_status(300), Err(FetchError::Status(300)));
    assert_eq!(check_status(404), Err(FetchError::Status(404)));
}

#[test]
fn protoc_arguments() {
    let mut with_mod = schema("b", 1);
    with_mod.spec.go_mod = Some("example.com/b".into());
    let protos = vec![
        ("out/a.proto".to_string(), schema("a", 1)),
        ("out/b.proto".to_string(), with_mod),
    ];
    assert_eq!(
        protoc_args(&protos, Gen::Go, "out"),
        vec![
            "out/a.proto",
            "out/b.proto",
            "--go_out=out",
            "--go_opt=Mout/b.proto=example.com/b",
        ]
    );
    assert_eq!(protoc_args(&vec![], Gen::Go, "."), vec!["--go_out=."]);
    assert_eq!(go_out_arg("gen"), "--go_out=gen");
    assert_eq!(go_opt_arg("x.proto", "m"), "--go_opt=Mx.proto=m");
}
