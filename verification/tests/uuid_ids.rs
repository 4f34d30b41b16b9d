use sdkwork_id_core::uuid_gen::{prefixed_uuid, UuidV5Generator};
use sdkwork_id_core::{
    generate_batch, uuid_v4, uuid_v4_with_prefix, IdGenerator, UuidIdGenerator,
};
use uuid::Uuid;

#[test]
fn generate_batch_works() {
    let gen = UuidIdGenerator::new("");
    let ids = generate_batch(&gen, 100).unwrap();
    assert_eq!(ids.len(), 100);
    // All IDs should be unique
    let unique: std::collections::HashSet<_> = ids.iter().collect();
    assert_eq!(unique.len(), 100);
}

#[test]
fn uuid_v4_is_unique() {
    let a = uuid_v4();
    let b = uuid_v4();
    assert_ne!(a, b);
}

#[test]
fn uuid_v4_with_prefix_format() {
    let id = uuid_v4_with_prefix("user_");
    assert!(id.starts_with("user_"));
}

#[test]
fn uuid_id_generator_trait() {
    let gen = UuidIdGenerator::new("test_");
    match gen.next_id() {
        Ok(id) => {
            assert!(id.starts_with("test_"));
            assert_eq!(gen.label(), "uuid-v4");
        }
        Err(e) => panic!("should generate id: {}", e.to_string()),
    }
}

#[test]
fn uuid_v5_deterministic() {
    let gen =
        UuidV5Generator::from_namespace_str("6ba7b810-9dad-11d1-80b4-00c04fd430c8", "user_")
            .unwrap();
    let a = gen.generate_for("alice").unwrap();
    let b = gen.generate_for("alice").unwrap();
    let c = gen.generate_for("bob").unwrap();
    assert_eq!(a, b);
    assert_ne!(a, c);
}

#[test]
fn named_uuids_are_exact() {
    let gen =
        UuidV5Generator::from_namespace_str("6ba7b810-9dad-11d1-80b4-00c04fd430c8", "id:").unwrap();
    assert_eq!(
        gen.generate_for("example.org").unwrap(),
        "id:aad03681-8b63-5304-89e0-8ca8f49461b5"
    );
    let same = UuidV5Generator::new(Uuid::NAMESPACE_DNS.into_bytes(), "");
    assert_eq!(
        same.generate_for("rust-lang.org").unwrap(),
        "c66bbb60-d62e-5f17-a399-3a0bd237c503"
    );
    let url = UuidV5Generator::new(Uuid::NAMESPACE_URL.into_bytes(), "");
    assert_eq!(
        url.generate_for("rust-lang.org").unwrap(),
        "c48d927f-4122-5413-968c-598b1780e749"
    );
}

#[test]
fn a_namespace_may_be_written_in_any_common_form() {
    let forms = [
        "6ba7b8109dad11d180b400c04fd430c8",
        "6BA7B810-9DAD-11D1-80B4-00C04FD430C8",
        "{6ba7b810-9dad-11d1-80b4-00c04fd430c8}",
        "urn:uuid:6ba7b810-9dad-11d1-80b4-00c04fd430c8",
    ];
    for form in forms {
        let gen = UuidV5Generator::from_namespace_str(form, "").unwrap();
        assert_eq!(
            gen.generate_for("example.org").unwrap(),
            "aad03681-8b63-5304-89e0-8ca8f49461b5"
        );
    }
}

#[test]
fn a_namespace_that_is_no_uuid_is_refused() {
    for text in ["", "nonsense", "6ba7b810-9dad-11d1-80b4-00c04fd430cx"] {
        let expected = Uuid::parse_str(text).unwrap_err();
        match UuidV5Generator::from_namespace_str(text, "user_") {
            Ok(_) => panic!("{} should be refused", text),
            Err(e) => assert_eq!(e, expected),
        }
    }
}

#[test]
fn a_named_generator_without_a_name_falls_back_to_random_ids() {
    let gen = UuidV5Generator::new([0; 16], "x_");
    assert_eq!(gen.label(), "uuid-v5");
    let a = gen.next_id().unwrap();
    let b = gen.next_id().unwrap();
    assert_ne!(a, b);
    assert_eq!(a.len(), 38);
    assert_eq!(a.as_bytes()[2 + 14], b'4');
}

#[test]
fn random_ids_are_version_four_text() {
    for _ in 0..50 {
        let id = uuid_v4();
        assert_eq!(id.len(), 36);
        let parsed = Uuid::parse_str(&id).unwrap();
        assert_eq!(parsed.get_version_num(), 4);
        assert_eq!(parsed.get_variant(), uuid::Variant::RFC4122);
        assert_eq!(parsed.as_hyphenated().to_string(), id);
    }
}

#[test]
fn uuids_are_written_in_lower_case_groups() {
    let bytes = [
        0x00, 0x11, 0x2a, 0xbc, 0xde, 0xf0, 0x47, 0x58, 0x89, 0x9a, 0x0b, 0x0c, 0x0d, 0x0e, 0x0f,
        0xff,
    ];
    assert_eq!(
        prefixed_uuid("p-", &bytes),
        "p-00112abc-def0-4758-899a-0b0c0d0e0fff"
    );
}

#[test]
fn a_clone_keeps_the_prefix() {
    let gen = UuidIdGenerator::new("a_").clone();
    assert!(gen.next_id().unwrap().starts_with("a_"));
}
