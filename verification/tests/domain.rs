use stockin_api::domain::id::{id_from_str, id_to_text, new_id};
use stockin_api::domain::item::ItemRange;
use uuid::Uuid;

#[test]
fn test_item_range() {
    {
        let range = ItemRange {
            before: None,
            limit: None,
        };
        assert_eq!(range.extract(), (Uuid::max().as_u128(), 20));
    }

    {
        let range = ItemRange {
            before: Some(Uuid::nil().as_u128()),
            limit: None,
        };
        assert_eq!(range.extract(), (Uuid::nil().as_u128(), 20));
    }

    {
        let range = ItemRange {
            before: None,
            limit: Some(0),
        };
        assert_eq!(range.extract(), (Uuid::max().as_u128(), 1));
    }

    {
        let range = ItemRange {
            before: None,
            limit: Some(10),
        };
        assert_eq!(range.extract(), (Uuid::max().as_u128(), 10));
    }

    {
        let range = ItemRange {
            before: None,
            limit: Some(100),
        };
        assert_eq!(range.extract(), (Uuid::max().as_u128(), 50));
    }
}

#[test]
fn item_range_limit_edges() {
    let cases = [
        (i64::MIN, 1),
        (-5, 1),
        (1, 1),
        (2, 2),
        (49, 49),
        (50, 50),
        (51, 50),
        (i64::MAX, 50),
    ];
    for (limit, expected) in cases {
        let range = ItemRange {
            before: Some(7),
            limit: Some(limit),
        };
        assert_eq!(range.extract(), (7, expected));
    }
}

#[test]
fn item_range_default_bound_is_all_ones() {
    let range = ItemRange {
        before: None,
        limit: None,
    };
    assert_eq!(range.extract().0, u128::MAX);
}

#[test]
fn id_text_is_lower_case_hyphenated() {
    let v = 0xa1a2a3a4b1b2c1c2d1d2d3d4d5d6d7d8u128;
    assert_eq!(id_to_text(v), "a1a2a3a4-b1b2-c1c2-d1d2-d3d4d5d6d7d8");
    assert_eq!(id_to_text(0), "00000000-0000-0000-0000-000000000000");
    assert_eq!(id_to_text(u128::MAX), "ffffffff-ffff-ffff-ffff-ffffffffffff");
    assert_eq!(id_to_text(0xAB), "00000000-0000-0000-0000-0000000000ab");
}

#[test]
fn id_from_str_accepts_the_four_shapes() {
    let v = 0x936da01f9abd4d9d80c702af85c822a8u128;
    assert_eq!(id_from_str("936da01f-9abd-4d9d-80c7-02af85c822a8"), Some(v));
    assert_eq!(id_from_str("936DA01F-9ABD-4D9D-80C7-02AF85C822A8"), Some(v));
    assert_eq!(id_from_str("936da01f9abd4d9d80c702af85c822a8"), Some(v));
    assert_eq!(id_from_str("{936da01f-9abd-4d9d-80c7-02af85c822a8}"), Some(v));
    assert_eq!(id_from_str("urn:uuid:936da01f-9abd-4d9d-80c7-02af85c822a8"), Some(v));
    assert_eq!(id_from_str("URN:UUID:936da01f-9abd-4d9d-80c7-02af85c822a8"), Some(v));
}

#[test]
fn id_from_str_refuses_other_text() {
    assert_eq!(id_from_str(""), None);
    assert_eq!(id_from_str("936da01f-9abd-4d9d-80c7-02af85c822a"), None);
    assert_eq!(id_from_str("936da01f-9abd-4d9d-80c7-02af85c822ag"), None);
    assert_eq!(id_from_str("936da01f+9abd-4d9d-80c7-02af85c822a8"), None);
    assert_eq!(id_from_str("936da01f9abd4d9d80c702af85c822ax"), None);
    assert_eq!(id_from_str("[936da01f-9abd-4d9d-80c7-02af85c822a8]"), None);
    assert_eq!(id_from_str("urn:uuld:936da01f-9abd-4d9d-80c7-02af85c822a8"), None);
    assert_eq!(id_from_str("936da01f-9abd-4d9d-80c7-02af85c822é"), None);
}

#[test]
fn id_text_round_trip() {
    for v in [0u128, 1, 42, 0x0123456789abcdef0123456789abcdef, u128::MAX - 1, u128::MAX] {
        assert_eq!(id_from_str(&id_to_text(v)), Some(v));
    }
}

#[test]
fn new_ids_are_time_ordered_and_below_max() {
    for _ in 0..20 {
        let id = new_id();
        assert_eq!((id >> 76) & 0xf, 7);
        assert_eq!((id >> 62) & 0x3, 2);
        assert!(id < u128::MAX);
    }
}

#[test]
fn id_texts_sort_as_ids() {
    let ids = [
        0u128,
        9,
        10,
        15,
        16,
        0xff,
        0x100,
        0x0123456789abcdef0123456789abcdef,
        0x9fffffffffffffffffffffffffffffff,
        0xa0000000000000000000000000000000,
        u128::MAX - 1,
        u128::MAX,
    ];
    for a in ids {
        for b in ids {
            assert_eq!(id_to_text(a) < id_to_text(b), a < b, "{} {}", a, b);
        }
    }
}

#[test]
fn fresh_ids_lie_below_the_default_bound() {
    let range = ItemRange {
        before: None,
        limit: None,
    };
    let (before, _) = range.extract();
    for _ in 0..10 {
        assert!(new_id() < before);
    }
}

#[test]
fn version_field_of_a_time_ordered_id() {
    let v = id_from_str("015cb15a-86d8-7000-8000-000000000000").unwrap();
    assert_eq!((v >> 76) & 0xf, 7);
    assert_eq!((v >> 62) & 0x3, 2);
    let w = uuid::Uuid::from_u128(new_id());
    assert_eq!(w.get_version_num(), 7);
    assert_eq!(w.get_variant(), uuid::Variant::RFC4122);
}
