use shard_id::{
    ParseError, ShardConfigError, ShardCount, ShardIdentity, ShardIndex, ShardNumber,
    ShardStripeSize, TenantId, TenantShardId, DEFAULT_STRIPE_SIZE_PAGES,
};

const EXAMPLE_TENANT_ID: &str = "1f359dd625e519a1a4e8d7509690f6fc";

#[test]
fn tenant_shard_id_string() {
    let example = TenantShardId {
        tenant_id: TenantId::from_hex(EXAMPLE_TENANT_ID).unwrap(),
        shard_count: ShardCount(10),
        shard_number: ShardNumber(7),
    };

    let encoded = example.encode_text();

    let expected = format!("{EXAMPLE_TENANT_ID}-070a");
    assert_eq!(&encoded, &expected);

    let decoded = TenantShardId::decode_text(&encoded).unwrap();

    assert_eq!(example, decoded);
}

#[test]
fn tenant_shard_id_binary() {
    let example = TenantShardId {
        tenant_id: TenantId::from_hex(EXAMPLE_TENANT_ID).unwrap(),
        shard_count: ShardCount(10),
        shard_number: ShardNumber(7),
    };

    let encoded = example.encode_binary();
    let expected: [u8; 18] = [
        0x1f, 0x35, 0x9d, 0xd6, 0x25, 0xe5, 0x19, 0xa1, 0xa4, 0xe8, 0xd7, 0x50, 0x96, 0x90, 0xf6,
        0xfc, 0x07, 0x0a,
    ];
    assert_eq!(encoded, expected.to_vec());

    let decoded = TenantShardId::decode_binary(&encoded).unwrap();

    assert_eq!(example, decoded);
}

#[test]
fn tenant_shard_id_backward_compat() {
    // A bare tenant id in human readable form decodes as a TenantShardId.
    let example = TenantId::from_hex(EXAMPLE_TENANT_ID).unwrap();
    let encoded = example.to_hex();

    assert_eq!(&encoded, EXAMPLE_TENANT_ID);

    let decoded = TenantShardId::decode_text(&encoded).unwrap();

    assert_eq!(example, decoded.tenant_id);
    assert_eq!(decoded.shard_count, ShardCount(0));
    assert_eq!(decoded.shard_number, ShardNumber(0));
}

#[test]
fn tenant_shard_id_forward_compat() {
    // A legacy TenantShardId encodes into a form that decodes as a TenantId.
    let example_tenant_id = TenantId::from_hex(EXAMPLE_TENANT_ID).unwrap();
    let example = TenantShardId::unsharded(example_tenant_id.clone());
    let encoded = example.encode_text();

    assert_eq!(&encoded, EXAMPLE_TENANT_ID);

    let decoded = TenantId::from_hex(&encoded).unwrap();

    assert_eq!(example_tenant_id, decoded);
}

#[test]
fn tenant_shard_id_legacy_binary() {
    // Unlike the human readable encoding, the binary encoding has no special
    // handling of legacy unsharded tenants: the shard bytes are simply zero.
    let example = TenantShardId::unsharded(TenantId::from_hex(EXAMPLE_TENANT_ID).unwrap());
    let encoded = example.encode_binary();

    let expected: [u8; 18] = [
        0x1f, 0x35, 0x9d, 0xd6, 0x25, 0xe5, 0x19, 0xa1, 0xa4, 0xe8, 0xd7, 0x50, 0x96, 0x90, 0xf6,
        0xfc, 0x00, 0x00,
    ];
    assert_eq!(encoded, expected.to_vec());

    let decoded = TenantShardId::decode_binary(&encoded).unwrap();
    assert_eq!(example, decoded);
}

#[test]
fn shard_identity_validation() {
    // Happy cases
    ShardIdentity::new(
        ShardNumber(0),
        ShardCount(1),
        ShardStripeSize(DEFAULT_STRIPE_SIZE_PAGES),
    )
    .unwrap();
    ShardIdentity::new(ShardNumber(0), ShardCount(1), ShardStripeSize(1)).unwrap();
    ShardIdentity::new(ShardNumber(254), ShardCount(255), ShardStripeSize(1)).unwrap();

    assert_eq!(
        ShardIdentity::new(
            ShardNumber(0),
            ShardCount(0),
            ShardStripeSize(DEFAULT_STRIPE_SIZE_PAGES)
        ),
        Err(ShardConfigError::InvalidCount)
    );
    assert_eq!(
        ShardIdentity::new(
            ShardNumber(10),
            ShardCount(10),
            ShardStripeSize(DEFAULT_STRIPE_SIZE_PAGES)
        ),
        Err(ShardConfigError::InvalidNumber)
    );
    assert_eq!(
        ShardIdentity::new(
            ShardNumber(11),
            ShardCount(10),
            ShardStripeSize(DEFAULT_STRIPE_SIZE_PAGES)
        ),
        Err(ShardConfigError::InvalidNumber)
    );
    assert_eq!(
        ShardIdentity::new(
            ShardNumber(255),
            ShardCount(255),
            ShardStripeSize(DEFAULT_STRIPE_SIZE_PAGES)
        ),
        Err(ShardConfigError::InvalidNumber)
    );
    assert_eq!(
        ShardIdentity::new(ShardNumber(0), ShardCount(1), ShardStripeSize(0)),
        Err(ShardConfigError::InvalidStripeSize)
    );
}

#[test]
fn shard_index_human_encoding() {
    let example = ShardIndex {
        shard_number: ShardNumber(13),
        shard_count: ShardCount(17),
    };
    let expected: String = "0d11".to_string();
    let encoded = example.encode_text();
    assert_eq!(&encoded, &expected);

    let decoded = ShardIndex::decode_text(&encoded).unwrap();
    assert_eq!(example, decoded);
}

#[test]
fn shard_index_binary_encoding() {
    let example = ShardIndex {
        shard_number: ShardNumber(13),
        shard_count: ShardCount(17),
    };
    let expected: [u8; 2] = [0x0d, 0x11];

    let encoded = example.encode_binary();
    assert_eq!(encoded, expected.to_vec());
    let decoded = ShardIndex::decode_binary(&encoded).unwrap();
    assert_eq!(example, decoded);
}

#[test]
fn decode_rejects_bad_lengths() {
    // Neither of the accepted lengths may be padded or truncated silently.
    assert_eq!(
        TenantShardId::decode_text(""),
        Err(ParseError::InvalidStringLength)
    );
    assert_eq!(
        TenantShardId::decode_text(&EXAMPLE_TENANT_ID[..31]),
        Err(ParseError::InvalidStringLength)
    );
    let with_sep = format!("{EXAMPLE_TENANT_ID}-");
    assert_eq!(
        TenantShardId::decode_text(&with_sep),
        Err(ParseError::InvalidStringLength)
    );
    let too_short_slug = format!("{EXAMPLE_TENANT_ID}-070");
    assert_eq!(
        TenantShardId::decode_text(&too_short_slug),
        Err(ParseError::InvalidStringLength)
    );
    let too_long = format!("{EXAMPLE_TENANT_ID}-070a0");
    assert_eq!(
        TenantShardId::decode_text(&too_long),
        Err(ParseError::InvalidStringLength)
    );

    assert_eq!(ShardIndex::decode_text(""), Err(ParseError::InvalidStringLength));
    assert_eq!(ShardIndex::decode_text("0d1"), Err(ParseError::InvalidStringLength));
    assert_eq!(ShardIndex::decode_text("0d110"), Err(ParseError::InvalidStringLength));

    assert_eq!(TenantId::from_hex("abcd"), Err(ParseError::InvalidStringLength));
}

#[test]
fn decode_rejects_bad_digits() {
    let bad_tenant = "zf359dd625e519a1a4e8d7509690f6fc";
    assert_eq!(
        TenantShardId::decode_text(bad_tenant),
        Err(ParseError::InvalidHexCharacter)
    );
    assert_eq!(TenantId::from_hex(bad_tenant), Err(ParseError::InvalidHexCharacter));

    let bad_slug = format!("{EXAMPLE_TENANT_ID}-07xa");
    assert_eq!(
        TenantShardId::decode_text(&bad_slug),
        Err(ParseError::InvalidHexCharacter)
    );

    assert_eq!(
        ShardIndex::decode_text("0g11"),
        Err(ParseError::InvalidHexCharacter)
    );
}

#[test]
fn decode_accepts_uppercase_digits() {
    let decoded = ShardIndex::decode_text("0D11").unwrap();
    assert_eq!(decoded.shard_number, ShardNumber(13));
    assert_eq!(decoded.shard_count, ShardCount(17));
}

#[test]
fn decode_separator_is_positional() {
    // The character between the tenant id and the slug is fixed by position,
    // not checked: any character parses there.
    let odd_sep = format!("{EXAMPLE_TENANT_ID}x070a");
    let decoded = TenantShardId::decode_text(&odd_sep).unwrap();
    assert_eq!(decoded.shard_number, ShardNumber(7));
    assert_eq!(decoded.shard_count, ShardCount(10));
}

#[test]
fn decode_binary_rejects_bad_lengths() {
    let bytes17: Vec<u8> = vec![0u8; 17];
    assert_eq!(TenantShardId::decode_binary(&bytes17), None);
    let bytes19: Vec<u8> = vec![0u8; 19];
    assert_eq!(TenantShardId::decode_binary(&bytes19), None);
    let bytes1: Vec<u8> = vec![0u8; 1];
    assert_eq!(ShardIndex::decode_binary(&bytes1), None);
    let bytes3: Vec<u8> = vec![0u8; 3];
    assert_eq!(ShardIndex::decode_binary(&bytes3), None);
}

#[test]
fn shard_index_constructors() {
    let idx = ShardIndex::new(ShardNumber(3), ShardCount(8));
    assert_eq!(idx.shard_number, ShardNumber(3));
    assert_eq!(idx.shard_count, ShardCount(8));
    assert!(!idx.is_unsharded());

    let legacy = ShardIndex::unsharded();
    assert_eq!(legacy.shard_number, ShardNumber(0));
    assert_eq!(legacy.shard_count, ShardCount(0));
    assert!(legacy.is_unsharded());

    // A single-shard tenant is not the legacy sentinel.
    let single = ShardIndex::new(ShardNumber(0), ShardCount(1));
    assert!(!single.is_unsharded());
}

#[test]
fn shard_index_suffix() {
    assert_eq!(ShardIndex::unsharded().get_suffix(), "");
    let idx = ShardIndex::new(ShardNumber(13), ShardCount(17));
    assert_eq!(idx.get_suffix(), "-0d11");
    let top = ShardIndex::new(ShardNumber(255), ShardCount(255));
    assert_eq!(top.get_suffix(), "-ffff");
}

#[test]
fn shard_slug_ignores_legacy_status() {
    let example = TenantShardId {
        tenant_id: TenantId::from_hex(EXAMPLE_TENANT_ID).unwrap(),
        shard_count: ShardCount(10),
        shard_number: ShardNumber(7),
    };
    assert_eq!(example.shard_slug(), "070a");

    let legacy = TenantShardId::unsharded(TenantId::from_hex(EXAMPLE_TENANT_ID).unwrap());
    assert_eq!(legacy.shard_slug(), "0000");
}

#[test]
fn shard_identity_unsharded() {
    let id = ShardIdentity::unsharded();
    assert_eq!(id.number, ShardNumber(0));
    assert_eq!(id.count, ShardCount(0));
    assert_eq!(id.stripe_size, ShardStripeSize(DEFAULT_STRIPE_SIZE_PAGES));
    assert!(id.is_unsharded());

    let built = ShardIdentity::new(ShardNumber(2), ShardCount(4), ShardStripeSize(9)).unwrap();
    assert_eq!(built.number, ShardNumber(2));
    assert_eq!(built.count, ShardCount(4));
    assert_eq!(built.stripe_size, ShardStripeSize(9));
    assert!(!built.is_unsharded());
}

#[test]
fn tenant_range_bounds() {
    let tenant = TenantId::from_hex(EXAMPLE_TENANT_ID).unwrap();
    let range = TenantShardId::tenant_range(tenant.clone());

    assert_eq!(range.start().tenant_id, tenant);
    assert_eq!(range.start().shard_number, ShardNumber(0));
    assert_eq!(range.start().shard_count, ShardCount(0));
    assert_eq!(range.end().tenant_id, tenant);
    assert_eq!(range.end().shard_number, ShardNumber(255));
    assert_eq!(range.end().shard_count, ShardCount(255));

    // Every id of this tenant lies within the bounds, ids of other tenants
    // lie outside, under the library's order.
    let inside = TenantShardId {
        tenant_id: tenant.clone(),
        shard_number: ShardNumber(7),
        shard_count: ShardCount(10),
    };
    assert!(range.start().le(&inside));
    assert!(inside.le(range.end()));

    let other = TenantId::from_hex("ffffffffffffffffffffffffffffffff").unwrap();
    let outside = TenantShardId {
        tenant_id: other,
        shard_number: ShardNumber(0),
        shard_count: ShardCount(0),
    };
    assert!(!outside.le(range.end()));
}

#[test]
fn ordering_is_lexicographic() {
    let tenant = TenantId::from_hex(EXAMPLE_TENANT_ID).unwrap();
    let a = TenantShardId {
        tenant_id: tenant.clone(),
        shard_number: ShardNumber(0),
        shard_count: ShardCount(2),
    };
    let b = TenantShardId {
        tenant_id: tenant.clone(),
        shard_number: ShardNumber(1),
        shard_count: ShardCount(2),
    };
    assert!(a.le(&b));
    assert!(!b.le(&a));
    assert!(a.le(&a));

    let earlier_tenant = TenantId::from_hex("0f359dd625e519a1a4e8d7509690f6fc").unwrap();
    let c = TenantShardId {
        tenant_id: earlier_tenant,
        shard_number: ShardNumber(255),
        shard_count: ShardCount(255),
    };
    assert!(c.le(&a));
    assert!(!a.le(&c));
}

#[test]
fn shard_index_from_tenant_shard_id() {
    let example = TenantShardId {
        tenant_id: TenantId::from_hex(EXAMPLE_TENANT_ID).unwrap(),
        shard_count: ShardCount(10),
        shard_number: ShardNumber(7),
    };
    let idx = example.shard_index();
    assert_eq!(idx.shard_number, ShardNumber(7));
    assert_eq!(idx.shard_count, ShardCount(10));
}

#[test]
fn legacy_text_keeps_sentinel_form() {
    // Count zero always renders as the bare tenant id, whatever the number
    // field holds: textual legacy form is decided by the count alone.
    let odd = TenantShardId {
        tenant_id: TenantId::from_hex(EXAMPLE_TENANT_ID).unwrap(),
        shard_number: ShardNumber(7),
        shard_count: ShardCount(0),
    };
    assert_eq!(odd.encode_text(), EXAMPLE_TENANT_ID);
}

#[test]
fn tenant_id_bytes_view() {
    let tenant = TenantId::from_hex(EXAMPLE_TENANT_ID).unwrap();
    let expected: [u8; 16] = [
        0x1f, 0x35, 0x9d, 0xd6, 0x25, 0xe5, 0x19, 0xa1, 0xa4, 0xe8, 0xd7, 0x50, 0x96, 0x90, 0xf6,
        0xfc,
    ];
    assert_eq!(tenant.as_bytes(), &expected.to_vec());

    let rebuilt = TenantId::new(expected.to_vec());
    assert_eq!(rebuilt, tenant);
    assert_eq!(rebuilt.to_hex(), EXAMPLE_TENANT_ID);
}
