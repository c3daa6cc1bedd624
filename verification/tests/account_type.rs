use switchboard_v2::{BorshDecimal, SwitchboardAccountType, SwitchboardDecimal};

#[test]
fn account_type_from_number() {
    let all = [
        SwitchboardAccountType::TYPE_UNINITIALIZED,
        SwitchboardAccountType::TYPE_AGGREGATOR,
        SwitchboardAccountType::TYPE_FULFILLMENT_MANAGER,
        SwitchboardAccountType::TYPE_JOB_DEFINITION,
        SwitchboardAccountType::TYPE_FULFILLMENT_MANAGER_AUTH,
        SwitchboardAccountType::TYPE_AGGREGATOR_RESULT_PARSE_OPTIMIZED,
        SwitchboardAccountType::TYPE_BUNDLE,
        SwitchboardAccountType::TYPE_BUNDLE_AUTH,
        SwitchboardAccountType::TYPE_VRF,
        SwitchboardAccountType::TYPE_VRF_PERMIT,
    ];
    for (i, t) in all.iter().enumerate() {
        assert_eq!(SwitchboardAccountType::from(i as i32), *t);
        assert_eq!(t.number(), i as i32);
    }
    for i in [-1, 10, 11, i32::MAX, i32::MIN] {
        assert_eq!(
            SwitchboardAccountType::from(i),
            SwitchboardAccountType::TYPE_UNINITIALIZED
        );
    }
}

#[test]
fn account_type_from_name() {
    let all = [
        ("TYPE_UNINITIALIZED", SwitchboardAccountType::TYPE_UNINITIALIZED),
        ("TYPE_AGGREGATOR", SwitchboardAccountType::TYPE_AGGREGATOR),
        (
            "TYPE_FULFILLMENT_MANAGER",
            SwitchboardAccountType::TYPE_FULFILLMENT_MANAGER,
        ),
        ("TYPE_JOB_DEFINITION", SwitchboardAccountType::TYPE_JOB_DEFINITION),
        (
            "TYPE_FULFILLMENT_MANAGER_AUTH",
            SwitchboardAccountType::TYPE_FULFILLMENT_MANAGER_AUTH,
        ),
        (
            "TYPE_AGGREGATOR_RESULT_PARSE_OPTIMIZED",
            SwitchboardAccountType::TYPE_AGGREGATOR_RESULT_PARSE_OPTIMIZED,
        ),
        ("TYPE_BUNDLE", SwitchboardAccountType::TYPE_BUNDLE),
        ("TYPE_BUNDLE_AUTH", SwitchboardAccountType::TYPE_BUNDLE_AUTH),
        ("TYPE_VRF", SwitchboardAccountType::TYPE_VRF),
        ("TYPE_VRF_PERMIT", SwitchboardAccountType::TYPE_VRF_PERMIT),
    ];
    for (name, t) in all.iter() {
        assert_eq!(SwitchboardAccountType::from(*name), *t);
    }
    for name in ["", "TYPE_VR", "TYPE_VRF ", "type_vrf", "TYPE_BUNDLE_AUTHX"] {
        assert_eq!(
            SwitchboardAccountType::from(name),
            SwitchboardAccountType::TYPE_UNINITIALIZED
        );
    }
    assert_eq!(
        SwitchboardAccountType::default(),
        SwitchboardAccountType::TYPE_UNINITIALIZED
    );
}

#[test]
fn borsh_decimal_keeps_both_fields() {
    let s = SwitchboardDecimal::new(-123456, 9);
    let b: BorshDecimal = s.into();
    assert_eq!(b.mantissa, -123456);
    assert_eq!(b.scale, 9);
    let back: SwitchboardDecimal = b.into();
    assert_eq!(back.mantissa, -123456);
    assert_eq!(back.scale, 9);
    assert_eq!(BorshDecimal::default(), BorshDecimal { mantissa: 0, scale: 0 });
    // field by field: the same value at another scale is another pair
    assert_ne!(
        BorshDecimal { mantissa: 100, scale: 0 },
        BorshDecimal { mantissa: 1000, scale: 1 }
    );
}
