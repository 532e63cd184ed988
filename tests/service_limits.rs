use wal_segment::{
    LimitUpdate, MaxColumnsPerTable, MaxTables, NamespaceServiceProtectionLimitsOverride,
    ServiceLimitError, ServiceLimitUpdate, ServiceProtectionLimits,
};

#[test]
fn max_tables_from_usize() {
    assert_eq!(MaxTables::try_from(1usize).unwrap().get(), 1);

    assert_eq!(
        MaxTables::try_from(0usize).unwrap_err().to_string(),
        "service limit values must be greater than 0"
    );
    assert_eq!(
        MaxTables::try_from(i32::MAX as usize + 1)
            .unwrap_err()
            .to_string(),
        "service limit values must fit in a 32-bit signed integer (`i32`)"
    );
}

#[test]
fn max_tables_from_u64() {
    assert_eq!(MaxTables::try_from(1u64).unwrap().get(), 1);

    assert_eq!(
        MaxTables::try_from(0u64).unwrap_err().to_string(),
        "service limit values must be greater than 0"
    );
    assert_eq!(
        MaxTables::try_from(i32::MAX as u64 + 1)
            .unwrap_err()
            .to_string(),
        "service limit values must fit in a 32-bit signed integer (`i32`)"
    );
}

#[test]
fn max_tables_from_i32() {
    assert_eq!(MaxTables::try_from(1i32).unwrap().get(), 1);
    assert_eq!(
        MaxTables::try_from(i32::MAX).unwrap().get(),
        i32::MAX as usize
    );

    assert_eq!(
        MaxTables::try_from(0i32).unwrap_err().to_string(),
        "service limit values must be greater than 0"
    );
    assert_eq!(
        MaxTables::try_from(-1i32).unwrap_err().to_string(),
        "service limit values must be greater than 0"
    );
}

#[test]
fn max_columns_per_table_bounds() {
    assert_eq!(MaxColumnsPerTable::try_from(7usize).unwrap().get(), 7);
    assert_eq!(MaxColumnsPerTable::try_from(7usize).unwrap().get_i32(), 7);
    assert_eq!(
        MaxColumnsPerTable::try_from(i32::MAX as u64).unwrap().get(),
        i32::MAX as usize
    );
    assert_eq!(
        MaxColumnsPerTable::try_from(u64::MAX).unwrap_err(),
        ServiceLimitError::MustFitInI32
    );
    assert_eq!(
        MaxColumnsPerTable::try_from(i32::MIN).unwrap_err(),
        ServiceLimitError::MustBeGreaterThanZero
    );
}

#[test]
fn service_limit_defaults() {
    assert_eq!(MaxTables::default().get(), 500);
    assert_eq!(MaxColumnsPerTable::default().get(), 200);
    assert_eq!(MaxTables::const_default().get_i32(), 500);
}

#[test]
fn no_value_specified_message() {
    assert_eq!(
        ServiceLimitError::NoValueSpecified.to_string(),
        "a supported service limit value is required"
    );
}

#[test]
fn limit_update_conversions() {
    assert_eq!(
        ServiceLimitUpdate::try_from(None).unwrap_err(),
        ServiceLimitError::NoValueSpecified
    );
    match ServiceLimitUpdate::try_from(Some(LimitUpdate::MaxTables(12))).unwrap() {
        ServiceLimitUpdate::MaxTables(t) => assert_eq!(t.get(), 12),
        other => panic!("unexpected update {:?}", other),
    }
    match ServiceLimitUpdate::try_from(Some(LimitUpdate::MaxColumnsPerTable(3))).unwrap() {
        ServiceLimitUpdate::MaxColumnsPerTable(c) => assert_eq!(c.get(), 3),
        other => panic!("unexpected update {:?}", other),
    }
    assert_eq!(
        ServiceLimitUpdate::try_from(Some(LimitUpdate::MaxColumnsPerTable(0))).unwrap_err(),
        ServiceLimitError::MustBeGreaterThanZero
    );
}

#[test]
fn limits_override_conversions() {
    let both = NamespaceServiceProtectionLimitsOverride::try_from(ServiceProtectionLimits {
        max_tables: Some(10),
        max_columns_per_table: None,
    })
    .unwrap();
    assert_eq!(both.max_tables.unwrap().get(), 10);
    assert!(both.max_columns_per_table.is_none());

    let err = NamespaceServiceProtectionLimitsOverride::try_from(ServiceProtectionLimits {
        max_tables: Some(5),
        max_columns_per_table: Some(-4),
    })
    .unwrap_err();
    assert_eq!(err, ServiceLimitError::MustBeGreaterThanZero);
}
