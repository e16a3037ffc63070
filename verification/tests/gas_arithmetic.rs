use unc_gas::UncGas;

#[test]
fn checked_add_gas() {
    let gas = UncGas::from_gas(u64::MAX - 3);
    let any_gas = UncGas::from_gas(3);
    let more_gas = UncGas::from_gas(4);
    assert_eq!(gas.checked_add(any_gas), Some(UncGas::from_gas(u64::MAX)));
    assert_eq!(gas.checked_add(more_gas), None);
}

#[test]
fn checked_sub_gas() {
    let gas = UncGas::from_gas(3);
    let any_gas = UncGas::from_gas(1);
    let more_gas = UncGas::from_gas(4);
    assert_eq!(gas.checked_sub(any_gas), Some(UncGas::from_gas(2)));
    assert_eq!(gas.checked_sub(more_gas), None);
}

#[test]
fn checked_mul_gas() {
    let gas = UncGas::from_gas(u64::MAX / 10);
    assert_eq!(
        gas.checked_mul(10),
        Some(UncGas::from_gas(u64::MAX / 10 * 10))
    );
    assert_eq!(gas.checked_mul(11), None);
}

#[test]
fn checked_div_gas() {
    let gas = UncGas::from_gas(10);
    assert_eq!(gas.checked_div(2), Some(UncGas::from_gas(5)));
    assert_eq!(gas.checked_div(11), Some(UncGas::from_gas(0)));
    assert_eq!(gas.checked_div(0), None);
}

#[test]
fn saturating_add_gas() {
    let gas = UncGas::from_gas(100);
    let added_gas = UncGas::from_gas(1);
    let another_gas = UncGas::from_gas(u64::MAX);
    assert_eq!(gas.saturating_add(added_gas.clone()), UncGas::from_gas(101));
    assert_eq!(
        another_gas.saturating_add(added_gas),
        UncGas::from_gas(u64::MAX)
    );
}

#[test]
fn saturating_sub_gas() {
    let gas = UncGas::from_gas(100);
    let rhs_gas = UncGas::from_gas(1);
    let another_gas = UncGas::from_gas(u64::MIN);
    assert_eq!(gas.saturating_sub(rhs_gas.clone()), UncGas::from_gas(99));
    assert_eq!(another_gas.saturating_sub(rhs_gas), UncGas::from_gas(u64::MIN));
}

#[test]
fn saturating_mul_gas() {
    let gas = UncGas::from_gas(2);
    let rhs = 10;
    let another_gas = u64::MAX;
    assert_eq!(gas.saturating_mul(rhs), UncGas::from_gas(20));
    assert_eq!(gas.saturating_mul(another_gas), UncGas::from_gas(u64::MAX));
}

#[test]
fn saturating_div_gas() {
    let gas = UncGas::from_gas(10);
    let rhs = 2;
    let another_gas = 20;
    assert_eq!(gas.saturating_div(rhs), UncGas::from_gas(5));
    assert_eq!(gas.saturating_div(another_gas), UncGas::from_gas(0));
}

#[test]
fn saturating_add_clamps_at_max() {
    let max = UncGas::from_gas(u64::MAX);
    assert_eq!(max.saturating_add(UncGas::from_gas(1)), max);
}

#[test]
fn saturating_sub_clamps_at_zero() {
    assert_eq!(
        UncGas::from_gas(0).saturating_sub(UncGas::from_gas(1)),
        UncGas::from_gas(0)
    );
}

#[test]
fn saturating_div_by_zero_is_zero() {
    assert_eq!(UncGas::from_gas(10).saturating_div(0), UncGas::from_gas(0));
    assert_eq!(
        UncGas::from_gas(u64::MAX).saturating_div(0),
        UncGas::from_gas(0)
    );
}

#[test]
fn checked_div_by_zero_is_none() {
    assert_eq!(UncGas::from_gas(0).checked_div(0), None);
    assert_eq!(UncGas::from_gas(u64::MAX).checked_div(0), None);
}

#[test]
fn scaled_constructors_and_accessors() {
    let one_tera_gas = UncGas::from_gas(10_u64.pow(12));
    assert_eq!(one_tera_gas, UncGas::from_tgas(1));
    assert_eq!(one_tera_gas, UncGas::from_ggas(1000));
    assert_eq!(UncGas::from_tgas(5).as_gas(), 5_000_000_000_000);
    assert_eq!(UncGas::from_ggas(5).as_gas(), 5_000_000_000);
    assert_eq!(UncGas::from_gas(1_999_999_999).as_ggas(), 1);
    assert_eq!(UncGas::from_gas(1_999_999_999_999).as_tgas(), 1);
}

#[test]
fn tera_accessor_divides_exactly() {
    for n in [
        0_u64,
        1,
        999_999_999_999,
        1_000_000_000_000,
        1_000_000_000_001,
        u64::MAX,
    ] {
        assert_eq!(UncGas::from_gas(n).as_tgas(), n / 10_u64.pow(12));
    }
}

#[test]
fn scaled_construction_wraps() {
    // Construction-time overflow is deliberately unchecked and wraps
    // modulo 2^64.
    let wrapped = UncGas::from_tgas(u64::MAX);
    let expected = (u64::MAX as u128 * 1_000_000_000_000_u128 % (1_u128 << 64)) as u64;
    assert_eq!(wrapped.as_gas(), expected);
}

#[test]
fn default_is_zero() {
    assert_eq!(UncGas::default(), UncGas::from_gas(0));
}
