use unc_gas::DecimalNumberParsingError;
use unc_gas::UncGas;
use unc_gas::UncGasError;

#[test]
fn test_display() {
    for (unc_gas, expected_display) in [
        (UncGas::from_gas(0), "0 Tgas"),
        (UncGas::from_gas(1), "<0.001 Tgas"),
        (UncGas::from_gas(999_999_999), "<0.001 Tgas"),
        (UncGas::from_gas(1_000_000_000), "0.001 Tgas"),
        (UncGas::from_gas(1_000_000_001), "0.002 Tgas"),
        (UncGas::from_gas(2_000_000_000), "0.002 Tgas"),
        (UncGas::from_gas(200_000_000_000), "0.200 Tgas"),
        (UncGas::from_gas(999_000_000_000), "0.999 Tgas"),
        (UncGas::from_gas(999_000_000_001), "1.0 Tgas"),
        (UncGas::from_gas(999_999_999_999), "1.0 Tgas"),
        (UncGas::from_gas(1_000_000_000_000), "1.0 Tgas"),
        (UncGas::from_gas(1_000_000_000_001), "1.1 Tgas"),
        (UncGas::from_gas(1_234_567_000_000), "1.3 Tgas"),
        (UncGas::from_gas(1_500_000_000_000), "1.5 Tgas"),
        (UncGas::from_gas(10_000_000_000_000), "10.0 Tgas"),
        (UncGas::from_gas(10_500_000_000_000), "10.5 Tgas"),
        (UncGas::from_gas(99_999_999_999_999), "100.0 Tgas"),
        (UncGas::from_gas(100_000_000_000_000), "100.0 Tgas"),
        (UncGas::from_gas(100_500_000_000_000), "100.5 Tgas"),
        (UncGas::from_gas(1_000_500_000_000_000), "1000.5 Tgas"),
        (
            UncGas::from_gas(1_000_000_500_000_000_000),
            "1000000.5 Tgas",
        ),
    ] {
        assert_eq!(
            unc_gas.to_text(),
            expected_display,
            "gas: {}",
            unc_gas.as_gas()
        );
    }
}

#[test]
fn display_at_the_top_of_range() {
    // The ceiling addend saturates at u64::MAX, so the topmost values divide
    // without the adjustment instead of overflowing.
    assert_eq!(UncGas::from_gas(u64::MAX).to_text(), "18446744.0 Tgas");
}

#[test]
fn parse_trims_whitespace_around_the_number() {
    assert_eq!(
        UncGas::from_text("  1 Tgas"),
        Ok(UncGas::from_gas(1_000_000_000_000))
    );
    assert_eq!(UncGas::from_text("1Tgas"), Ok(UncGas::from_gas(1_000_000_000_000)));
    assert_eq!(
        UncGas::from_text("1 2 Tgas"),
        Err(UncGasError::IncorrectNumber(
            DecimalNumberParsingError::InvalidNumber(String::from("1 2"))
        ))
    );
}

#[test]
fn parse_whole_and_fractional_tera() {
    assert_eq!(
        UncGas::from_text("1.1 Tgas"),
        Ok(UncGas::from_gas(1_100_000_000_000))
    );
    assert_eq!(
        UncGas::from_text("1.0000000001 Tgas"),
        Ok(UncGas::from_gas(1_000_000_000_100))
    );
    assert_eq!(UncGas::from_text("12 Tgas"), Ok(UncGas::from_gas(12_000_000_000_000)));
}

#[test]
fn parse_too_precise_fraction_fails() {
    // Thirteen fractional digits exceed the twelve the tera multiplier can
    // represent exactly; the parse must fail rather than truncate.
    assert_eq!(
        UncGas::from_text("1.0000000000001 Tgas"),
        Err(UncGasError::IncorrectNumber(
            DecimalNumberParsingError::LongFractional(String::from("0000000000001"))
        ))
    );
    // Ten fractional digits exceed the nine of the giga multiplier.
    assert_eq!(
        UncGas::from_text("1.0000000001 Ggas"),
        Err(UncGasError::IncorrectNumber(
            DecimalNumberParsingError::LongFractional(String::from("0000000001"))
        ))
    );
    // Any fraction at all is too precise for the base unit.
    assert_eq!(
        UncGas::from_text("1.5 gas"),
        Err(UncGasError::IncorrectNumber(
            DecimalNumberParsingError::LongFractional(String::from("5"))
        ))
    );
}

#[test]
fn parse_giga_and_base_units() {
    assert_eq!(
        UncGas::from_text("1.5 Ggas"),
        Ok(UncGas::from_gas(1_500_000_000))
    );
    assert_eq!(UncGas::from_text("42 gas"), Ok(UncGas::from_gas(42)));
    assert_eq!(
        UncGas::from_text("2 TeraGas"),
        Ok(UncGas::from_gas(2_000_000_000_000))
    );
    assert_eq!(
        UncGas::from_text("3 GigaGas"),
        Ok(UncGas::from_gas(3_000_000_000))
    );
}

#[test]
fn parse_is_case_insensitive() {
    assert_eq!(
        UncGas::from_text("1 TGAS"),
        Ok(UncGas::from_gas(1_000_000_000_000))
    );
    assert_eq!(
        UncGas::from_text("1 tgas"),
        Ok(UncGas::from_gas(1_000_000_000_000))
    );
    assert_eq!(UncGas::from_text("7 GAS"), Ok(UncGas::from_gas(7)));
}

#[test]
fn parse_unrecognized_suffix_fails() {
    assert_eq!(
        UncGas::from_text("5 Xgas"),
        Err(UncGasError::IncorrectUnit(String::from("Xgas")))
    );
    assert_eq!(
        UncGas::from_text("5"),
        Err(UncGasError::IncorrectUnit(String::from("")))
    );
}

#[test]
fn parse_malformed_number_fails() {
    assert_eq!(
        UncGas::from_text("abc Tgas"),
        Err(UncGasError::IncorrectNumber(
            DecimalNumberParsingError::InvalidNumber(String::from("abc"))
        ))
    );
    assert_eq!(
        UncGas::from_text("Tgas"),
        Err(UncGasError::IncorrectNumber(
            DecimalNumberParsingError::InvalidNumber(String::from(""))
        ))
    );
    assert_eq!(
        UncGas::from_text("1. Tgas"),
        Err(UncGasError::IncorrectNumber(
            DecimalNumberParsingError::InvalidNumber(String::from("1."))
        ))
    );
    assert_eq!(
        UncGas::from_text(".5 Tgas"),
        Err(UncGasError::IncorrectNumber(
            DecimalNumberParsingError::InvalidNumber(String::from(".5"))
        ))
    );
    assert_eq!(
        UncGas::from_text("1..5 Tgas"),
        Err(UncGasError::IncorrectNumber(
            DecimalNumberParsingError::InvalidNumber(String::from("1..5"))
        ))
    );
    assert_eq!(
        UncGas::from_text("-1 Tgas"),
        Err(UncGasError::IncorrectNumber(
            DecimalNumberParsingError::InvalidNumber(String::from("-1"))
        ))
    );
}

#[test]
fn parse_overflow_fails() {
    // 2^64 itself does not fit.
    assert_eq!(
        UncGas::from_text("18446744073709551616 gas"),
        Err(UncGasError::IncorrectNumber(
            DecimalNumberParsingError::LongWhole(String::from("18446744073709551616"))
        ))
    );
    // u64::MAX fits exactly at the base unit.
    assert_eq!(
        UncGas::from_text("18446744073709551615 gas"),
        Ok(UncGas::from_gas(u64::MAX))
    );
    // Scaling pushes a modest whole part over the limit.
    assert_eq!(
        UncGas::from_text("18446745 Tgas"),
        Err(UncGasError::IncorrectNumber(
            DecimalNumberParsingError::LongWhole(String::from("18446745"))
        ))
    );
}

#[test]
fn error_text_names_the_failure() {
    let unit_err = UncGas::from_text("5 Xgas").unwrap_err();
    assert_eq!(unit_err.to_text(), "Incorrect unit: Xgas");
    let number_err = UncGas::from_text("abc Tgas").unwrap_err();
    assert_eq!(number_err.to_text(), "Incorrect number: invalid number: abc");
}

#[test]
fn unit_table_matches_parser() {
    let table = unc_gas::unit_tokens();
    assert_eq!(table.len(), 5);
    for (token, multiplier) in table {
        let text = format!("1 {}", token);
        assert_eq!(UncGas::from_text(&text), Ok(UncGas::from_gas(multiplier)));
    }
}
