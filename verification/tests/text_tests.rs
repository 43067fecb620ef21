use kraken_tui::text::{opt_plain, opt_quoted, u64_to_string};

#[test]
fn test_u64_to_string_small() {
    assert_eq!(u64_to_string(0), "0");
    assert_eq!(u64_to_string(7), "7");
    assert_eq!(u64_to_string(10), "10");
}

#[test]
fn test_u64_to_string_larger() {
    assert_eq!(u64_to_string(905), "905");
    assert_eq!(u64_to_string(1000000), "1000000");
    assert_eq!(u64_to_string(u64::MAX), "18446744073709551615");
}

#[test]
fn test_opt_quoted() {
    assert_eq!(opt_quoted(&None), "None");
    assert_eq!(opt_quoted(&Some("ETH/USDC".to_string())), "Some(\"ETH/USDC\")");
    assert_eq!(opt_quoted(&Some("".to_string())), "Some(\"\")");
}

#[test]
fn test_opt_plain() {
    assert_eq!(opt_plain(&None), "None");
    assert_eq!(opt_plain(&Some("0.01".to_string())), "Some(0.01)");
}
