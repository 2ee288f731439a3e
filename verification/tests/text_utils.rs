use wallet_enrich::text::{
    clean_reply, first_price, fmt_cents, fmt_u64, parse_cents, replace_all, trim_bytes,
};

#[test]
fn parse_cents_reads_plain_and_decimal_amounts() {
    assert_eq!(parse_cents(b"7"), Some(700));
    assert_eq!(parse_cents(b"15.99"), Some(1599));
    assert_eq!(parse_cents(b"15.9"), Some(1590));
    assert_eq!(parse_cents(b"15."), Some(1500));
    assert_eq!(parse_cents(b".5"), Some(50));
    assert_eq!(parse_cents(b"0.05"), Some(5));
}

#[test]
fn parse_cents_rejects_non_amounts() {
    assert_eq!(parse_cents(b""), None);
    assert_eq!(parse_cents(b"."), None);
    assert_eq!(parse_cents(b"abc"), None);
    assert_eq!(parse_cents(b"15.999"), None);
    assert_eq!(parse_cents(b"1.2.3"), None);
    assert_eq!(parse_cents(b"-3"), None);
    assert_eq!(parse_cents(b"1e5"), None);
}

#[test]
fn first_price_takes_the_first_parsing_token() {
    assert_eq!(first_price(b"Netflix 15.99 monthly"), Some(1599));
    assert_eq!(first_price(b"pay 9 or 15.99"), Some(900));
    assert_eq!(first_price(b"  x1 7.5  "), Some(750));
    assert_eq!(first_price(b"no numbers here"), None);
    assert_eq!(first_price(b""), None);
}

#[test]
fn trim_strips_ascii_whitespace_at_both_ends() {
    assert_eq!(trim_bytes(b"  hello \t\n"), b"hello".to_vec());
    assert_eq!(trim_bytes(b"inner  space"), b"inner  space".to_vec());
    assert_eq!(trim_bytes(b" \t "), b"".to_vec());
}

#[test]
fn replace_all_substitutes_every_occurrence() {
    assert_eq!(
        replace_all(b"a {x} and {x}", b"{x}", b"yes"),
        b"a yes and yes".to_vec()
    );
    assert_eq!(replace_all(b"none", b"{x}", b"yes"), b"none".to_vec());
    assert_eq!(replace_all(b"aaa", b"aa", b"b"), b"ba".to_vec());
}

#[test]
fn clean_reply_strips_fences_and_whitespace() {
    assert_eq!(
        clean_reply(b"  ```json\n{\"a\":1}\n```  "),
        b"\n{\"a\":1}\n".to_vec()
    );
    assert_eq!(clean_reply(b"```{\"a\":1}```"), b"{\"a\":1}".to_vec());
    assert_eq!(clean_reply(b"plain"), b"plain".to_vec());
}

#[test]
fn amounts_are_formatted_with_two_decimals() {
    assert_eq!(fmt_cents(1599), b"15.99".to_vec());
    assert_eq!(fmt_cents(1500), b"15.00".to_vec());
    assert_eq!(fmt_cents(5), b"0.05".to_vec());
    assert_eq!(fmt_u64(0), b"0".to_vec());
    assert_eq!(fmt_u64(120), b"120".to_vec());
}
