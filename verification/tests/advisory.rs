use wallet_enrich::advise::{advisory_report, frequency_label, render_subscription_line, render_subscription_lines};
use wallet_enrich::subs::Subscription;

fn sample(name: &[u8], cents: u64, frequency: i64) -> Subscription {
    Subscription {
        id: 1,
        name: name.to_vec(),
        price_cents: cents,
        currency: b"USD".to_vec(),
        next_payment: Some(b"2026-01-23".to_vec()),
        frequency,
        url: None,
        logo: None,
        start_date: None,
        active: true,
    }
}

const CANNED: &str = "- 检查是否存在功能重叠的订阅，避免重复付费。\n- 长期使用的工具优先考虑年度方案或一次性买断。\n- 对低使用频率的订阅进行降级或暂停。";

#[test]
fn no_model_reply_yields_the_canned_narrative_verbatim() {
    let report = advisory_report(None);
    let expected = format!("### 订阅优化建议\n\n{}", CANNED).into_bytes();
    assert_eq!(report, expected);
}

#[test]
fn model_reply_text_is_used_verbatim_under_the_heading() {
    let body = b"{\"choices\":[{\"message\":{\"content\":\"- drop the overlap\"}}]}".to_vec();
    let report = advisory_report(Some(&body));
    assert_eq!(report, "### 订阅优化建议\n\n- drop the overlap".as_bytes().to_vec());
}

#[test]
fn malformed_model_reply_yields_the_canned_narrative() {
    // a parse failure degrades exactly like a missing credential
    let body = b"oops".to_vec();
    let report = advisory_report(Some(&body));
    let expected = format!("### 订阅优化建议\n\n{}", CANNED).into_bytes();
    assert_eq!(report, expected);
}

#[test]
fn reply_without_content_yields_the_canned_narrative() {
    let body = b"{\"choices\":[]}".to_vec();
    let report = advisory_report(Some(&body));
    let expected = format!("### 订阅优化建议\n\n{}", CANNED).into_bytes();
    assert_eq!(report, expected);
}

#[test]
fn frequency_labels_match_the_codes() {
    assert_eq!(frequency_label(-1), b"Daily".to_vec());
    assert_eq!(frequency_label(0), b"Lifetime".to_vec());
    assert_eq!(frequency_label(1), b"Monthly".to_vec());
    assert_eq!(frequency_label(3), b"Quarterly".to_vec());
    assert_eq!(frequency_label(12), b"Yearly".to_vec());
    assert_eq!(frequency_label(7), b"Unknown".to_vec());
}

#[test]
fn summary_line_is_rendered_exactly() {
    let s = sample(b"Netflix", 1599, 1);
    assert_eq!(
        render_subscription_line(&s),
        b"- Netflix | Monthly | price=15.99 USD | start=N/A | end=2026-01-23\n".to_vec()
    );
}

#[test]
fn summary_lines_keep_the_list_order() {
    let subs = vec![sample(b"A", 100, 1), sample(b"B", 250, 12)];
    let text = String::from_utf8(render_subscription_lines(&subs)).unwrap();
    let a = text.find("- A | ").expect("first line");
    let b = text.find("- B | ").expect("second line");
    assert!(a < b);
    assert!(text.contains("price=1.00 USD"));
    assert!(text.contains("price=2.50 USD"));
    assert!(text.contains("Yearly"));
}
