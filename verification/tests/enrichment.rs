use wallet_enrich::enrich::{
    build_analyze_prompt, build_smart_parse_prompt, default_prompts, extract_fields, get_prompts,
    heuristic_extract, SmartParseRequest,
};

#[test]
fn heuristic_reads_known_service_and_number() {
    let fields = heuristic_extract(b"Netflix 15.99 monthly");
    assert_eq!(fields.name, Some(b"Netflix".to_vec()));
    assert_eq!(fields.price_cents, 1599);
    assert_eq!(fields.currency, Some(b"USD".to_vec()));
}

#[test]
fn heuristic_matches_case_insensitively() {
    let fields = heuristic_extract(b"my SPOTIFY plan");
    assert_eq!(fields.name, Some(b"Spotify".to_vec()));
    assert_eq!(fields.price_cents, 1099);
    assert_eq!(fields.currency, Some(b"USD".to_vec()));
}

#[test]
fn heuristic_number_overrides_known_price() {
    let fields = heuristic_extract(b"chatgpt 18.50");
    assert_eq!(fields.name, Some(b"ChatGPT Plus".to_vec()));
    assert_eq!(fields.price_cents, 1850);
}

#[test]
fn heuristic_unknown_text_gets_generic_record() {
    let fields = heuristic_extract(b"gym membership 9.99");
    assert_eq!(fields.name, Some(b"Unknown Subscription".to_vec()));
    assert_eq!(fields.price_cents, 999);
    assert_eq!(fields.currency, Some(b"CNY".to_vec()));
    assert_eq!(fields.frequency, Some(1));
    assert_eq!(fields.start_date, Some(b"2025-12-23".to_vec()));
    assert_eq!(fields.next_payment, Some(b"2026-01-23".to_vec()));
}

#[test]
fn extraction_without_model_reply_uses_heuristic() {
    let req = SmartParseRequest { text: b"Netflix 15.99 monthly".to_vec() };
    let fields = extract_fields(&req, None);
    assert_eq!(fields.name, Some(b"Netflix".to_vec()));
    assert_eq!(fields.price_cents, 1599);
    assert_eq!(fields.currency, Some(b"USD".to_vec()));
}

#[test]
fn extraction_parses_a_fenced_model_reply() {
    let content = "```json\\n{\\\"name\\\":\\\"Hulu\\\",\\\"price\\\":7.99,\\\"currency\\\":\\\"USD\\\",\\\"frequency\\\":1}\\n```";
    let body = format!(
        "{{\"choices\":[{{\"message\":{{\"content\":\"{}\"}}}}]}}",
        content
    )
    .into_bytes();
    let req = SmartParseRequest { text: b"whatever".to_vec() };
    let fields = extract_fields(&req, Some(&body));
    assert_eq!(fields.name, Some(b"Hulu".to_vec()));
    assert_eq!(fields.price_cents, 799);
    assert_eq!(fields.currency, Some(b"USD".to_vec()));
    assert_eq!(fields.frequency, Some(1));
    assert_eq!(fields.start_date, None);
}

#[test]
fn extraction_rejects_an_unknown_frequency_code() {
    let body =
        b"{\"choices\":[{\"message\":{\"content\":\"{\\\"name\\\":\\\"X\\\",\\\"frequency\\\":7}\"}}]}"
            .to_vec();
    let req = SmartParseRequest { text: b"whatever".to_vec() };
    let fields = extract_fields(&req, Some(&body));
    assert_eq!(fields.name, Some(b"X".to_vec()));
    assert_eq!(fields.frequency, None);
    assert_eq!(fields.price_cents, 0);
}

#[test]
fn extraction_falls_back_on_unparsable_model_reply() {
    let body = b"{\"choices\":[{\"message\":{\"content\":\"sorry, no JSON here\"}}]}".to_vec();
    let req = SmartParseRequest { text: b"Netflix today".to_vec() };
    let fields = extract_fields(&req, Some(&body));
    assert_eq!(fields.name, Some(b"Netflix".to_vec()));
    assert_eq!(fields.price_cents, 1599);
}

#[test]
fn extraction_falls_back_on_malformed_chat_body() {
    let body = b"gateway timeout".to_vec();
    let req = SmartParseRequest { text: b"spotify".to_vec() };
    let fields = extract_fields(&req, Some(&body));
    assert_eq!(fields.name, Some(b"Spotify".to_vec()));
}

#[test]
fn default_prompts_carry_the_placeholders() {
    let p = default_prompts();
    let template = p.smart_parse_user_template.expect("a default template");
    assert!(String::from_utf8(template).unwrap().contains("{text}"));
    let analyze = p.analyze_user_template.expect("a default template");
    assert!(String::from_utf8(analyze).unwrap().contains("{list}"));
}

#[test]
fn loaded_prompts_override_the_defaults() {
    let source = b"{\"smart_parse_system\":\"be terse\"}".to_vec();
    let p = get_prompts(Some(&source));
    assert_eq!(p.smart_parse_system, Some(b"be terse".to_vec()));
    // absent fields stay absent in the loaded configuration...
    assert_eq!(p.smart_parse_user_template, None);
    // ...and fall back to the default at use
    let (system, user) = build_smart_parse_prompt(&p, b"my text");
    assert_eq!(system, b"be terse".to_vec());
    assert!(String::from_utf8(user.clone()).unwrap().contains("my text"));
    assert!(!String::from_utf8(user).unwrap().contains("{text}"));
}

#[test]
fn malformed_prompt_resource_falls_back_whole() {
    let source = b"not json".to_vec();
    let p = get_prompts(Some(&source));
    let d = default_prompts();
    assert_eq!(p.smart_parse_system, d.smart_parse_system);
    assert_eq!(p.analyze_user_template, d.analyze_user_template);
}

#[test]
fn absent_prompt_resource_falls_back_whole() {
    let p = get_prompts(None);
    let d = default_prompts();
    assert_eq!(p.smart_parse_user_template, d.smart_parse_user_template);
}

#[test]
fn analyze_prompt_carries_the_rendered_list() {
    let p = get_prompts(None);
    let (system, user) = build_analyze_prompt(&p, b"- A | Monthly | price=1.00 USD\n");
    assert_eq!(system, b"You are a financial advisor.".to_vec());
    let text = String::from_utf8(user).unwrap();
    assert!(text.contains("- A | Monthly | price=1.00 USD"));
    assert!(!text.contains("{list}"));
}
