//! Text enrichment: free text to structured subscription fields.
//!
//! With a language-model credential the caller sends a prompt built here
//! and hands the raw chat reply to `extract_fields`; a well-formed reply is
//! parsed into fields.  On a missing credential, a transport failure or an
//! unparsable reply, a keyword heuristic fills the fields instead.  This
//! flow never fails outward: the worst case is a low-confidence generic
//! record.

use serde_json::Value;
use vstd::prelude::*;

verus! {

use vstd::string::StringSliceAdditionalSpecFns;
use vstd::string::StrSliceExecFns;

use crate::text::{
    clean_reply, clean_reply_spec, contains_bytes, contains_sub, first_price, first_price_spec,
    lower_bytes, opt_bytes_view, parse_cents_spec, replace_all, replace_all_spec, to_lower_vec,
};

// ---------------------------------------------------------------------------
// Prompt templates
// ---------------------------------------------------------------------------

/// The prompt texts the two language-model flows use.  Any field may be
/// absent in a loaded configuration; an absent field falls back to the
/// built-in default at use.
pub struct Prompts {
    pub smart_parse_system: Option<Vec<u8>>,
    pub smart_parse_user_template: Option<Vec<u8>>,
    pub analyze_system: Option<Vec<u8>>,
    pub analyze_user_template: Option<Vec<u8>>,
}

impl View for Prompts {
    type V = (Option<Seq<u8>>, Option<Seq<u8>>, Option<Seq<u8>>, Option<Seq<u8>>);

    open spec fn view(&self) -> (Option<Seq<u8>>, Option<Seq<u8>>, Option<Seq<u8>>, Option<
        Seq<u8>,
    >) {
        (
            opt_bytes_view(self.smart_parse_system),
            opt_bytes_view(self.smart_parse_user_template),
            opt_bytes_view(self.analyze_system),
            opt_bytes_view(self.analyze_user_template),
        )
    }
}

pub open spec fn default_smart_parse_system() -> Seq<u8> {
    "You are a helpful assistant that extracts JSON.".spec_bytes()
}

pub open spec fn default_smart_parse_template() -> Seq<u8> {
    "You are a subscription data extractor. Extract details from this text: '{text}'. Return ONLY a valid JSON object with these fields: name (string), price (number), currency (string, e.g. CNY, USD), start_date (string YYYY-MM-DD, assume today is 2025-12-23 if 'today'), next_payment (string YYYY-MM-DD, synonymous with end_date), frequency (number: -1=daily, 1=monthly, 3=quarterly, 12=yearly, 0=lifetime). If missing, guess or leave null.".spec_bytes()
}

pub open spec fn default_analyze_system() -> Seq<u8> {
    "You are a financial advisor.".spec_bytes()
}

pub open spec fn default_analyze_template() -> Seq<u8> {
    "作为订阅优化顾问，请仅依据下面的订阅信息给出 3–5 条中文建议（Markdown 列表）。不要进行任何金额计算或估算。关注冗余订阅、升级/降级机会、取消指引、以及临近到期的提醒。\n\n列表：\n{list}".spec_bytes()
}

/// The compiled-in prompt configuration, used whenever the external prompt
/// resource is absent or malformed.
pub fn default_prompts() -> (r: Prompts)
    ensures
        r@ == (
            Some(default_smart_parse_system()),
            Some(default_smart_parse_template()),
            Some(default_analyze_system()),
            Some(default_analyze_template()),
        ),
{
    Prompts {
        smart_parse_system: Some(
            "You are a helpful assistant that extracts JSON.".as_bytes_vec(),
        ),
        smart_parse_user_template: Some(
            "You are a subscription data extractor. Extract details from this text: '{text}'. Return ONLY a valid JSON object with these fields: name (string), price (number), currency (string, e.g. CNY, USD), start_date (string YYYY-MM-DD, assume today is 2025-12-23 if 'today'), next_payment (string YYYY-MM-DD, synonymous with end_date), frequency (number: -1=daily, 1=monthly, 3=quarterly, 12=yearly, 0=lifetime). If missing, guess or leave null.".as_bytes_vec(),
        ),
        analyze_system: Some("You are a financial advisor.".as_bytes_vec()),
        analyze_user_template: Some(
            "作为订阅优化顾问，请仅依据下面的订阅信息给出 3–5 条中文建议（Markdown 列表）。不要进行任何金额计算或估算。关注冗余订阅、升级/降级机会、取消指引、以及临近到期的提醒。\n\n列表：\n{list}".as_bytes_vec(),
        ),
    }
}

/// The prompt fields of a prompt-configuration text: `None` where the text
/// is not a JSON object, else each field's string where present.
pub uninterp spec fn prompts_fields_of(text: Seq<u8>) -> Option<
    (Option<Seq<u8>>, Option<Seq<u8>>, Option<Seq<u8>>, Option<Seq<u8>>),
>;

/// Relies on `serde_json::from_str` and `Value`'s accessors: reads the four
/// prompt strings out of a prompt-configuration object.
#[verifier::external_body]
fn parse_prompts(text: &[u8]) -> (r: Option<Prompts>)
    ensures
        match r {
            Some(p) => prompts_fields_of(text@) == Some(p@),
            None => prompts_fields_of(text@) is None,
        },
{
    let t = std::str::from_utf8(text).ok()?;
    let v: Value = serde_json::from_str(t).ok()?;
    v.as_object()?;
    let field = |n: &str| v.get(n).and_then(|x| x.as_str()).map(|s| s.as_bytes().to_vec());
    Some(Prompts {
        smart_parse_system: field("smart_parse_system"),
        smart_parse_user_template: field("smart_parse_user_template"),
        analyze_system: field("analyze_system"),
        analyze_user_template: field("analyze_user_template"),
    })
}

/// The prompts in force for a loaded configuration text: the parsed fields
/// where the text parses, the defaults where it is absent or malformed.
pub open spec fn get_prompts_spec(source: Option<Seq<u8>>) -> (
    Option<Seq<u8>>,
    Option<Seq<u8>>,
    Option<Seq<u8>>,
    Option<Seq<u8>>,
) {
    match source {
        Some(t) => match prompts_fields_of(t) {
            Some(p) => p,
            None => (
                Some(default_smart_parse_system()),
                Some(default_smart_parse_template()),
                Some(default_analyze_system()),
                Some(default_analyze_template()),
            ),
        },
        None => (
            Some(default_smart_parse_system()),
            Some(default_smart_parse_template()),
            Some(default_analyze_system()),
            Some(default_analyze_template()),
        ),
    }
}

/// Interprets the prompt-configuration resource's text (`None` where the
/// resource is absent): a malformed text falls back to the defaults whole.
pub fn get_prompts(source: Option<&Vec<u8>>) -> (r: Prompts)
    ensures
        r@ == get_prompts_spec(
            match source {
                Some(t) => Some(t@),
                None => None,
            },
        ),
{
    match source {
        Some(t) => match parse_prompts(t.as_slice()) {
            Some(p) => p,
            None => default_prompts(),
        },
        None => default_prompts(),
    }
}

/// An optional field, or the default it falls back to.
pub open spec fn effective(field: Option<Seq<u8>>, dflt: Seq<u8>) -> Seq<u8> {
    match field {
        Some(v) => v,
        None => dflt,
    }
}

/// The extraction flow's system prompt and user prompt for `text`: the
/// template's `{text}` placeholder carries the free text.
pub fn build_smart_parse_prompt(p: &Prompts, text: &[u8]) -> (r: (Vec<u8>, Vec<u8>))
    ensures
        r.0@ == effective(p@.0, default_smart_parse_system()),
        r.1@ == replace_all_spec(
            effective(p@.1, default_smart_parse_template()),
            "{text}".spec_bytes(),
            text@,
        ),
{
    let system = match &p.smart_parse_system {
        Some(v) => vstd::slice::slice_to_vec(v.as_slice()),
        None => "You are a helpful assistant that extracts JSON.".as_bytes_vec(),
    };
    let template = match &p.smart_parse_user_template {
        Some(v) => vstd::slice::slice_to_vec(v.as_slice()),
        None => "You are a subscription data extractor. Extract details from this text: '{text}'. Return ONLY a valid JSON object with these fields: name (string), price (number), currency (string, e.g. CNY, USD), start_date (string YYYY-MM-DD, assume today is 2025-12-23 if 'today'), next_payment (string YYYY-MM-DD, synonymous with end_date), frequency (number: -1=daily, 1=monthly, 3=quarterly, 12=yearly, 0=lifetime). If missing, guess or leave null.".as_bytes_vec(),
    };
    let user = replace_all(template.as_slice(), "{text}".as_bytes(), text);
    (system, user)
}

/// The advisory flow's system prompt and user prompt for a rendered
/// subscription list: the template's `{list}` placeholder carries the list.
pub fn build_analyze_prompt(p: &Prompts, list: &[u8]) -> (r: (Vec<u8>, Vec<u8>))
    ensures
        r.0@ == effective(p@.2, default_analyze_system()),
        r.1@ == replace_all_spec(
            effective(p@.3, default_analyze_template()),
            "{list}".spec_bytes(),
            list@,
        ),
{
    let system = match &p.analyze_system {
        Some(v) => vstd::slice::slice_to_vec(v.as_slice()),
        None => "You are a financial advisor.".as_bytes_vec(),
    };
    let template = match &p.analyze_user_template {
        Some(v) => vstd::slice::slice_to_vec(v.as_slice()),
        None => "作为订阅优化顾问，请仅依据下面的订阅信息给出 3–5 条中文建议（Markdown 列表）。不要进行任何金额计算或估算。关注冗余订阅、升级/降级机会、取消指引、以及临近到期的提醒。\n\n列表：\n{list}".as_bytes_vec(),
    };
    let user = replace_all(template.as_slice(), "{list}".as_bytes(), list);
    (system, user)
}

// ---------------------------------------------------------------------------
// Structured fields
// ---------------------------------------------------------------------------

/// An extraction request: the free text to read fields from.
pub struct SmartParseRequest {
    pub text: Vec<u8>,
}

/// The structured fields extracted from free text.  Amounts are held in
/// cents.  A field the source could not determine is `None` rather than a
/// guess, except the price, which defaults to zero.
pub struct EnrichedFields {
    pub name: Option<Vec<u8>>,
    pub price_cents: u64,
    pub currency: Option<Vec<u8>>,
    pub start_date: Option<Vec<u8>>,
    pub next_payment: Option<Vec<u8>>,
    pub frequency: Option<i64>,
}

pub struct EnrichedView {
    pub name: Option<Seq<u8>>,
    pub price_cents: u64,
    pub currency: Option<Seq<u8>>,
    pub start_date: Option<Seq<u8>>,
    pub next_payment: Option<Seq<u8>>,
    pub frequency: Option<i64>,
}

impl View for EnrichedFields {
    type V = EnrichedView;

    open spec fn view(&self) -> EnrichedView {
        EnrichedView {
            name: opt_bytes_view(self.name),
            price_cents: self.price_cents,
            currency: opt_bytes_view(self.currency),
            start_date: opt_bytes_view(self.start_date),
            next_payment: opt_bytes_view(self.next_payment),
            frequency: self.frequency,
        }
    }
}

// ---------------------------------------------------------------------------
// The heuristic fallback
// ---------------------------------------------------------------------------

/// The generic record the heuristic starts from.
pub open spec fn mock_base_spec() -> EnrichedView {
    EnrichedView {
        name: Some("Unknown Subscription".spec_bytes()),
        price_cents: 0,
        currency: Some("CNY".spec_bytes()),
        start_date: Some("2025-12-23".spec_bytes()),
        next_payment: Some("2026-01-23".spec_bytes()),
        frequency: Some(1),
    }
}

/// The known-service record for a lower-cased text, where one matches.
pub open spec fn keyword_spec(lower: Seq<u8>) -> EnrichedView {
    if contains_sub(lower, "netflix".spec_bytes()) {
        EnrichedView { name: Some("Netflix".spec_bytes()), price_cents: 1599, currency: Some(
            "USD".spec_bytes(),
        ), ..mock_base_spec() }
    } else if contains_sub(lower, "spotify".spec_bytes()) {
        EnrichedView { name: Some("Spotify".spec_bytes()), price_cents: 1099, currency: Some(
            "USD".spec_bytes(),
        ), ..mock_base_spec() }
    } else if contains_sub(lower, "chatgpt".spec_bytes()) {
        EnrichedView { name: Some("ChatGPT Plus".spec_bytes()), price_cents: 2000, currency: Some(
            "USD".spec_bytes(),
        ), ..mock_base_spec() }
    } else {
        mock_base_spec()
    }
}

/// What the keyword heuristic yields for `text`: a known service's record
/// where its name occurs case-insensitively, and independently the first
/// token that parses as a number overrides the price.
pub open spec fn heuristic_spec(text: Seq<u8>) -> EnrichedView {
    let base = keyword_spec(lower_bytes(text));
    match first_price_spec(text) {
        Some(p) => EnrichedView { price_cents: p, ..base },
        None => base,
    }
}

/// Fills the fields by keyword and number heuristics alone.
pub fn heuristic_extract(text: &[u8]) -> (r: EnrichedFields)
    ensures
        r@ == heuristic_spec(text@),
{
    let lower = to_lower_vec(text);
    let mut fields = EnrichedFields {
        name: Some("Unknown Subscription".as_bytes_vec()),
        price_cents: 0,
        currency: Some("CNY".as_bytes_vec()),
        start_date: Some("2025-12-23".as_bytes_vec()),
        next_payment: Some("2026-01-23".as_bytes_vec()),
        frequency: Some(1),
    };
    if contains_bytes(lower.as_slice(), "netflix".as_bytes()) {
        fields.name = Some("Netflix".as_bytes_vec());
        fields.price_cents = 1599;
        fields.currency = Some("USD".as_bytes_vec());
    } else if contains_bytes(lower.as_slice(), "spotify".as_bytes()) {
        fields.name = Some("Spotify".as_bytes_vec());
        fields.price_cents = 1099;
        fields.currency = Some("USD".as_bytes_vec());
    } else if contains_bytes(lower.as_slice(), "chatgpt".as_bytes()) {
        fields.name = Some("ChatGPT Plus".as_bytes_vec());
        fields.price_cents = 2000;
        fields.currency = Some("USD".as_bytes_vec());
    }
    if let Some(p) = first_price(text) {
        fields.price_cents = p;
    }
    fields
}

// ---------------------------------------------------------------------------
// The language-model path
// ---------------------------------------------------------------------------

/// The string at `choices[0].message.content` of a chat reply, where the
/// reply has one.
pub uninterp spec fn chat_content_of(body: Seq<u8>) -> Option<Seq<u8>>;

/// Relies on `serde_json::from_str` and `Value`'s accessors: reads the text
/// of a chat reply's first choice.
#[verifier::external_body]
pub(crate) fn chat_content(body: &[u8]) -> (r: Option<Vec<u8>>)
    ensures
        opt_bytes_view(r) == chat_content_of(body@),
{
    let t = std::str::from_utf8(body).ok()?;
    let v: Value = serde_json::from_str(t).ok()?;
    let c = v.get("choices")?.get(0)?.get("message")?.get("content")?.as_str()?;
    Some(c.as_bytes().to_vec())
}

/// The raw field texts of a model's extraction reply, before the crate's
/// own number parsing and validation run over them.
pub struct RawExtraction {
    pub name: Option<Vec<u8>>,
    pub price_text: Option<Vec<u8>>,
    pub currency: Option<Vec<u8>>,
    pub start_date: Option<Vec<u8>>,
    pub next_payment: Option<Vec<u8>>,
    pub frequency: Option<i64>,
}

impl View for RawExtraction {
    type V = (Option<Seq<u8>>, Option<Seq<u8>>, Option<Seq<u8>>, Option<Seq<u8>>, Option<
        Seq<u8>,
    >, Option<i64>);

    open spec fn view(&self) -> (
        Option<Seq<u8>>,
        Option<Seq<u8>>,
        Option<Seq<u8>>,
        Option<Seq<u8>>,
        Option<Seq<u8>>,
        Option<i64>,
    ) {
        (
            opt_bytes_view(self.name),
            opt_bytes_view(self.price_text),
            opt_bytes_view(self.currency),
            opt_bytes_view(self.start_date),
            opt_bytes_view(self.next_payment),
            self.frequency,
        )
    }
}

/// The extraction fields of a cleaned model reply: `None` where it is not a
/// JSON object; else each string field where present, the price's decimal
/// text, and the frequency where it is an integer.
pub uninterp spec fn extraction_fields_of(text: Seq<u8>) -> Option<
    (Option<Seq<u8>>, Option<Seq<u8>>, Option<Seq<u8>>, Option<Seq<u8>>, Option<Seq<u8>>, Option<
        i64,
    >),
>;

/// Relies on `serde_json::from_str`, `Value`'s accessors and `Number`'s
/// rendering: reads the extraction fields out of the model's JSON object,
/// with the price as its decimal text.
#[verifier::external_body]
fn parse_extraction_fields(text: &[u8]) -> (r: Option<RawExtraction>)
    ensures
        match r {
            Some(f) => extraction_fields_of(text@) == Some(f@),
            None => extraction_fields_of(text@) is None,
        },
{
    let t = std::str::from_utf8(text).ok()?;
    let v: Value = serde_json::from_str(t).ok()?;
    v.as_object()?;
    let f = |n: &str| v.get(n).and_then(|x| x.as_str()).map(|s| s.as_bytes().to_vec());
    let price_text = match v.get("price") {
        Some(Value::String(s)) => Some(s.as_bytes().to_vec()),
        Some(Value::Number(n)) => Some(n.to_string().into_bytes()),
        _ => None,
    };
    Some(RawExtraction {
        name: f("name"), price_text, currency: f("currency"),
        start_date: f("start_date"), next_payment: f("next_payment"),
        frequency: v.get("frequency").and_then(|x| x.as_i64()),
    })
}

/// The frequency codes the data model admits.
pub open spec fn valid_frequency(f: i64) -> bool {
    f == -1 || f == 0 || f == 1 || f == 3 || f == 12
}

/// The finished fields a raw model reply assembles into: the price text
/// parsed into cents (zero where absent or unparsable), the frequency kept
/// only where it is an admitted code.
pub open spec fn assemble_spec(
    raw: (Option<Seq<u8>>, Option<Seq<u8>>, Option<Seq<u8>>, Option<Seq<u8>>, Option<Seq<u8>>, Option<
        i64,
    >),
) -> EnrichedView {
    EnrichedView {
        name: raw.0,
        price_cents: match raw.1 {
            Some(pt) => match parse_cents_spec(pt) {
                Some(p) => p,
                None => 0,
            },
            None => 0,
        },
        currency: raw.2,
        start_date: raw.3,
        next_payment: raw.4,
        frequency: match raw.5 {
            Some(f) => if valid_frequency(f) {
                Some(f)
            } else {
                None
            },
            None => None,
        },
    }
}

/// What extraction yields for free text and an optional raw chat reply:
/// the model's fields where the reply carries a well-formed JSON object
/// (after stripping optional code fences), else the heuristic record.
pub open spec fn extraction_spec(text: Seq<u8>, reply: Option<Seq<u8>>) -> EnrichedView {
    match reply {
        Some(body) => match chat_content_of(body) {
            Some(c) => match extraction_fields_of(clean_reply_spec(c)) {
                Some(raw) => assemble_spec(raw),
                None => heuristic_spec(text),
            },
            None => heuristic_spec(text),
        },
        None => heuristic_spec(text),
    }
}

/// Extracts structured fields from free text.  `reply` is the raw chat
/// reply where a model was called, `None` where no credential is configured
/// or the call failed; either way a usable record comes back.
pub fn extract_fields(req: &SmartParseRequest, reply: Option<&Vec<u8>>) -> (r: EnrichedFields)
    ensures
        r@ == extraction_spec(
            req.text@,
            match reply {
                Some(b) => Some(b@),
                None => None,
            },
        ),
{
    if let Some(body) = reply {
        if let Some(content) = chat_content(body.as_slice()) {
            let cleaned = clean_reply(content.as_slice());
            if let Some(raw) = parse_extraction_fields(cleaned.as_slice()) {
                let price_cents = match &raw.price_text {
                    Some(pt) => match crate::text::parse_cents(pt.as_slice()) {
                        Some(p) => p,
                        None => 0,
                    },
                    None => 0,
                };
                let frequency = match raw.frequency {
                    Some(f) => {
                        if f == -1 || f == 0 || f == 1 || f == 3 || f == 12 {
                            Some(f)
                        } else {
                            None
                        }
                    },
                    None => None,
                };
                return EnrichedFields {
                    name: raw.name,
                    price_cents,
                    currency: raw.currency,
                    start_date: raw.start_date,
                    next_payment: raw.next_payment,
                    frequency,
                };
            }
        }
    }
    heuristic_extract(req.text.as_slice())
}

} // verus!
