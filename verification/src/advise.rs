//! Advisory narrative: a summary line per subscription feeds the
//! language-model prompt, and the reply (or a fixed canned recommendation)
//! is wrapped under a fixed heading.  This flow never fails outward.

use vstd::prelude::*;

verus! {

use vstd::string::StringSliceAdditionalSpecFns;
use vstd::string::StrSliceExecFns;

use crate::enrich::chat_content_of;
use crate::subs::{Subscription, SubscriptionView};
use crate::text::{append_bytes, fmt_cents, fmt_cents_spec};

/// The human-readable label of a frequency code.
pub open spec fn frequency_label_spec(f: i64) -> Seq<u8> {
    if f == -1 {
        "Daily".spec_bytes()
    } else if f == 1 {
        "Monthly".spec_bytes()
    } else if f == 3 {
        "Quarterly".spec_bytes()
    } else if f == 12 {
        "Yearly".spec_bytes()
    } else if f == 0 {
        "Lifetime".spec_bytes()
    } else {
        "Unknown".spec_bytes()
    }
}

/// Renders a frequency code's label.
pub fn frequency_label(f: i64) -> (r: Vec<u8>)
    ensures
        r@ == frequency_label_spec(f),
{
    if f == -1 {
        "Daily".as_bytes_vec()
    } else if f == 1 {
        "Monthly".as_bytes_vec()
    } else if f == 3 {
        "Quarterly".as_bytes_vec()
    } else if f == 12 {
        "Yearly".as_bytes_vec()
    } else if f == 0 {
        "Lifetime".as_bytes_vec()
    } else {
        "Unknown".as_bytes_vec()
    }
}

/// A date field, or the placeholder it falls back to.
pub open spec fn date_or_na(d: Option<Seq<u8>>) -> Seq<u8> {
    match d {
        Some(v) => v,
        None => "N/A".spec_bytes(),
    }
}

/// One subscription's summary line: name, frequency label, price and
/// currency, start date and next-payment date (each "N/A" where absent).
pub open spec fn line_spec(s: SubscriptionView) -> Seq<u8> {
    "- ".spec_bytes() + s.name + " | ".spec_bytes() + frequency_label_spec(s.frequency)
        + " | price=".spec_bytes() + fmt_cents_spec(s.price_cents as int) + " ".spec_bytes()
        + s.currency + " | start=".spec_bytes() + date_or_na(s.start_date)
        + " | end=".spec_bytes() + date_or_na(s.next_payment) + "\n".spec_bytes()
}

/// Renders one subscription's summary line.
pub fn render_subscription_line(s: &Subscription) -> (r: Vec<u8>)
    ensures
        r@ == line_spec(s@),
{
    let mut out = "- ".as_bytes_vec();
    append_bytes(&mut out, s.name.as_slice());
    append_bytes(&mut out, " | ".as_bytes());
    let label = frequency_label(s.frequency);
    append_bytes(&mut out, label.as_slice());
    append_bytes(&mut out, " | price=".as_bytes());
    let price = fmt_cents(s.price_cents);
    append_bytes(&mut out, price.as_slice());
    append_bytes(&mut out, " ".as_bytes());
    append_bytes(&mut out, s.currency.as_slice());
    append_bytes(&mut out, " | start=".as_bytes());
    match &s.start_date {
        Some(d) => append_bytes(&mut out, d.as_slice()),
        None => append_bytes(&mut out, "N/A".as_bytes()),
    }
    append_bytes(&mut out, " | end=".as_bytes());
    match &s.next_payment {
        Some(d) => append_bytes(&mut out, d.as_slice()),
        None => append_bytes(&mut out, "N/A".as_bytes()),
    }
    append_bytes(&mut out, "\n".as_bytes());
    assert(out@ =~= line_spec(s@));
    out
}

/// The whole list's summary, one line per subscription, in order.
pub open spec fn lines_spec(subs: Seq<SubscriptionView>) -> Seq<u8>
    decreases subs.len(),
{
    if subs.len() == 0 {
        Seq::empty()
    } else {
        lines_spec(subs.drop_last()) + line_spec(subs.last())
    }
}

pub open spec fn subs_view(subs: Seq<Subscription>) -> Seq<SubscriptionView> {
    subs.map_values(|s: Subscription| s@)
}

/// Renders the summary line of every subscription, in order.
pub fn render_subscription_lines(subs: &Vec<Subscription>) -> (r: Vec<u8>)
    ensures
        r@ == lines_spec(subs_view(subs@)),
{
    let mut out: Vec<u8> = Vec::new();
    let mut i: usize = 0;
    assert(subs_view(subs@).take(0) =~= Seq::<SubscriptionView>::empty());
    while i < subs.len()
        invariant
            i <= subs@.len(),
            out@ == lines_spec(subs_view(subs@).take(i as int)),
        decreases subs@.len() - i,
    {
        let line = render_subscription_line(&subs[i]);
        append_bytes(&mut out, line.as_slice());
        proof {
            assert(subs_view(subs@).take(i + 1 as int).drop_last() =~= subs_view(subs@).take(
                i as int,
            ));
            assert(subs_view(subs@).take(i + 1 as int).last() == subs@[i as int]@);
        }
        i = i + 1;
    }
    assert(subs_view(subs@).take(subs@.len() as int) =~= subs_view(subs@));
    out
}

/// The fixed canned recommendation substituted whenever no model narrative
/// is in play: no credential, a transport failure, or a reply whose text
/// cannot be read.
pub open spec fn canned_advice_spec() -> Seq<u8> {
    "- 检查是否存在功能重叠的订阅，避免重复付费。\n- 长期使用的工具优先考虑年度方案或一次性买断。\n- 对低使用频率的订阅进行降级或暂停。".spec_bytes()
}

/// The fixed heading every advisory report stands under.
pub open spec fn advisory_heading_spec() -> Seq<u8> {
    "### 订阅优化建议\n\n".spec_bytes()
}

/// The narrative body for an optional raw chat reply: the reply's text
/// where it has one, and the fixed canned recommendation everywhere else —
/// a missing credential, a transport failure and a reply whose text cannot
/// be read all degrade the same way, and none surfaces as an error.
pub open spec fn advisory_body_spec(reply: Option<Seq<u8>>) -> Seq<u8> {
    match reply {
        Some(b) => match chat_content_of(b) {
            Some(c) => c,
            None => canned_advice_spec(),
        },
        None => canned_advice_spec(),
    }
}

/// Whenever the model contributed no readable narrative — no reply at all,
/// or a reply without a text — the advisory body is the fixed canned
/// recommendation, verbatim, whatever the subscription list held: the list
/// only feeds the prompt, never the fallback narrative.
pub proof fn lemma_advisory_without_model_is_canned(reply: Option<Seq<u8>>)
    requires
        match reply {
            Some(b) => chat_content_of(b) is None,
            None => true,
        },
    ensures
        advisory_body_spec(reply) == canned_advice_spec(),
{
}

/// Produces the advisory report for an optional raw chat reply (`None`
/// where no credential is configured or the call failed): the narrative
/// body under the fixed heading.  This flow always returns a report.
pub fn advisory_report(reply: Option<&Vec<u8>>) -> (r: Vec<u8>)
    ensures
        r@ == advisory_heading_spec() + advisory_body_spec(
            match reply {
                Some(b) => Some(b@),
                None => None,
            },
        ),
{
    let mut out = "### 订阅优化建议\n\n".as_bytes_vec();
    let content = match reply {
        Some(b) => crate::enrich::chat_content(b.as_slice()),
        None => None,
    };
    match content {
        Some(c) => append_bytes(&mut out, c.as_slice()),
        None => {
            let canned =
                "- 检查是否存在功能重叠的订阅，避免重复付费。\n- 长期使用的工具优先考虑年度方案或一次性买断。\n- 对低使用频率的订阅进行降级或暂停。".as_bytes_vec();
            append_bytes(&mut out, canned.as_slice());
        },
    }
    out
}

} // verus!
