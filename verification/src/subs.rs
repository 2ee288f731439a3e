//! Subscription records and the validation rules a mutating request must
//! pass before it reaches storage.  Amounts are held in cents.

use vstd::prelude::*;

verus! {

use crate::text::{opt_bytes_view, trim_bytes, trim_spec};

/// A stored subscription row.
#[derive(Debug)]
pub struct Subscription {
    pub id: i64,
    pub name: Vec<u8>,
    pub price_cents: u64,
    pub currency: Vec<u8>,
    pub next_payment: Option<Vec<u8>>,
    pub frequency: i64,
    pub url: Option<Vec<u8>>,
    pub logo: Option<Vec<u8>>,
    pub start_date: Option<Vec<u8>>,
    pub active: bool,
}

pub struct SubscriptionView {
    pub id: i64,
    pub name: Seq<u8>,
    pub price_cents: u64,
    pub currency: Seq<u8>,
    pub next_payment: Option<Seq<u8>>,
    pub frequency: i64,
    pub url: Option<Seq<u8>>,
    pub logo: Option<Seq<u8>>,
    pub start_date: Option<Seq<u8>>,
    pub active: bool,
}

impl View for Subscription {
    type V = SubscriptionView;

    open spec fn view(&self) -> SubscriptionView {
        SubscriptionView {
            id: self.id,
            name: self.name@,
            price_cents: self.price_cents,
            currency: self.currency@,
            next_payment: opt_bytes_view(self.next_payment),
            frequency: self.frequency,
            url: opt_bytes_view(self.url),
            logo: opt_bytes_view(self.logo),
            start_date: opt_bytes_view(self.start_date),
            active: self.active,
        }
    }
}

/// The payload of a create or update request.  `id` and `active` are
/// chosen by the caller's storage, not by the payload.
pub struct CreateSubscription {
    pub name: Vec<u8>,
    pub price_cents: Option<u64>,
    pub currency: Vec<u8>,
    pub next_payment: Option<Vec<u8>>,
    pub frequency: i64,
    pub url: Option<Vec<u8>>,
    pub logo: Option<Vec<u8>>,
    pub start_date: Option<Vec<u8>>,
}

pub struct CreateView {
    pub name: Seq<u8>,
    pub price_cents: Option<u64>,
    pub currency: Seq<u8>,
    pub next_payment: Option<Seq<u8>>,
    pub frequency: i64,
    pub url: Option<Seq<u8>>,
    pub logo: Option<Seq<u8>>,
    pub start_date: Option<Seq<u8>>,
}

impl View for CreateSubscription {
    type V = CreateView;

    open spec fn view(&self) -> CreateView {
        CreateView {
            name: self.name@,
            price_cents: self.price_cents,
            currency: self.currency@,
            next_payment: opt_bytes_view(self.next_payment),
            frequency: self.frequency,
            url: opt_bytes_view(self.url),
            logo: opt_bytes_view(self.logo),
            start_date: opt_bytes_view(self.start_date),
        }
    }
}

/// Why a payload is rejected.
#[derive(Clone, Copy, Debug, PartialEq, Eq, Structural)]
pub enum ValidationError {
    NameRequired,
    InvalidFrequency,
    PriceRequired,
    NextPaymentRequired,
}

/// The frequency codes a payload may carry.
pub open spec fn allowed_frequency(f: i64) -> bool {
    f == -1 || f == 0 || f == 1 || f == 3 || f == 12
}

/// The checks a payload must pass, in order, and what a passing payload
/// settles: its price and next-payment date.  A lifetime subscription
/// (frequency 0) defaults a missing price to zero and drops the date; any
/// other frequency requires both.
pub open spec fn validate_spec(p: CreateView) -> Result<(u64, Option<Seq<u8>>), ValidationError> {
    if trim_spec(p.name).len() == 0 {
        Err(ValidationError::NameRequired)
    } else if !allowed_frequency(p.frequency) {
        Err(ValidationError::InvalidFrequency)
    } else if p.frequency == 0 {
        Ok((p.price_cents.unwrap_or(0), None))
    } else if p.price_cents is None {
        Err(ValidationError::PriceRequired)
    } else if p.next_payment is None {
        Err(ValidationError::NextPaymentRequired)
    } else {
        Ok((p.price_cents.unwrap(), p.next_payment))
    }
}

/// Validates a payload and settles its price and next-payment date.
pub fn validate_subscription(p: &CreateSubscription) -> (r: Result<
    (u64, Option<Vec<u8>>),
    ValidationError,
>)
    ensures
        match r {
            Ok(v) => validate_spec(p@) == Ok::<_, ValidationError>(
                (v.0, opt_bytes_view(v.1)),
            ),
            Err(e) => validate_spec(p@) == Err::<(u64, Option<Seq<u8>>), _>(e),
        },
{
    let trimmed = trim_bytes(p.name.as_slice());
    if trimmed.len() == 0 {
        return Err(ValidationError::NameRequired);
    }
    let f = p.frequency;
    if !(f == -1 || f == 0 || f == 1 || f == 3 || f == 12) {
        return Err(ValidationError::InvalidFrequency);
    }
    if f == 0 {
        let price = match p.price_cents {
            Some(c) => c,
            None => 0,
        };
        return Ok((price, None));
    }
    let price = match p.price_cents {
        Some(c) => c,
        None => {
            return Err(ValidationError::PriceRequired);
        },
    };
    let next = match &p.next_payment {
        Some(d) => vstd::slice::slice_to_vec(d.as_slice()),
        None => {
            return Err(ValidationError::NextPaymentRequired);
        },
    };
    Ok((price, Some(next)))
}

/// The row a passing payload becomes under a storage-assigned id: the
/// payload's fields, the settled price and date, and `active` set.
pub open spec fn subscription_of_spec(id: i64, p: CreateView, settled: (u64, Option<Seq<u8>>)) -> SubscriptionView {
    SubscriptionView {
        id: id,
        name: p.name,
        price_cents: settled.0,
        currency: p.currency,
        next_payment: settled.1,
        frequency: p.frequency,
        url: p.url,
        logo: p.logo,
        start_date: p.start_date,
        active: true,
    }
}

/// Validates a payload and builds the row to store under `id`.
pub fn subscription_from_request(id: i64, p: CreateSubscription) -> (r: Result<
    Subscription,
    ValidationError,
>)
    ensures
        match r {
            Ok(s) => validate_spec(p@) is Ok && s@ == subscription_of_spec(
                id,
                p@,
                validate_spec(p@).unwrap(),
            ),
            Err(e) => validate_spec(p@) == Err::<(u64, Option<Seq<u8>>), _>(e),
        },
{
    let settled = match validate_subscription(&p) {
        Ok(v) => v,
        Err(e) => {
            return Err(e);
        },
    };
    Ok(
        Subscription {
            id,
            name: p.name,
            price_cents: settled.0,
            currency: p.currency,
            next_payment: settled.1,
            frequency: p.frequency,
            url: p.url,
            logo: p.logo,
            start_date: p.start_date,
            active: true,
        },
    )
}

} // verus!
