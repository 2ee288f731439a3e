//! Icon resolution: disk-backed cache first, then one remote fetch, and no
//! further fallback tier.
//!
//! `icon_request` validates and normalizes the requested domain and fixes
//! the cache key; the caller then looks the key up in its `IconCache` (and
//! on disk, where it keeps one), fetches from the favicon provider only on
//! a miss, and hands the fetch result to `icon_after_fetch`.

use vstd::prelude::*;

verus! {

use vstd::string::StringSliceAdditionalSpecFns;
use vstd::string::StrSliceExecFns;

use crate::cache::{IconCache, put_once};
use crate::text::{append_bytes, byte_to_lower, fmt_u64, fmt_u64_spec, lower_byte};

/// An icon request: the domain and the optional pixel size.
pub struct IconQuery {
    pub domain: Vec<u8>,
    pub sz: Option<u32>,
}

/// The errors an icon request can end in.  A transport failure is an error
/// here, unlike in domain resolution: there is no further fallback tier.
#[derive(Clone, Copy, Debug, PartialEq, Eq, Structural)]
pub enum IconError {
    InvalidInput,
    UpstreamUnavailable,
}

/// The bytes a domain may consist of after normalization: lower-case ASCII
/// letters, digits, dot and hyphen.
pub open spec fn is_domain_byte(b: u8) -> bool {
    (97 <= b && b <= 122) || (48 <= b && b <= 57) || b == 46 || b == 45
}

/// Lower-cases `s` and strips every byte outside the domain alphabet.
pub open spec fn normalize_domain_spec(s: Seq<u8>) -> Seq<u8>
    decreases s.len(),
{
    if s.len() == 0 {
        Seq::empty()
    } else {
        let rest = normalize_domain_spec(s.drop_last());
        let b = lower_byte(s.last());
        if is_domain_byte(b) {
            rest.push(b)
        } else {
            rest
        }
    }
}

/// Normalizes a requested domain to its cache-key form.
pub fn normalize_domain(s: &[u8]) -> (r: Vec<u8>)
    ensures
        r@ == normalize_domain_spec(s@),
{
    let mut out: Vec<u8> = Vec::new();
    let mut i: usize = 0;
    assert(s@.take(0) =~= Seq::<u8>::empty());
    while i < s.len()
        invariant
            i <= s@.len(),
            out@ == normalize_domain_spec(s@.take(i as int)),
        decreases s@.len() - i,
    {
        let b = byte_to_lower(s[i]);
        proof {
            assert(s@.take(i + 1 as int).drop_last() =~= s@.take(i as int));
            assert(s@.take(i + 1 as int).last() == s@[i as int]);
        }
        if (97 <= b && b <= 122) || (48 <= b && b <= 57) || b == 46 || b == 45 {
            out.push(b);
        }
        i = i + 1;
    }
    assert(s@.take(s@.len() as int) =~= s@);
    out
}

/// The validated key of an icon request: normalized domain and size.
#[derive(Debug)]
pub struct IconKey {
    pub domain: Vec<u8>,
    pub size: u32,
}

/// The size an icon request falls back to when it names none.
pub const DEFAULT_ICON_SIZE: u32 = 64;

/// The normalized key of a request, or the size it defaults to.
pub open spec fn icon_request_spec(domain: Seq<u8>, sz: Option<u32>) -> Result<
    (Seq<u8>, u32),
    IconError,
> {
    let nd = normalize_domain_spec(domain);
    if nd.len() == 0 {
        Err(IconError::InvalidInput)
    } else {
        Ok((nd, sz.unwrap_or(DEFAULT_ICON_SIZE)))
    }
}

/// Validates an icon request: the domain is normalized before any lookup,
/// an empty normalized domain is rejected, and a missing size defaults.
pub fn icon_request(q: &IconQuery) -> (r: Result<IconKey, IconError>)
    ensures
        match r {
            Ok(k) => icon_request_spec(q.domain@, q.sz) == Ok::<_, IconError>((k.domain@, k.size)),
            Err(e) => icon_request_spec(q.domain@, q.sz) == Err::<(Seq<u8>, u32), _>(e),
        },
{
    let nd = normalize_domain(q.domain.as_slice());
    if nd.len() == 0 {
        return Err(IconError::InvalidInput);
    }
    let size = match q.sz {
        Some(s) => s,
        None => DEFAULT_ICON_SIZE,
    };
    Ok(IconKey { domain: nd, size })
}

/// The file name an icon key is persisted under.
pub open spec fn icon_file_name_spec(domain: Seq<u8>, size: u32) -> Seq<u8> {
    domain + seq![95u8] + fmt_u64_spec(size as int) + ".png".spec_bytes()
}

/// Renders the key's file name: `<domain>_<size>.png`.
pub fn icon_file_name(k: &IconKey) -> (r: Vec<u8>)
    ensures
        r@ == icon_file_name_spec(k.domain@, k.size),
{
    let mut out = vstd::slice::slice_to_vec(k.domain.as_slice());
    out.push(95u8);
    let digits = fmt_u64(k.size as u64);
    append_bytes(&mut out, digits.as_slice());
    let suffix = ".png".as_bytes_vec();
    append_bytes(&mut out, suffix.as_slice());
    assert(out@ =~= icon_file_name_spec(k.domain@, k.size));
    out
}

/// The cache directive successful icon replies carry for downstream
/// consumers.
pub fn icon_cache_directive() -> (r: Vec<u8>)
    ensures
        r@ == "public, max-age=604800".spec_bytes(),
{
    "public, max-age=604800".as_bytes_vec()
}

/// The outcome and cache after the remote fetch tier ran.
pub open spec fn icon_fetch_spec(
    m: Map<(Seq<u8>, u32), Seq<u8>>,
    domain: Seq<u8>,
    size: u32,
    fetched: Option<Seq<u8>>,
) -> (Result<Seq<u8>, IconError>, Map<(Seq<u8>, u32), Seq<u8>>) {
    match fetched {
        Some(b) => (Ok(b), put_once(m, (domain, size), b)),
        None => (Err(IconError::UpstreamUnavailable), m),
    }
}

/// Consumes the favicon fetch result (`None` for a transport or provider
/// failure).  Fetched bytes are persisted under the key and returned; the
/// store is best-effort and never changes what the caller is handed.
pub fn icon_after_fetch(cache: &mut IconCache, k: &IconKey, fetched: Option<Vec<u8>>) -> (r:
    Result<Vec<u8>, IconError>)
    requires
        old(cache).wf(),
    ensures
        final(cache).wf(),
        ({
            let spec_r = icon_fetch_spec(
                old(cache)@,
                k.domain@,
                k.size,
                crate::text::opt_bytes_view(fetched),
            );
            &&& match (r, spec_r.0) {
                (Ok(b), Ok(sb)) => b@ == sb,
                (Err(e), Err(se)) => e == se,
                _ => false,
            }
            &&& final(cache)@ == spec_r.1
        }),
{
    match fetched {
        Some(b) => {
            cache.store(k.domain.as_slice(), k.size, b.as_slice());
            Ok(b)
        },
        None => Err(IconError::UpstreamUnavailable),
    }
}

/// An icon fetched successfully once is afterwards served from the cache:
/// storing the fetched bytes under the request's key makes the next lookup
/// for the same `(domain, size)` return exactly those bytes, so no second
/// outbound fetch is asked for.
pub proof fn lemma_second_icon_request_is_cache_hit(
    m: Map<(Seq<u8>, u32), Seq<u8>>,
    domain: Seq<u8>,
    size: u32,
    b: Seq<u8>,
)
    requires
        !m.contains_key((domain, size)),
    ensures
        put_once(m, (domain, size), b).contains_key((domain, size)),
        put_once(m, (domain, size), b)[(domain, size)] == b,
{
}

} // verus!
