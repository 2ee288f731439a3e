//! Byte-string utilities shared by the resolvers: ASCII case folding,
//! trimming, substring search, decimal parsing and formatting, and
//! template substitution.  All text in this crate is handled as UTF-8
//! bytes; the specifications below are over `Seq<u8>`.

use vstd::prelude::*;

verus! {

use vstd::string::StringSliceAdditionalSpecFns;

// ---------------------------------------------------------------------------
// Byte classes
// ---------------------------------------------------------------------------

/// ASCII whitespace, as `char::is_whitespace` classifies ASCII.
pub open spec fn is_ascii_ws(b: u8) -> bool {
    b == 32 || b == 9 || b == 10 || b == 11 || b == 12 || b == 13
}

pub open spec fn is_digit(b: u8) -> bool {
    48 <= b && b <= 57
}

pub open spec fn lower_byte(b: u8) -> u8 {
    if 65 <= b && b <= 90 {
        (b + 32) as u8
    } else {
        b
    }
}

pub open spec fn lower_bytes(s: Seq<u8>) -> Seq<u8> {
    s.map_values(|b: u8| lower_byte(b))
}

pub fn byte_is_ws(b: u8) -> (r: bool)
    ensures
        r == is_ascii_ws(b),
{
    b == 32 || b == 9 || b == 10 || b == 11 || b == 12 || b == 13
}

pub fn byte_to_lower(b: u8) -> (r: u8)
    ensures
        r == lower_byte(b),
{
    if 65 <= b && b <= 90 {
        b + 32
    } else {
        b
    }
}

/// ASCII-lowercases every byte of `s`.
pub fn to_lower_vec(s: &[u8]) -> (r: Vec<u8>)
    ensures
        r@ == lower_bytes(s@),
{
    let mut out: Vec<u8> = Vec::new();
    let mut i: usize = 0;
    while i < s.len()
        invariant
            i <= s.len(),
            out@.len() == i,
            forall|j: int| 0 <= j < i ==> out@[j] == lower_byte(s@[j]),
        decreases s.len() - i,
    {
        out.push(byte_to_lower(s[i]));
        i = i + 1;
    }
    assert(out@ =~= lower_bytes(s@));
    out
}

// ---------------------------------------------------------------------------
// Views of optional and repeated byte strings
// ---------------------------------------------------------------------------

pub open spec fn opt_bytes_view(o: Option<Vec<u8>>) -> Option<Seq<u8>> {
    match o {
        Some(v) => Some(v@),
        None => None,
    }
}

pub open spec fn vecs_view(v: Seq<Vec<u8>>) -> Seq<Seq<u8>> {
    v.map_values(|x: Vec<u8>| x@)
}

// ---------------------------------------------------------------------------
// Elementary vector helpers
// ---------------------------------------------------------------------------

/// Appends `s` to `out`.
pub fn append_bytes(out: &mut Vec<u8>, s: &[u8])
    ensures
        final(out)@ == old(out)@ + s@,
{
    let mut i: usize = 0;
    while i < s.len()
        invariant
            i <= s.len(),
            out@ == old(out)@ + s@.take(i as int),
        decreases s.len() - i,
    {
        out.push(s[i]);
        assert(old(out)@ + s@.take(i as int) + seq![s@[i as int]] =~= old(out)@ + s@.take(
            i + 1 as int,
        ));
        i = i + 1;
    }
    assert(s@.take(s@.len() as int) =~= s@);
}

/// Byte-for-byte equality of two slices.
pub fn bytes_eq(a: &[u8], b: &[u8]) -> (r: bool)
    ensures
        r == (a@ == b@),
{
    if a.len() != b.len() {
        assert(a@ != b@);
        return false;
    }
    let mut i: usize = 0;
    while i < a.len()
        invariant
            i <= a.len(),
            a@.len() == b@.len(),
            forall|j: int| 0 <= j < i ==> a@[j] == b@[j],
        decreases a.len() - i,
    {
        if a[i] != b[i] {
            return false;
        }
        i = i + 1;
    }
    assert(a@ =~= b@);
    true
}

// ---------------------------------------------------------------------------
// Trimming
// ---------------------------------------------------------------------------

pub open spec fn trim_start_spec(s: Seq<u8>) -> Seq<u8>
    decreases s.len(),
{
    if s.len() > 0 && is_ascii_ws(s[0]) {
        trim_start_spec(s.skip(1))
    } else {
        s
    }
}

pub open spec fn trim_end_spec(s: Seq<u8>) -> Seq<u8>
    decreases s.len(),
{
    if s.len() > 0 && is_ascii_ws(s[s.len() - 1]) {
        trim_end_spec(s.take(s.len() - 1))
    } else {
        s
    }
}

/// `s` with ASCII whitespace removed from both ends.
pub open spec fn trim_spec(s: Seq<u8>) -> Seq<u8> {
    trim_end_spec(trim_start_spec(s))
}

/// Copies `s` with ASCII whitespace removed from both ends.
pub fn trim_bytes(s: &[u8]) -> (r: Vec<u8>)
    ensures
        r@ == trim_spec(s@),
{
    let mut lo: usize = 0;
    assert(s@.skip(0) =~= s@);
    while lo < s.len() && byte_is_ws(s[lo])
        invariant
            lo <= s.len(),
            trim_start_spec(s@) == trim_start_spec(s@.skip(lo as int)),
        decreases s.len() - lo,
    {
        assert(s@.skip(lo as int).skip(1) =~= s@.skip(lo + 1 as int));
        lo = lo + 1;
    }
    assert(trim_start_spec(s@) == s@.skip(lo as int));
    let mut hi: usize = s.len();
    assert(s@.skip(lo as int).take(s@.len() - lo) =~= s@.skip(lo as int));
    while hi > lo && byte_is_ws(s[hi - 1])
        invariant
            lo <= hi <= s.len(),
            trim_end_spec(s@.skip(lo as int)) == trim_end_spec(
                s@.skip(lo as int).take(hi - lo as int),
            ),
        decreases hi,
    {
        assert(s@.skip(lo as int).take(hi - lo as int).take(hi - 1 - lo as int) =~= s@.skip(
            lo as int,
        ).take(hi - 1 - lo as int));
        assert(s@.skip(lo as int).take(hi - lo as int)[hi - 1 - lo as int] == s@[hi - 1 as int]);
        hi = hi - 1;
    }
    assert(trim_end_spec(s@.skip(lo as int).take(hi - lo as int)) == s@.skip(lo as int).take(
        hi - lo as int,
    ));
    let out = vstd::slice::slice_to_vec(vstd::slice::slice_subrange(s, lo, hi));
    assert(out@ =~= s@.skip(lo as int).take(hi - lo as int));
    out
}

// ---------------------------------------------------------------------------
// Substring search
// ---------------------------------------------------------------------------

/// `needle` occurs in `hay` starting at index `i`.
pub open spec fn match_at(hay: Seq<u8>, needle: Seq<u8>, i: int) -> bool {
    0 <= i && i + needle.len() <= hay.len() && hay.subrange(i, i + needle.len()) == needle
}

/// Index of the first occurrence of `needle` in `hay`, if any.
pub open spec fn find_sub_spec(hay: Seq<u8>, needle: Seq<u8>) -> Option<int>
    decreases hay.len(),
{
    if needle.len() > hay.len() {
        None
    } else if hay.subrange(0, needle.len() as int) == needle {
        Some(0)
    } else if hay.len() == 0 {
        None
    } else {
        match find_sub_spec(hay.skip(1), needle) {
            Some(i) => Some(i + 1),
            None => None,
        }
    }
}

pub open spec fn contains_sub(hay: Seq<u8>, needle: Seq<u8>) -> bool {
    find_sub_spec(hay, needle) is Some
}

/// `find_sub_spec` returns the first match, and `None` only when nothing matches.
pub proof fn lemma_find_sub_spec(hay: Seq<u8>, needle: Seq<u8>)
    ensures
        match find_sub_spec(hay, needle) {
            Some(i) => match_at(hay, needle, i) && (forall|j: int|
                0 <= j < i ==> !match_at(hay, needle, j)),
            None => forall|j: int| !match_at(hay, needle, j),
        },
    decreases hay.len(),
{
    if needle.len() > hay.len() {
        assert(forall|j: int| !match_at(hay, needle, j));
    } else if hay.subrange(0, needle.len() as int) == needle {
        assert(match_at(hay, needle, 0));
    } else if hay.len() == 0 {
        assert forall|j: int| !match_at(hay, needle, j) by {
            if match_at(hay, needle, j) {
                assert(j == 0);
            }
        }
    } else {
        lemma_find_sub_spec(hay.skip(1), needle);
        assert forall|j: int| 1 <= j implies (match_at(hay, needle, j) == match_at(
            hay.skip(1),
            needle,
            j - 1,
        )) by {
            if 0 <= j - 1 && j - 1 + needle.len() <= hay.skip(1).len() {
                assert(hay.skip(1).subrange(j - 1, j - 1 + needle.len()) =~= hay.subrange(
                    j,
                    j + needle.len(),
                ));
            }
        }
        assert(!match_at(hay, needle, 0));
    }
}

/// Index of the first occurrence of `needle` in `hay`.
pub fn find_sub(hay: &[u8], needle: &[u8]) -> (r: Option<usize>)
    ensures
        match r {
            Some(i) => find_sub_spec(hay@, needle@) == Some(i as int),
            None => find_sub_spec(hay@, needle@) is None,
        },
{
    proof {
        lemma_find_sub_spec(hay@, needle@);
    }
    if needle.len() > hay.len() {
        return None;
    }
    if needle.len() == 0 {
        assert(hay@.subrange(0, 0) =~= needle@);
        assert(match_at(hay@, needle@, 0));
        return Some(0);
    }
    let mut i: usize = 0;
    while needle.len() <= hay.len() - i
        invariant
            0 < needle@.len() <= hay@.len(),
            i <= hay@.len(),
            forall|j: int| 0 <= j < i ==> !match_at(hay@, needle@, j),
        decreases hay.len() - i,
    {
        let window = vstd::slice::slice_subrange(hay, i, i + needle.len());
        if bytes_eq(window, needle) {
            proof {
                lemma_find_sub_spec(hay@, needle@);
                if let Some(k) = find_sub_spec(hay@, needle@) {
                    assert(!(k < i));
                    assert(!(k > i)) by {
                        assert(match_at(hay@, needle@, i as int));
                    }
                } else {
                    assert(match_at(hay@, needle@, i as int));
                }
            }
            return Some(i);
        }
        i = i + 1;
    }
    proof {
        assert forall|j: int| !match_at(hay@, needle@, j) by {
            if match_at(hay@, needle@, j) {
                assert(0 <= j < i);
            }
        }
        lemma_find_sub_spec(hay@, needle@);
    }
    None
}

/// Whether `needle` occurs anywhere in `hay`.
pub fn contains_bytes(hay: &[u8], needle: &[u8]) -> (r: bool)
    ensures
        r == contains_sub(hay@, needle@),
{
    find_sub(hay, needle).is_some()
}

pub open spec fn starts_with_spec(s: Seq<u8>, prefix: Seq<u8>) -> bool {
    s.len() >= prefix.len() && s.subrange(0, prefix.len() as int) == prefix
}

pub fn starts_with(s: &[u8], prefix: &[u8]) -> (r: bool)
    ensures
        r == starts_with_spec(s@, prefix@),
{
    if s.len() < prefix.len() {
        return false;
    }
    bytes_eq(vstd::slice::slice_subrange(s, 0, prefix.len()), prefix)
}

// ---------------------------------------------------------------------------
// Decimal amounts, held in cents
// ---------------------------------------------------------------------------

/// Value of a digit string, most significant digit first.
pub open spec fn digits_value(s: Seq<u8>) -> int
    decreases s.len(),
{
    if s.len() == 0 {
        0
    } else {
        digits_value(s.take(s.len() - 1)) * 10 + (s[s.len() - 1] - 48)
    }
}

pub open spec fn all_digits(s: Seq<u8>) -> bool {
    forall|i: int| 0 <= i < s.len() ==> is_digit(s[i])
}

/// Largest whole-unit amount whose cent value still fits in `u64`.
pub const MAX_WHOLE_UNITS: u64 = 184467440737095515;

/// Value in cents of a fraction part of at most two digits.
pub open spec fn frac_cents(s: Seq<u8>) -> int {
    if s.len() == 0 {
        0
    } else if s.len() == 1 {
        (s[0] - 48) * 10
    } else {
        (s[0] - 48) * 10 + (s[1] - 48)
    }
}

/// A token is a price when it is digits with an optional point followed by at
/// most two fraction digits, and the amount fits in `u64` cents.
pub open spec fn parse_cents_spec(s: Seq<u8>) -> Option<u64> {
    match find_sub_spec(s, seq![46u8]) {
        None => {
            if s.len() > 0 && all_digits(s) && digits_value(s) <= MAX_WHOLE_UNITS {
                Some((digits_value(s) * 100) as u64)
            } else {
                None
            }
        },
        Some(i) => {
            let whole = s.take(i);
            let frac = s.skip(i + 1);
            if (whole.len() > 0 || frac.len() > 0) && all_digits(whole) && all_digits(frac)
                && frac.len() <= 2 && digits_value(whole) <= MAX_WHOLE_UNITS {
                Some((digits_value(whole) * 100 + frac_cents(frac)) as u64)
            } else {
                None
            }
        },
    }
}

pub proof fn lemma_digits_value_nonneg(s: Seq<u8>)
    requires
        all_digits(s),
    ensures
        digits_value(s) >= 0,
    decreases s.len(),
{
    if s.len() > 0 {
        assert(all_digits(s.take(s.len() - 1)));
        lemma_digits_value_nonneg(s.take(s.len() - 1));
    }
}

/// A digit string's value only grows with more digits appended.
pub proof fn lemma_digits_value_prefix(s: Seq<u8>, i: int)
    requires
        all_digits(s),
        0 <= i <= s.len(),
    ensures
        digits_value(s.take(i)) <= digits_value(s),
    decreases s.len() - i,
{
    assert(all_digits(s.take(i)));
    if i < s.len() {
        lemma_digits_value_prefix(s, i + 1);
        assert(s.take(i + 1).take(i) =~= s.take(i));
        lemma_digits_value_nonneg(s.take(i));
        assert(digits_value(s.take(i + 1)) == digits_value(s.take(i)) * 10 + (s[i] - 48));
    } else {
        assert(s.take(i) =~= s);
    }
}

/// Reads a digit run `s[from..to]`, returning its value unless it exceeds
/// `MAX_WHOLE_UNITS`.
fn read_digits(s: &[u8], from: usize, to: usize) -> (r: Option<u64>)
    requires
        from <= to <= s@.len(),
        all_digits(s@.subrange(from as int, to as int)),
    ensures
        match r {
            Some(v) => digits_value(s@.subrange(from as int, to as int)) == v
                && v <= MAX_WHOLE_UNITS,
            None => digits_value(s@.subrange(from as int, to as int)) > MAX_WHOLE_UNITS,
        },
{
    let ghost d = s@.subrange(from as int, to as int);
    let mut acc: u64 = 0;
    let mut i: usize = from;
    while i < to
        invariant
            from <= i <= to <= s@.len(),
            d == s@.subrange(from as int, to as int),
            all_digits(d),
            acc <= MAX_WHOLE_UNITS,
            acc == digits_value(d.take(i - from as int)),
        decreases to - i,
    {
        let b = s[i];
        assert(d[i - from as int] == b);
        assert(is_digit(b));
        let digit = (b - 48) as u64;
        proof {
            assert(d.take(i + 1 - from as int).take(i - from as int) =~= d.take(i - from as int));
            assert(digits_value(d.take(i + 1 - from as int)) == digits_value(
                d.take(i - from as int),
            ) * 10 + digit);
        }
        if acc > (MAX_WHOLE_UNITS - digit) / 10 {
            proof {
                assert(digits_value(d.take(i + 1 - from as int)) > MAX_WHOLE_UNITS);
                lemma_digits_value_prefix(d, i + 1 - from as int);
            }
            return None;
        }
        acc = acc * 10 + digit;
        i = i + 1;
    }
    assert(d.take(to - from as int) =~= d);
    Some(acc)
}

/// Parses a decimal token into cents.
#[verifier::loop_isolation(false)]
pub fn parse_cents(s: &[u8]) -> (r: Option<u64>)
    ensures
        r == parse_cents_spec(s@),
{
    let mut dot: Vec<u8> = Vec::new();
    dot.push(46u8);
    assert(dot@ =~= seq![46u8]);
    proof {
        lemma_find_sub_spec(s@, seq![46u8]);
    }
    let dot_at = find_sub(s, dot.as_slice());
    let n = s.len();
    let (whole_to, frac_from): (usize, usize) = match dot_at {
        None => (n, n),
        Some(i) => {
            assert(match_at(s@, seq![46u8], i as int));
            assert(i + 1 <= n);
            (i, i + 1)
        },
    };
    let ghost whole = s@.take(whole_to as int);
    let ghost frac = s@.skip(frac_from as int);
    proof {
        if dot_at is None {
            assert(whole =~= s@);
        }
    }
    if whole_to == 0 && frac_from >= s.len() {
        assert(whole.len() == 0 && frac.len() == 0);
        return None;
    }
    // every byte of the whole part must be a digit
    let mut i: usize = 0;
    while i < whole_to
        invariant
            i <= whole_to <= s@.len(),
            whole == s@.take(whole_to as int),
            forall|j: int| 0 <= j < i ==> is_digit(whole[j]),
        decreases whole_to - i,
    {
        if !(48 <= s[i] && s[i] <= 57) {
            assert(!is_digit(whole[i as int]));
            return None;
        }
        i = i + 1;
    }
    assert(all_digits(whole));
    // and of the fraction part, which has at most two digits
    if s.len() - frac_from > 2 {
        return None;
    }
    let mut k: usize = frac_from;
    while k < s.len()
        invariant
            frac_from <= k <= s@.len(),
            frac == s@.skip(frac_from as int),
            forall|j: int| 0 <= j < k - frac_from ==> is_digit(frac[j]),
        decreases s@.len() - k,
    {
        if !(48 <= s[k] && s[k] <= 57) {
            assert(!is_digit(frac[k - frac_from as int]));
            return None;
        }
        k = k + 1;
    }
    assert(all_digits(frac));
    assert(s@.subrange(0, whole_to as int) =~= whole);
    let whole_val = match read_digits(s, 0, whole_to) {
        Some(v) => v,
        None => {
            return None;
        },
    };
    let frac_val: u64 = if frac_from >= s.len() {
        0
    } else if s.len() - frac_from == 1 {
        assert(frac[0] == s@[frac_from as int]);
        (s[frac_from] - 48) as u64 * 10
    } else {
        assert(frac[0] == s@[frac_from as int]);
        assert(frac[1] == s@[frac_from + 1 as int]);
        (s[frac_from] - 48) as u64 * 10 + (s[frac_from + 1] - 48) as u64
    };
    proof {
        lemma_digits_value_nonneg(whole);
        assert(frac_cents(frac) == frac_val);
        assert(frac_val <= 99);
    }
    Some(whole_val * 100 + frac_val)
}

// ---------------------------------------------------------------------------
// First price-like token
// ---------------------------------------------------------------------------

/// Length of the whitespace-delimited token at the head of `s`.
pub open spec fn token_len(s: Seq<u8>) -> nat
    decreases s.len(),
{
    if s.len() == 0 || is_ascii_ws(s[0]) {
        0
    } else {
        1 + token_len(s.skip(1))
    }
}

pub proof fn lemma_token_len_bound(s: Seq<u8>)
    ensures
        token_len(s) <= s.len(),
    decreases s.len(),
{
    if s.len() > 0 && !is_ascii_ws(s[0]) {
        lemma_token_len_bound(s.skip(1));
    }
}

/// The cents value of the first whitespace-delimited token of `s` that parses
/// as a price.
pub open spec fn first_price_spec(s: Seq<u8>) -> Option<u64>
    decreases s.len(),
    via first_price_spec_decreases
{
    if s.len() == 0 {
        None
    } else if is_ascii_ws(s[0]) {
        first_price_spec(s.skip(1))
    } else {
        let k = token_len(s) as int;
        match parse_cents_spec(s.take(k)) {
            Some(p) => Some(p),
            None => first_price_spec(s.skip(k)),
        }
    }
}

#[via_fn]
proof fn first_price_spec_decreases(s: Seq<u8>) {
    if s.len() > 0 && !is_ascii_ws(s[0]) {
        lemma_token_len_bound(s);
    }
}

/// Scans whitespace-delimited tokens for the first one that parses as a price.
pub fn first_price(s: &[u8]) -> (r: Option<u64>)
    ensures
        r == first_price_spec(s@),
{
    let mut i: usize = 0;
    assert(s@.skip(0) =~= s@);
    while i < s.len()
        invariant
            i <= s@.len(),
            first_price_spec(s@) == first_price_spec(s@.skip(i as int)),
        decreases s@.len() - i,
    {
        if byte_is_ws(s[i]) {
            assert(s@.skip(i as int).skip(1) =~= s@.skip(i + 1 as int));
            i = i + 1;
        } else {
            let ghost rest = s@.skip(i as int);
            let mut j: usize = i;
            while j < s.len() && !byte_is_ws(s[j])
                invariant
                    i <= j <= s@.len(),
                    rest == s@.skip(i as int),
                    !is_ascii_ws(s@[i as int]),
                    token_len(rest) == (j - i) + token_len(s@.skip(j as int)),
                decreases s@.len() - j,
            {
                assert(s@.skip(j as int).skip(1) =~= s@.skip(j + 1 as int));
                assert(token_len(s@.skip(j as int)) == 1 + token_len(s@.skip(j + 1 as int)));
                j = j + 1;
            }
            proof {
                if j < s.len() {
                    assert(token_len(s@.skip(j as int)) == 0);
                } else {
                    assert(s@.skip(j as int).len() == 0);
                }
                assert(token_len(rest) == j - i);
            }
            let tok = vstd::slice::slice_subrange(s, i, j);
            assert(tok@ =~= rest.take(j - i));
            let parsed = parse_cents(tok);
            match parsed {
                Some(p) => {
                    return Some(p);
                },
                None => {
                    assert(rest.skip(j - i) =~= s@.skip(j as int));
                    i = j;
                },
            }
        }
    }
    None
}

// ---------------------------------------------------------------------------
// Template substitution
// ---------------------------------------------------------------------------

/// `s` with every occurrence of `pat` replaced by `rep`, scanning left to
/// right without revisiting replaced text.
pub open spec fn replace_all_spec(s: Seq<u8>, pat: Seq<u8>, rep: Seq<u8>) -> Seq<u8>
    decreases s.len(),
{
    if pat.len() == 0 || s.len() < pat.len() {
        s
    } else if s.take(pat.len() as int) == pat {
        rep + replace_all_spec(s.skip(pat.len() as int), pat, rep)
    } else {
        seq![s[0]] + replace_all_spec(s.skip(1), pat, rep)
    }
}

/// Replaces every occurrence of `pat` in `s` by `rep`.
pub fn replace_all(s: &[u8], pat: &[u8], rep: &[u8]) -> (r: Vec<u8>)
    ensures
        r@ == replace_all_spec(s@, pat@, rep@),
{
    if pat.len() == 0 {
        return vstd::slice::slice_to_vec(s);
    }
    let mut out: Vec<u8> = Vec::new();
    let mut i: usize = 0;
    assert(s@.skip(0) =~= s@);
    while i < s.len()
        invariant
            pat@.len() > 0,
            i <= s@.len(),
            replace_all_spec(s@, pat@, rep@) == out@ + replace_all_spec(
                s@.skip(i as int),
                pat@,
                rep@,
            ),
        decreases s@.len() - i,
    {
        let matched = if pat.len() <= s.len() - i {
            bytes_eq(vstd::slice::slice_subrange(s, i, i + pat.len()), pat)
        } else {
            false
        };
        if matched {
            assert(s@.subrange(i as int, i + pat@.len() as int) =~= s@.skip(i as int).take(
                pat@.len() as int,
            ));
            append_bytes(&mut out, rep);
            assert(s@.skip(i as int).skip(pat@.len() as int) =~= s@.skip(
                i + pat@.len() as int,
            ));
            i = i + pat.len();
        } else {
            proof {
                if i + pat@.len() <= s@.len() {
                    assert(s@.skip(i as int).take(pat@.len() as int) =~= s@.subrange(
                        i as int,
                        i + pat@.len() as int,
                    ));
                }
                assert(s@.skip(i as int)[0] == s@[i as int]);
            }
            out.push(s[i]);
            assert(out@ =~= (out@.take(out@.len() - 1)) + seq![s@[i as int]]);
            assert(s@.skip(i as int).skip(1) =~= s@.skip(i + 1 as int));
            i = i + 1;
        }
    }
    assert(s@.skip(i as int).len() == 0);
    assert(out@ + s@.skip(i as int) =~= out@);
    out
}

// ---------------------------------------------------------------------------
// Stripping repeated markers (code fences)
// ---------------------------------------------------------------------------

/// `s` with every leading repetition of `p` removed.
pub open spec fn strip_prefix_all(s: Seq<u8>, p: Seq<u8>) -> Seq<u8>
    decreases s.len(),
{
    if p.len() > 0 && starts_with_spec(s, p) {
        strip_prefix_all(s.skip(p.len() as int), p)
    } else {
        s
    }
}

/// `s` with every trailing repetition of `p` removed.
pub open spec fn strip_suffix_all(s: Seq<u8>, p: Seq<u8>) -> Seq<u8>
    decreases s.len(),
{
    if p.len() > 0 && s.len() >= p.len() && s.skip(s.len() - p.len()) == p {
        strip_suffix_all(s.take(s.len() - p.len()), p)
    } else {
        s
    }
}

/// Removes every leading repetition of `p` from `s`.
pub fn strip_prefix_repeated(s: &[u8], p: &[u8]) -> (r: Vec<u8>)
    ensures
        r@ == strip_prefix_all(s@, p@),
{
    if p.len() == 0 {
        return vstd::slice::slice_to_vec(s);
    }
    let mut lo: usize = 0;
    assert(s@.skip(0) =~= s@);
    loop
        invariant
            p@.len() > 0,
            lo <= s@.len(),
            strip_prefix_all(s@, p@) == strip_prefix_all(s@.skip(lo as int), p@),
        decreases s@.len() - lo,
    {
        let more = if p.len() <= s.len() - lo {
            bytes_eq(vstd::slice::slice_subrange(s, lo, lo + p.len()), p)
        } else {
            false
        };
        proof {
            if lo + p@.len() <= s@.len() {
                assert(s@.subrange(lo as int, lo + p@.len() as int) =~= s@.skip(lo as int).take(
                    p@.len() as int,
                ));
                assert(s@.skip(lo as int).subrange(0, p@.len() as int) =~= s@.skip(
                    lo as int,
                ).take(p@.len() as int));
            }
        }
        if more {
            assert(s@.skip(lo as int).skip(p@.len() as int) =~= s@.skip(lo + p@.len() as int));
            lo = lo + p.len();
        } else {
            proof {
                if starts_with_spec(s@.skip(lo as int), p@) {
                    assert(lo + p@.len() <= s@.len());
                }
            }
            let out = vstd::slice::slice_to_vec(vstd::slice::slice_subrange(s, lo, s.len()));
            assert(out@ =~= s@.skip(lo as int));
            return out;
        }
    }
}

/// Removes every trailing repetition of `p` from `s`.
pub fn strip_suffix_repeated(s: &[u8], p: &[u8]) -> (r: Vec<u8>)
    ensures
        r@ == strip_suffix_all(s@, p@),
{
    if p.len() == 0 {
        return vstd::slice::slice_to_vec(s);
    }
    let mut hi: usize = s.len();
    assert(s@.take(s@.len() as int) =~= s@);
    loop
        invariant
            p@.len() > 0,
            hi <= s@.len(),
            strip_suffix_all(s@, p@) == strip_suffix_all(s@.take(hi as int), p@),
        decreases hi,
    {
        let more = if hi >= p.len() {
            bytes_eq(vstd::slice::slice_subrange(s, hi - p.len(), hi), p)
        } else {
            false
        };
        proof {
            if hi >= p@.len() {
                assert(s@.subrange(hi - p@.len(), hi as int) =~= s@.take(hi as int).skip(
                    hi - p@.len(),
                ));
            }
        }
        if more {
            assert(s@.take(hi as int).take(hi - p@.len()) =~= s@.take(hi - p@.len()));
            hi = hi - p.len();
        } else {
            let out = vstd::slice::slice_to_vec(vstd::slice::slice_subrange(s, 0, hi));
            assert(out@ =~= s@.take(hi as int));
            return out;
        }
    }
}

/// A model reply trimmed and with optional code-fence markers stripped:
/// every leading "```json" run, then every leading "```" run, then every
/// trailing "```" run.
pub open spec fn clean_reply_spec(r: Seq<u8>) -> Seq<u8> {
    strip_suffix_all(
        strip_prefix_all(
            strip_prefix_all(trim_spec(r), "```json".spec_bytes()),
            "```".spec_bytes(),
        ),
        "```".spec_bytes(),
    )
}

/// Trims a model reply and strips optional code-fence markers.
pub fn clean_reply(r: &[u8]) -> (out: Vec<u8>)
    ensures
        out@ == clean_reply_spec(r@),
{
    let trimmed = trim_bytes(r);
    let a = strip_prefix_repeated(trimmed.as_slice(), "```json".as_bytes());
    let b = strip_prefix_repeated(a.as_slice(), "```".as_bytes());
    strip_suffix_repeated(b.as_slice(), "```".as_bytes())
}

// ---------------------------------------------------------------------------
// Decimal formatting
// ---------------------------------------------------------------------------

/// Decimal digits of `n`, most significant first.
pub open spec fn fmt_u64_spec(n: int) -> Seq<u8>
    decreases n,
{
    if n < 0 {
        Seq::empty()
    } else if n < 10 {
        seq![(48 + n) as u8]
    } else {
        fmt_u64_spec(n / 10).push((48 + n % 10) as u8)
    }
}

/// Formats `n` in decimal.
pub fn fmt_u64(n: u64) -> (r: Vec<u8>)
    ensures
        r@ == fmt_u64_spec(n as int),
    decreases n,
{
    if n < 10 {
        let mut out: Vec<u8> = Vec::new();
        out.push(48 + n as u8);
        assert(out@ =~= fmt_u64_spec(n as int));
        out
    } else {
        let mut out = fmt_u64(n / 10);
        out.push(48 + (n % 10) as u8);
        out
    }
}

/// A cent amount rendered as whole units, a point, and two fraction digits.
pub open spec fn fmt_cents_spec(c: int) -> Seq<u8> {
    fmt_u64_spec(c / 100) + seq![46u8, (48 + (c % 100) / 10) as u8, (48 + c % 10) as u8]
}

/// Formats a cent amount with two decimal places.
pub fn fmt_cents(c: u64) -> (r: Vec<u8>)
    ensures
        r@ == fmt_cents_spec(c as int),
{
    let mut out = fmt_u64(c / 100);
    out.push(46u8);
    out.push(48 + ((c % 100) / 10) as u8);
    out.push(48 + (c % 10) as u8);
    out
}

} // verus!
