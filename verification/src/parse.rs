//! Wire-format parsing.
//!
//! The inverse of [`crate::json`]: a strict parser for the canonical wire
//! form of the mission-plan document. The parser accepts exactly the
//! canonical spelling — compact separators, unsigned integers without
//! leading zeroes, fixed-point decimals with one to seven fraction digits
//! and no trailing fraction zeroes — so the schema is lossless: parsing a
//! rendered document reconstructs every populated value unchanged.
//!
//! Every parsing step exists twice: a mathematical definition (`p_`
//! functions) over character sequences and index positions, and an
//! executable twin proved to return exactly what the definition says.

use vstd::prelude::*;
use crate::json::{
    dec_digits, dec_json, digit_char, lemma_pad_len, lemma_trim_done, lemma_trim_step, mag,
    pad_digits, trim_zeros,
};
use crate::mission_item::{ItemModel, ParamValue, DEC_SCALE};
use crate::plan::{
    Circle, GeoFence, GeoFenceCircle, GeoFenceModel, GeoFencePolygon, GeoFencePolygonModel,
    LatLon, LatLonAlt, Mission, MissionModel, Plan, PlanModel, RallyPoints, RallyPointsModel,
};
use crate::mission_item::{models, MissionItem};

verus! {

/// Whether `c` is a decimal digit.
pub open spec fn is_digit(c: char) -> bool {
    48 <= c as u32 <= 57
}

/// The numeric value of a digit character.
pub open spec fn dval(c: char) -> int {
    c as u32 - 48
}

/// Ten to the power `k`.
pub open spec fn pow10(k: nat) -> int
    decreases k,
{
    if k == 0 {
        1
    } else {
        10 * pow10((k - 1) as nat)
    }
}

/// The end of the run of digit characters starting at `i`.
pub open spec fn digit_run_end(s: Seq<char>, i: int) -> int
    decreases s.len() - i,
{
    if 0 <= i < s.len() && is_digit(s[i]) {
        digit_run_end(s, i + 1)
    } else {
        i
    }
}

/// The value of the digit characters `s[i..j]`, most significant first.
pub open spec fn run_val(s: Seq<char>, i: int, j: int) -> int
    decreases j - i,
{
    if j <= i {
        0
    } else {
        run_val(s, i, j - 1) * 10 + dval(s[j - 1])
    }
}

/// Parse the exact literal `lit` at `i`: the position after it, or nothing.
pub open spec fn p_lit(s: Seq<char>, i: int, lit: Seq<char>) -> Option<int> {
    if 0 <= i && i + lit.len() <= s.len() && s.subrange(i, i + lit.len()) == lit {
        Some(i + lit.len())
    } else {
        None
    }
}

/// Parse an unsigned integer at `i`: its value and the position after it.
/// Strict: at least one digit, at most seventeen, no leading zero.
pub open spec fn p_nat(s: Seq<char>, i: int) -> Option<(int, int)> {
    let j = digit_run_end(s, i);
    if i < j <= i + 17 && !(s[i] == '0' && j > i + 1) {
        Some((run_val(s, i, j), j))
    } else {
        None
    }
}

/// Parse a fixed-point decimal at `i`: its scaled value and the position
/// after it. Strict: canonical whole part, a point, one to seven fraction
/// digits with no trailing zero (except a single `0`), and a value that
/// fits an `i64`.
pub open spec fn p_dec(s: Seq<char>, i: int) -> Option<(i64, int)> {
    let neg = 0 <= i < s.len() && s[i] == '-';
    let i1 = if neg {
        i + 1
    } else {
        i
    };
    match p_nat(s, i1) {
        None => None,
        Some((whole, i2)) => {
            if !(i2 < s.len() && s[i2] == '.') {
                None
            } else {
                let j = digit_run_end(s, i2 + 1);
                let flen = j - (i2 + 1);
                if !(1 <= flen <= 7) || (flen > 1 && s[j - 1] == '0') {
                    None
                } else {
                    let v = whole * (DEC_SCALE as int) + run_val(s, i2 + 1, j) * pow10(
                        (7 - flen) as nat,
                    );
                    if neg && -v >= i64::MIN {
                        Some(((-v) as i64, j))
                    } else if !neg && v <= i64::MAX {
                        Some((v as i64, j))
                    } else {
                        None
                    }
                }
            }
        },
    }
}

/// The end of the run of non-quote characters starting at `i`.
pub open spec fn quote_run_end(s: Seq<char>, i: int) -> int
    decreases s.len() - i,
{
    if 0 <= i < s.len() && s[i] != '"' {
        quote_run_end(s, i + 1)
    } else {
        i
    }
}

/// Parse a string body at `i`, up to but not including the closing quote:
/// its contents and the position of the quote.
pub open spec fn p_string(s: Seq<char>, i: int) -> Option<(Seq<char>, int)> {
    let j = quote_run_end(s, i);
    if 0 <= i && j < s.len() {
        Some((s.subrange(i, j), j))
    } else {
        None
    }
}

/// Parse a boolean at `i`.
pub open spec fn p_bool(s: Seq<char>, i: int) -> Option<(bool, int)> {
    if p_lit(s, i, "true"@) is Some {
        Some((true, i + 4))
    } else if p_lit(s, i, "false"@) is Some {
        Some((false, i + 5))
    } else {
        None
    }
}

/// Digit characters are digits, and carry their value.
pub proof fn lemma_digit_char(d: int)
    requires
        0 <= d <= 9,
    ensures
        is_digit(digit_char(d)),
        dval(digit_char(d)) == d,
        d != 0 ==> digit_char(d) != '0',
{
}

/// A run of digits followed by a non-digit ends exactly at the non-digit.
pub proof fn lemma_digit_run_end(s: Seq<char>, i: int, j: int)
    requires
        0 <= i <= j <= s.len(),
        forall|k: int| i <= k < j ==> is_digit(#[trigger] s[k]),
        j == s.len() || !is_digit(s[j]),
    ensures
        digit_run_end(s, i) == j,
    decreases j - i,
{
    if i < j {
        lemma_digit_run_end(s, i + 1, j);
    }
}

/// Every character of a rendered unsigned integer is a digit.
pub proof fn lemma_dec_digits_are_digits(n: nat)
    ensures
        dec_digits(n).len() >= 1,
        forall|k: int| 0 <= k < dec_digits(n).len() ==> is_digit(#[trigger] dec_digits(n)[k]),
        dec_digits(n)[0] == '0' ==> n == 0,
    decreases n,
{
    lemma_digit_char((n % 10) as int);
    if n >= 10 {
        lemma_dec_digits_are_digits(n / 10);
        assert forall|k: int| 0 <= k < dec_digits(n).len() implies is_digit(
            #[trigger] dec_digits(n)[k],
        ) by {
            if k < dec_digits(n / 10).len() {
                assert(dec_digits(n)[k] == dec_digits(n / 10)[k]);
            }
        }
        assert(n / 10 != 0);
    }
}

/// A rendered unsigned integer has at most as many digits as its bound
/// has zeroes.
pub proof fn lemma_dec_digits_len(n: nat, k: nat)
    requires
        k >= 1,
        n < pow10(k),
    ensures
        dec_digits(n).len() <= k,
    decreases n,
{
    if n >= 10 {
        assert(pow10(k) == 10 * pow10((k - 1) as nat));
        lemma_dec_digits_len(n / 10, (k - 1) as nat);
    }
}

/// Reading back the digits of `n` yields `n`.
pub proof fn lemma_run_val_of_digits(s: Seq<char>, i: int, n: nat)
    requires
        0 <= i,
        i + dec_digits(n).len() <= s.len(),
        s.subrange(i, i + dec_digits(n).len()) == dec_digits(n),
    ensures
        run_val(s, i, i + dec_digits(n).len()) == n,
    decreases n,
{
    let d = dec_digits(n);
    let j = i + d.len();
    assert(s[j - 1] == d[d.len() - 1]);
    lemma_digit_char((n % 10) as int);
    if n < 10 {
        assert(run_val(s, i, j) == run_val(s, i, j - 1) * 10 + dval(s[j - 1]));
        assert(run_val(s, i, j - 1) == 0);
    } else {
        let dq = dec_digits(n / 10);
        assert(d == dq.push(digit_char((n % 10) as int)));
        assert(s.subrange(i, i + dq.len()) =~= dq) by {
            assert forall|k: int| 0 <= k < dq.len() implies s.subrange(i, i + dq.len())[k]
                == dq[k] by {
                assert(s[i + k] == d[k]);
            }
        }
        lemma_run_val_of_digits(s, i, n / 10);
        assert(s[j - 1] == digit_char((n % 10) as int));
    }
}

/// Parsing an unsigned integer at a rendering of `n` yields `n` back,
/// provided the next character is not a digit.
pub proof fn lemma_p_nat_inverts(s: Seq<char>, i: int, n: nat)
    requires
        0 <= i,
        i + dec_digits(n).len() <= s.len(),
        s.subrange(i, i + dec_digits(n).len()) == dec_digits(n),
        dec_digits(n).len() <= 17,
        i + dec_digits(n).len() == s.len() || !is_digit(s[i + dec_digits(n).len()]),
    ensures
        p_nat(s, i) == Some((n as int, i + dec_digits(n).len())),
{
    let d = dec_digits(n);
    let j = i + d.len();
    lemma_dec_digits_are_digits(n);
    assert forall|k: int| i <= k < j implies is_digit(#[trigger] s[k]) by {
        assert(s[k] == d[k - i]);
    }
    lemma_digit_run_end(s, i, j);
    lemma_run_val_of_digits(s, i, n);
    assert(s[i] == d[0]);
    if n == 0 {
        assert(d.len() == 1);
    }
}

/// The fraction value left after the trailing zeroes are dropped.
pub open spec fn trimmed_val(f: nat, k: nat) -> nat
    decreases k,
{
    if k <= 1 || f % 10 != 0 {
        f
    } else {
        trimmed_val(f / 10, (k - 1) as nat)
    }
}

/// The number of fraction digits left after the trailing zeroes are
/// dropped.
pub open spec fn trimmed_len(f: nat, k: nat) -> nat
    decreases k,
{
    if k <= 1 || f % 10 != 0 {
        k
    } else {
        trimmed_len(f / 10, (k - 1) as nat)
    }
}

/// Trimming a padded digit string drops a power of ten: what remains is
/// again a padded digit string, shorter, without a trailing zero, whose
/// value scaled back up is the untrimmed fraction.
pub proof fn lemma_trim_pad(f: nat, k: nat)
    requires
        k >= 1,
        f < pow10(k),
    ensures
        trim_zeros(pad_digits(f, k)) == pad_digits(trimmed_val(f, k), trimmed_len(f, k)),
        1 <= trimmed_len(f, k) <= k,
        trimmed_val(f, k) < pow10(trimmed_len(f, k)),
        trimmed_val(f, k) * pow10((k - trimmed_len(f, k)) as nat) == f,
        trimmed_len(f, k) == 1 || trimmed_val(f, k) % 10 != 0,
    decreases k,
{
    if k <= 1 || f % 10 != 0 {
        lemma_trim_done(f, k);
        assert(pow10(0) == 1);
    } else {
        lemma_trim_step(f, k);
        assert(f / 10 < pow10((k - 1) as nat));
        lemma_trim_pad(f / 10, (k - 1) as nat);
        let tl = trimmed_len(f, k);
        assert(trimmed_val(f, k) * pow10(((k - 1) - tl) as nat) == f / 10);
        assert(pow10((k - tl) as nat) == 10 * pow10(((k - 1) - tl) as nat));
        assert(trimmed_val(f, k) * pow10((k - tl) as nat) == (trimmed_val(f, k) * pow10(
            ((k - 1) - tl) as nat,
        )) * 10) by (nonlinear_arith)
            requires
                pow10((k - tl) as nat) == 10 * pow10(((k - 1) - tl) as nat),
        ;
        assert((f / 10) * 10 == f);
    }
}

/// Every character of a padded digit string is a digit.
pub proof fn lemma_pad_digits_are_digits(f: nat, k: nat)
    ensures
        forall|idx: int| 0 <= idx < k ==> is_digit(#[trigger] pad_digits(f, k)[idx]),
    decreases k,
{
    lemma_pad_len(f, k);
    if k >= 1 {
        lemma_pad_digits_are_digits(f / 10, (k - 1) as nat);
        lemma_pad_len(f / 10, (k - 1) as nat);
        lemma_digit_char((f % 10) as int);
        assert forall|idx: int| 0 <= idx < k implies is_digit(#[trigger] pad_digits(f, k)[idx]) by {
            if idx < k - 1 {
                assert(pad_digits(f, k)[idx] == pad_digits(f / 10, (k - 1) as nat)[idx]);
            }
        }
    }
}

/// Reading back a padded digit string yields its value.
pub proof fn lemma_run_val_of_pad(s: Seq<char>, i: int, f: nat, k: nat)
    requires
        0 <= i,
        i + k <= s.len(),
        f < pow10(k),
        s.subrange(i, i + k as int) == pad_digits(f, k),
    ensures
        run_val(s, i, i + k as int) == f,
    decreases k,
{
    lemma_pad_len(f, k);
    if k == 0 {
    } else {
        let d = pad_digits(f, k);
        let dq = pad_digits(f / 10, (k - 1) as nat);
        lemma_pad_len(f / 10, (k - 1) as nat);
        assert(s[i + k - 1] == d[k - 1]);
        assert(d[k - 1] == digit_char((f % 10) as int));
        lemma_digit_char((f % 10) as int);
        assert(f / 10 < pow10((k - 1) as nat));
        assert(s.subrange(i, i + (k - 1)) =~= dq) by {
            assert forall|idx: int| 0 <= idx < (k - 1) as int implies s.subrange(
                i,
                i + (k - 1),
            )[idx] == dq[idx] by {
                assert(s[i + idx] == d[idx]);
            }
        }
        lemma_run_val_of_pad(s, i, f / 10, (k - 1) as nat);
    }
}

/// Parsing a fixed-point decimal at a rendering of `v` yields `v` back,
/// provided the next character is not a digit.
pub proof fn lemma_p_dec_inverts(s: Seq<char>, i: int, v: i64)
    requires
        0 <= i,
        i + dec_json(v).len() <= s.len(),
        s.subrange(i, i + dec_json(v).len()) == dec_json(v),
        i + dec_json(v).len() == s.len() || !is_digit(s[i + dec_json(v).len()]),
    ensures
        p_dec(s, i) == Some((v, i + dec_json(v).len())),
{
    let d = dec_json(v);
    let m = mag(v);
    let whole = m / (DEC_SCALE as nat);
    let frac = m % (DEC_SCALE as nat);
    let sign: Seq<char> = if v < 0 {
        "-"@
    } else {
        Seq::<char>::empty()
    };
    let w = dec_digits(whole);
    let r = trim_zeros(pad_digits(frac, 7));
    assert(pow10(7) == 10000000) by {
        reveal_with_fuel(pow10, 8);
    }
    lemma_trim_pad(frac, 7);
    let fv = trimmed_val(frac, 7);
    let fl = trimmed_len(frac, 7);
    lemma_pad_len(fv, fl);
    reveal_strlit("-");
    reveal_strlit(".");
    let i1 = i + sign.len();
    let i2 = i1 + w.len();
    let i3 = i2 + 1;
    let j = i3 + fl as int;
    assert(d.len() == sign.len() + w.len() + 1 + fl);
    assert forall|k: int| 0 <= k < d.len() implies s[i + k] == d[k] by {
        assert(s.subrange(i, i + d.len())[k] == d[k]);
    }
    // The sign.
    lemma_dec_digits_are_digits(whole);
    if v < 0 {
        assert(s[i] == d[0]);
        assert(d[0] == '-');
    } else {
        assert(s[i] == d[0]) by {
            assert(s.subrange(i, i + d.len())[0] == d[0]);
        }
        assert(d[0] == w[0]);
        assert(is_digit(s[i]));
        assert(s[i] != '-');
    }
    // The whole part.
    assert(s.subrange(i1, i1 + w.len()) =~= w) by {
        assert forall|k: int| 0 <= k < w.len() implies s.subrange(i1, i1 + w.len())[k] == w[k] by {
            assert(s[i1 + k] == d[sign.len() + k]);
            assert(d[sign.len() + k as int] == w[k]);
        }
    }
    vstd::arithmetic::div_mod::lemma_fundamental_div_mod(m as int, 10000000);
    vstd::arithmetic::div_mod::lemma_mod_division_less_than_divisor(m as int, 10000000);
    assert(m == 10000000 * (whole as int) + frac);
    assert(whole < pow10(12)) by {
        reveal_with_fuel(pow10, 13);
        assert(10000000 * (whole as int) <= m);
    }
    lemma_dec_digits_len(whole, 12);
    assert(s[i2] == d[sign.len() + w.len() as int]);
    assert(s[i2] == '.');
    assert(!is_digit('.'));
    lemma_p_nat_inverts(s, i1, whole);
    assert(p_nat(s, i1) == Some((whole as int, i2)));
    // The fraction part.
    assert(s.subrange(i3, j) =~= pad_digits(fv, fl)) by {
        assert forall|k: int| 0 <= k < fl as int implies s.subrange(i3, j)[k] == pad_digits(
            fv,
            fl,
        )[k] by {
            assert(s[i3 + k] == d[sign.len() + w.len() + 1 + k]);
            assert(d[sign.len() + w.len() + 1 + k as int] == r[k]);
        }
    }
    lemma_pad_digits_are_digits(fv, fl);
    assert forall|k: int| i3 <= k < j implies is_digit(#[trigger] s[k]) by {
        assert(s.subrange(i3, j)[k - i3] == pad_digits(fv, fl)[k - i3]);
    }
    lemma_digit_run_end(s, i3, j);
    lemma_run_val_of_pad(s, i3, fv, fl);
    if fl > 1 {
        assert(s[j - 1] == pad_digits(fv, fl)[fl - 1]);
        assert(pad_digits(fv, fl)[fl - 1] == digit_char((fv % 10) as int));
        lemma_digit_char((fv % 10) as int);
        assert(s[j - 1] != '0');
    }
    // The reassembled value.
    assert(whole * (DEC_SCALE as int) + frac == m) by {
        assert(m == 10000000 * (whole as int) + frac);
        assert(whole * 10000000 == 10000000 * (whole as int)) by (nonlinear_arith);
    }
    assert(fv * pow10((7 - fl) as nat) == frac);
    if v < 0 {
        assert(m <= 9223372036854775808);
        assert(-(m as int) == v);
    } else {
        assert(m == v);
    }
}

/// The comma-joined tail of a list rendering: a comma before each piece.
pub open spec fn comma_tail(parts: Seq<Seq<char>>) -> Seq<char>
    decreases parts.len(),
{
    if parts.len() == 0 {
        Seq::empty()
    } else {
        ","@ + parts[0] + comma_tail(parts.skip(1))
    }
}

/// Appending a piece appends a comma and the piece to the tail form.
proof fn lemma_comma_tail_push(parts: Seq<Seq<char>>, x: Seq<char>)
    ensures
        comma_tail(parts.push(x)) == comma_tail(parts) + ","@ + x,
    decreases parts.len(),
{
    if parts.len() == 0 {
        assert(parts.push(x)[0] == x);
        assert(parts.push(x).skip(1) =~= Seq::<Seq<char>>::empty());
        assert(comma_tail(Seq::<Seq<char>>::empty()) =~= Seq::<char>::empty());
        assert(comma_tail(parts.push(x)) =~= comma_tail(parts) + ","@ + x);
    } else {
        assert(parts.push(x).skip(1) =~= parts.skip(1).push(x));
        lemma_comma_tail_push(parts.skip(1), x);
        assert(parts.push(x)[0] == parts[0]);
        assert(comma_tail(parts.push(x)) =~= comma_tail(parts) + ","@ + x);
    }
}

/// A comma-joined list is its first piece followed by the tail form of
/// the rest.
proof fn lemma_comma_join_cons(parts: Seq<Seq<char>>)
    requires
        parts.len() >= 1,
    ensures
        crate::json::comma_join(parts) == parts[0] + comma_tail(parts.skip(1)),
    decreases parts.len(),
{
    if parts.len() == 1 {
        assert(parts.skip(1) =~= Seq::<Seq<char>>::empty());
        assert(crate::json::comma_join(parts) =~= parts[0] + comma_tail(parts.skip(1)));
    } else {
        let dl = parts.drop_last();
        lemma_comma_join_cons(dl);
        lemma_comma_tail_push(dl.skip(1), parts.last());
        assert(dl.skip(1).push(parts.last()) =~= parts.skip(1));
        assert(dl[0] == parts[0]);
        assert(crate::json::comma_join(parts) =~= parts[0] + comma_tail(parts.skip(1)));
    }
}

/// Parsing a literal at its own rendering succeeds.
proof fn lemma_p_lit_at(s: Seq<char>, i: int, lit: Seq<char>)
    requires
        0 <= i,
        i + lit.len() <= s.len(),
        s.subrange(i, i + lit.len()) == lit,
    ensures
        p_lit(s, i, lit) == Some(i + lit.len()),
{
}

/// A run of non-quote characters followed by a quote ends exactly at the
/// quote.
proof fn lemma_quote_run_end(s: Seq<char>, i: int, j: int)
    requires
        0 <= i <= j < s.len(),
        forall|k: int| i <= k < j ==> #[trigger] s[k] != '"',
        s[j] == '"',
    ensures
        quote_run_end(s, i) == j,
    decreases j - i,
{
    if i < j {
        lemma_quote_run_end(s, i + 1, j);
    }
}

/// Parsing a string body at its own rendering yields the contents back,
/// provided the contents hold no quote and a quote follows.
proof fn lemma_p_string_inverts(s: Seq<char>, i: int, content: Seq<char>)
    requires
        0 <= i,
        i + content.len() < s.len(),
        s.subrange(i, i + content.len()) == content,
        forall|k: int| 0 <= k < content.len() ==> #[trigger] content[k] != '"',
        s[i + content.len()] == '"',
    ensures
        p_string(s, i) == Some((content, i + content.len())),
{
    assert forall|k: int| i <= k < i + content.len() implies #[trigger] s[k] != '"' by {
        assert(s.subrange(i, i + content.len())[k - i] == content[k - i]);
    }
    lemma_quote_run_end(s, i, i + content.len());
}

/// Parsing a boolean at its own rendering yields it back.
proof fn lemma_p_bool_inverts(s: Seq<char>, i: int, b: bool)
    requires
        0 <= i,
        i + crate::json::bool_json(b).len() <= s.len(),
        s.subrange(i, i + crate::json::bool_json(b).len()) == crate::json::bool_json(b),
    ensures
        p_bool(s, i) == Some((b, i + crate::json::bool_json(b).len())),
{
    reveal_strlit("true");
    reveal_strlit("false");
    if b {
        lemma_p_lit_at(s, i, "true"@);
    } else {
        lemma_p_lit_at(s, i, "false"@);
        assert(s[i] == 'f') by {
            assert(s.subrange(i, i + 5)[0] == "false"@[0]);
        }
        if i + 4 <= s.len() {
            assert(s.subrange(i, i + 4)[0] == s[i]);
            assert(s.subrange(i, i + 4) != "true"@);
        }
    }
}

/// The first character of a rendered decimal is a sign or digit; of a
/// rendered parameter, a sign, digit or `n`. Neither is a bracket or
/// comma.
proof fn lemma_param_json_first(p: ParamValue)
    ensures
        crate::json::param_json(p).len() >= 1,
        p is Null <==> crate::json::param_json(p)[0] == 'n',
        crate::json::param_json(p)[0] != ']',
        crate::json::param_json(p)[0] != ',',
    {
    reveal_strlit("null");
    reveal_strlit("-");
    match p {
        ParamValue::Null => {},
        ParamValue::Num(v) => {
            let d = crate::json::dec_json(v);
            let w = dec_digits(mag(v) / (DEC_SCALE as nat));
            lemma_dec_digits_are_digits(mag(v) / (DEC_SCALE as nat));
            if v < 0 {
                assert(d[0] == '-');
            } else {
                assert(d[0] == w[0]);
                assert(is_digit(d[0]));
            }
        },
    }
}

/// Parsing a parameter slot at its own rendering yields it back, provided
/// the next character is not a digit.
proof fn lemma_p_param_inverts(s: Seq<char>, i: int, p: ParamValue)
    requires
        0 <= i,
        i + crate::json::param_json(p).len() <= s.len(),
        s.subrange(i, i + crate::json::param_json(p).len()) == crate::json::param_json(p),
        i + crate::json::param_json(p).len() == s.len() || !is_digit(
            s[i + crate::json::param_json(p).len()],
        ),
    ensures
        p_param(s, i) == Some((p, i + crate::json::param_json(p).len())),
{
    let d = crate::json::param_json(p);
    lemma_param_json_first(p);
    assert(s[i] == d[0]) by {
        assert(s.subrange(i, i + d.len())[0] == d[0]);
    }
    match p {
        ParamValue::Null => {
            reveal_strlit("null");
            lemma_p_lit_at(s, i, "null"@);
        },
        ParamValue::Num(v) => {
            lemma_p_dec_inverts(s, i, v);
        },
    }
}

/// Parse one parameter slot at `i`: `null` or a fixed-point decimal.
pub open spec fn p_param(s: Seq<char>, i: int) -> Option<(ParamValue, int)> {
    if 0 <= i < s.len() && s[i] == 'n' {
        match p_lit(s, i, "null"@) {
            Some(j) => Some((ParamValue::Null, j)),
            None => None,
        }
    } else {
        match p_dec(s, i) {
            Some((v, j)) => Some((ParamValue::Num(v), j)),
            None => None,
        }
    }
}

/// Parse the rest of a parameter array after its first element: either
/// the closing bracket, or a comma and another element, repeatedly.
pub open spec fn p_params_tail(s: Seq<char>, i: int) -> Option<(Seq<ParamValue>, int)>
    decreases s.len() - i,
{
    if !(0 <= i < s.len()) {
        None
    } else if s[i] == ']' {
        Some((Seq::empty(), i + 1))
    } else if s[i] == ',' {
        match p_param(s, i + 1) {
            None => None,
            Some((v, j)) => if i < j <= s.len() {
                match p_params_tail(s, j) {
                    None => None,
                    Some((vs, k)) => Some((seq![v] + vs, k)),
                }
            } else {
                None
            },
        }
    } else {
        None
    }
}

/// Parse a whole parameter array at `i` (the opening bracket already
/// consumed), through its closing bracket.
pub open spec fn p_params_list(s: Seq<char>, i: int) -> Option<(Seq<ParamValue>, int)> {
    if !(0 <= i < s.len()) {
        None
    } else if s[i] == ']' {
        Some((Seq::empty(), i + 1))
    } else {
        match p_param(s, i) {
            None => None,
            Some((v, j)) => if i < j <= s.len() {
                match p_params_tail(s, j) {
                    None => None,
                    Some((vs, k)) => Some((seq![v] + vs, k)),
                }
            } else {
                None
            },
        }
    }
}

/// Parse one mission item at `i`.
pub open spec fn p_item(s: Seq<char>, i: int) -> Option<(ItemModel, int)> {
    match p_lit(s, i, "{\"type\":\"SimpleItem\",\"autoContinue\":"@) {
        None => None,
        Some(i1) => match p_bool(s, i1) {
            None => None,
            Some((auto_continue, i2)) => match p_lit(s, i2, ",\"command\":"@) {
                None => None,
                Some(i3) => match p_nat(s, i3) {
                    None => None,
                    Some((command, i4)) => if command > u16::MAX {
                        None
                    } else {
                        match p_lit(s, i4, ",\"doJumpId\":"@) {
                            None => None,
                            Some(i5) => match p_nat(s, i5) {
                                None => None,
                                Some((sequence_index, i6)) => if sequence_index > u16::MAX {
                                    None
                                } else {
                                    match p_lit(s, i6, ",\"frame\":"@) {
                                        None => None,
                                        Some(i7) => match p_nat(s, i7) {
                                            None => None,
                                            Some((frame, i8)) => if frame > u8::MAX {
                                                None
                                            } else {
                                                p_item_rest(
                                                    s,
                                                    i8,
                                                    auto_continue,
                                                    command as u16,
                                                    sequence_index as u16,
                                                    frame as u8,
                                                )
                                            },
                                        },
                                    }
                                },
                            },
                        }
                    },
                },
            },
        },
    }
}

/// Parse the params, altitude and trailing fields of a mission item.
pub open spec fn p_item_rest(
    s: Seq<char>,
    i: int,
    auto_continue: bool,
    command: u16,
    sequence_index: u16,
    frame: u8,
) -> Option<(ItemModel, int)> {
    match p_lit(s, i, ",\"params\":["@) {
        None => None,
        Some(i1) => match p_params_list(s, i1) {
            None => None,
            Some((params, i2)) => match p_lit(s, i2, ",\"Altitude\":"@) {
                None => None,
                Some(i3) => match p_dec(s, i3) {
                    None => None,
                    Some((altitude, i4)) => match p_lit(s, i4, ",\"AltitudeMode\":"@) {
                        None => None,
                        Some(i5) => match p_nat(s, i5) {
                            None => None,
                            Some((altitude_mode, i6)) => if altitude_mode > u8::MAX {
                                None
                            } else {
                                match p_lit(s, i6, ",\"AMSLAltAboveTerrain\":"@) {
                                    None => None,
                                    Some(i7) => match p_dec(s, i7) {
                                        None => None,
                                        Some((amsl, i8)) => match p_lit(s, i8, "}"@) {
                                            None => None,
                                            Some(i9) => Some(
                                                (
                                                    ItemModel {
                                                        sequence_index,
                                                        command,
                                                        frame,
                                                        altitude,
                                                        altitude_mode: altitude_mode as u8,
                                                        amsl_alt_above_terrain: amsl,
                                                        auto_continue,
                                                        params,
                                                    },
                                                    i9,
                                                ),
                                            ),
                                        },
                                    },
                                }
                            },
                        },
                    },
                },
            },
        },
    }
}

/// Parse the rest of a mission item array after its first element.
pub open spec fn p_items_tail(s: Seq<char>, i: int) -> Option<(Seq<ItemModel>, int)>
    decreases s.len() - i,
{
    if !(0 <= i < s.len()) {
        None
    } else if s[i] == ']' {
        Some((Seq::empty(), i + 1))
    } else if s[i] == ',' {
        match p_item(s, i + 1) {
            None => None,
            Some((v, j)) => if i < j <= s.len() {
                match p_items_tail(s, j) {
                    None => None,
                    Some((vs, k)) => Some((seq![v] + vs, k)),
                }
            } else {
                None
            },
        }
    } else {
        None
    }
}

/// Parse a whole mission item array at `i`, through its closing bracket.
pub open spec fn p_items_list(s: Seq<char>, i: int) -> Option<(Seq<ItemModel>, int)> {
    if !(0 <= i < s.len()) {
        None
    } else if s[i] == ']' {
        Some((Seq::empty(), i + 1))
    } else {
        match p_item(s, i) {
            None => None,
            Some((v, j)) => if i < j <= s.len() {
                match p_items_tail(s, j) {
                    None => None,
                    Some((vs, k)) => Some((seq![v] + vs, k)),
                }
            } else {
                None
            },
        }
    }
}

/// Parse a latitude/longitude pair at `i`.
pub open spec fn p_latlon(s: Seq<char>, i: int) -> Option<(LatLon, int)> {
    match p_lit(s, i, "["@) {
        None => None,
        Some(i1) => match p_dec(s, i1) {
            None => None,
            Some((latitude, i2)) => match p_lit(s, i2, ","@) {
                None => None,
                Some(i3) => match p_dec(s, i3) {
                    None => None,
                    Some((longitude, i4)) => match p_lit(s, i4, "]"@) {
                        None => None,
                        Some(i5) => Some((LatLon { latitude, longitude }, i5)),
                    },
                },
            },
        },
    }
}

/// Parse a latitude/longitude/altitude triple at `i`.
pub open spec fn p_latlonalt(s: Seq<char>, i: int) -> Option<(LatLonAlt, int)> {
    match p_lit(s, i, "["@) {
        None => None,
        Some(i1) => match p_dec(s, i1) {
            None => None,
            Some((latitude, i2)) => match p_lit(s, i2, ","@) {
                None => None,
                Some(i3) => match p_dec(s, i3) {
                    None => None,
                    Some((longitude, i4)) => match p_lit(s, i4, ","@) {
                        None => None,
                        Some(i5) => match p_dec(s, i5) {
                            None => None,
                            Some((altitude, i6)) => match p_lit(s, i6, "]"@) {
                                None => None,
                                Some(i7) => Some((LatLonAlt { latitude, longitude, altitude }, i7)),
                            },
                        },
                    },
                },
            },
        },
    }
}

/// Parse one circular geofence region at `i`.
pub open spec fn p_circle(s: Seq<char>, i: int) -> Option<(GeoFenceCircle, int)> {
    match p_lit(s, i, "{\"circle\":{\"center\":["@) {
        None => None,
        Some(i1) => match p_dec(s, i1) {
            None => None,
            Some((latitude, i2)) => match p_lit(s, i2, ","@) {
                None => None,
                Some(i3) => match p_dec(s, i3) {
                    None => None,
                    Some((longitude, i4)) => match p_lit(s, i4, "],\"radius\":"@) {
                        None => None,
                        Some(i5) => match p_dec(s, i5) {
                            None => None,
                            Some((radius, i6)) => match p_lit(s, i6, "},\"inclusion\":"@) {
                                None => None,
                                Some(i7) => match p_bool(s, i7) {
                                    None => None,
                                    Some((inclusion, i8)) => match p_lit(s, i8, ",\"version\":"@) {
                                        None => None,
                                        Some(i9) => match p_nat(s, i9) {
                                            None => None,
                                            Some((version, i10)) => if version > u8::MAX {
                                                None
                                            } else {
                                                match p_lit(s, i10, "}"@) {
                                                    None => None,
                                                    Some(i11) => Some(
                                                        (
                                                            GeoFenceCircle {
                                                                circle: Circle {
                                                                    center: LatLon { latitude, longitude },
                                                                    radius,
                                                                },
                                                                inclusion,
                                                                version: version as u8,
                                                            },
                                                            i11,
                                                        ),
                                                    ),
                                                }
                                            },
                                        },
                                    },
                                },
                            },
                        },
                    },
                },
            },
        },
    }
}

/// Parse the rest of a circle array after its first element.
pub open spec fn p_circles_tail(s: Seq<char>, i: int) -> Option<(Seq<GeoFenceCircle>, int)>
    decreases s.len() - i,
{
    if !(0 <= i < s.len()) {
        None
    } else if s[i] == ']' {
        Some((Seq::empty(), i + 1))
    } else if s[i] == ',' {
        match p_circle(s, i + 1) {
            None => None,
            Some((v, j)) => if i < j <= s.len() {
                match p_circles_tail(s, j) {
                    None => None,
                    Some((vs, k)) => Some((seq![v] + vs, k)),
                }
            } else {
                None
            },
        }
    } else {
        None
    }
}

/// Parse a whole circle array at `i`, through its closing bracket.
pub open spec fn p_circles_list(s: Seq<char>, i: int) -> Option<(Seq<GeoFenceCircle>, int)> {
    if !(0 <= i < s.len()) {
        None
    } else if s[i] == ']' {
        Some((Seq::empty(), i + 1))
    } else {
        match p_circle(s, i) {
            None => None,
            Some((v, j)) => if i < j <= s.len() {
                match p_circles_tail(s, j) {
                    None => None,
                    Some((vs, k)) => Some((seq![v] + vs, k)),
                }
            } else {
                None
            },
        }
    }
}

/// Parse the rest of a vertex array after its first element.
pub open spec fn p_vertices_tail(s: Seq<char>, i: int) -> Option<(Seq<LatLon>, int)>
    decreases s.len() - i,
{
    if !(0 <= i < s.len()) {
        None
    } else if s[i] == ']' {
        Some((Seq::empty(), i + 1))
    } else if s[i] == ',' {
        match p_latlon(s, i + 1) {
            None => None,
            Some((v, j)) => if i < j <= s.len() {
                match p_vertices_tail(s, j) {
                    None => None,
                    Some((vs, k)) => Some((seq![v] + vs, k)),
                }
            } else {
                None
            },
        }
    } else {
        None
    }
}

/// Parse a whole vertex array at `i`, through its closing bracket.
pub open spec fn p_vertices_list(s: Seq<char>, i: int) -> Option<(Seq<LatLon>, int)> {
    if !(0 <= i < s.len()) {
        None
    } else if s[i] == ']' {
        Some((Seq::empty(), i + 1))
    } else {
        match p_latlon(s, i) {
            None => None,
            Some((v, j)) => if i < j <= s.len() {
                match p_vertices_tail(s, j) {
                    None => None,
                    Some((vs, k)) => Some((seq![v] + vs, k)),
                }
            } else {
                None
            },
        }
    }
}

/// Parse one polygonal geofence region at `i`.
pub open spec fn p_polygon(s: Seq<char>, i: int) -> Option<(GeoFencePolygonModel, int)> {
    match p_lit(s, i, "{\"polygon\":["@) {
        None => None,
        Some(i1) => match p_vertices_list(s, i1) {
            None => None,
            Some((polygon, i2)) => match p_lit(s, i2, ",\"inclusion\":"@) {
                None => None,
                Some(i3) => match p_bool(s, i3) {
                    None => None,
                    Some((inclusion, i4)) => match p_lit(s, i4, ",\"version\":"@) {
                        None => None,
                        Some(i5) => match p_nat(s, i5) {
                            None => None,
                            Some((version, i6)) => if version > u8::MAX {
                                None
                            } else {
                                match p_lit(s, i6, "}"@) {
                                    None => None,
                                    Some(i7) => Some(
                                        (
                                            GeoFencePolygonModel {
                                                polygon,
                                                inclusion,
                                                version: version as u8,
                                            },
                                            i7,
                                        ),
                                    ),
                                }
                            },
                        },
                    },
                },
            },
        },
    }
}

/// Parse the rest of a polygon array after its first element.
pub open spec fn p_polygons_tail(s: Seq<char>, i: int) -> Option<(Seq<GeoFencePolygonModel>, int)>
    decreases s.len() - i,
{
    if !(0 <= i < s.len()) {
        None
    } else if s[i] == ']' {
        Some((Seq::empty(), i + 1))
    } else if s[i] == ',' {
        match p_polygon(s, i + 1) {
            None => None,
            Some((v, j)) => if i < j <= s.len() {
                match p_polygons_tail(s, j) {
                    None => None,
                    Some((vs, k)) => Some((seq![v] + vs, k)),
                }
            } else {
                None
            },
        }
    } else {
        None
    }
}

/// Parse a whole polygon array at `i`, through its closing bracket.
pub open spec fn p_polygons_list(s: Seq<char>, i: int) -> Option<
    (Seq<GeoFencePolygonModel>, int),
> {
    if !(0 <= i < s.len()) {
        None
    } else if s[i] == ']' {
        Some((Seq::empty(), i + 1))
    } else {
        match p_polygon(s, i) {
            None => None,
            Some((v, j)) => if i < j <= s.len() {
                match p_polygons_tail(s, j) {
                    None => None,
                    Some((vs, k)) => Some((seq![v] + vs, k)),
                }
            } else {
                None
            },
        }
    }
}

/// Parse the rest of a rally-point array after its first element.
pub open spec fn p_points_tail(s: Seq<char>, i: int) -> Option<(Seq<LatLonAlt>, int)>
    decreases s.len() - i,
{
    if !(0 <= i < s.len()) {
        None
    } else if s[i] == ']' {
        Some((Seq::empty(), i + 1))
    } else if s[i] == ',' {
        match p_latlonalt(s, i + 1) {
            None => None,
            Some((v, j)) => if i < j <= s.len() {
                match p_points_tail(s, j) {
                    None => None,
                    Some((vs, k)) => Some((seq![v] + vs, k)),
                }
            } else {
                None
            },
        }
    } else {
        None
    }
}

/// Parse a whole rally-point array at `i`, through its closing bracket.
pub open spec fn p_points_list(s: Seq<char>, i: int) -> Option<(Seq<LatLonAlt>, int)> {
    if !(0 <= i < s.len()) {
        None
    } else if s[i] == ']' {
        Some((Seq::empty(), i + 1))
    } else {
        match p_latlonalt(s, i) {
            None => None,
            Some((v, j)) => if i < j <= s.len() {
                match p_points_tail(s, j) {
                    None => None,
                    Some((vs, k)) => Some((seq![v] + vs, k)),
                }
            } else {
                None
            },
        }
    }
}

/// Parse the geofence block at `i`.
pub open spec fn p_geofence(s: Seq<char>, i: int) -> Option<(GeoFenceModel, int)> {
    match p_lit(s, i, "{\"circles\":["@) {
        None => None,
        Some(i1) => match p_circles_list(s, i1) {
            None => None,
            Some((circles, i2)) => match p_lit(s, i2, ",\"polygons\":["@) {
                None => None,
                Some(i3) => match p_polygons_list(s, i3) {
                    None => None,
                    Some((polygons, i4)) => match p_lit(s, i4, ",\"version\":"@) {
                        None => None,
                        Some(i5) => match p_nat(s, i5) {
                            None => None,
                            Some((version, i6)) => if version > u8::MAX {
                                None
                            } else {
                                match p_lit(s, i6, "}"@) {
                                    None => None,
                                    Some(i7) => Some(
                                        (
                                            GeoFenceModel {
                                                circles,
                                                polygons,
                                                version: version as u8,
                                            },
                                            i7,
                                        ),
                                    ),
                                }
                            },
                        },
                    },
                },
            },
        },
    }
}

/// Parse the rally-points block at `i`.
pub open spec fn p_rally(s: Seq<char>, i: int) -> Option<(RallyPointsModel, int)> {
    match p_lit(s, i, "{\"points\":["@) {
        None => None,
        Some(i1) => match p_points_list(s, i1) {
            None => None,
            Some((points, i2)) => match p_lit(s, i2, ",\"version\":"@) {
                None => None,
                Some(i3) => match p_nat(s, i3) {
                    None => None,
                    Some((version, i4)) => if version > u8::MAX {
                        None
                    } else {
                        match p_lit(s, i4, "}"@) {
                            None => None,
                            Some(i5) => Some(
                                (RallyPointsModel { points, version: version as u8 }, i5),
                            ),
                        }
                    },
                },
            },
        },
    }
}

/// Parse the mission block at `i`.
pub open spec fn p_mission(s: Seq<char>, i: int) -> Option<(MissionModel, int)> {
    match p_lit(s, i, "{\"cruiseSpeed\":"@) {
        None => None,
        Some(i1) => match p_nat(s, i1) {
            None => None,
            Some((cruise_speed, i2)) => if cruise_speed > u32::MAX {
                None
            } else {
                match p_lit(s, i2, ",\"firmwareType\":"@) {
                    None => None,
                    Some(i3) => match p_nat(s, i3) {
                        None => None,
                        Some((firmware_type, i4)) => if firmware_type > u8::MAX {
                            None
                        } else {
                            match p_lit(s, i4, ",\"globalPlanAltitudeMode\":"@) {
                                None => None,
                                Some(i5) => match p_nat(s, i5) {
                                    None => None,
                                    Some((altitude_mode, i6)) => if altitude_mode > u8::MAX {
                                        None
                                    } else {
                                        p_mission_rest(
                                            s,
                                            i6,
                                            cruise_speed as u32,
                                            firmware_type as u8,
                                            altitude_mode as u8,
                                        )
                                    },
                                },
                            }
                        },
                    },
                }
            },
        },
    }
}

/// Parse the hover speed, items, home position and trailing fields of the
/// mission block.
pub open spec fn p_mission_rest(
    s: Seq<char>,
    i: int,
    cruise_speed: u32,
    firmware_type: u8,
    global_plan_altitude_mode: u8,
) -> Option<(MissionModel, int)> {
    match p_lit(s, i, ",\"hoverSpeed\":"@) {
        None => None,
        Some(i1) => match p_nat(s, i1) {
            None => None,
            Some((hover_speed, i2)) => if hover_speed > u32::MAX {
                None
            } else {
                match p_lit(s, i2, ",\"items\":["@) {
                    None => None,
                    Some(i3) => match p_items_list(s, i3) {
                        None => None,
                        Some((items, i4)) => match p_lit(s, i4, ",\"plannedHomePosition\":"@) {
                            None => None,
                            Some(i5) => match p_latlonalt(s, i5) {
                                None => None,
                                Some((home, i6)) => match p_lit(s, i6, ",\"vehicleType\":"@) {
                                    None => None,
                                    Some(i7) => match p_nat(s, i7) {
                                        None => None,
                                        Some((vehicle_type, i8)) => if vehicle_type > u8::MAX {
                                            None
                                        } else {
                                            match p_lit(s, i8, ",\"version\":"@) {
                                                None => None,
                                                Some(i9) => match p_nat(s, i9) {
                                                    None => None,
                                                    Some((version, i10)) => if version > u8::MAX {
                                                        None
                                                    } else {
                                                        match p_lit(s, i10, "}"@) {
                                                            None => None,
                                                            Some(i11) => Some(
                                                                (
                                                                    MissionModel {
                                                                        cruise_speed,
                                                                        firmware_type,
                                                                        global_plan_altitude_mode,
                                                                        hover_speed: hover_speed as u32,
                                                                        items,
                                                                        planned_home_position: home,
                                                                        vehicle_type: vehicle_type as u8,
                                                                        version: version as u8,
                                                                    },
                                                                    i11,
                                                                ),
                                                            ),
                                                        }
                                                    },
                                                },
                                            }
                                        },
                                    },
                                },
                            },
                        },
                    },
                }
            },
        },
    }
}

/// Parse a whole mission-plan document: every field in canonical order,
/// consuming the entire input.
pub open spec fn p_plan(s: Seq<char>) -> Option<PlanModel> {
    match p_lit(s, 0, "{\"fileType\":\""@) {
        None => None,
        Some(i1) => match p_string(s, i1) {
            None => None,
            Some((file_type, i2)) => match p_lit(s, i2, "\",\"geoFence\":"@) {
                None => None,
                Some(i3) => match p_geofence(s, i3) {
                    None => None,
                    Some((geo_fence, i4)) => match p_lit(s, i4, ",\"groundStation\":\""@) {
                        None => None,
                        Some(i5) => match p_string(s, i5) {
                            None => None,
                            Some((ground_station, i6)) => match p_lit(s, i6, "\",\"mission\":"@) {
                                None => None,
                                Some(i7) => match p_mission(s, i7) {
                                    None => None,
                                    Some((mission, i8)) => match p_lit(s, i8, ",\"rallyPoints\":"@) {
                                        None => None,
                                        Some(i9) => match p_rally(s, i9) {
                                            None => None,
                                            Some((rally_points, i10)) => p_plan_rest(
                                                s,
                                                i10,
                                                file_type,
                                                geo_fence,
                                                ground_station,
                                                mission,
                                                rally_points,
                                            ),
                                        },
                                    },
                                },
                            },
                        },
                    },
                },
            },
        },
    }
}

/// Parse the document version and closing brace, requiring the whole
/// input to be consumed.
pub open spec fn p_plan_rest(
    s: Seq<char>,
    i: int,
    file_type: Seq<char>,
    geo_fence: GeoFenceModel,
    ground_station: Seq<char>,
    mission: MissionModel,
    rally_points: RallyPointsModel,
) -> Option<PlanModel> {
    match p_lit(s, i, ",\"version\":"@) {
        None => None,
        Some(i1) => match p_nat(s, i1) {
            None => None,
            Some((version, i2)) => if version > u8::MAX {
                None
            } else {
                match p_lit(s, i2, "}"@) {
                    None => None,
                    Some(i3) => if i3 == s.len() {
                        Some(
                            PlanModel {
                                file_type,
                                geo_fence,
                                ground_station,
                                mission,
                                rally_points,
                                version: version as u8,
                            },
                        )
                    } else {
                        None
                    },
                }
            },
        },
    }
}


/// A subrange equal to a concatenation splits into two adjacent subranges.
proof fn lemma_split(s: Seq<char>, a: int, x: Seq<char>, y: Seq<char>)
    requires
        0 <= a,
        a + x.len() + y.len() <= s.len(),
        s.subrange(a, a + x.len() + y.len()) == x + y,
    ensures
        s.subrange(a, a + x.len()) == x,
        s.subrange(a + x.len(), a + x.len() + y.len()) == y,
{
    assert forall|t: int| 0 <= t < x.len() implies s.subrange(a, a + x.len())[t] == x[t] by {
        assert(s.subrange(a, a + x.len() + y.len())[t] == (x + y)[t]);
    }
    assert(s.subrange(a, a + x.len()) =~= x);
    assert forall|t: int| 0 <= t < y.len() implies s.subrange(
        a + x.len(),
        a + x.len() + y.len(),
    )[t] == y[t] by {
        assert(s.subrange(a, a + x.len() + y.len())[x.len() + t] == (x + y)[x.len() + t]);
        assert((x + y)[x.len() + t] == y[t]);
        assert(s.subrange(a, a + x.len() + y.len())[x.len() + t] == s[a + x.len() + t]);
        assert(s.subrange(a + x.len(), a + x.len() + y.len())[t] == s[a + x.len() + t]);
    }
    assert(s.subrange(a + x.len(), a + x.len() + y.len()) =~= y);
}

/// Two adjacent subranges merge into one subrange equal to their
/// concatenation.
proof fn lemma_join(s: Seq<char>, a: int, x: Seq<char>, y: Seq<char>)
    requires
        0 <= a,
        a + x.len() + y.len() <= s.len(),
        s.subrange(a, a + x.len()) == x,
        s.subrange(a + x.len(), a + x.len() + y.len()) == y,
    ensures
        s.subrange(a, a + x.len() + y.len()) == x + y,
{
    assert forall|t: int| 0 <= t < x.len() + y.len() implies s.subrange(
        a,
        a + x.len() + y.len(),
    )[t] == (x + y)[t] by {
        if t < x.len() {
            assert(s.subrange(a, a + x.len())[t] == x[t]);
        } else {
            assert(s.subrange(a + x.len(), a + x.len() + y.len())[t - x.len()] == y[t - x.len()]);
        }
    }
    assert(s.subrange(a, a + x.len() + y.len()) =~= x + y);
}

/// A value no larger than `u32::MAX` renders to at most seventeen digits.
proof fn lemma_small_nat_digits(n: nat)
    requires
        n <= u32::MAX,
    ensures
        dec_digits(n).len() <= 17,
{
    assert(n < pow10(10)) by {
        reveal_with_fuel(pow10, 11);
    }
    lemma_dec_digits_len(n, 10);
}

/// A rendered pair or triple starts with an opening bracket.
proof fn lemma_latlon_json_first(v: LatLon)
    ensures
        crate::json::latlon_json(v).len() >= 1,
        crate::json::latlon_json(v)[0] == '[',
        crate::json::latlon_json(v)[0] != ']',
        crate::json::latlon_json(v)[0] != ',',
{
    reveal_strlit("[");
}

/// A rendered triple starts with an opening bracket.
proof fn lemma_latlonalt_json_first(v: LatLonAlt)
    ensures
        crate::json::latlonalt_json(v).len() >= 1,
        crate::json::latlonalt_json(v)[0] == '[',
        crate::json::latlonalt_json(v)[0] != ']',
        crate::json::latlonalt_json(v)[0] != ',',
{
    reveal_strlit("[");
}

/// A rendered circle entry starts with an opening brace.
proof fn lemma_circle_json_first(c: GeoFenceCircle)
    ensures
        crate::json::circle_json(c).len() >= 1,
        crate::json::circle_json(c)[0] == '{',
        crate::json::circle_json(c)[0] != ']',
        crate::json::circle_json(c)[0] != ',',
{
    reveal(crate::json::circle_json);
    reveal_strlit("{\"circle\":{\"center\":[");
}

/// A rendered polygon entry starts with an opening brace.
proof fn lemma_polygon_json_first(p: GeoFencePolygonModel)
    ensures
        crate::json::polygon_json(p).len() >= 1,
        crate::json::polygon_json(p)[0] == '{',
        crate::json::polygon_json(p)[0] != ']',
        crate::json::polygon_json(p)[0] != ',',
{
    reveal(crate::json::polygon_json);
    reveal_strlit("{\"polygon\":[");
}

/// A rendered mission item starts with an opening brace.
proof fn lemma_item_json_first(it: ItemModel)
    ensures
        crate::json::item_json(it).len() >= 1,
        crate::json::item_json(it)[0] == '{',
        crate::json::item_json(it)[0] != ']',
        crate::json::item_json(it)[0] != ',',
{
    reveal(crate::json::item_json);
    reveal_strlit("{\"type\":\"SimpleItem\",\"autoContinue\":");
}

/// Parameter first-character facts, under the name the list template
/// expects.
proof fn lemma_param_json_first_of(p: ParamValue)
    ensures
        crate::json::param_json(p).len() >= 1,
        crate::json::param_json(p)[0] != ']',
        crate::json::param_json(p)[0] != ',',
{
    lemma_param_json_first(p);
}

/// The rendered pieces of a list of this element type.
pub open spec fn param_parts(vals: Seq<ParamValue>) -> Seq<Seq<char>> {
    Seq::new(vals.len(), |q: int| crate::json::param_json(vals[q]))
}

/// Parsing a rendered list tail (comma-separated pieces and the closing
/// bracket) yields the elements back.
proof fn lemma_p_params_tail_inverts(s: Seq<char>, i: int, rest: Seq<ParamValue>)
    requires
        0 <= i,
        i + comma_tail(param_parts(rest)).len() + 1 <= s.len(),
        s.subrange(i, i + comma_tail(param_parts(rest)).len() + 1) == comma_tail(
            param_parts(rest),
        ) + "]"@,
    ensures
        p_params_tail(s, i) == Some((rest, i + comma_tail(param_parts(rest)).len() + 1)),
    decreases rest.len(),
{
    reveal_strlit(",");
    reveal_strlit("]");
    let parts = param_parts(rest);
    let t = comma_tail(parts);
    if rest.len() == 0 {
        assert(t =~= Seq::<char>::empty());
        assert(s[i] == ']') by {
            assert(s.subrange(i, i + t.len() + 1)[0] == (t + "]"@)[0]);
        }
        assert(rest =~= Seq::<ParamValue>::empty());
    } else {
        let el = parts[0];
        let rest1 = comma_tail(parts.skip(1));
        assert(t == ","@ + el + rest1);
        lemma_split(s, i, ","@ + el + rest1, "]"@);
        lemma_split(s, i, ","@ + el, rest1);
        lemma_split(s, i, ","@, el);
        assert(s[i] == ',') by {
            assert(s.subrange(i, i + 1)[0] == ","@[0]);
        }
        assert(!is_digit(s[i + 1 + el.len()])) by {
            if rest.len() > 1 {
                assert(rest1 == ","@ + parts.skip(1)[0] + comma_tail(parts.skip(1).skip(1)));
                assert(s.subrange(i + 1 + el.len(), i + 1 + el.len() + rest1.len())[0]
                    == rest1[0]);
                assert(s[i + 1 + el.len()] == ',');
            } else {
                assert(parts.skip(1).len() == 0);
                assert(rest1 =~= Seq::<char>::empty());
                assert(s.subrange(i + 1 + el.len(), i + 1 + el.len() + 1)[0] == "]"@[0]);
                assert(s[i + 1 + el.len()] == ']');
            }
        }
        lemma_param_json_first_of(rest[0]);
        lemma_p_param_inverts(s, i + 1, rest[0]);
        let j = i + 1 + el.len();
        assert(parts.skip(1) =~= param_parts(rest.skip(1)));
        lemma_join(s, j, rest1, "]"@);
        lemma_p_params_tail_inverts(s, j, rest.skip(1));
        assert(seq![rest[0]] + rest.skip(1) =~= rest);
    }
}

/// Parsing a rendered list (pieces and the closing bracket) yields the
/// elements back.
proof fn lemma_p_params_list_inverts(s: Seq<char>, i: int, vals: Seq<ParamValue>)
    requires
        0 <= i,
        i + crate::json::comma_join(param_parts(vals)).len() + 1 <= s.len(),
        s.subrange(i, i + crate::json::comma_join(param_parts(vals)).len() + 1)
            == crate::json::comma_join(param_parts(vals)) + "]"@,
    ensures
        p_params_list(s, i) == Some(
            (vals, i + crate::json::comma_join(param_parts(vals)).len() + 1),
        ),
{
    reveal_strlit(",");
    reveal_strlit("]");
    let parts = param_parts(vals);
    let cj = crate::json::comma_join(parts);
    if vals.len() == 0 {
        assert(cj =~= Seq::<char>::empty());
        assert(s[i] == ']') by {
            assert(s.subrange(i, i + cj.len() + 1)[0] == (cj + "]"@)[0]);
        }
        assert(vals =~= Seq::<ParamValue>::empty());
    } else {
        lemma_comma_join_cons(parts);
        let el = parts[0];
        let rest1 = comma_tail(parts.skip(1));
        assert(cj == el + rest1);
        lemma_split(s, i, cj, "]"@);
        lemma_split(s, i, el, rest1);
        lemma_param_json_first_of(vals[0]);
        assert(s[i] == el[0]) by {
            assert(s.subrange(i, i + el.len())[0] == el[0]);
        }
        assert(!is_digit(s[i + el.len()])) by {
            if vals.len() > 1 {
                assert(rest1 == ","@ + parts.skip(1)[0] + comma_tail(parts.skip(1).skip(1)));
                assert(s.subrange(i + el.len(), i + el.len() + rest1.len())[0] == rest1[0]);
                assert(s[i + el.len()] == ',');
            } else {
                assert(parts.skip(1).len() == 0);
                assert(rest1 =~= Seq::<char>::empty());
                assert(s.subrange(i + el.len(), i + el.len() + 1)[0] == "]"@[0]);
                assert(s[i + el.len()] == ']');
            }
        }
        lemma_p_param_inverts(s, i, vals[0]);
        let j = i + el.len();
        assert(parts.skip(1) =~= param_parts(vals.skip(1)));
        lemma_join(s, j, rest1, "]"@);
        lemma_p_params_tail_inverts(s, j, vals.skip(1));
        assert(seq![vals[0]] + vals.skip(1) =~= vals);
    }
}

/// The rendered pieces of a list of this element type.
pub open spec fn vertex_parts(vals: Seq<LatLon>) -> Seq<Seq<char>> {
    Seq::new(vals.len(), |q: int| crate::json::latlon_json(vals[q]))
}

/// Parsing a rendered list tail (comma-separated pieces and the closing
/// bracket) yields the elements back.
proof fn lemma_p_vertices_tail_inverts(s: Seq<char>, i: int, rest: Seq<LatLon>)
    requires
        0 <= i,
        i + comma_tail(vertex_parts(rest)).len() + 1 <= s.len(),
        s.subrange(i, i + comma_tail(vertex_parts(rest)).len() + 1) == comma_tail(
            vertex_parts(rest),
        ) + "]"@,
    ensures
        p_vertices_tail(s, i) == Some((rest, i + comma_tail(vertex_parts(rest)).len() + 1)),
    decreases rest.len(),
{
    reveal_strlit(",");
    reveal_strlit("]");
    let parts = vertex_parts(rest);
    let t = comma_tail(parts);
    if rest.len() == 0 {
        assert(t =~= Seq::<char>::empty());
        assert(s[i] == ']') by {
            assert(s.subrange(i, i + t.len() + 1)[0] == (t + "]"@)[0]);
        }
        assert(rest =~= Seq::<LatLon>::empty());
    } else {
        let el = parts[0];
        let rest1 = comma_tail(parts.skip(1));
        assert(t == ","@ + el + rest1);
        lemma_split(s, i, ","@ + el + rest1, "]"@);
        lemma_split(s, i, ","@ + el, rest1);
        lemma_split(s, i, ","@, el);
        assert(s[i] == ',') by {
            assert(s.subrange(i, i + 1)[0] == ","@[0]);
        }
        lemma_latlon_json_first(rest[0]);
        lemma_p_latlon_inverts(s, i + 1, rest[0]);
        let j = i + 1 + el.len();
        assert(parts.skip(1) =~= vertex_parts(rest.skip(1)));
        lemma_join(s, j, rest1, "]"@);
        lemma_p_vertices_tail_inverts(s, j, rest.skip(1));
        assert(seq![rest[0]] + rest.skip(1) =~= rest);
    }
}

/// Parsing a rendered list (pieces and the closing bracket) yields the
/// elements back.
proof fn lemma_p_vertices_list_inverts(s: Seq<char>, i: int, vals: Seq<LatLon>)
    requires
        0 <= i,
        i + crate::json::comma_join(vertex_parts(vals)).len() + 1 <= s.len(),
        s.subrange(i, i + crate::json::comma_join(vertex_parts(vals)).len() + 1)
            == crate::json::comma_join(vertex_parts(vals)) + "]"@,
    ensures
        p_vertices_list(s, i) == Some(
            (vals, i + crate::json::comma_join(vertex_parts(vals)).len() + 1),
        ),
{
    reveal_strlit(",");
    reveal_strlit("]");
    let parts = vertex_parts(vals);
    let cj = crate::json::comma_join(parts);
    if vals.len() == 0 {
        assert(cj =~= Seq::<char>::empty());
        assert(s[i] == ']') by {
            assert(s.subrange(i, i + cj.len() + 1)[0] == (cj + "]"@)[0]);
        }
        assert(vals =~= Seq::<LatLon>::empty());
    } else {
        lemma_comma_join_cons(parts);
        let el = parts[0];
        let rest1 = comma_tail(parts.skip(1));
        assert(cj == el + rest1);
        lemma_split(s, i, cj, "]"@);
        lemma_split(s, i, el, rest1);
        lemma_latlon_json_first(vals[0]);
        assert(s[i] == el[0]) by {
            assert(s.subrange(i, i + el.len())[0] == el[0]);
        }
        lemma_p_latlon_inverts(s, i, vals[0]);
        let j = i + el.len();
        assert(parts.skip(1) =~= vertex_parts(vals.skip(1)));
        lemma_join(s, j, rest1, "]"@);
        lemma_p_vertices_tail_inverts(s, j, vals.skip(1));
        assert(seq![vals[0]] + vals.skip(1) =~= vals);
    }
}

/// The rendered pieces of a list of this element type.
pub open spec fn point_parts(vals: Seq<LatLonAlt>) -> Seq<Seq<char>> {
    Seq::new(vals.len(), |q: int| crate::json::latlonalt_json(vals[q]))
}

/// Parsing a rendered list tail (comma-separated pieces and the closing
/// bracket) yields the elements back.
proof fn lemma_p_points_tail_inverts(s: Seq<char>, i: int, rest: Seq<LatLonAlt>)
    requires
        0 <= i,
        i + comma_tail(point_parts(rest)).len() + 1 <= s.len(),
        s.subrange(i, i + comma_tail(point_parts(rest)).len() + 1) == comma_tail(
            point_parts(rest),
        ) + "]"@,
    ensures
        p_points_tail(s, i) == Some((rest, i + comma_tail(point_parts(rest)).len() + 1)),
    decreases rest.len(),
{
    reveal_strlit(",");
    reveal_strlit("]");
    let parts = point_parts(rest);
    let t = comma_tail(parts);
    if rest.len() == 0 {
        assert(t =~= Seq::<char>::empty());
        assert(s[i] == ']') by {
            assert(s.subrange(i, i + t.len() + 1)[0] == (t + "]"@)[0]);
        }
        assert(rest =~= Seq::<LatLonAlt>::empty());
    } else {
        let el = parts[0];
        let rest1 = comma_tail(parts.skip(1));
        assert(t == ","@ + el + rest1);
        lemma_split(s, i, ","@ + el + rest1, "]"@);
        lemma_split(s, i, ","@ + el, rest1);
        lemma_split(s, i, ","@, el);
        assert(s[i] == ',') by {
            assert(s.subrange(i, i + 1)[0] == ","@[0]);
        }
        lemma_latlonalt_json_first(rest[0]);
        lemma_p_latlonalt_inverts(s, i + 1, rest[0]);
        let j = i + 1 + el.len();
        assert(parts.skip(1) =~= point_parts(rest.skip(1)));
        lemma_join(s, j, rest1, "]"@);
        lemma_p_points_tail_inverts(s, j, rest.skip(1));
        assert(seq![rest[0]] + rest.skip(1) =~= rest);
    }
}

/// Parsing a rendered list (pieces and the closing bracket) yields the
/// elements back.
proof fn lemma_p_points_list_inverts(s: Seq<char>, i: int, vals: Seq<LatLonAlt>)
    requires
        0 <= i,
        i + crate::json::comma_join(point_parts(vals)).len() + 1 <= s.len(),
        s.subrange(i, i + crate::json::comma_join(point_parts(vals)).len() + 1)
            == crate::json::comma_join(point_parts(vals)) + "]"@,
    ensures
        p_points_list(s, i) == Some(
            (vals, i + crate::json::comma_join(point_parts(vals)).len() + 1),
        ),
{
    reveal_strlit(",");
    reveal_strlit("]");
    let parts = point_parts(vals);
    let cj = crate::json::comma_join(parts);
    if vals.len() == 0 {
        assert(cj =~= Seq::<char>::empty());
        assert(s[i] == ']') by {
            assert(s.subrange(i, i + cj.len() + 1)[0] == (cj + "]"@)[0]);
        }
        assert(vals =~= Seq::<LatLonAlt>::empty());
    } else {
        lemma_comma_join_cons(parts);
        let el = parts[0];
        let rest1 = comma_tail(parts.skip(1));
        assert(cj == el + rest1);
        lemma_split(s, i, cj, "]"@);
        lemma_split(s, i, el, rest1);
        lemma_latlonalt_json_first(vals[0]);
        assert(s[i] == el[0]) by {
            assert(s.subrange(i, i + el.len())[0] == el[0]);
        }
        lemma_p_latlonalt_inverts(s, i, vals[0]);
        let j = i + el.len();
        assert(parts.skip(1) =~= point_parts(vals.skip(1)));
        lemma_join(s, j, rest1, "]"@);
        lemma_p_points_tail_inverts(s, j, vals.skip(1));
        assert(seq![vals[0]] + vals.skip(1) =~= vals);
    }
}

/// The rendered pieces of a list of this element type.
pub open spec fn circle_parts(vals: Seq<GeoFenceCircle>) -> Seq<Seq<char>> {
    Seq::new(vals.len(), |q: int| crate::json::circle_json(vals[q]))
}

/// Parsing a rendered list tail (comma-separated pieces and the closing
/// bracket) yields the elements back.
#[verifier::rlimit(100)]
proof fn lemma_p_circles_tail_inverts(s: Seq<char>, i: int, rest: Seq<GeoFenceCircle>)
    requires
        0 <= i,
        i + comma_tail(circle_parts(rest)).len() + 1 <= s.len(),
        s.subrange(i, i + comma_tail(circle_parts(rest)).len() + 1) == comma_tail(
            circle_parts(rest),
        ) + "]"@,
    ensures
        p_circles_tail(s, i) == Some((rest, i + comma_tail(circle_parts(rest)).len() + 1)),
    decreases rest.len(),
{
    reveal_strlit(",");
    reveal_strlit("]");
    let parts = circle_parts(rest);
    let t = comma_tail(parts);
    if rest.len() == 0 {
        assert(t =~= Seq::<char>::empty());
        assert(s[i] == ']') by {
            assert(s.subrange(i, i + t.len() + 1)[0] == (t + "]"@)[0]);
        }
        assert(rest =~= Seq::<GeoFenceCircle>::empty());
    } else {
        let el = parts[0];
        let rest1 = comma_tail(parts.skip(1));
        assert(t == ","@ + el + rest1);
        lemma_split(s, i, ","@ + el + rest1, "]"@);
        lemma_split(s, i, ","@ + el, rest1);
        lemma_split(s, i, ","@, el);
        assert(s[i] == ',') by {
            assert(s.subrange(i, i + 1)[0] == ","@[0]);
        }
        lemma_circle_json_first(rest[0]);
        lemma_p_circle_inverts(s, i + 1, rest[0]);
        let j = i + 1 + el.len();
        assert(parts.skip(1) =~= circle_parts(rest.skip(1)));
        lemma_join(s, j, rest1, "]"@);
        lemma_p_circles_tail_inverts(s, j, rest.skip(1));
        assert(seq![rest[0]] + rest.skip(1) =~= rest);
    }
}

/// Parsing a rendered list (pieces and the closing bracket) yields the
/// elements back.
#[verifier::rlimit(100)]
proof fn lemma_p_circles_list_inverts(s: Seq<char>, i: int, vals: Seq<GeoFenceCircle>)
    requires
        0 <= i,
        i + crate::json::comma_join(circle_parts(vals)).len() + 1 <= s.len(),
        s.subrange(i, i + crate::json::comma_join(circle_parts(vals)).len() + 1)
            == crate::json::comma_join(circle_parts(vals)) + "]"@,
    ensures
        p_circles_list(s, i) == Some(
            (vals, i + crate::json::comma_join(circle_parts(vals)).len() + 1),
        ),
{
    reveal_strlit(",");
    reveal_strlit("]");
    let parts = circle_parts(vals);
    let cj = crate::json::comma_join(parts);
    if vals.len() == 0 {
        assert(cj =~= Seq::<char>::empty());
        assert(s[i] == ']') by {
            assert(s.subrange(i, i + cj.len() + 1)[0] == (cj + "]"@)[0]);
        }
        assert(vals =~= Seq::<GeoFenceCircle>::empty());
    } else {
        lemma_comma_join_cons(parts);
        let el = parts[0];
        let rest1 = comma_tail(parts.skip(1));
        assert(cj == el + rest1);
        lemma_split(s, i, cj, "]"@);
        lemma_split(s, i, el, rest1);
        lemma_circle_json_first(vals[0]);
        assert(s[i] == el[0]) by {
            assert(s.subrange(i, i + el.len())[0] == el[0]);
        }
        lemma_p_circle_inverts(s, i, vals[0]);
        let j = i + el.len();
        assert(parts.skip(1) =~= circle_parts(vals.skip(1)));
        lemma_join(s, j, rest1, "]"@);
        lemma_p_circles_tail_inverts(s, j, vals.skip(1));
        assert(seq![vals[0]] + vals.skip(1) =~= vals);
    }
}

/// The rendered pieces of a list of this element type.
pub open spec fn polygon_parts(vals: Seq<GeoFencePolygonModel>) -> Seq<Seq<char>> {
    Seq::new(vals.len(), |q: int| crate::json::polygon_json(vals[q]))
}

/// Parsing a rendered list tail (comma-separated pieces and the closing
/// bracket) yields the elements back.
#[verifier::rlimit(100)]
proof fn lemma_p_polygons_tail_inverts(s: Seq<char>, i: int, rest: Seq<GeoFencePolygonModel>)
    requires
        0 <= i,
        i + comma_tail(polygon_parts(rest)).len() + 1 <= s.len(),
        s.subrange(i, i + comma_tail(polygon_parts(rest)).len() + 1) == comma_tail(
            polygon_parts(rest),
        ) + "]"@,
    ensures
        p_polygons_tail(s, i) == Some((rest, i + comma_tail(polygon_parts(rest)).len() + 1)),
    decreases rest.len(),
{
    reveal_strlit(",");
    reveal_strlit("]");
    let parts = polygon_parts(rest);
    let t = comma_tail(parts);
    if rest.len() == 0 {
        assert(t =~= Seq::<char>::empty());
        assert(s[i] == ']') by {
            assert(s.subrange(i, i + t.len() + 1)[0] == (t + "]"@)[0]);
        }
        assert(rest =~= Seq::<GeoFencePolygonModel>::empty());
    } else {
        let el = parts[0];
        let rest1 = comma_tail(parts.skip(1));
        assert(t == ","@ + el + rest1);
        lemma_split(s, i, ","@ + el + rest1, "]"@);
        lemma_split(s, i, ","@ + el, rest1);
        lemma_split(s, i, ","@, el);
        assert(s[i] == ',') by {
            assert(s.subrange(i, i + 1)[0] == ","@[0]);
        }
        lemma_polygon_json_first(rest[0]);
        lemma_p_polygon_inverts(s, i + 1, rest[0]);
        let j = i + 1 + el.len();
        assert(parts.skip(1) =~= polygon_parts(rest.skip(1)));
        lemma_join(s, j, rest1, "]"@);
        lemma_p_polygons_tail_inverts(s, j, rest.skip(1));
        assert(seq![rest[0]] + rest.skip(1) =~= rest);
    }
}

/// Parsing a rendered list (pieces and the closing bracket) yields the
/// elements back.
#[verifier::rlimit(100)]
proof fn lemma_p_polygons_list_inverts(s: Seq<char>, i: int, vals: Seq<GeoFencePolygonModel>)
    requires
        0 <= i,
        i + crate::json::comma_join(polygon_parts(vals)).len() + 1 <= s.len(),
        s.subrange(i, i + crate::json::comma_join(polygon_parts(vals)).len() + 1)
            == crate::json::comma_join(polygon_parts(vals)) + "]"@,
    ensures
        p_polygons_list(s, i) == Some(
            (vals, i + crate::json::comma_join(polygon_parts(vals)).len() + 1),
        ),
{
    reveal_strlit(",");
    reveal_strlit("]");
    let parts = polygon_parts(vals);
    let cj = crate::json::comma_join(parts);
    if vals.len() == 0 {
        assert(cj =~= Seq::<char>::empty());
        assert(s[i] == ']') by {
            assert(s.subrange(i, i + cj.len() + 1)[0] == (cj + "]"@)[0]);
        }
        assert(vals =~= Seq::<GeoFencePolygonModel>::empty());
    } else {
        lemma_comma_join_cons(parts);
        let el = parts[0];
        let rest1 = comma_tail(parts.skip(1));
        assert(cj == el + rest1);
        lemma_split(s, i, cj, "]"@);
        lemma_split(s, i, el, rest1);
        lemma_polygon_json_first(vals[0]);
        assert(s[i] == el[0]) by {
            assert(s.subrange(i, i + el.len())[0] == el[0]);
        }
        lemma_p_polygon_inverts(s, i, vals[0]);
        let j = i + el.len();
        assert(parts.skip(1) =~= polygon_parts(vals.skip(1)));
        lemma_join(s, j, rest1, "]"@);
        lemma_p_polygons_tail_inverts(s, j, vals.skip(1));
        assert(seq![vals[0]] + vals.skip(1) =~= vals);
    }
}

/// The rendered pieces of a list of this element type.
pub open spec fn item_parts(vals: Seq<ItemModel>) -> Seq<Seq<char>> {
    Seq::new(vals.len(), |q: int| crate::json::item_json(vals[q]))
}

/// Parsing a rendered list tail (comma-separated pieces and the closing
/// bracket) yields the elements back.
#[verifier::rlimit(100)]
proof fn lemma_p_items_tail_inverts(s: Seq<char>, i: int, rest: Seq<ItemModel>)
    requires
        0 <= i,
        i + comma_tail(item_parts(rest)).len() + 1 <= s.len(),
        s.subrange(i, i + comma_tail(item_parts(rest)).len() + 1) == comma_tail(
            item_parts(rest),
        ) + "]"@,
    ensures
        p_items_tail(s, i) == Some((rest, i + comma_tail(item_parts(rest)).len() + 1)),
    decreases rest.len(),
{
    reveal_strlit(",");
    reveal_strlit("]");
    let parts = item_parts(rest);
    let t = comma_tail(parts);
    if rest.len() == 0 {
        assert(t =~= Seq::<char>::empty());
        assert(s[i] == ']') by {
            assert(s.subrange(i, i + t.len() + 1)[0] == (t + "]"@)[0]);
        }
        assert(rest =~= Seq::<ItemModel>::empty());
    } else {
        let el = parts[0];
        let rest1 = comma_tail(parts.skip(1));
        assert(t == ","@ + el + rest1);
        lemma_split(s, i, ","@ + el + rest1, "]"@);
        lemma_split(s, i, ","@ + el, rest1);
        lemma_split(s, i, ","@, el);
        assert(s[i] == ',') by {
            assert(s.subrange(i, i + 1)[0] == ","@[0]);
        }
        lemma_item_json_first(rest[0]);
        lemma_p_item_inverts(s, i + 1, rest[0]);
        let j = i + 1 + el.len();
        assert(parts.skip(1) =~= item_parts(rest.skip(1)));
        lemma_join(s, j, rest1, "]"@);
        lemma_p_items_tail_inverts(s, j, rest.skip(1));
        assert(seq![rest[0]] + rest.skip(1) =~= rest);
    }
}

/// Parsing a rendered list (pieces and the closing bracket) yields the
/// elements back.
#[verifier::rlimit(100)]
proof fn lemma_p_items_list_inverts(s: Seq<char>, i: int, vals: Seq<ItemModel>)
    requires
        0 <= i,
        i + crate::json::comma_join(item_parts(vals)).len() + 1 <= s.len(),
        s.subrange(i, i + crate::json::comma_join(item_parts(vals)).len() + 1)
            == crate::json::comma_join(item_parts(vals)) + "]"@,
    ensures
        p_items_list(s, i) == Some(
            (vals, i + crate::json::comma_join(item_parts(vals)).len() + 1),
        ),
{
    reveal_strlit(",");
    reveal_strlit("]");
    let parts = item_parts(vals);
    let cj = crate::json::comma_join(parts);
    if vals.len() == 0 {
        assert(cj =~= Seq::<char>::empty());
        assert(s[i] == ']') by {
            assert(s.subrange(i, i + cj.len() + 1)[0] == (cj + "]"@)[0]);
        }
        assert(vals =~= Seq::<ItemModel>::empty());
    } else {
        lemma_comma_join_cons(parts);
        let el = parts[0];
        let rest1 = comma_tail(parts.skip(1));
        assert(cj == el + rest1);
        lemma_split(s, i, cj, "]"@);
        lemma_split(s, i, el, rest1);
        lemma_item_json_first(vals[0]);
        assert(s[i] == el[0]) by {
            assert(s.subrange(i, i + el.len())[0] == el[0]);
        }
        lemma_p_item_inverts(s, i, vals[0]);
        let j = i + el.len();
        assert(parts.skip(1) =~= item_parts(vals.skip(1)));
        lemma_join(s, j, rest1, "]"@);
        lemma_p_items_tail_inverts(s, j, vals.skip(1));
        assert(seq![vals[0]] + vals.skip(1) =~= vals);
    }
}

proof fn lemma_p_latlon_inverts(s: Seq<char>, i: int, v: LatLon)
    requires
        0 <= i,
        i + crate::json::latlon_json(v).len() <= s.len(),
        s.subrange(i, i + crate::json::latlon_json(v).len()) == crate::json::latlon_json(v),
    ensures
        p_latlon(s, i) == Some((v, i + crate::json::latlon_json(v).len())),
{
    reveal_strlit(",");
    reveal_strlit("[");
    reveal_strlit("]");
    let d = crate::json::latlon_json(v);
    assert(d == "["@ + crate::json::dec_json(v.latitude) + ","@ + crate::json::dec_json(v.longitude) + "]"@);
    lemma_split(s, i, "["@ + crate::json::dec_json(v.latitude) + ","@ + crate::json::dec_json(v.longitude), "]"@);
    lemma_split(s, i, "["@ + crate::json::dec_json(v.latitude) + ","@, crate::json::dec_json(v.longitude));
    lemma_split(s, i, "["@ + crate::json::dec_json(v.latitude), ","@);
    lemma_split(s, i, "["@, crate::json::dec_json(v.latitude));
    let o0 = i;
    let o1 = i + ("["@).len();
    let o2 = i + ("["@ + crate::json::dec_json(v.latitude)).len();
    let o3 = i + ("["@ + crate::json::dec_json(v.latitude) + ","@).len();
    let o4 = i + ("["@ + crate::json::dec_json(v.latitude) + ","@ + crate::json::dec_json(v.longitude)).len();
    let o5 = i + ("["@ + crate::json::dec_json(v.latitude) + ","@ + crate::json::dec_json(v.longitude) + "]"@).len();
    lemma_p_lit_at(s, o0, "["@);
    assert(!is_digit(s[o2])) by {
        assert(s.subrange(o2, o3)[0] == ","@[0]);
    }
    lemma_p_dec_inverts(s, o1, v.latitude);
    lemma_p_lit_at(s, o2, ","@);
    assert(!is_digit(s[o4])) by {
        assert(s.subrange(o4, o5)[0] == "]"@[0]);
    }
    lemma_p_dec_inverts(s, o3, v.longitude);
    lemma_p_lit_at(s, o4, "]"@);
    assert(p_latlon(s, i) == Some((v, i + d.len())));
}

proof fn lemma_p_latlonalt_inverts(s: Seq<char>, i: int, v: LatLonAlt)
    requires
        0 <= i,
        i + crate::json::latlonalt_json(v).len() <= s.len(),
        s.subrange(i, i + crate::json::latlonalt_json(v).len()) == crate::json::latlonalt_json(v),
    ensures
        p_latlonalt(s, i) == Some((v, i + crate::json::latlonalt_json(v).len())),
{
    reveal_strlit(",");
    reveal_strlit("[");
    reveal_strlit("]");
    let d = crate::json::latlonalt_json(v);
    assert(d == "["@ + crate::json::dec_json(v.latitude) + ","@ + crate::json::dec_json(v.longitude) + ","@ + crate::json::dec_json(v.altitude) + "]"@);
    lemma_split(s, i, "["@ + crate::json::dec_json(v.latitude) + ","@ + crate::json::dec_json(v.longitude) + ","@ + crate::json::dec_json(v.altitude), "]"@);
    lemma_split(s, i, "["@ + crate::json::dec_json(v.latitude) + ","@ + crate::json::dec_json(v.longitude) + ","@, crate::json::dec_json(v.altitude));
    lemma_split(s, i, "["@ + crate::json::dec_json(v.latitude) + ","@ + crate::json::dec_json(v.longitude), ","@);
    lemma_split(s, i, "["@ + crate::json::dec_json(v.latitude) + ","@, crate::json::dec_json(v.longitude));
    lemma_split(s, i, "["@ + crate::json::dec_json(v.latitude), ","@);
    lemma_split(s, i, "["@, crate::json::dec_json(v.latitude));
    let o0 = i;
    let o1 = i + ("["@).len();
    let o2 = i + ("["@ + crate::json::dec_json(v.latitude)).len();
    let o3 = i + ("["@ + crate::json::dec_json(v.latitude) + ","@).len();
    let o4 = i + ("["@ + crate::json::dec_json(v.latitude) + ","@ + crate::json::dec_json(v.longitude)).len();
    let o5 = i + ("["@ + crate::json::dec_json(v.latitude) + ","@ + crate::json::dec_json(v.longitude) + ","@).len();
    let o6 = i + ("["@ + crate::json::dec_json(v.latitude) + ","@ + crate::json::dec_json(v.longitude) + ","@ + crate::json::dec_json(v.altitude)).len();
    let o7 = i + ("["@ + crate::json::dec_json(v.latitude) + ","@ + crate::json::dec_json(v.longitude) + ","@ + crate::json::dec_json(v.altitude) + "]"@).len();
    lemma_p_lit_at(s, o0, "["@);
    assert(!is_digit(s[o2])) by {
        assert(s.subrange(o2, o3)[0] == ","@[0]);
    }
    lemma_p_dec_inverts(s, o1, v.latitude);
    lemma_p_lit_at(s, o2, ","@);
    assert(!is_digit(s[o4])) by {
        assert(s.subrange(o4, o5)[0] == ","@[0]);
    }
    lemma_p_dec_inverts(s, o3, v.longitude);
    lemma_p_lit_at(s, o4, ","@);
    assert(!is_digit(s[o6])) by {
        assert(s.subrange(o6, o7)[0] == "]"@[0]);
    }
    lemma_p_dec_inverts(s, o5, v.altitude);
    lemma_p_lit_at(s, o6, "]"@);
    assert(p_latlonalt(s, i) == Some((v, i + d.len())));
}

#[verifier::rlimit(100)]
proof fn lemma_p_circle_inverts(s: Seq<char>, i: int, c: GeoFenceCircle)
    requires
        0 <= i,
        i + crate::json::circle_json(c).len() <= s.len(),
        s.subrange(i, i + crate::json::circle_json(c).len()) == crate::json::circle_json(c),
    ensures
        p_circle(s, i) == Some((c, i + crate::json::circle_json(c).len())),
{
    reveal(crate::json::circle_json);
    reveal_strlit(",");
    reveal_strlit(",\"version\":");
    reveal_strlit("],\"radius\":");
    reveal_strlit("{\"circle\":{\"center\":[");
    reveal_strlit("}");
    reveal_strlit("},\"inclusion\":");
    let d = crate::json::circle_json(c);
    assert(d == "{\"circle\":{\"center\":["@ + crate::json::dec_json(c.circle.center.latitude) + ","@ + crate::json::dec_json(c.circle.center.longitude) + "],\"radius\":"@ + crate::json::dec_json(c.circle.radius) + "},\"inclusion\":"@ + crate::json::bool_json(c.inclusion) + ",\"version\":"@ + crate::json::nat_json(c.version as nat) + "}"@);
    lemma_split(s, i, "{\"circle\":{\"center\":["@ + crate::json::dec_json(c.circle.center.latitude) + ","@ + crate::json::dec_json(c.circle.center.longitude) + "],\"radius\":"@ + crate::json::dec_json(c.circle.radius) + "},\"inclusion\":"@ + crate::json::bool_json(c.inclusion) + ",\"version\":"@ + crate::json::nat_json(c.version as nat), "}"@);
    lemma_split(s, i, "{\"circle\":{\"center\":["@ + crate::json::dec_json(c.circle.center.latitude) + ","@ + crate::json::dec_json(c.circle.center.longitude) + "],\"radius\":"@ + crate::json::dec_json(c.circle.radius) + "},\"inclusion\":"@ + crate::json::bool_json(c.inclusion) + ",\"version\":"@, crate::json::nat_json(c.version as nat));
    lemma_split(s, i, "{\"circle\":{\"center\":["@ + crate::json::dec_json(c.circle.center.latitude) + ","@ + crate::json::dec_json(c.circle.center.longitude) + "],\"radius\":"@ + crate::json::dec_json(c.circle.radius) + "},\"inclusion\":"@ + crate::json::bool_json(c.inclusion), ",\"version\":"@);
    lemma_split(s, i, "{\"circle\":{\"center\":["@ + crate::json::dec_json(c.circle.center.latitude) + ","@ + crate::json::dec_json(c.circle.center.longitude) + "],\"radius\":"@ + crate::json::dec_json(c.circle.radius) + "},\"inclusion\":"@, crate::json::bool_json(c.inclusion));
    lemma_split(s, i, "{\"circle\":{\"center\":["@ + crate::json::dec_json(c.circle.center.latitude) + ","@ + crate::json::dec_json(c.circle.center.longitude) + "],\"radius\":"@ + crate::json::dec_json(c.circle.radius), "},\"inclusion\":"@);
    lemma_split(s, i, "{\"circle\":{\"center\":["@ + crate::json::dec_json(c.circle.center.latitude) + ","@ + crate::json::dec_json(c.circle.center.longitude) + "],\"radius\":"@, crate::json::dec_json(c.circle.radius));
    lemma_split(s, i, "{\"circle\":{\"center\":["@ + crate::json::dec_json(c.circle.center.latitude) + ","@ + crate::json::dec_json(c.circle.center.longitude), "],\"radius\":"@);
    lemma_split(s, i, "{\"circle\":{\"center\":["@ + crate::json::dec_json(c.circle.center.latitude) + ","@, crate::json::dec_json(c.circle.center.longitude));
    lemma_split(s, i, "{\"circle\":{\"center\":["@ + crate::json::dec_json(c.circle.center.latitude), ","@);
    lemma_split(s, i, "{\"circle\":{\"center\":["@, crate::json::dec_json(c.circle.center.latitude));
    let o0 = i;
    let o1 = i + ("{\"circle\":{\"center\":["@).len();
    let o2 = i + ("{\"circle\":{\"center\":["@ + crate::json::dec_json(c.circle.center.latitude)).len();
    let o3 = i + ("{\"circle\":{\"center\":["@ + crate::json::dec_json(c.circle.center.latitude) + ","@).len();
    let o4 = i + ("{\"circle\":{\"center\":["@ + crate::json::dec_json(c.circle.center.latitude) + ","@ + crate::json::dec_json(c.circle.center.longitude)).len();
    let o5 = i + ("{\"circle\":{\"center\":["@ + crate::json::dec_json(c.circle.center.latitude) + ","@ + crate::json::dec_json(c.circle.center.longitude) + "],\"radius\":"@).len();
    let o6 = i + ("{\"circle\":{\"center\":["@ + crate::json::dec_json(c.circle.center.latitude) + ","@ + crate::json::dec_json(c.circle.center.longitude) + "],\"radius\":"@ + crate::json::dec_json(c.circle.radius)).len();
    let o7 = i + ("{\"circle\":{\"center\":["@ + crate::json::dec_json(c.circle.center.latitude) + ","@ + crate::json::dec_json(c.circle.center.longitude) + "],\"radius\":"@ + crate::json::dec_json(c.circle.radius) + "},\"inclusion\":"@).len();
    let o8 = i + ("{\"circle\":{\"center\":["@ + crate::json::dec_json(c.circle.center.latitude) + ","@ + crate::json::dec_json(c.circle.center.longitude) + "],\"radius\":"@ + crate::json::dec_json(c.circle.radius) + "},\"inclusion\":"@ + crate::json::bool_json(c.inclusion)).len();
    let o9 = i + ("{\"circle\":{\"center\":["@ + crate::json::dec_json(c.circle.center.latitude) + ","@ + crate::json::dec_json(c.circle.center.longitude) + "],\"radius\":"@ + crate::json::dec_json(c.circle.radius) + "},\"inclusion\":"@ + crate::json::bool_json(c.inclusion) + ",\"version\":"@).len();
    let o10 = i + ("{\"circle\":{\"center\":["@ + crate::json::dec_json(c.circle.center.latitude) + ","@ + crate::json::dec_json(c.circle.center.longitude) + "],\"radius\":"@ + crate::json::dec_json(c.circle.radius) + "},\"inclusion\":"@ + crate::json::bool_json(c.inclusion) + ",\"version\":"@ + crate::json::nat_json(c.version as nat)).len();
    let o11 = i + ("{\"circle\":{\"center\":["@ + crate::json::dec_json(c.circle.center.latitude) + ","@ + crate::json::dec_json(c.circle.center.longitude) + "],\"radius\":"@ + crate::json::dec_json(c.circle.radius) + "},\"inclusion\":"@ + crate::json::bool_json(c.inclusion) + ",\"version\":"@ + crate::json::nat_json(c.version as nat) + "}"@).len();
    lemma_p_lit_at(s, o0, "{\"circle\":{\"center\":["@);
    assert(!is_digit(s[o2])) by {
        assert(s.subrange(o2, o3)[0] == ","@[0]);
    }
    lemma_p_dec_inverts(s, o1, c.circle.center.latitude);
    lemma_p_lit_at(s, o2, ","@);
    assert(!is_digit(s[o4])) by {
        assert(s.subrange(o4, o5)[0] == "],\"radius\":"@[0]);
    }
    lemma_p_dec_inverts(s, o3, c.circle.center.longitude);
    lemma_p_lit_at(s, o4, "],\"radius\":"@);
    assert(!is_digit(s[o6])) by {
        assert(s.subrange(o6, o7)[0] == "},\"inclusion\":"@[0]);
    }
    lemma_p_dec_inverts(s, o5, c.circle.radius);
    lemma_p_lit_at(s, o6, "},\"inclusion\":"@);
    lemma_p_bool_inverts(s, o7, c.inclusion);
    lemma_p_lit_at(s, o8, ",\"version\":"@);
    assert(!is_digit(s[o10])) by {
        assert(s.subrange(o10, o11)[0] == "}"@[0]);
    }
    lemma_small_nat_digits(c.version as nat);
    lemma_p_nat_inverts(s, o9, c.version as nat);
    lemma_p_lit_at(s, o10, "}"@);
    assert(p_circle(s, i) == Some((c, i + d.len())));
}

#[verifier::rlimit(100)]
proof fn lemma_p_polygon_inverts(s: Seq<char>, i: int, p: GeoFencePolygonModel)
    requires
        0 <= i,
        i + crate::json::polygon_json(p).len() <= s.len(),
        s.subrange(i, i + crate::json::polygon_json(p).len()) == crate::json::polygon_json(p),
    ensures
        p_polygon(s, i) == Some((p, i + crate::json::polygon_json(p).len())),
{
    reveal(crate::json::polygon_json);
    reveal_strlit(",\"inclusion\":");
    reveal_strlit(",\"version\":");
    reveal_strlit("]");
    reveal_strlit("],\"inclusion\":");
    reveal_strlit("{\"polygon\":[");
    reveal_strlit("}");
    let d = crate::json::polygon_json(p);
    assert(Seq::new(p.polygon.len(), |q: int| crate::json::latlon_json(p.polygon[q])) =~= vertex_parts(p.polygon));
    assert(d == "{\"polygon\":["@ + crate::json::comma_join(vertex_parts(p.polygon)) + "],\"inclusion\":"@ + crate::json::bool_json(p.inclusion) + ",\"version\":"@ + crate::json::nat_json(p.version as nat) + "}"@);
    lemma_split(s, i, "{\"polygon\":["@ + crate::json::comma_join(vertex_parts(p.polygon)) + "],\"inclusion\":"@ + crate::json::bool_json(p.inclusion) + ",\"version\":"@ + crate::json::nat_json(p.version as nat), "}"@);
    lemma_split(s, i, "{\"polygon\":["@ + crate::json::comma_join(vertex_parts(p.polygon)) + "],\"inclusion\":"@ + crate::json::bool_json(p.inclusion) + ",\"version\":"@, crate::json::nat_json(p.version as nat));
    lemma_split(s, i, "{\"polygon\":["@ + crate::json::comma_join(vertex_parts(p.polygon)) + "],\"inclusion\":"@ + crate::json::bool_json(p.inclusion), ",\"version\":"@);
    lemma_split(s, i, "{\"polygon\":["@ + crate::json::comma_join(vertex_parts(p.polygon)) + "],\"inclusion\":"@, crate::json::bool_json(p.inclusion));
    lemma_split(s, i, "{\"polygon\":["@ + crate::json::comma_join(vertex_parts(p.polygon)), "],\"inclusion\":"@);
    lemma_split(s, i, "{\"polygon\":["@, crate::json::comma_join(vertex_parts(p.polygon)));
    let o0 = i;
    let o1 = i + ("{\"polygon\":["@).len();
    let o2 = i + ("{\"polygon\":["@ + crate::json::comma_join(vertex_parts(p.polygon))).len();
    let o3 = i + ("{\"polygon\":["@ + crate::json::comma_join(vertex_parts(p.polygon)) + "],\"inclusion\":"@).len();
    let o4 = i + ("{\"polygon\":["@ + crate::json::comma_join(vertex_parts(p.polygon)) + "],\"inclusion\":"@ + crate::json::bool_json(p.inclusion)).len();
    let o5 = i + ("{\"polygon\":["@ + crate::json::comma_join(vertex_parts(p.polygon)) + "],\"inclusion\":"@ + crate::json::bool_json(p.inclusion) + ",\"version\":"@).len();
    let o6 = i + ("{\"polygon\":["@ + crate::json::comma_join(vertex_parts(p.polygon)) + "],\"inclusion\":"@ + crate::json::bool_json(p.inclusion) + ",\"version\":"@ + crate::json::nat_json(p.version as nat)).len();
    let o7 = i + ("{\"polygon\":["@ + crate::json::comma_join(vertex_parts(p.polygon)) + "],\"inclusion\":"@ + crate::json::bool_json(p.inclusion) + ",\"version\":"@ + crate::json::nat_json(p.version as nat) + "}"@).len();
    lemma_p_lit_at(s, o0, "{\"polygon\":["@);
    assert(s[o2] == ']') by {
        assert(s.subrange(o2, o3)[0] == "],\"inclusion\":"@[0]);
    }
    assert(s.subrange(o2, o2 + 1) =~= "]"@) by {
        assert(s.subrange(o2, o2 + 1)[0] == s[o2]);
    }
    lemma_join(s, o1, crate::json::comma_join(vertex_parts(p.polygon)), "]"@);
    lemma_p_vertices_list_inverts(s, o1, p.polygon);
    assert("],\"inclusion\":"@ =~= "]"@ + ",\"inclusion\":"@);
    lemma_split(s, o2, "]"@, ",\"inclusion\":"@);
    lemma_p_lit_at(s, o2 + 1, ",\"inclusion\":"@);
    lemma_p_bool_inverts(s, o3, p.inclusion);
    lemma_p_lit_at(s, o4, ",\"version\":"@);
    assert(!is_digit(s[o6])) by {
        assert(s.subrange(o6, o7)[0] == "}"@[0]);
    }
    lemma_small_nat_digits(p.version as nat);
    lemma_p_nat_inverts(s, o5, p.version as nat);
    lemma_p_lit_at(s, o6, "}"@);
    assert(p_polygon(s, i) == Some((p, i + d.len())));
}

#[verifier::rlimit(100)]
proof fn lemma_p_item_inverts(s: Seq<char>, i: int, it: ItemModel)
    requires
        0 <= i,
        i + crate::json::item_json(it).len() <= s.len(),
        s.subrange(i, i + crate::json::item_json(it).len()) == crate::json::item_json(it),
    ensures
        p_item(s, i) == Some((it, i + crate::json::item_json(it).len())),
{
    reveal(crate::json::item_json);
    reveal_strlit(",\"AMSLAltAboveTerrain\":");
    reveal_strlit(",\"AltitudeMode\":");
    reveal_strlit(",\"Altitude\":");
    reveal_strlit(",\"command\":");
    reveal_strlit(",\"doJumpId\":");
    reveal_strlit(",\"frame\":");
    reveal_strlit(",\"params\":[");
    reveal_strlit("]");
    reveal_strlit("],\"Altitude\":");
    reveal_strlit("{\"type\":\"SimpleItem\",\"autoContinue\":");
    reveal_strlit("}");
    let d = crate::json::item_json(it);
    assert(Seq::new(it.params.len(), |q: int| crate::json::param_json(it.params[q])) =~= param_parts(it.params));
    assert(d == "{\"type\":\"SimpleItem\",\"autoContinue\":"@ + crate::json::bool_json(it.auto_continue) + ",\"command\":"@ + crate::json::nat_json(it.command as nat) + ",\"doJumpId\":"@ + crate::json::nat_json(it.sequence_index as nat) + ",\"frame\":"@ + crate::json::nat_json(it.frame as nat) + ",\"params\":["@ + crate::json::params_json(it.params) + "],\"Altitude\":"@ + crate::json::dec_json(it.altitude) + ",\"AltitudeMode\":"@ + crate::json::nat_json(it.altitude_mode as nat) + ",\"AMSLAltAboveTerrain\":"@ + crate::json::dec_json(it.amsl_alt_above_terrain) + "}"@);
    lemma_split(s, i, "{\"type\":\"SimpleItem\",\"autoContinue\":"@ + crate::json::bool_json(it.auto_continue) + ",\"command\":"@ + crate::json::nat_json(it.command as nat) + ",\"doJumpId\":"@ + crate::json::nat_json(it.sequence_index as nat) + ",\"frame\":"@ + crate::json::nat_json(it.frame as nat) + ",\"params\":["@ + crate::json::params_json(it.params) + "],\"Altitude\":"@ + crate::json::dec_json(it.altitude) + ",\"AltitudeMode\":"@ + crate::json::nat_json(it.altitude_mode as nat) + ",\"AMSLAltAboveTerrain\":"@ + crate::json::dec_json(it.amsl_alt_above_terrain), "}"@);
    lemma_split(s, i, "{\"type\":\"SimpleItem\",\"autoContinue\":"@ + crate::json::bool_json(it.auto_continue) + ",\"command\":"@ + crate::json::nat_json(it.command as nat) + ",\"doJumpId\":"@ + crate::json::nat_json(it.sequence_index as nat) + ",\"frame\":"@ + crate::json::nat_json(it.frame as nat) + ",\"params\":["@ + crate::json::params_json(it.params) + "],\"Altitude\":"@ + crate::json::dec_json(it.altitude) + ",\"AltitudeMode\":"@ + crate::json::nat_json(it.altitude_mode as nat) + ",\"AMSLAltAboveTerrain\":"@, crate::json::dec_json(it.amsl_alt_above_terrain));
    lemma_split(s, i, "{\"type\":\"SimpleItem\",\"autoContinue\":"@ + crate::json::bool_json(it.auto_continue) + ",\"command\":"@ + crate::json::nat_json(it.command as nat) + ",\"doJumpId\":"@ + crate::json::nat_json(it.sequence_index as nat) + ",\"frame\":"@ + crate::json::nat_json(it.frame as nat) + ",\"params\":["@ + crate::json::params_json(it.params) + "],\"Altitude\":"@ + crate::json::dec_json(it.altitude) + ",\"AltitudeMode\":"@ + crate::json::nat_json(it.altitude_mode as nat), ",\"AMSLAltAboveTerrain\":"@);
    lemma_split(s, i, "{\"type\":\"SimpleItem\",\"autoContinue\":"@ + crate::json::bool_json(it.auto_continue) + ",\"command\":"@ + crate::json::nat_json(it.command as nat) + ",\"doJumpId\":"@ + crate::json::nat_json(it.sequence_index as nat) + ",\"frame\":"@ + crate::json::nat_json(it.frame as nat) + ",\"params\":["@ + crate::json::params_json(it.params) + "],\"Altitude\":"@ + crate::json::dec_json(it.altitude) + ",\"AltitudeMode\":"@, crate::json::nat_json(it.altitude_mode as nat));
    lemma_split(s, i, "{\"type\":\"SimpleItem\",\"autoContinue\":"@ + crate::json::bool_json(it.auto_continue) + ",\"command\":"@ + crate::json::nat_json(it.command as nat) + ",\"doJumpId\":"@ + crate::json::nat_json(it.sequence_index as nat) + ",\"frame\":"@ + crate::json::nat_json(it.frame as nat) + ",\"params\":["@ + crate::json::params_json(it.params) + "],\"Altitude\":"@ + crate::json::dec_json(it.altitude), ",\"AltitudeMode\":"@);
    lemma_split(s, i, "{\"type\":\"SimpleItem\",\"autoContinue\":"@ + crate::json::bool_json(it.auto_continue) + ",\"command\":"@ + crate::json::nat_json(it.command as nat) + ",\"doJumpId\":"@ + crate::json::nat_json(it.sequence_index as nat) + ",\"frame\":"@ + crate::json::nat_json(it.frame as nat) + ",\"params\":["@ + crate::json::params_json(it.params) + "],\"Altitude\":"@, crate::json::dec_json(it.altitude));
    lemma_split(s, i, "{\"type\":\"SimpleItem\",\"autoContinue\":"@ + crate::json::bool_json(it.auto_continue) + ",\"command\":"@ + crate::json::nat_json(it.command as nat) + ",\"doJumpId\":"@ + crate::json::nat_json(it.sequence_index as nat) + ",\"frame\":"@ + crate::json::nat_json(it.frame as nat) + ",\"params\":["@ + crate::json::params_json(it.params), "],\"Altitude\":"@);
    lemma_split(s, i, "{\"type\":\"SimpleItem\",\"autoContinue\":"@ + crate::json::bool_json(it.auto_continue) + ",\"command\":"@ + crate::json::nat_json(it.command as nat) + ",\"doJumpId\":"@ + crate::json::nat_json(it.sequence_index as nat) + ",\"frame\":"@ + crate::json::nat_json(it.frame as nat) + ",\"params\":["@, crate::json::params_json(it.params));
    lemma_split(s, i, "{\"type\":\"SimpleItem\",\"autoContinue\":"@ + crate::json::bool_json(it.auto_continue) + ",\"command\":"@ + crate::json::nat_json(it.command as nat) + ",\"doJumpId\":"@ + crate::json::nat_json(it.sequence_index as nat) + ",\"frame\":"@ + crate::json::nat_json(it.frame as nat), ",\"params\":["@);
    lemma_split(s, i, "{\"type\":\"SimpleItem\",\"autoContinue\":"@ + crate::json::bool_json(it.auto_continue) + ",\"command\":"@ + crate::json::nat_json(it.command as nat) + ",\"doJumpId\":"@ + crate::json::nat_json(it.sequence_index as nat) + ",\"frame\":"@, crate::json::nat_json(it.frame as nat));
    lemma_split(s, i, "{\"type\":\"SimpleItem\",\"autoContinue\":"@ + crate::json::bool_json(it.auto_continue) + ",\"command\":"@ + crate::json::nat_json(it.command as nat) + ",\"doJumpId\":"@ + crate::json::nat_json(it.sequence_index as nat), ",\"frame\":"@);
    lemma_split(s, i, "{\"type\":\"SimpleItem\",\"autoContinue\":"@ + crate::json::bool_json(it.auto_continue) + ",\"command\":"@ + crate::json::nat_json(it.command as nat) + ",\"doJumpId\":"@, crate::json::nat_json(it.sequence_index as nat));
    lemma_split(s, i, "{\"type\":\"SimpleItem\",\"autoContinue\":"@ + crate::json::bool_json(it.auto_continue) + ",\"command\":"@ + crate::json::nat_json(it.command as nat), ",\"doJumpId\":"@);
    lemma_split(s, i, "{\"type\":\"SimpleItem\",\"autoContinue\":"@ + crate::json::bool_json(it.auto_continue) + ",\"command\":"@, crate::json::nat_json(it.command as nat));
    lemma_split(s, i, "{\"type\":\"SimpleItem\",\"autoContinue\":"@ + crate::json::bool_json(it.auto_continue), ",\"command\":"@);
    lemma_split(s, i, "{\"type\":\"SimpleItem\",\"autoContinue\":"@, crate::json::bool_json(it.auto_continue));
    let o0 = i;
    let o1 = i + ("{\"type\":\"SimpleItem\",\"autoContinue\":"@).len();
    let o2 = i + ("{\"type\":\"SimpleItem\",\"autoContinue\":"@ + crate::json::bool_json(it.auto_continue)).len();
    let o3 = i + ("{\"type\":\"SimpleItem\",\"autoContinue\":"@ + crate::json::bool_json(it.auto_continue) + ",\"command\":"@).len();
    let o4 = i + ("{\"type\":\"SimpleItem\",\"autoContinue\":"@ + crate::json::bool_json(it.auto_continue) + ",\"command\":"@ + crate::json::nat_json(it.command as nat)).len();
    let o5 = i + ("{\"type\":\"SimpleItem\",\"autoContinue\":"@ + crate::json::bool_json(it.auto_continue) + ",\"command\":"@ + crate::json::nat_json(it.command as nat) + ",\"doJumpId\":"@).len();
    let o6 = i + ("{\"type\":\"SimpleItem\",\"autoContinue\":"@ + crate::json::bool_json(it.auto_continue) + ",\"command\":"@ + crate::json::nat_json(it.command as nat) + ",\"doJumpId\":"@ + crate::json::nat_json(it.sequence_index as nat)).len();
    let o7 = i + ("{\"type\":\"SimpleItem\",\"autoContinue\":"@ + crate::json::bool_json(it.auto_continue) + ",\"command\":"@ + crate::json::nat_json(it.command as nat) + ",\"doJumpId\":"@ + crate::json::nat_json(it.sequence_index as nat) + ",\"frame\":"@).len();
    let o8 = i + ("{\"type\":\"SimpleItem\",\"autoContinue\":"@ + crate::json::bool_json(it.auto_continue) + ",\"command\":"@ + crate::json::nat_json(it.command as nat) + ",\"doJumpId\":"@ + crate::json::nat_json(it.sequence_index as nat) + ",\"frame\":"@ + crate::json::nat_json(it.frame as nat)).len();
    let o9 = i + ("{\"type\":\"SimpleItem\",\"autoContinue\":"@ + crate::json::bool_json(it.auto_continue) + ",\"command\":"@ + crate::json::nat_json(it.command as nat) + ",\"doJumpId\":"@ + crate::json::nat_json(it.sequence_index as nat) + ",\"frame\":"@ + crate::json::nat_json(it.frame as nat) + ",\"params\":["@).len();
    let o10 = i + ("{\"type\":\"SimpleItem\",\"autoContinue\":"@ + crate::json::bool_json(it.auto_continue) + ",\"command\":"@ + crate::json::nat_json(it.command as nat) + ",\"doJumpId\":"@ + crate::json::nat_json(it.sequence_index as nat) + ",\"frame\":"@ + crate::json::nat_json(it.frame as nat) + ",\"params\":["@ + crate::json::params_json(it.params)).len();
    let o11 = i + ("{\"type\":\"SimpleItem\",\"autoContinue\":"@ + crate::json::bool_json(it.auto_continue) + ",\"command\":"@ + crate::json::nat_json(it.command as nat) + ",\"doJumpId\":"@ + crate::json::nat_json(it.sequence_index as nat) + ",\"frame\":"@ + crate::json::nat_json(it.frame as nat) + ",\"params\":["@ + crate::json::params_json(it.params) + "],\"Altitude\":"@).len();
    let o12 = i + ("{\"type\":\"SimpleItem\",\"autoContinue\":"@ + crate::json::bool_json(it.auto_continue) + ",\"command\":"@ + crate::json::nat_json(it.command as nat) + ",\"doJumpId\":"@ + crate::json::nat_json(it.sequence_index as nat) + ",\"frame\":"@ + crate::json::nat_json(it.frame as nat) + ",\"params\":["@ + crate::json::params_json(it.params) + "],\"Altitude\":"@ + crate::json::dec_json(it.altitude)).len();
    let o13 = i + ("{\"type\":\"SimpleItem\",\"autoContinue\":"@ + crate::json::bool_json(it.auto_continue) + ",\"command\":"@ + crate::json::nat_json(it.command as nat) + ",\"doJumpId\":"@ + crate::json::nat_json(it.sequence_index as nat) + ",\"frame\":"@ + crate::json::nat_json(it.frame as nat) + ",\"params\":["@ + crate::json::params_json(it.params) + "],\"Altitude\":"@ + crate::json::dec_json(it.altitude) + ",\"AltitudeMode\":"@).len();
    let o14 = i + ("{\"type\":\"SimpleItem\",\"autoContinue\":"@ + crate::json::bool_json(it.auto_continue) + ",\"command\":"@ + crate::json::nat_json(it.command as nat) + ",\"doJumpId\":"@ + crate::json::nat_json(it.sequence_index as nat) + ",\"frame\":"@ + crate::json::nat_json(it.frame as nat) + ",\"params\":["@ + crate::json::params_json(it.params) + "],\"Altitude\":"@ + crate::json::dec_json(it.altitude) + ",\"AltitudeMode\":"@ + crate::json::nat_json(it.altitude_mode as nat)).len();
    let o15 = i + ("{\"type\":\"SimpleItem\",\"autoContinue\":"@ + crate::json::bool_json(it.auto_continue) + ",\"command\":"@ + crate::json::nat_json(it.command as nat) + ",\"doJumpId\":"@ + crate::json::nat_json(it.sequence_index as nat) + ",\"frame\":"@ + crate::json::nat_json(it.frame as nat) + ",\"params\":["@ + crate::json::params_json(it.params) + "],\"Altitude\":"@ + crate::json::dec_json(it.altitude) + ",\"AltitudeMode\":"@ + crate::json::nat_json(it.altitude_mode as nat) + ",\"AMSLAltAboveTerrain\":"@).len();
    let o16 = i + ("{\"type\":\"SimpleItem\",\"autoContinue\":"@ + crate::json::bool_json(it.auto_continue) + ",\"command\":"@ + crate::json::nat_json(it.command as nat) + ",\"doJumpId\":"@ + crate::json::nat_json(it.sequence_index as nat) + ",\"frame\":"@ + crate::json::nat_json(it.frame as nat) + ",\"params\":["@ + crate::json::params_json(it.params) + "],\"Altitude\":"@ + crate::json::dec_json(it.altitude) + ",\"AltitudeMode\":"@ + crate::json::nat_json(it.altitude_mode as nat) + ",\"AMSLAltAboveTerrain\":"@ + crate::json::dec_json(it.amsl_alt_above_terrain)).len();
    let o17 = i + ("{\"type\":\"SimpleItem\",\"autoContinue\":"@ + crate::json::bool_json(it.auto_continue) + ",\"command\":"@ + crate::json::nat_json(it.command as nat) + ",\"doJumpId\":"@ + crate::json::nat_json(it.sequence_index as nat) + ",\"frame\":"@ + crate::json::nat_json(it.frame as nat) + ",\"params\":["@ + crate::json::params_json(it.params) + "],\"Altitude\":"@ + crate::json::dec_json(it.altitude) + ",\"AltitudeMode\":"@ + crate::json::nat_json(it.altitude_mode as nat) + ",\"AMSLAltAboveTerrain\":"@ + crate::json::dec_json(it.amsl_alt_above_terrain) + "}"@).len();
    lemma_p_lit_at(s, o0, "{\"type\":\"SimpleItem\",\"autoContinue\":"@);
    lemma_p_bool_inverts(s, o1, it.auto_continue);
    lemma_p_lit_at(s, o2, ",\"command\":"@);
    assert(!is_digit(s[o4])) by {
        assert(s.subrange(o4, o5)[0] == ",\"doJumpId\":"@[0]);
    }
    lemma_small_nat_digits(it.command as nat);
    lemma_p_nat_inverts(s, o3, it.command as nat);
    lemma_p_lit_at(s, o4, ",\"doJumpId\":"@);
    assert(!is_digit(s[o6])) by {
        assert(s.subrange(o6, o7)[0] == ",\"frame\":"@[0]);
    }
    lemma_small_nat_digits(it.sequence_index as nat);
    lemma_p_nat_inverts(s, o5, it.sequence_index as nat);
    lemma_p_lit_at(s, o6, ",\"frame\":"@);
    assert(!is_digit(s[o8])) by {
        assert(s.subrange(o8, o9)[0] == ",\"params\":["@[0]);
    }
    lemma_small_nat_digits(it.frame as nat);
    lemma_p_nat_inverts(s, o7, it.frame as nat);
    lemma_p_lit_at(s, o8, ",\"params\":["@);
    assert(s[o10] == ']') by {
        assert(s.subrange(o10, o11)[0] == "],\"Altitude\":"@[0]);
    }
    assert(s.subrange(o10, o10 + 1) =~= "]"@) by {
        assert(s.subrange(o10, o10 + 1)[0] == s[o10]);
    }
    assert(crate::json::params_json(it.params) == crate::json::comma_join(param_parts(it.params)));
    lemma_join(s, o9, crate::json::comma_join(param_parts(it.params)), "]"@);
    lemma_p_params_list_inverts(s, o9, it.params);
    assert("],\"Altitude\":"@ =~= "]"@ + ",\"Altitude\":"@);
    lemma_split(s, o10, "]"@, ",\"Altitude\":"@);
    lemma_p_lit_at(s, o10 + 1, ",\"Altitude\":"@);
    assert(!is_digit(s[o12])) by {
        assert(s.subrange(o12, o13)[0] == ",\"AltitudeMode\":"@[0]);
    }
    lemma_p_dec_inverts(s, o11, it.altitude);
    lemma_p_lit_at(s, o12, ",\"AltitudeMode\":"@);
    assert(!is_digit(s[o14])) by {
        assert(s.subrange(o14, o15)[0] == ",\"AMSLAltAboveTerrain\":"@[0]);
    }
    lemma_small_nat_digits(it.altitude_mode as nat);
    lemma_p_nat_inverts(s, o13, it.altitude_mode as nat);
    lemma_p_lit_at(s, o14, ",\"AMSLAltAboveTerrain\":"@);
    assert(!is_digit(s[o16])) by {
        assert(s.subrange(o16, o17)[0] == "}"@[0]);
    }
    lemma_p_dec_inverts(s, o15, it.amsl_alt_above_terrain);
    lemma_p_lit_at(s, o16, "}"@);
    assert(p_item(s, i) == Some((it, i + d.len())));
}


/// The rendered pieces of this structure stand at their offsets.
#[verifier::rlimit(100)]
proof fn lemma_p_geofence_pieces(s: Seq<char>, i: int, g: GeoFenceModel)
    requires
        0 <= i,
        i + crate::json::geofence_json(g).len() <= s.len(),
        s.subrange(i, i + crate::json::geofence_json(g).len()) == crate::json::geofence_json(g),
    ensures
        i + ("{\"circles\":["@).len() + (crate::json::comma_join(circle_parts(g.circles))).len() + ("],\"polygons\":["@).len() + (crate::json::comma_join(polygon_parts(g.polygons))).len() + ("],\"version\":"@).len() + (crate::json::nat_json(g.version as nat)).len() + ("}"@).len() == i + crate::json::geofence_json(g).len(),
        s.subrange(i, i + ("{\"circles\":["@).len()) == "{\"circles\":["@,
        s.subrange(i + ("{\"circles\":["@).len(), i + ("{\"circles\":["@).len() + (crate::json::comma_join(circle_parts(g.circles))).len()) == crate::json::comma_join(circle_parts(g.circles)),
        s.subrange(i + ("{\"circles\":["@).len() + (crate::json::comma_join(circle_parts(g.circles))).len(), i + ("{\"circles\":["@).len() + (crate::json::comma_join(circle_parts(g.circles))).len() + ("],\"polygons\":["@).len()) == "],\"polygons\":["@,
        s.subrange(i + ("{\"circles\":["@).len() + (crate::json::comma_join(circle_parts(g.circles))).len() + ("],\"polygons\":["@).len(), i + ("{\"circles\":["@).len() + (crate::json::comma_join(circle_parts(g.circles))).len() + ("],\"polygons\":["@).len() + (crate::json::comma_join(polygon_parts(g.polygons))).len()) == crate::json::comma_join(polygon_parts(g.polygons)),
        s.subrange(i + ("{\"circles\":["@).len() + (crate::json::comma_join(circle_parts(g.circles))).len() + ("],\"polygons\":["@).len() + (crate::json::comma_join(polygon_parts(g.polygons))).len(), i + ("{\"circles\":["@).len() + (crate::json::comma_join(circle_parts(g.circles))).len() + ("],\"polygons\":["@).len() + (crate::json::comma_join(polygon_parts(g.polygons))).len() + ("],\"version\":"@).len()) == "],\"version\":"@,
        s.subrange(i + ("{\"circles\":["@).len() + (crate::json::comma_join(circle_parts(g.circles))).len() + ("],\"polygons\":["@).len() + (crate::json::comma_join(polygon_parts(g.polygons))).len() + ("],\"version\":"@).len(), i + ("{\"circles\":["@).len() + (crate::json::comma_join(circle_parts(g.circles))).len() + ("],\"polygons\":["@).len() + (crate::json::comma_join(polygon_parts(g.polygons))).len() + ("],\"version\":"@).len() + (crate::json::nat_json(g.version as nat)).len()) == crate::json::nat_json(g.version as nat),
        s.subrange(i + ("{\"circles\":["@).len() + (crate::json::comma_join(circle_parts(g.circles))).len() + ("],\"polygons\":["@).len() + (crate::json::comma_join(polygon_parts(g.polygons))).len() + ("],\"version\":"@).len() + (crate::json::nat_json(g.version as nat)).len(), i + ("{\"circles\":["@).len() + (crate::json::comma_join(circle_parts(g.circles))).len() + ("],\"polygons\":["@).len() + (crate::json::comma_join(polygon_parts(g.polygons))).len() + ("],\"version\":"@).len() + (crate::json::nat_json(g.version as nat)).len() + ("}"@).len()) == "}"@,
{
    let d = crate::json::geofence_json(g);
    assert(Seq::new(g.circles.len(), |q: int| crate::json::circle_json(g.circles[q])) =~= circle_parts(g.circles));
    assert(Seq::new(g.polygons.len(), |q: int| crate::json::polygon_json(g.polygons[q])) =~= polygon_parts(g.polygons));
    assert(d == "{\"circles\":["@ + crate::json::comma_join(circle_parts(g.circles)) + "],\"polygons\":["@ + crate::json::comma_join(polygon_parts(g.polygons)) + "],\"version\":"@ + crate::json::nat_json(g.version as nat) + "}"@);
    lemma_split(s, i, "{\"circles\":["@ + crate::json::comma_join(circle_parts(g.circles)) + "],\"polygons\":["@ + crate::json::comma_join(polygon_parts(g.polygons)) + "],\"version\":"@ + crate::json::nat_json(g.version as nat), "}"@);
    lemma_split(s, i, "{\"circles\":["@ + crate::json::comma_join(circle_parts(g.circles)) + "],\"polygons\":["@ + crate::json::comma_join(polygon_parts(g.polygons)) + "],\"version\":"@, crate::json::nat_json(g.version as nat));
    lemma_split(s, i, "{\"circles\":["@ + crate::json::comma_join(circle_parts(g.circles)) + "],\"polygons\":["@ + crate::json::comma_join(polygon_parts(g.polygons)), "],\"version\":"@);
    lemma_split(s, i, "{\"circles\":["@ + crate::json::comma_join(circle_parts(g.circles)) + "],\"polygons\":["@, crate::json::comma_join(polygon_parts(g.polygons)));
    lemma_split(s, i, "{\"circles\":["@ + crate::json::comma_join(circle_parts(g.circles)), "],\"polygons\":["@);
    lemma_split(s, i, "{\"circles\":["@, crate::json::comma_join(circle_parts(g.circles)));
}

/// The parser steps of the geofence block's circles half each succeed at
/// their offsets.
#[verifier::rlimit(100)]
proof fn lemma_p_geofence_steps_a(s: Seq<char>, i: int, g: GeoFenceModel)
    requires
        0 <= i,
        i + crate::json::geofence_json(g).len() <= s.len(),
        s.subrange(i, i + crate::json::geofence_json(g).len()) == crate::json::geofence_json(g),
    ensures
        ({
            let o0 = i;
            let o1 = o0 + ("{\"circles\":["@).len();
            let o2 = o1 + (crate::json::comma_join(circle_parts(g.circles))).len();
            let o3 = o2 + ("],\"polygons\":["@).len();
            &&& p_lit(s, o0, "{\"circles\":["@) == Some(o1)
            &&& p_circles_list(s, o1) == Some((g.circles, o2 + 1))
            &&& p_lit(s, o2 + 1, ",\"polygons\":["@) == Some(o3)
        }),
{
    reveal_strlit("{\"circles\":[");
    reveal_strlit("],\"polygons\":[");
    reveal_strlit(",\"polygons\":[");
    reveal_strlit("]");
    lemma_p_geofence_pieces(s, i, g);
    let o0 = i;
    let o1 = o0 + ("{\"circles\":["@).len();
    let o2 = o1 + (crate::json::comma_join(circle_parts(g.circles))).len();
    let o3 = o2 + ("],\"polygons\":["@).len();
    lemma_p_lit_at(s, o0, "{\"circles\":["@);
    assert(s[o2] == ']') by {
        assert(s.subrange(o2, o3)[0] == "],\"polygons\":["@[0]);
    }
    assert(s.subrange(o2, o2 + 1) =~= "]"@) by {
        assert(s.subrange(o2, o2 + 1)[0] == s[o2]);
    }
    lemma_join(s, o1, crate::json::comma_join(circle_parts(g.circles)), "]"@);
    lemma_p_circles_list_inverts(s, o1, g.circles);
    assert("],\"polygons\":["@ =~= "]"@ + ",\"polygons\":["@);
    lemma_split(s, o2, "]"@, ",\"polygons\":["@);
    lemma_p_lit_at(s, o2 + 1, ",\"polygons\":["@);
}

/// The parser steps of the geofence block's polygons half each succeed
/// at their offsets.
#[verifier::rlimit(100)]
proof fn lemma_p_geofence_steps_b(s: Seq<char>, i: int, g: GeoFenceModel)
    requires
        0 <= i,
        i + crate::json::geofence_json(g).len() <= s.len(),
        s.subrange(i, i + crate::json::geofence_json(g).len()) == crate::json::geofence_json(g),
    ensures
        ({
            let o0 = i;
            let o1 = o0 + ("{\"circles\":["@).len();
            let o2 = o1 + (crate::json::comma_join(circle_parts(g.circles))).len();
            let o3 = o2 + ("],\"polygons\":["@).len();
            let o4 = o3 + (crate::json::comma_join(polygon_parts(g.polygons))).len();
            let o5 = o4 + ("],\"version\":"@).len();
            let o6 = o5 + (crate::json::nat_json(g.version as nat)).len();
            let o7 = o6 + ("}"@).len();
            &&& p_polygons_list(s, o3) == Some((g.polygons, o4 + 1))
            &&& p_lit(s, o4 + 1, ",\"version\":"@) == Some(o5)
            &&& p_nat(s, o5) == Some((g.version as int, o6))
            &&& p_lit(s, o6, "}"@) == Some(o7)
            &&& o7 == i + crate::json::geofence_json(g).len()
        }),
{
    reveal_strlit("],\"version\":");
    reveal_strlit(",\"version\":");
    reveal_strlit("}");
    reveal_strlit("]");
    lemma_p_geofence_pieces(s, i, g);
    let o0 = i;
    let o1 = o0 + ("{\"circles\":["@).len();
    let o2 = o1 + (crate::json::comma_join(circle_parts(g.circles))).len();
    let o3 = o2 + ("],\"polygons\":["@).len();
    let o4 = o3 + (crate::json::comma_join(polygon_parts(g.polygons))).len();
    let o5 = o4 + ("],\"version\":"@).len();
    let o6 = o5 + (crate::json::nat_json(g.version as nat)).len();
    let o7 = o6 + ("}"@).len();
    assert(s[o4] == ']') by {
        assert(s.subrange(o4, o5)[0] == "],\"version\":"@[0]);
    }
    assert(s.subrange(o4, o4 + 1) =~= "]"@) by {
        assert(s.subrange(o4, o4 + 1)[0] == s[o4]);
    }
    lemma_join(s, o3, crate::json::comma_join(polygon_parts(g.polygons)), "]"@);
    lemma_p_polygons_list_inverts(s, o3, g.polygons);
    assert("],\"version\":"@ =~= "]"@ + ",\"version\":"@);
    lemma_split(s, o4, "]"@, ",\"version\":"@);
    lemma_p_lit_at(s, o4 + 1, ",\"version\":"@);
    assert(!is_digit(s[o6])) by {
        assert(s.subrange(o6, o7)[0] == "}"@[0]);
    }
    lemma_small_nat_digits(g.version as nat);
    lemma_p_nat_inverts(s, o5, g.version as nat);
    lemma_p_lit_at(s, o6, "}"@);
}

/// Parsing the geofence block at its own rendering yields it back.
#[verifier::rlimit(100)]
proof fn lemma_p_geofence_inverts(s: Seq<char>, i: int, g: GeoFenceModel)
    requires
        0 <= i,
        i + crate::json::geofence_json(g).len() <= s.len(),
        s.subrange(i, i + crate::json::geofence_json(g).len()) == crate::json::geofence_json(g),
    ensures
        p_geofence(s, i) == Some((g, i + crate::json::geofence_json(g).len())),
{
    lemma_p_geofence_steps_a(s, i, g);
    lemma_p_geofence_steps_b(s, i, g);
    let o0 = i;
    let o1 = o0 + ("{\"circles\":["@).len();
    let o2 = o1 + (crate::json::comma_join(circle_parts(g.circles))).len();
    let o3 = o2 + ("],\"polygons\":["@).len();
    let o4 = o3 + (crate::json::comma_join(polygon_parts(g.polygons))).len();
    let o5 = o4 + ("],\"version\":"@).len();
    let o6 = o5 + (crate::json::nat_json(g.version as nat)).len();
    let o7 = o6 + ("}"@).len();
    assert(p_geofence(s, i) == Some((g, i + crate::json::geofence_json(g).len())));
}


/// The rendered pieces of this structure stand at their offsets.
#[verifier::rlimit(100)]
proof fn lemma_p_rally_pieces(s: Seq<char>, i: int, r: RallyPointsModel)
    requires
        0 <= i,
        i + crate::json::rally_json(r).len() <= s.len(),
        s.subrange(i, i + crate::json::rally_json(r).len()) == crate::json::rally_json(r),
    ensures
        i + ("{\"points\":["@).len() + (crate::json::comma_join(point_parts(r.points))).len() + ("],\"version\":"@).len() + (crate::json::nat_json(r.version as nat)).len() + ("}"@).len() == i + crate::json::rally_json(r).len(),
        s.subrange(i, i + ("{\"points\":["@).len()) == "{\"points\":["@,
        s.subrange(i + ("{\"points\":["@).len(), i + ("{\"points\":["@).len() + (crate::json::comma_join(point_parts(r.points))).len()) == crate::json::comma_join(point_parts(r.points)),
        s.subrange(i + ("{\"points\":["@).len() + (crate::json::comma_join(point_parts(r.points))).len(), i + ("{\"points\":["@).len() + (crate::json::comma_join(point_parts(r.points))).len() + ("],\"version\":"@).len()) == "],\"version\":"@,
        s.subrange(i + ("{\"points\":["@).len() + (crate::json::comma_join(point_parts(r.points))).len() + ("],\"version\":"@).len(), i + ("{\"points\":["@).len() + (crate::json::comma_join(point_parts(r.points))).len() + ("],\"version\":"@).len() + (crate::json::nat_json(r.version as nat)).len()) == crate::json::nat_json(r.version as nat),
        s.subrange(i + ("{\"points\":["@).len() + (crate::json::comma_join(point_parts(r.points))).len() + ("],\"version\":"@).len() + (crate::json::nat_json(r.version as nat)).len(), i + ("{\"points\":["@).len() + (crate::json::comma_join(point_parts(r.points))).len() + ("],\"version\":"@).len() + (crate::json::nat_json(r.version as nat)).len() + ("}"@).len()) == "}"@,
{
    let d = crate::json::rally_json(r);
    assert(Seq::new(r.points.len(), |q: int| crate::json::latlonalt_json(r.points[q])) =~= point_parts(r.points));
    assert(d == "{\"points\":["@ + crate::json::comma_join(point_parts(r.points)) + "],\"version\":"@ + crate::json::nat_json(r.version as nat) + "}"@);
    lemma_split(s, i, "{\"points\":["@ + crate::json::comma_join(point_parts(r.points)) + "],\"version\":"@ + crate::json::nat_json(r.version as nat), "}"@);
    lemma_split(s, i, "{\"points\":["@ + crate::json::comma_join(point_parts(r.points)) + "],\"version\":"@, crate::json::nat_json(r.version as nat));
    lemma_split(s, i, "{\"points\":["@ + crate::json::comma_join(point_parts(r.points)), "],\"version\":"@);
    lemma_split(s, i, "{\"points\":["@, crate::json::comma_join(point_parts(r.points)));
}

#[verifier::rlimit(100)]
proof fn lemma_p_rally_inverts(s: Seq<char>, i: int, r: RallyPointsModel)
    requires
        0 <= i,
        i + crate::json::rally_json(r).len() <= s.len(),
        s.subrange(i, i + crate::json::rally_json(r).len()) == crate::json::rally_json(r),
    ensures
        p_rally(s, i) == Some((r, i + crate::json::rally_json(r).len())),
{
    reveal_strlit(",\"version\":");
    reveal_strlit("]");
    reveal_strlit("],\"version\":");
    reveal_strlit("{\"points\":[");
    reveal_strlit("}");
    lemma_p_rally_pieces(s, i, r);
    let o0 = i;
    let o1 = o0 + ("{\"points\":["@).len();
    let o2 = o1 + (crate::json::comma_join(point_parts(r.points))).len();
    let o3 = o2 + ("],\"version\":"@).len();
    let o4 = o3 + (crate::json::nat_json(r.version as nat)).len();
    let o5 = o4 + ("}"@).len();
    lemma_p_lit_at(s, o0, "{\"points\":["@);
    assert(s[o2] == ']') by {
        assert(s.subrange(o2, o3)[0] == "],\"version\":"@[0]);
    }
    assert(s.subrange(o2, o2 + 1) =~= "]"@) by {
        assert(s.subrange(o2, o2 + 1)[0] == s[o2]);
    }
    lemma_join(s, o1, crate::json::comma_join(point_parts(r.points)), "]"@);
    lemma_p_points_list_inverts(s, o1, r.points);
    assert("],\"version\":"@ =~= "]"@ + ",\"version\":"@);
    lemma_split(s, o2, "]"@, ",\"version\":"@);
    lemma_p_lit_at(s, o2 + 1, ",\"version\":"@);
    assert(!is_digit(s[o4])) by {
        assert(s.subrange(o4, o5)[0] == "}"@[0]);
    }
    lemma_small_nat_digits(r.version as nat);
    lemma_p_nat_inverts(s, o3, r.version as nat);
    lemma_p_lit_at(s, o4, "}"@);
    assert(p_rally(s, i) == Some((r, i + crate::json::rally_json(r).len())));
}


/// The rendered pieces of this structure stand at their offsets.
#[verifier::rlimit(100)]
proof fn lemma_p_mission_pieces(s: Seq<char>, i: int, m: MissionModel)
    requires
        0 <= i,
        i + crate::json::mission_json(m).len() <= s.len(),
        s.subrange(i, i + crate::json::mission_json(m).len()) == crate::json::mission_json(m),
    ensures
        i + ("{\"cruiseSpeed\":"@).len() + (crate::json::nat_json(m.cruise_speed as nat)).len() + (",\"firmwareType\":"@).len() + (crate::json::nat_json(m.firmware_type as nat)).len() + (",\"globalPlanAltitudeMode\":"@).len() + (crate::json::nat_json(m.global_plan_altitude_mode as nat)).len() + (",\"hoverSpeed\":"@).len() + (crate::json::nat_json(m.hover_speed as nat)).len() + (",\"items\":["@).len() + (crate::json::comma_join(item_parts(m.items))).len() + ("],\"plannedHomePosition\":"@).len() + (crate::json::latlonalt_json(m.planned_home_position)).len() + (",\"vehicleType\":"@).len() + (crate::json::nat_json(m.vehicle_type as nat)).len() + (",\"version\":"@).len() + (crate::json::nat_json(m.version as nat)).len() + ("}"@).len() == i + crate::json::mission_json(m).len(),
        s.subrange(i, i + ("{\"cruiseSpeed\":"@).len()) == "{\"cruiseSpeed\":"@,
        s.subrange(i + ("{\"cruiseSpeed\":"@).len(), i + ("{\"cruiseSpeed\":"@).len() + (crate::json::nat_json(m.cruise_speed as nat)).len()) == crate::json::nat_json(m.cruise_speed as nat),
        s.subrange(i + ("{\"cruiseSpeed\":"@).len() + (crate::json::nat_json(m.cruise_speed as nat)).len(), i + ("{\"cruiseSpeed\":"@).len() + (crate::json::nat_json(m.cruise_speed as nat)).len() + (",\"firmwareType\":"@).len()) == ",\"firmwareType\":"@,
        s.subrange(i + ("{\"cruiseSpeed\":"@).len() + (crate::json::nat_json(m.cruise_speed as nat)).len() + (",\"firmwareType\":"@).len(), i + ("{\"cruiseSpeed\":"@).len() + (crate::json::nat_json(m.cruise_speed as nat)).len() + (",\"firmwareType\":"@).len() + (crate::json::nat_json(m.firmware_type as nat)).len()) == crate::json::nat_json(m.firmware_type as nat),
        s.subrange(i + ("{\"cruiseSpeed\":"@).len() + (crate::json::nat_json(m.cruise_speed as nat)).len() + (",\"firmwareType\":"@).len() + (crate::json::nat_json(m.firmware_type as nat)).len(), i + ("{\"cruiseSpeed\":"@).len() + (crate::json::nat_json(m.cruise_speed as nat)).len() + (",\"firmwareType\":"@).len() + (crate::json::nat_json(m.firmware_type as nat)).len() + (",\"globalPlanAltitudeMode\":"@).len()) == ",\"globalPlanAltitudeMode\":"@,
        s.subrange(i + ("{\"cruiseSpeed\":"@).len() + (crate::json::nat_json(m.cruise_speed as nat)).len() + (",\"firmwareType\":"@).len() + (crate::json::nat_json(m.firmware_type as nat)).len() + (",\"globalPlanAltitudeMode\":"@).len(), i + ("{\"cruiseSpeed\":"@).len() + (crate::json::nat_json(m.cruise_speed as nat)).len() + (",\"firmwareType\":"@).len() + (crate::json::nat_json(m.firmware_type as nat)).len() + (",\"globalPlanAltitudeMode\":"@).len() + (crate::json::nat_json(m.global_plan_altitude_mode as nat)).len()) == crate::json::nat_json(m.global_plan_altitude_mode as nat),
        s.subrange(i + ("{\"cruiseSpeed\":"@).len() + (crate::json::nat_json(m.cruise_speed as nat)).len() + (",\"firmwareType\":"@).len() + (crate::json::nat_json(m.firmware_type as nat)).len() + (",\"globalPlanAltitudeMode\":"@).len() + (crate::json::nat_json(m.global_plan_altitude_mode as nat)).len(), i + ("{\"cruiseSpeed\":"@).len() + (crate::json::nat_json(m.cruise_speed as nat)).len() + (",\"firmwareType\":"@).len() + (crate::json::nat_json(m.firmware_type as nat)).len() + (",\"globalPlanAltitudeMode\":"@).len() + (crate::json::nat_json(m.global_plan_altitude_mode as nat)).len() + (",\"hoverSpeed\":"@).len()) == ",\"hoverSpeed\":"@,
        s.subrange(i + ("{\"cruiseSpeed\":"@).len() + (crate::json::nat_json(m.cruise_speed as nat)).len() + (",\"firmwareType\":"@).len() + (crate::json::nat_json(m.firmware_type as nat)).len() + (",\"globalPlanAltitudeMode\":"@).len() + (crate::json::nat_json(m.global_plan_altitude_mode as nat)).len() + (",\"hoverSpeed\":"@).len(), i + ("{\"cruiseSpeed\":"@).len() + (crate::json::nat_json(m.cruise_speed as nat)).len() + (",\"firmwareType\":"@).len() + (crate::json::nat_json(m.firmware_type as nat)).len() + (",\"globalPlanAltitudeMode\":"@).len() + (crate::json::nat_json(m.global_plan_altitude_mode as nat)).len() + (",\"hoverSpeed\":"@).len() + (crate::json::nat_json(m.hover_speed as nat)).len()) == crate::json::nat_json(m.hover_speed as nat),
        s.subrange(i + ("{\"cruiseSpeed\":"@).len() + (crate::json::nat_json(m.cruise_speed as nat)).len() + (",\"firmwareType\":"@).len() + (crate::json::nat_json(m.firmware_type as nat)).len() + (",\"globalPlanAltitudeMode\":"@).len() + (crate::json::nat_json(m.global_plan_altitude_mode as nat)).len() + (",\"hoverSpeed\":"@).len() + (crate::json::nat_json(m.hover_speed as nat)).len(), i + ("{\"cruiseSpeed\":"@).len() + (crate::json::nat_json(m.cruise_speed as nat)).len() + (",\"firmwareType\":"@).len() + (crate::json::nat_json(m.firmware_type as nat)).len() + (",\"globalPlanAltitudeMode\":"@).len() + (crate::json::nat_json(m.global_plan_altitude_mode as nat)).len() + (",\"hoverSpeed\":"@).len() + (crate::json::nat_json(m.hover_speed as nat)).len() + (",\"items\":["@).len()) == ",\"items\":["@,
        s.subrange(i + ("{\"cruiseSpeed\":"@).len() + (crate::json::nat_json(m.cruise_speed as nat)).len() + (",\"firmwareType\":"@).len() + (crate::json::nat_json(m.firmware_type as nat)).len() + (",\"globalPlanAltitudeMode\":"@).len() + (crate::json::nat_json(m.global_plan_altitude_mode as nat)).len() + (",\"hoverSpeed\":"@).len() + (crate::json::nat_json(m.hover_speed as nat)).len() + (",\"items\":["@).len(), i + ("{\"cruiseSpeed\":"@).len() + (crate::json::nat_json(m.cruise_speed as nat)).len() + (",\"firmwareType\":"@).len() + (crate::json::nat_json(m.firmware_type as nat)).len() + (",\"globalPlanAltitudeMode\":"@).len() + (crate::json::nat_json(m.global_plan_altitude_mode as nat)).len() + (",\"hoverSpeed\":"@).len() + (crate::json::nat_json(m.hover_speed as nat)).len() + (",\"items\":["@).len() + (crate::json::comma_join(item_parts(m.items))).len()) == crate::json::comma_join(item_parts(m.items)),
        s.subrange(i + ("{\"cruiseSpeed\":"@).len() + (crate::json::nat_json(m.cruise_speed as nat)).len() + (",\"firmwareType\":"@).len() + (crate::json::nat_json(m.firmware_type as nat)).len() + (",\"globalPlanAltitudeMode\":"@).len() + (crate::json::nat_json(m.global_plan_altitude_mode as nat)).len() + (",\"hoverSpeed\":"@).len() + (crate::json::nat_json(m.hover_speed as nat)).len() + (",\"items\":["@).len() + (crate::json::comma_join(item_parts(m.items))).len(), i + ("{\"cruiseSpeed\":"@).len() + (crate::json::nat_json(m.cruise_speed as nat)).len() + (",\"firmwareType\":"@).len() + (crate::json::nat_json(m.firmware_type as nat)).len() + (",\"globalPlanAltitudeMode\":"@).len() + (crate::json::nat_json(m.global_plan_altitude_mode as nat)).len() + (",\"hoverSpeed\":"@).len() + (crate::json::nat_json(m.hover_speed as nat)).len() + (",\"items\":["@).len() + (crate::json::comma_join(item_parts(m.items))).len() + ("],\"plannedHomePosition\":"@).len()) == "],\"plannedHomePosition\":"@,
        s.subrange(i + ("{\"cruiseSpeed\":"@).len() + (crate::json::nat_json(m.cruise_speed as nat)).len() + (",\"firmwareType\":"@).len() + (crate::json::nat_json(m.firmware_type as nat)).len() + (",\"globalPlanAltitudeMode\":"@).len() + (crate::json::nat_json(m.global_plan_altitude_mode as nat)).len() + (",\"hoverSpeed\":"@).len() + (crate::json::nat_json(m.hover_speed as nat)).len() + (",\"items\":["@).len() + (crate::json::comma_join(item_parts(m.items))).len() + ("],\"plannedHomePosition\":"@).len(), i + ("{\"cruiseSpeed\":"@).len() + (crate::json::nat_json(m.cruise_speed as nat)).len() + (",\"firmwareType\":"@).len() + (crate::json::nat_json(m.firmware_type as nat)).len() + (",\"globalPlanAltitudeMode\":"@).len() + (crate::json::nat_json(m.global_plan_altitude_mode as nat)).len() + (",\"hoverSpeed\":"@).len() + (crate::json::nat_json(m.hover_speed as nat)).len() + (",\"items\":["@).len() + (crate::json::comma_join(item_parts(m.items))).len() + ("],\"plannedHomePosition\":"@).len() + (crate::json::latlonalt_json(m.planned_home_position)).len()) == crate::json::latlonalt_json(m.planned_home_position),
        s.subrange(i + ("{\"cruiseSpeed\":"@).len() + (crate::json::nat_json(m.cruise_speed as nat)).len() + (",\"firmwareType\":"@).len() + (crate::json::nat_json(m.firmware_type as nat)).len() + (",\"globalPlanAltitudeMode\":"@).len() + (crate::json::nat_json(m.global_plan_altitude_mode as nat)).len() + (",\"hoverSpeed\":"@).len() + (crate::json::nat_json(m.hover_speed as nat)).len() + (",\"items\":["@).len() + (crate::json::comma_join(item_parts(m.items))).len() + ("],\"plannedHomePosition\":"@).len() + (crate::json::latlonalt_json(m.planned_home_position)).len(), i + ("{\"cruiseSpeed\":"@).len() + (crate::json::nat_json(m.cruise_speed as nat)).len() + (",\"firmwareType\":"@).len() + (crate::json::nat_json(m.firmware_type as nat)).len() + (",\"globalPlanAltitudeMode\":"@).len() + (crate::json::nat_json(m.global_plan_altitude_mode as nat)).len() + (",\"hoverSpeed\":"@).len() + (crate::json::nat_json(m.hover_speed as nat)).len() + (",\"items\":["@).len() + (crate::json::comma_join(item_parts(m.items))).len() + ("],\"plannedHomePosition\":"@).len() + (crate::json::latlonalt_json(m.planned_home_position)).len() + (",\"vehicleType\":"@).len()) == ",\"vehicleType\":"@,
        s.subrange(i + ("{\"cruiseSpeed\":"@).len() + (crate::json::nat_json(m.cruise_speed as nat)).len() + (",\"firmwareType\":"@).len() + (crate::json::nat_json(m.firmware_type as nat)).len() + (",\"globalPlanAltitudeMode\":"@).len() + (crate::json::nat_json(m.global_plan_altitude_mode as nat)).len() + (",\"hoverSpeed\":"@).len() + (crate::json::nat_json(m.hover_speed as nat)).len() + (",\"items\":["@).len() + (crate::json::comma_join(item_parts(m.items))).len() + ("],\"plannedHomePosition\":"@).len() + (crate::json::latlonalt_json(m.planned_home_position)).len() + (",\"vehicleType\":"@).len(), i + ("{\"cruiseSpeed\":"@).len() + (crate::json::nat_json(m.cruise_speed as nat)).len() + (",\"firmwareType\":"@).len() + (crate::json::nat_json(m.firmware_type as nat)).len() + (",\"globalPlanAltitudeMode\":"@).len() + (crate::json::nat_json(m.global_plan_altitude_mode as nat)).len() + (",\"hoverSpeed\":"@).len() + (crate::json::nat_json(m.hover_speed as nat)).len() + (",\"items\":["@).len() + (crate::json::comma_join(item_parts(m.items))).len() + ("],\"plannedHomePosition\":"@).len() + (crate::json::latlonalt_json(m.planned_home_position)).len() + (",\"vehicleType\":"@).len() + (crate::json::nat_json(m.vehicle_type as nat)).len()) == crate::json::nat_json(m.vehicle_type as nat),
        s.subrange(i + ("{\"cruiseSpeed\":"@).len() + (crate::json::nat_json(m.cruise_speed as nat)).len() + (",\"firmwareType\":"@).len() + (crate::json::nat_json(m.firmware_type as nat)).len() + (",\"globalPlanAltitudeMode\":"@).len() + (crate::json::nat_json(m.global_plan_altitude_mode as nat)).len() + (",\"hoverSpeed\":"@).len() + (crate::json::nat_json(m.hover_speed as nat)).len() + (",\"items\":["@).len() + (crate::json::comma_join(item_parts(m.items))).len() + ("],\"plannedHomePosition\":"@).len() + (crate::json::latlonalt_json(m.planned_home_position)).len() + (",\"vehicleType\":"@).len() + (crate::json::nat_json(m.vehicle_type as nat)).len(), i + ("{\"cruiseSpeed\":"@).len() + (crate::json::nat_json(m.cruise_speed as nat)).len() + (",\"firmwareType\":"@).len() + (crate::json::nat_json(m.firmware_type as nat)).len() + (",\"globalPlanAltitudeMode\":"@).len() + (crate::json::nat_json(m.global_plan_altitude_mode as nat)).len() + (",\"hoverSpeed\":"@).len() + (crate::json::nat_json(m.hover_speed as nat)).len() + (",\"items\":["@).len() + (crate::json::comma_join(item_parts(m.items))).len() + ("],\"plannedHomePosition\":"@).len() + (crate::json::latlonalt_json(m.planned_home_position)).len() + (",\"vehicleType\":"@).len() + (crate::json::nat_json(m.vehicle_type as nat)).len() + (",\"version\":"@).len()) == ",\"version\":"@,
        s.subrange(i + ("{\"cruiseSpeed\":"@).len() + (crate::json::nat_json(m.cruise_speed as nat)).len() + (",\"firmwareType\":"@).len() + (crate::json::nat_json(m.firmware_type as nat)).len() + (",\"globalPlanAltitudeMode\":"@).len() + (crate::json::nat_json(m.global_plan_altitude_mode as nat)).len() + (",\"hoverSpeed\":"@).len() + (crate::json::nat_json(m.hover_speed as nat)).len() + (",\"items\":["@).len() + (crate::json::comma_join(item_parts(m.items))).len() + ("],\"plannedHomePosition\":"@).len() + (crate::json::latlonalt_json(m.planned_home_position)).len() + (",\"vehicleType\":"@).len() + (crate::json::nat_json(m.vehicle_type as nat)).len() + (",\"version\":"@).len(), i + ("{\"cruiseSpeed\":"@).len() + (crate::json::nat_json(m.cruise_speed as nat)).len() + (",\"firmwareType\":"@).len() + (crate::json::nat_json(m.firmware_type as nat)).len() + (",\"globalPlanAltitudeMode\":"@).len() + (crate::json::nat_json(m.global_plan_altitude_mode as nat)).len() + (",\"hoverSpeed\":"@).len() + (crate::json::nat_json(m.hover_speed as nat)).len() + (",\"items\":["@).len() + (crate::json::comma_join(item_parts(m.items))).len() + ("],\"plannedHomePosition\":"@).len() + (crate::json::latlonalt_json(m.planned_home_position)).len() + (",\"vehicleType\":"@).len() + (crate::json::nat_json(m.vehicle_type as nat)).len() + (",\"version\":"@).len() + (crate::json::nat_json(m.version as nat)).len()) == crate::json::nat_json(m.version as nat),
        s.subrange(i + ("{\"cruiseSpeed\":"@).len() + (crate::json::nat_json(m.cruise_speed as nat)).len() + (",\"firmwareType\":"@).len() + (crate::json::nat_json(m.firmware_type as nat)).len() + (",\"globalPlanAltitudeMode\":"@).len() + (crate::json::nat_json(m.global_plan_altitude_mode as nat)).len() + (",\"hoverSpeed\":"@).len() + (crate::json::nat_json(m.hover_speed as nat)).len() + (",\"items\":["@).len() + (crate::json::comma_join(item_parts(m.items))).len() + ("],\"plannedHomePosition\":"@).len() + (crate::json::latlonalt_json(m.planned_home_position)).len() + (",\"vehicleType\":"@).len() + (crate::json::nat_json(m.vehicle_type as nat)).len() + (",\"version\":"@).len() + (crate::json::nat_json(m.version as nat)).len(), i + ("{\"cruiseSpeed\":"@).len() + (crate::json::nat_json(m.cruise_speed as nat)).len() + (",\"firmwareType\":"@).len() + (crate::json::nat_json(m.firmware_type as nat)).len() + (",\"globalPlanAltitudeMode\":"@).len() + (crate::json::nat_json(m.global_plan_altitude_mode as nat)).len() + (",\"hoverSpeed\":"@).len() + (crate::json::nat_json(m.hover_speed as nat)).len() + (",\"items\":["@).len() + (crate::json::comma_join(item_parts(m.items))).len() + ("],\"plannedHomePosition\":"@).len() + (crate::json::latlonalt_json(m.planned_home_position)).len() + (",\"vehicleType\":"@).len() + (crate::json::nat_json(m.vehicle_type as nat)).len() + (",\"version\":"@).len() + (crate::json::nat_json(m.version as nat)).len() + ("}"@).len()) == "}"@,
{
    let d = crate::json::mission_json(m);
    assert(Seq::new(m.items.len(), |q: int| crate::json::item_json(m.items[q])) =~= item_parts(m.items));
    assert(d == "{\"cruiseSpeed\":"@ + crate::json::nat_json(m.cruise_speed as nat) + ",\"firmwareType\":"@ + crate::json::nat_json(m.firmware_type as nat) + ",\"globalPlanAltitudeMode\":"@ + crate::json::nat_json(m.global_plan_altitude_mode as nat) + ",\"hoverSpeed\":"@ + crate::json::nat_json(m.hover_speed as nat) + ",\"items\":["@ + crate::json::comma_join(item_parts(m.items)) + "],\"plannedHomePosition\":"@ + crate::json::latlonalt_json(m.planned_home_position) + ",\"vehicleType\":"@ + crate::json::nat_json(m.vehicle_type as nat) + ",\"version\":"@ + crate::json::nat_json(m.version as nat) + "}"@);
    lemma_split(s, i, "{\"cruiseSpeed\":"@ + crate::json::nat_json(m.cruise_speed as nat) + ",\"firmwareType\":"@ + crate::json::nat_json(m.firmware_type as nat) + ",\"globalPlanAltitudeMode\":"@ + crate::json::nat_json(m.global_plan_altitude_mode as nat) + ",\"hoverSpeed\":"@ + crate::json::nat_json(m.hover_speed as nat) + ",\"items\":["@ + crate::json::comma_join(item_parts(m.items)) + "],\"plannedHomePosition\":"@ + crate::json::latlonalt_json(m.planned_home_position) + ",\"vehicleType\":"@ + crate::json::nat_json(m.vehicle_type as nat) + ",\"version\":"@ + crate::json::nat_json(m.version as nat), "}"@);
    lemma_split(s, i, "{\"cruiseSpeed\":"@ + crate::json::nat_json(m.cruise_speed as nat) + ",\"firmwareType\":"@ + crate::json::nat_json(m.firmware_type as nat) + ",\"globalPlanAltitudeMode\":"@ + crate::json::nat_json(m.global_plan_altitude_mode as nat) + ",\"hoverSpeed\":"@ + crate::json::nat_json(m.hover_speed as nat) + ",\"items\":["@ + crate::json::comma_join(item_parts(m.items)) + "],\"plannedHomePosition\":"@ + crate::json::latlonalt_json(m.planned_home_position) + ",\"vehicleType\":"@ + crate::json::nat_json(m.vehicle_type as nat) + ",\"version\":"@, crate::json::nat_json(m.version as nat));
    lemma_split(s, i, "{\"cruiseSpeed\":"@ + crate::json::nat_json(m.cruise_speed as nat) + ",\"firmwareType\":"@ + crate::json::nat_json(m.firmware_type as nat) + ",\"globalPlanAltitudeMode\":"@ + crate::json::nat_json(m.global_plan_altitude_mode as nat) + ",\"hoverSpeed\":"@ + crate::json::nat_json(m.hover_speed as nat) + ",\"items\":["@ + crate::json::comma_join(item_parts(m.items)) + "],\"plannedHomePosition\":"@ + crate::json::latlonalt_json(m.planned_home_position) + ",\"vehicleType\":"@ + crate::json::nat_json(m.vehicle_type as nat), ",\"version\":"@);
    lemma_split(s, i, "{\"cruiseSpeed\":"@ + crate::json::nat_json(m.cruise_speed as nat) + ",\"firmwareType\":"@ + crate::json::nat_json(m.firmware_type as nat) + ",\"globalPlanAltitudeMode\":"@ + crate::json::nat_json(m.global_plan_altitude_mode as nat) + ",\"hoverSpeed\":"@ + crate::json::nat_json(m.hover_speed as nat) + ",\"items\":["@ + crate::json::comma_join(item_parts(m.items)) + "],\"plannedHomePosition\":"@ + crate::json::latlonalt_json(m.planned_home_position) + ",\"vehicleType\":"@, crate::json::nat_json(m.vehicle_type as nat));
    lemma_split(s, i, "{\"cruiseSpeed\":"@ + crate::json::nat_json(m.cruise_speed as nat) + ",\"firmwareType\":"@ + crate::json::nat_json(m.firmware_type as nat) + ",\"globalPlanAltitudeMode\":"@ + crate::json::nat_json(m.global_plan_altitude_mode as nat) + ",\"hoverSpeed\":"@ + crate::json::nat_json(m.hover_speed as nat) + ",\"items\":["@ + crate::json::comma_join(item_parts(m.items)) + "],\"plannedHomePosition\":"@ + crate::json::latlonalt_json(m.planned_home_position), ",\"vehicleType\":"@);
    lemma_split(s, i, "{\"cruiseSpeed\":"@ + crate::json::nat_json(m.cruise_speed as nat) + ",\"firmwareType\":"@ + crate::json::nat_json(m.firmware_type as nat) + ",\"globalPlanAltitudeMode\":"@ + crate::json::nat_json(m.global_plan_altitude_mode as nat) + ",\"hoverSpeed\":"@ + crate::json::nat_json(m.hover_speed as nat) + ",\"items\":["@ + crate::json::comma_join(item_parts(m.items)) + "],\"plannedHomePosition\":"@, crate::json::latlonalt_json(m.planned_home_position));
    lemma_split(s, i, "{\"cruiseSpeed\":"@ + crate::json::nat_json(m.cruise_speed as nat) + ",\"firmwareType\":"@ + crate::json::nat_json(m.firmware_type as nat) + ",\"globalPlanAltitudeMode\":"@ + crate::json::nat_json(m.global_plan_altitude_mode as nat) + ",\"hoverSpeed\":"@ + crate::json::nat_json(m.hover_speed as nat) + ",\"items\":["@ + crate::json::comma_join(item_parts(m.items)), "],\"plannedHomePosition\":"@);
    lemma_split(s, i, "{\"cruiseSpeed\":"@ + crate::json::nat_json(m.cruise_speed as nat) + ",\"firmwareType\":"@ + crate::json::nat_json(m.firmware_type as nat) + ",\"globalPlanAltitudeMode\":"@ + crate::json::nat_json(m.global_plan_altitude_mode as nat) + ",\"hoverSpeed\":"@ + crate::json::nat_json(m.hover_speed as nat) + ",\"items\":["@, crate::json::comma_join(item_parts(m.items)));
    lemma_split(s, i, "{\"cruiseSpeed\":"@ + crate::json::nat_json(m.cruise_speed as nat) + ",\"firmwareType\":"@ + crate::json::nat_json(m.firmware_type as nat) + ",\"globalPlanAltitudeMode\":"@ + crate::json::nat_json(m.global_plan_altitude_mode as nat) + ",\"hoverSpeed\":"@ + crate::json::nat_json(m.hover_speed as nat), ",\"items\":["@);
    lemma_split(s, i, "{\"cruiseSpeed\":"@ + crate::json::nat_json(m.cruise_speed as nat) + ",\"firmwareType\":"@ + crate::json::nat_json(m.firmware_type as nat) + ",\"globalPlanAltitudeMode\":"@ + crate::json::nat_json(m.global_plan_altitude_mode as nat) + ",\"hoverSpeed\":"@, crate::json::nat_json(m.hover_speed as nat));
    lemma_split(s, i, "{\"cruiseSpeed\":"@ + crate::json::nat_json(m.cruise_speed as nat) + ",\"firmwareType\":"@ + crate::json::nat_json(m.firmware_type as nat) + ",\"globalPlanAltitudeMode\":"@ + crate::json::nat_json(m.global_plan_altitude_mode as nat), ",\"hoverSpeed\":"@);
    lemma_split(s, i, "{\"cruiseSpeed\":"@ + crate::json::nat_json(m.cruise_speed as nat) + ",\"firmwareType\":"@ + crate::json::nat_json(m.firmware_type as nat) + ",\"globalPlanAltitudeMode\":"@, crate::json::nat_json(m.global_plan_altitude_mode as nat));
    lemma_split(s, i, "{\"cruiseSpeed\":"@ + crate::json::nat_json(m.cruise_speed as nat) + ",\"firmwareType\":"@ + crate::json::nat_json(m.firmware_type as nat), ",\"globalPlanAltitudeMode\":"@);
    lemma_split(s, i, "{\"cruiseSpeed\":"@ + crate::json::nat_json(m.cruise_speed as nat) + ",\"firmwareType\":"@, crate::json::nat_json(m.firmware_type as nat));
    lemma_split(s, i, "{\"cruiseSpeed\":"@ + crate::json::nat_json(m.cruise_speed as nat), ",\"firmwareType\":"@);
    lemma_split(s, i, "{\"cruiseSpeed\":"@, crate::json::nat_json(m.cruise_speed as nat));
}

/// The parser steps of the mission block's front half each succeed at
/// their offsets.
#[verifier::rlimit(100)]
proof fn lemma_p_mission_steps_a(s: Seq<char>, i: int, m: MissionModel)
    requires
        0 <= i,
        i + crate::json::mission_json(m).len() <= s.len(),
        s.subrange(i, i + crate::json::mission_json(m).len()) == crate::json::mission_json(m),
    ensures
        ({
            let o0 = i;
            let o1 = o0 + ("{\"cruiseSpeed\":"@).len();
            let o2 = o1 + (crate::json::nat_json(m.cruise_speed as nat)).len();
            let o3 = o2 + (",\"firmwareType\":"@).len();
            let o4 = o3 + (crate::json::nat_json(m.firmware_type as nat)).len();
            let o5 = o4 + (",\"globalPlanAltitudeMode\":"@).len();
            let o6 = o5 + (crate::json::nat_json(m.global_plan_altitude_mode as nat)).len();
            let o7 = o6 + (",\"hoverSpeed\":"@).len();
            let o8 = o7 + (crate::json::nat_json(m.hover_speed as nat)).len();
            let o9 = o8 + (",\"items\":["@).len();
            let o10 = o9 + (crate::json::comma_join(item_parts(m.items))).len();
            &&& p_lit(s, o0, "{\"cruiseSpeed\":"@) == Some(o1)
            &&& p_nat(s, o1) == Some((m.cruise_speed as int, o2))
            &&& p_lit(s, o2, ",\"firmwareType\":"@) == Some(o3)
            &&& p_nat(s, o3) == Some((m.firmware_type as int, o4))
            &&& p_lit(s, o4, ",\"globalPlanAltitudeMode\":"@) == Some(o5)
            &&& p_nat(s, o5) == Some((m.global_plan_altitude_mode as int, o6))
            &&& p_lit(s, o6, ",\"hoverSpeed\":"@) == Some(o7)
            &&& p_nat(s, o7) == Some((m.hover_speed as int, o8))
            &&& p_lit(s, o8, ",\"items\":["@) == Some(o9)
            &&& p_items_list(s, o9) == Some((m.items, o10 + 1))
        }),
{
    reveal_strlit("{\"cruiseSpeed\":");
    reveal_strlit(",\"firmwareType\":");
    reveal_strlit(",\"globalPlanAltitudeMode\":");
    reveal_strlit(",\"hoverSpeed\":");
    reveal_strlit(",\"items\":[");
    reveal_strlit("],\"plannedHomePosition\":");
    reveal_strlit("]");
    lemma_p_mission_pieces(s, i, m);
    let o0 = i;
    let o1 = o0 + ("{\"cruiseSpeed\":"@).len();
    let o2 = o1 + (crate::json::nat_json(m.cruise_speed as nat)).len();
    let o3 = o2 + (",\"firmwareType\":"@).len();
    let o4 = o3 + (crate::json::nat_json(m.firmware_type as nat)).len();
    let o5 = o4 + (",\"globalPlanAltitudeMode\":"@).len();
    let o6 = o5 + (crate::json::nat_json(m.global_plan_altitude_mode as nat)).len();
    let o7 = o6 + (",\"hoverSpeed\":"@).len();
    let o8 = o7 + (crate::json::nat_json(m.hover_speed as nat)).len();
    let o9 = o8 + (",\"items\":["@).len();
    let o10 = o9 + (crate::json::comma_join(item_parts(m.items))).len();
    let o11 = o10 + ("],\"plannedHomePosition\":"@).len();
    lemma_p_lit_at(s, o0, "{\"cruiseSpeed\":"@);
    assert(!is_digit(s[o2])) by {
        assert(s.subrange(o2, o3)[0] == ",\"firmwareType\":"@[0]);
    }
    lemma_small_nat_digits(m.cruise_speed as nat);
    lemma_p_nat_inverts(s, o1, m.cruise_speed as nat);
    lemma_p_lit_at(s, o2, ",\"firmwareType\":"@);
    assert(!is_digit(s[o4])) by {
        assert(s.subrange(o4, o5)[0] == ",\"globalPlanAltitudeMode\":"@[0]);
    }
    lemma_small_nat_digits(m.firmware_type as nat);
    lemma_p_nat_inverts(s, o3, m.firmware_type as nat);
    lemma_p_lit_at(s, o4, ",\"globalPlanAltitudeMode\":"@);
    assert(!is_digit(s[o6])) by {
        assert(s.subrange(o6, o7)[0] == ",\"hoverSpeed\":"@[0]);
    }
    lemma_small_nat_digits(m.global_plan_altitude_mode as nat);
    lemma_p_nat_inverts(s, o5, m.global_plan_altitude_mode as nat);
    lemma_p_lit_at(s, o6, ",\"hoverSpeed\":"@);
    assert(!is_digit(s[o8])) by {
        assert(s.subrange(o8, o9)[0] == ",\"items\":["@[0]);
    }
    lemma_small_nat_digits(m.hover_speed as nat);
    lemma_p_nat_inverts(s, o7, m.hover_speed as nat);
    lemma_p_lit_at(s, o8, ",\"items\":["@);
    assert(s[o10] == ']') by {
        assert(s.subrange(o10, o11)[0] == "],\"plannedHomePosition\":"@[0]);
    }
    assert(s.subrange(o10, o10 + 1) =~= "]"@) by {
        assert(s.subrange(o10, o10 + 1)[0] == s[o10]);
    }
    lemma_join(s, o9, crate::json::comma_join(item_parts(m.items)), "]"@);
    lemma_p_items_list_inverts(s, o9, m.items);
}

/// The parser steps of the mission block's back half each succeed at
/// their offsets.
#[verifier::rlimit(100)]
proof fn lemma_p_mission_steps_b(s: Seq<char>, i: int, m: MissionModel)
    requires
        0 <= i,
        i + crate::json::mission_json(m).len() <= s.len(),
        s.subrange(i, i + crate::json::mission_json(m).len()) == crate::json::mission_json(m),
    ensures
        ({
            let o0 = i;
            let o1 = o0 + ("{\"cruiseSpeed\":"@).len();
            let o2 = o1 + (crate::json::nat_json(m.cruise_speed as nat)).len();
            let o3 = o2 + (",\"firmwareType\":"@).len();
            let o4 = o3 + (crate::json::nat_json(m.firmware_type as nat)).len();
            let o5 = o4 + (",\"globalPlanAltitudeMode\":"@).len();
            let o6 = o5 + (crate::json::nat_json(m.global_plan_altitude_mode as nat)).len();
            let o7 = o6 + (",\"hoverSpeed\":"@).len();
            let o8 = o7 + (crate::json::nat_json(m.hover_speed as nat)).len();
            let o9 = o8 + (",\"items\":["@).len();
            let o10 = o9 + (crate::json::comma_join(item_parts(m.items))).len();
            let o11 = o10 + ("],\"plannedHomePosition\":"@).len();
            let o12 = o11 + (crate::json::latlonalt_json(m.planned_home_position)).len();
            let o13 = o12 + (",\"vehicleType\":"@).len();
            let o14 = o13 + (crate::json::nat_json(m.vehicle_type as nat)).len();
            let o15 = o14 + (",\"version\":"@).len();
            let o16 = o15 + (crate::json::nat_json(m.version as nat)).len();
            let o17 = o16 + ("}"@).len();
            &&& p_lit(s, o10 + 1, ",\"plannedHomePosition\":"@) == Some(o11)
            &&& p_latlonalt(s, o11) == Some((m.planned_home_position, o12))
            &&& p_lit(s, o12, ",\"vehicleType\":"@) == Some(o13)
            &&& p_nat(s, o13) == Some((m.vehicle_type as int, o14))
            &&& p_lit(s, o14, ",\"version\":"@) == Some(o15)
            &&& p_nat(s, o15) == Some((m.version as int, o16))
            &&& p_lit(s, o16, "}"@) == Some(o17)
            &&& o17 == i + crate::json::mission_json(m).len()
        }),
{
    reveal_strlit("],\"plannedHomePosition\":");
    reveal_strlit(",\"plannedHomePosition\":");
    reveal_strlit(",\"vehicleType\":");
    reveal_strlit(",\"version\":");
    reveal_strlit("}");
    reveal_strlit("]");
    lemma_p_mission_pieces(s, i, m);
    let o0 = i;
    let o1 = o0 + ("{\"cruiseSpeed\":"@).len();
    let o2 = o1 + (crate::json::nat_json(m.cruise_speed as nat)).len();
    let o3 = o2 + (",\"firmwareType\":"@).len();
    let o4 = o3 + (crate::json::nat_json(m.firmware_type as nat)).len();
    let o5 = o4 + (",\"globalPlanAltitudeMode\":"@).len();
    let o6 = o5 + (crate::json::nat_json(m.global_plan_altitude_mode as nat)).len();
    let o7 = o6 + (",\"hoverSpeed\":"@).len();
    let o8 = o7 + (crate::json::nat_json(m.hover_speed as nat)).len();
    let o9 = o8 + (",\"items\":["@).len();
    let o10 = o9 + (crate::json::comma_join(item_parts(m.items))).len();
    let o11 = o10 + ("],\"plannedHomePosition\":"@).len();
    let o12 = o11 + (crate::json::latlonalt_json(m.planned_home_position)).len();
    let o13 = o12 + (",\"vehicleType\":"@).len();
    let o14 = o13 + (crate::json::nat_json(m.vehicle_type as nat)).len();
    let o15 = o14 + (",\"version\":"@).len();
    let o16 = o15 + (crate::json::nat_json(m.version as nat)).len();
    let o17 = o16 + ("}"@).len();
    assert("],\"plannedHomePosition\":"@ =~= "]"@ + ",\"plannedHomePosition\":"@);
    lemma_split(s, o10, "]"@, ",\"plannedHomePosition\":"@);
    lemma_p_lit_at(s, o10 + 1, ",\"plannedHomePosition\":"@);
    lemma_p_latlonalt_inverts(s, o11, m.planned_home_position);
    lemma_p_lit_at(s, o12, ",\"vehicleType\":"@);
    assert(!is_digit(s[o14])) by {
        assert(s.subrange(o14, o15)[0] == ",\"version\":"@[0]);
    }
    lemma_small_nat_digits(m.vehicle_type as nat);
    lemma_p_nat_inverts(s, o13, m.vehicle_type as nat);
    lemma_p_lit_at(s, o14, ",\"version\":"@);
    assert(!is_digit(s[o16])) by {
        assert(s.subrange(o16, o17)[0] == "}"@[0]);
    }
    lemma_small_nat_digits(m.version as nat);
    lemma_p_nat_inverts(s, o15, m.version as nat);
    lemma_p_lit_at(s, o16, "}"@);
}

/// Parsing the mission block at its own rendering yields it back.
#[verifier::rlimit(100)]
proof fn lemma_p_mission_inverts(s: Seq<char>, i: int, m: MissionModel)
    requires
        0 <= i,
        i + crate::json::mission_json(m).len() <= s.len(),
        s.subrange(i, i + crate::json::mission_json(m).len()) == crate::json::mission_json(m),
    ensures
        p_mission(s, i) == Some((m, i + crate::json::mission_json(m).len())),
{
    lemma_p_mission_steps_a(s, i, m);
    lemma_p_mission_steps_b(s, i, m);
    let o0 = i;
    let o1 = o0 + ("{\"cruiseSpeed\":"@).len();
    let o2 = o1 + (crate::json::nat_json(m.cruise_speed as nat)).len();
    let o3 = o2 + (",\"firmwareType\":"@).len();
    let o4 = o3 + (crate::json::nat_json(m.firmware_type as nat)).len();
    let o5 = o4 + (",\"globalPlanAltitudeMode\":"@).len();
    let o6 = o5 + (crate::json::nat_json(m.global_plan_altitude_mode as nat)).len();
    let o7 = o6 + (",\"hoverSpeed\":"@).len();
    let o8 = o7 + (crate::json::nat_json(m.hover_speed as nat)).len();
    let o9 = o8 + (",\"items\":["@).len();
    let o10 = o9 + (crate::json::comma_join(item_parts(m.items))).len();
    let o11 = o10 + ("],\"plannedHomePosition\":"@).len();
    let o12 = o11 + (crate::json::latlonalt_json(m.planned_home_position)).len();
    let o13 = o12 + (",\"vehicleType\":"@).len();
    let o14 = o13 + (crate::json::nat_json(m.vehicle_type as nat)).len();
    let o15 = o14 + (",\"version\":"@).len();
    let o16 = o15 + (crate::json::nat_json(m.version as nat)).len();
    let o17 = o16 + ("}"@).len();
    assert(p_mission(s, i) == Some((m, i + crate::json::mission_json(m).len())));
}



/// The rendered pieces of this structure stand at their offsets.
#[verifier::rlimit(100)]
proof fn lemma_p_plan_pieces(s: Seq<char>, i: int, p: PlanModel)
    requires
        0 <= i,
        i + crate::json::plan_json(p).len() <= s.len(),
        s.subrange(i, i + crate::json::plan_json(p).len()) == crate::json::plan_json(p),
    ensures
        i + ("{\"fileType\":\""@).len() + (p.file_type).len() + ("\",\"geoFence\":"@).len() + (crate::json::geofence_json(p.geo_fence)).len() + (",\"groundStation\":\""@).len() + (p.ground_station).len() + ("\",\"mission\":"@).len() + (crate::json::mission_json(p.mission)).len() + (",\"rallyPoints\":"@).len() + (crate::json::rally_json(p.rally_points)).len() + (",\"version\":"@).len() + (crate::json::nat_json(p.version as nat)).len() + ("}"@).len() == i + crate::json::plan_json(p).len(),
        s.subrange(i, i + ("{\"fileType\":\""@).len()) == "{\"fileType\":\""@,
        s.subrange(i + ("{\"fileType\":\""@).len(), i + ("{\"fileType\":\""@).len() + (p.file_type).len()) == p.file_type,
        s.subrange(i + ("{\"fileType\":\""@).len() + (p.file_type).len(), i + ("{\"fileType\":\""@).len() + (p.file_type).len() + ("\",\"geoFence\":"@).len()) == "\",\"geoFence\":"@,
        s.subrange(i + ("{\"fileType\":\""@).len() + (p.file_type).len() + ("\",\"geoFence\":"@).len(), i + ("{\"fileType\":\""@).len() + (p.file_type).len() + ("\",\"geoFence\":"@).len() + (crate::json::geofence_json(p.geo_fence)).len()) == crate::json::geofence_json(p.geo_fence),
        s.subrange(i + ("{\"fileType\":\""@).len() + (p.file_type).len() + ("\",\"geoFence\":"@).len() + (crate::json::geofence_json(p.geo_fence)).len(), i + ("{\"fileType\":\""@).len() + (p.file_type).len() + ("\",\"geoFence\":"@).len() + (crate::json::geofence_json(p.geo_fence)).len() + (",\"groundStation\":\""@).len()) == ",\"groundStation\":\""@,
        s.subrange(i + ("{\"fileType\":\""@).len() + (p.file_type).len() + ("\",\"geoFence\":"@).len() + (crate::json::geofence_json(p.geo_fence)).len() + (",\"groundStation\":\""@).len(), i + ("{\"fileType\":\""@).len() + (p.file_type).len() + ("\",\"geoFence\":"@).len() + (crate::json::geofence_json(p.geo_fence)).len() + (",\"groundStation\":\""@).len() + (p.ground_station).len()) == p.ground_station,
        s.subrange(i + ("{\"fileType\":\""@).len() + (p.file_type).len() + ("\",\"geoFence\":"@).len() + (crate::json::geofence_json(p.geo_fence)).len() + (",\"groundStation\":\""@).len() + (p.ground_station).len(), i + ("{\"fileType\":\""@).len() + (p.file_type).len() + ("\",\"geoFence\":"@).len() + (crate::json::geofence_json(p.geo_fence)).len() + (",\"groundStation\":\""@).len() + (p.ground_station).len() + ("\",\"mission\":"@).len()) == "\",\"mission\":"@,
        s.subrange(i + ("{\"fileType\":\""@).len() + (p.file_type).len() + ("\",\"geoFence\":"@).len() + (crate::json::geofence_json(p.geo_fence)).len() + (",\"groundStation\":\""@).len() + (p.ground_station).len() + ("\",\"mission\":"@).len(), i + ("{\"fileType\":\""@).len() + (p.file_type).len() + ("\",\"geoFence\":"@).len() + (crate::json::geofence_json(p.geo_fence)).len() + (",\"groundStation\":\""@).len() + (p.ground_station).len() + ("\",\"mission\":"@).len() + (crate::json::mission_json(p.mission)).len()) == crate::json::mission_json(p.mission),
        s.subrange(i + ("{\"fileType\":\""@).len() + (p.file_type).len() + ("\",\"geoFence\":"@).len() + (crate::json::geofence_json(p.geo_fence)).len() + (",\"groundStation\":\""@).len() + (p.ground_station).len() + ("\",\"mission\":"@).len() + (crate::json::mission_json(p.mission)).len(), i + ("{\"fileType\":\""@).len() + (p.file_type).len() + ("\",\"geoFence\":"@).len() + (crate::json::geofence_json(p.geo_fence)).len() + (",\"groundStation\":\""@).len() + (p.ground_station).len() + ("\",\"mission\":"@).len() + (crate::json::mission_json(p.mission)).len() + (",\"rallyPoints\":"@).len()) == ",\"rallyPoints\":"@,
        s.subrange(i + ("{\"fileType\":\""@).len() + (p.file_type).len() + ("\",\"geoFence\":"@).len() + (crate::json::geofence_json(p.geo_fence)).len() + (",\"groundStation\":\""@).len() + (p.ground_station).len() + ("\",\"mission\":"@).len() + (crate::json::mission_json(p.mission)).len() + (",\"rallyPoints\":"@).len(), i + ("{\"fileType\":\""@).len() + (p.file_type).len() + ("\",\"geoFence\":"@).len() + (crate::json::geofence_json(p.geo_fence)).len() + (",\"groundStation\":\""@).len() + (p.ground_station).len() + ("\",\"mission\":"@).len() + (crate::json::mission_json(p.mission)).len() + (",\"rallyPoints\":"@).len() + (crate::json::rally_json(p.rally_points)).len()) == crate::json::rally_json(p.rally_points),
        s.subrange(i + ("{\"fileType\":\""@).len() + (p.file_type).len() + ("\",\"geoFence\":"@).len() + (crate::json::geofence_json(p.geo_fence)).len() + (",\"groundStation\":\""@).len() + (p.ground_station).len() + ("\",\"mission\":"@).len() + (crate::json::mission_json(p.mission)).len() + (",\"rallyPoints\":"@).len() + (crate::json::rally_json(p.rally_points)).len(), i + ("{\"fileType\":\""@).len() + (p.file_type).len() + ("\",\"geoFence\":"@).len() + (crate::json::geofence_json(p.geo_fence)).len() + (",\"groundStation\":\""@).len() + (p.ground_station).len() + ("\",\"mission\":"@).len() + (crate::json::mission_json(p.mission)).len() + (",\"rallyPoints\":"@).len() + (crate::json::rally_json(p.rally_points)).len() + (",\"version\":"@).len()) == ",\"version\":"@,
        s.subrange(i + ("{\"fileType\":\""@).len() + (p.file_type).len() + ("\",\"geoFence\":"@).len() + (crate::json::geofence_json(p.geo_fence)).len() + (",\"groundStation\":\""@).len() + (p.ground_station).len() + ("\",\"mission\":"@).len() + (crate::json::mission_json(p.mission)).len() + (",\"rallyPoints\":"@).len() + (crate::json::rally_json(p.rally_points)).len() + (",\"version\":"@).len(), i + ("{\"fileType\":\""@).len() + (p.file_type).len() + ("\",\"geoFence\":"@).len() + (crate::json::geofence_json(p.geo_fence)).len() + (",\"groundStation\":\""@).len() + (p.ground_station).len() + ("\",\"mission\":"@).len() + (crate::json::mission_json(p.mission)).len() + (",\"rallyPoints\":"@).len() + (crate::json::rally_json(p.rally_points)).len() + (",\"version\":"@).len() + (crate::json::nat_json(p.version as nat)).len()) == crate::json::nat_json(p.version as nat),
        s.subrange(i + ("{\"fileType\":\""@).len() + (p.file_type).len() + ("\",\"geoFence\":"@).len() + (crate::json::geofence_json(p.geo_fence)).len() + (",\"groundStation\":\""@).len() + (p.ground_station).len() + ("\",\"mission\":"@).len() + (crate::json::mission_json(p.mission)).len() + (",\"rallyPoints\":"@).len() + (crate::json::rally_json(p.rally_points)).len() + (",\"version\":"@).len() + (crate::json::nat_json(p.version as nat)).len(), i + ("{\"fileType\":\""@).len() + (p.file_type).len() + ("\",\"geoFence\":"@).len() + (crate::json::geofence_json(p.geo_fence)).len() + (",\"groundStation\":\""@).len() + (p.ground_station).len() + ("\",\"mission\":"@).len() + (crate::json::mission_json(p.mission)).len() + (",\"rallyPoints\":"@).len() + (crate::json::rally_json(p.rally_points)).len() + (",\"version\":"@).len() + (crate::json::nat_json(p.version as nat)).len() + ("}"@).len()) == "}"@,
{
    let d = crate::json::plan_json(p);
    assert(d == "{\"fileType\":\""@ + p.file_type + "\",\"geoFence\":"@ + crate::json::geofence_json(p.geo_fence) + ",\"groundStation\":\""@ + p.ground_station + "\",\"mission\":"@ + crate::json::mission_json(p.mission) + ",\"rallyPoints\":"@ + crate::json::rally_json(p.rally_points) + ",\"version\":"@ + crate::json::nat_json(p.version as nat) + "}"@);
    lemma_split(s, i, "{\"fileType\":\""@ + p.file_type + "\",\"geoFence\":"@ + crate::json::geofence_json(p.geo_fence) + ",\"groundStation\":\""@ + p.ground_station + "\",\"mission\":"@ + crate::json::mission_json(p.mission) + ",\"rallyPoints\":"@ + crate::json::rally_json(p.rally_points) + ",\"version\":"@ + crate::json::nat_json(p.version as nat), "}"@);
    lemma_split(s, i, "{\"fileType\":\""@ + p.file_type + "\",\"geoFence\":"@ + crate::json::geofence_json(p.geo_fence) + ",\"groundStation\":\""@ + p.ground_station + "\",\"mission\":"@ + crate::json::mission_json(p.mission) + ",\"rallyPoints\":"@ + crate::json::rally_json(p.rally_points) + ",\"version\":"@, crate::json::nat_json(p.version as nat));
    lemma_split(s, i, "{\"fileType\":\""@ + p.file_type + "\",\"geoFence\":"@ + crate::json::geofence_json(p.geo_fence) + ",\"groundStation\":\""@ + p.ground_station + "\",\"mission\":"@ + crate::json::mission_json(p.mission) + ",\"rallyPoints\":"@ + crate::json::rally_json(p.rally_points), ",\"version\":"@);
    lemma_split(s, i, "{\"fileType\":\""@ + p.file_type + "\",\"geoFence\":"@ + crate::json::geofence_json(p.geo_fence) + ",\"groundStation\":\""@ + p.ground_station + "\",\"mission\":"@ + crate::json::mission_json(p.mission) + ",\"rallyPoints\":"@, crate::json::rally_json(p.rally_points));
    lemma_split(s, i, "{\"fileType\":\""@ + p.file_type + "\",\"geoFence\":"@ + crate::json::geofence_json(p.geo_fence) + ",\"groundStation\":\""@ + p.ground_station + "\",\"mission\":"@ + crate::json::mission_json(p.mission), ",\"rallyPoints\":"@);
    lemma_split(s, i, "{\"fileType\":\""@ + p.file_type + "\",\"geoFence\":"@ + crate::json::geofence_json(p.geo_fence) + ",\"groundStation\":\""@ + p.ground_station + "\",\"mission\":"@, crate::json::mission_json(p.mission));
    lemma_split(s, i, "{\"fileType\":\""@ + p.file_type + "\",\"geoFence\":"@ + crate::json::geofence_json(p.geo_fence) + ",\"groundStation\":\""@ + p.ground_station, "\",\"mission\":"@);
    lemma_split(s, i, "{\"fileType\":\""@ + p.file_type + "\",\"geoFence\":"@ + crate::json::geofence_json(p.geo_fence) + ",\"groundStation\":\""@, p.ground_station);
    lemma_split(s, i, "{\"fileType\":\""@ + p.file_type + "\",\"geoFence\":"@ + crate::json::geofence_json(p.geo_fence), ",\"groundStation\":\""@);
    lemma_split(s, i, "{\"fileType\":\""@ + p.file_type + "\",\"geoFence\":"@, crate::json::geofence_json(p.geo_fence));
    lemma_split(s, i, "{\"fileType\":\""@ + p.file_type, "\",\"geoFence\":"@);
    lemma_split(s, i, "{\"fileType\":\""@, p.file_type);
}

#[verifier::rlimit(100)]
proof fn lemma_p_plan_inverts(s: Seq<char>, p: PlanModel)
    requires
        s == crate::json::plan_json(p),
        forall|k: int| 0 <= k < p.file_type.len() ==> #[trigger] p.file_type[k] != '"',
        forall|k: int| 0 <= k < p.ground_station.len() ==> #[trigger] p.ground_station[k] != '"',
    ensures
        p_plan(s) == Some(p),
{
    let i: int = 0;
    assert(s.subrange(i, i + crate::json::plan_json(p).len()) =~= crate::json::plan_json(p));
    reveal_strlit(",\"groundStation\":\"");
    reveal_strlit(",\"rallyPoints\":");
    reveal_strlit(",\"version\":");
    reveal_strlit("\",\"geoFence\":");
    reveal_strlit("\",\"mission\":");
    reveal_strlit("{\"fileType\":\"");
    reveal_strlit("}");
    lemma_p_plan_pieces(s, i, p);
    let o0 = i;
    let o1 = o0 + ("{\"fileType\":\""@).len();
    let o2 = o1 + (p.file_type).len();
    let o3 = o2 + ("\",\"geoFence\":"@).len();
    let o4 = o3 + (crate::json::geofence_json(p.geo_fence)).len();
    let o5 = o4 + (",\"groundStation\":\""@).len();
    let o6 = o5 + (p.ground_station).len();
    let o7 = o6 + ("\",\"mission\":"@).len();
    let o8 = o7 + (crate::json::mission_json(p.mission)).len();
    let o9 = o8 + (",\"rallyPoints\":"@).len();
    let o10 = o9 + (crate::json::rally_json(p.rally_points)).len();
    let o11 = o10 + (",\"version\":"@).len();
    let o12 = o11 + (crate::json::nat_json(p.version as nat)).len();
    let o13 = o12 + ("}"@).len();
    lemma_p_lit_at(s, o0, "{\"fileType\":\""@);
    assert(s[o2] == '"') by {
        assert(s.subrange(o2, o3)[0] == "\",\"geoFence\":"@[0]);
    }
    lemma_p_string_inverts(s, o1, p.file_type);
    lemma_p_lit_at(s, o2, "\",\"geoFence\":"@);
    lemma_p_geofence_inverts(s, o3, p.geo_fence);
    lemma_p_lit_at(s, o4, ",\"groundStation\":\""@);
    assert(s[o6] == '"') by {
        assert(s.subrange(o6, o7)[0] == "\",\"mission\":"@[0]);
    }
    lemma_p_string_inverts(s, o5, p.ground_station);
    lemma_p_lit_at(s, o6, "\",\"mission\":"@);
    lemma_p_mission_inverts(s, o7, p.mission);
    lemma_p_lit_at(s, o8, ",\"rallyPoints\":"@);
    lemma_p_rally_inverts(s, o9, p.rally_points);
    lemma_p_lit_at(s, o10, ",\"version\":"@);
    assert(!is_digit(s[o12])) by {
        assert(s.subrange(o12, o13)[0] == "}"@[0]);
    }
    lemma_small_nat_digits(p.version as nat);
    lemma_p_nat_inverts(s, o11, p.version as nat);
    lemma_p_lit_at(s, o12, "}"@);
    assert(p_plan(s) == Some(p));
}

/// Whether a document's two string fields can be carried faithfully on
/// the wire: neither holds a quote character.
pub open spec fn plan_strings_wf(p: PlanModel) -> bool {
    (forall|k: int| 0 <= k < p.file_type.len() ==> #[trigger] p.file_type[k] != '"')
        && (forall|k: int|
        0 <= k < p.ground_station.len() ==> #[trigger] p.ground_station[k] != '"')
}

/// Round trip: parsing a rendered mission-plan document reconstructs the
/// document — every item's command code and parameter array, and every
/// other populated field, unchanged.
pub proof fn lemma_plan_round_trip(p: PlanModel)
    requires
        plan_strings_wf(p),
    ensures
        p_plan(crate::json::plan_json(p)) == Some(p),
{
    lemma_p_plan_inverts(crate::json::plan_json(p), p);
}



/// Whether `c` is a decimal digit.
fn is_digit_char(c: char) -> (r: bool)
    ensures
        r == is_digit(c),
{
    let u: u32 = c as u32;
    48 <= u && u <= 57
}

/// Find the end of the digit run starting at `i`.
fn scan_digits(s: &Vec<char>, i: usize) -> (j: usize)
    requires
        i <= s@.len(),
    ensures
        i <= j <= s@.len(),
        j == digit_run_end(s@, i as int),
        forall|t: int| i <= t < j ==> is_digit(#[trigger] s@[t]),
{
    let mut j = i;
    while j < s.len() && is_digit_char(s[j])
        invariant
            i <= j <= s@.len(),
            digit_run_end(s@, i as int) == digit_run_end(s@, j as int),
            forall|t: int| i <= t < j ==> is_digit(#[trigger] s@[t]),
        decreases s@.len() - j,
    {
        j = j + 1;
    }
    j
}

/// Parse the exact literal `lit`.
fn parse_lit(s: &Vec<char>, i: usize, lit: &str) -> (r: Option<usize>)
    requires
        i <= s@.len(),
    ensures
        match r {
            Some(j) => p_lit(s@, i as int, lit@) == Some(j as int) && i <= j <= s@.len(),
            None => p_lit(s@, i as int, lit@) is None,
        },
{
    let n = lit.unicode_len();
    if n > s.len() - i {
        return None;
    }
    for k in 0..n
        invariant
            n == lit@.len(),
            i + n <= s@.len() <= usize::MAX,
            forall|t: int| 0 <= t < k ==> s@[i + t] == lit@[t],
    {
        if s[i + k] != lit.get_char(k) {
            proof {
                assert(s@.subrange(i as int, i as int + lit@.len())[k as int] != lit@[k as int]);
            }
            return None;
        }
    }
    proof {
        assert(s@.subrange(i as int, i as int + lit@.len()) =~= lit@);
    }
    Some(i + n)
}

/// Parse an unsigned integer.
fn parse_nat(s: &Vec<char>, i: usize) -> (r: Option<(u64, usize)>)
    requires
        i <= s@.len(),
    ensures
        match r {
            Some((v, j)) => p_nat(s@, i as int) == Some((v as int, j as int)) && i < j
                <= s@.len(),
            None => p_nat(s@, i as int) is None,
        },
{
    let j = scan_digits(s, i);
    if j == i || j - i > 17 {
        return None;
    }
    if s[i] == '0' && j > i + 1 {
        return None;
    }
    let mut v: u64 = 0;
    let mut t = i;
    proof {
        reveal_with_fuel(pow10, 19);
    }
    while t < j
        invariant
            i <= t <= j <= s@.len(),
            j - i <= 17,
            forall|q: int| i <= q < j ==> is_digit(#[trigger] s@[q]),
            v == run_val(s@, i as int, t as int),
            v < pow10((t - i) as nat),
            pow10(18) == 1000000000000000000,
        decreases j - t,
    {
        let u: u32 = s[t] as u32;
        let d: u64 = (u - 48) as u64;
        proof {
            assert(pow10((t + 1 - i) as nat) == 10 * pow10((t - i) as nat));
            lemma_pow10_mono((t + 1 - i) as nat, 18nat);
        }
        v = v * 10 + d;
        t = t + 1;
    }
    Some((v, j))
}

/// Ten to the power of a larger exponent is no smaller.
proof fn lemma_pow10_mono(a: nat, b: nat)
    requires
        a <= b,
    ensures
        pow10(a) <= pow10(b),
    decreases b,
{
    if a < b {
        lemma_pow10_mono(a, (b - 1) as nat);
        assert(pow10(b) == 10 * pow10((b - 1) as nat));
        assert(pow10((b - 1) as nat) >= 1) by {
            lemma_pow10_pos((b - 1) as nat);
        }
    }
}

/// Ten to any power is positive.
proof fn lemma_pow10_pos(k: nat)
    ensures
        pow10(k) >= 1,
    decreases k,
{
    if k > 0 {
        lemma_pow10_pos((k - 1) as nat);
    }
}

/// Parse a fixed-point decimal.
fn parse_dec(s: &Vec<char>, i: usize) -> (r: Option<(i64, usize)>)
    requires
        i <= s@.len(),
    ensures
        match r {
            Some((v, j)) => p_dec(s@, i as int) == Some((v, j as int)) && i < j <= s@.len(),
            None => p_dec(s@, i as int) is None,
        },
{
    let neg = i < s.len() && s[i] == '-';
    let i1 = if neg {
        i + 1
    } else {
        i
    };
    let (whole, i2) = match parse_nat(s, i1) {
        Some(r) => r,
        None => {
            return None;
        },
    };
    if !(i2 < s.len() && s[i2] == '.') {
        return None;
    }
    let j = scan_digits(s, i2 + 1);
    let flen = j - (i2 + 1);
    if flen < 1 || flen > 7 {
        return None;
    }
    if flen > 1 && s[j - 1] == '0' {
        return None;
    }
    let mut fv: u64 = 0;
    let mut t = i2 + 1;
    proof {
        reveal_with_fuel(pow10, 19);
    }
    while t < j
        invariant
            i2 + 1 <= t <= j <= s@.len(),
            j - (i2 + 1) <= 7,
            forall|q: int| i2 + 1 <= q < j ==> is_digit(#[trigger] s@[q]),
            fv == run_val(s@, i2 + 1, t as int),
            fv < pow10((t - (i2 + 1)) as nat),
            pow10(18) == 1000000000000000000,
        decreases j - t,
    {
        let u: u32 = s[t] as u32;
        let d: u64 = (u - 48) as u64;
        proof {
            assert(pow10((t + 1 - (i2 + 1)) as nat) == 10 * pow10((t - (i2 + 1)) as nat));
            lemma_pow10_mono((t + 1 - (i2 + 1)) as nat, 18nat);
        }
        fv = fv * 10 + d;
        t = t + 1;
    }
    let mut p: u64 = 1;
    let mut e: usize = 0;
    while e < 7 - flen
        invariant
            0 <= e <= 7 - flen <= 6,
            p == pow10(e as nat),
            pow10(18) == 1000000000000000000,
        decreases 7 - flen - e,
    {
        proof {
            assert(pow10((e + 1) as nat) == 10 * pow10(e as nat));
            lemma_pow10_mono((e + 1) as nat, 18nat);
        }
        p = p * 10;
        e = e + 1;
    }
    proof {
        lemma_pow10_mono(flen as nat, 7nat);
        lemma_pow10_mono((7 - flen) as nat, 7nat);
        assert(pow10(7) == 10000000) by {
            reveal_with_fuel(pow10, 8);
        }
        assert(fv < 10000000);
        assert(p <= 10000000);
        assert((fv as int) * (p as int) <= 10000000 * 10000000) by (nonlinear_arith)
            requires
                fv < 10000000,
                p <= 10000000,
        ;
    }
    let vv: u128 = (whole as u128) * 10000000u128 + (fv as u128) * (p as u128);
    proof {
        assert((fv as int) * (p as int) == run_val(s@, i2 + 1, j as int) * pow10(
            (7 - flen) as nat,
        ));
    }
    if neg {
        if vv <= 9223372036854775808u128 {
            let res: i64 = (-(vv as i128)) as i64;
            Some((res, j))
        } else {
            None
        }
    } else {
        if vv <= 9223372036854775807u128 {
            Some((vv as i64, j))
        } else {
            None
        }
    }
}

/// Parse a boolean.
fn parse_bool(s: &Vec<char>, i: usize) -> (r: Option<(bool, usize)>)
    requires
        i <= s@.len(),
    ensures
        match r {
            Some((b, j)) => p_bool(s@, i as int) == Some((b, j as int)) && i < j <= s@.len(),
            None => p_bool(s@, i as int) is None,
        },
{
    proof {
        reveal_strlit("true");
        reveal_strlit("false");
    }
    match parse_lit(s, i, "true") {
        Some(j) => Some((true, j)),
        None => match parse_lit(s, i, "false") {
            Some(j) => Some((false, j)),
            None => None,
        },
    }
}

/// Parse a string body up to, but not including, the closing quote.
fn parse_string(s: &Vec<char>, i: usize) -> (r: Option<(Vec<char>, usize)>)
    requires
        i <= s@.len(),
    ensures
        match r {
            Some((content, j)) => p_string(s@, i as int) == Some((content@, j as int)) && i <= j
                < s@.len(),
            None => p_string(s@, i as int) is None,
        },
{
    let mut j = i;
    while j < s.len() && s[j] != '"'
        invariant
            i <= j <= s@.len(),
            quote_run_end(s@, i as int) == quote_run_end(s@, j as int),
        decreases s@.len() - j,
    {
        j = j + 1;
    }
    if j == s.len() {
        return None;
    }
    let mut content: Vec<char> = Vec::new();
    let mut t = i;
    while t < j
        invariant
            i <= t <= j <= s@.len(),
            content@ == s@.subrange(i as int, t as int),
        decreases j - t,
    {
        content.push(s[t]);
        t = t + 1;
        proof {
            assert(content@ =~= s@.subrange(i as int, t as int));
        }
    }
    Some((content, j))
}

/// Parse one parameter slot.
fn parse_param(s: &Vec<char>, i: usize) -> (r: Option<(ParamValue, usize)>)
    requires
        i <= s@.len(),
    ensures
        match r {
            Some((v, j)) => p_param(s@, i as int) == Some((v, j as int)) && i < j <= s@.len(),
            None => p_param(s@, i as int) is None,
        },
{
    proof {
        reveal_strlit("null");
    }
    if i < s.len() && s[i] == 'n' {
        match parse_lit(s, i, "null") {
            Some(j) => Some((ParamValue::Null, j)),
            None => None,
        }
    } else {
        match parse_dec(s, i) {
            Some((v, j)) => Some((ParamValue::Num(v), j)),
            None => None,
        }
    }
}


/// Parse a latitude/longitude pair.
fn parse_latlon(s: &Vec<char>, i: usize) -> (r: Option<(LatLon, usize)>)
    requires
        i <= s@.len(),
    ensures
        match r {
            Some((v, j)) => p_latlon(s@, i as int) == Some((v, j as int)) && i < j <= s@.len(),
            None => p_latlon(s@, i as int) is None,
        },
{
    let i1 = match parse_lit(s, i, "[") {
        Some(j) => j,
        None => {
            return None;
        },
    };
    let (latitude, i2) = match parse_dec(s, i1) {
        Some(r) => r,
        None => {
            return None;
        },
    };
    let i3 = match parse_lit(s, i2, ",") {
        Some(j) => j,
        None => {
            return None;
        },
    };
    let (longitude, i4) = match parse_dec(s, i3) {
        Some(r) => r,
        None => {
            return None;
        },
    };
    let i5 = match parse_lit(s, i4, "]") {
        Some(j) => j,
        None => {
            return None;
        },
    };
    proof {
        reveal_strlit("[");
    }
    Some((LatLon { latitude, longitude }, i5))
}

/// Parse a latitude/longitude/altitude triple.
fn parse_latlonalt(s: &Vec<char>, i: usize) -> (r: Option<(LatLonAlt, usize)>)
    requires
        i <= s@.len(),
    ensures
        match r {
            Some((v, j)) => p_latlonalt(s@, i as int) == Some((v, j as int)) && i < j
                <= s@.len(),
            None => p_latlonalt(s@, i as int) is None,
        },
{
    let i1 = match parse_lit(s, i, "[") {
        Some(j) => j,
        None => {
            return None;
        },
    };
    let (latitude, i2) = match parse_dec(s, i1) {
        Some(r) => r,
        None => {
            return None;
        },
    };
    let i3 = match parse_lit(s, i2, ",") {
        Some(j) => j,
        None => {
            return None;
        },
    };
    let (longitude, i4) = match parse_dec(s, i3) {
        Some(r) => r,
        None => {
            return None;
        },
    };
    let i5 = match parse_lit(s, i4, ",") {
        Some(j) => j,
        None => {
            return None;
        },
    };
    let (altitude, i6) = match parse_dec(s, i5) {
        Some(r) => r,
        None => {
            return None;
        },
    };
    let i7 = match parse_lit(s, i6, "]") {
        Some(j) => j,
        None => {
            return None;
        },
    };
    proof {
        reveal_strlit("[");
    }
    Some((LatLonAlt { latitude, longitude, altitude }, i7))
}

/// Parse one circular geofence region.
fn parse_circle(s: &Vec<char>, i: usize) -> (r: Option<(GeoFenceCircle, usize)>)
    requires
        i <= s@.len(),
    ensures
        match r {
            Some((v, j)) => p_circle(s@, i as int) == Some((v, j as int)) && i < j <= s@.len(),
            None => p_circle(s@, i as int) is None,
        },
{
    let i1 = match parse_lit(s, i, "{\"circle\":{\"center\":[") {
        Some(j) => j,
        None => {
            return None;
        },
    };
    let (latitude, i2) = match parse_dec(s, i1) {
        Some(r) => r,
        None => {
            return None;
        },
    };
    let i3 = match parse_lit(s, i2, ",") {
        Some(j) => j,
        None => {
            return None;
        },
    };
    let (longitude, i4) = match parse_dec(s, i3) {
        Some(r) => r,
        None => {
            return None;
        },
    };
    let i5 = match parse_lit(s, i4, "],\"radius\":") {
        Some(j) => j,
        None => {
            return None;
        },
    };
    let (radius, i6) = match parse_dec(s, i5) {
        Some(r) => r,
        None => {
            return None;
        },
    };
    let i7 = match parse_lit(s, i6, "},\"inclusion\":") {
        Some(j) => j,
        None => {
            return None;
        },
    };
    let (inclusion, i8) = match parse_bool(s, i7) {
        Some(r) => r,
        None => {
            return None;
        },
    };
    let i9 = match parse_lit(s, i8, ",\"version\":") {
        Some(j) => j,
        None => {
            return None;
        },
    };
    let (version, i10) = match parse_nat(s, i9) {
        Some(r) => r,
        None => {
            return None;
        },
    };
    if version > u8::MAX as u64 {
        return None;
    }
    let i11 = match parse_lit(s, i10, "}") {
        Some(j) => j,
        None => {
            return None;
        },
    };
    proof {
        reveal_strlit("{\"circle\":{\"center\":[");
    }
    Some(
        (
            GeoFenceCircle {
                circle: Circle { center: LatLon { latitude, longitude }, radius },
                inclusion,
                version: version as u8,
            },
            i11,
        ),
    )
}

/// Parse the rest of a vertex array after its first element.
fn parse_vertices_tail(s: &Vec<char>, i: usize) -> (r: Option<(Vec<LatLon>, usize)>)
    requires
        i <= s@.len(),
    ensures
        match r {
            Some((v, j)) => p_vertices_tail(s@, i as int) == Some((v@, j as int)) && i < j
                <= s@.len(),
            None => p_vertices_tail(s@, i as int) is None,
        },
    decreases s@.len() - i,
{
    if !(i < s.len()) {
        return None;
    }
    if s[i] == ']' {
        let empty: Vec<LatLon> = Vec::new();
        proof {
            assert(empty@ =~= Seq::<LatLon>::empty());
        }
        return Some((empty, i + 1));
    }
    if s[i] != ',' {
        return None;
    }
    let (v, j) = match parse_latlon(s, i + 1) {
        Some(r) => r,
        None => {
            return None;
        },
    };
    let (mut vs, k) = match parse_vertices_tail(s, j) {
        Some(r) => r,
        None => {
            return None;
        },
    };
    vs.insert(0, v);
    proof {
        assert(vs@ =~= seq![v] + vs@.skip(1));
    }
    Some((vs, k))
}

/// Parse a whole vertex array, through its closing bracket.
fn parse_vertices_list(s: &Vec<char>, i: usize) -> (r: Option<(Vec<LatLon>, usize)>)
    requires
        i <= s@.len(),
    ensures
        match r {
            Some((v, j)) => p_vertices_list(s@, i as int) == Some((v@, j as int)) && i < j
                <= s@.len(),
            None => p_vertices_list(s@, i as int) is None,
        },
{
    if !(i < s.len()) {
        return None;
    }
    if s[i] == ']' {
        let empty: Vec<LatLon> = Vec::new();
        proof {
            assert(empty@ =~= Seq::<LatLon>::empty());
        }
        return Some((empty, i + 1));
    }
    let (v, j) = match parse_latlon(s, i) {
        Some(r) => r,
        None => {
            return None;
        },
    };
    let (mut vs, k) = match parse_vertices_tail(s, j) {
        Some(r) => r,
        None => {
            return None;
        },
    };
    vs.insert(0, v);
    proof {
        assert(vs@ =~= seq![v] + vs@.skip(1));
    }
    Some((vs, k))
}

/// Parse one polygonal geofence region.
fn parse_polygon(s: &Vec<char>, i: usize) -> (r: Option<(GeoFencePolygon, usize)>)
    requires
        i <= s@.len(),
    ensures
        match r {
            Some((v, j)) => p_polygon(s@, i as int) == Some((v@, j as int)) && i < j
                <= s@.len(),
            None => p_polygon(s@, i as int) is None,
        },
{
    let i1 = match parse_lit(s, i, "{\"polygon\":[") {
        Some(j) => j,
        None => {
            return None;
        },
    };
    let (polygon, i2) = match parse_vertices_list(s, i1) {
        Some(r) => r,
        None => {
            return None;
        },
    };
    let i3 = match parse_lit(s, i2, ",\"inclusion\":") {
        Some(j) => j,
        None => {
            return None;
        },
    };
    let (inclusion, i4) = match parse_bool(s, i3) {
        Some(r) => r,
        None => {
            return None;
        },
    };
    let i5 = match parse_lit(s, i4, ",\"version\":") {
        Some(j) => j,
        None => {
            return None;
        },
    };
    let (version, i6) = match parse_nat(s, i5) {
        Some(r) => r,
        None => {
            return None;
        },
    };
    if version > u8::MAX as u64 {
        return None;
    }
    let i7 = match parse_lit(s, i6, "}") {
        Some(j) => j,
        None => {
            return None;
        },
    };
    proof {
        reveal_strlit("{\"polygon\":[");
    }
    Some((GeoFencePolygon { polygon, inclusion, version: version as u8 }, i7))
}

/// Parse the rest of a circle array after its first element.
fn parse_circles_tail(s: &Vec<char>, i: usize) -> (r: Option<(Vec<GeoFenceCircle>, usize)>)
    requires
        i <= s@.len(),
    ensures
        match r {
            Some((v, j)) => p_circles_tail(s@, i as int) == Some((v@, j as int)) && i < j
                <= s@.len(),
            None => p_circles_tail(s@, i as int) is None,
        },
    decreases s@.len() - i,
{
    if !(i < s.len()) {
        return None;
    }
    if s[i] == ']' {
        let empty: Vec<GeoFenceCircle> = Vec::new();
        proof {
            assert(empty@ =~= Seq::<GeoFenceCircle>::empty());
        }
        return Some((empty, i + 1));
    }
    if s[i] != ',' {
        return None;
    }
    let (v, j) = match parse_circle(s, i + 1) {
        Some(r) => r,
        None => {
            return None;
        },
    };
    let (mut vs, k) = match parse_circles_tail(s, j) {
        Some(r) => r,
        None => {
            return None;
        },
    };
    vs.insert(0, v);
    proof {
        assert(vs@ =~= seq![v] + vs@.skip(1));
    }
    Some((vs, k))
}

/// Parse a whole circle array, through its closing bracket.
fn parse_circles_list(s: &Vec<char>, i: usize) -> (r: Option<(Vec<GeoFenceCircle>, usize)>)
    requires
        i <= s@.len(),
    ensures
        match r {
            Some((v, j)) => p_circles_list(s@, i as int) == Some((v@, j as int)) && i < j
                <= s@.len(),
            None => p_circles_list(s@, i as int) is None,
        },
{
    if !(i < s.len()) {
        return None;
    }
    if s[i] == ']' {
        let empty: Vec<GeoFenceCircle> = Vec::new();
        proof {
            assert(empty@ =~= Seq::<GeoFenceCircle>::empty());
        }
        return Some((empty, i + 1));
    }
    let (v, j) = match parse_circle(s, i) {
        Some(r) => r,
        None => {
            return None;
        },
    };
    let (mut vs, k) = match parse_circles_tail(s, j) {
        Some(r) => r,
        None => {
            return None;
        },
    };
    vs.insert(0, v);
    proof {
        assert(vs@ =~= seq![v] + vs@.skip(1));
    }
    Some((vs, k))
}

/// The models of a polygon vector, element by element.
pub open spec fn polygon_models(v: Seq<GeoFencePolygon>) -> Seq<GeoFencePolygonModel> {
    Seq::new(v.len(), |q: int| v[q]@)
}

/// Parse the rest of a polygon array after its first element.
fn parse_polygons_tail(s: &Vec<char>, i: usize) -> (r: Option<(Vec<GeoFencePolygon>, usize)>)
    requires
        i <= s@.len(),
    ensures
        match r {
            Some((v, j)) => p_polygons_tail(s@, i as int) == Some((polygon_models(v@), j as int))
                && i < j <= s@.len(),
            None => p_polygons_tail(s@, i as int) is None,
        },
    decreases s@.len() - i,
{
    if !(i < s.len()) {
        return None;
    }
    if s[i] == ']' {
        let empty: Vec<GeoFencePolygon> = Vec::new();
        proof {
            assert(polygon_models(empty@) =~= Seq::<GeoFencePolygonModel>::empty());
        }
        return Some((empty, i + 1));
    }
    if s[i] != ',' {
        return None;
    }
    let (v, j) = match parse_polygon(s, i + 1) {
        Some(r) => r,
        None => {
            return None;
        },
    };
    let (mut vs, k) = match parse_polygons_tail(s, j) {
        Some(r) => r,
        None => {
            return None;
        },
    };
    let ghost old_models = polygon_models(vs@);
    vs.insert(0, v);
    proof {
        assert(polygon_models(vs@) =~= seq![v@] + old_models);
    }
    Some((vs, k))
}

/// Parse a whole polygon array, through its closing bracket.
fn parse_polygons_list(s: &Vec<char>, i: usize) -> (r: Option<(Vec<GeoFencePolygon>, usize)>)
    requires
        i <= s@.len(),
    ensures
        match r {
            Some((v, j)) => p_polygons_list(s@, i as int) == Some((polygon_models(v@), j as int))
                && i < j <= s@.len(),
            None => p_polygons_list(s@, i as int) is None,
        },
{
    if !(i < s.len()) {
        return None;
    }
    if s[i] == ']' {
        let empty: Vec<GeoFencePolygon> = Vec::new();
        proof {
            assert(polygon_models(empty@) =~= Seq::<GeoFencePolygonModel>::empty());
        }
        return Some((empty, i + 1));
    }
    let (v, j) = match parse_polygon(s, i) {
        Some(r) => r,
        None => {
            return None;
        },
    };
    let (mut vs, k) = match parse_polygons_tail(s, j) {
        Some(r) => r,
        None => {
            return None;
        },
    };
    let ghost old_models = polygon_models(vs@);
    vs.insert(0, v);
    proof {
        assert(polygon_models(vs@) =~= seq![v@] + old_models);
    }
    Some((vs, k))
}

/// Parse the rest of a rally-point array after its first element.
fn parse_points_tail(s: &Vec<char>, i: usize) -> (r: Option<(Vec<LatLonAlt>, usize)>)
    requires
        i <= s@.len(),
    ensures
        match r {
            Some((v, j)) => p_points_tail(s@, i as int) == Some((v@, j as int)) && i < j
                <= s@.len(),
            None => p_points_tail(s@, i as int) is None,
        },
    decreases s@.len() - i,
{
    if !(i < s.len()) {
        return None;
    }
    if s[i] == ']' {
        let empty: Vec<LatLonAlt> = Vec::new();
        proof {
            assert(empty@ =~= Seq::<LatLonAlt>::empty());
        }
        return Some((empty, i + 1));
    }
    if s[i] != ',' {
        return None;
    }
    let (v, j) = match parse_latlonalt(s, i + 1) {
        Some(r) => r,
        None => {
            return None;
        },
    };
    let (mut vs, k) = match parse_points_tail(s, j) {
        Some(r) => r,
        None => {
            return None;
        },
    };
    vs.insert(0, v);
    proof {
        assert(vs@ =~= seq![v] + vs@.skip(1));
    }
    Some((vs, k))
}

/// Parse a whole rally-point array, through its closing bracket.
fn parse_points_list(s: &Vec<char>, i: usize) -> (r: Option<(Vec<LatLonAlt>, usize)>)
    requires
        i <= s@.len(),
    ensures
        match r {
            Some((v, j)) => p_points_list(s@, i as int) == Some((v@, j as int)) && i < j
                <= s@.len(),
            None => p_points_list(s@, i as int) is None,
        },
{
    if !(i < s.len()) {
        return None;
    }
    if s[i] == ']' {
        let empty: Vec<LatLonAlt> = Vec::new();
        proof {
            assert(empty@ =~= Seq::<LatLonAlt>::empty());
        }
        return Some((empty, i + 1));
    }
    let (v, j) = match parse_latlonalt(s, i) {
        Some(r) => r,
        None => {
            return None;
        },
    };
    let (mut vs, k) = match parse_points_tail(s, j) {
        Some(r) => r,
        None => {
            return None;
        },
    };
    vs.insert(0, v);
    proof {
        assert(vs@ =~= seq![v] + vs@.skip(1));
    }
    Some((vs, k))
}


/// Parse the rest of a parameter array after its first element.
fn parse_params_tail(s: &Vec<char>, i: usize) -> (r: Option<(Vec<ParamValue>, usize)>)
    requires
        i <= s@.len(),
    ensures
        match r {
            Some((v, j)) => p_params_tail(s@, i as int) == Some((v@, j as int)) && i < j
                <= s@.len(),
            None => p_params_tail(s@, i as int) is None,
        },
    decreases s@.len() - i,
{
    if !(i < s.len()) {
        return None;
    }
    if s[i] == ']' {
        let empty: Vec<ParamValue> = Vec::new();
        proof {
            assert(empty@ =~= Seq::<ParamValue>::empty());
        }
        return Some((empty, i + 1));
    }
    if s[i] != ',' {
        return None;
    }
    let (v, j) = match parse_param(s, i + 1) {
        Some(r) => r,
        None => {
            return None;
        },
    };
    let (mut vs, k) = match parse_params_tail(s, j) {
        Some(r) => r,
        None => {
            return None;
        },
    };
    vs.insert(0, v);
    proof {
        assert(vs@ =~= seq![v] + vs@.skip(1));
    }
    Some((vs, k))
}

/// Parse a whole parameter array, through its closing bracket.
fn parse_params_list(s: &Vec<char>, i: usize) -> (r: Option<(Vec<ParamValue>, usize)>)
    requires
        i <= s@.len(),
    ensures
        match r {
            Some((v, j)) => p_params_list(s@, i as int) == Some((v@, j as int)) && i < j
                <= s@.len(),
            None => p_params_list(s@, i as int) is None,
        },
{
    if !(i < s.len()) {
        return None;
    }
    if s[i] == ']' {
        let empty: Vec<ParamValue> = Vec::new();
        proof {
            assert(empty@ =~= Seq::<ParamValue>::empty());
        }
        return Some((empty, i + 1));
    }
    let (v, j) = match parse_param(s, i) {
        Some(r) => r,
        None => {
            return None;
        },
    };
    let (mut vs, k) = match parse_params_tail(s, j) {
        Some(r) => r,
        None => {
            return None;
        },
    };
    vs.insert(0, v);
    proof {
        assert(vs@ =~= seq![v] + vs@.skip(1));
    }
    Some((vs, k))
}

/// Parse one mission item.
fn parse_item(s: &Vec<char>, i: usize) -> (r: Option<(MissionItem, usize)>)
    requires
        i <= s@.len(),
    ensures
        match r {
            Some((v, j)) => p_item(s@, i as int) == Some((v@, j as int)) && i < j <= s@.len(),
            None => p_item(s@, i as int) is None,
        },
{
    let i1 = match parse_lit(s, i, "{\"type\":\"SimpleItem\",\"autoContinue\":") {
        Some(j) => j,
        None => {
            return None;
        },
    };
    let (auto_continue, i2) = match parse_bool(s, i1) {
        Some(r) => r,
        None => {
            return None;
        },
    };
    let i3 = match parse_lit(s, i2, ",\"command\":") {
        Some(j) => j,
        None => {
            return None;
        },
    };
    let (command, i4) = match parse_nat(s, i3) {
        Some(r) => r,
        None => {
            return None;
        },
    };
    if command > u16::MAX as u64 {
        return None;
    }
    let i5 = match parse_lit(s, i4, ",\"doJumpId\":") {
        Some(j) => j,
        None => {
            return None;
        },
    };
    let (sequence_index, i6) = match parse_nat(s, i5) {
        Some(r) => r,
        None => {
            return None;
        },
    };
    if sequence_index > u16::MAX as u64 {
        return None;
    }
    let i7 = match parse_lit(s, i6, ",\"frame\":") {
        Some(j) => j,
        None => {
            return None;
        },
    };
    let (frame, i8) = match parse_nat(s, i7) {
        Some(r) => r,
        None => {
            return None;
        },
    };
    if frame > u8::MAX as u64 {
        return None;
    }
    let i9 = match parse_lit(s, i8, ",\"params\":[") {
        Some(j) => j,
        None => {
            return None;
        },
    };
    let (params, i10) = match parse_params_list(s, i9) {
        Some(r) => r,
        None => {
            return None;
        },
    };
    let i11 = match parse_lit(s, i10, ",\"Altitude\":") {
        Some(j) => j,
        None => {
            return None;
        },
    };
    let (altitude, i12) = match parse_dec(s, i11) {
        Some(r) => r,
        None => {
            return None;
        },
    };
    let i13 = match parse_lit(s, i12, ",\"AltitudeMode\":") {
        Some(j) => j,
        None => {
            return None;
        },
    };
    let (altitude_mode, i14) = match parse_nat(s, i13) {
        Some(r) => r,
        None => {
            return None;
        },
    };
    if altitude_mode > u8::MAX as u64 {
        return None;
    }
    let i15 = match parse_lit(s, i14, ",\"AMSLAltAboveTerrain\":") {
        Some(j) => j,
        None => {
            return None;
        },
    };
    let (amsl, i16) = match parse_dec(s, i15) {
        Some(r) => r,
        None => {
            return None;
        },
    };
    let i17 = match parse_lit(s, i16, "}") {
        Some(j) => j,
        None => {
            return None;
        },
    };
    proof {
        reveal_strlit("{\"type\":\"SimpleItem\",\"autoContinue\":");
    }
    Some(
        (
            MissionItem {
                sequence_index: sequence_index as u16,
                command: command as u16,
                frame: frame as u8,
                altitude,
                altitude_mode: altitude_mode as u8,
                amsl_alt_above_terrain: amsl,
                auto_continue,
                params,
            },
            i17,
        ),
    )
}

/// Parse the rest of a mission item array after its first element.
fn parse_items_tail(s: &Vec<char>, i: usize) -> (r: Option<(Vec<MissionItem>, usize)>)
    requires
        i <= s@.len(),
    ensures
        match r {
            Some((v, j)) => p_items_tail(s@, i as int) == Some((models(v@), j as int)) && i < j
                <= s@.len(),
            None => p_items_tail(s@, i as int) is None,
        },
    decreases s@.len() - i,
{
    if !(i < s.len()) {
        return None;
    }
    if s[i] == ']' {
        let empty: Vec<MissionItem> = Vec::new();
        proof {
            assert(models(empty@) =~= Seq::<ItemModel>::empty());
        }
        return Some((empty, i + 1));
    }
    if s[i] != ',' {
        return None;
    }
    let (v, j) = match parse_item(s, i + 1) {
        Some(r) => r,
        None => {
            return None;
        },
    };
    let (mut vs, k) = match parse_items_tail(s, j) {
        Some(r) => r,
        None => {
            return None;
        },
    };
    let ghost old_models = models(vs@);
    vs.insert(0, v);
    proof {
        assert(models(vs@) =~= seq![v@] + old_models);
    }
    Some((vs, k))
}

/// Parse a whole mission item array, through its closing bracket.
fn parse_items_list(s: &Vec<char>, i: usize) -> (r: Option<(Vec<MissionItem>, usize)>)
    requires
        i <= s@.len(),
    ensures
        match r {
            Some((v, j)) => p_items_list(s@, i as int) == Some((models(v@), j as int)) && i < j
                <= s@.len(),
            None => p_items_list(s@, i as int) is None,
        },
{
    if !(i < s.len()) {
        return None;
    }
    if s[i] == ']' {
        let empty: Vec<MissionItem> = Vec::new();
        proof {
            assert(models(empty@) =~= Seq::<ItemModel>::empty());
        }
        return Some((empty, i + 1));
    }
    let (v, j) = match parse_item(s, i) {
        Some(r) => r,
        None => {
            return None;
        },
    };
    let (mut vs, k) = match parse_items_tail(s, j) {
        Some(r) => r,
        None => {
            return None;
        },
    };
    let ghost old_models = models(vs@);
    vs.insert(0, v);
    proof {
        assert(models(vs@) =~= seq![v@] + old_models);
    }
    Some((vs, k))
}

/// Parse the geofence block.
fn parse_geofence(s: &Vec<char>, i: usize) -> (r: Option<(GeoFence, usize)>)
    requires
        i <= s@.len(),
    ensures
        match r {
            Some((v, j)) => p_geofence(s@, i as int) == Some((v@, j as int)) && i < j
                <= s@.len(),
            None => p_geofence(s@, i as int) is None,
        },
{
    let i1 = match parse_lit(s, i, "{\"circles\":[") {
        Some(j) => j,
        None => {
            return None;
        },
    };
    let (circles, i2) = match parse_circles_list(s, i1) {
        Some(r) => r,
        None => {
            return None;
        },
    };
    let i3 = match parse_lit(s, i2, ",\"polygons\":[") {
        Some(j) => j,
        None => {
            return None;
        },
    };
    let (polygons, i4) = match parse_polygons_list(s, i3) {
        Some(r) => r,
        None => {
            return None;
        },
    };
    let i5 = match parse_lit(s, i4, ",\"version\":") {
        Some(j) => j,
        None => {
            return None;
        },
    };
    let (version, i6) = match parse_nat(s, i5) {
        Some(r) => r,
        None => {
            return None;
        },
    };
    if version > u8::MAX as u64 {
        return None;
    }
    let i7 = match parse_lit(s, i6, "}") {
        Some(j) => j,
        None => {
            return None;
        },
    };
    let g = GeoFence { circles, polygons, version: version as u8 };
    proof {
        reveal_strlit("{\"circles\":[");
        assert(g@.polygons =~= polygon_models(g.polygons@));
    }
    Some((g, i7))
}

/// Parse the rally-points block.
fn parse_rally(s: &Vec<char>, i: usize) -> (r: Option<(RallyPoints, usize)>)
    requires
        i <= s@.len(),
    ensures
        match r {
            Some((v, j)) => p_rally(s@, i as int) == Some((v@, j as int)) && i < j <= s@.len(),
            None => p_rally(s@, i as int) is None,
        },
{
    let i1 = match parse_lit(s, i, "{\"points\":[") {
        Some(j) => j,
        None => {
            return None;
        },
    };
    let (points, i2) = match parse_points_list(s, i1) {
        Some(r) => r,
        None => {
            return None;
        },
    };
    let i3 = match parse_lit(s, i2, ",\"version\":") {
        Some(j) => j,
        None => {
            return None;
        },
    };
    let (version, i4) = match parse_nat(s, i3) {
        Some(r) => r,
        None => {
            return None;
        },
    };
    if version > u8::MAX as u64 {
        return None;
    }
    let i5 = match parse_lit(s, i4, "}") {
        Some(j) => j,
        None => {
            return None;
        },
    };
    proof {
        reveal_strlit("{\"points\":[");
    }
    Some((RallyPoints { points, version: version as u8 }, i5))
}

/// Parse the mission block.
fn parse_mission(s: &Vec<char>, i: usize) -> (r: Option<(Mission, usize)>)
    requires
        i <= s@.len(),
    ensures
        match r {
            Some((v, j)) => p_mission(s@, i as int) == Some((v@, j as int)) && i < j
                <= s@.len(),
            None => p_mission(s@, i as int) is None,
        },
{
    let i1 = match parse_lit(s, i, "{\"cruiseSpeed\":") {
        Some(j) => j,
        None => {
            return None;
        },
    };
    let (cruise_speed, i2) = match parse_nat(s, i1) {
        Some(r) => r,
        None => {
            return None;
        },
    };
    if cruise_speed > u32::MAX as u64 {
        return None;
    }
    let i3 = match parse_lit(s, i2, ",\"firmwareType\":") {
        Some(j) => j,
        None => {
            return None;
        },
    };
    let (firmware_type, i4) = match parse_nat(s, i3) {
        Some(r) => r,
        None => {
            return None;
        },
    };
    if firmware_type > u8::MAX as u64 {
        return None;
    }
    let i5 = match parse_lit(s, i4, ",\"globalPlanAltitudeMode\":") {
        Some(j) => j,
        None => {
            return None;
        },
    };
    let (altitude_mode, i6) = match parse_nat(s, i5) {
        Some(r) => r,
        None => {
            return None;
        },
    };
    if altitude_mode > u8::MAX as u64 {
        return None;
    }
    let i7 = match parse_lit(s, i6, ",\"hoverSpeed\":") {
        Some(j) => j,
        None => {
            return None;
        },
    };
    let (hover_speed, i8) = match parse_nat(s, i7) {
        Some(r) => r,
        None => {
            return None;
        },
    };
    if hover_speed > u32::MAX as u64 {
        return None;
    }
    let i9 = match parse_lit(s, i8, ",\"items\":[") {
        Some(j) => j,
        None => {
            return None;
        },
    };
    let (items, i10) = match parse_items_list(s, i9) {
        Some(r) => r,
        None => {
            return None;
        },
    };
    let i11 = match parse_lit(s, i10, ",\"plannedHomePosition\":") {
        Some(j) => j,
        None => {
            return None;
        },
    };
    let (home, i12) = match parse_latlonalt(s, i11) {
        Some(r) => r,
        None => {
            return None;
        },
    };
    let i13 = match parse_lit(s, i12, ",\"vehicleType\":") {
        Some(j) => j,
        None => {
            return None;
        },
    };
    let (vehicle_type, i14) = match parse_nat(s, i13) {
        Some(r) => r,
        None => {
            return None;
        },
    };
    if vehicle_type > u8::MAX as u64 {
        return None;
    }
    let i15 = match parse_lit(s, i14, ",\"version\":") {
        Some(j) => j,
        None => {
            return None;
        },
    };
    let (version, i16) = match parse_nat(s, i15) {
        Some(r) => r,
        None => {
            return None;
        },
    };
    if version > u8::MAX as u64 {
        return None;
    }
    let i17 = match parse_lit(s, i16, "}") {
        Some(j) => j,
        None => {
            return None;
        },
    };
    proof {
        reveal_strlit("{\"cruiseSpeed\":");
    }
    Some(
        (
            Mission {
                cruise_speed: cruise_speed as u32,
                firmware_type: firmware_type as u8,
                global_plan_altitude_mode: altitude_mode as u8,
                hover_speed: hover_speed as u32,
                items,
                planned_home_position: home,
                vehicle_type: vehicle_type as u8,
                version: version as u8,
            },
            i17,
        ),
    )
}

impl Plan {
    /// Parse a document from its exact wire format. Accepts exactly the
    /// canonical rendering; any other text yields nothing.
    pub fn from_json(text: &Vec<char>) -> (r: Option<Plan>)
        ensures
            match r {
                Some(plan) => p_plan(text@) == Some(plan@),
                None => p_plan(text@) is None,
            },
    {
        let i1 = match parse_lit(text, 0, "{\"fileType\":\"") {
            Some(j) => j,
            None => {
                return None;
            },
        };
        let (file_type, i2) = match parse_string(text, i1) {
            Some(r) => r,
            None => {
                return None;
            },
        };
        let i3 = match parse_lit(text, i2, "\",\"geoFence\":") {
            Some(j) => j,
            None => {
                return None;
            },
        };
        let (geo_fence, i4) = match parse_geofence(text, i3) {
            Some(r) => r,
            None => {
                return None;
            },
        };
        let i5 = match parse_lit(text, i4, ",\"groundStation\":\"") {
            Some(j) => j,
            None => {
                return None;
            },
        };
        let (ground_station, i6) = match parse_string(text, i5) {
            Some(r) => r,
            None => {
                return None;
            },
        };
        let i7 = match parse_lit(text, i6, "\",\"mission\":") {
            Some(j) => j,
            None => {
                return None;
            },
        };
        let (mission, i8) = match parse_mission(text, i7) {
            Some(r) => r,
            None => {
                return None;
            },
        };
        let i9 = match parse_lit(text, i8, ",\"rallyPoints\":") {
            Some(j) => j,
            None => {
                return None;
            },
        };
        let (rally_points, i10) = match parse_rally(text, i9) {
            Some(r) => r,
            None => {
                return None;
            },
        };
        let i11 = match parse_lit(text, i10, ",\"version\":") {
            Some(j) => j,
            None => {
                return None;
            },
        };
        let (version, i12) = match parse_nat(text, i11) {
            Some(r) => r,
            None => {
                return None;
            },
        };
        if version > u8::MAX as u64 {
            return None;
        }
        let i13 = match parse_lit(text, i12, "}") {
            Some(j) => j,
            None => {
                return None;
            },
        };
        if i13 != text.len() {
            return None;
        }
        Some(
            Plan {
                file_type,
                geo_fence,
                ground_station,
                mission,
                rally_points,
                version: version as u8,
            },
        )
    }
}

} // verus!
