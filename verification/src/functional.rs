//! The functional color notations `rgb()`, `rgba()`, `hsl()`, `hsla()` and
//! `hwb()`.  Arguments may be separated by commas or whitespace, channel
//! values may be plain numbers or percentages, and an alpha channel may
//! follow as a fourth argument or after a `/` separator.  Values are held in
//! thousandths (three fractional digits kept, further digits ignored) and
//! every conversion to an 8-bit channel is exact integer arithmetic that
//! truncates fractional results.

use vstd::prelude::*;

verus! {

use crate::color::Color;

/// One numeric argument: its value in thousandths, and whether it was
/// written as a percentage.
#[derive(Clone, Copy, Debug, PartialEq, Eq, Structural)]
pub struct NumVal {
    pub milli: u64,
    pub percent: bool,
}

/// One token of a functional notation's argument list.
#[derive(Clone, Copy, Debug, PartialEq, Eq, Structural)]
pub enum Tok {
    Num(NumVal),
    Comma,
    Slash,
}

/// The three functional color families; `rgba` parses as `Rgb` and `hsla`
/// as `Hsl`.
#[derive(Clone, Copy, Debug, PartialEq, Eq, Structural)]
pub enum FuncName {
    Rgb,
    Hsl,
    Hwb,
}

/// Whitespace as the argument grammar accepts it.
pub open spec fn is_css_ws(c: char) -> bool {
    c == ' ' || c == '\t' || c == '\n' || c == '\r' || c == '\u{b}' || c == '\u{c}'
}

/// Whether `c` is an ASCII decimal digit.
pub open spec fn is_digit(c: char) -> bool {
    '0' <= c && c <= '9'
}

/// The value of one decimal digit.
pub open spec fn digit_val(c: char) -> int
    recommends
        is_digit(c),
{
    c as int - '0' as int
}

/// Whether `c` can stand inside a numeric literal (digit or decimal point).
pub open spec fn is_num_char(c: char) -> bool {
    is_digit(c) || c == '.'
}

/// How many numeric-literal characters `s` begins with.
pub open spec fn num_run_len(s: Seq<char>) -> nat
    decreases s.len(),
{
    if s.len() == 0 || !is_num_char(s[0]) {
        0
    } else {
        1 + num_run_len(s.skip(1))
    }
}

/// Whether every character of `s` is a decimal digit.
pub open spec fn all_digits(s: Seq<char>) -> bool {
    forall|i: int| 0 <= i < s.len() ==> is_digit(s[i])
}

/// The whole-number value of a sequence of decimal digits.
pub open spec fn whole_val(s: Seq<char>) -> int
    decreases s.len(),
{
    if s.len() == 0 {
        0
    } else {
        10 * whole_val(s.drop_last()) + digit_val(s.last())
    }
}

/// The `k`-th fractional digit of `s`, or zero beyond its end.
pub open spec fn frac_d(s: Seq<char>, k: int) -> int {
    if 0 <= k < s.len() {
        digit_val(s[k])
    } else {
        0
    }
}

/// The value of the fractional digits `s` in thousandths; digits beyond the
/// third are ignored.
pub open spec fn frac_milli(s: Seq<char>) -> int {
    100 * frac_d(s, 0) + 10 * frac_d(s, 1) + frac_d(s, 2)
}

/// Ten to the `n`-th power.
pub open spec fn pow10(n: nat) -> int
    decreases n,
{
    if n == 0 {
        1
    } else {
        10 * pow10((n - 1) as nat)
    }
}

pub proof fn lemma_pow10_mono(a: nat, b: nat)
    requires
        a <= b,
    ensures
        0 < pow10(a) <= pow10(b),
    decreases b,
{
    if a < b {
        lemma_pow10_mono(a, (b - 1) as nat);
    } else if a == b && b > 0 {
        lemma_pow10_mono((a - 1) as nat, (b - 1) as nat);
    }
}

/// The value in thousandths of the numeric literal `s` (digits with at most
/// one decimal point, at least one digit, at most fifteen whole digits),
/// or nothing where `s` is not such a literal.
pub open spec fn spec_num_milli(s: Seq<char>) -> Option<u64> {
    let d = crate::scan::find_from(s, 0, '.');
    let whole = s.subrange(0, d);
    let frac = if d == s.len() {
        Seq::<char>::empty()
    } else {
        s.subrange(d + 1, s.len() as int)
    };
    if all_digits(whole) && all_digits(frac) && whole.len() + frac.len() >= 1 && whole.len()
        <= 15 {
        Some((1000 * whole_val(whole) + frac_milli(frac)) as u64)
    } else {
        None
    }
}

/// Parses the numeric literal held in `t` into thousandths.
#[verifier::loop_isolation(false)]
pub fn parse_num_chars(t: &Vec<char>) -> (r: Option<u64>)
    ensures
        r == spec_num_milli(t@),
{
    let n = t.len();
    let d = crate::scan::vec_find_from(t, 0, '.');
    proof {
        crate::scan::lemma_find_from(t@, 0, '.');
    }
    let ghost whole: Seq<char> = t@.subrange(0, d as int);
    let ghost frac: Seq<char> = if d == n {
        Seq::<char>::empty()
    } else {
        t@.subrange(d + 1, n as int)
    };
    if d > 15 {
        proof {
            assert(whole.len() > 15);
        }
        return None;
    }
    if n == 0 || (d == 0 && n == 1) {
        // no digit at all
        proof {
            assert(whole.len() + frac.len() == 0);
        }
        return None;
    }
    // whole part: all digits, value accumulated in thousandths at the end
    let mut acc: u64 = 0;
    let mut k: usize = 0;
    while k < d
        invariant
            0 <= k <= d <= 15,
            d <= n,
            n == t@.len(),
            whole == t@.subrange(0, d as int),
            all_digits(t@.subrange(0, k as int)),
            acc == whole_val(t@.subrange(0, k as int)),
            0 <= acc < pow10(k as nat),
        decreases d - k,
    {
        let c = t[k];
        if !('0' <= c && c <= '9') {
            assert(!all_digits(whole)) by {
                assert(whole[k as int] == t@[k as int]);
            }
            return None;
        }
        let dv: u64 = (c as u64) - ('0' as u64);
        proof {
            lemma_pow10_mono(k as nat, 14);
            assert(pow10(14) == 100000000000000) by {
                reveal_with_fuel(pow10, 15);
            }
            assert(t@.subrange(0, k + 1).drop_last() =~= t@.subrange(0, k as int));
            assert(t@.subrange(0, k + 1).last() == t@[k as int]);
        }
        acc = 10 * acc + dv;
        k += 1;
    }
    assert(whole =~= t@.subrange(0, d as int));
    assert(acc == whole_val(whole));
    assert(all_digits(whole));
    proof {
        lemma_pow10_mono(d as nat, 15);
        assert(pow10(15) == 1000000000000000) by {
            reveal_with_fuel(pow10, 16);
        }
    }
    // fractional part: all digits, first three kept
    let mut f0: u64 = 0;
    let mut f1: u64 = 0;
    let mut f2: u64 = 0;
    if d < n {
        let mut j: usize = d + 1;
        while j < n
            invariant
                d < n,
                d + 1 <= j <= n,
                n == t@.len(),
                frac == t@.subrange(d + 1, n as int),
                all_digits(t@.subrange(d + 1, j as int)),
                j >= d + 2 ==> f0 == frac_d(frac, 0),
                j >= d + 3 ==> f1 == frac_d(frac, 1),
                j >= d + 4 ==> f2 == frac_d(frac, 2),
                j < d + 2 ==> f0 == 0,
                j < d + 3 ==> f1 == 0,
                j < d + 4 ==> f2 == 0,
                f0 <= 9 && f1 <= 9 && f2 <= 9,
            decreases n - j,
        {
            let c = t[j];
            if !('0' <= c && c <= '9') {
                assert(!all_digits(frac)) by {
                    assert(frac[j - d - 1] == t@[j as int]);
                }
                return None;
            }
            let dv: u64 = (c as u64) - ('0' as u64);
            proof {
                assert(t@.subrange(d + 1, j + 1).drop_last() =~= t@.subrange(d + 1, j as int));
                assert(frac[j - d - 1] == t@[j as int]);
            }
            if j == d + 1 {
                f0 = dv;
            } else if j == d + 2 {
                f1 = dv;
            } else if j == d + 3 {
                f2 = dv;
            }
            j += 1;
        }
        assert(frac =~= t@.subrange(d + 1, n as int));
        assert(all_digits(frac));
        if n < d + 2 {
            assert(frac.len() == 0);
            assert(whole.len() + frac.len() >= 1);
        }
    } else {
        assert(frac.len() == 0);
    }
    let fm: u64 = 100 * f0 + 10 * f1 + f2;
    assert(fm == frac_milli(frac));
    Some(1000 * acc + fm)
}

/// The token list of an argument text: numbers, commas and slashes, with
/// whitespace immaterial; an unexpected character or a malformed number
/// poisons the whole list.
pub open spec fn spec_tokens(s: Seq<char>, i: int) -> Option<Seq<Tok>>
    decreases s.len() - i,
    via spec_tokens_decreases
{
    if !(0 <= i < s.len()) {
        Some(Seq::empty())
    } else if is_css_ws(s[i]) {
        spec_tokens(s, i + 1)
    } else if s[i] == ',' {
        match spec_tokens(s, i + 1) {
            Some(rest) => Some(seq![Tok::Comma] + rest),
            None => None,
        }
    } else if s[i] == '/' {
        match spec_tokens(s, i + 1) {
            Some(rest) => Some(seq![Tok::Slash] + rest),
            None => None,
        }
    } else if is_num_char(s[i]) {
        let j = i + 1 + num_run_len(s.skip(i + 1));
        match spec_num_milli(s.subrange(i, j)) {
            None => None,
            Some(m) => {
                let pct = j < s.len() && s[j] == '%';
                let next = if pct {
                    j + 1
                } else {
                    j
                };
                match spec_tokens(s, next) {
                    Some(rest) => Some(seq![Tok::Num(NumVal { milli: m, percent: pct })] + rest),
                    None => None,
                }
            },
        }
    } else {
        None
    }
}

pub proof fn lemma_num_run_len_le(s: Seq<char>)
    ensures
        num_run_len(s) <= s.len(),
    decreases s.len(),
{
    if s.len() > 0 && is_num_char(s[0]) {
        lemma_num_run_len_le(s.skip(1));
    }
}

#[via_fn]
proof fn spec_tokens_decreases(s: Seq<char>, i: int) {
    if 0 <= i < s.len() {
        lemma_num_run_len_le(s.skip(i + 1));
    }
}

pub proof fn lemma_num_run_at(s: Seq<char>, i: int, p: int)
    requires
        0 <= i <= p <= s.len(),
        forall|k: int| i <= k < p ==> is_num_char(s[k]),
        p == s.len() || !is_num_char(s[p]),
    ensures
        i + num_run_len(s.skip(i)) == p,
    decreases p - i,
{
    if i == p {
        if i < s.len() {
            assert(s.skip(i)[0] == s[i]);
        }
    } else {
        assert(s.skip(i)[0] == s[i]);
        assert(s.skip(i).skip(1) =~= s.skip(i + 1));
        lemma_num_run_at(s, i + 1, p);
    }
}

/// The prefix `p` prepended to a token list, where one exists.
pub open spec fn with_prefix(p: Seq<Tok>, rest: Option<Seq<Tok>>) -> Option<Seq<Tok>> {
    match rest {
        Some(r) => Some(p + r),
        None => None,
    }
}

/// Tokenizes the argument text of a functional notation.
#[verifier::loop_isolation(false)]
pub fn tokenize(v: &Vec<char>) -> (r: Option<Vec<Tok>>)
    ensures
        match r {
            Some(toks) => Some(toks@) == spec_tokens(v@, 0),
            None => spec_tokens(v@, 0) is None,
        },
{
    let n = v.len();
    let mut toks: Vec<Tok> = Vec::new();
    let mut i: usize = 0;
    while i < n
        invariant
            0 <= i <= n,
            with_prefix(toks@, spec_tokens(v@, i as int)) == spec_tokens(v@, 0),
        decreases n - i,
    {
        let c = v[i];
        if c == ' ' || c == '\t' || c == '\n' || c == '\r' || c == '\u{b}' || c == '\u{c}' {
            i += 1;
        } else if c == ',' {
            toks.push(Tok::Comma);
            i += 1;
            proof {
                if spec_tokens(v@, i as int) is Some {
                    assert(toks@ + spec_tokens(v@, i as int)->0 =~= toks@.drop_last() + (seq![
                        Tok::Comma,
                    ] + spec_tokens(v@, i as int)->0));
                }
            }
        } else if c == '/' {
            toks.push(Tok::Slash);
            i += 1;
            proof {
                if spec_tokens(v@, i as int) is Some {
                    assert(toks@ + spec_tokens(v@, i as int)->0 =~= toks@.drop_last() + (seq![
                        Tok::Slash,
                    ] + spec_tokens(v@, i as int)->0));
                }
            }
        } else if ('0' <= c && c <= '9') || c == '.' {
            // the maximal run of numeric characters starting here
            let mut j: usize = i + 1;
            while j < n
                invariant
                    i < j <= n,
                    forall|k: int| i <= k < j ==> is_num_char(v@[k]),
                decreases n - j,
            {
                let cj = v[j];
                if !(('0' <= cj && cj <= '9') || cj == '.') {
                    break;
                }
                j += 1;
            }
            proof {
                lemma_num_run_at(v@, i + 1, j as int);
            }
            let tok_text = crate::scan::vec_slice(v, i, j);
            match parse_num_chars(&tok_text) {
                None => {
                    return None;
                },
                Some(m) => {
                    let pct = j < n && v[j] == '%';
                    toks.push(Tok::Num(NumVal { milli: m, percent: pct }));
                    if pct {
                        i = j + 1;
                    } else {
                        i = j;
                    }
                    proof {
                        if spec_tokens(v@, i as int) is Some {
                            assert(toks@ + spec_tokens(v@, i as int)->0 =~= toks@.drop_last() + (
                            seq![Tok::Num(NumVal { milli: m, percent: pct })] + spec_tokens(
                                v@,
                                i as int,
                            )->0));
                        }
                    }
                },
            }
        } else {
            return None;
        }
    }
    assert(toks@ + Seq::<Tok>::empty() =~= toks@);
    Some(toks)
}

/// The numeric arguments of a token list, in order.
pub open spec fn nums_of(toks: Seq<Tok>, i: int) -> Seq<NumVal>
    decreases toks.len() - i,
{
    if !(0 <= i < toks.len()) {
        Seq::empty()
    } else {
        match toks[i] {
            Tok::Num(nv) => seq![nv] + nums_of(toks, i + 1),
            _ => nums_of(toks, i + 1),
        }
    }
}

/// Collects the numeric arguments of a token list, in order.
#[verifier::loop_isolation(false)]
pub fn collect_nums(toks: &Vec<Tok>) -> (r: Vec<NumVal>)
    ensures
        r@ == nums_of(toks@, 0),
{
    let n = toks.len();
    let mut r: Vec<NumVal> = Vec::new();
    let mut i: usize = 0;
    while i < n
        invariant
            0 <= i <= n,
            r@ + nums_of(toks@, i as int) == nums_of(toks@, 0),
        decreases n - i,
    {
        match toks[i] {
            Tok::Num(nv) => {
                r.push(nv);
                i += 1;
                proof {
                    assert(r@ + nums_of(toks@, i as int) =~= r@.drop_last() + (seq![nv] + nums_of(
                        toks@,
                        i as int,
                    )));
                }
            },
            _ => {
                i += 1;
            },
        }
    }
    assert(r@ + nums_of(toks@, i as int) =~= r@);
    r
}

/// Whether a token list has the shape of an argument list: it begins and
/// ends with a number, at most one separator stands between consecutive
/// numbers, and a slash stands only directly before the final number,
/// where it introduces the alpha argument.
pub open spec fn args_well_formed(toks: Seq<Tok>) -> bool {
    &&& toks.len() >= 1
    &&& toks[0] is Num
    &&& toks[toks.len() - 1] is Num
    &&& forall|i: int| 0 <= i < toks.len() - 1 ==> (#[trigger] toks[i] is Num || toks[i + 1] is Num)
    &&& forall|i: int| 0 <= i < toks.len() ==> (toks[i] is Slash ==> i == toks.len() - 2)
}

/// Whether a slash separator occurs anywhere in the token list.
pub open spec fn has_slash(toks: Seq<Tok>) -> bool {
    exists|i: int| 0 <= i < toks.len() && toks[i] is Slash
}

/// Whether any slash separator stands in the token list.
#[verifier::loop_isolation(false)]
fn has_slash_exec(toks: &Vec<Tok>) -> (r: bool)
    ensures
        r == has_slash(toks@),
{
    let n = toks.len();
    let mut i: usize = 0;
    while i < n
        invariant
            0 <= i <= n,
            forall|k: int| 0 <= k < i ==> !(toks@[k] is Slash),
        decreases n - i,
    {
        match toks[i] {
            Tok::Slash => {
                return true;
            },
            _ => {},
        }
        i += 1;
    }
    false
}

/// Whether the token list has the shape of an argument list.
#[verifier::loop_isolation(false)]
fn args_shape_ok(toks: &Vec<Tok>) -> (r: bool)
    ensures
        r == args_well_formed(toks@),
{
    let n = toks.len();
    if n == 0 {
        return false;
    }
    let first_num = match toks[0] {
        Tok::Num(_) => true,
        _ => false,
    };
    let last_num = match toks[n - 1] {
        Tok::Num(_) => true,
        _ => false,
    };
    if !first_num || !last_num {
        return false;
    }
    let mut i: usize = 0;
    while i < n
        invariant
            0 <= i <= n,
            n == toks@.len(),
            forall|k: int| 0 <= k < i ==> (toks@[k] is Slash ==> k == n - 2),
            forall|k: int|
                0 <= k < i && k < n - 1 ==> (#[trigger] toks@[k] is Num || toks@[k + 1] is Num),
        decreases n - i,
    {
        match toks[i] {
            Tok::Slash => {
                if i != n - 2 {
                    return false;
                }
            },
            _ => {},
        }
        if i + 1 < n {
            let a_num = match toks[i] {
                Tok::Num(_) => true,
                _ => false,
            };
            let b_num = match toks[i + 1] {
                Tok::Num(_) => true,
                _ => false,
            };
            if !a_num && !b_num {
                return false;
            }
        }
        i += 1;
    }
    true
}

/// `v` clamped from above to `hi`.
pub open spec fn clamped(v: int, hi: int) -> int {
    if v > hi {
        hi
    } else {
        v
    }
}

/// The absolute value.
pub open spec fn abs_i(v: int) -> int {
    if v < 0 {
        -v
    } else {
        v
    }
}

/// An `rgb()` color channel as an 8-bit value: a percentage scales to the
/// 0-255 range, a plain number clamps to it; fractions truncate.
pub open spec fn rgb_channel_val(n: NumVal) -> int {
    if n.percent {
        clamped(n.milli as int, 100000) * 255 / 100000
    } else {
        clamped(n.milli as int, 255000) / 1000
    }
}

/// An alpha value as an 8-bit channel: a percentage of 255, or a fraction
/// of one clamped to it; fractions truncate.
pub open spec fn alpha_channel_val(n: NumVal) -> int {
    if n.percent {
        clamped(n.milli as int, 100000) * 255 / 100000
    } else {
        clamped(n.milli as int, 1000) * 255 / 1000
    }
}

/// A percentage argument clamped to its natural 0-100 range, kept in
/// thousandths of a percentage point.
pub open spec fn percent_milli(n: NumVal) -> int {
    clamped(n.milli as int, 100000)
}

/// A hue argument reduced to one turn, in thousandths of a degree.
pub open spec fn hue_milli(n: NumVal) -> int {
    (n.milli as int) % 360000
}

/// The standard HSL-to-sRGB conversion on values in thousandths (hue in
/// [0, 360000), saturation and lightness in [0, 100000]), each resulting
/// channel scaled to 0-255 with truncation.  `a1` is the chroma factor
/// `1 - |2l - 1|` and `a2n` the intermediate factor `1 - |(h / 60) mod 2 - 1|`,
/// both as exact fractions.
pub open spec fn hsl_rgb(h: int, s: int, l: int) -> (int, int, int) {
    let a1 = 100000 - abs_i(2 * l - 100000);
    let a2n = 60000 - abs_i(h % 120000 - 60000);
    let cs = a1 * s;  // chroma, as a fraction over 10^10
    let mnum = 200000 * l - cs;  // the match value m = l - chroma/2, over 2*10^10
    let chan_c = (2 * cs + mnum) * 255 / 20000000000;
    let chan_x = (cs * a2n + 30000 * mnum) * 255 / 600000000000000;
    let chan_0 = mnum * 255 / 20000000000;
    let k = h / 60000;
    if k == 0 {
        (chan_c, chan_x, chan_0)
    } else if k == 1 {
        (chan_x, chan_c, chan_0)
    } else if k == 2 {
        (chan_0, chan_c, chan_x)
    } else if k == 3 {
        (chan_0, chan_x, chan_c)
    } else if k == 4 {
        (chan_x, chan_0, chan_c)
    } else {
        (chan_c, chan_0, chan_x)
    }
}

/// The standard HWB-to-sRGB conversion on values in thousandths: each pure
/// hue channel `p` becomes `w + p * (1 - w - b)`; where whiteness and
/// blackness sum past one they are normalized to a gray.  Channels scale to
/// 0-255 with truncation.
pub open spec fn hwb_rgb(h: int, w: int, b: int) -> (int, int, int) {
    if w + b >= 100000 {
        let g = w * 255 / (w + b);
        (g, g, g)
    } else {
        let a2n = 60000 - abs_i(h % 120000 - 60000);
        let rest = 100000 - w - b;
        let chan_c = (60000 * w + 60000 * rest) * 255 / 6000000000;
        let chan_x = (60000 * w + a2n * rest) * 255 / 6000000000;
        let chan_0 = 60000 * w * 255 / 6000000000;
        let k = h / 60000;
        if k == 0 {
            (chan_c, chan_x, chan_0)
        } else if k == 1 {
            (chan_x, chan_c, chan_0)
        } else if k == 2 {
            (chan_0, chan_c, chan_x)
        } else if k == 3 {
            (chan_0, chan_x, chan_c)
        } else if k == 4 {
            (chan_x, chan_0, chan_c)
        } else {
            (chan_c, chan_0, chan_x)
        }
    }
}

proof fn lemma_frac_le_255(num: int, den: int)
    requires
        0 < den,
        0 <= num <= den,
    ensures
        0 <= num * 255 / den <= 255,
{
    vstd::arithmetic::div_mod::lemma_div_is_ordered(num * 255, den * 255, den);
    vstd::arithmetic::div_mod::lemma_div_multiples_vanish(255, den);
    vstd::arithmetic::div_mod::lemma_div_pos_is_pos(num * 255, den);
}

/// One `rgb()` channel as an 8-bit value.
fn rgb_channel(n: NumVal) -> (r: u8)
    ensures
        r as int == rgb_channel_val(n),
{
    if n.percent {
        let m: u64 = if n.milli > 100000 {
            100000
        } else {
            n.milli
        };
        proof {
            lemma_frac_le_255(m as int, 100000);
        }
        (m * 255 / 100000) as u8
    } else {
        let m: u64 = if n.milli > 255000 {
            255000
        } else {
            n.milli
        };
        (m / 1000) as u8
    }
}

/// One alpha argument as an 8-bit value.
fn alpha_channel(n: NumVal) -> (r: u8)
    ensures
        r as int == alpha_channel_val(n),
{
    if n.percent {
        let m: u64 = if n.milli > 100000 {
            100000
        } else {
            n.milli
        };
        proof {
            lemma_frac_le_255(m as int, 100000);
        }
        (m * 255 / 100000) as u8
    } else {
        let m: u64 = if n.milli > 1000 {
            1000
        } else {
            n.milli
        };
        proof {
            lemma_frac_le_255(m as int, 1000);
        }
        (m * 255 / 1000) as u8
    }
}

/// A percentage argument clamped to its natural range.
fn percent_arg(n: NumVal) -> (r: u64)
    ensures
        r as int == percent_milli(n),
        r <= 100000,
{
    if n.milli > 100000 {
        100000
    } else {
        n.milli
    }
}

proof fn lemma_hsl_core_bounds(s: int, l: int, a1: int)
    requires
        0 <= s <= 100000,
        0 <= l <= 100000,
        a1 == 100000 - abs_i(2 * l - 100000),
    ensures
        0 <= a1 <= 100000,
        0 <= a1 * s <= 200000 * l,
        a1 * s + 200000 * l <= 20000000000,
{
    if 2 * l <= 100000 {
        assert(a1 == 2 * l);
        assert(a1 * s <= 200000 * l && a1 * s >= 0 && a1 * s + 200000 * l <= 20000000000)
            by (nonlinear_arith)
            requires
                a1 == 2 * l,
                0 <= s <= 100000,
                0 <= l,
                2 * l <= 100000,
        ;
    } else {
        assert(a1 == 200000 - 2 * l);
        assert(a1 * s <= 200000 * l && a1 * s >= 0 && a1 * s + 200000 * l <= 20000000000)
            by (nonlinear_arith)
            requires
                a1 == 200000 - 2 * l,
                0 <= s <= 100000,
                2 * l > 100000,
                l <= 100000,
        ;
    }
}

/// The HSL conversion on already-validated fixed-point arguments.
fn hsl_to_rgb(h: u64, s: u64, l: u64) -> (rgb: (u8, u8, u8))
    requires
        h < 360000,
        s <= 100000,
        l <= 100000,
    ensures
        rgb.0 as int == hsl_rgb(h as int, s as int, l as int).0,
        rgb.1 as int == hsl_rgb(h as int, s as int, l as int).1,
        rgb.2 as int == hsl_rgb(h as int, s as int, l as int).2,
{
    let a1: u64 = if 2 * l >= 100000 {
        200000 - 2 * l
    } else {
        2 * l
    };
    proof {
        lemma_hsl_core_bounds(s as int, l as int, a1 as int);
    }
    let hm: u64 = h % 120000;
    let a2n: u64 = if hm >= 60000 {
        120000 - hm
    } else {
        hm
    };
    let cs: u64 = a1 * s;
    let mnum: u64 = 200000 * l - cs;
    proof {
        assert(2 * cs + mnum == cs + 200000 * (l as int));
        lemma_frac_le_255((2 * cs + mnum) as int, 20000000000);
        assert(cs * a2n <= cs * 60000) by (nonlinear_arith)
            requires
                0 <= cs,
                0 <= a2n <= 60000,
        ;
        assert(cs * a2n + 30000 * mnum <= 30000 * (2 * cs + mnum));
        lemma_frac_le_255((cs * a2n + 30000 * mnum) as int, 600000000000000);
        lemma_frac_le_255(mnum as int, 20000000000);
    }
    let chan_c: u64 = (2 * cs + mnum) * 255 / 20000000000;
    let chan_x: u64 = (cs * a2n + 30000 * mnum) * 255 / 600000000000000;
    let chan_0: u64 = mnum * 255 / 20000000000;
    let k: u64 = h / 60000;
    proof {
        vstd::arithmetic::div_mod::lemma_div_is_ordered(h as int, 359999, 60000);
    }
    if k == 0 {
        (chan_c as u8, chan_x as u8, chan_0 as u8)
    } else if k == 1 {
        (chan_x as u8, chan_c as u8, chan_0 as u8)
    } else if k == 2 {
        (chan_0 as u8, chan_c as u8, chan_x as u8)
    } else if k == 3 {
        (chan_0 as u8, chan_x as u8, chan_c as u8)
    } else if k == 4 {
        (chan_x as u8, chan_0 as u8, chan_c as u8)
    } else {
        (chan_c as u8, chan_0 as u8, chan_x as u8)
    }
}

/// The HWB conversion on already-validated fixed-point arguments.
fn hwb_to_rgb(h: u64, w: u64, b: u64) -> (rgb: (u8, u8, u8))
    requires
        h < 360000,
        w <= 100000,
        b <= 100000,
    ensures
        rgb.0 as int == hwb_rgb(h as int, w as int, b as int).0,
        rgb.1 as int == hwb_rgb(h as int, w as int, b as int).1,
        rgb.2 as int == hwb_rgb(h as int, w as int, b as int).2,
{
    if w + b >= 100000 {
        proof {
            lemma_frac_le_255(w as int, (w + b) as int);
        }
        let g: u64 = w * 255 / (w + b);
        (g as u8, g as u8, g as u8)
    } else {
        let hm: u64 = h % 120000;
        let a2n: u64 = if hm >= 60000 {
            120000 - hm
        } else {
            hm
        };
        let rest: u64 = 100000 - w - b;
        proof {
            assert(a2n * rest <= 60000 * rest) by (nonlinear_arith)
                requires
                    0 <= a2n <= 60000,
                    0 <= rest,
            ;
            assert(60000 * w + 60000 * (rest as int) <= 6000000000);
            lemma_frac_le_255((60000 * w + 60000 * rest) as int, 6000000000);
            lemma_frac_le_255((60000 * w + a2n * rest) as int, 6000000000);
            lemma_frac_le_255((60000 * w) as int, 6000000000);
        }
        let chan_c: u64 = (60000 * w + 60000 * rest) * 255 / 6000000000;
        let chan_x: u64 = (60000 * w + a2n * rest) * 255 / 6000000000;
        let chan_0: u64 = 60000 * w * 255 / 6000000000;
        let k: u64 = h / 60000;
        proof {
            vstd::arithmetic::div_mod::lemma_div_is_ordered(h as int, 359999, 60000);
        }
        if k == 0 {
            (chan_c as u8, chan_x as u8, chan_0 as u8)
        } else if k == 1 {
            (chan_x as u8, chan_c as u8, chan_0 as u8)
        } else if k == 2 {
            (chan_0 as u8, chan_c as u8, chan_x as u8)
        } else if k == 3 {
            (chan_0 as u8, chan_x as u8, chan_c as u8)
        } else if k == 4 {
            (chan_x as u8, chan_0 as u8, chan_c as u8)
        } else {
            (chan_c as u8, chan_0 as u8, chan_x as u8)
        }
    }
}

/// The color denoted by the argument text of one functional notation:
/// three channel arguments and an optional alpha, with exactly one
/// separator (comma, slash or whitespace boundary) between consecutive
/// arguments and a slash only introducing the alpha; any other argument
/// count or shape, or a percentage hue, is no color.
pub open spec fn spec_functional_color(name: FuncName, inner: Seq<char>) -> Option<Color> {
    match spec_tokens(inner, 0) {
        None => None,
        Some(toks) => {
            let ns = nums_of(toks, 0);
            if !(args_well_formed(toks) && (ns.len() == 3 || ns.len() == 4) && (has_slash(toks)
                ==> ns.len() == 4)) {
                None
            } else {
                let alpha = if ns.len() == 4 {
                    alpha_channel_val(ns[3])
                } else {
                    255
                };
                match name {
                    FuncName::Rgb => Some(
                        Color {
                            red: rgb_channel_val(ns[0]) as u8,
                            green: rgb_channel_val(ns[1]) as u8,
                            blue: rgb_channel_val(ns[2]) as u8,
                            alpha: alpha as u8,
                        },
                    ),
                    FuncName::Hsl => if ns[0].percent {
                        None
                    } else {
                        let m = hsl_rgb(hue_milli(ns[0]), percent_milli(ns[1]), percent_milli(ns[2]));
                        Some(
                            Color {
                                red: m.0 as u8,
                                green: m.1 as u8,
                                blue: m.2 as u8,
                                alpha: alpha as u8,
                            },
                        )
                    },
                    FuncName::Hwb => if ns[0].percent {
                        None
                    } else {
                        let m = hwb_rgb(hue_milli(ns[0]), percent_milli(ns[1]), percent_milli(ns[2]));
                        Some(
                            Color {
                                red: m.0 as u8,
                                green: m.1 as u8,
                                blue: m.2 as u8,
                                alpha: alpha as u8,
                            },
                        )
                    },
                }
            }
        },
    }
}

/// Parses the argument text of one functional notation into a color.
pub fn parse_functional(name: FuncName, inner: &Vec<char>) -> (r: Option<Color>)
    ensures
        r == spec_functional_color(name, inner@),
{
    let toks = match tokenize(inner) {
        Some(t) => t,
        None => {
            return None;
        },
    };
    let ns = collect_nums(&toks);
    let len = ns.len();
    if !args_shape_ok(&toks) || !(len == 3 || len == 4) || (has_slash_exec(&toks) && len != 4) {
        return None;
    }
    let alpha: u8 = if len == 4 {
        alpha_channel(ns[3])
    } else {
        255
    };
    match name {
        FuncName::Rgb => Some(
            Color {
                red: rgb_channel(ns[0]),
                green: rgb_channel(ns[1]),
                blue: rgb_channel(ns[2]),
                alpha,
            },
        ),
        FuncName::Hsl => {
            if ns[0].percent {
                return None;
            }
            let h: u64 = ns[0].milli % 360000;
            let m = hsl_to_rgb(h, percent_arg(ns[1]), percent_arg(ns[2]));
            Some(Color { red: m.0, green: m.1, blue: m.2, alpha })
        },
        FuncName::Hwb => {
            if ns[0].percent {
                return None;
            }
            let h: u64 = ns[0].milli % 360000;
            let m = hwb_to_rgb(h, percent_arg(ns[1]), percent_arg(ns[2]));
            Some(Color { red: m.0, green: m.1, blue: m.2, alpha })
        },
    }
}

} // verus!
