//! The color extractor: recognizes every CSS color notation inside
//! arbitrary text and normalizes each to 8-bit RGBA.

use vstd::prelude::*;

verus! {

use crate::color::Color;

/// Whether `c` is an ASCII hexadecimal digit.
pub open spec fn is_hex_digit(c: char) -> bool {
    ('0' <= c && c <= '9') || ('a' <= c && c <= 'f') || ('A' <= c && c <= 'F')
}

/// The value of one hexadecimal digit.
pub open spec fn hex_val(c: char) -> int
    recommends
        is_hex_digit(c),
{
    if '0' <= c && c <= '9' {
        c as int - '0' as int
    } else if 'a' <= c && c <= 'f' {
        10 + c as int - 'a' as int
    } else {
        10 + c as int - 'A' as int
    }
}

/// The byte encoded by two hexadecimal digits.
pub open spec fn spec_hex_byte(hi: char, lo: char) -> int {
    16 * hex_val(hi) + hex_val(lo)
}

/// One or two hexadecimal digits as their base-16 value, if the text is
/// exactly that.
pub open spec fn spec_parse_hex(s: Seq<char>) -> Option<u8> {
    if s.len() == 1 && is_hex_digit(s[0]) {
        Some(hex_val(s[0]) as u8)
    } else if s.len() == 2 && is_hex_digit(s[0]) && is_hex_digit(s[1]) {
        Some(spec_hex_byte(s[0], s[1]) as u8)
    } else {
        None
    }
}

/// A single hexadecimal digit as a byte by nibble doubling (value times 17),
/// if the text is exactly that.
pub open spec fn spec_parse_hex_shorthand(s: Seq<char>) -> Option<u8> {
    if s.len() == 1 && is_hex_digit(s[0]) {
        Some((17 * hex_val(s[0])) as u8)
    } else {
        None
    }
}

/// The color denoted by a run of 3, 4, 6 or 8 hexadecimal digits (without
/// the leading `#`): shorthand digits double their nibble, a missing alpha
/// channel defaults to fully opaque.  Any other length, or a non-digit, is
/// not a color.
pub open spec fn spec_hex_color(s: Seq<char>) -> Option<Color> {
    if !(forall|i: int| 0 <= i < s.len() ==> is_hex_digit(s[i])) {
        None
    } else if s.len() == 3 {
        Some(Color {
            red: (17 * hex_val(s[0])) as u8,
            green: (17 * hex_val(s[1])) as u8,
            blue: (17 * hex_val(s[2])) as u8,
            alpha: 255,
        })
    } else if s.len() == 4 {
        Some(Color {
            red: (17 * hex_val(s[0])) as u8,
            green: (17 * hex_val(s[1])) as u8,
            blue: (17 * hex_val(s[2])) as u8,
            alpha: (17 * hex_val(s[3])) as u8,
        })
    } else if s.len() == 6 {
        Some(Color {
            red: spec_hex_byte(s[0], s[1]) as u8,
            green: spec_hex_byte(s[2], s[3]) as u8,
            blue: spec_hex_byte(s[4], s[5]) as u8,
            alpha: 255,
        })
    } else if s.len() == 8 {
        Some(Color {
            red: spec_hex_byte(s[0], s[1]) as u8,
            green: spec_hex_byte(s[2], s[3]) as u8,
            blue: spec_hex_byte(s[4], s[5]) as u8,
            alpha: spec_hex_byte(s[6], s[7]) as u8,
        })
    } else {
        None
    }
}

/// The value of one hexadecimal digit character, if it is one.
fn hex_digit_value(c: char) -> (r: Option<u8>)
    ensures
        r is Some <==> is_hex_digit(c),
        r is Some ==> r->0 == hex_val(c),
{
    if '0' <= c && c <= '9' {
        Some((c as u8) - ('0' as u8))
    } else if 'a' <= c && c <= 'f' {
        Some(10 + (c as u8) - ('a' as u8))
    } else if 'A' <= c && c <= 'F' {
        Some(10 + (c as u8) - ('A' as u8))
    } else {
        None
    }
}

/// Parses one or two hexadecimal digits as their base-16 value; any other
/// text is discarded rather than an error.
pub fn parse_hex(hex: &str) -> (r: Option<u8>)
    ensures
        r == spec_parse_hex(hex@),
{
    let n = hex.unicode_len();
    if n == 1 {
        return hex_digit_value(hex.get_char(0));
    }
    if n != 2 {
        return None;
    }
    let hi = match hex_digit_value(hex.get_char(0)) {
        Some(v) => v,
        None => { return None; },
    };
    let lo = match hex_digit_value(hex.get_char(1)) {
        Some(v) => v,
        None => { return None; },
    };
    Some(16 * hi + lo)
}

/// Parses one shorthand hexadecimal digit as one byte by nibble doubling.
pub fn parse_hex_shorthand(hex: &str) -> (r: Option<u8>)
    ensures
        r == spec_parse_hex_shorthand(hex@),
{
    let n = hex.unicode_len();
    if n != 1 {
        return None;
    }
    match hex_digit_value(hex.get_char(0)) {
        Some(v) => Some(17 * v),
        None => None,
    }
}

/// Parses a run of hexadecimal digits (without the leading `#`) as a color;
/// a run of an unsupported length is discarded rather than an error.
pub fn parse_hex_rgb_str(hex_rgb: &str) -> (r: Option<Color>)
    ensures
        r == spec_hex_color(hex_rgb@),
{
    let chars = chars_of(hex_rgb);
    hex_color_of_chars(&chars)
}

/// Parses a run of hexadecimal digit characters as a color.
pub(crate) fn hex_color_of_chars(chars: &Vec<char>) -> (r: Option<Color>)
    ensures
        r == spec_hex_color(chars@),
{
    let n = chars.len();
    if !(n == 3 || n == 4 || n == 6 || n == 8) {
        return None;
    }
    let mut vals: Vec<u8> = Vec::new();
    let mut i: usize = 0;
    while i < n
        invariant
            i <= n,
            n == chars@.len(),
            vals@.len() == i,
            forall|j: int| 0 <= j < i ==> is_hex_digit(chars@[j]),
            forall|j: int| 0 <= j < i ==> vals@[j] == hex_val(chars@[j]),
        decreases n - i,
    {
        match hex_digit_value(chars[i]) {
            Some(v) => { vals.push(v); },
            None => {
                assert(!is_hex_digit(chars@[i as int]));
                return None;
            },
        }
        i += 1;
    }
    assert(forall|j: int| 0 <= j < chars@.len() ==> is_hex_digit(chars@[j]));
    if n == 3 {
        Some(Color { red: 17 * vals[0], green: 17 * vals[1], blue: 17 * vals[2], alpha: 255 })
    } else if n == 4 {
        Some(
            Color {
                red: 17 * vals[0],
                green: 17 * vals[1],
                blue: 17 * vals[2],
                alpha: 17 * vals[3],
            },
        )
    } else if n == 6 {
        Some(
            Color {
                red: 16 * vals[0] + vals[1],
                green: 16 * vals[2] + vals[3],
                blue: 16 * vals[4] + vals[5],
                alpha: 255,
            },
        )
    } else {
        Some(
            Color {
                red: 16 * vals[0] + vals[1],
                green: 16 * vals[2] + vals[3],
                blue: 16 * vals[4] + vals[5],
                alpha: 16 * vals[6] + vals[7],
            },
        )
    }
}

/// The hexadecimal digits taken by a greedy match on a run of `n` of them
/// after `#`: three digits always, then five, four or three more, or a
/// single extra alpha nibble; zero where no color can start.
pub open spec fn hex_take(n: int) -> int {
    if n >= 8 {
        8
    } else if n >= 6 {
        n
    } else if n >= 4 {
        4
    } else if n >= 3 {
        3
    } else {
        0
    }
}

/// Whether `c` may stand between the parentheses of a functional notation:
/// digits, separators, percent signs and decimal points, however spaced.
pub open spec fn is_inner_char(c: char) -> bool {
    crate::functional::is_css_ws(c) || crate::functional::is_digit(c) || c == '%' || c == '/'
        || c == '.' || c == ','
}

/// The hex-digit predicate, as one shared value.
pub open spec fn hex_digit_pred() -> spec_fn(char) -> bool {
    |c: char| is_hex_digit(c)
}

/// The argument-character predicate, as one shared value.
pub open spec fn inner_char_pred() -> spec_fn(char) -> bool {
    |c: char| is_inner_char(c)
}

/// The whitespace predicate, as one shared value.
pub open spec fn ws_pred() -> spec_fn(char) -> bool {
    |c: char| crate::functional::is_css_ws(c)
}

/// The lowercase-letter predicate, as one shared value.
pub open spec fn lower_alpha_pred() -> spec_fn(char) -> bool {
    |c: char| is_lower_alpha(c)
}

/// The functional notation whose name and opening parenthesis stand at `i`,
/// with the position just after the parenthesis.
pub open spec fn func_at(s: Seq<char>, i: int) -> Option<(crate::functional::FuncName, int)> {
    if crate::scan::matches_at(s, i, "hsla("@) {
        Some((crate::functional::FuncName::Hsl, i + 5))
    } else if crate::scan::matches_at(s, i, "hsl("@) {
        Some((crate::functional::FuncName::Hsl, i + 4))
    } else if crate::scan::matches_at(s, i, "rgba("@) {
        Some((crate::functional::FuncName::Rgb, i + 5))
    } else if crate::scan::matches_at(s, i, "rgb("@) {
        Some((crate::functional::FuncName::Rgb, i + 4))
    } else if crate::scan::matches_at(s, i, "hwb("@) {
        Some((crate::functional::FuncName::Hwb, i + 4))
    } else {
        None
    }
}

/// The hex or functional color candidate starting at `i`: the position
/// right after the candidate, and the color it denotes, if it parses.
pub open spec fn srgb_match_at(s: Seq<char>, i: int) -> Option<(int, Option<Color>)>
    recommends
        0 <= i < s.len(),
{
    if s[i] == '#' {
        let h = crate::scan::run_len(s.skip(i + 1), hex_digit_pred()) as int;
        let k = hex_take(h);
        if k == 0 {
            None
        } else {
            Some((i + 1 + k, spec_hex_color(s.subrange(i + 1, i + 1 + k))))
        }
    } else {
        match func_at(s, i) {
            Some((name, p)) => {
                let e = p + crate::scan::run_len(s.skip(p), inner_char_pred()) as int;
                if e - p >= 5 && e < s.len() && s[e] == ')' {
                    Some((e + 1, crate::functional::spec_functional_color(name, s.subrange(p, e))))
                } else {
                    None
                }
            },
            None => None,
        }
    }
}

/// Every color denoted by a hex or functional candidate at or after `i`, in
/// match order; candidates that fail to parse are passed over.
pub open spec fn spec_scan_srgb(s: Seq<char>, i: int) -> Seq<Color>
    decreases s.len() - i,
    via spec_scan_srgb_decreases
{
    if !(0 <= i < s.len()) {
        Seq::empty()
    } else {
        match srgb_match_at(s, i) {
            Some((next, copt)) => {
                let rest = spec_scan_srgb(s, next);
                match copt {
                    Some(c) => seq![c] + rest,
                    None => rest,
                }
            },
            None => spec_scan_srgb(s, i + 1),
        }
    }
}

#[via_fn]
proof fn spec_scan_srgb_decreases(s: Seq<char>, i: int) {
    if 0 <= i < s.len() {
        crate::scan::lemma_run_len_le(s.skip(i + 1), hex_digit_pred());
    }
}

/// Whether `c` is a lowercase letter, as the keyword table's entries are.
pub open spec fn is_lower_alpha(c: char) -> bool {
    'a' <= c && c <= 'z'
}

/// The keyword declaration starting at `i`: a colon, optional whitespace, a
/// keyword of the table, optional whitespace and a semicolon.  Gives the
/// position right after the semicolon and the keyword's color.
pub open spec fn keyword_match_at(s: Seq<char>, i: int) -> Option<(int, Color)>
    recommends
        0 <= i < s.len(),
{
    if s[i] == ':' {
        let j = i + 1 + crate::scan::run_len(s.skip(i + 1), ws_pred()) as int;
        let e = j + crate::scan::run_len(s.skip(j), lower_alpha_pred()) as int;
        if e > j {
            let w = e + crate::scan::run_len(s.skip(e), ws_pred()) as int;
            if w < s.len() && s[w] == ';' {
                match crate::keyword::spec_keyword_color(s.subrange(j, e)) {
                    Some(c) => Some((w + 1, c)),
                    None => None,
                }
            } else {
                None
            }
        } else {
            None
        }
    } else {
        None
    }
}

/// Every color declared through a framed keyword at or after `i`, in match
/// order.
pub open spec fn spec_scan_keywords(s: Seq<char>, i: int) -> Seq<Color>
    decreases s.len() - i,
{
    if !(0 <= i < s.len()) {
        Seq::empty()
    } else {
        match keyword_match_at(s, i) {
            Some((next, c)) => seq![c] + spec_scan_keywords(s, next),
            None => spec_scan_keywords(s, i + 1),
        }
    }
}

/// `s` with every repetition of an earlier element dropped.
pub open spec fn dedup(s: Seq<Color>) -> Seq<Color>
    decreases s.len(),
{
    if s.len() == 0 {
        s
    } else {
        let front = dedup(s.drop_last());
        if s.drop_last().contains(s.last()) {
            front
        } else {
            front.push(s.last())
        }
    }
}

pub proof fn lemma_dedup_contains(s: Seq<Color>, x: Color)
    ensures
        dedup(s).contains(x) <==> s.contains(x),
    decreases s.len(),
{
    if s.len() > 0 {
        let front = dedup(s.drop_last());
        lemma_dedup_contains(s.drop_last(), x);
        if s.drop_last().contains(x) {
            let i = choose|i: int| 0 <= i < s.drop_last().len() && s.drop_last()[i] == x;
            assert(s[i] == x);
            assert(s.contains(x));
        }
        if x == s.last() {
            assert(s[s.len() - 1] == x);
            assert(s.contains(x));
        }
        if s.contains(x) {
            let i = choose|i: int| 0 <= i < s.len() && s[i] == x;
            if i < s.len() - 1 {
                assert(s.drop_last()[i] == x);
                assert(s.drop_last().contains(x));
            } else {
                assert(x == s.last());
            }
        }
        if s.drop_last().contains(s.last()) {
            // a repeated last element adds nothing
            assert(dedup(s) == front);
            if s.contains(x) && x == s.last() && !s.drop_last().contains(x) {
                assert(false);
            }
        } else {
            assert(dedup(s) == front.push(s.last()));
            assert(front.push(s.last())[front.len() as int] == s.last());
            if front.contains(x) {
                let i = choose|i: int| 0 <= i < front.len() && front[i] == x;
                assert(front.push(s.last())[i] == x);
                assert(dedup(s).contains(x));
            }
            if dedup(s).contains(x) {
                let i = choose|i: int| 0 <= i < dedup(s).len() && dedup(s)[i] == x;
                if i < front.len() {
                    assert(front[i] == x);
                    assert(front.contains(x));
                } else {
                    assert(x == s.last());
                }
            }
        }
    }
}

pub proof fn lemma_dedup_distinct(s: Seq<Color>)
    ensures
        forall|i: int, j: int|
            0 <= i < j < dedup(s).len() ==> dedup(s)[i] != dedup(s)[j],
    decreases s.len(),
{
    if s.len() > 0 {
        lemma_dedup_distinct(s.drop_last());
        lemma_dedup_contains(s.drop_last(), s.last());
        if !s.drop_last().contains(s.last()) {
            let d = dedup(s);
            let front = dedup(s.drop_last());
            assert forall|i: int, j: int| 0 <= i < j < d.len() implies d[i] != d[j] by {
                if j < d.len() - 1 {
                    assert(front[i] == d[i] && front[j] == d[j]);
                } else {
                    assert(d[j] == s.last());
                    assert(front[i] == d[i]);
                    assert(front.contains(front[i]));
                }
            }
        }
    }
}

/// The distinct colors declared in a text: hex and functional matches in
/// order, then keyword matches in order, first occurrences kept.
pub open spec fn spec_extract(s: Seq<char>) -> Seq<Color> {
    dedup(spec_scan_srgb(s, 0) + spec_scan_keywords(s, 0))
}

/// One pass over the text for hex and functional candidates, in match
/// order.
#[verifier::loop_isolation(false)]
#[verifier::rlimit(100)]
fn scan_srgb_pass(v: &Vec<char>) -> (r: Vec<Color>)
    ensures
        r@ == spec_scan_srgb(v@, 0),
{
    let n = v.len();
    let mut r: Vec<Color> = Vec::new();
    let mut i: usize = 0;
    while i < n
        invariant
            0 <= i <= n,
            r@ + spec_scan_srgb(v@, i as int) == spec_scan_srgb(v@, 0),
        decreases n - i,
    {
        let c = v[i];
        if c == '#' {
            let mut j: usize = i + 1;
            while j < n
                invariant
                    i + 1 <= j <= n,
                    forall|k: int| i + 1 <= k < j ==> is_hex_digit(v@[k]),
                decreases n - j,
            {
                let cj = v[j];
                if !(('0' <= cj && cj <= '9') || ('a' <= cj && cj <= 'f') || ('A' <= cj && cj
                    <= 'F')) {
                    break;
                }
                j += 1;
            }
            proof {
                crate::scan::lemma_run_at(v@, hex_digit_pred(), i + 1, j as int);
            }
            let h: usize = j - (i + 1);
            let k: usize = if h >= 8 {
                8
            } else if h >= 6 {
                h
            } else if h >= 4 {
                4
            } else if h >= 3 {
                3
            } else {
                0
            };
            if k == 0 {
                i += 1;
            } else {
                let slice = crate::scan::vec_slice(v, i + 1, i + 1 + k);
                let ghost old_r = r@;
                let ghost rest = spec_scan_srgb(v@, (i + 1 + k) as int);
                match hex_color_of_chars(&slice) {
                    Some(col) => {
                        r.push(col);
                        proof {
                            assert(old_r.push(col) + rest =~= old_r + (seq![col] + rest));
                        }
                    },
                    None => {},
                }
                i = i + 1 + k;
            }
        } else {
            proof {
                reveal_strlit("hsla(");
                reveal_strlit("hsl(");
                reveal_strlit("rgba(");
                reveal_strlit("rgb(");
                reveal_strlit("hwb(");
            }
            let fa: Option<(crate::functional::FuncName, usize)> = if crate::scan::vec_matches_at(
                v,
                i,
                "hsla(",
            ) {
                Some((crate::functional::FuncName::Hsl, i + 5))
            } else if crate::scan::vec_matches_at(v, i, "hsl(") {
                Some((crate::functional::FuncName::Hsl, i + 4))
            } else if crate::scan::vec_matches_at(v, i, "rgba(") {
                Some((crate::functional::FuncName::Rgb, i + 5))
            } else if crate::scan::vec_matches_at(v, i, "rgb(") {
                Some((crate::functional::FuncName::Rgb, i + 4))
            } else if crate::scan::vec_matches_at(v, i, "hwb(") {
                Some((crate::functional::FuncName::Hwb, i + 4))
            } else {
                None
            };
            match fa {
                None => {
                    assert(func_at(v@, i as int) is None);
                    i += 1;
                },
                Some((nm, p)) => {
                    assert(func_at(v@, i as int) == Some((nm, p as int)));
                    let mut j: usize = p;
                    while j < n
                        invariant
                            p <= j <= n,
                            forall|k: int| p <= k < j ==> is_inner_char(v@[k]),
                        decreases n - j,
                    {
                        let cj = v[j];
                        if !(cj == ' ' || cj == '\t' || cj == '\n' || cj == '\r' || cj == '\u{b}'
                            || cj == '\u{c}' || ('0' <= cj && cj <= '9') || cj == '%' || cj == '/'
                            || cj == '.' || cj == ',') {
                            break;
                        }
                        j += 1;
                    }
                    proof {
                        crate::scan::lemma_run_at(v@, inner_char_pred(), p as int, j as int);
                    }
                    if j - p >= 5 && j < n && v[j] == ')' {
                        let slice = crate::scan::vec_slice(v, p, j);
                        let ghost old_r = r@;
                        let ghost rest = spec_scan_srgb(v@, j + 1);
                        match crate::functional::parse_functional(nm, &slice) {
                            Some(col) => {
                                r.push(col);
                                proof {
                                    assert(old_r.push(col) + rest =~= old_r + (seq![col] + rest));
                                }
                            },
                            None => {},
                        }
                        i = j + 1;
                    } else {
                        i += 1;
                    }
                },
            }
        }
    }
    assert(r@ + spec_scan_srgb(v@, i as int) =~= r@);
    r
}

/// One pass over the text for framed keyword declarations, in match order.
#[verifier::loop_isolation(false)]
fn scan_keyword_pass(v: &Vec<char>) -> (r: Vec<Color>)
    ensures
        r@ == spec_scan_keywords(v@, 0),
{
    let n = v.len();
    let mut r: Vec<Color> = Vec::new();
    let mut i: usize = 0;
    while i < n
        invariant
            0 <= i <= n,
            r@ + spec_scan_keywords(v@, i as int) == spec_scan_keywords(v@, 0),
        decreases n - i,
    {
        let c = v[i];
        if c == ':' {
            let mut j: usize = i + 1;
            while j < n
                invariant
                    i + 1 <= j <= n,
                    forall|k: int| i + 1 <= k < j ==> crate::functional::is_css_ws(v@[k]),
                decreases n - j,
            {
                let cj = v[j];
                if !(cj == ' ' || cj == '\t' || cj == '\n' || cj == '\r' || cj == '\u{b}' || cj
                    == '\u{c}') {
                    break;
                }
                j += 1;
            }
            proof {
                crate::scan::lemma_run_at(v@, ws_pred(), i + 1, j as int);
            }
            let mut e: usize = j;
            while e < n
                invariant
                    j <= e <= n,
                    forall|k: int| j <= k < e ==> is_lower_alpha(v@[k]),
                decreases n - e,
            {
                let ce = v[e];
                if !('a' <= ce && ce <= 'z') {
                    break;
                }
                e += 1;
            }
            proof {
                crate::scan::lemma_run_at(v@, lower_alpha_pred(), j as int, e as int);
            }
            if e > j {
                let mut w: usize = e;
                while w < n
                    invariant
                        e <= w <= n,
                        forall|k: int| e <= k < w ==> crate::functional::is_css_ws(v@[k]),
                    decreases n - w,
                {
                    let cw = v[w];
                    if !(cw == ' ' || cw == '\t' || cw == '\n' || cw == '\r' || cw == '\u{b}' || cw
                        == '\u{c}') {
                        break;
                    }
                    w += 1;
                }
                proof {
                    crate::scan::lemma_run_at(v@, ws_pred(), e as int, w as int);
                }
                if w < n && v[w] == ';' {
                    let slice = crate::scan::vec_slice(v, j, e);
                    match crate::keyword::keyword_color_of_chars(&slice) {
                        Some(col) => {
                            let ghost old_r = r@;
                            let ghost rest = spec_scan_keywords(v@, w + 1);
                            r.push(col);
                            proof {
                                assert(old_r.push(col) + rest =~= old_r + (seq![col] + rest));
                            }
                            i = w + 1;
                        },
                        None => {
                            i += 1;
                        },
                    }
                } else {
                    i += 1;
                }
            } else {
                i += 1;
            }
        } else {
            i += 1;
        }
    }
    assert(r@ + spec_scan_keywords(v@, i as int) =~= r@);
    r
}

/// Whether `v` holds `c`.
fn contains_color(v: &Vec<Color>, c: Color) -> (r: bool)
    ensures
        r == v@.contains(c),
{
    let n = v.len();
    let mut i: usize = 0;
    while i < n
        invariant
            0 <= i <= n,
            n == v@.len(),
            forall|k: int| 0 <= k < i ==> v@[k] != c,
        decreases n - i,
    {
        if v[i] == c {
            return true;
        }
        i += 1;
    }
    false
}

/// Drops every repetition of an earlier color.
#[verifier::loop_isolation(false)]
fn dedup_colors(v: &Vec<Color>) -> (r: Vec<Color>)
    ensures
        r@ == dedup(v@),
{
    let n = v.len();
    let mut r: Vec<Color> = Vec::new();
    let mut i: usize = 0;
    while i < n
        invariant
            0 <= i <= n,
            r@ == dedup(v@.subrange(0, i as int)),
        decreases n - i,
    {
        let c = v[i];
        let ghost prefix = v@.subrange(0, i as int);
        proof {
            assert(v@.subrange(0, i + 1).drop_last() =~= prefix);
            assert(v@.subrange(0, i + 1).last() == c);
            lemma_dedup_contains(prefix, c);
        }
        if !contains_color(&r, c) {
            r.push(c);
        }
        i += 1;
    }
    assert(v@.subrange(0, n as int) =~= v@);
    r
}

/// The set of distinct colors declared anywhere in a block of CSS text, in
/// first-occurrence order: hex and functional matches first, then keyword
/// declarations.  Unparsable candidates are passed over, never an error.
pub fn extract_colors(css: &str) -> (r: Vec<Color>)
    ensures
        r@ == spec_extract(css@),
        forall|i: int, j: int| 0 <= i < j < r@.len() ==> r@[i] != r@[j],
{
    let v = chars_of(css);
    let mut all = scan_srgb_pass(&v);
    let kw = scan_keyword_pass(&v);
    let ghost srgb_part = all@;
    let mut ki: usize = 0;
    while ki < kw.len()
        invariant
            0 <= ki <= kw@.len(),
            all@ == srgb_part + kw@.subrange(0, ki as int),
        decreases kw@.len() - ki,
    {
        all.push(kw[ki]);
        ki += 1;
        assert(all@ =~= srgb_part + kw@.subrange(0, ki as int));
    }
    assert(all@ =~= spec_scan_srgb(css@, 0) + spec_scan_keywords(css@, 0));
    proof {
        lemma_dedup_distinct(all@);
    }
    dedup_colors(&all)
}

/// The characters of a string as a vector, for positional scanning.
pub(crate) fn chars_of(s: &str) -> (v: Vec<char>)
    ensures
        v@ == s@,
{
    let n = s.unicode_len();
    let mut v: Vec<char> = Vec::new();
    let mut i: usize = 0;
    while i < n
        invariant
            i <= n,
            n == s@.len(),
            v@ == s@.subrange(0, i as int),
        decreases n - i,
    {
        v.push(s.get_char(i));
        i += 1;
        assert(v@ =~= s@.subrange(0, i as int));
    }
    assert(v@ =~= s@);
    v
}

} // verus!
