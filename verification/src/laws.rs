//! The general laws the library keeps, stated and proved over its models.

use vstd::prelude::*;

verus! {

use crate::color::Color;
use crate::css::{
    dedup, hex_digit_pred, hex_val, is_hex_digit, lemma_dedup_contains, lemma_dedup_distinct,
    spec_extract, spec_hex_color, spec_scan_keywords, spec_scan_srgb, srgb_match_at,
};
use crate::functional::{spec_functional_color, spec_tokens, FuncName};
use crate::html::{has_scheme, spec_resolve, SourceModel};
use crate::{linked_count, spec_aggregate, ColorScrapeError};

/// Extraction is a function of the text alone: running it again on the same
/// text, in any call order, yields the same colors.
pub proof fn lemma_extraction_deterministic(a: Seq<char>, b: Seq<char>)
    requires
        a == b,
    ensures
        spec_extract(a) == spec_extract(b),
{
}

/// No color is repeated within one extraction.
pub proof fn lemma_extraction_distinct(s: Seq<char>)
    ensures
        forall|i: int, j: int|
            0 <= i < j < spec_extract(s).len() ==> spec_extract(s)[i] != spec_extract(s)[j],
{
    lemma_dedup_distinct(spec_scan_srgb(s, 0) + spec_scan_keywords(s, 0));
}

/// Deduplication loses no color and invents none: a color is extracted
/// exactly when some candidate match of the text denotes it.
pub proof fn lemma_extraction_complete(s: Seq<char>, c: Color)
    ensures
        spec_extract(s).contains(c) <==> (spec_scan_srgb(s, 0) + spec_scan_keywords(
            s,
            0,
        )).contains(c),
{
    lemma_dedup_contains(spec_scan_srgb(s, 0) + spec_scan_keywords(s, 0), c);
}

/// For every valid 3-digit hex color, extraction of `#` and the digits
/// yields exactly one color whose channels double each nibble (value times
/// seventeen), fully opaque.
pub proof fn lemma_hex_shorthand_doubles(c0: char, c1: char, c2: char)
    ensures
        is_hex_digit(c0) && is_hex_digit(c1) && is_hex_digit(c2) ==> spec_extract(
            seq!['#', c0, c1, c2],
        ) =~= seq![
            Color {
                red: (17 * hex_val(c0)) as u8,
                green: (17 * hex_val(c1)) as u8,
                blue: (17 * hex_val(c2)) as u8,
                alpha: 255,
            },
        ],
{
    if is_hex_digit(c0) && is_hex_digit(c1) && is_hex_digit(c2) {
        let s = seq!['#', c0, c1, c2];
        let col = Color {
            red: (17 * hex_val(c0)) as u8,
            green: (17 * hex_val(c1)) as u8,
            blue: (17 * hex_val(c2)) as u8,
            alpha: 255,
        };
        reveal_with_fuel(spec_scan_srgb, 6);
        reveal_with_fuel(spec_scan_keywords, 6);
        crate::scan::lemma_run_at(s, hex_digit_pred(), 1, 4);
        assert(s.subrange(1, 4) =~= seq![c0, c1, c2]);
        assert(srgb_match_at(s, 0) == Some((4int, Some(col))));
        assert(spec_scan_srgb(s, 4) =~= Seq::<Color>::empty());
        assert(spec_scan_srgb(s, 0) =~= seq![col]);
        assert(spec_scan_keywords(s, 3) =~= Seq::<Color>::empty());
        assert(spec_scan_keywords(s, 0) =~= Seq::<Color>::empty());
        assert(spec_scan_srgb(s, 0) + spec_scan_keywords(s, 0) =~= seq![col]);
        reveal_with_fuel(dedup, 3);
        assert(seq![col].drop_last() =~= Seq::<Color>::empty());
        assert(dedup(seq![col]) =~= seq![col]);
    }
}

/// Inside a functional notation only the numbers matter: two argument
/// texts that tokenize alike denote the same color, whatever mix of
/// commas, slashes and whitespace separates their arguments.
pub proof fn lemma_separators_immaterial(name: FuncName, a: Seq<char>, b: Seq<char>)
    requires
        spec_tokens(a, 0) == spec_tokens(b, 0),
    ensures
        spec_functional_color(name, a) == spec_functional_color(name, b),
{
}

/// A non-2xx outcome for any linked stylesheet aborts the whole
/// aggregation with the bad-response error, whatever the other sources and
/// outcomes hold: with one outcome on hand per linked source at or after
/// the current position, a bad status among them forces the error and no
/// colors.  The document's own half of this law is the error clause of the
/// planning contract.
pub proof fn lemma_aggregate_bad_outcome_aborts(
    src: Seq<SourceModel>,
    f: Seq<(u16, Seq<char>)>,
    si: int,
    fi: int,
    k: int,
)
    requires
        0 <= si,
        0 <= fi,
        fi + linked_count(src, si) <= f.len(),
        fi <= k < fi + linked_count(src, si),
        !(200 <= f[k].0 < 300),
    ensures
        spec_aggregate(src, f, si, fi) == Err::<Seq<Color>, ColorScrapeError>(
            ColorScrapeError::BadDocumentResponse,
        ),
    decreases src.len() - si,
{
    if si < src.len() {
        match src[si] {
            SourceModel::Inline { .. } => {
                lemma_aggregate_bad_outcome_aborts(src, f, si + 1, fi, k);
            },
            SourceModel::Linked { .. } => {
                if 200 <= f[fi].0 < 300 {
                    lemma_aggregate_bad_outcome_aborts(src, f, si + 1, fi + 1, k);
                }
            },
        }
    }
}

/// A reference that already carries its scheme resolves to itself,
/// whatever the document URL.
pub proof fn lemma_resolve_absolute_unchanged(r: Seq<char>, d: Seq<char>)
    requires
        has_scheme(r),
    ensures
        spec_resolve(r, d) == r,
{
}

} // verus!
