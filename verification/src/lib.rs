//! Extraction of the distinct CSS colors declared in a web page's styling.
//!
//! The library holds the verified logic of the pipeline: recognizing every
//! CSS color notation (hex, functional `rgb`/`rgba`/`hsl`/`hsla`/`hwb`, and
//! named keywords) inside arbitrary text and normalizing each to 8-bit RGBA,
//! locating the CSS embedded in or linked from an HTML document, and
//! resolving each linked stylesheet's reference against the document's own
//! URL.  Fetching over HTTP is left to the caller, which feeds status codes
//! and bodies into the pure decision functions here.

pub mod color;
pub mod css;
pub mod functional;
pub mod html;
pub mod keyword;
pub mod laws;
pub mod scan;

use vstd::prelude::*;

verus! {

use crate::color::Color;
use crate::html::SourceType;

/// The final artifact of a scrape: the original URL plus every color that
/// the page's stylesheets declare, in discovery order.
pub struct SiteColors {
    pub url: String,
    pub colors: Vec<Color>,
}

/// Why a scrape aborted: the transport could not complete a request, or a
/// fetched resource answered with a status outside the 2xx range.
#[derive(Clone, Copy, Debug, PartialEq, Eq, Structural)]
pub enum ColorScrapeError {
    FetchDocumentError,
    BadDocumentResponse,
}

/// Whether an HTTP status code counts as success.
pub fn response_is_success(status: u16) -> (r: bool)
    ensures
        r == (200 <= status < 300),
{
    200 <= status && status < 300
}

/// A located source after the orchestrator's resolution step: inline CSS
/// stands as it is, a linked reference is resolved against the document
/// URL.
pub open spec fn resolve_model(m: crate::html::SourceModel, d: Seq<char>) -> crate::html::SourceModel {
    match m {
        crate::html::SourceModel::Inline { css } => crate::html::SourceModel::Inline { css },
        crate::html::SourceModel::Linked { url } => crate::html::SourceModel::Linked {
            url: crate::html::spec_resolve(url, d),
        },
    }
}

/// The located sources with every linked reference resolved.
pub open spec fn resolved_views(src: Seq<crate::html::SourceModel>, d: Seq<char>) -> Seq<
    crate::html::SourceModel,
> {
    src.map_values(|m: crate::html::SourceModel| resolve_model(m, d))
}

/// The decision on the fetched document: a status outside 2xx aborts the
/// whole operation; a success yields the document's color sources in
/// document order, with each linked reference resolved against the
/// document URL.
pub fn plan_sources(document_url: &String, status: u16, body: &str) -> (r: Result<
    Vec<SourceType>,
    ColorScrapeError,
>)
    ensures
        match r {
            Ok(sources) => 200 <= status < 300 && crate::html::views_of(sources@)
                == resolved_views(crate::html::spec_sources(body@, 0), document_url@),
            Err(e) => !(200 <= status < 300) && e == ColorScrapeError::BadDocumentResponse,
        },
{
    if !response_is_success(status) {
        return Err(ColorScrapeError::BadDocumentResponse);
    }
    let located = crate::html::search_html(document_url, body);
    Ok(resolve_sources(located, document_url))
}

/// Resolves every linked reference of the located sources against the
/// document URL, keeping document order.
#[verifier::loop_isolation(false)]
fn resolve_sources(located: Vec<SourceType>, document_url: &String) -> (r: Vec<SourceType>)
    ensures
        crate::html::views_of(r@) == resolved_views(crate::html::views_of(located@), document_url@),
{
    let ghost in_views = crate::html::views_of(located@);
    let n = located.len();
    let mut r: Vec<SourceType> = Vec::new();
    let mut i: usize = 0;
    while i < n
        invariant
            0 <= i <= n,
            crate::html::views_of(r@) == resolved_views(in_views.subrange(0, i as int), document_url@),
        decreases n - i,
    {
        let ghost prev = r@;
        match &located[i] {
            SourceType::StyleTagCss { css } => {
                r.push(SourceType::StyleTagCss { css: css.clone() });
            },
            SourceType::LinkedCssFile { url } => {
                let abs = crate::html::map_resource_url_to_document(url.clone(), document_url);
                r.push(SourceType::LinkedCssFile { url: abs });
            },
        }
        i += 1;
        proof {
            assert(r@[i - 1]@ == resolve_model(in_views[i - 1], document_url@));
            assert(crate::html::views_of(r@) =~= crate::html::views_of(prev).push(r@[i - 1]@));
            assert(resolved_views(in_views.subrange(0, i as int), document_url@) =~= resolved_views(
                in_views.subrange(0, i - 1),
                document_url@,
            ).push(resolve_model(in_views[i - 1], document_url@)));
        }
    }
    proof {
        assert(in_views.subrange(0, n as int) =~= in_views);
    }
    r
}

/// The views of fetched outcomes, as (status, body) pairs.
pub open spec fn outcome_views(f: Seq<(u16, String)>) -> Seq<(u16, Seq<char>)> {
    f.map_values(|p: (u16, String)| (p.0, p.1@))
}

/// How many linked sources stand at or after `i`.
pub open spec fn linked_count(src: Seq<crate::html::SourceModel>, i: int) -> nat
    decreases src.len() - i,
{
    if !(0 <= i < src.len()) {
        0
    } else {
        (if src[i] is Linked {
            1nat
        } else {
            0nat
        }) + linked_count(src, i + 1)
    }
}

/// The colors of a whole document, aggregated over its planned sources in
/// discovery order: an inline source contributes the colors its CSS
/// declares, a linked source consumes the next fetched outcome and
/// contributes the colors of that body.  The first outcome with a status
/// outside 2xx aborts the whole aggregation; a linked source without an
/// outcome on hand counts as a transport failure.  Colors are deduplicated
/// per source only, never across sources.
pub open spec fn spec_aggregate(
    src: Seq<crate::html::SourceModel>,
    f: Seq<(u16, Seq<char>)>,
    si: int,
    fi: int,
) -> Result<Seq<Color>, ColorScrapeError>
    decreases src.len() - si,
{
    if !(0 <= si < src.len()) {
        Ok(Seq::empty())
    } else {
        match src[si] {
            crate::html::SourceModel::Inline { css } => match spec_aggregate(src, f, si + 1, fi) {
                Ok(rest) => Ok(crate::css::spec_extract(css) + rest),
                Err(e) => Err(e),
            },
            crate::html::SourceModel::Linked { url } => if !(0 <= fi < f.len()) {
                Err(ColorScrapeError::FetchDocumentError)
            } else if !(200 <= f[fi].0 < 300) {
                Err(ColorScrapeError::BadDocumentResponse)
            } else {
                match spec_aggregate(src, f, si + 1, fi + 1) {
                    Ok(rest) => Ok(crate::css::spec_extract(f[fi].1) + rest),
                    Err(e) => Err(e),
                }
            },
        }
    }
}

/// Appends every color of `src` to `dst`, in order.
fn push_all(dst: &mut Vec<Color>, src: &Vec<Color>)
    ensures
        final(dst)@ == old(dst)@ + src@,
{
    let n = src.len();
    let mut i: usize = 0;
    while i < n
        invariant
            0 <= i <= n,
            n == src@.len(),
            dst@ == old(dst)@ + src@.subrange(0, i as int),
        decreases n - i,
    {
        dst.push(src[i]);
        i += 1;
        assert(dst@ =~= old(dst)@ + src@.subrange(0, i as int));
    }
    assert(dst@ =~= old(dst)@ + src@);
}

/// Assembles the final artifact from the planned sources and the fetched
/// outcome of each linked stylesheet, in order: the color lists of the
/// sources concatenated in discovery order, or the error of the first
/// outcome that aborts.
#[verifier::loop_isolation(false)]
pub fn site_colors(url: String, sources: &Vec<SourceType>, fetched: &Vec<(u16, String)>) -> (r:
    Result<SiteColors, ColorScrapeError>)
    ensures
        match r {
            Ok(sc) => sc.url@ == url@ && spec_aggregate(
                crate::html::views_of(sources@),
                outcome_views(fetched@),
                0,
                0,
            ) == Ok::<Seq<Color>, ColorScrapeError>(sc.colors@),
            Err(e) => spec_aggregate(
                crate::html::views_of(sources@),
                outcome_views(fetched@),
                0,
                0,
            ) == Err::<Seq<Color>, ColorScrapeError>(e),
        },
{
    let ghost sv = crate::html::views_of(sources@);
    let ghost fv = outcome_views(fetched@);
    let mut colors: Vec<Color> = Vec::new();
    let n = sources.len();
    let mut si: usize = 0;
    let mut fi: usize = 0;
    while si < n
        invariant
            0 <= si <= n,
            0 <= fi <= fetched@.len(),
            spec_aggregate(sv, fv, 0, 0) == (match spec_aggregate(sv, fv, si as int, fi as int) {
                Ok(rest) => Ok::<Seq<Color>, ColorScrapeError>(colors@ + rest),
                Err(e) => Err(e),
            }),
        decreases n - si,
    {
        let ghost prev = colors@;
        match &sources[si] {
            SourceType::StyleTagCss { css } => {
                let got = crate::css::extract_colors(css.as_str());
                push_all(&mut colors, &got);
                si += 1;
                proof {
                    if spec_aggregate(sv, fv, si as int, fi as int) is Ok {
                        let rest = spec_aggregate(sv, fv, si as int, fi as int)->Ok_0;
                        assert(colors@ + rest =~= prev + (got@ + rest));
                    }
                }
            },
            SourceType::LinkedCssFile { .. } => {
                if fi >= fetched.len() {
                    return Err(ColorScrapeError::FetchDocumentError);
                }
                let outcome = &fetched[fi];
                if !response_is_success(outcome.0) {
                    return Err(ColorScrapeError::BadDocumentResponse);
                }
                let got = crate::css::extract_colors(outcome.1.as_str());
                push_all(&mut colors, &got);
                fi += 1;
                si += 1;
                proof {
                    assert(fv[fi - 1] == (fetched@[fi - 1].0, fetched@[fi - 1].1@));
                    if spec_aggregate(sv, fv, si as int, fi as int) is Ok {
                        let rest = spec_aggregate(sv, fv, si as int, fi as int)->Ok_0;
                        assert(colors@ + rest =~= prev + (got@ + rest));
                    }
                }
            },
        }
    }
    proof {
        assert(colors@ + Seq::<Color>::empty() =~= colors@);
    }
    Ok(SiteColors { url, colors })
}

/// The decision on one fetched stylesheet: a status outside 2xx aborts the
/// whole operation; a success yields the distinct colors the body declares,
/// in first-occurrence order.
pub fn stylesheet_colors(status: u16, body: &str) -> (r: Result<Vec<Color>, ColorScrapeError>)
    ensures
        match r {
            Ok(colors) => 200 <= status < 300 && colors@ == crate::css::spec_extract(body@),
            Err(e) => !(200 <= status < 300) && e == ColorScrapeError::BadDocumentResponse,
        },
{
    if !response_is_success(status) {
        return Err(ColorScrapeError::BadDocumentResponse);
    }
    Ok(crate::css::extract_colors(body))
}

} // verus!
