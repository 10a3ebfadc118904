//! The stylesheet-source locator and the URL resolver: finding the CSS
//! embedded in or linked from an HTML document, and computing the absolute
//! URL of each linked stylesheet relative to the document's own URL.

use vstd::prelude::*;

verus! {

use crate::scan::{find_from, find_sub, matches_at, rfind_in};

/// One source of CSS found in a document: a verbatim inline `<style>`
/// block, or the reference of a linked stylesheet.  As the locator yields
/// it, `url` holds the href value as written in the markup, possibly
/// relative; the orchestrator's planning step replaces it with the
/// resolved absolute URL.
pub enum SourceType {
    StyleTagCss { css: String },
    LinkedCssFile { url: String },
}

/// The mathematical shape of a color source.
pub enum SourceModel {
    Inline { css: Seq<char> },
    Linked { url: Seq<char> },
}

impl View for SourceType {
    type V = SourceModel;

    open spec fn view(&self) -> SourceModel {
        match self {
            SourceType::StyleTagCss { css } => SourceModel::Inline { css: css@ },
            SourceType::LinkedCssFile { url } => SourceModel::Linked { url: url@ },
        }
    }
}

/// Whether a reference already carries its own scheme.
pub open spec fn has_scheme(r: Seq<char>) -> bool {
    matches_at(r, 0, "https://"@) || matches_at(r, 0, "http://"@)
}

/// Whether a document URL holds the scheme separator the resolver walks
/// from; without one the resolver falls back to plain concatenation.
pub open spec fn has_scheme_sep(d: Seq<char>) -> bool {
    find_sub(d, 0, "://"@) < d.len()
}

/// Whether a reference begins with one `../` group.
pub open spec fn starts_up(r: Seq<char>) -> bool {
    r.len() >= 3 && r[0] == '.' && r[1] == '.' && r[2] == '/'
}

/// How many `../` groups a reference begins with.
pub open spec fn up_count(r: Seq<char>) -> nat
    decreases r.len(),
{
    if starts_up(r) {
        1 + up_count(r.skip(3))
    } else {
        0
    }
}

/// Walks `k` path segments back from position `end`: each step cuts at the
/// last `/` strictly before the current position.  Nothing is left when the
/// segments run out first.
pub open spec fn chop_end(s: Seq<char>, end: int, k: nat) -> Option<int>
    decreases k,
{
    if k == 0 {
        Some(end)
    } else {
        match rfind_in(s, 0, end, '/') {
            Some(j) => chop_end(s, j, (k - 1) as nat),
            None => None,
        }
    }
}

/// The absolute URL of the reference `r` against the document URL `d`.
/// A reference with a scheme stands as it is; a root-relative reference
/// replaces the document's whole path; a `../` reference walks up the
/// document's directory segments, clamped at the host root; any other
/// reference replaces the document's final path segment.  Resolution never
/// fails: against a document URL without a scheme separator, where no host
/// can be told apart, the result is a best-effort concatenation.
pub open spec fn spec_resolve(r: Seq<char>, d: Seq<char>) -> Seq<char> {
    if has_scheme(r) {
        r
    } else if !has_scheme_sep(d) {
        if r.len() > 0 && r[0] == '/' {
            d + r
        } else {
            d + seq!['/'] + r
        }
    } else {
        let se = find_sub(d, 0, "://"@) + 3;
        let host_end = find_from(d, se, '/');
        let host_part = d.subrange(0, host_end);
        if r.len() > 0 && r[0] == '/' {
            host_part + r
        } else if starts_up(r) {
            let path2 = if host_end < d.len() {
                d.subrange(host_end + 1, d.len() as int)
            } else {
                Seq::empty()
            };
            let fname = match rfind_in(r, 0, r.len() as int, '/') {
                Some(j) => r.subrange(j + 1, r.len() as int),
                None => r,
            };
            match rfind_in(path2, 0, path2.len() as int, '/') {
                None => host_part + seq!['/'] + fname,
                Some(fi) => match chop_end(path2, fi, up_count(r)) {
                    Some(cut) => host_part + seq!['/'] + path2.subrange(0, cut) + seq!['/']
                        + fname,
                    None => host_part + seq!['/'] + fname,
                },
            }
        } else {
            match rfind_in(d, se, d.len() as int, '/') {
                None => d + seq!['/'] + r,
                Some(j) => d.subrange(0, j) + seq!['/'] + r,
            }
        }
    }
}

/// The inline `<style>` block starting at `i`: the position right after the
/// closing tag, and the verbatim CSS between the tags.  Attributes on the
/// opening tag are ignored.
pub open spec fn style_match_at(s: Seq<char>, i: int) -> Option<(int, Seq<char>)> {
    if matches_at(s, i, "<style"@) {
        let gt = find_from(s, i + 6, '>');
        if gt < s.len() {
            let close = find_sub(s, gt + 1, "</style>"@);
            if close < s.len() {
                Some((close + 8, s.subrange(gt + 1, close)))
            } else {
                None
            }
        } else {
            None
        }
    } else {
        None
    }
}

/// The `<link>` tag starting at `i` whose body carries an `href` value: the
/// position right after the tag, and the raw reference.  No filtering on
/// `rel` is performed: any `<link>` with an `href` is a stylesheet
/// candidate.
pub open spec fn link_match_at(s: Seq<char>, i: int) -> Option<(int, Seq<char>)> {
    if matches_at(s, i, "<link"@) {
        let gt = find_from(s, i + 5, '>');
        if gt < s.len() {
            let h = find_sub(s, i + 5, "href=\""@);
            if h + 6 <= gt {
                let q = find_from(s, h + 6, '"');
                if q < gt {
                    Some((gt + 1, s.subrange(h + 6, q)))
                } else {
                    None
                }
            } else {
                None
            }
        } else {
            None
        }
    } else {
        None
    }
}

/// Every color source of the document `s`, in document order: inline CSS
/// verbatim, linked references raw as the markup writes them.
pub open spec fn spec_sources(s: Seq<char>, i: int) -> Seq<SourceModel>
    decreases s.len() - i,
    via spec_sources_decreases
{
    if !(0 <= i < s.len()) {
        Seq::empty()
    } else {
        match style_match_at(s, i) {
            Some((next, css)) => seq![SourceModel::Inline { css }] + spec_sources(s, next),
            None => match link_match_at(s, i) {
                Some((next, href)) => seq![SourceModel::Linked { url: href }] + spec_sources(
                    s,
                    next,
                ),
                None => spec_sources(s, i + 1),
            },
        }
    }
}

#[via_fn]
proof fn spec_sources_decreases(s: Seq<char>, i: int) {
    if 0 <= i < s.len() {
        reveal_strlit("<style");
        reveal_strlit("</style>");
        reveal_strlit("<link");
        if matches_at(s, i, "<style"@) {
            let gt = find_from(s, i + 6, '>');
            crate::scan::lemma_find_from(s, i + 6, '>');
            if gt < s.len() {
                crate::scan::lemma_find_sub(s, gt + 1, "</style>"@);
            }
        }
        if matches_at(s, i, "<link"@) {
            crate::scan::lemma_find_from(s, i + 5, '>');
        }
    }
}

proof fn lemma_style_not_link(s: Seq<char>, i: int)
    requires
        matches_at(s, i, "<style"@),
    ensures
        link_match_at(s, i) is None,
{
    reveal_strlit("<style");
    reveal_strlit("<link");
    if matches_at(s, i, "<link"@) {
        assert(s.subrange(i, i + 6)[1] == s[i + 1]);
        assert(s.subrange(i, i + 5)[1] == s[i + 1]);
        assert(false);
    }
}

/// The views of the located sources.
pub open spec fn views_of(v: Seq<SourceType>) -> Seq<SourceModel> {
    v.map_values(|st: SourceType| st@)
}

/// Locates every color source of an HTML document, in document order:
/// inline `<style>` blocks verbatim, and the raw href of every `<link>`
/// that carries one.  The document URL is part of the locator's interface
/// but plays no role in locating; resolution is the orchestrator's step.
#[verifier::loop_isolation(false)]
#[verifier::rlimit(100)]
pub fn search_html(_doc_url: &String, html: &str) -> (r: Vec<SourceType>)
    ensures
        views_of(r@) == spec_sources(html@, 0),
{
    let v = crate::css::chars_of(html);
    let n = v.len();
    let mut r: Vec<SourceType> = Vec::new();
    let mut i: usize = 0;
    proof {
        reveal_strlit("<style");
        reveal_strlit("</style>");
        reveal_strlit("<link");
        reveal_strlit("href=\"");
    }
    while i < n
        invariant
            0 <= i <= n,
            views_of(r@) + spec_sources(html@, i as int) == spec_sources(html@, 0),
        decreases n - i,
    {
        if crate::scan::vec_matches_at(&v, i, "<style") {
            let gt = crate::scan::vec_find_from(&v, i + 6, '>');
            proof {
                crate::scan::lemma_find_from(html@, i + 6, '>');
            }
            if gt < n {
                let close = crate::scan::vec_find_sub(&v, gt + 1, "</style>");
                proof {
                    crate::scan::lemma_find_sub(html@, gt + 1, "</style>"@);
                }
                if close < n {
                    let css = String::from_str(html.substring_char(gt + 1, close));
                    let ghost old_views = views_of(r@);
                    let ghost rest = spec_sources(html@, close + 8);
                    r.push(SourceType::StyleTagCss { css });
                    proof {
                        assert(views_of(r@) =~= old_views.push(
                            SourceModel::Inline { css: html@.subrange(gt + 1, close as int) },
                        ));
                        assert(views_of(r@) + rest =~= old_views + (seq![
                            SourceModel::Inline { css: html@.subrange(gt + 1, close as int) },
                        ] + rest));
                    }
                    i = close + 8;
                } else {
                    proof {
                        lemma_style_not_link(html@, i as int);
                    }
                    i += 1;
                }
            } else {
                proof {
                    lemma_style_not_link(html@, i as int);
                }
                i += 1;
            }
        } else if crate::scan::vec_matches_at(&v, i, "<link") {
            let gt = crate::scan::vec_find_from(&v, i + 5, '>');
            proof {
                crate::scan::lemma_find_from(html@, i + 5, '>');
            }
            if gt < n {
                let h = crate::scan::vec_find_sub(&v, i + 5, "href=\"");
                proof {
                    crate::scan::lemma_find_sub(html@, i + 5, "href=\""@);
                }
                if gt >= 6 && h <= gt - 6 {
                    let q = crate::scan::vec_find_from(&v, h + 6, '"');
                    proof {
                        crate::scan::lemma_find_from(html@, h + 6, '"');
                    }
                    if q < gt {
                        let reference = String::from_str(html.substring_char(h + 6, q));
                        let ghost old_views = views_of(r@);
                        let ghost rest = spec_sources(html@, gt + 1);
                        let ghost model = SourceModel::Linked {
                            url: html@.subrange(h + 6, q as int),
                        };
                        r.push(SourceType::LinkedCssFile { url: reference });
                        proof {
                            assert(views_of(r@) =~= old_views.push(model));
                            assert(views_of(r@) + rest =~= old_views + (seq![model] + rest));
                        }
                        i = gt + 1;
                    } else {
                        i += 1;
                    }
                } else {
                    i += 1;
                }
            } else {
                i += 1;
            }
        } else {
            i += 1;
        }
    }
    assert(views_of(r@) + spec_sources(html@, i as int) =~= views_of(r@));
    r
}

/// Computes the absolute URL of a stylesheet reference against the URL of
/// the document that referenced it.
#[verifier::loop_isolation(false)]
#[verifier::rlimit(100)]
pub fn map_resource_url_to_document(resource_url: String, document_url: &String) -> (r: String)
    ensures
        r@ == spec_resolve(resource_url@, document_url@),
{
    let rs: &str = resource_url.as_str();
    let ds: &str = document_url.as_str();
    let rv = crate::css::chars_of(rs);
    let dv = crate::css::chars_of(ds);
    let rlen = rv.len();
    let dlen = dv.len();
    if crate::scan::vec_matches_at(&rv, 0, "https://") || crate::scan::vec_matches_at(
        &rv,
        0,
        "http://",
    ) {
        return resource_url;
    }
    proof {
        reveal_strlit("://");
        crate::scan::lemma_find_sub(document_url@, 0, "://"@);
    }
    let sep: usize = crate::scan::vec_find_sub(&dv, 0, "://");
    if sep == dlen {
        // no scheme separator to walk from: best-effort concatenation
        proof {
            reveal_strlit("/");
            assert("/"@ =~= seq!['/']);
        }
        let mut out = String::from_str(ds);
        if !(rlen > 0 && rv[0] == '/') {
            out.append("/");
        }
        out.append(rs);
        assert(out@ =~= spec_resolve(resource_url@, document_url@));
        return out;
    }
    let se: usize = sep + 3;
    let host_end: usize = crate::scan::vec_find_from(&dv, se, '/');
    proof {
        crate::scan::lemma_find_from(document_url@, se as int, '/');
    }
    if rlen > 0 && rv[0] == '/' {
        let mut out = String::from_str(ds.substring_char(0, host_end));
        out.append(rs);
        return out;
    }
    if rlen >= 3 && rv[0] == '.' && rv[1] == '.' && rv[2] == '/' {
        // count the leading ../ groups
        let mut k: usize = 0;
        let mut pos: usize = 0;
        assert(resource_url@.skip(0) =~= resource_url@);
        while pos <= rlen - 3 && rv[pos] == '.' && rv[pos + 1] == '.' && rv[pos + 2] == '/'
            invariant
                0 <= pos <= rlen,
                k * 3 == pos,
                up_count(resource_url@) == k + up_count(resource_url@.skip(pos as int)),
            decreases rlen - pos,
        {
            proof {
                assert(resource_url@.skip(pos as int)[0] == resource_url@[pos as int]);
                assert(resource_url@.skip(pos as int)[1] == resource_url@[pos + 1]);
                assert(resource_url@.skip(pos as int)[2] == resource_url@[pos + 2]);
                assert(resource_url@.skip(pos as int).skip(3) =~= resource_url@.skip(pos + 3));
            }
            pos += 3;
            k += 1;
        }
        proof {
            let tail = resource_url@.skip(pos as int);
            if starts_up(tail) {
                assert(tail[0] == resource_url@[pos as int]);
                assert(tail[1] == resource_url@[pos + 1]);
                assert(tail[2] == resource_url@[pos + 2]);
                assert(false);
            }
            assert(up_count(resource_url@) == k);
        }
        // the reference's filename, after its last slash
        proof {
            crate::scan::lemma_rfind_in(resource_url@, 0, rlen as int, '/');
        }
        let fstart: usize = match crate::scan::vec_rfind_in(&rv, 0, rlen, '/') {
            Some(j) => j + 1,
            None => {
                proof {
                    assert(resource_url@[2] == '/');
                }
                0
            },
        };
        let fname: &str = rs.substring_char(fstart, rlen);
        let mut out = String::from_str(ds.substring_char(0, host_end));
        proof {
            reveal_strlit("/");
            assert("/"@ =~= seq!['/']);
        }
        if host_end < dlen {
            let path2 = crate::scan::vec_slice(&dv, host_end + 1, dlen);
            proof {
                crate::scan::lemma_rfind_in(path2@, 0, path2@.len() as int, '/');
            }
            match crate::scan::vec_rfind_in(&path2, 0, path2.len(), '/') {
                None => {
                    out.append("/");
                    out.append(fname);
                    assert(out@ =~= spec_resolve(resource_url@, document_url@));
                },
                Some(fi) => {
                    // walk k segments back from the document's directory path
                    let mut cur: usize = fi;
                    let mut t: usize = 0;
                    let mut exhausted: bool = false;
                    while t < k && !exhausted
                        invariant
                            0 <= t <= k,
                            cur <= fi,
                            fi < path2@.len(),
                            exhausted ==> chop_end(path2@, fi as int, k as nat) is None,
                            !exhausted ==> chop_end(path2@, fi as int, k as nat) == chop_end(
                                path2@,
                                cur as int,
                                (k - t) as nat,
                            ),
                        decreases k - t, (if exhausted { 0int } else { 1int }),
                    {
                        proof {
                            crate::scan::lemma_rfind_in(path2@, 0, cur as int, '/');
                        }
                        match crate::scan::vec_rfind_in(&path2, 0, cur, '/') {
                            Some(j) => {
                                cur = j;
                                t += 1;
                            },
                            None => {
                                exhausted = true;
                            },
                        }
                    }
                    if exhausted {
                        out.append("/");
                        out.append(fname);
                        assert(out@ =~= spec_resolve(resource_url@, document_url@));
                    } else {
                        out.append("/");
                        out.append(ds.substring_char(host_end + 1, host_end + 1 + cur));
                        out.append("/");
                        out.append(fname);
                        proof {
                            assert(path2@.subrange(0, cur as int) =~= document_url@.subrange(
                                host_end + 1,
                                host_end + 1 + cur,
                            ));
                            assert(out@ =~= spec_resolve(resource_url@, document_url@));
                        }
                    }
                },
            }
        } else {
            proof {
                assert(rfind_in(Seq::<char>::empty(), 0, 0, '/') is None);
            }
            out.append("/");
            out.append(fname);
            assert(out@ =~= spec_resolve(resource_url@, document_url@));
        }
        return out;
    }
    // a plain relative reference replaces the final path segment
    proof {
        reveal_strlit("/");
        assert("/"@ =~= seq!['/']);
    }
    proof {
        crate::scan::lemma_rfind_in(document_url@, se as int, dlen as int, '/');
    }
    match crate::scan::vec_rfind_in(&dv, se, dlen, '/') {
        None => {
            let mut out = String::from_str(ds);
            out.append("/");
            out.append(rs);
            assert(out@ =~= spec_resolve(resource_url@, document_url@));
            out
        },
        Some(j) => {
            let mut out = String::from_str(ds.substring_char(0, j));
            out.append("/");
            out.append(rs);
            assert(out@ =~= spec_resolve(resource_url@, document_url@));
            out
        },
    }
}

} // verus!
