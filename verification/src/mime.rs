//! Content-type inference by file extension, as a conventional static file
//! server does it: the extension is the suffix of the last path segment after
//! its last dot, and a fixed table maps known extensions to a MIME type.

use vstd::prelude::*;

verus! {

/// The extension of the file a path names: the characters after the last `.`
/// of the last segment, or `None` when that segment has no dot.
pub open spec fn suffix_after_last_dot(r: Seq<char>) -> Option<Seq<char>>
    decreases r.len(),
{
    if r.len() == 0 {
        None
    } else if r.last() == '.' {
        Some(Seq::empty())
    } else if r.last() == '/' {
        None
    } else {
        match suffix_after_last_dot(r.drop_last()) {
            Some(e) => Some(e.push(r.last())),
            None => None,
        }
    }
}

pub open spec fn ext_html() -> Seq<char> {
    seq!['h', 't', 'm', 'l']
}

pub open spec fn ext_js() -> Seq<char> {
    seq!['j', 's']
}

pub open spec fn ext_css() -> Seq<char> {
    seq!['c', 's', 's']
}

pub open spec fn ext_json() -> Seq<char> {
    seq!['j', 's', 'o', 'n']
}

pub open spec fn ext_png() -> Seq<char> {
    seq!['p', 'n', 'g']
}

pub open spec fn ext_jpg() -> Seq<char> {
    seq!['j', 'p', 'g']
}

pub open spec fn ext_svg() -> Seq<char> {
    seq!['s', 'v', 'g']
}

pub open spec fn ext_ico() -> Seq<char> {
    seq!['i', 'c', 'o']
}

pub open spec fn ext_woff2() -> Seq<char> {
    seq!['w', 'o', 'f', 'f', '2']
}

pub open spec fn ext_wasm() -> Seq<char> {
    seq!['w', 'a', 's', 'm']
}

pub open spec fn ext_txt() -> Seq<char> {
    seq!['t', 'x', 't']
}

/// The MIME type for an extension: a fixed table of the types a pre-built
/// web application ships, everything else served as opaque bytes.
pub open spec fn mime_for_ext(e: Option<Seq<char>>) -> Seq<char> {
    match e {
        None => "application/octet-stream"@,
        Some(x) => if x == ext_html() {
            "text/html"@
        } else if x == ext_js() {
            "text/javascript"@
        } else if x == ext_css() {
            "text/css"@
        } else if x == ext_json() {
            "application/json"@
        } else if x == ext_png() {
            "image/png"@
        } else if x == ext_jpg() {
            "image/jpeg"@
        } else if x == ext_svg() {
            "image/svg+xml"@
        } else if x == ext_ico() {
            "image/x-icon"@
        } else if x == ext_woff2() {
            "font/woff2"@
        } else if x == ext_wasm() {
            "application/wasm"@
        } else if x == ext_txt() {
            "text/plain"@
        } else {
            "application/octet-stream"@
        },
    }
}

/// The MIME type inferred for the file a relative path names.
pub open spec fn mime_for(r: Seq<char>) -> Seq<char> {
    mime_for_ext(suffix_after_last_dot(r))
}

/// When a dot stands at `d` and nothing after it is a dot or a slash, the
/// extension is exactly what follows `d`.
proof fn lemma_suffix_found(r: Seq<char>, d: int)
    requires
        0 <= d < r.len(),
        r[d] == '.',
        forall|j: int| d < j < r.len() ==> r[j] != '.' && r[j] != '/',
    ensures
        suffix_after_last_dot(r) == Some(r.subrange(d + 1, r.len() as int)),
    decreases r.len(),
{
    if d == r.len() - 1 {
        assert(r.subrange(d + 1, r.len() as int) =~= Seq::<char>::empty());
    } else {
        let r2 = r.drop_last();
        assert(r2[d] == '.');
        lemma_suffix_found(r2, d);
        assert(r.subrange(d + 1, r.len() as int) =~= r2.subrange(
            d + 1,
            r2.len() as int,
        ).push(r.last()));
    }
}

/// When nothing at or after position `d + 1` is a dot, and `d` is a slash or
/// lies before the path, the last segment has no extension.
proof fn lemma_suffix_none(r: Seq<char>, d: int)
    requires
        -1 <= d < r.len(),
        d >= 0 ==> r[d] == '/',
        forall|j: int| d < j < r.len() ==> r[j] != '.',
    ensures
        suffix_after_last_dot(r) is None,
    decreases r.len(),
{
    if r.len() == 0 {
    } else if r.last() == '/' {
    } else if d == r.len() - 1 {
    } else {
        let r2 = r.drop_last();
        lemma_suffix_none(r2, d);
    }
}

/// Decides whether the suffix of `s` that starts at `from` equals `pat`.
fn range_matches(s: &str, from: usize, pat: &str) -> (b: bool)
    requires
        from <= s@.len(),
    ensures
        b == (s@.subrange(from as int, s@.len() as int) == pat@),
{
    let n = s.unicode_len();
    let m = pat.unicode_len();
    if n - from != m {
        proof {
            assert(s@.subrange(from as int, s@.len() as int).len() != pat@.len());
        }
        return false;
    }
    let mut j: usize = 0;
    while j < m
        invariant
            n == s@.len(),
            m == pat@.len(),
            from + m == n,
            j <= m,
            forall|k: int| 0 <= k < j ==> s@[from + k] == pat@[k],
        decreases m - j,
    {
        if s.get_char(from + j) != pat.get_char(j) {
            proof {
                assert(s@.subrange(from as int, s@.len() as int)[j as int] == s@[from + j]);
            }
            return false;
        }
        j = j + 1;
    }
    proof {
        assert(s@.subrange(from as int, s@.len() as int) =~= pat@);
    }
    true
}

/// Looks the extension that starts at `from` up in the MIME table.
fn mime_from_ext(rel: &str, from: usize) -> (ct: String)
    requires
        from <= rel@.len(),
    ensures
        ct@ == mime_for_ext(Some(rel@.subrange(from as int, rel@.len() as int))),
{
    proof {
        reveal_strlit("html");
        reveal_strlit("js");
        reveal_strlit("css");
        reveal_strlit("json");
        reveal_strlit("png");
        reveal_strlit("jpg");
        reveal_strlit("svg");
        reveal_strlit("ico");
        reveal_strlit("woff2");
        reveal_strlit("wasm");
        reveal_strlit("txt");
        assert(("html")@ =~= ext_html());
        assert(("js")@ =~= ext_js());
        assert(("css")@ =~= ext_css());
        assert(("json")@ =~= ext_json());
        assert(("png")@ =~= ext_png());
        assert(("jpg")@ =~= ext_jpg());
        assert(("svg")@ =~= ext_svg());
        assert(("ico")@ =~= ext_ico());
        assert(("woff2")@ =~= ext_woff2());
        assert(("wasm")@ =~= ext_wasm());
        assert(("txt")@ =~= ext_txt());
    }
    if range_matches(rel, from, "html") {
        String::from_str("text/html")
    } else if range_matches(rel, from, "js") {
        String::from_str("text/javascript")
    } else if range_matches(rel, from, "css") {
        String::from_str("text/css")
    } else if range_matches(rel, from, "json") {
        String::from_str("application/json")
    } else if range_matches(rel, from, "png") {
        String::from_str("image/png")
    } else if range_matches(rel, from, "jpg") {
        String::from_str("image/jpeg")
    } else if range_matches(rel, from, "svg") {
        String::from_str("image/svg+xml")
    } else if range_matches(rel, from, "ico") {
        String::from_str("image/x-icon")
    } else if range_matches(rel, from, "woff2") {
        String::from_str("font/woff2")
    } else if range_matches(rel, from, "wasm") {
        String::from_str("application/wasm")
    } else if range_matches(rel, from, "txt") {
        String::from_str("text/plain")
    } else {
        String::from_str("application/octet-stream")
    }
}

/// Infers the content type for the file a relative path names.
pub fn content_type_for(rel: &str) -> (ct: String)
    ensures
        ct@ == mime_for(rel@),
{
    let n = rel.unicode_len();
    let mut i: usize = n;
    while i > 0
        invariant
            i <= n,
            n == rel@.len(),
            forall|j: int| i <= j < n ==> rel@[j] != '.' && rel@[j] != '/',
        decreases i,
    {
        let c = rel.get_char(i - 1);
        if c == '.' {
            proof {
                lemma_suffix_found(rel@, i - 1);
            }
            return mime_from_ext(rel, i);
        }
        if c == '/' {
            proof {
                lemma_suffix_none(rel@, i - 1);
            }
            return String::from_str("application/octet-stream");
        }
        i = i - 1;
    }
    proof {
        lemma_suffix_none(rel@, -1);
    }
    String::from_str("application/octet-stream")
}

} // verus!
