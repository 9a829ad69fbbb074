//! Rendering of the index page and normalization of the matched request path.

use vstd::prelude::*;

verus! {

/// The `title` element of the index page.
pub open spec fn title_tag(title: Seq<char>) -> Seq<char> {
    "<title>"@ + title + "</title>"@
}

/// The `url` parameter of the UI bootstrap call, holding the OpenAPI
/// document location verbatim.
pub open spec fn url_param(api_def: Seq<char>) -> Seq<char> {
    "url: '"@ + api_def + "'"@
}

/// The exact text of the index page for a given OpenAPI document location,
/// page title, and matched request path.
///
/// The matched path is embedded twice, as the base under which the two
/// linked assets are reachable; the document location is embedded verbatim
/// as the `url` parameter of the UI bootstrap call.
pub open spec fn index_html(api_def: Seq<char>, title: Seq<char>, uri: Seq<char>) -> Seq<char> {
    "<!DOCTYPE html><html><head>\n  "@ + title_tag(title)
        + "\n  <link rel=\"stylesheet\" href=\""@ + uri
        + "/swagger-ui.css\" />\n</head><body>\n  <div id=\"swagger-ui\"></div>\n  <script src=\""@
        + uri
        + "/swagger-ui-bundle.js\"></script>\n  <script>\n    window.onload = () => { window.ui = SwaggerUIBundle({ "@
        + url_param(api_def) + ", dom_id: '#swagger-ui' }); };\n  </script>\n</body></html>"@
}

/// Renders the index page.
pub fn serve_index(api_def: String, title: String, uri: String) -> (r: String)
    ensures
        r@ == index_html(api_def@, title@, uri@),
{
    let mut r = String::new();
    r.append("<!DOCTYPE html><html><head>\n  ");
    r.append("<title>");
    r.append(title.as_str());
    r.append("</title>");
    r.append("\n  <link rel=\"stylesheet\" href=\"");
    r.append(uri.as_str());
    r.append(
        "/swagger-ui.css\" />\n</head><body>\n  <div id=\"swagger-ui\"></div>\n  <script src=\"",
    );
    r.append(uri.as_str());
    r.append(
        "/swagger-ui-bundle.js\"></script>\n  <script>\n    window.onload = () => { window.ui = SwaggerUIBundle({ ",
    );
    r.append("url: '");
    r.append(api_def.as_str());
    r.append("'");
    r.append(", dom_id: '#swagger-ui' }); };\n  </script>\n</body></html>");
    proof {
        assert(r@ =~= index_html(api_def@, title@, uri@));
    }
    r
}

/// Whether `needle` occurs contiguously somewhere in `hay`.
pub open spec fn contains_seq(hay: Seq<char>, needle: Seq<char>) -> bool {
    exists|k: int|
        0 <= k && k + needle.len() <= hay.len() && #[trigger] hay.subrange(k, k + needle.len())
            == needle
}

/// A sequence contains any middle part of a three-way concatenation.
pub proof fn lemma_contains_middle(a: Seq<char>, b: Seq<char>, c: Seq<char>)
    ensures
        contains_seq(a + b + c, b),
{
    let h = a + b + c;
    let k = a.len() as int;
    assert(h.subrange(k, k + b.len()) =~= b);
    assert(contains_seq(h, b));
}

/// The index page contains `<title>{title}</title>` for the given title,
/// wherever it is mounted and whatever the document location.
pub proof fn lemma_index_html_has_title(api_def: Seq<char>, title: Seq<char>, uri: Seq<char>)
    ensures
        contains_seq(index_html(api_def, title, uri), title_tag(title)),
{
    let head = "<!DOCTYPE html><html><head>\n  "@;
    let rest = "\n  <link rel=\"stylesheet\" href=\""@ + uri
        + "/swagger-ui.css\" />\n</head><body>\n  <div id=\"swagger-ui\"></div>\n  <script src=\""@
        + uri
        + "/swagger-ui-bundle.js\"></script>\n  <script>\n    window.onload = () => { window.ui = SwaggerUIBundle({ "@
        + url_param(api_def) + ", dom_id: '#swagger-ui' }); };\n  </script>\n</body></html>"@;
    assert(index_html(api_def, title, uri) =~= head + title_tag(title) + rest);
    lemma_contains_middle(head, title_tag(title), rest);
}

/// The index page embeds the document location verbatim as the `url`
/// parameter of the UI bootstrap call.
pub proof fn lemma_index_html_embeds_url(api_def: Seq<char>, title: Seq<char>, uri: Seq<char>)
    ensures
        contains_seq(index_html(api_def, title, uri), url_param(api_def)),
{
    let before = "<!DOCTYPE html><html><head>\n  "@ + title_tag(title)
        + "\n  <link rel=\"stylesheet\" href=\""@ + uri
        + "/swagger-ui.css\" />\n</head><body>\n  <div id=\"swagger-ui\"></div>\n  <script src=\""@
        + uri
        + "/swagger-ui-bundle.js\"></script>\n  <script>\n    window.onload = () => { window.ui = SwaggerUIBundle({ "@;
    lemma_contains_middle(
        before,
        url_param(api_def),
        ", dom_id: '#swagger-ui' }); };\n  </script>\n</body></html>"@,
    );
}

/// `s` with every trailing `/` removed.
pub open spec fn without_trailing_slashes(s: Seq<char>) -> Seq<char>
    decreases s.len(),
{
    if s.len() > 0 && s[s.len() - 1] == '/' {
        without_trailing_slashes(s.drop_last())
    } else {
        s
    }
}

/// Visiting a path with or without a trailing slash yields one and the same
/// index page once the matched path is normalized.
pub proof fn lemma_trailing_slash_one_page(api_def: Seq<char>, title: Seq<char>, uri: Seq<char>)
    ensures
        index_html(api_def, title, without_trailing_slashes(uri + "/"@)) == index_html(
            api_def,
            title,
            without_trailing_slashes(uri),
        ),
{
    reveal_strlit("/");
    assert((uri + "/"@)[uri.len() as int] == '/');
    assert((uri + "/"@).drop_last() =~= uri);
    assert(without_trailing_slashes(uri + "/"@) == without_trailing_slashes(uri));
}

/// Normalizes the path a request was matched on before it is embedded in the
/// index page: trailing slashes are removed, so that visiting the prefix with
/// and without a trailing slash yields one and the same page.
pub fn normalize_matched_uri(uri: &str) -> (r: String)
    ensures
        r@ == without_trailing_slashes(uri@),
{
    let len = uri.unicode_len();
    let mut end = len;
    proof {
        assert(uri@.subrange(0, len as int) =~= uri@);
    }
    while end > 0 && uri.get_char(end - 1) == '/'
        invariant
            end <= len,
            len == uri@.len(),
            without_trailing_slashes(uri@) == without_trailing_slashes(
                uri@.subrange(0, end as int),
            ),
        decreases end,
    {
        proof {
            assert(uri@.subrange(0, end as int).drop_last() =~= uri@.subrange(0, end - 1));
        }
        end = end - 1;
    }
    String::from_str(uri.substring_char(0, end))
}

} // verus!
