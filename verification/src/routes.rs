//! The route table: paths, content types, and what each route serves.

use vstd::prelude::*;

verus! {

/// One of the four static files of the bundled Swagger UI.
#[derive(Debug, Clone, Copy, PartialEq, Eq, Structural)]
pub enum AssetKind {
    /// `swagger-ui.css`
    Css,
    /// `swagger-ui-bundle.js`
    Js,
    /// `swagger-ui.css.map`
    CssMap,
    /// `swagger-ui-bundle.js.map`
    JsMap,
}

/// What a registered route serves.
#[derive(Debug, Clone)]
pub enum RouteBody {
    /// The HTML index page, rendered per request from the OpenAPI document
    /// location, the page title, and the path the request was matched on.
    Index {
        /// Location of the OpenAPI document, embedded in the page verbatim.
        openapi_uri: String,
        /// Title of the page.
        title: String,
    },
    /// One of the compiled-in static assets, served unchanged.
    Asset {
        /// Which asset.
        kind: AssetKind,
    },
    /// The OpenAPI document itself, served unchanged.
    Document {
        /// The document text.
        content: String,
    },
}

/// A single route registration: a GET handler at `path` answering with
/// status 200, the given content type, and the body that `body` describes.
#[derive(Debug, Clone)]
pub struct Route {
    /// The path at which the route is registered.
    pub path: String,
    /// The value of the `Content-Type` header of every response.
    pub content_type: String,
    /// What the route serves.
    pub body: RouteBody,
}

/// Mathematical model of a [`RouteBody`].
#[verifier::ext_equal]
pub ghost enum RouteBodyModel {
    Index { openapi_uri: Seq<char>, title: Seq<char> },
    Asset { kind: AssetKind },
    Document { content: Seq<char> },
}

/// Mathematical model of a [`Route`].
#[verifier::ext_equal]
pub ghost struct RouteModel {
    pub path: Seq<char>,
    pub content_type: Seq<char>,
    pub body: RouteBodyModel,
}

impl View for RouteBody {
    type V = RouteBodyModel;

    open spec fn view(&self) -> RouteBodyModel {
        match self {
            RouteBody::Index { openapi_uri, title } => (RouteBodyModel::Index {
                openapi_uri: openapi_uri@,
                title: title@,
            }),
            RouteBody::Asset { kind } => RouteBodyModel::Asset { kind: *kind },
            RouteBody::Document { content } => RouteBodyModel::Document { content: content@ },
        }
    }
}

impl View for Route {
    type V = RouteModel;

    open spec fn view(&self) -> RouteModel {
        RouteModel { path: self.path@, content_type: self.content_type@, body: self.body@ }
    }
}

/// The models of a sequence of routes.
pub open spec fn models_of(routes: Seq<Route>) -> Seq<RouteModel> {
    routes.map_values(|r: Route| r@)
}

/// The content type under which each static asset is served.
pub open spec fn asset_content_type_spec(kind: AssetKind) -> Seq<char> {
    match kind {
        AssetKind::Css => "text/css"@,
        AssetKind::Js => "text/javascript"@,
        AssetKind::CssMap => "application/json"@,
        AssetKind::JsMap => "application/json"@,
    }
}

/// The content type under which a static asset is served.
pub fn asset_content_type(kind: AssetKind) -> (r: &'static str)
    ensures
        r@ == asset_content_type_spec(kind),
{
    match kind {
        AssetKind::Css => "text/css",
        AssetKind::Js => "text/javascript",
        AssetKind::CssMap => "application/json",
        AssetKind::JsMap => "application/json",
    }
}

/// `s` with every leading copy of `p` removed.
pub open spec fn without_leading_copies(s: Seq<char>, p: Seq<char>) -> Seq<char>
    decreases s.len(),
{
    if p.len() > 0 && p.len() <= s.len() && s.subrange(0, p.len() as int) == p {
        without_leading_copies(s.skip(p.len() as int), p)
    } else {
        s
    }
}

/// Whether `p` occurs in `s` starting at position `from`.
fn matches_at(s: &str, from: usize, p: &str) -> (r: bool)
    requires
        from <= s@.len(),
    ensures
        r == (from + p@.len() <= s@.len() && s@.subrange(
            from as int,
            from + p@.len(),
        ) == p@),
{
    let slen = s.unicode_len();
    let plen = p.unicode_len();
    if plen > slen - from {
        return false;
    }
    let mut i: usize = 0;
    while i < plen
        invariant
            slen == s@.len(),
            plen == p@.len(),
            from + plen <= slen,
            i <= plen,
            forall|j: int| 0 <= j < i ==> s@[from + j] == p@[j],
        decreases plen - i,
    {
        if s.get_char(from + i) != p.get_char(i) {
            proof {
                assert(s@.subrange(from as int, from + p@.len())[i as int] == s@[from + i]);
            }
            return false;
        }
        i = i + 1;
    }
    proof {
        assert(s@.subrange(from as int, from + p@.len()) =~= p@);
    }
    true
}

/// `s` with every leading copy of `p` removed.
pub fn strip_prefix_copies<'a>(s: &'a str, p: &str) -> (r: &'a str)
    ensures
        r@ == without_leading_copies(s@, p@),
{
    let slen = s.unicode_len();
    let plen = p.unicode_len();
    if plen == 0 {
        return s;
    }
    let mut start: usize = 0;
    proof {
        assert(s@.skip(0) =~= s@);
    }
    while start < slen && matches_at(s, start, p)
        invariant
            slen == s@.len(),
            plen == p@.len(),
            plen > 0,
            start <= slen,
            without_leading_copies(s@, p@) == without_leading_copies(s@.skip(start as int), p@),
        decreases slen - start,
    {
        proof {
            assert(s@.skip(start as int).subrange(0, plen as int) =~= s@.subrange(
                start as int,
                start + plen,
            ));
            assert(s@.skip(start as int).skip(plen as int) =~= s@.skip(start + plen));
        }
        start = start + plen;
    }
    proof {
        if start + plen <= slen {
            assert(s@.skip(start as int).subrange(0, plen as int) =~= s@.subrange(
                start as int,
                start + plen,
            ));
        }
        assert(without_leading_copies(s@.skip(start as int), p@) == s@.skip(start as int));
    }
    s.substring_char(start, slen)
}

} // verus!
