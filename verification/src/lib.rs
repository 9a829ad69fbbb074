//! Route generation for serving the Swagger UI asset bundle and an OpenAPI
//! document on a host HTTP router.
//!
//! The library computes, from an [`ApiDefinition`], the full table of routes
//! that an embedding application registers on its web framework: an index
//! page (at the configured prefix, with and without a trailing slash), four
//! static UI assets, and, when the OpenAPI document is given inline, one
//! route serving the document itself.

use vstd::prelude::*;

pub mod html;
pub mod routes;

pub use html::normalize_matched_uri;
pub use html::serve_index;
pub use routes::AssetKind;
pub use routes::Route;
pub use routes::RouteBody;

verus! {

/// How the OpenAPI document is provided.
#[derive(Debug, Clone)]
pub enum OpenApiSource {
    /// Serve the document at `{uri_prefix}/openapi.yaml`.
    Inline(String),
    /// Serve the document at the given URI.
    InlineWithName {
        /// The OpenAPI document text.
        definition: String,
        /// The URI at which the document is exposed.
        uri: String,
    },
    /// The document is already served elsewhere; only link to it.
    Uri(String),
}

/// Configuration consumed by the route generators.
#[derive(Debug, Clone)]
pub struct ApiDefinition {
    /// URI prefix under which all routes are registered.
    pub uri_prefix: String,
    /// The OpenAPI document, inline or by reference.
    pub api_definition: OpenApiSource,
    /// Title of the index page; defaults to `SwaggerUI`.
    pub title: Option<String>,
}

/// Mathematical model of an [`OpenApiSource`].
#[verifier::ext_equal]
pub ghost enum OpenApiSourceModel {
    Inline(Seq<char>),
    InlineWithName { definition: Seq<char>, uri: Seq<char> },
    Uri(Seq<char>),
}

/// Mathematical model of an [`ApiDefinition`].
#[verifier::ext_equal]
pub ghost struct ApiDefinitionModel {
    pub uri_prefix: Seq<char>,
    pub api_definition: OpenApiSourceModel,
    pub title: Option<Seq<char>>,
}

impl View for OpenApiSource {
    type V = OpenApiSourceModel;

    open spec fn view(&self) -> OpenApiSourceModel {
        match self {
            OpenApiSource::Inline(d) => OpenApiSourceModel::Inline(d@),
            OpenApiSource::InlineWithName { definition, uri } => (OpenApiSourceModel::InlineWithName {
                definition: definition@,
                uri: uri@,
            }),
            OpenApiSource::Uri(u) => OpenApiSourceModel::Uri(u@),
        }
    }
}

impl View for ApiDefinition {
    type V = ApiDefinitionModel;

    open spec fn view(&self) -> ApiDefinitionModel {
        ApiDefinitionModel {
            uri_prefix: self.uri_prefix@,
            api_definition: self.api_definition@,
            title: match self.title {
                Some(t) => Some(t@),
                None => None,
            },
        }
    }
}

/// The location at which the OpenAPI document is reachable: the `Uri` and
/// `InlineWithName` variants name it themselves; an `Inline` document is
/// exposed at `{uri_prefix}/openapi.yaml`.
pub open spec fn openapi_location(def: ApiDefinitionModel) -> Seq<char> {
    match def.api_definition {
        OpenApiSourceModel::Inline(_) => def.uri_prefix + "/openapi.yaml"@,
        OpenApiSourceModel::InlineWithName { definition: _, uri } => uri,
        OpenApiSourceModel::Uri(u) => u,
    }
}

/// The title of the index page: the configured one, or `SwaggerUI`.
pub open spec fn display_title(title: Option<Seq<char>>) -> Seq<char> {
    match title {
        Some(t) => t,
        None => "SwaggerUI"@,
    }
}

/// The document text this library serves itself, if any: `Uri` sources are
/// served elsewhere and yield no route.
pub open spec fn inline_document(source: OpenApiSourceModel) -> Option<Seq<char>> {
    match source {
        OpenApiSourceModel::Inline(d) => Some(d),
        OpenApiSourceModel::InlineWithName { definition, uri: _ } => Some(definition),
        OpenApiSourceModel::Uri(_) => None,
    }
}

/// The index route body shared by every configuration.
pub open spec fn index_body(def: ApiDefinitionModel) -> routes::RouteBodyModel {
    routes::RouteBodyModel::Index {
        openapi_uri: openapi_location(def),
        title: display_title(def.title),
    }
}

/// A static-asset route at `prefix + suffix`.
pub open spec fn asset_route(prefix: Seq<char>, suffix: Seq<char>, kind: routes::AssetKind)
    -> routes::RouteModel {
    routes::RouteModel {
        path: prefix + suffix,
        content_type: routes::asset_content_type_spec(kind),
        body: routes::RouteBodyModel::Asset { kind },
    }
}

/// The full route table for a configuration: the index page at the prefix
/// with and without a trailing slash, the four static assets under the
/// prefix, and — exactly when the document is given inline — one route
/// serving the document at its location.
pub open spec fn generated_routes(def: ApiDefinitionModel) -> Seq<routes::RouteModel> {
    let base = seq![
        routes::RouteModel {
            path: def.uri_prefix,
            content_type: "text/html"@,
            body: index_body(def),
        },
        routes::RouteModel {
            path: def.uri_prefix + "/"@,
            content_type: "text/html"@,
            body: index_body(def),
        },
        asset_route(def.uri_prefix, "/swagger-ui.css"@, routes::AssetKind::Css),
        asset_route(def.uri_prefix, "/swagger-ui-bundle.js"@, routes::AssetKind::Js),
        asset_route(def.uri_prefix, "/swagger-ui.css.map"@, routes::AssetKind::CssMap),
        asset_route(def.uri_prefix, "/swagger-ui-bundle.js.map"@, routes::AssetKind::JsMap),
    ];
    match inline_document(def.api_definition) {
        Some(doc) => base.push(
            routes::RouteModel {
                path: openapi_location(def),
                content_type: "text/plain"@,
                body: routes::RouteBodyModel::Document { content: doc },
            },
        ),
        None => base,
    }
}

/// Generates the route table for a configuration, with absolute paths,
/// ready to be registered one by one on a host router.
pub fn generate_routes(def: ApiDefinition) -> (r: Vec<routes::Route>)
    ensures
        routes::models_of(r@) == generated_routes(def@),
{
    let prefix = def.uri_prefix;
    let (location, document): (String, Option<String>) = match def.api_definition {
        OpenApiSource::Inline(d) => (prefix.clone().concat("/openapi.yaml"), Some(d)),
        OpenApiSource::InlineWithName { definition, uri } => (uri, Some(definition)),
        OpenApiSource::Uri(u) => (u, None),
    };
    let title = match def.title {
        Some(t) => t,
        None => String::from_str("SwaggerUI"),
    };
    let mut r: Vec<routes::Route> = Vec::new();
    r.push(
        routes::Route {
            path: prefix.clone(),
            content_type: String::from_str("text/html"),
            body: routes::RouteBody::Index { openapi_uri: location.clone(), title: title.clone() },
        },
    );
    r.push(
        routes::Route {
            path: prefix.clone().concat("/"),
            content_type: String::from_str("text/html"),
            body: routes::RouteBody::Index { openapi_uri: location.clone(), title },
        },
    );
    r.push(
        routes::Route {
            path: prefix.clone().concat("/swagger-ui.css"),
            content_type: String::from_str("text/css"),
            body: routes::RouteBody::Asset { kind: routes::AssetKind::Css },
        },
    );
    r.push(
        routes::Route {
            path: prefix.clone().concat("/swagger-ui-bundle.js"),
            content_type: String::from_str("text/javascript"),
            body: routes::RouteBody::Asset { kind: routes::AssetKind::Js },
        },
    );
    r.push(
        routes::Route {
            path: prefix.clone().concat("/swagger-ui.css.map"),
            content_type: String::from_str("application/json"),
            body: routes::RouteBody::Asset { kind: routes::AssetKind::CssMap },
        },
    );
    r.push(
        routes::Route {
            path: prefix.clone().concat("/swagger-ui-bundle.js.map"),
            content_type: String::from_str("application/json"),
            body: routes::RouteBody::Asset { kind: routes::AssetKind::JsMap },
        },
    );
    if let Some(doc) = document {
        r.push(
            routes::Route {
                path: location,
                content_type: String::from_str("text/plain"),
                body: routes::RouteBody::Document { content: doc },
            },
        );
    }
    proof {
        assert(routes::models_of(r@) =~~= generated_routes(def@));
    }
    r
}

/// A route table whose paths are relative to a common scope prefix, for
/// hosts that mount a group of routes under one path.
#[derive(Debug)]
pub struct RouteScope {
    /// The path under which the scope is mounted.
    pub prefix: String,
    /// The routes, with paths relative to `prefix`.
    pub routes: Vec<routes::Route>,
}

/// The scoped route table for a configuration: the index page at the empty
/// relative path (the bare mount prefix) and at `/`, the four static assets,
/// and — exactly when the document is given inline — one route serving the
/// document. An `Inline` document sits at the relative path `/openapi.yaml`;
/// a named one at its configured URI with leading copies of the prefix
/// removed.
pub open spec fn scope_routes(def: ApiDefinitionModel) -> Seq<routes::RouteModel> {
    let base = seq![
        routes::RouteModel { path: ""@, content_type: "text/html"@, body: index_body(def) },
        routes::RouteModel { path: "/"@, content_type: "text/html"@, body: index_body(def) },
        routes::RouteModel {
            path: "/swagger-ui.css"@,
            content_type: "text/css"@,
            body: routes::RouteBodyModel::Asset { kind: routes::AssetKind::Css },
        },
        routes::RouteModel {
            path: "/swagger-ui-bundle.js"@,
            content_type: "text/javascript"@,
            body: routes::RouteBodyModel::Asset { kind: routes::AssetKind::Js },
        },
        routes::RouteModel {
            path: "/swagger-ui.css.map"@,
            content_type: "application/json"@,
            body: routes::RouteBodyModel::Asset { kind: routes::AssetKind::CssMap },
        },
        routes::RouteModel {
            path: "/swagger-ui-bundle.js.map"@,
            content_type: "application/json"@,
            body: routes::RouteBodyModel::Asset { kind: routes::AssetKind::JsMap },
        },
    ];
    match def.api_definition {
        OpenApiSourceModel::Inline(doc) => base.push(
            routes::RouteModel {
                path: "/openapi.yaml"@,
                content_type: "text/plain"@,
                body: routes::RouteBodyModel::Document { content: doc },
            },
        ),
        OpenApiSourceModel::InlineWithName { definition, uri } => base.push(
            routes::RouteModel {
                path: routes::without_leading_copies(uri, def.uri_prefix),
                content_type: "text/plain"@,
                body: routes::RouteBodyModel::Document { content: definition },
            },
        ),
        OpenApiSourceModel::Uri(_) => base,
    }
}

/// Generates the scoped route table for a configuration.
pub fn generate_scope(def: ApiDefinition) -> (r: RouteScope)
    ensures
        r.prefix@ == def@.uri_prefix,
        routes::models_of(r.routes@) == scope_routes(def@),
{
    let prefix = def.uri_prefix;
    let (location, document): (String, Option<(String, String)>) = match def.api_definition {
        OpenApiSource::Inline(d) => (
            prefix.clone().concat("/openapi.yaml"),
            Some((String::from_str("/openapi.yaml"), d)),
        ),
        OpenApiSource::InlineWithName { definition, uri } => {
            let relative = String::from_str(
                routes::strip_prefix_copies(uri.as_str(), prefix.as_str()),
            );
            (uri, Some((relative, definition)))
        },
        OpenApiSource::Uri(u) => (u, None),
    };
    let title = match def.title {
        Some(t) => t,
        None => String::from_str("SwaggerUI"),
    };
    let mut r: Vec<routes::Route> = Vec::new();
    r.push(
        routes::Route {
            path: String::from_str(""),
            content_type: String::from_str("text/html"),
            body: routes::RouteBody::Index { openapi_uri: location.clone(), title: title.clone() },
        },
    );
    r.push(
        routes::Route {
            path: String::from_str("/"),
            content_type: String::from_str("text/html"),
            body: routes::RouteBody::Index { openapi_uri: location, title },
        },
    );
    r.push(
        routes::Route {
            path: String::from_str("/swagger-ui.css"),
            content_type: String::from_str("text/css"),
            body: routes::RouteBody::Asset { kind: routes::AssetKind::Css },
        },
    );
    r.push(
        routes::Route {
            path: String::from_str("/swagger-ui-bundle.js"),
            content_type: String::from_str("text/javascript"),
            body: routes::RouteBody::Asset { kind: routes::AssetKind::Js },
        },
    );
    r.push(
        routes::Route {
            path: String::from_str("/swagger-ui.css.map"),
            content_type: String::from_str("application/json"),
            body: routes::RouteBody::Asset { kind: routes::AssetKind::CssMap },
        },
    );
    r.push(
        routes::Route {
            path: String::from_str("/swagger-ui-bundle.js.map"),
            content_type: String::from_str("application/json"),
            body: routes::RouteBody::Asset { kind: routes::AssetKind::JsMap },
        },
    );
    if let Some((relative, doc)) = document {
        r.push(
            routes::Route {
                path: relative,
                content_type: String::from_str("text/plain"),
                body: routes::RouteBody::Document { content: doc },
            },
        );
    }
    proof {
        assert(routes::models_of(r@) =~~= scope_routes(def@));
    }
    RouteScope { prefix, routes: r }
}

/// Exactly one document-serving route exists when the document is given
/// inline, and none when it is referenced by URI: the first six routes of
/// the generated table never serve a document, and a seventh route exists,
/// and serves the document, exactly in the inline cases.
pub proof fn lemma_exactly_one_document_route(def: ApiDefinitionModel)
    ensures
        forall|i: int| 0 <= i < 6 ==> !(#[trigger] generated_routes(def)[i].body is Document),
        generated_routes(def).len() == if inline_document(def.api_definition) is Some {
            7int
        } else {
            6int
        },
        inline_document(def.api_definition) is Some ==> generated_routes(def)[6].body
            == (routes::RouteBodyModel::Document {
            content: inline_document(def.api_definition)->0,
        }),
{
    let r = generated_routes(def);
    assert forall|i: int| 0 <= i < 6 implies !(r[i].body is Document) by {
        if i == 0 || i == 1 {
            assert(r[i].body is Index);
        } else {
            assert(r[i].body is Asset);
        }
    }
}

/// The two generators are adapters over one rendering: the scoped table and
/// the absolute table agree on the index page body and, for inline sources,
/// on the served document.
pub proof fn lemma_generators_agree(def: ApiDefinitionModel)
    ensures
        scope_routes(def)[0].body == generated_routes(def)[0].body,
        inline_document(def.api_definition) is Some ==> scope_routes(def)[6].body
            == generated_routes(def)[6].body,
{
}

/// The scoped table registers the index page both at the empty relative
/// path — the bare mount prefix — and at `/`, and the two routes serve one
/// and the same page: their bodies and content types are equal.
pub proof fn lemma_scope_index_routes_agree(def: ApiDefinitionModel)
    ensures
        scope_routes(def).len() >= 6,
        scope_routes(def)[0].path == ""@,
        scope_routes(def)[1].path == "/"@,
        scope_routes(def)[0].body == scope_routes(def)[1].body,
        scope_routes(def)[0].content_type == "text/html"@,
        scope_routes(def)[1].content_type == "text/html"@,
{
}

/// For an inline document, the scoped table serves the document itself,
/// unmodified, at the relative path `/openapi.yaml` — that is, at
/// `{uri_prefix}/openapi.yaml` once the scope is mounted at the prefix —
/// whatever the prefix.
pub proof fn lemma_scope_inline_document_route(def: ApiDefinitionModel)
    requires
        def.api_definition is Inline,
    ensures
        scope_routes(def).len() == 7,
        scope_routes(def)[6].path == "/openapi.yaml"@,
        scope_routes(def)[6].content_type == "text/plain"@,
        scope_routes(def)[6].body == (routes::RouteBodyModel::Document {
            content: def.api_definition->Inline_0,
        }),
{
}

/// The generated table registers the index page both at the prefix itself
/// and at the prefix with a trailing slash, and the two routes serve one
/// and the same page: their bodies and content types are equal.
pub proof fn lemma_index_routes_agree(def: ApiDefinitionModel)
    ensures
        generated_routes(def).len() >= 6,
        generated_routes(def)[0].path == def.uri_prefix,
        generated_routes(def)[1].path == def.uri_prefix + "/"@,
        generated_routes(def)[0].body == generated_routes(def)[1].body,
        generated_routes(def)[0].content_type == "text/html"@,
        generated_routes(def)[1].content_type == "text/html"@,
{
}

/// For an inline document, the generated table serves the document itself,
/// unmodified, at `{uri_prefix}/openapi.yaml`.
pub proof fn lemma_inline_document_route(def: ApiDefinitionModel)
    requires
        def.api_definition is Inline,
    ensures
        generated_routes(def).len() == 7,
        generated_routes(def)[6].path == def.uri_prefix + "/openapi.yaml"@,
        generated_routes(def)[6].content_type == "text/plain"@,
        generated_routes(def)[6].body == (routes::RouteBodyModel::Document {
            content: def.api_definition->Inline_0,
        }),
{
}

/// For a document under a chosen name, the generated table serves the
/// document, unmodified, at that name — and, as long as the name differs
/// from the default location, registers nothing at
/// `{uri_prefix}/openapi.yaml`.
pub proof fn lemma_named_document_route(def: ApiDefinitionModel)
    requires
        def.api_definition is InlineWithName,
        def.api_definition->InlineWithName_uri != def.uri_prefix + "/openapi.yaml"@,
    ensures
        generated_routes(def).len() == 7,
        generated_routes(def)[6].path == def.api_definition->InlineWithName_uri,
        generated_routes(def)[6].content_type == "text/plain"@,
        generated_routes(def)[6].body == (routes::RouteBodyModel::Document {
            content: def.api_definition->InlineWithName_definition,
        }),
        forall|i: int|
            0 <= i < generated_routes(def).len() ==> generated_routes(def)[i].path
                != def.uri_prefix + "/openapi.yaml"@,
{
    reveal_strlit("/openapi.yaml");
    reveal_strlit("/");
    reveal_strlit("/swagger-ui.css");
    reveal_strlit("/swagger-ui-bundle.js");
    reveal_strlit("/swagger-ui.css.map");
    reveal_strlit("/swagger-ui-bundle.js.map");
    let r = generated_routes(def);
    let target = def.uri_prefix + "/openapi.yaml"@;
    assert(r[0].path.len() != target.len());
    assert(r[1].path.len() != target.len());
    assert(r[2].path.len() != target.len());
    assert(r[3].path.len() != target.len());
    assert(r[4].path.len() != target.len());
    assert(r[5].path.len() != target.len());
    assert forall|i: int| 0 <= i < r.len() implies r[i].path != target by {
        if i == 6 {
            assert(r[i].path != target);
        }
    }
}

/// For a document referenced by URI, the generated table has exactly the
/// six prefix-derived routes — none of them serves a document — and the
/// index page is handed that URI verbatim as the document location.
pub proof fn lemma_uri_source_serves_no_document(def: ApiDefinitionModel)
    requires
        def.api_definition is Uri,
    ensures
        generated_routes(def).len() == 6,
        forall|i: int|
            0 <= i < generated_routes(def).len() ==> !(generated_routes(def)[i].body is Document),
        openapi_location(def) == def.api_definition->Uri_0,
        generated_routes(def)[0].body == (routes::RouteBodyModel::Index {
            openapi_uri: def.api_definition->Uri_0,
            title: display_title(def.title),
        }),
{
    let r = generated_routes(def);
    assert forall|i: int| 0 <= i < r.len() implies !(r[i].body is Document) by {
        if i == 0 || i == 1 {
            assert(r[i].body is Index);
        } else {
            assert(r[i].body is Asset);
        }
    }
}

} // verus!
