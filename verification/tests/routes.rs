use swagger_ui_dist::routes::asset_content_type;
use swagger_ui_dist::{
    generate_routes, generate_scope, ApiDefinition, AssetKind, OpenApiSource, Route, RouteBody,
};

fn def_with(prefix: &str, source: OpenApiSource, title: Option<&str>) -> ApiDefinition {
    ApiDefinition {
        uri_prefix: prefix.to_string(),
        api_definition: source,
        title: title.map(|t| t.to_string()),
    }
}

fn paths(routes: &[Route]) -> Vec<String> {
    routes.iter().map(|r| r.path.clone()).collect()
}

#[test]
fn inline_document_is_served_at_default_location() {
    let doc = "openapi: 3.0.0";
    let routes = generate_routes(def_with("/api", OpenApiSource::Inline(doc.to_string()), None));
    assert_eq!(routes.len(), 7);
    assert_eq!(routes[6].path, "/api/openapi.yaml");
    assert_eq!(routes[6].content_type, "text/plain");
    match &routes[6].body {
        RouteBody::Document { content } => assert_eq!(content, doc),
        _ => panic!("the last route must serve the document"),
    }
}

#[test]
fn named_document_is_served_at_its_name_only() {
    let doc = "openapi: 3.0.0";
    let routes = generate_routes(def_with(
        "/api",
        OpenApiSource::InlineWithName {
            definition: doc.to_string(),
            uri: "/spec.json".to_string(),
        },
        None,
    ));
    assert_eq!(routes.len(), 7);
    assert_eq!(routes[6].path, "/spec.json");
    match &routes[6].body {
        RouteBody::Document { content } => assert_eq!(content, doc),
        _ => panic!("the last route must serve the document"),
    }
    assert!(!paths(&routes).contains(&"/api/openapi.yaml".to_string()));
}

#[test]
fn uri_source_registers_no_document_route() {
    let routes = generate_routes(def_with(
        "/api",
        OpenApiSource::Uri("/external.yml".to_string()),
        None,
    ));
    assert_eq!(routes.len(), 6);
    assert!(!paths(&routes).contains(&"/external.yml".to_string()));
    for r in &routes {
        assert!(!matches!(r.body, RouteBody::Document { .. }));
    }
    match &routes[0].body {
        RouteBody::Index { openapi_uri, title } => {
            assert_eq!(openapi_uri, "/external.yml");
            assert_eq!(title, "SwaggerUI");
        }
        _ => panic!("the first route must serve the index page"),
    }
}

#[test]
fn index_is_registered_with_and_without_trailing_slash() {
    let routes = generate_routes(def_with(
        "/api",
        OpenApiSource::Uri("/external.yml".to_string()),
        None,
    ));
    assert_eq!(routes[0].path, "/api");
    assert_eq!(routes[1].path, "/api/");
    assert_eq!(routes[0].content_type, "text/html");
    assert_eq!(routes[1].content_type, "text/html");
    let body0 = match &routes[0].body {
        RouteBody::Index { openapi_uri, title } => (openapi_uri.clone(), title.clone()),
        _ => panic!("the first route must serve the index page"),
    };
    let body1 = match &routes[1].body {
        RouteBody::Index { openapi_uri, title } => (openapi_uri.clone(), title.clone()),
        _ => panic!("the second route must serve the index page"),
    };
    assert_eq!(body0, body1);
}

#[test]
fn asset_routes_carry_fixed_paths_and_content_types() {
    let routes = generate_routes(def_with(
        "/api",
        OpenApiSource::Uri("/external.yml".to_string()),
        None,
    ));
    let expected = [
        ("/api/swagger-ui.css", "text/css", AssetKind::Css),
        ("/api/swagger-ui-bundle.js", "text/javascript", AssetKind::Js),
        ("/api/swagger-ui.css.map", "application/json", AssetKind::CssMap),
        ("/api/swagger-ui-bundle.js.map", "application/json", AssetKind::JsMap),
    ];
    for (i, (path, content_type, kind)) in expected.iter().enumerate() {
        let r = &routes[2 + i];
        assert_eq!(&r.path.as_str(), path);
        assert_eq!(&r.content_type.as_str(), content_type);
        match &r.body {
            RouteBody::Asset { kind: k } => assert_eq!(k, kind),
            _ => panic!("routes two to five must serve assets"),
        }
        assert_eq!(&asset_content_type(*kind), content_type);
    }
}

#[test]
fn route_table_is_deterministic() {
    let mk = || {
        generate_routes(def_with(
            "/api",
            OpenApiSource::Inline("openapi: 3.0.0".to_string()),
            Some("Demo"),
        ))
    };
    let a = mk();
    let b = mk();
    assert_eq!(paths(&a), paths(&b));
    for (x, y) in a.iter().zip(b.iter()) {
        assert_eq!(x.content_type, y.content_type);
        match (&x.body, &y.body) {
            (RouteBody::Document { content: c1 }, RouteBody::Document { content: c2 }) => {
                assert_eq!(c1, c2)
            }
            (RouteBody::Asset { kind: k1 }, RouteBody::Asset { kind: k2 }) => assert_eq!(k1, k2),
            (RouteBody::Index { .. }, RouteBody::Index { .. }) => {}
            _ => panic!("the two tables must pair like with like"),
        }
    }
}

#[test]
fn scope_holds_relative_paths() {
    let scope = generate_scope(def_with(
        "/api",
        OpenApiSource::Inline("openapi: 3.0.0".to_string()),
        None,
    ));
    assert_eq!(scope.prefix, "/api");
    assert_eq!(scope.routes.len(), 7);
    assert_eq!(scope.routes[0].path, "");
    assert_eq!(scope.routes[1].path, "/");
    assert_eq!(scope.routes[2].path, "/swagger-ui.css");
    assert_eq!(scope.routes[6].path, "/openapi.yaml");
    match &scope.routes[6].body {
        RouteBody::Document { content } => assert_eq!(content, "openapi: 3.0.0"),
        _ => panic!("the last scoped route must serve the document"),
    }
}

#[test]
fn scope_serves_index_at_bare_prefix_and_with_slash() {
    let scope = generate_scope(def_with(
        "/api",
        OpenApiSource::Uri("/external.yml".to_string()),
        None,
    ));
    assert_eq!(scope.routes.len(), 6);
    assert_eq!(scope.routes[0].path, "");
    assert_eq!(scope.routes[1].path, "/");
    assert_eq!(scope.routes[0].content_type, "text/html");
    assert_eq!(scope.routes[1].content_type, "text/html");
    let body0 = match &scope.routes[0].body {
        RouteBody::Index { openapi_uri, title } => (openapi_uri.clone(), title.clone()),
        _ => panic!("the first scoped route must serve the index page"),
    };
    let body1 = match &scope.routes[1].body {
        RouteBody::Index { openapi_uri, title } => (openapi_uri.clone(), title.clone()),
        _ => panic!("the second scoped route must serve the index page"),
    };
    assert_eq!(body0, body1);
}

#[test]
fn scope_inline_document_path_is_independent_of_the_prefix() {
    let scope = generate_scope(def_with("/o", OpenApiSource::Inline("d".to_string()), None));
    assert_eq!(scope.routes[6].path, "/openapi.yaml");
    match &scope.routes[0].body {
        RouteBody::Index { openapi_uri, .. } => assert_eq!(openapi_uri, "/o/openapi.yaml"),
        _ => panic!("the first scoped route must serve the index page"),
    }
}

#[test]
fn empty_prefix_is_not_rejected() {
    let routes = generate_routes(def_with("", OpenApiSource::Inline("d".to_string()), None));
    assert_eq!(routes.len(), 7);
    assert_eq!(routes[0].path, "");
    assert_eq!(routes[1].path, "/");
    assert_eq!(routes[2].path, "/swagger-ui.css");
    assert_eq!(routes[6].path, "/openapi.yaml");
}

#[test]
fn scope_keeps_document_uri_outside_its_prefix_unchanged() {
    let scope = generate_scope(def_with(
        "/api",
        OpenApiSource::InlineWithName {
            definition: "d".to_string(),
            uri: "/other/spec.json".to_string(),
        },
        None,
    ));
    assert_eq!(scope.routes[6].path, "/other/spec.json");
}

#[test]
fn scope_strips_prefix_from_named_document_uri() {
    let scope = generate_scope(def_with(
        "/api",
        OpenApiSource::InlineWithName {
            definition: "d".to_string(),
            uri: "/api/spec.json".to_string(),
        },
        None,
    ));
    assert_eq!(scope.routes[6].path, "/spec.json");
}
