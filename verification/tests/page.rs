use ahecha_macro::page::{Method, MethodAttr, Page, PageAttrs, PagePath, PageV2};

fn named(names: &[&str]) -> Vec<Option<String>> {
    names.iter().map(|n| Some(n.to_string())).collect()
}

fn attrs(route: Option<Result<&str, &str>>, layout: Option<Result<&str, &str>>, method: Option<Result<MethodAttr, String>>) -> PageAttrs {
    PageAttrs {
        route: route.map(|r| r.map(|s| s.to_string()).map_err(|e| e.to_string())),
        layout: layout.map(|r| r.map(|s| s.to_string()).map_err(|e| e.to_string())),
        method,
    }
}

#[test]
fn methods_are_read_in_any_case() {
    assert_eq!(Method::parse("get"), Some(Method::GET));
    assert_eq!(Method::parse("Post"), Some(Method::POST));
    assert_eq!(Method::parse("DELETE"), Some(Method::DELETE));
    assert_eq!(Method::parse("pAtCh"), Some(Method::PATCH));
    assert_eq!(Method::parse("put"), Some(Method::PUT));
    assert_eq!(Method::parse("head"), None);
    assert_eq!(Method::from("PUT"), Method::PUT);
}

#[test]
fn method_names_in_generated_code() {
    assert_eq!(Method::GET.variant(), "GET");
    assert_eq!(Method::PATCH.variant(), "PATH");
    assert_eq!(Method::DELETE.typed_route(), "typed_delete");
    assert_eq!(Method::PATCH.typed_route(), "typed_patch");
}

#[test]
fn route_parameters_select_the_path_fields() {
    let p = PagePath::new("/users/:id/posts/:post_id".to_string(), "UserPost", &vec![
        Some("post_id".to_string()),
        None,
        Some("title".to_string()),
        Some("id".to_string()),
    ]);
    assert_eq!(p.path, "/users/:id/posts/:post_id");
    assert_eq!(p.ident, "UserPostPath");
    assert_eq!(p.fields, vec![0, 3]);
    let p = PagePath::new("/simple_page".to_string(), "SimplePage", &named(&["partial"]));
    assert!(p.fields.is_empty());
    assert_eq!(p.ident, "SimplePagePath");
}

#[test]
fn page_reads_route_layout_and_methods() {
    let page = Page::parse("Home".to_string(), named(&["id", "q"]), attrs(Some(Ok("/home/:id")), Some(Ok("Layout")), None)).unwrap();
    assert_eq!(page.layout_ident, "Layout");
    assert_eq!(page.methods, vec![Method::GET]);
    assert_eq!(page.path.fields, vec![0]);
    let page = Page::parse(
        "Home".to_string(),
        vec![],
        attrs(Some(Ok("/")), Some(Ok("L")), Some(Ok(MethodAttr::List(vec![Some("post".to_string()), Some("Put".to_string())])))),
    )
    .unwrap();
    assert_eq!(page.methods, vec![Method::POST, Method::PUT]);
    let page = Page::parse("Home".to_string(), vec![], attrs(Some(Ok("/")), Some(Ok("L")), Some(Ok(MethodAttr::List(vec![]))))).unwrap();
    assert_eq!(page.methods, vec![Method::GET]);
    let page = Page::parse("Home".to_string(), vec![], attrs(Some(Ok("/")), Some(Ok("L")), Some(Ok(MethodAttr::Path("delete".to_string()))))).unwrap();
    assert_eq!(page.methods, vec![Method::DELETE]);
}

#[test]
fn page_errors_come_in_reading_order() {
    let e = Page::parse("Home".to_string(), vec![], attrs(None, None, None)).err().unwrap();
    assert_eq!(e, "`#[route]` attribute is required");
    let e = Page::parse("Home".to_string(), vec![], attrs(Some(Err("expected string literal")), None, None)).err().unwrap();
    assert_eq!(e, "expected string literal");
    let e = Page::parse("Home".to_string(), vec![], attrs(Some(Ok("/")), None, None)).err().unwrap();
    assert_eq!(e, "`#[layout]` attribute is required");
    let e = Page::parse("Home".to_string(), vec![], attrs(Some(Ok("/")), Some(Ok("L")), Some(Ok(MethodAttr::Other)))).err().unwrap();
    assert_eq!(e, "`#[method]` attribute doesn't support the specified syntax");
    let e = Page::parse("Home".to_string(), vec![], attrs(Some(Ok("/")), Some(Ok("L")), Some(Err("bad meta".to_string())))).err().unwrap();
    assert_eq!(e, "bad meta");
}

#[test]
fn unknown_methods_stop_the_derive() {
    let r = Page::checked_parse("Home".to_string(), vec![], attrs(Some(Ok("/")), Some(Ok("L")), Some(Ok(MethodAttr::Path("head".to_string())))));
    assert!(r.is_none());
    let r = Page::checked_parse("Home".to_string(), vec![], attrs(Some(Ok("/")), Some(Ok("L")), Some(Ok(MethodAttr::List(vec![None])))));
    assert!(r.is_none());
    // The route is read first: a missing route is reported before the method.
    let r = Page::checked_parse("Home".to_string(), vec![], attrs(None, Some(Ok("L")), Some(Ok(MethodAttr::Path("head".to_string())))));
    assert_eq!(r.unwrap().err().unwrap(), "`#[route]` attribute is required");
    let r = PageV2::checked_parse("Home".to_string(), vec![], attrs(Some(Ok("/")), None, Some(Ok(MethodAttr::Path("head".to_string())))));
    assert!(r.is_none());
}

#[test]
fn handler_names() {
    let page = Page::parse(
        "UserPage".to_string(),
        vec![Some("id".to_string()), Some("query".to_string()), None],
        attrs(Some(Ok("/users/:id")), Some(Ok("Layout")), Some(Ok(MethodAttr::List(vec![Some("get".to_string()), Some("post".to_string())])))),
    )
    .unwrap();
    let h = page.handler();
    assert_eq!(h.mod_ident, "__internal__UserPage");
    assert_eq!(h.path_ident, "UserPagePath");
    assert_eq!(h.path_params, vec!["id".to_string()]);
    assert_eq!(h.params, vec!["query".to_string()]);
    assert_eq!(h.typed_routes, vec!["typed_get".to_string(), "typed_post".to_string()]);
}

#[test]
fn nested_pages() {
    let mut page = PageV2::parse("Inner".to_string(), vec![], attrs(Some(Ok("/inner")), None, None)).unwrap();
    assert!(!page.is_nested);
    assert!(page.methods.is_empty());
    let (path_ident, methods, with_layout) = page.mount_parts();
    assert_eq!(path_ident, "InnerPath");
    assert!(methods.is_empty());
    assert!(with_layout);
    page.set_nested(true);
    page.methods = vec![Method::PATCH];
    let (_, methods, with_layout) = page.mount_parts();
    assert_eq!(methods, vec!["PATH".to_string()]);
    assert!(!with_layout);
    let e = PageV2::parse("Inner".to_string(), vec![], attrs(None, None, None)).err().unwrap();
    assert_eq!(e, "`#[route]` attribute is required");
}
