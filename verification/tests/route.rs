use ahecha_macro::route::{create_path, route_fn_names, RouteError};

#[test]
fn controller_file_gives_its_route() {
    let r = create_path("/home/me/app/src/auctions_controller.rs");
    assert_eq!(r.url, "/auctions");
    assert!(r.errors.is_empty());
    let r = create_path("/home/me/app/src/admin/users_controller.rs");
    assert_eq!(r.url, "/admin/users");
}

#[test]
fn other_source_files_are_reported() {
    let r = create_path("/app/src/admin/users.rs");
    assert_eq!(r.url, "/admin");
    assert_eq!(r.errors, vec![RouteError::ControllerNaming]);
}

#[test]
fn nested_src_folders_are_refused() {
    let r = create_path("/app/src/lib/src/x_controller.rs");
    assert_eq!(r.url, "");
    assert_eq!(r.errors, vec![RouteError::NestedSrc]);
}

#[test]
fn paths_without_src_use_the_whole_path() {
    let r = create_path("a/b_controller.rs");
    assert_eq!(r.url, "/a/b");
}

#[test]
fn generated_function_names() {
    let (a, b) = route_fn_names("show");
    assert_eq!(a, "show_path");
    assert_eq!(b, "show_route_path");
}

#[test]
fn route_error_messages() {
    assert_eq!(
        RouteError::ControllerNaming.message(),
        "The naming convention dictates that this macro can only be used under a file named `{name}_controller.rs`"
    );
    assert!(RouteError::NestedSrc.message().starts_with("We don't support routes under an src user module"));
}
