use serena::router::{reload_endpoint_path, route_request, Route};

#[test]
fn the_endpoint_with_a_watcher_opens_a_session() {
    assert_eq!(route_request("/__serena", true), Route::OpenSession);
}

#[test]
fn the_endpoint_without_a_watcher_is_served_as_a_file() {
    // no such file exists under the root, so this ends in "not found"
    assert_eq!(route_request("/__serena", false), Route::ServeFile);
}

#[test]
fn ordinary_paths_are_served_as_files() {
    assert_eq!(route_request("/index.html", true), Route::ServeFile);
    assert_eq!(route_request("/", true), Route::ServeFile);
    assert_eq!(route_request("/__serena/extra", true), Route::ServeFile);
    assert_eq!(route_request("/__serenax", true), Route::ServeFile);
}

#[test]
fn the_endpoint_path_is_reserved() {
    assert_eq!(reload_endpoint_path(), "/__serena");
}
