use serena::pages::{
    build_file_path, html_response, injected_script_text, inject_reload_script, is_html_file,
    not_found, resolve_directory, transfer_plan, TransferPlan,
};

#[test]
fn html_extension_is_recognised() {
    assert!(is_html_file("index.html"));
    assert!(is_html_file("/docs/page.html"));
    assert!(is_html_file("a.b.html"));
    // trailing separators and `.` components are ignored, as the
    // platform ignores them when it reads a file name
    assert!(is_html_file("a.html/"));
    assert!(is_html_file("a.html//"));
    assert!(is_html_file("a.html/."));
    assert!(is_html_file("a.html/./"));
}

#[test]
fn other_paths_are_not_html() {
    assert!(!is_html_file("style.css"));
    assert!(!is_html_file("page.htm"));
    assert!(!is_html_file("page.HTML"));
    assert!(!is_html_file("html"));
    assert!(!is_html_file(""));
    assert!(!is_html_file("/docs/.html"));
    assert!(!is_html_file(".html"));
    assert!(!is_html_file("a.html/b"));
    assert!(!is_html_file("a.html/.."));
    assert!(!is_html_file(".."));
    assert!(!is_html_file("a/"));
}

#[test]
fn request_paths_go_below_the_root() {
    assert_eq!(build_file_path("/index.html", "."), "./index.html");
    assert_eq!(build_file_path("/foo/bar.css", "root"), "root/foo/bar.css");
    assert_eq!(build_file_path("plain", "root"), "root/plain");
}

#[test]
fn leading_slashes_and_dots_are_trimmed() {
    assert_eq!(build_file_path("/../up.txt", "root"), "root/up.txt");
    assert_eq!(build_file_path("//.hidden", "root"), "root/hidden");
    assert_eq!(build_file_path("/", "root"), "root/");
}

#[test]
fn roots_with_and_without_separator_join_alike() {
    assert_eq!(build_file_path("/a.txt", "r/"), "r/a.txt");
    assert_eq!(build_file_path("/a.txt", ""), "a.txt");
}

#[test]
fn a_directory_resolves_to_its_index_member() {
    assert_eq!(resolve_directory("root/docs"), "root/docs/index.html");
    assert_eq!(resolve_directory("root/docs/"), "root/docs/index.html");
}

#[test]
fn directory_request_equals_index_request() {
    let root = "root";
    let via_directory = resolve_directory(&build_file_path("/docs", root));
    let direct = build_file_path("/docs/index.html", root);
    assert_eq!(via_directory, direct);

    let via_root_directory = resolve_directory(&build_file_path("/", root));
    let direct_root = build_file_path("/index.html", root);
    assert_eq!(via_root_directory, direct_root);
}

#[test]
fn missing_files_get_an_empty_not_found() {
    let r = not_found();
    assert_eq!(r.status, 404);
    assert_eq!(r.body, "");
}

#[test]
fn html_pages_get_the_script_appended_once() {
    let page = "<html><body>hi</body></html>";
    let r = html_response(Some(page.to_string()));
    assert_eq!(r.status, 200);
    assert!(r.body.starts_with(page));
    assert!(r.body.ends_with(injected_script_text()));
    assert_eq!(r.body.len(), page.len() + injected_script_text().len());
    assert_eq!(r.body.matches("<script>").count(), 1);
    assert_eq!(r.body.matches("EventSource").count(), 1);
}

#[test]
fn serving_unchanged_html_twice_is_byte_identical() {
    let page = "<h1>same</h1>";
    let first = html_response(Some(page.to_string()));
    let second = html_response(Some(page.to_string()));
    assert_eq!(first.body, second.body);
    assert_eq!(first.status, second.status);
}

#[test]
fn a_failed_read_is_a_server_error() {
    let r = html_response(None);
    assert_eq!(r.status, 500);
    assert_eq!(r.body, "Failed to read file");
}

#[test]
fn the_script_opens_the_reload_stream() {
    let script = injected_script_text();
    assert!(script.contains("/__serena"));
    assert!(script.contains("location.reload()"));
    let injected = inject_reload_script("x".to_string());
    assert_eq!(injected, format!("x{}", script));
}

#[test]
fn transfer_decisions_follow_the_disk() {
    assert_eq!(transfer_plan(false, false), TransferPlan::NotFound);
    assert_eq!(transfer_plan(false, true), TransferPlan::NotFound);
    assert_eq!(transfer_plan(true, true), TransferPlan::Html);
    assert_eq!(transfer_plan(true, false), TransferPlan::Stream);
}
