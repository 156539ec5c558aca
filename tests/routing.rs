use qvet_standalone::routing::{forwarded_path, resolve, resolve_request, Target};

#[test]
fn api_mount_itself_goes_to_api() {
    assert_eq!(resolve("/api"), Target::Api);
    assert_eq!(resolve("/api/"), Target::Api);
}

#[test]
fn paths_below_api_never_reach_static_handlers() {
    for p in ["/api/tasks", "/api/auth/callback", "/api/a/b/c", "/api/index.html"] {
        let t = resolve(p);
        assert_eq!(t, Target::Api);
        assert_ne!(t, Target::StaticPath);
        assert_ne!(t, Target::StaticIndex);
    }
}

#[test]
fn root_goes_to_index() {
    assert_eq!(resolve("/"), Target::StaticIndex);
}

#[test]
fn other_paths_go_to_static_files() {
    assert_eq!(resolve("/index.html"), Target::StaticPath);
    assert_eq!(resolve("/assets/app.js"), Target::StaticPath);
    assert_eq!(resolve("//"), Target::StaticPath);
}

#[test]
fn near_misses_of_the_api_mount_are_static() {
    assert_eq!(resolve("/apix"), Target::StaticPath);
    assert_eq!(resolve("/ap"), Target::StaticPath);
    assert_eq!(resolve("/API"), Target::StaticPath);
    assert_eq!(resolve("/apis/x"), Target::StaticPath);
    assert_eq!(resolve("/x/api"), Target::StaticPath);
}

#[test]
fn paths_without_leading_slash_match_nothing() {
    assert_eq!(resolve(""), Target::NotFound);
    assert_eq!(resolve("api"), Target::NotFound);
    assert_eq!(resolve("index.html"), Target::NotFound);
}

#[test]
fn non_ascii_paths_are_static() {
    assert_eq!(resolve("/é"), Target::StaticPath);
    assert_eq!(resolve("/api/é"), Target::Api);
}

#[test]
fn api_paths_forward_what_follows_the_mount() {
    assert_eq!(forwarded_path("/api/tasks/1"), Some("/tasks/1"));
    assert_eq!(forwarded_path("/api/"), Some("/"));
    assert_eq!(forwarded_path("/api"), Some("/"));
}

#[test]
fn static_paths_forward_the_capture() {
    assert_eq!(forwarded_path("/assets/app.js"), Some("assets/app.js"));
    assert_eq!(forwarded_path("/apix"), Some("apix"));
    assert_eq!(forwarded_path("/é/x"), Some("é/x"));
}

#[test]
fn index_and_unmatched_paths_forward_nothing() {
    assert_eq!(forwarded_path("/"), None);
    assert_eq!(forwarded_path(""), None);
    assert_eq!(forwarded_path("assets/app.js"), None);
}

#[test]
fn static_routes_serve_get_and_head() {
    assert_eq!(resolve_request("GET", "/"), Target::StaticIndex);
    assert_eq!(resolve_request("HEAD", "/"), Target::StaticIndex);
    assert_eq!(resolve_request("GET", "/assets/app.js"), Target::StaticPath);
    assert_eq!(resolve_request("HEAD", "/assets/app.js"), Target::StaticPath);
}

#[test]
fn static_routes_refuse_other_methods() {
    assert_eq!(resolve_request("POST", "/"), Target::MethodNotAllowed);
    assert_eq!(resolve_request("PUT", "/index.html"), Target::MethodNotAllowed);
    assert_eq!(resolve_request("DELETE", "/assets/app.js"), Target::MethodNotAllowed);
    assert_eq!(resolve_request("get", "/"), Target::MethodNotAllowed);
    assert_eq!(resolve_request("GETS", "/"), Target::MethodNotAllowed);
}

#[test]
fn api_paths_take_every_method() {
    for m in ["GET", "HEAD", "POST", "PUT", "DELETE", "PATCH", "OPTIONS"] {
        assert_eq!(resolve_request(m, "/api"), Target::Api);
        assert_eq!(resolve_request(m, "/api/tasks/1"), Target::Api);
    }
}

#[test]
fn unmatched_paths_stay_unmatched_for_every_method() {
    assert_eq!(resolve_request("POST", "api"), Target::NotFound);
    assert_eq!(resolve_request("GET", ""), Target::NotFound);
}
