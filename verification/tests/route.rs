use dbh_insights_helper::route::resolve;

#[test]
fn plain_routes_lead_where_they_say() {
    for route in ["", "/", "/api/vm", "/api/vm/", "/a//b", "/.a/b./c.d", "/a%2eb", "a/./b"] {
        assert_eq!(resolve(route), route);
    }
}

#[test]
fn dots_are_taken_out() {
    for (route, place) in [
        ("/.", "/"),
        ("/api/.", "/api/"),
        ("/api/./vm", "/api/vm"),
        ("/api/%2E/session", "/api/session"),
        ("/a/b/..", "/a/"),
        ("/a/b/../c", "/a/c"),
        ("/a/.%2e/%2E./%2e%2E/c", "/c"),
        ("/..", "/"),
        ("/../../a", "/a"),
        ("/a//../b", "/a/b"),
        ("/a/.../b", "/a/.../b"),
    ] {
        assert_eq!(resolve(route), place, "{route}");
        // Nothing is left to take out.
        assert_eq!(resolve(place), place, "{place}");
    }
}

#[test]
fn leads_where_a_url_parser_does() {
    for route in ["/api/./x/%2e%2e/session", "/a/b/c/.%2e/./%2E%2e/", "/a/./.", "/%2e%2e/%2e", "/a//./..//b"] {
        let url = reqwest::Url::parse(&format!("https://vc{route}")).unwrap();
        assert_eq!(resolve(route), url.path(), "{route}");
    }
}
