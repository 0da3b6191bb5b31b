use hltb::{app_script_path, app_script_url, search_hash};

#[test]
fn finds_the_application_script() {
    let html = "<script src=\"/_next/static/chunks/pages/_app-0123456789abcdef.js\"></script>";
    let path = app_script_path(html).unwrap();
    assert_eq!(path, "/_next/static/chunks/pages/_app-0123456789abcdef.js");
    assert_eq!(
        app_script_url(&path),
        "https://howlongtobeat.com/_next/static/chunks/pages/_app-0123456789abcdef.js"
    );
    assert_eq!(app_script_path("<html>no script</html>"), None);
    assert_eq!(app_script_path("/_next/static/chunks/pages/_app-0123.js"), None);
}

#[test]
fn finds_the_search_token() {
    let script = "fetch(\"/api/search/\".concat(\"4b4cbe570602c88660f7df8ea0cb6b6e\"),{method:\"POST\"})";
    assert_eq!(search_hash(script).unwrap(), "4b4cbe570602c88660f7df8ea0cb6b6e");
    assert_eq!(search_hash("\"/api/search/\".concat(\"XYZ\")"), None);
}
