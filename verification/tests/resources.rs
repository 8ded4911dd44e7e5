use my_wry::resources::{
    components_stay_inside, content_type_for, missing_file, resolved_file_check, extension_of, not_found, outside_root, plan_resource,
    read_failed, route_request, validate_resource_root, CanonicalRoot, IndexProbe, ResourceError,
    ResourcePlan, RootProbe, Route,
};
use my_wry::Mode;

fn plan(relative: &str, fallback: bool) -> Result<ResourcePlan, ResourceError> {
    Ok(ResourcePlan { relative: relative.to_string(), fallback_to_index: fallback })
}

fn refused(status: u16, message: &str) -> Result<ResourcePlan, ResourceError> {
    Err(ResourceError { status, message: message.to_string() })
}

#[test]
fn test_mode_serves_builtin_assets() {
    assert_eq!(route_request("/", true, false), Route::TestPage);
    assert_eq!(route_request("/test-background.png", true, true), Route::TestBackground);
    assert_eq!(route_request("/other.png", true, false), Route::NotFound);
    assert_eq!(route_request("/other.png", true, true), Route::Resource);
}

#[test]
fn normal_mode_has_no_builtin_assets() {
    assert_eq!(route_request("/", false, true), Route::Resource);
    assert_eq!(route_request("/test-background.png", false, false), Route::NotFound);
}

#[test]
fn root_path_serves_index() {
    assert_eq!(plan_resource("/"), plan("index.html", false));
    assert_eq!(plan_resource(""), plan("index.html", false));
    assert_eq!(plan_resource("///"), plan("index.html", false));
}

#[test]
fn files_keep_their_path() {
    assert_eq!(plan_resource("/assets/app.js"), plan("assets/app.js", false));
    assert_eq!(plan_resource("/./a/./b.css"), plan("./a/./b.css", false));
}

#[test]
fn paths_without_extension_fall_back_to_index() {
    assert_eq!(plan_resource("/dashboard/settings"), plan("dashboard/settings", true));
    assert_eq!(plan_resource("/.hidden"), plan(".hidden", true));
}

#[test]
fn percent_encoding_is_decoded() {
    assert_eq!(plan_resource("/%E4%BD%A0%E5%A5%BD.txt"), plan("你好.txt", false));
    assert_eq!(plan_resource("/a%20b.Html"), plan("a b.Html", false));
    assert_eq!(plan_resource("/a%zz"), plan("a%zz", true));
    assert_eq!(plan_resource("/a%2"), plan("a%2", true));
}

#[test]
fn invalid_utf8_is_a_bad_request() {
    assert_eq!(plan_resource("/%FF"), refused(400, "资源路径不是有效的 UTF-8"));
    assert_eq!(plan_resource("/%C3"), refused(400, "资源路径不是有效的 UTF-8"));
}

#[test]
fn escaping_the_root_is_forbidden() {
    let m = "不允许访问资源根目录之外的路径";
    assert_eq!(plan_resource("/../secret"), refused(403, m));
    assert_eq!(plan_resource("/a/../../b"), refused(403, m));
    assert_eq!(plan_resource("/a/.."), refused(403, m));
    assert_eq!(plan_resource("/%2e%2e/x"), refused(403, m));
    assert_eq!(plan_resource("/a\\..\\b"), refused(403, m));
    assert_eq!(plan_resource("/%2F%2Fserver/share"), refused(403, m));
    assert_eq!(plan_resource("/C:/Windows/win.ini"), refused(403, m));
    assert_eq!(plan_resource("/%5Cetc"), refused(403, m));
}

#[test]
fn dotted_names_are_normal_components() {
    assert_eq!(plan_resource("/.../x.js"), plan(".../x.js", false));
    assert_eq!(plan_resource("/..a/b"), plan("..a/b", true));
    assert!(components_stay_inside("a..b/c"));
    assert!(components_stay_inside("ab:c"));
    assert!(!components_stay_inside("z:c"));
    assert!(!components_stay_inside(".."));
}

#[test]
fn extension_follows_the_last_dot_of_the_file_name() {
    assert_eq!(extension_of("foo.txt"), Some("txt"));
    assert_eq!(extension_of("dir\\archive.tar.gz"), Some("gz"));
    assert_eq!(extension_of("foo."), Some(""));
    assert_eq!(extension_of(".foo"), None);
    assert_eq!(extension_of(".."), None);
    assert_eq!(extension_of("a/.."), None);
    assert_eq!(extension_of("a/b.c/"), Some("c"));
    assert_eq!(extension_of("a.png/."), Some("png"));
    assert_eq!(extension_of("."), None);
    assert_eq!(extension_of("x.d/noext"), None);
    assert_eq!(extension_of(""), None);
}

#[test]
fn content_types_by_extension() {
    assert_eq!(content_type_for("\\\\?\\C:\\site\\index.HTML"), "text/html; charset=utf-8");
    assert_eq!(content_type_for("\\\\?\\C:\\site\\app.Js"), "text/javascript; charset=utf-8");
    assert_eq!(content_type_for("a/m.mjs"), "text/javascript; charset=utf-8");
    assert_eq!(content_type_for("a/s.css"), "text/css; charset=utf-8");
    assert_eq!(content_type_for("a/d.JSON"), "application/json; charset=utf-8");
    assert_eq!(content_type_for("a/d.js.map"), "application/json; charset=utf-8");
    assert_eq!(content_type_for("a/i.png"), "image/png");
    assert_eq!(content_type_for("a/i.jpg"), "image/jpeg");
    assert_eq!(content_type_for("a/i.JPEG"), "image/jpeg");
    assert_eq!(content_type_for("a/i.gif"), "image/gif");
    assert_eq!(content_type_for("a/i.webp"), "image/webp");
    assert_eq!(content_type_for("a/i.svg"), "image/svg+xml");
    assert_eq!(content_type_for("a/favicon.ico"), "image/x-icon");
    assert_eq!(content_type_for("a/f.woff"), "font/woff");
    assert_eq!(content_type_for("a/f.woff2"), "font/woff2");
    assert_eq!(content_type_for("a/f.ttf"), "font/ttf");
    assert_eq!(content_type_for("a/m.wasm"), "application/wasm");
    assert_eq!(content_type_for("a/readme.TXT"), "text/plain; charset=utf-8");
    assert_eq!(content_type_for("a/x.tar.gz"), "application/octet-stream");
    assert_eq!(content_type_for("a/.bashrc"), "application/octet-stream");
    assert_eq!(content_type_for("a/noext"), "application/octet-stream");
}

#[test]
fn refusal_answers() {
    assert_eq!(not_found("/missing.js"), ResourceError { status: 404, message: "资源不存在：/missing.js".to_string() });
    assert_eq!(outside_root(), ResourceError { status: 403, message: "不允许访问资源根目录之外的文件".to_string() });
    assert_eq!(
        read_failed("C:\\r\\a.js", "denied"),
        ResourceError { status: 500, message: "读取资源 `C:\\r\\a.js` 失败：denied".to_string() }
    );
}

fn probe(canonical: Result<CanonicalRoot<&'static str>, String>) -> Option<RootProbe<&'static str>> {
    Some(RootProbe { requested: "dist".to_string(), canonical })
}

fn root(is_dir: bool, index: Result<IndexProbe, String>) -> Result<CanonicalRoot<&'static str>, String> {
    Ok(CanonicalRoot { path: "C:\\dist", display: "C:\\dist".to_string(), is_dir, index })
}

fn index(is_file: bool, inside_root: bool) -> Result<IndexProbe, String> {
    Ok(IndexProbe { display: "C:\\dist\\index.html".to_string(), is_file, inside_root })
}

#[test]
fn normal_mode_needs_a_root() {
    assert_eq!(
        validate_resource_root::<&str>(None, Mode::Normal),
        Err("Normal 模式必须提供 resource_root，并且目录中必须包含 index.html".to_string())
    );
    assert_eq!(validate_resource_root::<&str>(None, Mode::Test), Ok(None));
}

#[test]
fn root_must_be_accessible_directory() {
    assert_eq!(
        validate_resource_root(probe(Err("not found".to_string())), Mode::Test),
        Err("无法访问资源根目录 `dist`：not found".to_string())
    );
    assert_eq!(
        validate_resource_root(probe(root(false, index(true, true))), Mode::Test),
        Err("资源根路径不是目录：C:\\dist".to_string())
    );
}

#[test]
fn normal_root_needs_its_own_index() {
    assert_eq!(
        validate_resource_root(probe(root(true, Err("missing".to_string()))), Mode::Normal),
        Err("Normal 模式的资源根目录缺少可访问的 index.html：C:\\dist（missing）".to_string())
    );
    assert_eq!(
        validate_resource_root(probe(root(true, index(false, true))), Mode::Normal),
        Err("Normal 模式的 index.html 必须是 resource_root 内的文件：C:\\dist\\index.html".to_string())
    );
    assert_eq!(
        validate_resource_root(probe(root(true, index(true, false))), Mode::Normal),
        Err("Normal 模式的 index.html 必须是 resource_root 内的文件：C:\\dist\\index.html".to_string())
    );
    assert_eq!(validate_resource_root(probe(root(true, index(true, true))), Mode::Normal), Ok(Some("C:\\dist")));
}

#[test]
fn test_root_needs_no_index() {
    assert_eq!(
        validate_resource_root(probe(root(true, Err("missing".to_string()))), Mode::Test),
        Ok(Some("C:\\dist"))
    );
}

#[test]
fn missing_files_fall_back_only_without_extension() {
    assert_eq!(missing_file("/app/settings", true), None);
    assert_eq!(
        missing_file("/app.js", false),
        Some(ResourceError { status: 404, message: "资源不存在：/app.js".to_string() })
    );
}

#[test]
fn only_regular_files_below_the_root_are_served() {
    let forbidden = Err(ResourceError { status: 403, message: "不允许访问资源根目录之外的文件".to_string() });
    assert_eq!(resolved_file_check(true, true), Ok(()));
    assert_eq!(resolved_file_check(false, true), forbidden);
    assert_eq!(resolved_file_check(true, false), forbidden);
    assert_eq!(resolved_file_check(false, false), forbidden);
}

#[test]
fn extension_agrees_with_the_platform_path_rules() {
    for p in ["C:.txt", "x.html\\", "a/b.c/", "a.png/.", "..", "a/..", ".", "", ".foo", "foo.",
        "dir\\archive.tar.gz", "\\\\?\\C:\\site\\app.js", "a/.../b", "a/...", "/x.Y", "a//b.c//"]
    {
        let expected = std::path::Path::new(p).extension().and_then(|e| e.to_str());
        assert_eq!(extension_of(p), expected, "{:?}", p);
    }
}
