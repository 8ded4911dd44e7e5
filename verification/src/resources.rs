//! The `wry://` protocol that serves the page: which built-in asset or file a
//! request asks for, how a request path is decoded and kept inside the
//! resource root, the content type of a file, and the checks on the resource
//! root itself.
//!
//! Paths follow the Windows rules the host is built for: `/` and `\` both
//! separate components, and a leading drive letter with a colon is a prefix.

use vstd::prelude::*;
use vstd::utf8::{valid_utf8, decode_utf8, encode_utf8};
use crate::Mode;
use crate::text::{chars_of, strip_slashes, strip_leading_slashes, str_equal, lowercase_equals,
    ascii_lowercase, joined};

verus! {

/// The value of an ASCII hexadecimal digit, either case.
pub open spec fn hex_value(b: u8) -> Option<u8> {
    if 0x30 <= b <= 0x39 {
        Some((b - 0x30) as u8)
    } else if 0x41 <= b <= 0x46 {
        Some((b - 0x41 + 10) as u8)
    } else if 0x61 <= b <= 0x66 {
        Some((b - 0x61 + 10) as u8)
    } else {
        None
    }
}

/// Percent-decoding of bytes: each `%` followed by two hexadecimal digits
/// stands for the byte they spell; every other byte, a lone `%` included,
/// stands for itself.
pub open spec fn percent_decoded(b: Seq<u8>) -> Seq<u8>
    decreases b.len(),
{
    if b.len() == 0 {
        seq![]
    } else if b[0] == 0x25 && b.len() >= 3 && hex_value(b[1]) is Some && hex_value(b[2]) is Some {
        seq![(hex_value(b[1])->0 * 16 + hex_value(b[2])->0) as u8] + percent_decoded(
            b.subrange(3, b.len() as int),
        )
    } else {
        seq![b[0]] + percent_decoded(b.drop_first())
    }
}

/// `percent_encoding::percent_decode_str(input).decode_utf8()`.
///
/// The contract claims what the crate's source shows: the decoder turns each
/// `%` with two hexadecimal digits into that byte and keeps every other byte
/// (`percent_decoded`), and `decode_utf8` succeeds exactly when the bytes are
/// valid UTF-8, giving the characters they encode. The `Cow` it returns is
/// converted to an owned `String`; the error is dropped to `None`.
#[verifier::external_body]
fn percent_decode_utf8(input: &str) -> (r: Option<String>)
    ensures
        r is Some <==> valid_utf8(percent_decoded(encode_utf8(input@))),
        r matches Some(t) ==> t@ == decode_utf8(percent_decoded(encode_utf8(input@))),
{
    percent_encoding::percent_decode_str(input).decode_utf8().ok().map(|c| c.into_owned())
}

/// What the path of a request is decoded to: the path without its leading
/// slashes, percent-decoded, as UTF-8; `None` when the bytes are not UTF-8.
pub open spec fn decoded_request_path(uri_path: Seq<char>) -> Option<Seq<char>> {
    let bytes = percent_decoded(encode_utf8(strip_leading_slashes(uri_path)));
    if valid_utf8(bytes) {
        Some(decode_utf8(bytes))
    } else {
        None
    }
}

/// Whether `c` separates path components.
pub open spec fn is_separator(c: char) -> bool {
    c == '/' || c == '\\'
}

/// Whether `c` is an ASCII letter.
pub open spec fn is_ascii_letter(c: char) -> bool {
    ('a' <= c <= 'z') || ('A' <= c <= 'Z')
}

/// Whether a `..` component starts at index `i` of `s`.
pub open spec fn parent_at(s: Seq<char>, i: int) -> bool {
    &&& 0 <= i && i + 1 < s.len()
    &&& s[i] == '.' && s[i + 1] == '.'
    &&& i == 0 || is_separator(s[i - 1])
    &&& i + 2 == s.len() || is_separator(s[i + 2])
}

/// Whether a relative path has only normal and `.` components: it does not
/// start at a root (a leading separator) or a drive (`X:`), and no component
/// is `..`.
pub open spec fn stays_inside(s: Seq<char>) -> bool {
    &&& !(s.len() > 0 && is_separator(s[0]))
    &&& !(s.len() >= 2 && is_ascii_letter(s[0]) && s[1] == ':')
    &&& forall|i: int| !#[trigger] parent_at(s, i)
}

/// Whether `relative` has only normal and `.` components, so that it names
/// something below the directory it is joined to.
pub fn components_stay_inside(relative: &str) -> (b: bool)
    ensures
        b == stays_inside(relative@),
{
    let v = chars_of(relative);
    let n = v.len();
    if n > 0 && (v[0] == '/' || v[0] == '\\') {
        return false;
    }
    if n >= 2 && (('a' <= v[0] && v[0] <= 'z') || ('A' <= v[0] && v[0] <= 'Z')) && v[1] == ':' {
        return false;
    }
    let mut i: usize = 0;
    while n > 0 && i < n - 1
        invariant
            n == v@.len(),
            v@ == relative@,
            forall|k: int| 0 <= k < i ==> !#[trigger] parent_at(v@, k),
        decreases n - i,
    {
        if v[i] == '.' && v[i + 1] == '.' && (i == 0 || v[i - 1] == '/' || v[i - 1] == '\\') && (
        i + 2 == n || v[i + 2] == '/' || v[i + 2] == '\\') {
            assert(parent_at(v@, i as int));
            return false;
        }
        i = i + 1;
    }
    assert forall|k: int| !#[trigger] parent_at(v@, k) by {
        if 0 <= k < i {
        }
    }
    true
}

/// The file name of a path as `Path::file_name` finds it for this platform:
/// its last component, when that is a normal one.
pub uninterp spec fn std_file_name(path: Seq<char>) -> Option<Seq<char>>;

/// `Path::new(path).file_name()`, as text.
///
/// The contract names the result (it depends on the path alone, by the
/// component rules of the platform the crate is built for). The name is a
/// slice of a `str` taken at component boundaries, so it is valid UTF-8 and
/// `to_str` only converts it.
#[verifier::external_body]
fn path_file_name(path: &str) -> (name: Option<&str>)
    ensures
        name is None <==> std_file_name(path@) is None,
        name matches Some(n) ==> std_file_name(path@) == Some(n@),
{
    match std::path::Path::new(path).file_name() {
        Some(n) => n.to_str(),
        None => None,
    }
}

/// The index of the last `.` in `s`, or -1.
pub open spec fn last_dot(s: Seq<char>) -> int
    decreases s.len(),
{
    if s.len() == 0 {
        -1
    } else if s.last() == '.' {
        s.len() - 1
    } else {
        last_dot(s.drop_last())
    }
}

/// The extension of a path: what follows the last `.` of its file name, when
/// that `.` is not the name's first character.
pub open spec fn extension(path: Seq<char>) -> Option<Seq<char>> {
    match std_file_name(path) {
        None => None,
        Some(name) => if name == ".."@ || last_dot(name) <= 0 {
            None
        } else {
            Some(name.subrange(last_dot(name) + 1, name.len() as int))
        },
    }
}

/// The index of the `.` that starts the extension of the name `v[b..e]`,
/// if the name has one.
fn extension_dot(v: &Vec<char>, b: usize, e: usize) -> (d: Option<usize>)
    requires
        b <= e <= v@.len(),
    ensures
        d matches Some(k) ==> b < k < e && last_dot(v@.subrange(b as int, e as int)) == k - b,
        d is None ==> last_dot(v@.subrange(b as int, e as int)) <= 0,
{
    let ghost name = v@.subrange(b as int, e as int);
    let mut p: usize = e;
    assert(name.subrange(0, (p - b) as int) =~= name);
    while p > b && v[p - 1] != '.'
        invariant
            b <= p <= e <= v@.len(),
            name == v@.subrange(b as int, e as int),
            last_dot(name) == last_dot(name.subrange(0, (p - b) as int)),
        decreases p,
    {
        assert(name.subrange(0, (p - b) as int).drop_last() =~= name.subrange(0, (p - 1 - b) as int));
        p = p - 1;
    }
    if p - b > 1 {
        assert(name.subrange(0, (p - b) as int).last() == '.');
        Some(p - 1)
    } else {
        assert(last_dot(name) <= 0) by {
            if p == b {
                assert(name.subrange(0, 0) =~= Seq::<char>::empty());
            } else {
                assert(name.subrange(0, 1).last() == '.');
            }
        }
        None
    }
}

/// The extension of `path`, as `Path::extension` gives it: what follows the
/// last `.` of its file name, when that `.` is not the name's first
/// character (and the name is not `..`).
pub fn extension_of(path: &str) -> (ext: Option<&str>)
    ensures
        ext is None <==> extension(path@) is None,
        ext matches Some(x) ==> Some(x@) == extension(path@),
{
    let name = match path_file_name(path) {
        None => return None,
        Some(n) => n,
    };
    let v = chars_of(name);
    let n = v.len();
    assert(v@.subrange(0, n as int) =~= v@);
    if n == 2 && v[0] == '.' && v[1] == '.' {
        assert(name@ =~= ".."@) by {
            reveal_strlit("..");
        }
        return None;
    }
    proof {
        if name@ == ".."@ {
            reveal_strlit("..");
            assert(name@[0] == '.' && name@[1] == '.');
        }
    }
    match extension_dot(&v, 0, n) {
        None => None,
        Some(d) => {
            let x = name.substring_char(d + 1, n);
            assert(x@ =~= name@.subrange(last_dot(name@) + 1, name@.len() as int));
            Some(x)
        },
    }
}

/// The content type served for a file with extension `ext` (compared
/// without regard to ASCII case).
pub open spec fn content_type_of(ext: Option<Seq<char>>) -> Seq<char> {
    match ext {
        None => "application/octet-stream"@,
        Some(e) => {
            let l = ascii_lowercase(e);
            if l == "html"@ {
                "text/html; charset=utf-8"@
            } else if l == "js"@ || l == "mjs"@ {
                "text/javascript; charset=utf-8"@
            } else if l == "css"@ {
                "text/css; charset=utf-8"@
            } else if l == "json"@ || l == "map"@ {
                "application/json; charset=utf-8"@
            } else if l == "png"@ {
                "image/png"@
            } else if l == "jpg"@ || l == "jpeg"@ {
                "image/jpeg"@
            } else if l == "gif"@ {
                "image/gif"@
            } else if l == "webp"@ {
                "image/webp"@
            } else if l == "svg"@ {
                "image/svg+xml"@
            } else if l == "ico"@ {
                "image/x-icon"@
            } else if l == "woff"@ {
                "font/woff"@
            } else if l == "woff2"@ {
                "font/woff2"@
            } else if l == "ttf"@ {
                "font/ttf"@
            } else if l == "wasm"@ {
                "application/wasm"@
            } else if l == "txt"@ {
                "text/plain; charset=utf-8"@
            } else {
                "application/octet-stream"@
            }
        },
    }
}

/// The content type served for the file at `path`.
pub fn content_type_for(path: &str) -> (t: &'static str)
    ensures
        t@ == content_type_of(extension(path@)),
{
    match extension_of(path) {
        None => "application/octet-stream",
        Some(e) => {
            if lowercase_equals(e, "html") {
                "text/html; charset=utf-8"
            } else if lowercase_equals(e, "js") || lowercase_equals(e, "mjs") {
                "text/javascript; charset=utf-8"
            } else if lowercase_equals(e, "css") {
                "text/css; charset=utf-8"
            } else if lowercase_equals(e, "json") || lowercase_equals(e, "map") {
                "application/json; charset=utf-8"
            } else if lowercase_equals(e, "png") {
                "image/png"
            } else if lowercase_equals(e, "jpg") || lowercase_equals(e, "jpeg") {
                "image/jpeg"
            } else if lowercase_equals(e, "gif") {
                "image/gif"
            } else if lowercase_equals(e, "webp") {
                "image/webp"
            } else if lowercase_equals(e, "svg") {
                "image/svg+xml"
            } else if lowercase_equals(e, "ico") {
                "image/x-icon"
            } else if lowercase_equals(e, "woff") {
                "font/woff"
            } else if lowercase_equals(e, "woff2") {
                "font/woff2"
            } else if lowercase_equals(e, "ttf") {
                "font/ttf"
            } else if lowercase_equals(e, "wasm") {
                "application/wasm"
            } else if lowercase_equals(e, "txt") {
                "text/plain; charset=utf-8"
            } else {
                "application/octet-stream"
            }
        },
    }
}

/// Where a request of the page goes.
#[derive(PartialEq, Eq, Structural, Debug, Clone, Copy)]
pub enum Route {
    /// The built-in test page.
    TestPage,
    /// The built-in background image of the test page.
    TestBackground,
    /// Nothing is served: there is no resource root.
    NotFound,
    /// A file below the resource root.
    Resource,
}

/// Where the request for `path` goes: in test mode `/` and
/// `/test-background.png` are the built-in assets; anything else is a file
/// of the resource root, or not found without one.
pub open spec fn route_of(path: Seq<char>, is_test_mode: bool, has_root: bool) -> Route {
    if is_test_mode && path == "/"@ {
        Route::TestPage
    } else if is_test_mode && path == "/test-background.png"@ {
        Route::TestBackground
    } else if !has_root {
        Route::NotFound
    } else {
        Route::Resource
    }
}

/// Where the request for `path` goes.
pub fn route_request(path: &str, is_test_mode: bool, has_root: bool) -> (r: Route)
    ensures
        r == route_of(path@, is_test_mode, has_root),
{
    if is_test_mode {
        if str_equal(path, "/") {
            return Route::TestPage;
        }
        if str_equal(path, "/test-background.png") {
            return Route::TestBackground;
        }
    }
    if !has_root {
        return Route::NotFound;
    }
    Route::Resource
}

/// A refused request: the HTTP status and the plain-text body.
#[derive(Debug, PartialEq, Eq)]
pub struct ResourceError {
    pub status: u16,
    pub message: String,
}

/// A request that may be served: the path below the resource root to look
/// up, and whether a missing file falls back to the root's `index.html` (for
/// paths without an extension, as client-side routers need).
#[derive(Debug, PartialEq, Eq)]
pub struct ResourcePlan {
    pub relative: String,
    pub fallback_to_index: bool,
}

/// The relative path a decoded request path names: `index.html` for the
/// empty path.
pub open spec fn relative_path(decoded: Seq<char>) -> Seq<char> {
    if decoded.len() == 0 {
        "index.html"@
    } else {
        decoded
    }
}

/// Decodes the path of a request and checks that it stays below the
/// resource root: 400 when it is not UTF-8 once percent-decoded, 403 when a
/// component leaves the root.
pub fn plan_resource(uri_path: &str) -> (r: Result<ResourcePlan, ResourceError>)
    ensures
        decoded_request_path(uri_path@) is None ==> (r matches Err(e) && e.status == 400
            && e.message@ == "资源路径不是有效的 UTF-8"@),
        decoded_request_path(uri_path@) matches Some(d) ==> {
            let rel = relative_path(d);
            &&& !stays_inside(rel) ==> (r matches Err(e) && e.status == 403 && e.message@
                == "不允许访问资源根目录之外的路径"@)
            &&& stays_inside(rel) ==> (r matches Ok(p) && p.relative@ == rel && p.fallback_to_index
                == (extension(rel) is None))
        },
{
    let stripped = strip_slashes(uri_path);
    let decoded = match percent_decode_utf8(stripped) {
        Some(d) => d,
        None => {
            return Err(
                ResourceError { status: 400, message: String::from_str("资源路径不是有效的 UTF-8") },
            );
        },
    };
    let relative = if decoded.as_str().is_empty() {
        String::from_str("index.html")
    } else {
        decoded
    };
    if !components_stay_inside(relative.as_str()) {
        return Err(
            ResourceError { status: 403, message: String::from_str("不允许访问资源根目录之外的路径") },
        );
    }
    let fallback = extension_of(relative.as_str()).is_none();
    Ok(ResourcePlan { relative, fallback_to_index: fallback })
}

/// The answer when no file is found for the request path `uri_path`.
pub fn not_found(uri_path: &str) -> (e: ResourceError)
    ensures
        e.status == 404,
        e.message@ == "资源不存在："@ + uri_path@,
{
    ResourceError { status: 404, message: joined("资源不存在：", uri_path) }
}

/// The answer when the file found lies outside the resource root or is not
/// a file.
pub fn outside_root() -> (e: ResourceError)
    ensures
        e.status == 403,
        e.message@ == "不允许访问资源根目录之外的文件"@,
{
    ResourceError { status: 403, message: String::from_str("不允许访问资源根目录之外的文件") }
}

/// What happens when the file a request names cannot be found: a request
/// without an extension (`fallback_to_index`) is served the root's
/// `index.html` instead (`None`: look that up); any other is not found.
pub fn missing_file(uri_path: &str, fallback_to_index: bool) -> (r: Option<ResourceError>)
    ensures
        fallback_to_index ==> r is None,
        !fallback_to_index ==> (r matches Some(e) && e.status == 404 && e.message@ == "资源不存在："@
            + uri_path@),
{
    if fallback_to_index {
        None
    } else {
        Some(not_found(uri_path))
    }
}

/// Whether the file found may be served: it must lie below the resource
/// root and be a regular file; otherwise the request is forbidden.
pub fn resolved_file_check(under_root: bool, is_file: bool) -> (r: Result<(), ResourceError>)
    ensures
        under_root && is_file ==> r is Ok,
        !(under_root && is_file) ==> (r matches Err(e) && e.status == 403 && e.message@
            == "不允许访问资源根目录之外的文件"@),
{
    if !under_root || !is_file {
        return Err(outside_root());
    }
    Ok(())
}

/// The answer when reading the file shown as `display` failed with `error`.
pub fn read_failed(display: &str, error: &str) -> (e: ResourceError)
    ensures
        e.status == 500,
        e.message@ == "读取资源 `"@ + display@ + "` 失败："@ + error@,
{
    let a = joined("读取资源 `", display);
    let b = joined(a.as_str(), "` 失败：");
    ResourceError { status: 500, message: joined(b.as_str(), error) }
}

/// What the file system says of the `index.html` of a resource root.
pub struct IndexProbe {
    /// How the canonical path of `index.html` is shown.
    pub display: String,
    pub is_file: bool,
    /// Whether the canonical path lies below the canonical root.
    pub inside_root: bool,
}

/// What the file system says of a canonicalized resource root, with `P` the
/// canonical path.
pub struct CanonicalRoot<P> {
    pub path: P,
    pub display: String,
    pub is_dir: bool,
    /// The canonical `index.html` below it, or the error of canonicalizing it.
    pub index: Result<IndexProbe, String>,
}

/// What the file system says of a requested resource root.
pub struct RootProbe<P> {
    /// How the requested root is shown.
    pub requested: String,
    /// The canonical root, or the error of canonicalizing it.
    pub canonical: Result<CanonicalRoot<P>, String>,
}

/// The outcome of checking the resource root of `mode` against what the file
/// system says of it.
pub open spec fn root_check<P>(root: Option<RootProbe<P>>, mode: Mode) -> Result<Option<P>, Seq<
    char,
>> {
    match root {
        None => if mode == Mode::Normal {
            Err("Normal 模式必须提供 resource_root，并且目录中必须包含 index.html"@)
        } else {
            Ok(None)
        },
        Some(probe) => match probe.canonical {
            Err(e) => Err("无法访问资源根目录 `"@ + probe.requested@ + "`："@ + e@),
            Ok(c) => if !c.is_dir {
                Err("资源根路径不是目录："@ + c.display@)
            } else if mode == Mode::Normal {
                match c.index {
                    Err(e) => Err(
                        "Normal 模式的资源根目录缺少可访问的 index.html："@ + c.display@ + "（"@ + e@
                            + "）"@,
                    ),
                    Ok(i) => if !i.is_file || !i.inside_root {
                        Err("Normal 模式的 index.html 必须是 resource_root 内的文件："@ + i.display@)
                    } else {
                        Ok(Some(c.path))
                    },
                }
            } else {
                Ok(Some(c.path))
            },
        },
    }
}

/// Checks the resource root of a mode: normal mode needs a root that is a
/// directory holding an `index.html` file of its own; test mode may go
/// without one. Gives back the canonical root.
pub fn validate_resource_root<P>(root: Option<RootProbe<P>>, mode: Mode) -> (r: Result<
    Option<P>,
    String,
>)
    ensures
        r matches Ok(p) ==> root_check(root, mode) == Ok::<Option<P>, Seq<char>>(p),
        r matches Err(e) ==> root_check(root, mode) == Err::<Option<P>, Seq<char>>(e@),
{
    match root {
        None => {
            if mode == Mode::Normal {
                Err(
                    String::from_str(
                        "Normal 模式必须提供 resource_root，并且目录中必须包含 index.html",
                    ),
                )
            } else {
                Ok(None)
            }
        },
        Some(probe) => match probe.canonical {
            Err(e) => {
                let a = joined("无法访问资源根目录 `", probe.requested.as_str());
                let b = joined(a.as_str(), "`：");
                Err(joined(b.as_str(), e.as_str()))
            },
            Ok(c) => {
                if !c.is_dir {
                    return Err(joined("资源根路径不是目录：", c.display.as_str()));
                }
                if mode == Mode::Normal {
                    match c.index {
                        Err(e) => {
                            let a = joined(
                                "Normal 模式的资源根目录缺少可访问的 index.html：",
                                c.display.as_str(),
                            );
                            let b = joined(a.as_str(), "（");
                            let d = joined(b.as_str(), e.as_str());
                            Err(joined(d.as_str(), "）"))
                        },
                        Ok(i) => {
                            if !i.is_file || !i.inside_root {
                                Err(
                                    joined(
                                        "Normal 模式的 index.html 必须是 resource_root 内的文件：",
                                        i.display.as_str(),
                                    ),
                                )
                            } else {
                                Ok(Some(c.path))
                            }
                        },
                    }
                } else {
                    Ok(Some(c.path))
                }
            },
        },
    }
}

/// The built-in assets exist in test mode only: outside it every request
/// goes to the resource root, or is not found without one.
pub proof fn law_builtin_assets_only_in_test_mode(path: Seq<char>, has_root: bool)
    ensures
        route_of(path, false, has_root) == (if has_root {
            Route::Resource
        } else {
            Route::NotFound
        }),
{
}

/// The content type of a file does not depend on the ASCII case of its
/// extension.
pub proof fn law_content_type_ignores_case(a: Seq<char>, b: Seq<char>)
    requires
        ascii_lowercase(a) == ascii_lowercase(b),
    ensures
        content_type_of(Some(a)) == content_type_of(Some(b)),
{
}

proof fn lemma_no_percent_decodes_to_itself(b: Seq<u8>)
    requires
        forall|i: int| 0 <= i < b.len() ==> b[i] != 0x25,
    ensures
        percent_decoded(b) == b,
    decreases b.len(),
{
    if b.len() > 0 {
        lemma_no_percent_decodes_to_itself(b.drop_first());
        assert(seq![b[0]] + b.drop_first() =~= b);
    }
}

proof fn lemma_scalar_bytes_not_percent(c: char)
    requires
        c != '%',
    ensures
        forall|i: int| 0 <= i < vstd::utf8::encode_scalar(c as u32).len() ==> #[trigger] vstd::utf8::encode_scalar(c as u32)[i] != 0x25,
{
    let u = c as u32;
    assert(u != 0x25);
    assert(forall|y: u8| #![auto] (0x80u8 | y) != 0x25u8) by (bit_vector);
    assert(forall|y: u8| #![auto] (0xC0u8 | y) != 0x25u8) by (bit_vector);
    assert(forall|y: u8| #![auto] (0xE0u8 | y) != 0x25u8) by (bit_vector);
    assert(forall|y: u8| #![auto] (0xF0u8 | y) != 0x25u8) by (bit_vector);
    if u <= 0x7f {
        assert((u & 0x7f) as u8 == u) by (bit_vector)
            requires
                u <= 0x7f,
        ;
    }
}

proof fn lemma_encoding_has_no_percent(s: Seq<char>)
    requires
        forall|i: int| 0 <= i < s.len() ==> s[i] != '%',
    ensures
        forall|i: int| 0 <= i < encode_utf8(s).len() ==> #[trigger] encode_utf8(s)[i] != 0x25,
    decreases s.len(),
{
    if s.len() > 0 {
        lemma_scalar_bytes_not_percent(s[0]);
        lemma_encoding_has_no_percent(s.drop_first());
        let head = vstd::utf8::encode_scalar(s[0] as u32);
        let rest = encode_utf8(s.drop_first());
        assert(encode_utf8(s) == head + rest);
        assert forall|i: int| 0 <= i < encode_utf8(s).len() implies #[trigger] encode_utf8(s)[i]
            != 0x25 by {
            if i < head.len() {
                assert(encode_utf8(s)[i] == head[i]);
            } else {
                assert(encode_utf8(s)[i] == rest[i - head.len()]);
            }
        }
    }
}

proof fn lemma_strip_keeps_no_percent(s: Seq<char>)
    requires
        forall|i: int| 0 <= i < s.len() ==> s[i] != '%',
    ensures
        forall|i: int|
            0 <= i < strip_leading_slashes(s).len() ==> #[trigger] strip_leading_slashes(s)[i] != '%',
    decreases s.len(),
{
    if s.len() > 0 && s[0] == '/' {
        assert forall|i: int| 0 <= i < s.drop_first().len() implies s.drop_first()[i] != '%' by {
            assert(s.drop_first()[i] == s[i + 1]);
        }
        lemma_strip_keeps_no_percent(s.drop_first());
        assert(strip_leading_slashes(s) == strip_leading_slashes(s.drop_first()));
    } else {
        assert(strip_leading_slashes(s) == s);
    }
}

/// A request path without percent signs is looked up as written: decoding
/// only drops its leading slashes.
pub proof fn law_plain_paths_decode_to_themselves(uri_path: Seq<char>)
    requires
        forall|i: int| 0 <= i < uri_path.len() ==> uri_path[i] != '%',
    ensures
        decoded_request_path(uri_path) == Some(strip_leading_slashes(uri_path)),
{
    let t = strip_leading_slashes(uri_path);
    lemma_strip_keeps_no_percent(uri_path);
    lemma_encoding_has_no_percent(t);
    lemma_no_percent_decodes_to_itself(encode_utf8(t));
    vstd::utf8::encode_utf8_valid_utf8(t);
    vstd::utf8::encode_utf8_decode_utf8(t);
}

/// In test mode the built-in assets are served whatever the resource root:
/// `/` is the test page and `/test-background.png` its background, with or
/// without a root; every other path goes to the root, or is not found
/// without one.
pub proof fn law_test_assets_ignore_root(path: Seq<char>, has_root: bool)
    ensures
        route_of("/"@, true, has_root) == Route::TestPage,
        route_of("/test-background.png"@, true, has_root) == Route::TestBackground,
        path != "/"@ && path != "/test-background.png"@ ==> route_of(path, true, has_root) == (
        if has_root {
            Route::Resource
        } else {
            Route::NotFound
        }),
{
    reveal_strlit("/");
    reveal_strlit("/test-background.png");
    assert("/"@ != "/test-background.png"@) by {
        assert("/"@.len() != "/test-background.png"@.len());
    }
}

/// Normal mode is never accepted without a root: a successful check in
/// normal mode gives the canonical root, which exists, is a directory and
/// holds its own `index.html` as a file inside it. A root that cannot be
/// accessed, or is not a directory, is an error in either mode; test mode
/// without a root is accepted with none.
pub proof fn law_normal_mode_needs_its_root<P>(root: Option<RootProbe<P>>, mode: Mode)
    ensures
        mode == Mode::Normal && root_check(root, mode) is Ok ==> {
            &&& root matches Some(probe)
            &&& probe.canonical matches Ok(c)
            &&& c.is_dir
            &&& c.index matches Ok(i)
            &&& i.is_file && i.inside_root
            &&& root_check(root, mode) == Ok::<Option<P>, Seq<char>>(Some(c.path))
        },
        mode == Mode::Normal && root is None ==> root_check(root, mode) is Err,
        root matches Some(probe) ==> (probe.canonical is Err ==> root_check(root, mode) is Err),
        root matches Some(probe) ==> (probe.canonical matches Ok(c) && !c.is_dir ==> root_check(
            root,
            mode,
        ) is Err),
        mode == Mode::Test && root is None ==> root_check(root, mode) == Ok::<Option<P>, Seq<char>>(
            None,
        ),
        mode == Mode::Test && root_check(root, mode) is Ok ==> (root is Some ==> root_check(
            root,
            mode,
        ) matches Ok(Some(_))),
{
}

/// Whether a lowercased extension is one the protocol knows a type for.
pub open spec fn known_extension(l: Seq<char>) -> bool {
    ||| l == "html"@
    ||| l == "js"@
    ||| l == "mjs"@
    ||| l == "css"@
    ||| l == "json"@
    ||| l == "map"@
    ||| l == "png"@
    ||| l == "jpg"@
    ||| l == "jpeg"@
    ||| l == "gif"@
    ||| l == "webp"@
    ||| l == "svg"@
    ||| l == "ico"@
    ||| l == "woff"@
    ||| l == "woff2"@
    ||| l == "ttf"@
    ||| l == "wasm"@
    ||| l == "txt"@
}

/// The listed extensions are pairwise different strings.
proof fn lemma_known_extensions_differ()
    ensures
        "js"@ != "html"@,
        "mjs"@ != "html"@,
        "mjs"@ != "js"@,
        "css"@ != "html"@,
        "css"@ != "js"@,
        "css"@ != "mjs"@,
        "json"@ != "html"@,
        "json"@ != "js"@,
        "json"@ != "mjs"@,
        "json"@ != "css"@,
        "map"@ != "html"@,
        "map"@ != "js"@,
        "map"@ != "mjs"@,
        "map"@ != "css"@,
        "map"@ != "json"@,
        "png"@ != "html"@,
        "png"@ != "js"@,
        "png"@ != "mjs"@,
        "png"@ != "css"@,
        "png"@ != "json"@,
        "png"@ != "map"@,
        "jpg"@ != "html"@,
        "jpg"@ != "js"@,
        "jpg"@ != "mjs"@,
        "jpg"@ != "css"@,
        "jpg"@ != "json"@,
        "jpg"@ != "map"@,
        "jpg"@ != "png"@,
        "jpeg"@ != "html"@,
        "jpeg"@ != "js"@,
        "jpeg"@ != "mjs"@,
        "jpeg"@ != "css"@,
        "jpeg"@ != "json"@,
        "jpeg"@ != "map"@,
        "jpeg"@ != "png"@,
        "jpeg"@ != "jpg"@,
        "gif"@ != "html"@,
        "gif"@ != "js"@,
        "gif"@ != "mjs"@,
        "gif"@ != "css"@,
        "gif"@ != "json"@,
        "gif"@ != "map"@,
        "gif"@ != "png"@,
        "gif"@ != "jpg"@,
        "gif"@ != "jpeg"@,
        "webp"@ != "html"@,
        "webp"@ != "js"@,
        "webp"@ != "mjs"@,
        "webp"@ != "css"@,
        "webp"@ != "json"@,
        "webp"@ != "map"@,
        "webp"@ != "png"@,
        "webp"@ != "jpg"@,
        "webp"@ != "jpeg"@,
        "webp"@ != "gif"@,
        "svg"@ != "html"@,
        "svg"@ != "js"@,
        "svg"@ != "mjs"@,
        "svg"@ != "css"@,
        "svg"@ != "json"@,
        "svg"@ != "map"@,
        "svg"@ != "png"@,
        "svg"@ != "jpg"@,
        "svg"@ != "jpeg"@,
        "svg"@ != "gif"@,
        "svg"@ != "webp"@,
        "ico"@ != "html"@,
        "ico"@ != "js"@,
        "ico"@ != "mjs"@,
        "ico"@ != "css"@,
        "ico"@ != "json"@,
        "ico"@ != "map"@,
        "ico"@ != "png"@,
        "ico"@ != "jpg"@,
        "ico"@ != "jpeg"@,
        "ico"@ != "gif"@,
        "ico"@ != "webp"@,
        "ico"@ != "svg"@,
        "woff"@ != "html"@,
        "woff"@ != "js"@,
        "woff"@ != "mjs"@,
        "woff"@ != "css"@,
        "woff"@ != "json"@,
        "woff"@ != "map"@,
        "woff"@ != "png"@,
        "woff"@ != "jpg"@,
        "woff"@ != "jpeg"@,
        "woff"@ != "gif"@,
        "woff"@ != "webp"@,
        "woff"@ != "svg"@,
        "woff"@ != "ico"@,
        "woff2"@ != "html"@,
        "woff2"@ != "js"@,
        "woff2"@ != "mjs"@,
        "woff2"@ != "css"@,
        "woff2"@ != "json"@,
        "woff2"@ != "map"@,
        "woff2"@ != "png"@,
        "woff2"@ != "jpg"@,
        "woff2"@ != "jpeg"@,
        "woff2"@ != "gif"@,
        "woff2"@ != "webp"@,
        "woff2"@ != "svg"@,
        "woff2"@ != "ico"@,
        "woff2"@ != "woff"@,
        "ttf"@ != "html"@,
        "ttf"@ != "js"@,
        "ttf"@ != "mjs"@,
        "ttf"@ != "css"@,
        "ttf"@ != "json"@,
        "ttf"@ != "map"@,
        "ttf"@ != "png"@,
        "ttf"@ != "jpg"@,
        "ttf"@ != "jpeg"@,
        "ttf"@ != "gif"@,
        "ttf"@ != "webp"@,
        "ttf"@ != "svg"@,
        "ttf"@ != "ico"@,
        "ttf"@ != "woff"@,
        "ttf"@ != "woff2"@,
        "wasm"@ != "html"@,
        "wasm"@ != "js"@,
        "wasm"@ != "mjs"@,
        "wasm"@ != "css"@,
        "wasm"@ != "json"@,
        "wasm"@ != "map"@,
        "wasm"@ != "png"@,
        "wasm"@ != "jpg"@,
        "wasm"@ != "jpeg"@,
        "wasm"@ != "gif"@,
        "wasm"@ != "webp"@,
        "wasm"@ != "svg"@,
        "wasm"@ != "ico"@,
        "wasm"@ != "woff"@,
        "wasm"@ != "woff2"@,
        "wasm"@ != "ttf"@,
        "txt"@ != "html"@,
        "txt"@ != "js"@,
        "txt"@ != "mjs"@,
        "txt"@ != "css"@,
        "txt"@ != "json"@,
        "txt"@ != "map"@,
        "txt"@ != "png"@,
        "txt"@ != "jpg"@,
        "txt"@ != "jpeg"@,
        "txt"@ != "gif"@,
        "txt"@ != "webp"@,
        "txt"@ != "svg"@,
        "txt"@ != "ico"@,
        "txt"@ != "woff"@,
        "txt"@ != "woff2"@,
        "txt"@ != "ttf"@,
        "txt"@ != "wasm"@,
{
    reveal_strlit("html");
    reveal_strlit("js");
    reveal_strlit("mjs");
    reveal_strlit("css");
    reveal_strlit("json");
    reveal_strlit("map");
    reveal_strlit("png");
    reveal_strlit("jpg");
    reveal_strlit("jpeg");
    reveal_strlit("gif");
    reveal_strlit("webp");
    reveal_strlit("svg");
    reveal_strlit("ico");
    reveal_strlit("woff");
    reveal_strlit("woff2");
    reveal_strlit("ttf");
    reveal_strlit("wasm");
    reveal_strlit("txt");
    assert("js"@.len() != "html"@.len());
    assert("mjs"@.len() != "html"@.len());
    assert("mjs"@.len() != "js"@.len());
    assert("css"@.len() != "html"@.len());
    assert("css"@.len() != "js"@.len());
    assert("css"@[0] != "mjs"@[0]);
    assert("json"@[0] != "html"@[0]);
    assert("json"@.len() != "js"@.len());
    assert("json"@.len() != "mjs"@.len());
    assert("json"@.len() != "css"@.len());
    assert("map"@.len() != "html"@.len());
    assert("map"@.len() != "js"@.len());
    assert("map"@[1] != "mjs"@[1]);
    assert("map"@[0] != "css"@[0]);
    assert("map"@.len() != "json"@.len());
    assert("png"@.len() != "html"@.len());
    assert("png"@.len() != "js"@.len());
    assert("png"@[0] != "mjs"@[0]);
    assert("png"@[0] != "css"@[0]);
    assert("png"@.len() != "json"@.len());
    assert("png"@[0] != "map"@[0]);
    assert("jpg"@.len() != "html"@.len());
    assert("jpg"@.len() != "js"@.len());
    assert("jpg"@[0] != "mjs"@[0]);
    assert("jpg"@[0] != "css"@[0]);
    assert("jpg"@.len() != "json"@.len());
    assert("jpg"@[0] != "map"@[0]);
    assert("jpg"@[0] != "png"@[0]);
    assert("jpeg"@[0] != "html"@[0]);
    assert("jpeg"@.len() != "js"@.len());
    assert("jpeg"@.len() != "mjs"@.len());
    assert("jpeg"@.len() != "css"@.len());
    assert("jpeg"@[1] != "json"@[1]);
    assert("jpeg"@.len() != "map"@.len());
    assert("jpeg"@.len() != "png"@.len());
    assert("jpeg"@.len() != "jpg"@.len());
    assert("gif"@.len() != "html"@.len());
    assert("gif"@.len() != "js"@.len());
    assert("gif"@[0] != "mjs"@[0]);
    assert("gif"@[0] != "css"@[0]);
    assert("gif"@.len() != "json"@.len());
    assert("gif"@[0] != "map"@[0]);
    assert("gif"@[0] != "png"@[0]);
    assert("gif"@[0] != "jpg"@[0]);
    assert("gif"@.len() != "jpeg"@.len());
    assert("webp"@[0] != "html"@[0]);
    assert("webp"@.len() != "js"@.len());
    assert("webp"@.len() != "mjs"@.len());
    assert("webp"@.len() != "css"@.len());
    assert("webp"@[0] != "json"@[0]);
    assert("webp"@.len() != "map"@.len());
    assert("webp"@.len() != "png"@.len());
    assert("webp"@.len() != "jpg"@.len());
    assert("webp"@[0] != "jpeg"@[0]);
    assert("webp"@.len() != "gif"@.len());
    assert("svg"@.len() != "html"@.len());
    assert("svg"@.len() != "js"@.len());
    assert("svg"@[0] != "mjs"@[0]);
    assert("svg"@[0] != "css"@[0]);
    assert("svg"@.len() != "json"@.len());
    assert("svg"@[0] != "map"@[0]);
    assert("svg"@[0] != "png"@[0]);
    assert("svg"@[0] != "jpg"@[0]);
    assert("svg"@.len() != "jpeg"@.len());
    assert("svg"@[0] != "gif"@[0]);
    assert("svg"@.len() != "webp"@.len());
    assert("ico"@.len() != "html"@.len());
    assert("ico"@.len() != "js"@.len());
    assert("ico"@[0] != "mjs"@[0]);
    assert("ico"@[0] != "css"@[0]);
    assert("ico"@.len() != "json"@.len());
    assert("ico"@[0] != "map"@[0]);
    assert("ico"@[0] != "png"@[0]);
    assert("ico"@[0] != "jpg"@[0]);
    assert("ico"@.len() != "jpeg"@.len());
    assert("ico"@[0] != "gif"@[0]);
    assert("ico"@.len() != "webp"@.len());
    assert("ico"@[0] != "svg"@[0]);
    assert("woff"@[0] != "html"@[0]);
    assert("woff"@.len() != "js"@.len());
    assert("woff"@.len() != "mjs"@.len());
    assert("woff"@.len() != "css"@.len());
    assert("woff"@[0] != "json"@[0]);
    assert("woff"@.len() != "map"@.len());
    assert("woff"@.len() != "png"@.len());
    assert("woff"@.len() != "jpg"@.len());
    assert("woff"@[0] != "jpeg"@[0]);
    assert("woff"@.len() != "gif"@.len());
    assert("woff"@[1] != "webp"@[1]);
    assert("woff"@.len() != "svg"@.len());
    assert("woff"@.len() != "ico"@.len());
    assert("woff2"@.len() != "html"@.len());
    assert("woff2"@.len() != "js"@.len());
    assert("woff2"@.len() != "mjs"@.len());
    assert("woff2"@.len() != "css"@.len());
    assert("woff2"@.len() != "json"@.len());
    assert("woff2"@.len() != "map"@.len());
    assert("woff2"@.len() != "png"@.len());
    assert("woff2"@.len() != "jpg"@.len());
    assert("woff2"@.len() != "jpeg"@.len());
    assert("woff2"@.len() != "gif"@.len());
    assert("woff2"@.len() != "webp"@.len());
    assert("woff2"@.len() != "svg"@.len());
    assert("woff2"@.len() != "ico"@.len());
    assert("woff2"@.len() != "woff"@.len());
    assert("ttf"@.len() != "html"@.len());
    assert("ttf"@.len() != "js"@.len());
    assert("ttf"@[0] != "mjs"@[0]);
    assert("ttf"@[0] != "css"@[0]);
    assert("ttf"@.len() != "json"@.len());
    assert("ttf"@[0] != "map"@[0]);
    assert("ttf"@[0] != "png"@[0]);
    assert("ttf"@[0] != "jpg"@[0]);
    assert("ttf"@.len() != "jpeg"@.len());
    assert("ttf"@[0] != "gif"@[0]);
    assert("ttf"@.len() != "webp"@.len());
    assert("ttf"@[0] != "svg"@[0]);
    assert("ttf"@[0] != "ico"@[0]);
    assert("ttf"@.len() != "woff"@.len());
    assert("ttf"@.len() != "woff2"@.len());
    assert("wasm"@[0] != "html"@[0]);
    assert("wasm"@.len() != "js"@.len());
    assert("wasm"@.len() != "mjs"@.len());
    assert("wasm"@.len() != "css"@.len());
    assert("wasm"@[0] != "json"@[0]);
    assert("wasm"@.len() != "map"@.len());
    assert("wasm"@.len() != "png"@.len());
    assert("wasm"@.len() != "jpg"@.len());
    assert("wasm"@[0] != "jpeg"@[0]);
    assert("wasm"@.len() != "gif"@.len());
    assert("wasm"@[1] != "webp"@[1]);
    assert("wasm"@.len() != "svg"@.len());
    assert("wasm"@.len() != "ico"@.len());
    assert("wasm"@[1] != "woff"@[1]);
    assert("wasm"@.len() != "woff2"@.len());
    assert("wasm"@.len() != "ttf"@.len());
    assert("txt"@.len() != "html"@.len());
    assert("txt"@.len() != "js"@.len());
    assert("txt"@[0] != "mjs"@[0]);
    assert("txt"@[0] != "css"@[0]);
    assert("txt"@.len() != "json"@.len());
    assert("txt"@[0] != "map"@[0]);
    assert("txt"@[0] != "png"@[0]);
    assert("txt"@[0] != "jpg"@[0]);
    assert("txt"@.len() != "jpeg"@.len());
    assert("txt"@[0] != "gif"@[0]);
    assert("txt"@.len() != "webp"@.len());
    assert("txt"@[0] != "svg"@[0]);
    assert("txt"@[0] != "ico"@[0]);
    assert("txt"@.len() != "woff"@.len());
    assert("txt"@.len() != "woff2"@.len());
    assert("txt"@[1] != "ttf"@[1]);
    assert("txt"@.len() != "wasm"@.len());
}

/// Only the listed extensions have a type: every other extension, in any
/// case, and a file without an extension are served as
/// `application/octet-stream`; each listed extension gets its own type.
pub proof fn law_content_type_only_for_listed(ext: Option<Seq<char>>)
    ensures
        ext is None ==> content_type_of(ext) == "application/octet-stream"@,
        ext matches Some(e) && !known_extension(ascii_lowercase(e)) ==> content_type_of(ext)
            == "application/octet-stream"@,
        ext matches Some(e) && ascii_lowercase(e) == "html"@ ==> content_type_of(ext)
            == "text/html; charset=utf-8"@,
        ext matches Some(e) && (ascii_lowercase(e) == "js"@ || ascii_lowercase(e) == "mjs"@)
            ==> content_type_of(ext) == "text/javascript; charset=utf-8"@,
        ext matches Some(e) && ascii_lowercase(e) == "css"@ ==> content_type_of(ext)
            == "text/css; charset=utf-8"@,
        ext matches Some(e) && (ascii_lowercase(e) == "json"@ || ascii_lowercase(e) == "map"@)
            ==> content_type_of(ext) == "application/json; charset=utf-8"@,
        ext matches Some(e) && ascii_lowercase(e) == "png"@ ==> content_type_of(ext)
            == "image/png"@,
        ext matches Some(e) && (ascii_lowercase(e) == "jpg"@ || ascii_lowercase(e) == "jpeg"@)
            ==> content_type_of(ext) == "image/jpeg"@,
        ext matches Some(e) && ascii_lowercase(e) == "gif"@ ==> content_type_of(ext)
            == "image/gif"@,
        ext matches Some(e) && ascii_lowercase(e) == "webp"@ ==> content_type_of(ext)
            == "image/webp"@,
        ext matches Some(e) && ascii_lowercase(e) == "svg"@ ==> content_type_of(ext)
            == "image/svg+xml"@,
        ext matches Some(e) && ascii_lowercase(e) == "ico"@ ==> content_type_of(ext)
            == "image/x-icon"@,
        ext matches Some(e) && ascii_lowercase(e) == "woff"@ ==> content_type_of(ext)
            == "font/woff"@,
        ext matches Some(e) && ascii_lowercase(e) == "woff2"@ ==> content_type_of(ext)
            == "font/woff2"@,
        ext matches Some(e) && ascii_lowercase(e) == "ttf"@ ==> content_type_of(ext)
            == "font/ttf"@,
        ext matches Some(e) && ascii_lowercase(e) == "wasm"@ ==> content_type_of(ext)
            == "application/wasm"@,
        ext matches Some(e) && ascii_lowercase(e) == "txt"@ ==> content_type_of(ext)
            == "text/plain; charset=utf-8"@,
{
    reveal_strlit("html");
    reveal_strlit("js");
    reveal_strlit("mjs");
    reveal_strlit("css");
    reveal_strlit("json");
    reveal_strlit("map");
    reveal_strlit("png");
    reveal_strlit("jpg");
    reveal_strlit("jpeg");
    reveal_strlit("gif");
    reveal_strlit("webp");
    reveal_strlit("svg");
    reveal_strlit("ico");
    reveal_strlit("woff");
    reveal_strlit("woff2");
    reveal_strlit("ttf");
    reveal_strlit("wasm");
    reveal_strlit("txt");
    lemma_known_extensions_differ();
}

/// A relative path made only of normal names and `.` stays inside the root,
/// whatever separators it ends with: one that does not start at a separator
/// or a drive and has no `..` component is accepted, and so is the same
/// path with a trailing `/` or `\` (a link to a sub-directory).
pub proof fn law_plain_relative_paths_stay_inside(p: Seq<char>, sep: char)
    ensures
        !(p.len() > 0 && is_separator(p[0])) && !(p.len() >= 2 && is_ascii_letter(p[0]) && p[1]
            == ':') && (forall|i: int| !#[trigger] parent_at(p, i)) ==> stays_inside(p),
        stays_inside(p) && p.len() > 0 && is_separator(sep) ==> stays_inside(p.push(sep)),
{
    if stays_inside(p) && p.len() > 0 && is_separator(sep) {
        let q = p.push(sep);
        assert forall|i: int| !#[trigger] parent_at(q, i) by {
            if parent_at(q, i) {
                assert(q[i] == p[i] && q[i + 1] == p[i + 1]);
                if i + 2 < p.len() {
                    assert(q[i + 2] == p[i + 2]);
                }
                if i > 0 {
                    assert(q[i - 1] == p[i - 1]);
                }
                assert(parent_at(p, i));
            }
        }
    }
}

} // verus!
