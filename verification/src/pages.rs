//! File-path resolution and page responses.
//!
//! A request path is trimmed of leading slashes and dots and joined under
//! the root directory; a path that names a directory on disk resolves to
//! its `index.html` member. A file with an HTML extension is answered
//! with its content plus one injected script block that opens the reload
//! stream; a missing file is answered "not found" with an empty body.
//! The disk itself (opening, reading, the directory test) is the driver's
//! business: these functions compute the paths and the replies from what
//! the disk said.

use vstd::prelude::*;
use vstd::string::*;

verus! {

/// A character trimmed from the front of a request path before the path
/// is joined under the root.
pub open spec fn trimmable(c: char) -> bool {
    c == '/' || c == '.'
}

/// How many leading characters of `s` are trimmed.
pub open spec fn trim_start(s: Seq<char>) -> int
    decreases s.len(),
{
    if s.len() > 0 && trimmable(s[0]) {
        1 + trim_start(s.drop_first())
    } else {
        0
    }
}

/// The request path with every leading slash and dot removed.
pub open spec fn trim_leading(s: Seq<char>) -> Seq<char> {
    s.subrange(trim_start(s), s.len() as int)
}

/// Path join: a separator goes between the parts unless the left part is
/// empty or already ends in one.
pub open spec fn join_path(a: Seq<char>, b: Seq<char>) -> Seq<char> {
    if a.len() == 0 {
        b
    } else if a.last() == '/' {
        a + b
    } else {
        a + "/"@ + b
    }
}

/// The file a request path names under the root, before any directory
/// resolution.
pub open spec fn built_path(path: Seq<char>, root: Seq<char>) -> Seq<char> {
    join_path(root, trim_leading(path))
}

/// The member a directory request resolves to.
pub open spec fn index_file() -> Seq<char> {
    "index.html"@
}

/// A directory path, resolved to its index member.
pub open spec fn dir_resolved(p: Seq<char>) -> Seq<char> {
    join_path(p, index_file())
}

/// The trimmed prefix is trimmable throughout, ends at the first
/// untrimmable character, and never overruns the path.
pub proof fn lemma_trim_start_props(s: Seq<char>)
    ensures
        0 <= trim_start(s) <= s.len(),
        forall|j: int| 0 <= j < trim_start(s) ==> trimmable(#[trigger] s[j]),
        trim_start(s) < s.len() ==> !trimmable(s[trim_start(s)]),
    decreases s.len(),
{
    if s.len() > 0 && trimmable(s[0]) {
        lemma_trim_start_props(s.drop_first());
        assert forall|j: int| 0 <= j < trim_start(s) implies trimmable(#[trigger] s[j]) by {
            if j > 0 {
                assert(s.drop_first()[j - 1] == s[j]);
            }
        }
        if trim_start(s) < s.len() {
            assert(s.drop_first()[trim_start(s) - 1] == s[trim_start(s)]);
        }
    }
}

/// A scan that walked over trimmable characters and stopped at an
/// untrimmable one (or at the end) found exactly the trimmed prefix.
pub proof fn lemma_trim_start_is(s: Seq<char>, k: int)
    requires
        0 <= k <= s.len(),
        forall|j: int| 0 <= j < k ==> trimmable(#[trigger] s[j]),
        k < s.len() ==> !trimmable(s[k]),
    ensures
        trim_start(s) == k,
    decreases s.len(),
{
    if s.len() > 0 && trimmable(s[0]) {
        assert forall|j: int| 0 <= j < k - 1 implies trimmable(#[trigger] s.drop_first()[j]) by {
            assert(s.drop_first()[j] == s[j + 1]);
        }
        if k - 1 < s.drop_first().len() {
            assert(s.drop_first()[k - 1] == s[k]);
        }
        lemma_trim_start_is(s.drop_first(), k - 1);
    }
}

/// Join two path parts with the separator rule of `join_path`.
fn join_exec(a: &str, b: &str) -> (r: String)
    ensures
        r@ == join_path(a@, b@),
{
    let an = a.unicode_len();
    if an == 0 {
        return String::from_str(b);
    }
    let mut out = String::from_str(a);
    let lastc = a.get_char(an - 1);
    if lastc != '/' {
        out.append("/");
    }
    out.append(b);
    out
}

/// The file a request path names under the root: the path loses its
/// leading slashes and dots and goes below the root directory. Whether
/// that file is a directory is the disk's answer; see
/// [`resolve_directory`] for that case.
pub fn build_file_path(path: &str, root_dir: &str) -> (r: String)
    ensures
        r@ == built_path(path@, root_dir@),
{
    let n = path.unicode_len();
    let mut k: usize = 0;
    let mut scanning = true;
    while scanning && k < n
        invariant
            k <= n,
            n == path@.len(),
            forall|j: int| 0 <= j < k ==> trimmable(#[trigger] path@[j]),
            !scanning ==> (k < n && !trimmable(path@[k as int])),
        decreases n - k + (if scanning {
            1int
        } else {
            0int
        }),
    {
        let c = path.get_char(k);
        if c == '/' || c == '.' {
            k += 1;
        } else {
            scanning = false;
        }
    }
    proof {
        lemma_trim_start_is(path@, k as int);
    }
    let trimmed = path.substring_char(k, n);
    join_exec(root_dir, trimmed)
}

/// The index member of a path the disk reported to be a directory.
pub fn resolve_directory(p: &str) -> (r: String)
    ensures
        r@ == dir_resolved(p@),
{
    join_exec(p, "index.html")
}

/// The last position of `c` in `s`, or -1 when `c` does not occur.
pub open spec fn last_index_of(s: Seq<char>, c: char) -> int
    decreases s.len(),
{
    if s.len() == 0 {
        -1
    } else if s.last() == c {
        s.len() - 1
    } else {
        last_index_of(s.drop_last(), c)
    }
}

/// `last_index_of` points at an occurrence, and nothing follows it.
pub proof fn lemma_last_index_of_props(s: Seq<char>, c: char)
    ensures
        -1 <= last_index_of(s, c) < s.len(),
        last_index_of(s, c) >= 0 ==> s[last_index_of(s, c)] == c,
        forall|j: int| last_index_of(s, c) < j < s.len() ==> s[j] != c,
    decreases s.len(),
{
    if s.len() > 0 && s.last() != c {
        lemma_last_index_of_props(s.drop_last(), c);
        assert forall|j: int| last_index_of(s, c) < j < s.len() implies s[j] != c by {
            if j < s.len() - 1 {
                assert(s.drop_last()[j] == s[j]);
            }
        }
    }
}

/// The path with its trailing separators and trailing `.` components
/// removed — the way the platform reads a path, `a.html/` and `a.html/.`
/// name the file `a.html`. A trailing `..` component is kept: it names
/// no file.
pub open spec fn strip_trailing(s: Seq<char>) -> Seq<char>
    decreases s.len(),
{
    if s.len() == 0 {
        s
    } else if s.last() == '/' {
        strip_trailing(s.drop_last())
    } else if s.last() == '.' && (s.len() == 1 || s[s.len() - 2] == '/') {
        strip_trailing(s.drop_last())
    } else {
        s
    }
}

/// A stripped path ends in an `html` extension: there is a dot after the
/// last slash, not at the final component's first position, and `html`
/// follows the last such dot.
pub open spec fn ext_is_html(s: Seq<char>) -> bool {
    let dot = last_index_of(s, '.');
    dot > last_index_of(s, '/') + 1 && s.subrange(dot + 1, s.len() as int) == "html"@
}

/// A path names an HTML file when, trailing separators and `.`
/// components stripped, its final component has the extension `html` —
/// exact and case-sensitive.
pub open spec fn has_html_extension(s: Seq<char>) -> bool {
    ext_is_html(strip_trailing(s))
}

/// The last position of `c` in `path`, scanning from the end.
fn last_pos_of(path: &str, c: char) -> (r: Option<usize>)
    ensures
        r is Some ==> last_index_of(path@, c) == r->0,
        r is None ==> last_index_of(path@, c) == -1,
{
    let n = path.unicode_len();
    let mut i = n;
    while i > 0
        invariant
            i <= n,
            n == path@.len(),
            forall|j: int| i <= j < n ==> path@[j] != c,
        decreases i,
    {
        let ch = path.get_char(i - 1);
        if ch == c {
            proof {
                lemma_last_index_of_props(path@, c);
            }
            return Some(i - 1);
        }
        i -= 1;
    }
    proof {
        lemma_last_index_of_props(path@, c);
    }
    None
}

/// Whether the path names an HTML file — the exact extension `html` on
/// the final component, trailing separators ignored, as
/// [`has_html_extension`] says.
pub fn is_html_file(path: &str) -> (r: bool)
    ensures
        r == has_html_extension(path@),
{
    let n = path.unicode_len();
    let mut m = n;
    let mut stripping = true;
    proof {
        assert(path@.subrange(0, n as int) =~= path@);
    }
    while stripping && m > 0
        invariant
            m <= n,
            n == path@.len(),
            strip_trailing(path@) == strip_trailing(path@.subrange(0, m as int)),
            !stripping ==> strip_trailing(path@.subrange(0, m as int)) == path@.subrange(
                0,
                m as int,
            ),
        decreases m + (if stripping {
            1int
        } else {
            0int
        }),
    {
        let c = path.get_char(m - 1);
        let strip = if c == '/' {
            true
        } else if c == '.' {
            m == 1 || path.get_char(m - 2) == '/'
        } else {
            false
        };
        proof {
            assert(path@.subrange(0, m as int).drop_last() =~= path@.subrange(0, m - 1));
            assert(path@.subrange(0, m as int).last() == path@[m - 1]);
        }
        if strip {
            m -= 1;
        } else {
            stripping = false;
        }
    }
    proof {
        if m == 0 {
            assert(path@.subrange(0, 0) =~= Seq::<char>::empty());
        }
        assert(strip_trailing(path@) == path@.subrange(0, m as int));
    }
    let core = path.substring_char(0, m);
    extension_is_html(core)
}

/// Whether an already-stripped path ends in the `html` extension, as
/// [`ext_is_html`] says.
fn extension_is_html(path: &str) -> (r: bool)
    ensures
        r == ext_is_html(path@),
{
    proof {
        lemma_last_index_of_props(path@, '.');
        lemma_last_index_of_props(path@, '/');
        reveal_strlit("html");
    }
    let n = path.unicode_len();
    let ld = last_pos_of(path, '.');
    if ld.is_none() {
        return false;
    }
    let dot = ld.unwrap();
    let ok_pos = match last_pos_of(path, '/') {
        Some(sl) => dot >= 1 && dot - 1 > sl,
        None => dot >= 1,
    };
    if !ok_pos {
        return false;
    }
    if n - dot != 5 {
        proof {
            assert(path@.subrange(dot + 1, n as int).len() == n - dot - 1);
            assert("html"@.len() == 4);
            assert(path@.subrange(dot + 1, n as int) != "html"@);
        }
        return false;
    }
    let c1 = path.get_char(dot + 1);
    let c2 = path.get_char(dot + 2);
    let c3 = path.get_char(dot + 3);
    let c4 = path.get_char(dot + 4);
    let r = c1 == 'h' && c2 == 't' && c3 == 'm' && c4 == 'l';
    proof {
        let ext = path@.subrange(dot + 1, n as int);
        if r {
            assert(ext =~= "html"@);
        } else {
            if ext == "html"@ {
                assert(ext[0] == 'h' && ext[1] == 't' && ext[2] == 'm' && ext[3] == 'l');
            }
        }
    }
    r
}

/// A complete (non-streaming) reply to one request.
pub struct Reply {
    /// The status code sent.
    pub status: u16,
    /// The whole body sent.
    pub body: String,
}

/// The reply for a path that names nothing on disk: status 404, empty
/// body.
pub fn not_found() -> (r: Reply)
    ensures
        r.status == 404,
        r.body@ == Seq::<char>::empty(),
{
    Reply { status: 404, body: String::new() }
}

/// The script block appended to every HTML page served: it opens the
/// reload stream and reloads the page on any message.
pub open spec fn injected_script() -> Seq<char> {
    "
<script>
    (() => {
        let eventSource = new EventSource('/__serena');
        eventSource.onmessage = () => location.reload();
    })();
</script>
"@
}

/// The injected script block, as served.
pub fn injected_script_text() -> (s: &'static str)
    ensures
        s@ == injected_script(),
{
    "
<script>
    (() => {
        let eventSource = new EventSource('/__serena');
        eventSource.onmessage = () => location.reload();
    })();
</script>
"
}

/// An HTML page with the reload script appended — appended once, after
/// the page's own content, which is left untouched.
pub fn inject_reload_script(html: String) -> (r: String)
    ensures
        r@ == html@ + injected_script(),
{
    html.concat(injected_script_text())
}

/// The reply for an HTML file: the file's content with the script block
/// appended when the read succeeded, a plain server error when it
/// failed.
pub fn html_response(contents: Option<String>) -> (r: Reply)
    ensures
        contents is Some ==> r.status == 200 && r.body@ == (contents->0)@ + injected_script(),
        contents is None ==> r.status == 500 && r.body@ == "Failed to read file"@,
{
    match contents {
        Some(h) => Reply { status: 200, body: inject_reload_script(h) },
        None => Reply { status: 500, body: String::from_str("Failed to read file") },
    }
}

/// How a file request is answered, given what the disk said.
#[derive(Clone, Copy, PartialEq, Eq, Structural, Debug)]
pub enum TransferPlan {
    /// The file could not be opened: answer "not found".
    NotFound,
    /// An HTML file: read it whole and append the script block.
    Html,
    /// Any other file: stream its bytes through unmodified.
    Stream,
}

/// The decision of [`transfer_plan`], as a function.
pub open spec fn transfer_plan_spec(file_exists: bool, is_html: bool) -> TransferPlan {
    if !file_exists {
        TransferPlan::NotFound
    } else if is_html {
        TransferPlan::Html
    } else {
        TransferPlan::Stream
    }
}

/// Decide how to answer a file request: "not found" when the file could
/// not be opened, the HTML treatment for an HTML file, a plain byte
/// stream for everything else.
pub fn transfer_plan(file_exists: bool, is_html: bool) -> (p: TransferPlan)
    ensures
        p == transfer_plan_spec(file_exists, is_html),
{
    if !file_exists {
        TransferPlan::NotFound
    } else if is_html {
        TransferPlan::Html
    } else {
        TransferPlan::Stream
    }
}

/// Injection idempotence: serving the same HTML content always yields
/// the same body, and that body is the content followed by exactly one
/// copy of the script block — the content itself is untouched and
/// nothing follows the one appended copy. A second request for an
/// unchanged file therefore answers byte-identically.
pub proof fn lemma_injection_appends_once(h: Seq<char>)
    ensures
        (h + injected_script()).len() == h.len() + injected_script().len(),
        (h + injected_script()).subrange(0, h.len() as int) == h,
        (h + injected_script()).subrange(
            h.len() as int,
            (h + injected_script()).len() as int,
        ) == injected_script(),
{
    assert((h + injected_script()).subrange(0, h.len() as int) =~= h);
    assert((h + injected_script()).subrange(
        h.len() as int,
        (h + injected_script()).len() as int,
    ) =~= injected_script());
}

/// Trimming a concatenation: when the left part keeps an untrimmable
/// character, trimming never reaches the right part; when the left part
/// is trimmable throughout, trimming continues into the right part.
pub proof fn lemma_trim_start_concat(s: Seq<char>, t: Seq<char>)
    ensures
        trim_start(s + t) == if trim_start(s) < s.len() {
            trim_start(s)
        } else {
            s.len() + trim_start(t)
        },
    decreases s.len(),
{
    lemma_trim_start_props(s);
    if s.len() == 0 {
        assert(s + t =~= t);
    } else if trimmable(s[0]) {
        assert((s + t).drop_first() =~= s.drop_first() + t);
        lemma_trim_start_concat(s.drop_first(), t);
        assert((s + t)[0] == s[0]);
    }
}

/// Directory resolution: asking for a path the disk reports as a
/// directory answers with the very file that asking for
/// `<path>/index.html` outright would have reached. (The one condition:
/// the trimmed path must not itself end in a slash, for then the two
/// request texts name the member with a different number of
/// separators.)
pub proof fn lemma_directory_resolution(path: Seq<char>, root: Seq<char>)
    requires
        trim_leading(path).len() == 0 || trim_leading(path).last() != '/',
    ensures
        built_path(path + "/"@ + index_file(), root) == dir_resolved(built_path(path, root)),
{
    reveal_strlit("/");
    reveal_strlit("index.html");
    lemma_trim_start_props(path);
    let t = "/"@ + index_file();
    let q = path + "/"@ + index_file();
    assert(q =~= path + t);
    lemma_trim_start_concat(path, t);
    let ts = trim_start(path);
    let tr = trim_leading(path);
    if ts < path.len() {
        // the trimmed path survives; the suffix rides along untrimmed
        assert(tr.len() > 0);
        assert(trim_leading(path + t) =~= tr + t);
        if root.len() == 0 {
            assert(join_path(root, tr + t) =~= tr + "/"@ + index_file());
            assert(dir_resolved(tr) =~= tr + "/"@ + index_file());
        } else if root.last() == '/' {
            assert(join_path(root, tr + t) =~= root + tr + "/"@ + index_file());
            assert((root + tr).last() == tr.last());
            assert(dir_resolved(root + tr) =~= root + tr + "/"@ + index_file());
        } else {
            assert(join_path(root, tr + t) =~= root + "/"@ + tr + "/"@ + index_file());
            assert((root + "/"@ + tr).last() == tr.last());
            assert(dir_resolved(root + "/"@ + tr) =~= root + "/"@ + tr + "/"@ + index_file());
        }
    } else {
        // the whole path is slashes and dots; the joined separator is
        // trimmed too and only the index member's name is left
        assert(tr.len() == 0);
        assert(t[0] == '/');
        assert(t[1] == index_file()[0]);
        assert(!trimmable(t[1]));
        lemma_trim_start_is(t, 1);
        assert(trim_leading(path + t) =~= index_file());
        if root.len() == 0 {
            assert(join_path(root, tr) =~= Seq::<char>::empty());
            assert(dir_resolved(join_path(root, tr)) =~= index_file());
        } else if root.last() == '/' {
            assert(join_path(root, tr) =~= root);
            assert(dir_resolved(root) =~= root + index_file());
            assert(join_path(root, index_file()) =~= root + index_file());
        } else {
            assert(join_path(root, tr) =~= root + "/"@);
            assert((root + "/"@).last() == '/');
            assert(dir_resolved(root + "/"@) =~= root + "/"@ + index_file());
            assert(join_path(root, index_file()) =~= root + "/"@ + index_file());
        }
    }
}

} // verus!
