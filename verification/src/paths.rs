//! File paths: which files go to the viewer instead of the text editor, and
//! the names that viewers show and give their textures.

use vstd::prelude::*;
use crate::text::{decimal, decimal_spec};

verus! {

/// The final component of a path, as `Path::file_name` finds it.
pub uninterp spec fn spec_path_file_name(path: Seq<char>) -> Option<Seq<char>>;

/// A string in lower case, as `str::to_lowercase` makes it.
pub uninterp spec fn spec_to_lowercase(s: Seq<char>) -> Seq<char>;

/// The index of the last dot of `name`, or -1 when it has none.
pub open spec fn last_dot(name: Seq<char>) -> int
    decreases name.len(),
{
    if name.len() == 0 {
        -1
    } else if name.last() == '.' {
        name.len() - 1
    } else {
        last_dot(name.drop_last())
    }
}

/// The extension of a file name: the part after its last dot, when it has a
/// dot that is not its first character alone.
pub open spec fn extension_of_name(name: Seq<char>) -> Option<Seq<char>> {
    if last_dot(name) <= 0 {
        None
    } else {
        Some(name.subrange(last_dot(name) + 1, name.len() as int))
    }
}

/// The extension of a path: that of its final component, when it has one.
pub open spec fn spec_path_extension(path: Seq<char>) -> Option<Seq<char>> {
    match spec_path_file_name(path) {
        Some(name) => extension_of_name(name),
        None => None,
    }
}

/// Calls `Path::extension` on `path` and turns the extension into a `String`.
/// As its documentation states, the extension is taken from the file name
/// (`Path::file_name`): none without a file name, none without a dot, none
/// when the only dot starts the name, and otherwise the part after the last
/// dot.
#[verifier::external_body]
fn path_extension(path: &str) -> (ext: Option<String>)
    ensures
        ext matches Some(e) ==> spec_path_extension(path@) == Some(e@),
        ext is None ==> spec_path_extension(path@) is None,
{
    std::path::Path::new(path).extension().and_then(|e| e.to_str()).map(|e| e.to_string())
}

/// Calls `Path::file_name` on `path` and turns the name into a `String`.
/// The contract claims only that the result is a function of the path, named
/// `spec_path_file_name`; the rule for finding the final component is left
/// unsaid.
#[verifier::external_body]
fn path_file_name(path: &str) -> (name: Option<String>)
    ensures
        name matches Some(n) ==> spec_path_file_name(path@) == Some(n@),
        name is None ==> spec_path_file_name(path@) is None,
{
    std::path::Path::new(path).file_name().map(|n| n.to_string_lossy().into_owned())
}

/// Calls `str::to_lowercase`. The contract claims only that the result is a
/// function of the string, named `spec_to_lowercase`; the Unicode case
/// mapping is left unsaid.
#[verifier::external_body]
fn to_lowercase(s: &str) -> (r: String)
    ensures
        r@ == spec_to_lowercase(s@),
{
    s.to_lowercase()
}

/// Whether two strings hold the same characters.
pub fn str_equal(a: &str, b: &str) -> (r: bool)
    ensures
        r == (a@ == b@),
{
    let n = a.unicode_len();
    let m = b.unicode_len();
    if n != m {
        return false;
    }
    let mut i: usize = 0;
    while i < n
        invariant
            n == a@.len(),
            m == b@.len(),
            n == m,
            i <= n,
            forall|k: int| 0 <= k < i ==> a@[k] == b@[k],
        decreases n - i,
    {
        if a.get_char(i) != b.get_char(i) {
            return false;
        }
        i = i + 1;
    }
    assert(a@ =~= b@);
    true
}

/// The extensions of the files that the viewer shows instead of the editor.
pub open spec fn viewer_extensions() -> Seq<Seq<char>> {
    seq!["pdf"@, "png"@, "jpg"@, "jpeg"@, "gif"@, "bmp"@, "svg"@, "webp"@, "tiff"@]
}

/// A file goes to the viewer when the lower-case form of its extension is one
/// of the viewer extensions.
pub open spec fn is_viewer_path(path: Seq<char>) -> bool {
    match spec_path_extension(path) {
        Some(ext) => viewer_extensions().contains(spec_to_lowercase(ext)),
        None => false,
    }
}

/// Whether `lower`, an extension in lower case, is one of the viewer
/// extensions.
pub fn is_viewer_extension(lower: &str) -> (r: bool)
    ensures
        r == viewer_extensions().contains(lower@),
{
    let e = lower;
    let r = str_equal(e, "pdf") || str_equal(e, "png") || str_equal(e, "jpg") || str_equal(e, "jpeg")
        || str_equal(e, "gif") || str_equal(e, "bmp") || str_equal(e, "svg") || str_equal(e, "webp")
        || str_equal(e, "tiff");
    proof {
        let exts = viewer_extensions();
        if r {
            if e@ == "pdf"@ { assert(exts[0] == e@); }
            if e@ == "png"@ { assert(exts[1] == e@); }
            if e@ == "jpg"@ { assert(exts[2] == e@); }
            if e@ == "jpeg"@ { assert(exts[3] == e@); }
            if e@ == "gif"@ { assert(exts[4] == e@); }
            if e@ == "bmp"@ { assert(exts[5] == e@); }
            if e@ == "svg"@ { assert(exts[6] == e@); }
            if e@ == "webp"@ { assert(exts[7] == e@); }
            if e@ == "tiff"@ { assert(exts[8] == e@); }
        } else {
            assert forall|i: int| 0 <= i < exts.len() implies exts[i] != e@ by {}
        }
    }
    r
}

/// Whether the file at `path` is a PDF or image file for the viewer.
pub fn should_use_viewer(path: &str) -> (r: bool)
    ensures
        r == is_viewer_path(path@),
{
    match path_extension(path) {
        Some(ext) => {
            let lower = to_lowercase(ext.as_str());
            is_viewer_extension(lower.as_str())
        },
        None => false,
    }
}

/// Whether `e` is one of the nine extensions of PDF and image files: pdf,
/// png, jpg, jpeg, gif, bmp, svg, webp and tiff.
pub open spec fn is_pdf_or_image_extension(e: Seq<char>) -> bool {
    ||| e == "pdf"@
    ||| e == "png"@
    ||| e == "jpg"@
    ||| e == "jpeg"@
    ||| e == "gif"@
    ||| e == "bmp"@
    ||| e == "svg"@
    ||| e == "webp"@
    ||| e == "tiff"@
}

/// The viewer takes exactly the nine extensions pdf, png, jpg, jpeg, gif,
/// bmp, svg, webp and tiff, each once, and no other: toml, rs, txt and md
/// files, among all others, stay in the text editor. A file goes to the
/// viewer exactly when the lower-case form of its extension is one of the
/// nine, and a file without an extension never does.
pub proof fn lemma_viewer_extension_set(e: Seq<char>, path: Seq<char>)
    ensures
        viewer_extensions().contains(e) <==> is_pdf_or_image_extension(e),
        viewer_extensions().len() == 9,
        viewer_extensions().no_duplicates(),
        !viewer_extensions().contains("toml"@),
        !viewer_extensions().contains("rs"@),
        !viewer_extensions().contains("txt"@),
        !viewer_extensions().contains("md"@),
        is_viewer_path(path) <==> (spec_path_extension(path) matches Some(x)
            && is_pdf_or_image_extension(spec_to_lowercase(x))),
        spec_path_extension(path) is None ==> !is_viewer_path(path),
{
    reveal_strlit("pdf");
    reveal_strlit("png");
    reveal_strlit("jpg");
    reveal_strlit("jpeg");
    reveal_strlit("gif");
    reveal_strlit("bmp");
    reveal_strlit("svg");
    reveal_strlit("webp");
    reveal_strlit("tiff");
    reveal_strlit("toml");
    reveal_strlit("rs");
    reveal_strlit("txt");
    reveal_strlit("md");
    let exts = viewer_extensions();
    assert(exts[0] == "pdf"@);
    assert(exts[1] == "png"@);
    assert(exts[2] == "jpg"@);
    assert(exts[3] == "jpeg"@);
    assert(exts[4] == "gif"@);
    assert(exts[5] == "bmp"@);
    assert(exts[6] == "svg"@);
    assert(exts[7] == "webp"@);
    assert(exts[8] == "tiff"@);
    assert forall|x: Seq<char>| exts.contains(x) <==> is_pdf_or_image_extension(x) by {
        if is_pdf_or_image_extension(x) {
            if x == "pdf"@ { assert(exts[0] == x); }
            if x == "png"@ { assert(exts[1] == x); }
            if x == "jpg"@ { assert(exts[2] == x); }
            if x == "jpeg"@ { assert(exts[3] == x); }
            if x == "gif"@ { assert(exts[4] == x); }
            if x == "bmp"@ { assert(exts[5] == x); }
            if x == "svg"@ { assert(exts[6] == x); }
            if x == "webp"@ { assert(exts[7] == x); }
            if x == "tiff"@ { assert(exts[8] == x); }
        }
    }
    assert("pdf"@.len() == 3 && "png"@.len() == 3 && "jpg"@.len() == 3 && "gif"@.len() == 3);
    assert("bmp"@.len() == 3 && "svg"@.len() == 3 && "txt"@.len() == 3);
    assert("jpeg"@.len() == 4 && "webp"@.len() == 4 && "tiff"@.len() == 4 && "toml"@.len() == 4);
    assert("rs"@.len() == 2 && "md"@.len() == 2);
    assert("toml"@[0] == 't' && "jpeg"@[0] == 'j' && "webp"@[0] == 'w');
    assert("toml"@[1] == 'o' && "tiff"@[1] == 'i');
    assert("toml"@ != "tiff"@);
    assert("toml"@ != "jpeg"@);
    assert("toml"@ != "webp"@);
    assert(!is_pdf_or_image_extension("toml"@));
    assert(!is_pdf_or_image_extension("rs"@));
    assert(!is_pdf_or_image_extension("md"@));
    assert("txt"@[0] == 't' && "pdf"@[0] == 'p' && "png"@[0] == 'p' && "jpg"@[0] == 'j');
    assert("gif"@[0] == 'g' && "bmp"@[0] == 'b' && "svg"@[0] == 's');
    assert(!is_pdf_or_image_extension("txt"@));
    assert forall|i: int, j: int| 0 <= i < exts.len() && 0 <= j < exts.len() && i != j
        implies exts[i] != exts[j] by {
        assert(exts[i].len() > 0 && exts[j].len() > 0);
        if exts[i].len() == exts[j].len() {
            if exts[i][0] == exts[j][0] {
                assert(exts[i][1] != exts[j][1] || exts[i][2] != exts[j][2]);
            }
        }
    }
}

/// Whether two paths name the same file path, as `Path`'s `==` decides it
/// (component by component).
pub uninterp spec fn spec_same_path(a: Seq<char>, b: Seq<char>) -> bool;

/// Calls `==` on `Path::new(a)` and `Path::new(b)`, which compares the paths
/// component by component. The contract claims that the answer is a function
/// of the two strings, named `spec_same_path`, and that equal strings are the
/// same path; how components are split and compared is left unsaid.
#[verifier::external_body]
fn path_eq(a: &str, b: &str) -> (r: bool)
    ensures
        r == spec_same_path(a@, b@),
        a@ == b@ ==> r,
{
    std::path::Path::new(a) == std::path::Path::new(b)
}

/// Whether `a` and `b` name the same path: the same characters, or paths
/// that compare equal component by component.
pub open spec fn same_path(a: Seq<char>, b: Seq<char>) -> bool {
    a == b || spec_same_path(a, b)
}

/// Whether `a` and `b` name the same path.
pub fn is_same_path(a: &str, b: &str) -> (r: bool)
    ensures
        r == same_path(a@, b@),
{
    str_equal(a, b) || path_eq(a, b)
}

/// The title of a viewer: the file name of its path, or "Viewer" when the
/// path has none.
pub open spec fn viewer_title_spec(path: Seq<char>) -> Seq<char> {
    match spec_path_file_name(path) {
        Some(name) => name,
        None => "Viewer"@,
    }
}

/// The title shown for a viewer of the file at `path`.
pub fn viewer_title(path: &str) -> (title: String)
    ensures
        title@ == viewer_title_spec(path@),
{
    match path_file_name(path) {
        Some(name) => name,
        None => {
            let mut t = String::new();
            t.append("Viewer");
            t
        },
    }
}

/// The name of the texture of a page: the path, ":page", and the page index.
pub fn texture_name(path: &str, page_idx: i32) -> (name: String)
    ensures
        name@ == path@ + ":page"@ + decimal_spec(page_idx as int),
{
    let mut name = String::new();
    name.append(path);
    name.append(":page");
    let idx = decimal(page_idx as i64);
    name.append(idx.as_str());
    name
}

} // verus!
