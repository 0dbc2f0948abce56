use vstd::prelude::*;

verus! {

// ---------------------------------------------------------------------------
// Lower case
// ---------------------------------------------------------------------------

/// Whether every character of `s` is ASCII.
pub open spec fn all_ascii(s: Seq<char>) -> bool {
    forall|i: int| 0 <= i < s.len() ==> (#[trigger] s[i] as u32) < 128
}

/// `c` with `A`..`Z` turned into `a`..`z`.
pub open spec fn ascii_lower_char(c: char) -> char {
    if 65 <= (c as u32) <= 90 {
        ((c as u32) + 32) as char
    } else {
        c
    }
}

/// `s` with `A`..`Z` turned into `a`..`z` and every other character kept.
pub open spec fn ascii_lowercase(s: Seq<char>) -> Seq<char> {
    s.map_values(|c: char| ascii_lower_char(c))
}

/// What `str::to_lowercase` gives for a text.
pub uninterp spec fn lowercase(s: Seq<char>) -> Seq<char>;

/// Calls `str::to_lowercase`. Claimed: the result is `lowercase` of the text,
/// and for an all-ASCII text it is the text with `A`..`Z` turned into
/// `a`..`z` (the Unicode lower-case mapping of ASCII letters). Nothing is
/// stated of the mapping of other characters.
#[verifier::external_body]
fn to_lowercase(s: &str) -> (r: String)
    ensures
        r@ == lowercase(s@),
        all_ascii(s@) ==> r@ == ascii_lowercase(s@),
{
    s.to_lowercase()
}

// ---------------------------------------------------------------------------
// Extensions
// ---------------------------------------------------------------------------

/// Position of the last `c` in `s`, or -1 if there is none.
pub open spec fn last_index_of(s: Seq<char>, c: char) -> int
    decreases s.len(),
{
    if s.len() == 0 {
        -1
    } else if s.last() == c {
        s.len() - 1
    } else {
        last_index_of(s.drop_last(), c)
    }
}

/// The text after the last `/` of `s` (all of `s` if it has none).
pub open spec fn final_component(s: Seq<char>) -> Seq<char> {
    s.subrange(last_index_of(s, '/') + 1, s.len() as int)
}

/// A file name that is an ordinary last path component: not empty, not `.`
/// or `..`, and without `/` or `\`.
pub open spec fn is_plain_name(n: Seq<char>) -> bool {
    &&& n.len() > 0
    &&& !(n.len() == 1 && n[0] == '.')
    &&& !(n.len() == 2 && n[0] == '.' && n[1] == '.')
    &&& !n.contains('/')
    &&& !n.contains('\\')
}

/// A path separator on some platform: `/` everywhere, `\` on Windows.
pub open spec fn is_separator(c: char) -> bool {
    c == '/' || c == '\\'
}

/// Whether `s` begins with two separators, as Windows UNC, device and
/// verbatim prefixes (`\\server`, `//server`, `\\.\`, `\\?\`) do.
pub open spec fn starts_with_two_separators(s: Seq<char>) -> bool {
    s.len() >= 2 && is_separator(s[0]) && is_separator(s[1])
}

/// A path with a `/`, not beginning with two separators, whose text after the
/// last `/` is a plain name. Its last component is that text on every
/// platform: on Unix `/` is the only separator; on Windows `\` is one too,
/// but the text after the last `/` holds none, and only a prefix that begins
/// with two separators stops `/` from being one.
pub open spec fn has_plain_final_component(s: Seq<char>) -> bool {
    &&& last_index_of(s, '/') >= 0
    &&& !starts_with_two_separators(s)
    &&& is_plain_name(final_component(s))
}

/// The extension of a file name: none without a dot, none when the only dot
/// leads the name, else the text after the last dot.
pub open spec fn name_extension(n: Seq<char>) -> Option<Seq<char>> {
    let k = last_index_of(n, '.');
    if k <= 0 {
        None
    } else {
        Some(n.subrange(k + 1, n.len() as int))
    }
}

/// The extension that `std::path::Path::extension` finds in a path given as
/// text, converted to text (lossless for a path that came from text).
pub uninterp spec fn path_extension(path: Seq<char>) -> Option<Seq<char>>;

/// Calls `std::path::Path::extension` on `file_name` and converts the
/// extension with `OsStr::to_string_lossy`. Claimed: the result is
/// `path_extension` of the text, and, for a path whose last component is
/// a plain name after a `/`, the documented rule: no extension without a dot
/// or when the only dot leads the name, else the text after the last dot.
/// Nothing is stated for other paths (trailing `/`, `.` or `..` at the end,
/// `\` after the last `/`, no `/`, or two separators at the start).
#[verifier::external_body]
fn file_extension(file_name: &str) -> (r: Option<String>)
    ensures
        match r {
            Some(e) => path_extension(file_name@) == Some(e@),
            None => path_extension(file_name@) is None,
        },
        has_plain_final_component(file_name@) ==> match r {
            Some(e) => name_extension(final_component(file_name@)) == Some(e@),
            None => name_extension(final_component(file_name@)) is None,
        },
{
    match std::path::Path::new(file_name).extension() {
        Some(e) => Some(e.to_string_lossy().to_string()),
        None => None,
    }
}

/// The extension of `file_name` and its lower-case form, if it has one.
pub fn extension_of(file_name: &str) -> (r: Option<(String, String)>)
    ensures
        match r {
            Some((e, l)) => path_extension(file_name@) == Some(e@) && l@ == lowercase(e@),
            None => path_extension(file_name@) is None,
        },
        extension_facts(file_name@),
{
    match file_extension(file_name) {
        Some(e) => {
            let l = to_lowercase(e.as_str());
            Some((e, l))
        },
        None => None,
    }
}

/// What is known of the extension of `file`: it follows the documented rule
/// when the last component is a plain name, and an all-ASCII extension lowers
/// as ASCII.
pub open spec fn extension_facts(file: Seq<char>) -> bool {
    &&& has_plain_final_component(file) ==> path_extension(file) == name_extension(final_component(file))
    &&& match path_extension(file) {
        Some(ext) => all_ascii(ext) ==> lowercase(ext) == ascii_lowercase(ext),
        None => true,
    }
}

// ---------------------------------------------------------------------------
// Which files get a preview
// ---------------------------------------------------------------------------

/// The lower-case extensions of the files that get a preview.
pub open spec fn preview_extensions() -> Seq<Seq<char>> {
    seq![
        "jpg"@, "jpeg"@, "png"@, "bmp"@, "tiff"@, "tif"@, "tga"@, "ff"@, "gif"@, "jif"@, "jfi"@,
    ]
}

/// Whether a file with extension `extension` gets a preview: its lower-case
/// form is one of `preview_extensions`.
pub open spec fn spec_is_preview_extension(extension: Seq<char>) -> bool {
    preview_extensions().contains(lowercase(extension))
}

fn str_is(s: &str, literal: &str) -> (r: bool)
    ensures
        r == (s@ == literal@),
{
    let a = String::from_str(s);
    let l = String::from_str(literal);
    a == l
}

/// Whether a file whose lower-case extension is `lower` gets a preview.
pub fn is_preview_lowercase(lower: &str) -> (r: bool)
    ensures
        r == preview_extensions().contains(lower@),
{
    let ghost l = lower@;
    let ghost exts = preview_extensions();
    let r = str_is(lower, "jpg") || str_is(lower, "jpeg") || str_is(lower, "png")
        || str_is(lower, "bmp") || str_is(lower, "tiff") || str_is(lower, "tif")
        || str_is(lower, "tga") || str_is(lower, "ff") || str_is(lower, "gif")
        || str_is(lower, "jif") || str_is(lower, "jfi");
    proof {
        if r {
            assert(exts.contains(l)) by {
                if l == "jpg"@ { assert(exts[0] == l); }
                else if l == "jpeg"@ { assert(exts[1] == l); }
                else if l == "png"@ { assert(exts[2] == l); }
                else if l == "bmp"@ { assert(exts[3] == l); }
                else if l == "tiff"@ { assert(exts[4] == l); }
                else if l == "tif"@ { assert(exts[5] == l); }
                else if l == "tga"@ { assert(exts[6] == l); }
                else if l == "ff"@ { assert(exts[7] == l); }
                else if l == "gif"@ { assert(exts[8] == l); }
                else if l == "jif"@ { assert(exts[9] == l); }
                else { assert(exts[10] == l); }
            }
        } else {
            assert(!exts.contains(l)) by {
                if exts.contains(l) {
                    let i = choose|i: int| 0 <= i < exts.len() && exts[i] == l;
                    assert(0 <= i < 11);
                }
            }
        }
    }
    r
}

/// Whether a file whose extension is `extension` gets a preview: its
/// lower-case form is a preview extension; for an ASCII extension, the case
/// of its letters does not matter.
pub fn is_preview_extension(extension: &str) -> (r: bool)
    ensures
        r == spec_is_preview_extension(extension@),
        all_ascii(extension@) ==> r == preview_extensions().contains(ascii_lowercase(extension@)),
{
    let lower = to_lowercase(extension);
    is_preview_lowercase(lower.as_str())
}

/// Two ASCII extensions that differ only in the case of their letters either
/// both get a preview or neither does.
pub proof fn lemma_extension_case_does_not_matter(e1: Seq<char>, e2: Seq<char>)
    requires
        all_ascii(e1),
        all_ascii(e2),
        ascii_lowercase(e1) == ascii_lowercase(e2),
        lowercase(e1) == ascii_lowercase(e1),
        lowercase(e2) == ascii_lowercase(e2),
    ensures
        spec_is_preview_extension(e1) == spec_is_preview_extension(e2),
        lowercase(e1) == lowercase(e2),
{
}

// ---------------------------------------------------------------------------
// File names
// ---------------------------------------------------------------------------

/// The file a selected row stands for: its folder, a slash, and its name.
pub open spec fn spec_entry_file(path: Seq<char>, name: Seq<char>) -> Seq<char> {
    path + "/"@ + name
}

/// The file a selected row stands for.
pub fn entry_file(path: &str, name: &str) -> (r: String)
    ensures
        r@ == spec_entry_file(path@, name@),
{
    let mut r = String::from_str(path);
    r.append("/");
    r.append(name);
    r
}

proof fn lemma_last_index_of_append(a: Seq<char>, b: Seq<char>, c: char)
    requires
        !b.contains(c),
    ensures
        last_index_of(a + b, c) == last_index_of(a, c),
    decreases b.len(),
{
    if b.len() > 0 {
        assert((a + b).drop_last() == a + b.drop_last());
        assert((a + b).last() == b.last());
        assert(!b.drop_last().contains(c)) by {
            if b.drop_last().contains(c) {
                let i = choose|i: int| 0 <= i < b.drop_last().len() && b.drop_last()[i] == c;
                assert(b[i] == c);
            }
        }
        assert(b.last() != c) by {
            assert(b[b.len() - 1] == b.last());
        }
        lemma_last_index_of_append(a, b.drop_last(), c);
    } else {
        assert(a + b == a);
    }
}

proof fn lemma_no_char_without_index(s: Seq<char>, c: char)
    requires
        last_index_of(s, c) < 0,
    ensures
        !s.contains(c),
    decreases s.len(),
{
    if s.len() > 0 {
        lemma_no_char_without_index(s.drop_last(), c);
        assert forall|i: int| 0 <= i < s.len() implies s[i] != c by {
            if i < s.len() - 1 {
                assert(s.drop_last()[i] == s[i]);
            }
        }
    }
}

/// The file of a row whose name is a plain name, in a folder that does not
/// (with the joining `/`) begin with two separators, has that name as its
/// last component.
pub proof fn lemma_entry_file_final_component(path: Seq<char>, name: Seq<char>)
    requires
        is_plain_name(name),
        !starts_with_two_separators(path.push('/')),
    ensures
        has_plain_final_component(spec_entry_file(path, name)),
        final_component(spec_entry_file(path, name)) == name,
{
    let slash: Seq<char> = seq!['/'];
    assert("/"@ == slash) by {
        reveal_strlit("/");
    }
    let front = path + slash;
    let file = front + name;
    assert(spec_entry_file(path, name) == file);
    assert(front == path.push('/'));
    lemma_last_index_of_append(front, name, '/');
    assert(front.last() == '/');
    assert(last_index_of(front, '/') == path.len());
    assert(file.subrange(path.len() as int + 1, file.len() as int) == name);
    assert(!starts_with_two_separators(file)) by {
        if path.len() == 0 {
            assert(file[1] == name[0]);
            assert(!is_separator(name[0])) by {
                if name[0] == '/' { assert(name.contains('/')); }
                if name[0] == '\\' { assert(name.contains('\\')); }
            }
        } else {
            assert(file[0] == front[0]);
            assert(file[1] == front[1]);
        }
    }
}

/// Name of the file that holds the scaled preview of an image whose
/// lower-case extension is `lower`.
pub open spec fn spec_cached_name_for(lower: Seq<char>) -> Seq<char> {
    "cached_file."@ + lower
}

/// Name of the file that holds the scaled preview of an image whose
/// lower-case extension is `lower`.
pub fn cached_name_for(lower: &str) -> (r: String)
    ensures
        r@ == spec_cached_name_for(lower@),
{
    let mut r = String::from_str("cached_file.");
    r.append(lower);
    r
}

/// Name of the file that holds the scaled preview of an image with
/// extension `extension`: the extension is lowered.
pub fn cached_file_name(extension: &str) -> (r: String)
    ensures
        r@ == spec_cached_name_for(lowercase(extension@)),
        all_ascii(extension@) ==> r@ == spec_cached_name_for(ascii_lowercase(extension@)),
{
    let lower = to_lowercase(extension);
    cached_name_for(lower.as_str())
}

} // verus!
