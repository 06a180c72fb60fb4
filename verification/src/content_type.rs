//! Classification of a path by its extension.

use vstd::prelude::*;

verus! {

/// The lower-case form of an ASCII capital letter; any other character is
/// left as it is.
pub open spec fn ascii_lower(c: char) -> char {
    if 'A' <= c && c <= 'Z' {
        ((c as u8 + 32) as u8) as char
    } else {
        c
    }
}

/// `s` with every ASCII capital letter replaced by its lower-case form.
pub open spec fn lowered(s: Seq<char>) -> Seq<char> {
    Seq::new(s.len(), |i: int| ascii_lower(s[i]))
}

/// The position of the last `.` in `path`, or `-1` where there is none.
pub open spec fn last_dot(path: Seq<char>) -> int
    decreases path.len(),
{
    if path.len() == 0 {
        -1
    } else if path.last() == '.' {
        path.len() - 1
    } else {
        last_dot(path.drop_last())
    }
}

/// What follows the last `.` of `path`; empty where `path` has no `.`.
pub open spec fn extension(path: Seq<char>) -> Seq<char> {
    if last_dot(path) < 0 {
        Seq::empty()
    } else {
        path.subrange(last_dot(path) + 1, path.len() as int)
    }
}

/// The label that the table gives to an extension that is already in lower
/// case. An extension that the table does not list, the empty one among
/// them, is a stream of octets.
pub open spec fn label_of_extension(ext: Seq<char>) -> Seq<char> {
    if ext == "html"@ {
        "text/html"@
    } else if ext == "css"@ {
        "text/css"@
    } else if ext == "js"@ {
        "application/javascript"@
    } else if ext == "json"@ {
        "application/json"@
    } else if ext == "jpg"@ || ext == "jpeg"@ {
        "image/jpeg"@
    } else if ext == "png"@ {
        "image/png"@
    } else if ext == "gif"@ {
        "image/gif"@
    } else if ext == "svg"@ {
        "image/svg+xml"@
    } else if ext == "txt"@ {
        "text/plain"@
    } else {
        "application/octet-stream"@
    }
}

/// Whether the table lists `ext`, an extension in lower case.
pub open spec fn listed(ext: Seq<char>) -> bool {
    ||| ext == "html"@
    ||| ext == "css"@
    ||| ext == "js"@
    ||| ext == "json"@
    ||| ext == "jpg"@
    ||| ext == "jpeg"@
    ||| ext == "png"@
    ||| ext == "gif"@
    ||| ext == "svg"@
    ||| ext == "txt"@
}

/// The content type of `path`: the table's label for its extension, read
/// without regard to the case of ASCII letters.
pub open spec fn content_type_of(path: Seq<char>) -> Seq<char> {
    label_of_extension(lowered(extension(path)))
}

/// `last_dot` is a position of `path` that holds a `.`, with none after it,
/// or `-1` where `path` holds none at all.
pub proof fn lemma_last_dot_bounds(path: Seq<char>)
    ensures
        -1 <= last_dot(path) < path.len(),
        last_dot(path) >= 0 ==> path[last_dot(path)] == '.',
        forall|j: int| last_dot(path) < j < path.len() ==> path[j] != '.',
    decreases path.len(),
{
    if path.len() > 0 && path.last() != '.' {
        let front = path.drop_last();
        lemma_last_dot_bounds(front);
        assert forall|j: int| last_dot(path) < j < path.len() implies path[j] != '.' by {
            if j < front.len() {
                assert(front[j] == path[j]);
            }
        }
    }
}

/// Lowering the case of a path moves no `.`.
proof fn lemma_last_dot_of_lowered(path: Seq<char>)
    ensures
        last_dot(lowered(path)) == last_dot(path),
    decreases path.len(),
{
    if path.len() > 0 {
        assert(lowered(path).drop_last() == lowered(path.drop_last()));
        lemma_last_dot_of_lowered(path.drop_last());
    }
}

/// The extension of a lowered path is the lowered extension of the path.
proof fn lemma_extension_of_lowered(path: Seq<char>)
    ensures
        extension(lowered(path)) == lowered(extension(path)),
{
    lemma_last_dot_of_lowered(path);
    lemma_last_dot_bounds(path);
}

/// Classification is blind to the case of ASCII letters: two paths that are
/// equal once both are lowered have the same content type.
pub proof fn lemma_classification_ignores_case(p: Seq<char>, q: Seq<char>)
    requires
        lowered(p) == lowered(q),
    ensures
        content_type_of(p) == content_type_of(q),
{
    lemma_extension_of_lowered(p);
    lemma_extension_of_lowered(q);
}

/// A path without a `.`, and a path whose extension the table does not
/// list, is a stream of octets.
pub proof fn lemma_unlisted_is_octet_stream(path: Seq<char>)
    requires
        !path.contains('.') || !listed(lowered(extension(path))),
    ensures
        content_type_of(path) == "application/octet-stream"@,
{
    if !path.contains('.') {
        lemma_last_dot_bounds(path);
        assert(lowered(extension(path)).len() == 0);
        reveal_strlit("html");
        reveal_strlit("css");
        reveal_strlit("js");
        reveal_strlit("json");
        reveal_strlit("jpg");
        reveal_strlit("jpeg");
        reveal_strlit("png");
        reveal_strlit("gif");
        reveal_strlit("svg");
        reveal_strlit("txt");
    }
}

/// The lower-case form of `c`, where `c` is an ASCII capital letter.
fn to_lower(c: char) -> (l: char)
    ensures
        l == ascii_lower(c),
{
    if 'A' <= c && c <= 'Z' {
        ((c as u8) + 32) as char
    } else {
        c
    }
}

/// Reads `path` once and keeps, in lower case, what follows its last `.`.
fn lowered_extension(path: &str) -> (ext: Vec<char>)
    ensures
        ext@ == lowered(extension(path@)),
{
    let mut ext: Vec<char> = Vec::new();
    let mut seen_dot = false;
    for c in it: path.chars()
        invariant
            it.seq() == path@,
            seen_dot == (last_dot(path@.take(it.index())) >= 0),
            ext@ == lowered(extension(path@.take(it.index()))),
    {
        proof {
            let i = it.index();
            assert(path@.take(i + 1).drop_last() == path@.take(i));
            lemma_last_dot_bounds(path@.take(i));
        }
        if c == '.' {
            seen_dot = true;
            ext.clear();
        } else if seen_dot {
            ext.push(to_lower(c));
        }
    }
    assert(path@.take(path@.len() as int) == path@);
    ext
}

/// Tells whether `ext` holds the characters of `word`.
fn spells(ext: &Vec<char>, word: &str) -> (same: bool)
    ensures
        same == (ext@ == word@),
{
    let mut i: usize = 0;
    for c in it: word.chars()
        invariant
            it.seq() == word@,
            i == it.index(),
            i <= ext@.len(),
            forall|j: int| 0 <= j < i ==> ext@[j] == word@[j],
    {
        if i >= ext.len() || ext[i] != c {
            return false;
        }
        i += 1;
    }
    if i == ext.len() {
        assert(ext@ =~= word@);
        true
    } else {
        false
    }
}

/// Classifies `path` by its extension: what follows its last `.`, read
/// without regard to the case of ASCII letters. A path without a `.` has no
/// extension, and what the table does not list is a stream of octets.
pub fn get_content_type(path: &str) -> (label: String)
    ensures
        label@ == content_type_of(path@),
{
    let ext = lowered_extension(path);
    if spells(&ext, "html") {
        "text/html".to_owned()
    } else if spells(&ext, "css") {
        "text/css".to_owned()
    } else if spells(&ext, "js") {
        "application/javascript".to_owned()
    } else if spells(&ext, "json") {
        "application/json".to_owned()
    } else if spells(&ext, "jpg") || spells(&ext, "jpeg") {
        "image/jpeg".to_owned()
    } else if spells(&ext, "png") {
        "image/png".to_owned()
    } else if spells(&ext, "gif") {
        "image/gif".to_owned()
    } else if spells(&ext, "svg") {
        "image/svg+xml".to_owned()
    } else if spells(&ext, "txt") {
        "text/plain".to_owned()
    } else {
        "application/octet-stream".to_owned()
    }
}

} // verus!
