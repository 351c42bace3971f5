use vstd::prelude::*;

verus! {

/// A character of a path as a preview image source writes it: a backslash
/// becomes a forward slash.
pub open spec fn forward_slash_char(c: char) -> char {
    if c == '\\' {
        '/'
    } else {
        c
    }
}

/// A path with every backslash turned into a forward slash.
pub open spec fn with_forward_slashes(s: Seq<char>) -> Seq<char> {
    s.map_values(|c: char| forward_slash_char(c))
}

/// `path` with every backslash replaced by a forward slash.
pub fn forward_slashes(path: &str) -> (text: String)
    ensures
        text@ == with_forward_slashes(path@),
{
    let n = path.unicode_len();
    let mut text = String::new();
    for i in 0..n
        invariant
            n == path@.len(),
            text@ == with_forward_slashes(path@.take(i as int)),
    {
        let c = path.get_char(i);
        if c == '\\' {
            text.append("/");
            proof {
                reveal_strlit("/");
            }
        } else {
            text.append(path.substring_char(i, i + 1));
        }
        assert(with_forward_slashes(path@.take(i + 1)) =~= with_forward_slashes(
            path@.take(i as int),
        ).push(forward_slash_char(c)));
    }
    assert(path@.take(n as int) =~= path@);
    text
}

/// The text under which the preview's temporary copy is shown: the path as
/// it is, or on Windows with forward slashes in place of backslashes.
pub fn preview_path_text(temp_path: &str, is_windows: bool) -> (text: String)
    ensures
        text@ == (if is_windows { with_forward_slashes(temp_path@) } else { temp_path@ }),
{
    if is_windows {
        forward_slashes(temp_path)
    } else {
        String::from_str(temp_path)
    }
}

/// Where the preview asks for the file to be downloaded: to its temporary
/// path where no copy exists there yet, nowhere otherwise.
pub fn download_request(temp_path: &String, temp_exists: bool) -> (request: Option<String>)
    ensures
        match request {
            Some(path) => !temp_exists && path@ == temp_path@,
            None => temp_exists,
        },
{
    if temp_exists {
        None
    } else {
        Some(temp_path.clone())
    }
}

/// The source of the preview image: the temporary copy where it exists,
/// else the file's thumbnail.
pub fn preview_image_source(temp_exists: bool, temp_path_text: String, thumbnail: String) -> (source: String)
    ensures
        source@ == (if temp_exists { temp_path_text@ } else { thumbnail@ }),
{
    if temp_exists {
        temp_path_text
    } else {
        thumbnail
    }
}

/// A path without backslashes is its own forward-slash form, so the Windows
/// rewrite changes nothing twice.
pub proof fn lemma_forward_slashes_idempotent(s: Seq<char>)
    ensures
        with_forward_slashes(with_forward_slashes(s)) == with_forward_slashes(s),
        !with_forward_slashes(s).contains('\\'),
{
    assert(with_forward_slashes(with_forward_slashes(s)) =~= with_forward_slashes(s));
    if with_forward_slashes(s).contains('\\') {
        let i = choose|i: int| 0 <= i < with_forward_slashes(s).len() && with_forward_slashes(s)[i] == '\\';
        assert(with_forward_slashes(s)[i] == forward_slash_char(s[i]));
    }
}

/// The Windows rewrite of a path touches backslashes alone: the text has
/// the path's length, a forward slash where the path has a backslash, and
/// the path's own character everywhere else.
pub proof fn lemma_forward_slashes_meaning(s: Seq<char>)
    ensures
        with_forward_slashes(s).len() == s.len(),
        forall|i: int| 0 <= i < s.len() && s[i] == '\\' ==> #[trigger] with_forward_slashes(s)[i] == '/',
        forall|i: int| 0 <= i < s.len() && s[i] != '\\' ==> #[trigger] with_forward_slashes(s)[i] == s[i],
{
}

} // verus!
