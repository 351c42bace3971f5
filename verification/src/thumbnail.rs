use vstd::prelude::*;

verus! {

/// The symbol that the standard base64 alphabet gives to a six-bit value.
pub open spec fn base64_symbol(v: int) -> char {
    if v < 26 {
        (65 + v) as char
    } else if v < 52 {
        (97 + (v - 26)) as char
    } else if v < 62 {
        (48 + (v - 52)) as char
    } else if v == 62 {
        '+'
    } else {
        '/'
    }
}

/// Standard base64 (RFC 4648 alphabet, `=` padding) of a byte sequence:
/// every group of three bytes becomes four symbols, and a last group of one
/// or two bytes is padded to four symbols.
pub open spec fn base64_standard(b: Seq<u8>) -> Seq<char>
    decreases b.len(),
{
    if b.len() == 0 {
        seq![]
    } else {
        let x = b[0] as int;
        let y = if b.len() > 1 { b[1] as int } else { 0 };
        let z = if b.len() > 2 { b[2] as int } else { 0 };
        let first = base64_symbol(x / 4);
        let second = base64_symbol((x % 4) * 16 + y / 16);
        let third = base64_symbol((y % 16) * 4 + z / 64);
        let fourth = base64_symbol(z % 64);
        if b.len() == 1 {
            seq![first, second, '=', '=']
        } else if b.len() == 2 {
            seq![first, second, third, '=']
        } else {
            seq![first, second, third, fourth] + base64_standard(b.skip(3))
        }
    }
}

/// Calls `base64::encode`, which encodes with the `STANDARD` engine: the
/// standard alphabet with `=` padding. The contract claims that the text is
/// `base64_standard` of the input. The input is bounded so that the encoded
/// text (four symbols for each started group of three bytes) fits in the
/// `isize::MAX` bytes that an allocation may have; beyond that the crate's
/// buffer allocation panics.
#[verifier::external_body]
#[allow(deprecated)]
fn base64_encode(bytes: &[u8]) -> (text: String)
    requires
        bytes@.len() <= isize::MAX / 4 * 3 - 3,
    ensures
        text@ == base64_standard(bytes@),
{
    base64::encode(bytes)
}

/// Calls `mime::IMAGE_PNG.to_string()`; the contract claims the essence
/// text `image/png` that the crate's source gives that constant.
#[verifier::external_body]
fn mime_image_png() -> (text: String)
    ensures
        text@ == "image/png"@,
{
    mime::IMAGE_PNG.to_string()
}

/// Calls `mime::IMAGE_JPEG.to_string()`; the contract claims the text
/// `image/jpeg` that the crate's source gives that constant.
#[verifier::external_body]
fn mime_image_jpeg() -> (text: String)
    ensures
        text@ == "image/jpeg"@,
{
    mime::IMAGE_JPEG.to_string()
}

/// Calls `mime::IMAGE_SVG.to_string()`; the contract claims the text
/// `image/svg+xml` that the crate's source gives that constant.
#[verifier::external_body]
fn mime_image_svg() -> (text: String)
    ensures
        text@ == "image/svg+xml"@,
{
    mime::IMAGE_SVG.to_string()
}

/// The last of the `.`-separated parts of a name: what follows its last
/// `.`, or the whole name where it has none.
pub open spec fn last_dot_segment(s: Seq<char>) -> Seq<char>
    decreases s.len(),
{
    if s.len() == 0 {
        s
    } else if s.last() == '.' {
        seq![]
    } else {
        last_dot_segment(s.drop_last()).push(s.last())
    }
}

/// The image type of a file extension; empty for an extension that is not
/// one of the image types shown inline.
pub open spec fn image_mime(ext: Seq<char>) -> Seq<char> {
    if ext == "png"@ {
        "image/png"@
    } else if ext == "jpg"@ || ext == "jpeg"@ {
        "image/jpeg"@
    } else if ext == "svg"@ {
        "image/svg+xml"@
    } else {
        seq![]
    }
}

/// The inline thumbnail of a file: a `data:` URL that holds the bytes in
/// base64, for a non-empty file whose name ends in an image extension;
/// the empty text otherwise.
pub open spec fn thumbnail_data_url(bytes: Seq<u8>, filename: Seq<char>) -> Seq<char> {
    let mime = image_mime(last_dot_segment(filename));
    if mime.len() == 0 || bytes.len() == 0 {
        seq![]
    } else {
        "data:"@ + mime + ";base64,"@ + base64_standard(bytes)
    }
}

proof fn lemma_last_dot_segment(s: Seq<char>, k: int)
    requires
        -1 <= k < s.len(),
        k >= 0 ==> s[k] == '.',
        forall|j: int| k < j < s.len() ==> s[j] != '.',
    ensures
        last_dot_segment(s) == s.subrange(k + 1, s.len() as int),
    decreases s.len(),
{
    if s.len() == k + 1 {
        assert(s.subrange(k + 1, s.len() as int) =~= Seq::<char>::empty());
        if k == -1 {
            assert(s =~= Seq::<char>::empty());
        }
    } else {
        lemma_last_dot_segment(s.drop_last(), k);
        assert(s.drop_last().subrange(k + 1, s.len() - 1).push(s.last()) =~= s.subrange(
            k + 1,
            s.len() as int,
        ));
    }
}

/// The extension of a file name as the thumbnail logic reads it: the last
/// part of the name split at `.`.
pub fn file_extension(filename: &str) -> (ext: String)
    ensures
        ext@ == last_dot_segment(filename@),
{
    let n = filename.unicode_len();
    let mut i: usize = n;
    while i > 0 && filename.get_char(i - 1) != '.'
        invariant
            n == filename@.len(),
            i <= n,
            forall|j: int| i <= j < n ==> filename@[j] != '.',
        decreases i,
    {
        i = i - 1;
    }
    proof {
        lemma_last_dot_segment(filename@, i - 1);
    }
    String::from_str(filename.substring_char(i, n))
}

/// The image type that a thumbnail is made for, from the extension of the
/// file name; the empty text where the extension is none of `png`, `jpg`,
/// `jpeg`, `svg`.
pub fn image_mime_for_filename(filename: &str) -> (mime: String)
    ensures
        mime@ == image_mime(last_dot_segment(filename@)),
{
    let ext = file_extension(filename);
    if ext == String::from_str("png") {
        mime_image_png()
    } else if ext == String::from_str("jpg") || ext == String::from_str("jpeg") {
        mime_image_jpeg()
    } else if ext == String::from_str("svg") {
        mime_image_svg()
    } else {
        String::new()
    }
}

/// The thumbnail of a file that was read whole into `file`: a `data:` URL of
/// the image type of `filename` with the bytes in base64, or the empty text
/// where the name has no image extension or the file is empty.
pub fn get_file_thumbnail_if_is_image(file: &[u8], filename: &str) -> (thumbnail: String)
    requires
        file@.len() <= isize::MAX / 4 * 3 - 3,
    ensures
        thumbnail@ == thumbnail_data_url(file@, filename@),
{
    let mime = image_mime_for_filename(filename);
    if mime.as_str().is_empty() {
        return String::new();
    }
    if file.len() == 0 {
        return String::new();
    }
    let prefix = String::from_str("data:").concat(mime.as_str()).concat(";base64,");
    let encoded = base64_encode(file);
    prefix.concat(encoded.as_str())
}

/// A file gets a thumbnail exactly when it is not empty and its name ends
/// in an image extension, and every thumbnail is a `data:` URL.
pub proof fn lemma_thumbnail_exists_iff(bytes: Seq<u8>, filename: Seq<char>)
    ensures
        (thumbnail_data_url(bytes, filename).len() > 0) <==> (bytes.len() > 0 && image_mime(
            last_dot_segment(filename),
        ).len() > 0),
        thumbnail_data_url(bytes, filename).len() > 0 ==> thumbnail_data_url(bytes, filename).take(
            5,
        ) == "data:"@,
{
    reveal_strlit("data:");
    let mime = image_mime(last_dot_segment(filename));
    if mime.len() > 0 && bytes.len() > 0 {
        let url = "data:"@ + mime + ";base64,"@ + base64_standard(bytes);
        assert(url.take(5) =~= "data:"@);
    }
}

/// The six-bit value of a symbol of the standard base64 alphabet.
pub open spec fn base64_value(c: char) -> int {
    let n = c as int;
    if 65 <= n <= 90 {
        n - 65
    } else if 97 <= n <= 122 {
        n - 71
    } else if 48 <= n <= 57 {
        n + 4
    } else if c == '+' {
        62
    } else {
        63
    }
}

/// Standard base64 decoding: every group of four symbols gives three
/// bytes, or fewer where the group is padded with `=`.
pub open spec fn base64_decoded(s: Seq<char>) -> Seq<u8>
    decreases s.len(),
{
    if s.len() < 4 {
        seq![]
    } else {
        let a = base64_value(s[0]);
        let b = base64_value(s[1]);
        let c = base64_value(s[2]);
        let d = base64_value(s[3]);
        let x = (a * 4 + b / 16) as u8;
        let y = ((b % 16) * 16 + c / 4) as u8;
        let z = ((c % 4) * 64 + d) as u8;
        if s[2] == '=' {
            seq![x]
        } else if s[3] == '=' {
            seq![x, y]
        } else {
            seq![x, y, z] + base64_decoded(s.skip(4))
        }
    }
}

proof fn lemma_symbol_value(v: int)
    requires
        0 <= v < 64,
    ensures
        base64_value(base64_symbol(v)) == v,
        base64_symbol(v) != '=',
{
}

/// Decoding the base64 text of a byte sequence gives the bytes back.
pub proof fn lemma_base64_round_trip(b: Seq<u8>)
    ensures
        base64_decoded(base64_standard(b)) == b,
    decreases b.len(),
{
    if b.len() > 0 {
        let x = b[0] as int;
        let y = if b.len() > 1 { b[1] as int } else { 0 };
        let z = if b.len() > 2 { b[2] as int } else { 0 };
        let v0 = x / 4;
        let v1 = (x % 4) * 16 + y / 16;
        let v2 = (y % 16) * 4 + z / 64;
        let v3 = z % 64;
        lemma_symbol_value(v0);
        lemma_symbol_value(v1);
        lemma_symbol_value(v2);
        lemma_symbol_value(v3);
        assert(v0 * 4 + v1 / 16 == x);
        assert((v1 % 16) * 16 + v2 / 4 == y);
        assert((v2 % 4) * 64 + v3 == z);
        let s = base64_standard(b);
        if b.len() == 1 {
            assert(base64_decoded(s) =~= b);
        } else if b.len() == 2 {
            assert(base64_decoded(s) =~= b);
        } else {
            lemma_base64_round_trip(b.skip(3));
            assert(s.skip(4) =~= base64_standard(b.skip(3)));
            assert(base64_decoded(s) =~= seq![b[0], b[1], b[2]] + b.skip(3));
            assert(seq![b[0], b[1], b[2]] + b.skip(3) =~= b);
        }
    }
}

/// A thumbnail is its `data:` header followed by base64 text that decodes
/// back to exactly the file's bytes.
pub proof fn lemma_thumbnail_payload_decodes(bytes: Seq<u8>, filename: Seq<char>)
    requires
        thumbnail_data_url(bytes, filename).len() > 0,
    ensures
        ({
            let header = "data:"@ + image_mime(last_dot_segment(filename)) + ";base64,"@;
            let url = thumbnail_data_url(bytes, filename);
            &&& url.take(header.len() as int) == header
            &&& base64_decoded(url.skip(header.len() as int)) == bytes
        }),
{
    let header = "data:"@ + image_mime(last_dot_segment(filename)) + ";base64,"@;
    let url = thumbnail_data_url(bytes, filename);
    assert(url == header + base64_standard(bytes));
    assert(url.take(header.len() as int) =~= header);
    assert(url.skip(header.len() as int) =~= base64_standard(bytes));
    lemma_base64_round_trip(bytes);
}

/// The extension of a name is the part after its last `.`: it holds no `.`,
/// the name ends with it, and where it is shorter than the name a `.`
/// stands just before it (a name without `.` is its own extension).
pub proof fn lemma_last_dot_segment_meaning(s: Seq<char>)
    ensures
        !last_dot_segment(s).contains('.'),
        last_dot_segment(s).len() <= s.len(),
        last_dot_segment(s) == s.subrange(s.len() - last_dot_segment(s).len(), s.len() as int),
        last_dot_segment(s).len() < s.len() ==> s[s.len() - last_dot_segment(s).len() - 1] == '.',
    decreases s.len(),
{
    if s.len() > 0 && s.last() != '.' {
        lemma_last_dot_segment_meaning(s.drop_last());
        let r = last_dot_segment(s.drop_last());
        assert(s.drop_last().subrange(s.len() - 1 - r.len(), s.len() - 1).push(s.last()) =~= s.subrange(
            s.len() - r.len() - 1,
            s.len() as int,
        ));
        if last_dot_segment(s).contains('.') {
            let i = choose|i: int| 0 <= i < last_dot_segment(s).len() && last_dot_segment(s)[i] == '.';
            if i < r.len() {
                assert(r[i] == '.');
            }
        }
    } else if s.len() > 0 {
        assert(s.subrange(s.len() as int, s.len() as int) =~= Seq::<char>::empty());
    }
}

/// The image types shown inline: `png` is `image/png`, `jpg` and `jpeg` are
/// `image/jpeg`, `svg` is `image/svg+xml`, and any other extension has none.
pub proof fn lemma_image_mime_meaning(ext: Seq<char>)
    ensures
        ext == "png"@ ==> image_mime(ext) == "image/png"@,
        ext == "jpg"@ ==> image_mime(ext) == "image/jpeg"@,
        ext == "jpeg"@ ==> image_mime(ext) == "image/jpeg"@,
        ext == "svg"@ ==> image_mime(ext) == "image/svg+xml"@,
        (ext != "png"@ && ext != "jpg"@ && ext != "jpeg"@ && ext != "svg"@) ==> image_mime(ext).len() == 0,
{
    reveal_strlit("png");
    reveal_strlit("jpg");
    reveal_strlit("jpeg");
    assert("jpg"@[0] != "png"@[0]);
    assert("jpeg"@.len() != "png"@.len());
    reveal_strlit("svg");
    assert("svg"@[0] != "png"@[0]);
    assert("svg"@[0] != "jpg"@[0]);
    assert("svg"@.len() != "jpeg"@.len());
}

/// The base64 text of `n` bytes has four symbols for every started group of
/// three bytes.
pub proof fn lemma_base64_length(b: Seq<u8>)
    ensures
        base64_standard(b).len() == 4 * ((b.len() + 2) / 3),
    decreases b.len(),
{
    if b.len() > 2 {
        lemma_base64_length(b.skip(3));
    }
}

} // verus!
