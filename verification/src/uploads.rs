//! File uploads: where uploaded files are stored, how their names are made
//! safe, which form fields are files, and the storage keys and URLs they get.
use vstd::prelude::*;

use crate::ids::{is_lower_hex, random_uuid_string};
use crate::text::str_equal;

verus! {

/// Characters that never occur in a sanitized file name: the path and shell
/// separators `/ ? < > \ : * | "` and the control characters
/// `U+0000..=U+001F` and `U+0080..=U+009F`.
pub open spec fn is_unsafe_file_char(c: char) -> bool {
    ||| c == '/' || c == '?' || c == '<' || c == '>' || c == '\\' || c == ':' || c == '*' || c == '|' || c == '"'
    ||| ('\u{0}' <= c && c <= '\u{1f}')
    ||| ('\u{80}' <= c && c <= '\u{9f}')
}

/// A file name that holds none of the unsafe characters and at most 255
/// characters (it takes at most 255 bytes).
pub open spec fn is_safe_file_name(s: Seq<char>) -> bool {
    &&& s.len() <= 255
    &&& forall|i: int| 0 <= i < s.len() ==> !is_unsafe_file_char(#[trigger] s[i])
}

/// Whether `a` is `b` with some of its characters (maybe none) removed.
pub open spec fn is_subsequence(a: Seq<char>, b: Seq<char>) -> bool
    decreases b.len(),
{
    if a.len() == 0 {
        true
    } else if b.len() == 0 {
        false
    } else if a.last() == b.last() {
        is_subsequence(a.drop_last(), b.drop_last())
    } else {
        is_subsequence(a, b.drop_last())
    }
}

/// The number of bytes a character takes in UTF-8.
pub open spec fn utf8_width(c: char) -> nat {
    if (c as u32) < 0x80 {
        1
    } else if (c as u32) < 0x800 {
        2
    } else if (c as u32) < 0x10000 {
        3
    } else {
        4
    }
}

/// The number of bytes a text takes in UTF-8.
pub open spec fn utf8_len(s: Seq<char>) -> nat
    decreases s.len(),
{
    if s.len() == 0 {
        0
    } else {
        utf8_len(s.drop_last()) + utf8_width(s.last())
    }
}

/// Whether `c` is the ASCII letter `lower` in either case.
pub open spec fn ascii_letter_is(c: char, lower: char) -> bool {
    c == lower || (c as u32) + 32 == (lower as u32)
}

/// Whether `s` starts with the three ASCII letters `a b c`, in any case.
pub open spec fn starts_with_word(s: Seq<char>, a: char, b: char, c: char) -> bool {
    s.len() >= 3 && ascii_letter_is(s[0], a) && ascii_letter_is(s[1], b) && ascii_letter_is(s[2], c)
}

/// Whether the part of `s` before its first dot is `s[..k]`.
pub open spec fn stem_ends_at(s: Seq<char>, k: int) -> bool {
    s.len() == k || (s.len() > k && s[k] == '.')
}

/// Whether a name is, or may be, a device name reserved on Windows: `con`,
/// `prn`, `aux`, `nul`, or `com` or `lpt` with one digit, in any case, alone
/// or followed by a dot and anything.
pub open spec fn is_device_name(s: Seq<char>) -> bool {
    ||| stem_ends_at(s, 3) && (starts_with_word(s, 'c', 'o', 'n') || starts_with_word(s, 'p', 'r', 'n')
        || starts_with_word(s, 'a', 'u', 'x') || starts_with_word(s, 'n', 'u', 'l'))
    ||| stem_ends_at(s, 4) && (starts_with_word(s, 'c', 'o', 'm') || starts_with_word(s, 'l', 'p', 't'))
        && '0' <= s[3] && s[3] <= '9'
}

/// A name that sanitizing leaves as it is, on every platform: no unsafe
/// character, not made only of dots, at most 255 bytes, no device name and
/// no trailing dot or space.
pub open spec fn needs_no_sanitizing(s: Seq<char>) -> bool {
    &&& forall|i: int| 0 <= i < s.len() ==> !is_unsafe_file_char(#[trigger] s[i])
    &&& !(s.len() > 0 && forall|i: int| 0 <= i < s.len() ==> #[trigger] s[i] == '.')
    &&& utf8_len(s) <= 255
    &&& !is_device_name(s)
    &&& !(s.len() > 0 && (s.last() == '.' || s.last() == ' '))
}

/// Calls `sanitize_filename::sanitize`, which removes the unsafe characters,
/// blanks a name made only of dots, and cuts the name to its longest prefix
/// of at most 255 bytes; on Windows it also blanks a device name and removes
/// trailing dots and spaces. Every step only removes characters, so the
/// result is the name with some characters removed, it is a safe file name,
/// and a name that none of the steps touches comes back as it is. Which
/// characters go from other names depends on the platform the program was
/// built for, and is not stated.
#[verifier::external_body]
fn sanitize(name: &str) -> (r: String)
    ensures
        is_safe_file_name(r@),
        is_subsequence(r@, name@),
        needs_no_sanitizing(name@) ==> r@ == name@,
{
    sanitize_filename::sanitize(name)
}

/// Info for a temporary file to be uploaded: its sanitized name and its path
/// under `./tmp/`.
#[derive(Debug)]
pub struct TempFile {
    path: String,
    name: String,
}

/// The directory that uploads are stored in.
pub open spec fn upload_dir() -> Seq<char> {
    "./tmp/"@
}

impl TempFile {
    /// The file's path is its name under the upload directory, and the name
    /// is safe.
    pub open spec fn well_formed(&self) -> bool {
        &&& self.spec_path() == upload_dir() + self.spec_name()
        &&& is_safe_file_name(self.spec_name())
    }

    /// The file's name.
    pub closed spec fn spec_name(&self) -> Seq<char> {
        self.name@
    }

    /// The file's path.
    pub closed spec fn spec_path(&self) -> Seq<char> {
        self.path@
    }

    /// Info for the upload of `filename`, with the name sanitized: some
    /// characters may be removed, and a name that needs no sanitizing is
    /// kept as given.
    pub fn new(filename: &str) -> (r: TempFile)
        ensures
            r.well_formed(),
            is_subsequence(r.spec_name(), filename@),
            needs_no_sanitizing(filename@) ==> r.spec_name() == filename@,
    {
        let name = sanitize(filename);
        let path = upload_path(name.as_str());
        TempFile { path, name }
    }

    /// The name of the temporary file.
    pub fn name(&self) -> (r: &str)
        ensures
            r@ == self.spec_name(),
    {
        self.name.as_str()
    }

    /// The path of the temporary file.
    pub fn path(&self) -> (r: &str)
        ensures
            r@ == self.spec_path(),
    {
        self.path.as_str()
    }
}

/// The path an uploaded file with the given name is stored at.
pub fn upload_path(filename: &str) -> (r: String)
    ensures
        r@ == upload_dir() + filename@,
{
    let mut p = "./tmp/".to_owned();
    p.append(filename);
    p
}

/// The content types whose fields are read as text rather than saved as
/// files.
pub open spec fn is_text_mime(content_type: Seq<char>) -> bool {
    content_type == "application/octet-stream"@ || content_type == "text/plain"@
}

/// Whether a field of the given content type is read as text.
pub fn is_text_field(content_type: &str) -> (r: bool)
    ensures
        r == is_text_mime(content_type@),
{
    str_equal(content_type, "application/octet-stream") || str_equal(content_type, "text/plain")
}

/// The value of a text field: the last of its chunks that was valid UTF-8,
/// or nothing when none was. Each chunk is given as its text when it decoded.
pub open spec fn spec_text_value(chunks: Seq<Option<String>>) -> Seq<char>
    decreases chunks.len(),
{
    if chunks.len() == 0 {
        Seq::empty()
    } else {
        match chunks.last() {
            Some(s) => s@,
            None => spec_text_value(chunks.drop_last()),
        }
    }
}

/// Reads the value of a text field from its decoded chunks.
pub fn text_value(chunks: Vec<Option<String>>) -> (r: String)
    ensures
        r@ == spec_text_value(chunks@),
{
    broadcast use vstd::std_specs::vec::axiom_spec_into_iter;
    let ghost cs = chunks@;
    let mut value = String::new();
    for chunk in it: chunks.into_iter()
        invariant
            it.seq() == cs,
            value@ == spec_text_value(cs.take(it.index() as int)),
    {
        assert(cs.take((it.index() + 1) as int).drop_last() =~= cs.take(it.index() as int));
        assert(cs.take((it.index() + 1) as int).last() == chunk);
        match chunk {
            Some(s) => {
                value = s;
            },
            None => {},
        }
    }
    assert(cs.take(cs.len() as int) =~= cs);
    value
}

/// The name a file field is saved under: its own name sanitized, or a fresh
/// random id when it has none.
pub fn upload_file_name(filename: Option<&str>) -> (r: String)
    ensures
        filename is Some ==> is_safe_file_name(r@),
        filename matches Some(f) ==> is_subsequence(r@, f@),
        filename matches Some(f) ==> (needs_no_sanitizing(f@) ==> r@ == f@),
        filename is None ==> r@.len() == 36 && forall|i: int| 0 <= i < 36 ==> (#[trigger] r@[i] == '-' || is_lower_hex(r@[i])),
{
    match filename {
        Some(f) => sanitize(f),
        None => {
            let r = random_uuid_string();
            assert forall|i: int| 0 <= i < 36 implies (#[trigger] r@[i] == '-' || is_lower_hex(r@[i])) by {
                if i == 8 || i == 13 || i == 18 || i == 23 {
                } else {
                }
            }
            r
        },
    }
}

/// Whether a name holds no `/`, so that a file of that name stays in the
/// directory it is created in.
pub open spec fn stays_in_dir(name: Seq<char>) -> bool {
    forall|i: int| 0 <= i < name.len() ==> #[trigger] name[i] != '/'
}

/// Every file the upload handler saves stays in the upload directory: its
/// name holds no `/`, whether it came from the client or was made up.
pub proof fn lemma_upload_names_stay_in_dir(name: Seq<char>, from_client: bool)
    requires
        from_client ==> is_safe_file_name(name),
        !from_client ==> name.len() == 36 && forall|i: int| 0 <= i < 36 ==> (#[trigger] name[i] == '-' || is_lower_hex(name[i])),
    ensures
        stays_in_dir(name),
{
    assert forall|i: int| 0 <= i < name.len() implies #[trigger] name[i] != '/' by {
        if from_client {
            assert(!is_unsafe_file_char(name[i]));
        } else {
            assert(name[i] == '-' || is_lower_hex(name[i]));
        }
    }
}

/// What a field of an upload form is used for.
#[derive(Debug)]
pub enum FieldRole {
    /// The `meta` field, whose bytes are kept in memory.
    Meta,
    /// A file, streamed to the given temporary file.
    File(TempFile),
    /// A field that is neither, which is skipped.
    Skip,
}

/// Sorts a field of an upload form by its name and file name: the `meta`
/// field is kept, a field with a file name becomes a temporary file, any
/// other field is skipped.
pub fn classify_field(name: Option<&str>, filename: Option<&str>) -> (r: FieldRole)
    ensures
        (name matches Some(n) && n@ == "meta"@) ==> r is Meta,
        !(name matches Some(n) && n@ == "meta"@) && filename is Some ==> (r matches FieldRole::File(f) && f.well_formed()),
        !(name matches Some(n) && n@ == "meta"@) && filename is None ==> r is Skip,
{
    let is_meta = match name {
        Some(n) => str_equal(n, "meta"),
        None => false,
    };
    if is_meta {
        FieldRole::Meta
    } else {
        match filename {
            Some(f) => FieldRole::File(TempFile::new(f)),
            None => FieldRole::Skip,
        }
    }
}

/// The storage key prefix of the uploads of a namespace; it ends with `/`.
pub fn key_prefix(namespace: &str) -> (r: String)
    ensures
        r@ == "uploads/"@ + namespace@ + "/"@,
{
    let mut k = "uploads/".to_owned();
    k.append(namespace);
    k.append("/");
    k
}

/// Every key prefix ends with a `/`, so that keys made from it name a file
/// inside the namespace.
pub proof fn lemma_key_prefix_ends_with_slash(namespace: Seq<char>)
    ensures
        ("uploads/"@ + namespace + "/"@).last() == '/',
{
    reveal_strlit("/");
}

/// The storage key of a file: the prefix followed by the file's name.
pub fn object_key(key_prefix: &str, filename: &str) -> (r: String)
    ensures
        r@ == key_prefix@ + filename@,
{
    let mut k = key_prefix.to_owned();
    k.append(filename);
    k
}

/// The public URL of an object in a bucket of a region.
pub fn object_url(bucket: &str, region: &str, key: &str) -> (r: String)
    ensures
        r@ == "https://"@ + bucket@ + ".s3."@ + region@ + ".amazonaws.com/"@ + key@,
{
    let mut u = "https://".to_owned();
    u.append(bucket);
    u.append(".s3.");
    u.append(region);
    u.append(".amazonaws.com/");
    u.append(key);
    u
}

} // verus!
