//! Names derived from an object key: local paths, archive names and the keys
//! under which extracted members are published again.

use vstd::prelude::*;
use vstd::string::*;
use vstd::utf8::*;

verus! {

/// The text between byte offsets `from` and `to` of the UTF-8 encoding of
/// `text`, where both offsets fall between characters; `None` otherwise.
pub open spec fn byte_slice(text: Seq<char>, from: int, to: int) -> Option<Seq<char>> {
    let bytes = encode_utf8(text);
    if 0 <= from <= to && is_char_boundary(bytes, from) && is_char_boundary(bytes, to) {
        Some(decode_utf8(bytes.subrange(from, to)))
    } else {
        None
    }
}

/// A character boundary of a text is one of each prefix that reaches it.
proof fn lemma_boundary_in_prefix(bytes: Seq<u8>, from: int, to: int)
    requires
        valid_utf8(bytes),
        0 <= from <= to <= bytes.len(),
        is_char_boundary(bytes, from),
        is_char_boundary(bytes, to),
    ensures
        valid_utf8(bytes.subrange(0, to)),
        is_char_boundary(bytes.subrange(0, to), from),
{
    let head = bytes.subrange(0, to);
    valid_utf8_split(bytes, to);
    is_char_boundary_start_end_of_seq(head);
    if 0 < from < to {
        // Within a text, the boundaries are the bytes that continue no
        // character: the same bytes in the text and in its prefix.
        is_char_boundary_iff_not_is_continuation_byte(bytes, from);
        is_char_boundary_iff_not_is_continuation_byte(head, from);
    }
}

/// Cuts `text` at the byte offsets `from` and `to`.
pub fn slice_bytes(text: &str, from: usize, to: usize) -> (cut: Option<String>)
    ensures
        match cut {
            Some(part) => byte_slice(text@, from as int, to as int) == Some(part@),
            None => byte_slice(text@, from as int, to as int) is None,
        },
{
    if from <= to && text.is_char_boundary(from) && text.is_char_boundary(to) {
        proof {
            encode_utf8_valid_utf8(text@);
        }
        let (head, _) = text.split_at(to);
        proof {
            lemma_boundary_in_prefix(text.spec_bytes(), from as int, to as int);
        }
        let (_, middle) = head.split_at(from);
        proof {
            assert(middle.spec_bytes() =~= text.spec_bytes().subrange(from as int, to as int));
            encode_utf8_decode_utf8(middle@);
        }
        Some(middle.to_owned())
    } else {
        None
    }
}

/// Length in bytes of the upload prefix that an archive's key starts with.
pub const UPLOAD_PREFIX_LEN: usize = 8;

/// Length in bytes of what precedes the store identifier in a file name.
pub const STORE_PREFIX_LEN: usize = 6;

/// Length in bytes of what follows the store identifier in a file name.
pub const STORE_SUFFIX_LEN: usize = 4;

/// The name of an uploaded archive: its key without the upload prefix.
pub open spec fn archive_name_of(key: Seq<char>) -> Option<Seq<char>> {
    byte_slice(key, UPLOAD_PREFIX_LEN as int, encode_utf8(key).len() as int)
}

/// The store identifier in a file name: what stands between its fixed-length
/// prefix and its fixed-length suffix.
pub open spec fn store_identifier_of(file_name: Seq<char>) -> Option<Seq<char>> {
    byte_slice(
        file_name,
        STORE_PREFIX_LEN as int,
        encode_utf8(file_name).len() - STORE_SUFFIX_LEN,
    )
}

/// Where a fetched blob called `name` is kept while a run works on it.
pub open spec fn temp_path_of(name: Seq<char>) -> Seq<char> {
    "/tmp/"@ + name
}

/// Where the archive member `relative` is materialized.
pub open spec fn extraction_path_of(relative: Seq<char>) -> Seq<char> {
    "/tmp/extract/"@ + relative
}

/// The key prefix under which the members of `archive_name` are published.
pub open spec fn processed_prefix_of(archive_name: Seq<char>) -> Seq<char> {
    "processed/"@ + archive_name + "/"@
}

/// The key under which the archive member `relative` is published.
pub open spec fn destination_key_of(archive_name: Seq<char>, relative: Seq<char>) -> Seq<char> {
    processed_prefix_of(archive_name) + relative
}

/// Where the last name of a key ends: before the slashes, and the single
/// dots between slashes, that the key ends in.
pub open spec fn name_end(bytes: Seq<u8>) -> int
    decreases bytes.len(),
{
    if bytes.len() >= 1 && bytes.last() == '/' as u8 {
        name_end(bytes.drop_last())
    } else if bytes.len() >= 2 && bytes.last() == '.' as u8 && bytes[bytes.len() - 2] == '/' as u8 {
        name_end(bytes.take(bytes.len() - 2))
    } else {
        bytes.len() as int
    }
}

/// Where the name that ends at `end` starts: after the last slash before
/// `end`, or at the start of the key.
pub open spec fn name_start(bytes: Seq<u8>, end: int) -> int
    decreases end,
{
    if end <= 0 {
        0
    } else if bytes[end - 1] == '/' as u8 {
        end
    } else {
        name_start(bytes, end - 1)
    }
}

/// The file name of a key: its last name between slashes, where a single
/// dot between slashes counts as no name. A key has no file name where it
/// holds no name at all, or where its last name is `.` or `..`.
pub open spec fn file_name_of(key: Seq<char>) -> Option<Seq<char>> {
    let bytes = encode_utf8(key);
    let end = name_end(bytes);
    let start = name_start(bytes, end);
    let name = bytes.subrange(start, end);
    if end == 0 || name =~= seq!['.' as u8] || name =~= seq!['.' as u8, '.' as u8] {
        None
    } else {
        byte_slice(key, start, end)
    }
}

/// In a text, the byte after an ASCII byte starts a character.
proof fn lemma_boundary_after_ascii(bytes: Seq<u8>, at: int)
    requires
        valid_utf8(bytes),
        0 <= at < bytes.len(),
        bytes[at] < 0x80,
    ensures
        is_char_boundary(bytes, at + 1),
    decreases bytes.len(),
{
    reveal_with_fuel(is_char_boundary, 2);
    let first = length_of_first_scalar(bytes);
    if at >= first {
        let rest = pop_first_scalar(bytes);
        assert(rest[at - first] == bytes[at]);
        lemma_boundary_after_ascii(rest, at - first);
    }
}

/// A name ends at the end of the key or before a slash, and never after
/// one.
proof fn lemma_name_end(bytes: Seq<u8>)
    ensures
        0 <= name_end(bytes) <= bytes.len(),
        name_end(bytes) < bytes.len() ==> bytes[name_end(bytes)] == '/' as u8,
        name_end(bytes) > 0 ==> bytes[name_end(bytes) - 1] != '/' as u8,
    decreases bytes.len(),
{
    if bytes.len() >= 1 && bytes.last() == '/' as u8 {
        lemma_name_end(bytes.drop_last());
    } else if bytes.len() >= 2 && bytes.last() == '.' as u8 && bytes[bytes.len() - 2] == '/' as u8 {
        lemma_name_end(bytes.take(bytes.len() - 2));
    }
}

/// A name starts at the start of the key or after a slash, and holds no
/// slash.
proof fn lemma_name_start(bytes: Seq<u8>, end: int)
    requires
        0 <= end <= bytes.len(),
    ensures
        0 <= name_start(bytes, end) <= end,
        name_start(bytes, end) > 0 ==> bytes[name_start(bytes, end) - 1] == '/' as u8,
        forall|i: int| name_start(bytes, end) <= i < end ==> bytes[i] != '/' as u8,
    decreases end,
{
    if end > 0 && bytes[end - 1] != '/' as u8 {
        lemma_name_start(bytes, end - 1);
    }
}

/// A key has a file name exactly where it holds a name and its last name is
/// neither `.` nor `..`. The file name is then that name: it is not empty,
/// and holds no slash.
pub proof fn lemma_file_name_is_the_last_name(key: Seq<char>)
    ensures
        ({
            let bytes = encode_utf8(key);
            let end = name_end(bytes);
            let start = name_start(bytes, end);
            let name = bytes.subrange(start, end);
            &&& 0 <= start <= end <= bytes.len()
            &&& end > 0 ==> start < end
            &&& forall|i: int| 0 <= i < name.len() ==> name[i] != '/' as u8
            &&& file_name_of(key) is Some <==> end > 0 && name != seq!['.' as u8] && name != seq![
                '.' as u8,
                '.' as u8,
            ]
            &&& file_name_of(key) matches Some(found) ==> encode_utf8(found) == name
        }),
{
    let bytes = encode_utf8(key);
    let end = name_end(bytes);
    let start = name_start(bytes, end);
    encode_utf8_valid_utf8(key);
    lemma_name_end(bytes);
    lemma_name_start(bytes, end);
    is_char_boundary_start_end_of_seq(bytes);
    if start > 0 {
        lemma_boundary_after_ascii(bytes, start - 1);
    }
    if end < bytes.len() {
        is_char_boundary_iff_not_is_continuation_byte(bytes, end);
    }
    assert(byte_slice(key, start, end) is Some);
    lemma_boundary_in_prefix(bytes, start, end);
    let head = bytes.subrange(0, end);
    valid_utf8_split(head, start);
    assert(head.subrange(start, end) =~= bytes.subrange(start, end));
    decode_utf8_encode_utf8(bytes.subrange(start, end));
}

/// The file name of `key`.
pub fn file_name(key: &str) -> (name: Option<String>)
    ensures
        match name {
            Some(n) => file_name_of(key@) == Some(n@),
            None => file_name_of(key@) is None,
        },
{
    let bytes = key.as_bytes();
    let mut end: usize = bytes.len();
    proof {
        assert(bytes@.take(end as int) =~= bytes@);
    }
    loop
        invariant_except_break
            end <= bytes@.len(),
            name_end(bytes@) == name_end(bytes@.take(end as int)),
        ensures
            end <= bytes@.len(),
            name_end(bytes@) == end,
        decreases end,
    {
        let ghost head = bytes@.take(end as int);
        if end >= 1 && bytes[end - 1] == '/' as u8 {
            proof {
                assert(head.drop_last() =~= bytes@.take(end - 1));
            }
            end = end - 1;
        } else if end >= 2 && bytes[end - 1] == '.' as u8 && bytes[end - 2] == '/' as u8 {
            proof {
                assert(head.take(head.len() - 2) =~= bytes@.take(end - 2));
            }
            end = end - 2;
        } else {
            break;
        }
    }
    if end == 0 {
        return None;
    }
    let mut start: usize = end;
    while start > 0 && bytes[start - 1] != '/' as u8
        invariant
            start <= end <= bytes@.len(),
            name_start(bytes@, end as int) == name_start(bytes@, start as int),
        decreases start,
    {
        start = start - 1;
    }
    let dot = end - start == 1 && bytes[start] == '.' as u8;
    let dots = end - start == 2 && bytes[start] == '.' as u8 && bytes[start + 1] == '.' as u8;
    if dot || dots {
        None
    } else {
        slice_bytes(key, start, end)
    }
}

/// The name of the archive uploaded under `key`.
pub fn archive_name(key: &str) -> (name: Option<String>)
    ensures
        match name {
            Some(n) => archive_name_of(key@) == Some(n@),
            None => archive_name_of(key@) is None,
        },
{
    let len = key.as_bytes().len();
    slice_bytes(key, UPLOAD_PREFIX_LEN, len)
}

/// The store identifier that `file_name` carries.
pub fn store_identifier(file_name: &str) -> (store: Option<String>)
    ensures
        match store {
            Some(s) => store_identifier_of(file_name@) == Some(s@),
            None => store_identifier_of(file_name@) is None,
        },
{
    let len = file_name.as_bytes().len();
    if len < STORE_SUFFIX_LEN {
        None
    } else {
        slice_bytes(file_name, STORE_PREFIX_LEN, len - STORE_SUFFIX_LEN)
    }
}

/// The temporary path of the blob called `name`.
pub fn temp_path(name: &str) -> (path: String)
    ensures
        path@ == temp_path_of(name@),
{
    let mut path = String::from_str("/tmp/");
    path.append(name);
    path
}

/// The path under the extraction root of the archive member `relative`.
pub fn extraction_path(relative: &str) -> (path: String)
    ensures
        path@ == extraction_path_of(relative@),
{
    let mut path = String::from_str("/tmp/extract/");
    path.append(relative);
    path
}

/// The key prefix of everything published from the archive `archive_name`.
pub fn processed_prefix(archive_name: &str) -> (prefix: String)
    ensures
        prefix@ == processed_prefix_of(archive_name@),
{
    let mut prefix = String::from_str("processed/");
    prefix.append(archive_name);
    prefix.append("/");
    prefix
}

/// The key under which the member `relative` of `archive_name` is published.
pub fn destination_key(archive_name: &str, relative: &str) -> (key: String)
    ensures
        key@ == destination_key_of(archive_name@, relative@),
{
    let mut key = processed_prefix(archive_name);
    key.append(relative);
    key
}

/// Whether the name that starts at `at` is `..`: a step to the parent
/// directory.
pub open spec fn parent_step_at(bytes: Seq<u8>, at: int) -> bool {
    &&& 0 <= at && at + 2 <= bytes.len()
    &&& bytes[at] == '.' as u8 && bytes[at + 1] == '.' as u8
    &&& at == 0 || bytes[at - 1] == '/' as u8
    &&& at + 2 == bytes.len() || bytes[at + 2] == '/' as u8
}

/// Whether a relative path, given as its bytes, stays below the directory
/// it is resolved in: it is not empty, does not begin with a slash, and
/// holds neither a NUL nor a step to the parent directory.
pub open spec fn is_contained(bytes: Seq<u8>) -> bool {
    &&& bytes.len() > 0
    &&& bytes[0] != '/' as u8
    &&& forall|i: int| 0 <= i < bytes.len() ==> #[trigger] bytes[i] != 0
    &&& forall|i: int| !#[trigger] parent_step_at(bytes, i)
}

/// Whether the member path `relative` stays under the extraction root.
pub open spec fn stays_under_root(relative: Seq<char>) -> bool {
    is_contained(encode_utf8(relative))
}

/// Tests whether the member path `relative` stays under the extraction
/// root.
pub fn is_under_root(relative: &str) -> (contained: bool)
    ensures
        contained == stays_under_root(relative@),
{
    let bytes = relative.as_bytes();
    let len = bytes.len();
    if len == 0 || bytes[0] == '/' as u8 {
        return false;
    }
    let mut at: usize = 0;
    while at < len
        invariant
            at <= len == bytes@.len(),
            bytes@ == encode_utf8(relative@),
            len > 0 && bytes@[0] != '/' as u8,
            forall|i: int| 0 <= i < at ==> #[trigger] bytes@[i] != 0,
            forall|i: int| i < at ==> !#[trigger] parent_step_at(bytes@, i),
        decreases len - at,
    {
        if bytes[at] == 0 {
            return false;
        }
        let steps = len - at >= 2 && bytes[at] == '.' as u8 && bytes[at + 1] == '.' as u8 && (at
            == 0 || bytes[at - 1] == '/' as u8) && (len - at == 2 || bytes[at + 2] == '/' as u8);
        if steps {
            assert(parent_step_at(bytes@, at as int));
            return false;
        }
        at = at + 1;
    }
    true
}

/// A member's path under the extraction root is the root followed by the
/// member's relative path: without its first thirteen characters, the root
/// and the separator, it is the relative path again.
pub proof fn lemma_extraction_path_keeps_relative_path(relative: Seq<char>)
    ensures
        extraction_path_of(relative).len() == 13 + relative.len(),
        extraction_path_of(relative).take(13) == "/tmp/extract/"@,
        extraction_path_of(relative).skip(13) == relative,
{
    reveal_strlit("/tmp/extract/");
}

/// The key under which a member is published is the archive's prefix
/// followed by the member's relative path.
pub proof fn lemma_destination_key_keeps_relative_path(
    archive_name: Seq<char>,
    relative: Seq<char>,
)
    ensures
        ({
            let prefix = processed_prefix_of(archive_name);
            let key = destination_key_of(archive_name, relative);
            &&& prefix.len() == 11 + archive_name.len()
            &&& key.len() == prefix.len() + relative.len()
            &&& key.take(prefix.len() as int) == prefix
            &&& key.skip(prefix.len() as int) == relative
        }),
{
    reveal_strlit("processed/");
    reveal_strlit("/");
}

} // verus!
