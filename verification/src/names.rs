//! File names in the two flat asset areas, and the extension that a client
//! declares for an upload.

use crate::ids::hyphenated;
use crate::ids::lemma_hyphenated_injective;
use crate::ids::lemma_hyphenated_len;
use crate::ids::VideoId;
use vstd::prelude::*;
use vstd::string::StrSliceExecFns;
use vstd::string::StringExecFns;

verus! {

/// Where the declared extension of `name` starts: behind its last `.`, or at
/// its very start where it has none.
pub open spec fn extension_start(name: Seq<char>) -> int
    decreases name.len(),
{
    if name.len() == 0 {
        0
    } else if name.last() == '.' {
        name.len() as int
    } else {
        extension_start(name.drop_last())
    }
}

/// The extension that a client declares by naming its upload `name`: what
/// follows the last `.`, or the whole name where it has none.
pub open spec fn declared_extension(name: Seq<char>) -> Seq<char> {
    name.subrange(extension_start(name), name.len() as int)
}

/// The extension starts at `start` if no `.` follows and either nothing or
/// a `.` comes right before.
pub proof fn lemma_extension_start(name: Seq<char>, start: int)
    requires
        0 <= start <= name.len(),
        forall|k: int| start <= k < name.len() ==> name[k] != '.',
        start == 0 || name[start - 1] == '.',
    ensures
        extension_start(name) == start,
    decreases name.len(),
{
    if name.len() > 0 && name.last() != '.' {
        if start == name.len() {
            assert(name[start - 1] == '.');
        } else {
            lemma_extension_start(name.drop_last(), start);
        }
    }
}

/// The declared extension holds no `.`, and what stands before it is empty
/// or ends in one.
pub proof fn lemma_declared_extension(name: Seq<char>)
    ensures
        0 <= extension_start(name) <= name.len(),
        forall|k: int| 0 <= k < declared_extension(name).len() ==> declared_extension(name)[k] != '.',
        extension_start(name) == 0 || name[extension_start(name) - 1] == '.',
    decreases name.len(),
{
    if name.len() > 0 && name.last() != '.' {
        let shorter = name.drop_last();
        lemma_declared_extension(shorter);
        let start = extension_start(shorter);
        assert forall|k: int| 0 <= k < declared_extension(name).len() implies declared_extension(
            name,
        )[k] != '.' by {
            if start + k < shorter.len() {
                assert(declared_extension(shorter)[k] == shorter[start + k]);
            }
        }
    }
}

/// Picks the declared extension out of an upload's name.
pub fn extension_of(name: &str) -> (extension: &str)
    ensures
        extension@ == declared_extension(name@),
{
    let len = name.unicode_len();
    let mut start: usize = len;
    while start > 0 && name.get_char(start - 1) != '.'
        invariant
            start <= len,
            len == name@.len(),
            forall|k: int| start <= k < len ==> name@[k] != '.',
        decreases start,
    {
        start -= 1;
    }
    proof {
        lemma_extension_start(name@, start as int);
    }
    name.substring_char(start, len)
}

/// The name of a file that belongs to a video: the identifier's text, a
/// `.`, and an extension.
pub open spec fn file_name(id: VideoId, extension: Seq<char>) -> Seq<char> {
    hyphenated(id.raw) + seq!['.'] + extension
}

/// The name of a video's thumbnail in the thumbnail area.
pub open spec fn thumbnail_name(id: VideoId) -> Seq<char> {
    file_name(id, "webp"@)
}

/// Builds the name of a file that belongs to a video.
pub fn file_name_of(id: VideoId, extension: &str) -> (name: String)
    ensures
        name@ == file_name(id, extension@),
{
    proof {
        reveal_strlit(".");
    }
    let mut name = id.text();
    name.append(".");
    name.append(extension);
    assert(name@ =~= file_name(id, extension@));
    name
}

/// Builds the name of a video's thumbnail.
pub fn thumbnail_name_of(id: VideoId) -> (name: String)
    ensures
        name@ == thumbnail_name(id),
{
    file_name_of(id, "webp")
}

/// Distinct videos never share a file name, and neither do two extensions
/// of one video: a file name gives back the identifier and the extension
/// that it was built from.
pub proof fn theorem_file_names_differ(a: VideoId, first: Seq<char>, b: VideoId, second: Seq<char>)
    requires
        file_name(a, first) == file_name(b, second),
    ensures
        a == b,
        first == second,
{
    lemma_hyphenated_len(a.raw);
    lemma_hyphenated_len(b.raw);
    let left = file_name(a, first);
    let right = file_name(b, second);
    assert(left.subrange(0, 36) =~= hyphenated(a.raw));
    assert(right.subrange(0, 36) =~= hyphenated(b.raw));
    lemma_hyphenated_injective(a.raw, b.raw);
    assert(left.subrange(37, left.len() as int) =~= first);
    assert(right.subrange(37, right.len() as int) =~= second);
}

} // verus!
