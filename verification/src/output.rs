//! The file that a download writes: its name and its contents.

use vstd::prelude::*;
use vstd::std_specs::iter::IteratorSpec;
use vstd::string::*;

verus! {

/// The part of `target` behind its last `/`; all of `target` if it holds none.
///
/// The name is empty exactly when `target` is empty or ends with `/`.
pub open spec fn file_name_of(target: Seq<char>) -> Seq<char> {
    match target.index_of_last('/') {
        Some(i) => target.subrange(i + 1, target.len() as int),
        None => target,
    }
}

/// Whether `start` is where the file name of `text` begins: no `/` stands at
/// or behind it, and one stands just before it unless it is the beginning.
pub open spec fn starts_name(text: Seq<char>, start: int) -> bool {
    &&& 0 <= start <= text.len()
    &&& forall|j: int| start <= j < text.len() ==> text[j] != '/'
    &&& start > 0 ==> text[start - 1] == '/'
}

/// The file name begins at the one index that `starts_name` accepts.
pub proof fn lemma_name_start_unique(target: Seq<char>, start: int)
    requires
        starts_name(target, start),
    ensures
        file_name_of(target) == target.subrange(start, target.len() as int),
{
    target.index_of_last_ensures('/');
    match target.index_of_last('/') {
        Some(i) => {
            if start == 0 {
                assert(target[i] != '/');
            } else if i + 1 < start {
                assert(target[start - 1] == '/');
            } else if i + 1 > start {
                assert(target[i] != '/');
            }
        },
        None => {
            if start > 0 {
                assert(target.contains(target[start - 1]));
            }
            assert(target.subrange(0, target.len() as int) =~= target);
        },
    }
}

/// Returns the name under which the body fetched from `target` is saved:
/// the text behind the last `/` of the target as it was given.
pub fn file_name(target: &str) -> (name: &str)
    ensures
        name@ == file_name_of(target@),
{
    let len: usize = target.unicode_len();
    let mut start: usize = 0;
    let mut seen: usize = 0;
    let mut chars = target.chars();
    while seen < len
        invariant
            len == target@.len(),
            seen <= len,
            chars.remaining() == target@.skip(seen as int),
            starts_name(target@.take(seen as int), start as int),
        decreases len - seen,
    {
        let next = chars.next();
        seen = seen + 1;
        if next == Some('/') {
            start = seen;
        }
    }
    proof {
        assert(target@.take(seen as int) =~= target@);
        lemma_name_start_unique(target@, start as int);
    }
    target.substring_char(start, len)
}

/// For a target whose last `/` stands at `last`, the file name is what
/// stands behind that place.
pub proof fn lemma_name_follows_last_slash(target: Seq<char>, last: int)
    requires
        0 <= last < target.len(),
        target[last] == '/',
        forall|j: int| last < j < target.len() ==> target[j] != '/',
    ensures
        file_name_of(target) == target.subrange(last + 1, target.len() as int),
{
    lemma_name_start_unique(target, last + 1);
}

/// A target without any `/` is its own file name.
pub proof fn lemma_name_without_slash(target: Seq<char>)
    requires
        !target.contains('/'),
    ensures
        file_name_of(target) == target,
{
    target.index_of_last_ensures('/');
}

/// The file name holds no `/`, and it is empty exactly when the target is
/// empty or ends with `/`.
pub proof fn lemma_name_is_last_segment(target: Seq<char>)
    ensures
        !file_name_of(target).contains('/'),
        file_name_of(target).len() == 0 <==> target.len() == 0 || target.last() == '/',
{
    target.index_of_last_ensures('/');
    let name = file_name_of(target);
    match target.index_of_last('/') {
        Some(i) => {
            assert forall|k: int| 0 <= k < name.len() implies name[k] != '/' by {
                assert(name[k] == target[i + 1 + k]);
            }
        },
        None => {},
    }
}

/// The file that a finished download leaves behind.
#[derive(Debug, PartialEq, Eq)]
pub struct OutputFile {
    /// The name of the file, in the working directory.
    pub name: String,
    /// The contents of the file.
    pub data: Vec<u8>,
}

/// The mathematical value of an `OutputFile`.
pub struct FileView {
    pub name: Seq<char>,
    pub data: Seq<u8>,
}

impl View for OutputFile {
    type V = FileView;

    open spec fn view(&self) -> FileView {
        FileView { name: self.name@, data: self.data@ }
    }
}

/// The file that holds `body`, fetched from `target`.
pub open spec fn output_file_of(target: Seq<char>, body: Seq<u8>) -> FileView {
    FileView { name: file_name_of(target), data: body }
}

} // verus!
