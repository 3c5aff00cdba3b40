//! Paths as text: the extension of a source file, the name of the file a
//! clip is written to, and where that file lies.

use crate::sanitize::{holds_reserved, needs_sanitizing, sanitize, sanitized};
use vstd::prelude::*;
use vstd::std_specs::iter::IteratorSpec;
use vstd::string::*;

verus! {

/// The characters that set the components of a path apart.
pub open spec fn is_separator(c: char) -> bool {
    c == '/' || c == '\\'
}

/// Where the last component of a path starts: just after its last
/// separator, or at the front where it has none.
pub open spec fn name_start(path: Seq<char>) -> int
    decreases path.len(),
{
    if path.len() == 0 {
        0
    } else if is_separator(path.last()) {
        path.len() as int
    } else {
        name_start(path.drop_last())
    }
}

/// The last component of a path: what follows its last separator.
pub open spec fn file_name(path: Seq<char>) -> Seq<char> {
    path.skip(name_start(path))
}

/// Where the last `.` of a name stands; `-1` where the name has none.
pub open spec fn last_dot(name: Seq<char>) -> int
    decreases name.len(),
{
    if name.len() == 0 {
        -1
    } else if name.last() == '.' {
        name.len() - 1
    } else {
        last_dot(name.drop_last())
    }
}

/// The component `..`, which names the directory above and no file.
pub open spec fn parent() -> Seq<char> {
    seq!['.', '.']
}

/// The extension of a path: what follows the last `.` of its last
/// component. A component without a `.`, or whose only `.` is its first
/// character, has none, and neither has the component `..`.
pub open spec fn extension_of(path: Seq<char>) -> Option<Seq<char>> {
    let name = file_name(path);
    if last_dot(name) > 0 && name != parent() {
        Some(name.skip(last_dot(name) + 1))
    } else {
        None
    }
}

/// The name that a clip's label and source propose for its output: the
/// label, a `.` and the source's extension. A source without extension
/// proposes none.
pub open spec fn proposed_name_of(label: Seq<char>, source: Seq<char>) -> Option<Seq<char>> {
    match extension_of(source) {
        Some(extension) => Some(label.push('.') + extension),
        None => None,
    }
}

/// The name of the file a clip is written to: the proposed name, sanitized.
pub open spec fn output_name_of(label: Seq<char>, source: Seq<char>) -> Option<Seq<char>> {
    match proposed_name_of(label, source) {
        Some(name) => Some(sanitized(name)),
        None => None,
    }
}

/// Whether a clip's output is named otherwise than proposed, a reserved
/// character having given way to a hyphen.
pub open spec fn renamed(label: Seq<char>, source: Seq<char>) -> bool {
    match proposed_name_of(label, source) {
        Some(name) => holds_reserved(name),
        None => false,
    }
}

/// A file name under a directory: the two set apart by `/`, unless the
/// directory is empty or ends in a separator already.
pub open spec fn joined(directory: Seq<char>, name: Seq<char>) -> Seq<char> {
    if directory.len() == 0 || is_separator(directory.last()) {
        directory + name
    } else {
        directory.push('/') + name
    }
}

/// Where a clip is written to: its output name under the output directory.
pub open spec fn destination_of(
    directory: Seq<char>,
    label: Seq<char>,
    source: Seq<char>,
) -> Option<Seq<char>> {
    match output_name_of(label, source) {
        Some(name) => Some(joined(directory, name)),
        None => None,
    }
}

proof fn lemma_name_start_bounds(path: Seq<char>)
    ensures
        0 <= name_start(path) <= path.len(),
    decreases path.len(),
{
    if path.len() > 0 && !is_separator(path.last()) {
        lemma_name_start_bounds(path.drop_last());
    }
}

proof fn lemma_last_dot_bounds(name: Seq<char>)
    ensures
        -1 <= last_dot(name) < name.len(),
        last_dot(name) >= 0 ==> name[last_dot(name)] == '.',
    decreases name.len(),
{
    if name.len() > 0 && name.last() != '.' {
        lemma_last_dot_bounds(name.drop_last());
    }
}

/// How the last component grows when one character is added to a path.
proof fn lemma_file_name_push(path: Seq<char>, c: char)
    ensures
        is_separator(c) ==> file_name(path.push(c)) == Seq::<char>::empty(),
        !is_separator(c) ==> file_name(path.push(c)) == file_name(path).push(c),
        !is_separator(c) ==> name_start(path.push(c)) == name_start(path),
        is_separator(c) ==> name_start(path.push(c)) == path.len() + 1,
{
    let longer = path.push(c);
    assert(longer.drop_last() == path);
    lemma_name_start_bounds(path);
    if is_separator(c) {
        assert(file_name(longer) =~= Seq::<char>::empty());
    } else {
        assert(file_name(longer) =~= file_name(path).push(c));
    }
}

/// The extension of `path`, where it has one.
pub fn extension(path: &str) -> (found: Option<String>)
    ensures
        match found {
            Some(text) => extension_of(path@) == Some(text@),
            None => extension_of(path@) is None,
        },
{
    let mut rest = path.chars();
    let mut seen: usize = 0;
    let mut start: usize = 0;
    let mut dot: Option<usize> = None;
    let total = path.unicode_len();
    loop
        invariant
            0 <= seen <= path@.len(),
            total == path@.len(),
            rest.remaining() == path@.skip(seen as int),
            start == name_start(path@.take(seen as int)),
            start <= seen,
            match dot {
                Some(at) => start <= at < seen && last_dot(file_name(path@.take(seen as int))) == at
                    - start,
                None => last_dot(file_name(path@.take(seen as int))) == -1,
            },
        ensures
            seen == path@.len(),
        decreases path@.len() - seen,
    {
        match rest.next() {
            Some(c) => {
                proof {
                    let before = path@.take(seen as int);
                    assert(path@.take(seen + 1) == before.push(c));
                    lemma_file_name_push(before, c);
                    lemma_name_start_bounds(before);
                    assert(file_name(before).push(c).drop_last() == file_name(before));
                    assert(file_name(before).len() == seen - start);
                }
                seen = seen + 1;
                if c == '/' || c == '\\' {
                    start = seen;
                    dot = None;
                } else if c == '.' {
                    dot = Some(seen - 1);
                }
            },
            None => {
                break;
            },
        }
    }
    proof {
        assert(path@.take(seen as int) == path@);
        lemma_last_dot_bounds(file_name(path@));
    }
    match dot {
        Some(at) => {
            if at > start && !(total - start == 2 && path.get_char(start) == '.') {
                let text = path.substring_char(at + 1, total);
                assert(text@ =~= file_name(path@).skip(at - start + 1));
                assert(file_name(path@) != parent()) by {
                    if file_name(path@).len() == 2 {
                        assert(file_name(path@)[0] == path@[start as int]);
                    }
                }
                Some(String::from_str(text))
            } else {
                assert(at > start ==> file_name(path@) =~= parent()) by {
                    if at > start {
                        assert(file_name(path@)[0] == path@[start as int]);
                        assert(file_name(path@)[1] == '.');
                    }
                }
                None
            }
        },
        None => None,
    }
}

/// The name that this label and source propose for a clip's output, where
/// the source has an extension.
pub fn proposed_name(label: &str, source: &str) -> (name: Option<String>)
    ensures
        match name {
            Some(text) => proposed_name_of(label@, source@) == Some(text@),
            None => proposed_name_of(label@, source@) is None,
        },
{
    match extension(source) {
        Some(found) => {
            let mut name = String::from_str(label);
            name.push('.');
            Some(name.concat(found.as_str()))
        },
        None => None,
    }
}

/// The name of the file that a clip with this label and source is written
/// to, where the source has an extension.
pub fn output_name(label: &str, source: &str) -> (name: Option<String>)
    ensures
        match name {
            Some(text) => output_name_of(label@, source@) == Some(text@),
            None => output_name_of(label@, source@) is None,
        },
{
    match proposed_name(label, source) {
        Some(name) => Some(sanitize(name.as_str())),
        None => None,
    }
}

/// Whether the output of a clip with this label and source is named
/// otherwise than proposed.
pub fn is_renamed(label: &str, source: &str) -> (changed: bool)
    ensures
        changed == renamed(label@, source@),
{
    match proposed_name(label, source) {
        Some(name) => needs_sanitizing(name.as_str()),
        None => false,
    }
}

/// The path of `name` under `directory`.
pub fn join(directory: &str, name: &str) -> (path: String)
    ensures
        path@ == joined(directory@, name@),
{
    let length = directory.unicode_len();
    if length == 0 {
        String::from_str(directory).concat(name)
    } else {
        let last = directory.get_char(length - 1);
        let mut path = String::from_str(directory);
        if !(last == '/' || last == '\\') {
            path.push('/');
        }
        path.concat(name)
    }
}

/// Where the clip with this label and source is written to under
/// `directory`, where the source has an extension.
pub fn destination(directory: &str, label: &str, source: &str) -> (path: Option<String>)
    ensures
        match path {
            Some(text) => destination_of(directory@, label@, source@) == Some(text@),
            None => destination_of(directory@, label@, source@) is None,
        },
{
    match output_name(label, source) {
        Some(name) => Some(join(directory, name.as_str())),
        None => None,
    }
}

/// The last component of a path holds no separator.
pub proof fn law_file_name_plain(path: Seq<char>)
    ensures
        forall|i: int|
            0 <= i < file_name(path).len() ==> !is_separator(#[trigger] file_name(path)[i]),
    decreases path.len(),
{
    if path.len() > 0 {
        let shorter = path.drop_last();
        assert(path == shorter.push(path.last()));
        lemma_file_name_push(shorter, path.last());
        law_file_name_plain(shorter);
    }
}

/// No `.` follows the last `.` of a name.
proof fn lemma_last_dot_is_last(name: Seq<char>)
    ensures
        forall|i: int| 0 <= i < name.len() && last_dot(name) < i ==> #[trigger] name[i] != '.',
    decreases name.len(),
{
    if name.len() > 0 && name.last() != '.' {
        let shorter = name.drop_last();
        lemma_last_dot_is_last(shorter);
        assert forall|i: int| 0 <= i < name.len() && last_dot(name) < i implies #[trigger] name[i]
            != '.' by {
            if i < shorter.len() {
                assert(name[i] == shorter[i]);
            }
        }
    }
}

/// An extension holds neither a `.` nor a separator.
pub proof fn law_extension_plain(path: Seq<char>)
    ensures
        extension_of(path) matches Some(extension) ==> forall|i: int|
            0 <= i < extension.len() ==> #[trigger] extension[i] != '.' && !is_separator(
                extension[i],
            ),
{
    let name = file_name(path);
    law_file_name_plain(path);
    lemma_last_dot_bounds(name);
    lemma_last_dot_is_last(name);
    if extension_of(path) is Some {
        let extension = extension_of(path)->0;
        assert forall|i: int| 0 <= i < extension.len() implies #[trigger] extension[i] != '.'
            && !is_separator(extension[i]) by {
            assert(extension[i] == name[last_dot(name) + 1 + i]);
        }
    }
}

/// The name of a clip's output holds no reserved character, and so no
/// separator: the output lies in the output directory itself.
pub proof fn law_output_name_clean(label: Seq<char>, source: Seq<char>)
    ensures
        output_name_of(label, source) matches Some(name) ==> !holds_reserved(name) && forall|
            i: int,
        |
            0 <= i < name.len() ==> !is_separator(#[trigger] name[i]),
{
    if output_name_of(label, source) is Some {
        let name = output_name_of(label, source)->0;
        crate::sanitize::law_sanitized_is_clean(proposed_name_of(label, source)->0);
        assert forall|i: int| 0 <= i < name.len() implies !is_separator(#[trigger] name[i]) by {
            assert(!crate::sanitize::reserved(name[i]));
        }
    }
}

/// Characters that are no separators, added to a path, lengthen its last
/// component.
proof fn lemma_file_name_extended(path: Seq<char>, more: Seq<char>)
    requires
        forall|i: int| 0 <= i < more.len() ==> !is_separator(#[trigger] more[i]),
    ensures
        file_name(path + more) == file_name(path) + more,
        name_start(path + more) == name_start(path),
    decreases more.len(),
{
    lemma_name_start_bounds(path);
    if more.len() == 0 {
        assert(path + more == path);
        assert(file_name(path) + more == file_name(path));
    } else {
        let fewer = more.drop_last();
        lemma_file_name_extended(path, fewer);
        assert(path + more == (path + fewer).push(more.last()));
        lemma_file_name_push(path + fewer, more.last());
        assert(file_name(path) + more == (file_name(path) + fewer).push(more.last()));
    }
}

/// The last component of a joined path is the name that was joined, where
/// the name holds no separator.
pub proof fn law_joined_file_name(directory: Seq<char>, name: Seq<char>)
    requires
        forall|i: int| 0 <= i < name.len() ==> !is_separator(#[trigger] name[i]),
    ensures
        file_name(joined(directory, name)) == name,
{
    let front = if directory.len() == 0 || is_separator(directory.last()) {
        directory
    } else {
        directory.push('/')
    };
    lemma_file_name_extended(front, name);
    assert(file_name(front) == Seq::<char>::empty()) by {
        if front.len() > 0 {
            assert(file_name(front) =~= Seq::<char>::empty());
        }
    }
    assert(Seq::<char>::empty() + name == name);
}

/// Where the last `.` of two names written one after the other stands, the
/// second holding none.
proof fn lemma_last_dot_extended(name: Seq<char>, more: Seq<char>)
    requires
        forall|i: int| 0 <= i < more.len() ==> #[trigger] more[i] != '.',
    ensures
        last_dot(name + more) == last_dot(name),
    decreases more.len(),
{
    if more.len() == 0 {
        assert(name + more == name);
    } else {
        let fewer = more.drop_last();
        lemma_last_dot_extended(name, fewer);
        assert((name + more).drop_last() == name + fewer);
    }
}

/// A clip's output keeps the extension of its source, sanitized, provided
/// that the clip's label is not empty and that the output is not named
/// `..`, as it is for the label `.` and a source that ends in a `.`.
pub proof fn law_destination_keeps_extension(
    directory: Seq<char>,
    label: Seq<char>,
    source: Seq<char>,
)
    requires
        label.len() > 0,
        extension_of(source) is Some,
        output_name_of(label, source) != Some(parent()),
    ensures
        destination_of(directory, label, source) is Some,
        extension_of(destination_of(directory, label, source)->0) == Some(
            sanitized(extension_of(source)->0),
        ),
{
    let extension = extension_of(source)->0;
    let name = output_name_of(label, source)->0;
    let stem = sanitized(label).push('.');
    let clean = sanitized(extension);
    law_extension_plain(source);
    law_output_name_clean(label, source);
    law_joined_file_name(directory, name);
    assert(name == stem + clean);
    assert forall|i: int| 0 <= i < clean.len() implies #[trigger] clean[i] != '.' by {
        assert(extension[i] != '.');
    }
    lemma_last_dot_extended(stem, clean);
    assert(last_dot(stem) == label.len());
    assert(name.skip(label.len() as int + 1) == clean);
}

} // verus!
