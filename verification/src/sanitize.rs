//! Names that a file system accepts: every reserved character of a proposed
//! file name gives way to a hyphen.

use vstd::prelude::*;
use vstd::std_specs::iter::IteratorSpec;
use vstd::string::*;

verus! {

/// The characters that a file name may not hold: `< > : " / \ | ? *`.
pub open spec fn reserved(c: char) -> bool {
    ||| c == '<'
    ||| c == '>'
    ||| c == ':'
    ||| c == '"'
    ||| c == '/'
    ||| c == '\\'
    ||| c == '|'
    ||| c == '?'
    ||| c == '*'
}

/// What stands in the sanitized name in place of `c`.
pub open spec fn replacement(c: char) -> char {
    if reserved(c) {
        '-'
    } else {
        c
    }
}

/// The name with a hyphen in place of each reserved character, and every
/// other character where it was.
pub open spec fn sanitized(name: Seq<char>) -> Seq<char> {
    name.map_values(|c: char| replacement(c))
}

/// Whether some character of the name is reserved.
pub open spec fn holds_reserved(name: Seq<char>) -> bool {
    exists|i: int| 0 <= i < name.len() && reserved(#[trigger] name[i])
}

/// Whether a file name may not hold `c`.
pub fn is_reserved(c: char) -> (r: bool)
    ensures
        r == reserved(c),
{
    c == '<' || c == '>' || c == ':' || c == '"' || c == '/' || c == '\\' || c == '|' || c == '?'
        || c == '*'
}

/// Whether the name holds a reserved character, that is, whether sanitizing
/// changes it.
pub fn needs_sanitizing(name: &str) -> (r: bool)
    ensures
        r == holds_reserved(name@),
{
    let mut rest = name.chars();
    let ghost mut seen: int = 0;
    loop
        invariant
            0 <= seen <= name@.len(),
            rest.remaining() == name@.skip(seen),
            forall|i: int| 0 <= i < seen ==> !reserved(#[trigger] name@[i]),
        decreases name@.len() - seen,
    {
        match rest.next() {
            Some(c) => {
                if is_reserved(c) {
                    assert(reserved(name@[seen]));
                    return true;
                }
                proof {
                    seen = seen + 1;
                }
            },
            None => {
                return false;
            },
        }
    }
}

/// Replaces every reserved character of `name` with a hyphen.
pub fn sanitize(name: &str) -> (clean: String)
    ensures
        clean@ == sanitized(name@),
{
    let mut clean = String::new();
    let mut rest = name.chars();
    let ghost mut seen: int = 0;
    loop
        invariant
            0 <= seen <= name@.len(),
            rest.remaining() == name@.skip(seen),
            clean@ == sanitized(name@.take(seen)),
        ensures
            seen == name@.len(),
        decreases name@.len() - seen,
    {
        match rest.next() {
            Some(c) => {
                clean.push(if is_reserved(c) { '-' } else { c });
                proof {
                    assert(name@.take(seen + 1) == name@.take(seen).push(c));
                    seen = seen + 1;
                }
            },
            None => {
                break;
            },
        }
    }
    assert(name@.take(seen) == name@);
    clean
}

/// Sanitizing keeps the length and the order: each character stays at its
/// place, reserved ones as a hyphen and the others as they are.
pub proof fn law_sanitized_in_place(name: Seq<char>)
    ensures
        sanitized(name).len() == name.len(),
        forall|i: int|
            0 <= i < name.len() ==> #[trigger] sanitized(name)[i] == replacement(name[i]),
{
}

/// A sanitized name holds no reserved character.
pub proof fn law_sanitized_is_clean(name: Seq<char>)
    ensures
        !holds_reserved(sanitized(name)),
{
}

/// Sanitizing a sanitized name changes nothing.
pub proof fn law_sanitize_idempotent(name: Seq<char>)
    ensures
        sanitized(sanitized(name)) == sanitized(name),
{
    assert(sanitized(sanitized(name)) =~= sanitized(name));
}

/// A name changes exactly when it holds a reserved character: one that holds
/// none comes back as it is.
pub proof fn law_clean_name_unchanged(name: Seq<char>)
    ensures
        sanitized(name) == name <==> !holds_reserved(name),
{
    if !holds_reserved(name) {
        assert(sanitized(name) =~= name);
    } else {
        let i = choose|i: int| 0 <= i < name.len() && reserved(#[trigger] name[i]);
        assert(sanitized(name)[i] == '-');
    }
}

/// The sanitized form of two names written one after the other is their
/// sanitized forms written one after the other.
pub proof fn law_sanitized_concatenation(head: Seq<char>, tail: Seq<char>)
    ensures
        sanitized(head + tail) == sanitized(head) + sanitized(tail),
{
    assert(sanitized(head + tail) =~= sanitized(head) + sanitized(tail));
}

} // verus!
