//! The session protocol's wire vocabulary: the mode keywords, the heartbeat,
//! and the `name<|>size` file-metadata message.

use vstd::prelude::*;
use crate::text::{contains, decimal_i64, occurs_at, parse_i64, split_once_str, trim_str, trimmed};

verus! {

/// Period of the heartbeat, in milliseconds.
pub const HEARTBEAT_PERIOD_MS: u64 = 1000;

/// TCP port the session listener binds.
pub const SESSION_PORT: u16 = 15446;

/// `text`: selects text mode.
pub open spec fn text_keyword() -> Seq<char> {
    seq!['t', 'e', 'x', 't']
}

/// `file`: selects file mode.
pub open spec fn file_keyword() -> Seq<char> {
    seq!['f', 'i', 'l', 'e']
}

/// `tick`: the heartbeat message.
pub open spec fn heartbeat_text() -> Seq<char> {
    seq!['t', 'i', 'c', 'k']
}

/// `<|>`: the separator between a file's name and its declared size.
pub open spec fn field_delim() -> Seq<char> {
    seq!['<', '|', '>']
}

/// `s` is `name`, the separator, then `size`, and neither field holds the
/// separator: the message splits into exactly these two fields.
pub open spec fn is_field_split(s: Seq<char>, name: Seq<char>, size: Seq<char>) -> bool {
    &&& s == name + field_delim() + size
    &&& !contains(name, field_delim())
    &&& !contains(size, field_delim())
}

/// The name and declared size that a file-metadata message carries: `None`
/// unless it splits into exactly two fields and the second, without its
/// surrounding white space, is a base-10 signed 64-bit integer.
pub open spec fn file_meta(s: Seq<char>) -> Option<(Seq<char>, i64)> {
    if exists|name: Seq<char>, size: Seq<char>| is_field_split(s, name, size) {
        let (name, size) = choose|name: Seq<char>, size: Seq<char>| is_field_split(s, name, size);
        match decimal_i64(trimmed(size)) {
            Some(n) => Some((name, n)),
            None => None,
        }
    } else {
        None
    }
}

proof fn lemma_shorter_head_is_shorter(s: Seq<char>, a1: Seq<char>, b1: Seq<char>, a2: Seq<char>, b2: Seq<char>)
    requires
        s == a1 + field_delim() + b1,
        s == a2 + field_delim() + b2,
        a1.len() < a2.len(),
    ensures
        contains(a2, field_delim()),
{
    let d = field_delim();
    let i = a1.len() as int;
    assert(s[i] == '<' && s[i + 1] == '|' && s[i + 2] == '>');
    if a2.len() < i + 3 {
        assert(s[a2.len() as int] == '<');
        assert(false);
    } else {
        assert(a2.subrange(i, i + 3) =~= d);
        assert(occurs_at(a2, d, i));
    }
}

/// A text splits at the separator in at most one way whose first field holds
/// no separator.
proof fn lemma_head_unique(s: Seq<char>, a1: Seq<char>, b1: Seq<char>, a2: Seq<char>, b2: Seq<char>)
    requires
        s == a1 + field_delim() + b1,
        s == a2 + field_delim() + b2,
        !contains(a1, field_delim()),
        !contains(a2, field_delim()),
    ensures
        a1 == a2,
        b1 == b2,
{
    if a1.len() < a2.len() {
        lemma_shorter_head_is_shorter(s, a1, b1, a2, b2);
    } else if a2.len() < a1.len() {
        lemma_shorter_head_is_shorter(s, a2, b2, a1, b1);
    }
    assert(a1 =~= s.subrange(0, a1.len() as int));
    assert(a2 =~= s.subrange(0, a2.len() as int));
    assert(b1 =~= s.subrange(a1.len() + 3int, s.len() as int));
    assert(b2 =~= s.subrange(a2.len() + 3int, s.len() as int));
}

/// Reads a file-metadata message: the file's name and declared size, or
/// `None` when the message is not one.
pub fn parse_file_meta(msg: &str) -> (r: Option<(String, i64)>)
    ensures
        r is None <==> file_meta(msg@) is None,
        r matches Some((name, size)) ==> file_meta(msg@) == Some((name@, size)),
{
    proof {
        reveal_strlit("<|>");
        assert("<|>"@ =~= field_delim());
    }
    match split_once_str(msg, "<|>") {
        None => {
            proof {
                if exists|name: Seq<char>, size: Seq<char>| is_field_split(msg@, name, size) {
                    let (name, size) = choose|name: Seq<char>, size: Seq<char>|
                        is_field_split(msg@, name, size);
                    assert(msg@.subrange(name.len() as int, name.len() + 3int) =~= field_delim());
                    assert(occurs_at(msg@, field_delim(), name.len() as int));
                }
            }
            None
        },
        Some((name, rest)) => {
            match split_once_str(rest, "<|>") {
                Some(_) => {
                    proof {
                        if exists|n: Seq<char>, z: Seq<char>| is_field_split(msg@, n, z) {
                            let (n, z) = choose|n: Seq<char>, z: Seq<char>| is_field_split(msg@, n, z);
                            lemma_head_unique(msg@, name@, rest@, n, z);
                        }
                    }
                    None
                },
                None => {
                    proof {
                        assert(is_field_split(msg@, name@, rest@));
                        let (n, z) = choose|n: Seq<char>, z: Seq<char>| is_field_split(msg@, n, z);
                        lemma_head_unique(msg@, name@, rest@, n, z);
                    }
                    match parse_i64(trim_str(rest)) {
                        Some(size) => Some((name.to_owned(), size)),
                        None => None,
                    }
                },
            }
        },
    }
}

} // verus!
