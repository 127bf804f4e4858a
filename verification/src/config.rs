//! Helpers for configuration values and the keys that address them.

use crate::value::texts_of;
use std::any::Any;
use vstd::prelude::*;

verus! {

/// What a failed validation reports.
#[derive(Debug, PartialEq, Eq)]
pub struct ConfigError {
    pub message: String,
}

/// A piece of configuration that can say whether it is usable.
pub trait ConfigValidator {
    fn validate(&self) -> Result<(), ConfigError>;
}

/// A text that stands for no value: the empty text, `null`, and `0`.
pub open spec fn empty_text(text: Seq<char>) -> bool {
    text.len() == 0 || text == "null"@ || text == "0"@
}

/// Whether `text` stands for no value.
pub fn is_empty_text(text: &str) -> (empty: bool)
    ensures
        empty == empty_text(text@),
{
    text.is_empty() || crate::connect::text_eq(text, "null") || crate::connect::text_eq(text, "0")
}

/// `Any::downcast_ref` to `String`: the value itself where its type is
/// `String`, nothing for any other type. A contract cannot tell of a value
/// of any type `T` whether it is a `String`, so nothing is claimed of the
/// result.
#[verifier::external_body]
fn as_string<T: Any>(value: &T) -> (text: Option<&String>) {
    (value as &dyn Any).downcast_ref::<String>()
}

/// Whether what is known of a value's text stands for no value: a value
/// that is no `String` has no text here and is never empty.
pub fn is_empty_string(text: Option<&String>) -> (empty: bool)
    ensures
        empty == match text {
            Some(t) => empty_text(t@),
            None => false,
        },
{
    match text {
        Some(t) => is_empty_text(t.as_str()),
        None => false,
    }
}

/// Whether a configuration value stands for no value. Only a `String` can:
/// a value of any other type is never empty. Whether the value is a
/// `String` is for `Any::downcast_ref` to say; what is returned for either
/// answer is what `is_empty_string` states.
pub fn is_empty_value<T: Sized + Any + ToString>(value: T) -> (empty: bool) {
    is_empty_string(as_string(&value))
}

/// The segments of a dotted key, in order: `a.b` has the segments `a` and
/// `b`. No segment holds a dot, and the segments with a dot between each two
/// make up the key again.
pub open spec fn segments_of(key: Seq<char>) -> Seq<Seq<char>>
    decreases key.len(),
{
    if key.len() == 0 {
        seq![Seq::empty()]
    } else if key.last() == '.' {
        segments_of(key.drop_last()).push(Seq::empty())
    } else {
        let front = segments_of(key.drop_last());
        front.update(front.len() - 1, front.last().push(key.last()))
    }
}

/// Splits a dotted key into its segments. The key is walked character by
/// character, so the cost grows with the square of its length.
pub fn key_path(key: &str) -> (path: Vec<String>)
    ensures
        texts_of(path@) == segments_of(key@),
{
    let n = key.unicode_len();
    let mut path: Vec<String> = Vec::new();
    let mut start: usize = 0;
    let mut i: usize = 0;
    assert(key@.take(0) =~= Seq::<char>::empty());
    while i < n
        invariant
            n == key@.len(),
            start <= i <= n,
            texts_of(path@).push(key@.subrange(start as int, i as int)) == segments_of(
                key@.take(i as int),
            ),
        decreases n - i,
    {
        let c = key.get_char(i);
        let ghost before = key@.take(i as int);
        let ghost now = key@.take(i + 1);
        assert(now.drop_last() =~= before);
        if c == '.' {
            let segment = key.substring_char(start, i);
            path.push(segment.to_owned());
            start = i + 1;
            assert(key@.subrange(start as int, start as int) =~= Seq::<char>::empty());
        } else {
            let ghost front = segments_of(before);
            assert(key@.subrange(start as int, i + 1) =~= front.last().push(c));
        }
        i += 1;
    }
    assert(key@.take(n as int) =~= key@);
    let segment = key.substring_char(start, n);
    path.push(segment.to_owned());
    path
}

} // verus!
