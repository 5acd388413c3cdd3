use vstd::prelude::*;
use crate::error::{Error, ErrorKind};
use vstd::std_specs::iter::IteratorSpec;
use crate::grammar::{is_name_char, is_name_start_char, spec_is_name_char, spec_is_name_start_char};

verus! {

broadcast use vstd::string::group_string_axioms, vstd::string::next_postcondition;

/// The leftmost character at index `i` or later that cannot appear inside a name.
pub open spec fn first_bad_from(s: Seq<char>, i: nat) -> Option<ErrorKind>
    decreases s.len() - i,
{
    if i >= s.len() {
        None
    } else if !spec_is_name_char(s[i as int]) {
        Some(ErrorKind::Continue(s[i as int]))
    } else {
        first_bad_from(s, i + 1)
    }
}

/// The first violation of the name grammar in `s`, or `None` when `s` is a name.
pub open spec fn classify(s: Seq<char>) -> Option<ErrorKind> {
    if s.len() == 0 {
        Some(ErrorKind::Empty)
    } else if !spec_is_name_start_char(s[0]) {
        Some(ErrorKind::Start(s[0]))
    } else {
        first_bad_from(s, 1)
    }
}

/// Whether `s` is a qualified name.
pub open spec fn is_qname(s: Seq<char>) -> bool {
    classify(s) is None
}

/// No violation is found from `i` on exactly when every character there can
/// appear inside a name.
proof fn lemma_first_bad_from_none(s: Seq<char>, i: nat)
    ensures
        first_bad_from(s, i) is None <==> forall|j: int|
            i <= j < s.len() ==> spec_is_name_char(#[trigger] s[j]),
    decreases s.len() - i,
{
    if i < s.len() {
        lemma_first_bad_from_none(s, i + 1);
    }
}

/// A string is a qualified name exactly when it is non-empty, its first
/// character can start a name, and each later character can appear in one.
pub proof fn lemma_is_qname_chars(s: Seq<char>)
    ensures
        is_qname(s) <==> {
            &&& s.len() > 0
            &&& spec_is_name_start_char(s[0])
            &&& forall|j: int| 1 <= j < s.len() ==> spec_is_name_char(#[trigger] s[j])
        },
{
    lemma_first_bad_from_none(s, 1);
}

/// `error` reports exactly the violation `kind`, if any.
pub open spec fn reports(error: Option<Error>, kind: Option<ErrorKind>) -> bool {
    match kind {
        None => error is None,
        Some(k) => error is Some && error->0.spec_kind() == k,
    }
}

/// Finds the first violation of the name grammar in `input`.
pub fn first_qname_error(input: &str) -> (r: Option<Error>)
    ensures
        reports(r, classify(input@)),
{
    let ghost s = input@;
    let mut chars = input.chars();
    assert(chars.remaining() == s);
    match chars.next() {
        None => {
            return Some(Error::from_kind(ErrorKind::Empty));
        },
        Some(c) => {
            if !is_name_start_char(c) {
                return Some(Error::from_kind(ErrorKind::Start(c)));
            }
        },
    }
    let ghost mut i: nat = 1;
    loop
        invariant
            s == input@,
            1 <= i <= s.len(),
            chars.obeys_prophetic_iter_laws(),
            chars.remaining() == s.subrange(i as int, s.len() as int),
            classify(s) == first_bad_from(s, i),
        decreases s.len() - i,
    {
        match chars.next() {
            None => {
                assert(i == s.len());
                return None;
            },
            Some(c) => {
                assert(c == s[i as int]);
                if !is_name_char(c) {
                    return Some(Error::from_kind(ErrorKind::Continue(c)));
                }
                proof {
                    i = i + 1;
                }
            },
        }
    }
}

} // verus!
