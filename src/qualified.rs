use vstd::prelude::*;
use vstd::string::StrSliceExecFns;
use vstd::std_specs::iter::IteratorSpec;
use crate::classify::{classify, first_qname_error, is_qname, lemma_is_qname_chars};
use crate::grammar::{spec_is_name_char, spec_is_name_start_char};
use crate::error::Error;

verus! {

broadcast use vstd::string::group_string_axioms, vstd::string::next_postcondition;

/// The abstract value of a [`QName`].
pub ghost struct QNameView {
    pub namespace: Option<Seq<char>>,
    pub local_part: Seq<char>,
    pub prefixed_name: Seq<char>,
}

/// The index of the first `':'` in `s` at `i` or later.
pub open spec fn colon_from(s: Seq<char>, i: nat) -> Option<nat>
    decreases s.len() - i,
{
    if i >= s.len() {
        None
    } else if s[i as int] == ':' {
        Some(i)
    } else {
        colon_from(s, i + 1)
    }
}

/// What `colon_from` finds is the first `':'` at `i` or later.
pub proof fn lemma_colon_from(s: Seq<char>, i: nat)
    ensures
        match colon_from(s, i) {
            Some(k) => i <= k < s.len() && s[k as int] == ':' && forall|j: int|
                i <= j < k ==> s[j] != ':',
            None => forall|j: int| i <= j < s.len() ==> s[j] != ':',
        },
    decreases s.len() - i,
{
    if i < s.len() && s[i as int] != ':' {
        lemma_colon_from(s, i + 1);
    }
}

/// `s` split at its first `':'`: the text before it is the namespace, the text
/// after it the local part; without a `':'` the whole of `s` is the local part.
pub open spec fn split_name(s: Seq<char>) -> QNameView {
    match colon_from(s, 0) {
        Some(k) => QNameView {
            namespace: Some(s.subrange(0, k as int)),
            local_part: s.subrange(k as int + 1, s.len() as int),
            prefixed_name: s,
        },
        None => QNameView { namespace: None, local_part: s, prefixed_name: s },
    }
}

/// Splitting keeps the text: the prefixed name is the namespace, a `':'` and
/// the local part when there is a namespace, and the local part otherwise.
pub proof fn lemma_split_reconstructs(s: Seq<char>)
    ensures
        split_name(s).prefixed_name == s,
        match split_name(s).namespace {
            Some(ns) => s == ns + seq![':'] + split_name(s).local_part,
            None => s == split_name(s).local_part,
        },
{
    lemma_colon_from(s, 0);
    if let Some(k) = colon_from(s, 0) {
        assert(s == s.subrange(0, k as int) + seq![':'] + s.subrange(k as int + 1, s.len() as int));
    }
}

/// A non-empty string whose first character can start a name and whose other
/// characters can appear in one parses, and keeps its text as the prefixed name.
pub proof fn lemma_legal_chars_parse(s: Seq<char>)
    requires
        s.len() > 0,
        spec_is_name_start_char(s[0]),
        forall|j: int| 1 <= j < s.len() ==> spec_is_name_char(#[trigger] s[j]),
    ensures
        is_qname(s),
        split_name(s).prefixed_name == s,
{
    lemma_is_qname_chars(s);
}

/// Parsing the prefixed name of a parsed name succeeds and gives the same value.
pub proof fn lemma_reparse_prefixed_name(s: Seq<char>)
    requires
        is_qname(s),
    ensures
        is_qname(split_name(s).prefixed_name),
        split_name(split_name(s).prefixed_name) == split_name(s),
{
}

/// A validated XML qualified name, `prefix:local` or `local`.
#[derive(Debug, Clone, PartialEq, Eq, PartialOrd, Ord, Hash)]
pub struct QName {
    namespace: Option<String>,
    local_part: String,
    prefixed_name: String,
}

impl View for QName {
    type V = QNameView;

    closed spec fn view(&self) -> QNameView {
        QNameView {
            namespace: match self.namespace {
                Some(n) => Some(n@),
                None => None,
            },
            local_part: self.local_part@,
            prefixed_name: self.prefixed_name@,
        }
    }
}

/// The index of the first `':'` in `s`, counted in characters.
fn find_colon(s: &str) -> (r: Option<usize>)
    ensures
        match colon_from(s@, 0) {
            Some(k) => r == Some(k as usize),
            None => r is None,
        },
{
    let ghost t = s@;
    let n = s.unicode_len();
    let mut chars = s.chars();
    let mut i: usize = 0;
    assert(t.subrange(0, t.len() as int) == t);
    loop
        invariant
            t == s@,
            n == t.len(),
            i <= t.len(),
            chars.obeys_prophetic_iter_laws(),
            chars.remaining() == t.subrange(i as int, t.len() as int),
            colon_from(t, 0) == colon_from(t, i as nat),
        decreases t.len() - i,
    {
        match chars.next() {
            None => {
                assert(i == t.len());
                return None;
            },
            Some(c) => {
                assert(c == t[i as int]);
                if c == ':' {
                    return Some(i);
                }
                i = i + 1;
            },
        }
    }
}

impl QName {
    /// Whether this value is one that splitting a qualified name produces.
    pub open spec fn wf(&self) -> bool {
        &&& is_qname(self@.prefixed_name)
        &&& self@ == split_name(self@.prefixed_name)
    }

    /// Splits `name` at its first `':'`.
    fn split(name: &str) -> (r: QName)
        ensures
            r@ == split_name(name@),
    {
        proof {
            lemma_colon_from(name@, 0);
        }
        match find_colon(name) {
            Some(k) => {
                let n = name.unicode_len();
                let ns = name.substring_char(0, k);
                let local = name.substring_char(k + 1, n);
                QName {
                    namespace: Some(ns.to_owned()),
                    local_part: local.to_owned(),
                    prefixed_name: name.to_owned(),
                }
            },
            None => QName {
                namespace: None,
                local_part: name.to_owned(),
                prefixed_name: name.to_owned(),
            },
        }
    }

    /// Attempt to parse a string as a qualified name.
    pub fn new(name: &str) -> (r: Result<QName, Error>)
        ensures
            r is Ok <==> is_qname(name@),
            r is Ok ==> r->Ok_0@ == split_name(name@) && r->Ok_0.wf(),
            r is Err ==> Some(r->Err_0.spec_kind()) == classify(name@),
    {
        match first_qname_error(name) {
            Some(e) => Err(e),
            None => Ok(Self::split(name)),
        }
    }

    /// Create a qualified name from a string known to be one.
    pub fn new_unchecked(name: &str) -> (r: QName)
        requires
            is_qname(name@),
        ensures
            r@ == split_name(name@),
            r.wf(),
    {
        Self::split(name)
    }

    /// The text before the first `':'`, if there is one.
    pub fn namespace(&self) -> (r: Option<&str>)
        ensures
            r is Some <==> self@.namespace is Some,
            r is Some ==> r->0@ == self@.namespace->0,
    {
        match &self.namespace {
            Some(n) => Some(n.as_str()),
            None => None,
        }
    }

    /// The text after the first `':'`, or the whole name.
    pub fn local_part(&self) -> (r: &str)
        ensures
            r@ == self@.local_part,
    {
        self.local_part.as_str()
    }

    /// The whole name, as it was parsed.
    pub fn prefixed_name(&self) -> (r: &str)
        ensures
            r@ == self@.prefixed_name,
    {
        self.prefixed_name.as_str()
    }

    /// The whole name as an owned string.
    pub fn to_string(&self) -> (r: String)
        ensures
            r@ == self@.prefixed_name,
    {
        self.prefixed_name.clone()
    }
}

impl std::str::FromStr for QName {
    type Err = Error;

    fn from_str(s: &str) -> (r: Result<QName, Error>)
        ensures
            r is Ok <==> is_qname(s@),
            r is Ok ==> r->Ok_0@ == split_name(s@) && r->Ok_0.wf(),
            r is Err ==> Some(r->Err_0.spec_kind()) == classify(s@),
    {
        QName::new(s)
    }
}

impl<'a> std::convert::TryFrom<&'a str> for QName {
    type Error = Error;

    fn try_from(s: &'a str) -> (r: Result<QName, Error>)
        ensures
            r is Ok <==> is_qname(s@),
            r is Ok ==> r->Ok_0@ == split_name(s@) && r->Ok_0.wf(),
            r is Err ==> Some(r->Err_0.spec_kind()) == classify(s@),
    {
        QName::new(s)
    }
}

/// The value of a conversion is not given as a spec function: its contract is
/// stated on `try_from` itself.
impl<'a> vstd::std_specs::convert::TryFromSpecImpl<&'a str> for QName {
    open spec fn obeys_try_from_spec() -> bool {
        false
    }

    open spec fn try_from_spec(s: &'a str) -> Result<QName, Error> {
        arbitrary()
    }
}

/// Whether `input` is a qualified name.
pub fn is_valid_qname(input: &str) -> (r: bool)
    ensures
        r == is_qname(input@),
{
    first_qname_error(input).is_none()
}

} // verus!
