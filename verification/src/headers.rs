//! Request-header validation: raw (name, value) string pairs are checked
//! against the HTTP grammar and collected, with names lowered to their
//! canonical lowercase form and values stripped of leading whitespace.

use vstd::prelude::*;
use vstd::string::StrSliceExecFns;
use vstd::string::StringExecFns;

use crate::error::Error;
use crate::error::ErrorKind;
use crate::grammar::check_token_char;
use crate::grammar::check_value_char;
use crate::grammar::check_ws_char;
use crate::grammar::is_token_char;
use crate::grammar::is_value_char;
use crate::grammar::is_ws_char;
use crate::grammar::lower_char;
use crate::grammar::lower_seq;
use crate::grammar::to_lower_char;
use crate::grammar::trim_start_seq;
use crate::grammar::valid_header_name;
use crate::grammar::valid_header_value;

verus! {

/// What a raw header pair normalizes to: the name with uppercase ASCII
/// lowered, the value with leading whitespace stripped.
pub open spec fn normalized_pair(p: (Seq<char>, Seq<char>)) -> (Seq<char>, Seq<char>) {
    (lower_seq(p.0), trim_start_seq(p.1))
}

/// A raw header pair passes validation when its name is an HTTP token and
/// its value, once leading whitespace is stripped, fits the header-value
/// grammar.
pub open spec fn pair_valid(p: (Seq<char>, Seq<char>)) -> bool {
    valid_header_name(p.0) && valid_header_value(trim_start_seq(p.1))
}

/// A vector of string pairs, seen as a sequence of character-sequence
/// pairs.
pub open spec fn pairs_view(v: Seq<(String, String)>) -> Seq<(Seq<char>, Seq<char>)> {
    Seq::new(v.len(), |i: int| (v[i].0@, v[i].1@))
}

/// The model of a fully validated collection: every raw pair normalized,
/// in input order.
pub open spec fn headers_model(rv: Seq<(Seq<char>, Seq<char>)>) -> Seq<(Seq<char>, Seq<char>)> {
    rv.map_values(|p: (Seq<char>, Seq<char>)| normalized_pair(p))
}

/// Two names are equal up to ASCII case.
pub open spec fn eq_case_insensitive(a: Seq<char>, b: Seq<char>) -> bool {
    lower_seq(a) == lower_seq(b)
}

/// Lowering is idempotent on a single character, and keeps it a token
/// character.
pub proof fn lemma_lower_char_props(c: char)
    ensures
        lower_char(lower_char(c)) == lower_char(c),
        is_token_char(c) ==> is_token_char(lower_char(c)),
{
}

/// Stripping leading whitespace twice is the same as stripping it once.
pub proof fn lemma_trim_start_idempotent(s: Seq<char>)
    ensures
        trim_start_seq(trim_start_seq(s)) == trim_start_seq(s),
    decreases s.len(),
{
    if s.len() > 0 && is_ws_char(s[0]) {
        lemma_trim_start_idempotent(s.drop_first());
    }
}

/// Lowering a character sequence twice is the same as lowering it once.
pub proof fn lemma_lower_seq_idempotent(s: Seq<char>)
    ensures
        lower_seq(lower_seq(s)) == lower_seq(s),
{
    assert forall|i: int| 0 <= i < s.len() implies lower_seq(lower_seq(s))[i] == lower_seq(s)[i] by {
        lemma_lower_char_props(s[i]);
    }
    assert(lower_seq(lower_seq(s)) =~= lower_seq(s));
}

/// Relies on `String::push`: appends one character to the string.
#[verifier::external_body]
pub(crate) fn push_char(s: &mut String, c: char)
    ensures
        final(s)@ == old(s)@.push(c),
{
    s.push(c);
}

/// Validates a raw header name against the token grammar and returns its
/// lowercase form; `None` when the name is empty or some character is
/// outside the token set.
pub fn validate_header_name(name: &str) -> (r: Option<String>)
    ensures
        r is Some <==> valid_header_name(name@),
        r matches Some(s) ==> s@ == lower_seq(name@),
{
    let n = name.unicode_len();
    if n == 0 {
        return None;
    }
    let mut out = String::new();
    let mut i: usize = 0;
    while i < n
        invariant
            n == name@.len(),
            i <= n,
            out@ =~= lower_seq(name@).subrange(0, i as int),
            forall|j: int| 0 <= j < i ==> is_token_char(#[trigger] name@[j]),
        decreases n - i,
    {
        let c = name.get_char(i);
        if !check_token_char(c) {
            assert(!valid_header_name(name@));
            return None;
        }
        push_char(&mut out, to_lower_char(c));
        assert(out@ =~= lower_seq(name@).subrange(0, i + 1));
        i += 1;
    }
    assert(out@ =~= lower_seq(name@));
    Some(out)
}

/// The index where the leading whitespace of `s` ends.
fn first_non_ws(s: &str) -> (i: usize)
    ensures
        i <= s@.len(),
        forall|j: int| 0 <= j < i ==> is_ws_char(#[trigger] s@[j]),
        i < s@.len() ==> !is_ws_char(s@[i as int]),
{
    let n = s.unicode_len();
    let mut i: usize = 0;
    while i < n
        invariant
            n == s@.len(),
            i <= n,
            forall|j: int| 0 <= j < i ==> is_ws_char(#[trigger] s@[j]),
        decreases n - i,
    {
        if !check_ws_char(s.get_char(i)) {
            return i;
        }
        i += 1;
    }
    i
}

/// Dropping a fully whitespace prefix is what the trim of a sequence
/// does.
proof fn lemma_trim_start_at(s: Seq<char>, i: int)
    requires
        0 <= i <= s.len(),
        forall|j: int| 0 <= j < i ==> is_ws_char(#[trigger] s[j]),
        i == s.len() || !is_ws_char(s[i]),
    ensures
        trim_start_seq(s) == s.subrange(i, s.len() as int),
    decreases i,
{
    if i == 0 {
        assert(trim_start_seq(s) =~= s.subrange(0, s.len() as int));
    } else {
        let t = s.drop_first();
        assert(forall|j: int| 0 <= j < i - 1 ==> is_ws_char(#[trigger] t[j]));
        lemma_trim_start_at(t, i - 1);
        assert(t.subrange(i - 1, t.len() as int) =~= s.subrange(i, s.len() as int));
    }
}

/// Strips leading whitespace off a raw header value.
pub fn trim_start_str(s: &str) -> (r: String)
    ensures
        r@ == trim_start_seq(s@),
{
    let n = s.unicode_len();
    let i = first_non_ws(s);
    proof {
        lemma_trim_start_at(s@, i as int);
    }
    let rest = s.substring_char(i, n);
    rest.to_owned()
}

/// Decides whether every character of `s` fits the header-value grammar.
pub fn check_header_value(s: &str) -> (r: bool)
    ensures
        r == valid_header_value(s@),
{
    let n = s.unicode_len();
    let mut i: usize = 0;
    while i < n
        invariant
            n == s@.len(),
            i <= n,
            forall|j: int| 0 <= j < i ==> is_value_char(#[trigger] s@[j]),
        decreases n - i,
    {
        if !check_value_char(s.get_char(i)) {
            assert(!valid_header_value(s@));
            return false;
        }
        i += 1;
    }
    true
}

/// A collection of header pairs in which every name is a non-empty
/// lowercase HTTP token and every value fits the header-value grammar.
/// Entries keep the order of the input; duplicate names are retained as
/// separate entries.
#[derive(Debug)]
pub struct ValidatedHeaders {
    pairs: Vec<(String, String)>,
}

impl View for ValidatedHeaders {
    type V = Seq<(Seq<char>, Seq<char>)>;

    closed spec fn view(&self) -> Seq<(Seq<char>, Seq<char>)> {
        pairs_view(self.pairs@)
    }
}

impl ValidatedHeaders {
    /// Every entry is syntactically valid per the HTTP grammar, with a
    /// lowercase name and a value that carries no leading whitespace.
    pub open spec fn wf(&self) -> bool {
        forall|i: int|
            0 <= i < self@.len() ==> {
                &&& valid_header_name(#[trigger] self@[i].0)
                &&& self@[i].0 == lower_seq(self@[i].0)
                &&& valid_header_value(self@[i].1)
                &&& self@[i].1 == trim_start_seq(self@[i].1)
            }
    }

    /// The number of entries.
    pub fn len(&self) -> (n: usize)
        ensures
            n == self@.len(),
    {
        self.pairs.len()
    }

    /// The entries, as plain (name, value) string pairs.
    pub fn pairs(&self) -> (r: &Vec<(String, String)>)
        ensures
            pairs_view(r@) == self@,
    {
        &self.pairs
    }
}

/// Parses a map of header strings into a validated header collection.
///
/// Pairs are processed in input order; the first invalid pair aborts the
/// parse with an error naming what was wrong with it. On success every
/// pair is retained, normalized, in order.
pub fn parse_headers(raw: &Vec<(String, String)>) -> (r: Result<ValidatedHeaders, Error>)
    ensures
        r is Ok <==> (forall|i: int|
            0 <= i < raw@.len() ==> pair_valid(#[trigger] pairs_view(raw@)[i])),
        r matches Ok(h) ==> h@ == headers_model(pairs_view(raw@)) && h.wf(),
        r matches Err(e) ==> exists|i: int|
            {
                &&& 0 <= i < raw@.len()
                &&& !pair_valid(#[trigger] pairs_view(raw@)[i])
                &&& (forall|j: int| 0 <= j < i ==> pair_valid(#[trigger] pairs_view(raw@)[j]))
                &&& e.kind == (if !valid_header_name(pairs_view(raw@)[i].0) {
                    ErrorKind::InvalidHeaderName
                } else {
                    ErrorKind::InvalidHeaderValue
                })
            },
{
    let ghost rv = pairs_view(raw@);
    let mut out: Vec<(String, String)> = Vec::new();
    let mut idx: usize = 0;
    while idx < raw.len()
        invariant
            rv == pairs_view(raw@),
            idx <= raw@.len(),
            forall|j: int| 0 <= j < idx ==> pair_valid(#[trigger] rv[j]),
            out@.len() == idx,
            forall|j: int|
                0 <= j < idx ==> pairs_view(out@)[j] == normalized_pair(#[trigger] rv[j]),
        decreases raw@.len() - idx,
    {
        let name = raw[idx].0.as_str();
        match validate_header_name(name) {
            None => {
                assert(!pair_valid(rv[idx as int]));
                return Err(
                    Error::new(
                        ErrorKind::InvalidHeaderName,
                        String::from_str("invalid header name"),
                    ),
                );
            },
            Some(lname) => {
                let trimmed = trim_start_str(raw[idx].1.as_str());
                if !check_header_value(trimmed.as_str()) {
                    assert(!pair_valid(rv[idx as int]));
                    return Err(
                        Error::new(
                            ErrorKind::InvalidHeaderValue,
                            String::from_str("invalid header value"),
                        ),
                    );
                }
                out.push((lname, trimmed));
                assert forall|j: int| 0 <= j < idx + 1 implies pairs_view(out@)[j]
                    == normalized_pair(#[trigger] rv[j]) by {}
            },
        }
        idx += 1;
    }
    proof {
        assert(pairs_view(out@) =~= headers_model(rv));
        assert forall|i: int| 0 <= i < rv.len() implies valid_header_name(
            #[trigger] headers_model(rv)[i].0,
        ) && headers_model(rv)[i].0 == lower_seq(headers_model(rv)[i].0) && valid_header_value(
            headers_model(rv)[i].1,
        ) && headers_model(rv)[i].1 == trim_start_seq(headers_model(rv)[i].1) by {
            assert(pair_valid(rv[i]));
            assert forall|k: int| 0 <= k < rv[i].0.len() implies is_token_char(
                #[trigger] lower_seq(rv[i].0)[k],
            ) by {
                lemma_lower_char_props(rv[i].0[k]);
            }
            lemma_lower_seq_idempotent(rv[i].0);
            lemma_trim_start_idempotent(rv[i].1);
        }
    }
    Ok(ValidatedHeaders { pairs: out })
}

/// The name a validated collection stores equals the source name up to
/// ASCII case, and the value is kept exactly, once its leading
/// whitespace is stripped.
pub proof fn lemma_header_round_trip(p: (Seq<char>, Seq<char>))
    ensures
        eq_case_insensitive(normalized_pair(p).0, p.0),
        normalized_pair(p).1 == trim_start_seq(p.1),
{
    lemma_lower_seq_idempotent(p.0);
}

/// Two header pairs are both retained and correctly paired, in either
/// input order.
pub proof fn lemma_two_headers_preserved(p: (Seq<char>, Seq<char>), q: (Seq<char>, Seq<char>))
    ensures
        headers_model(seq![p, q]).contains(normalized_pair(p)),
        headers_model(seq![p, q]).contains(normalized_pair(q)),
        headers_model(seq![q, p]).contains(normalized_pair(p)),
        headers_model(seq![q, p]).contains(normalized_pair(q)),
{
    assert(headers_model(seq![p, q])[0] == normalized_pair(p));
    assert(headers_model(seq![p, q])[1] == normalized_pair(q));
    assert(headers_model(seq![q, p])[0] == normalized_pair(q));
    assert(headers_model(seq![q, p])[1] == normalized_pair(p));
}

} // verus!
