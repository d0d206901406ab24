//! Credentials in header values: the tokens offered in a protocol
//! negotiation and the bearer token of an authorization header.
//!
//! A header value is a string of bytes. Only one made of visible ASCII and
//! tabs is read as text; within such a value, blanks are spaces and tabs.

use vstd::prelude::*;
use vstd::slice::slice_subrange;

verus! {

/// Whether `b` may stand in a header value that is read as text.
pub open spec fn is_visible(b: u8) -> bool {
    (0x20 <= b < 0x7f) || b == 0x09
}

/// Whether every byte of `s` is visible.
pub open spec fn all_visible(s: Seq<u8>) -> bool {
    forall|i: int| 0 <= i < s.len() ==> is_visible(#[trigger] s[i])
}

/// Whether `b` is a space or a tab.
pub open spec fn is_blank(b: u8) -> bool {
    b == 0x20 || b == 0x09
}

/// `s` without the blanks at its start.
pub open spec fn trim_start(s: Seq<u8>) -> Seq<u8>
    decreases s.len(),
{
    if s.len() > 0 && is_blank(s.first()) {
        trim_start(s.drop_first())
    } else {
        s
    }
}

/// `s` without the blanks at its end.
pub open spec fn trim_end(s: Seq<u8>) -> Seq<u8>
    decreases s.len(),
{
    if s.len() > 0 && is_blank(s.last()) {
        trim_end(s.drop_last())
    } else {
        s
    }
}

/// `s` without the blanks at its start and at its end.
pub open spec fn trimmed(s: Seq<u8>) -> Seq<u8> {
    trim_end(trim_start(s))
}

/// `s` without any copies of `prefix` at its start.
pub open spec fn strip_prefixes(s: Seq<u8>, prefix: Seq<u8>) -> Seq<u8>
    decreases s.len(),
{
    if prefix.len() > 0 && prefix.is_prefix_of(s) {
        strip_prefixes(s.skip(prefix.len() as int), prefix)
    } else {
        s
    }
}

/// The fields of `s` between its commas. There is one field more than
/// there are commas; a field may be empty.
pub open spec fn fields(s: Seq<u8>) -> Seq<Seq<u8>>
    decreases s.len(),
{
    if s.len() == 0 {
        seq![Seq::<u8>::empty()]
    } else {
        let before = fields(s.drop_last());
        if s.last() == 0x2c {
            before.push(Seq::<u8>::empty())
        } else {
            before.drop_last().push(before.last().push(s.last()))
        }
    }
}

/// The bytes of `token-`, which marks a protocol that carries a token.
pub open spec fn token_prefix() -> Seq<u8> {
    seq![0x74u8, 0x6fu8, 0x6bu8, 0x65u8, 0x6eu8, 0x2du8]
}

/// The bytes of `Bearer ` with its space, which marks a bearer credential.
pub open spec fn bearer_prefix() -> Seq<u8> {
    seq![0x42u8, 0x65u8, 0x61u8, 0x72u8, 0x65u8, 0x72u8, 0x20u8]
}

/// The token that one protocol field carries: the field is trimmed, must
/// start with `token-`, and the token is what follows every leading
/// `token-`.
pub open spec fn token_in(field: Seq<u8>) -> Option<Seq<u8>> {
    if token_prefix().is_prefix_of(trimmed(field)) {
        Some(strip_prefixes(trimmed(field), token_prefix()))
    } else {
        None
    }
}

/// The tokens that the fields `fs` carry, in order.
pub open spec fn tokens_of(fs: Seq<Seq<u8>>) -> Seq<Seq<u8>>
    decreases fs.len(),
{
    if fs.len() == 0 {
        Seq::<Seq<u8>>::empty()
    } else {
        match token_in(fs.last()) {
            Some(t) => tokens_of(fs.drop_last()).push(t),
            None => tokens_of(fs.drop_last()),
        }
    }
}

/// The tokens offered in the protocol header `header`, in order. A header
/// with a byte that is not visible offers none.
pub open spec fn offered_tokens(header: Seq<u8>) -> Seq<Seq<u8>> {
    if all_visible(header) {
        tokens_of(fields(header))
    } else {
        Seq::<Seq<u8>>::empty()
    }
}

/// The bearer token of the authorization header `header`: the header must
/// be visible and start with `Bearer `, and the token is what follows every
/// leading `Bearer `, trimmed.
pub open spec fn bearer_token(header: Seq<u8>) -> Option<Seq<u8>> {
    if all_visible(header) && bearer_prefix().is_prefix_of(header) {
        Some(trimmed(strip_prefixes(header, bearer_prefix())))
    } else {
        None
    }
}

/// The byte strings that `v` holds.
pub open spec fn views(v: Seq<Vec<u8>>) -> Seq<Seq<u8>> {
    Seq::new(v.len(), |i: int| v[i]@)
}

/// Whether every byte of `s` is visible.
pub fn is_all_visible(s: &[u8]) -> (visible: bool)
    ensures
        visible == all_visible(s@),
{
    let mut i: usize = 0;
    while i < s.len()
        invariant
            i <= s.len(),
            forall|k: int| 0 <= k < i ==> is_visible(#[trigger] s@[k]),
        decreases s.len() - i,
    {
        let b = s[i];
        if !((0x20 <= b && b < 0x7f) || b == 0x09) {
            return false;
        }
        i += 1;
    }
    true
}

/// Whether `s` starts with `prefix`.
pub fn starts_with(s: &[u8], prefix: &[u8]) -> (found: bool)
    ensures
        found == prefix@.is_prefix_of(s@),
{
    if prefix.len() > s.len() {
        return false;
    }
    let mut i: usize = 0;
    while i < prefix.len()
        invariant
            i <= prefix.len() <= s.len(),
            forall|k: int| 0 <= k < i ==> s@[k] == prefix@[k],
        decreases prefix.len() - i,
    {
        if s[i] != prefix[i] {
            return false;
        }
        i += 1;
    }
    true
}

/// `s` without the blanks at its start and at its end.
pub fn trim(s: &[u8]) -> (t: &[u8])
    ensures
        t@ == trimmed(s@),
{
    let mut start: usize = 0;
    assert(s@.subrange(0, s.len() as int) =~= s@);
    while start < s.len() && (s[start] == 0x20 || s[start] == 0x09)
        invariant
            start <= s.len(),
            trim_start(s@) == trim_start(s@.subrange(start as int, s.len() as int)),
        decreases s.len() - start,
    {
        proof {
            let rest = s@.subrange(start as int, s.len() as int);
            assert(rest.drop_first() =~= s@.subrange(start + 1, s.len() as int));
        }
        start += 1;
    }
    let ghost left = s@.subrange(start as int, s.len() as int);
    let mut end: usize = s.len();
    while end > start && (s[end - 1] == 0x20 || s[end - 1] == 0x09)
        invariant
            start <= end <= s.len(),
            trim_end(left) == trim_end(s@.subrange(start as int, end as int)),
        decreases end - start,
    {
        proof {
            let rest = s@.subrange(start as int, end as int);
            assert(rest.drop_last() =~= s@.subrange(start as int, end - 1));
        }
        end -= 1;
    }
    slice_subrange(s, start, end)
}

/// `s` without any copies of `prefix` at its start.
pub fn strip_all<'a>(s: &'a [u8], prefix: &[u8]) -> (t: &'a [u8])
    ensures
        t@ == strip_prefixes(s@, prefix@),
{
    if prefix.len() == 0 {
        return s;
    }
    let mut rest: &[u8] = s;
    while starts_with(rest, prefix)
        invariant
            prefix@.len() > 0,
            strip_prefixes(s@, prefix@) == strip_prefixes(rest@, prefix@),
        decreases rest@.len(),
    {
        rest = slice_subrange(rest, prefix.len(), rest.len());
    }
    rest
}

/// The bytes of `token-`.
pub fn token_marker() -> (marker: Vec<u8>)
    ensures
        marker@ == token_prefix(),
{
    vec![0x74u8, 0x6fu8, 0x6bu8, 0x65u8, 0x6eu8, 0x2du8]
}

/// The bytes of `Bearer ` with its space.
pub fn bearer_marker() -> (marker: Vec<u8>)
    ensures
        marker@ == bearer_prefix(),
{
    vec![0x42u8, 0x65u8, 0x61u8, 0x72u8, 0x65u8, 0x72u8, 0x20u8]
}

/// The token that one protocol field carries, if it carries one.
pub fn field_token(field: &[u8]) -> (token: Option<Vec<u8>>)
    ensures
        match token {
            Some(t) => token_in(field@) == Some(t@),
            None => token_in(field@) is None,
        },
{
    let marker = token_marker();
    let t = trim(field);
    if starts_with(t, marker.as_slice()) {
        Some(vstd::slice::slice_to_vec(strip_all(t, marker.as_slice())))
    } else {
        None
    }
}

/// The tokens offered in a protocol header, in order.
pub fn protocol_tokens(header: &[u8]) -> (tokens: Vec<Vec<u8>>)
    ensures
        views(tokens@) == offered_tokens(header@),
{
    let mut tokens: Vec<Vec<u8>> = Vec::new();
    if !is_all_visible(header) {
        return tokens;
    }
    let ghost mut done: Seq<Seq<u8>> = Seq::empty();
    let mut begin: usize = 0;
    let mut i: usize = 0;
    assert(header@.take(0) =~= Seq::<u8>::empty());
    while i < header.len()
        invariant
            begin <= i <= header.len(),
            fields(header@.take(i as int)) == done.push(header@.subrange(begin as int, i as int)),
            views(tokens@) == tokens_of(done),
        decreases header.len() - i,
    {
        let ghost prefix = header@.take(i as int);
        let ghost next = header@.take(i + 1);
        let ghost current = header@.subrange(begin as int, i as int);
        proof {
            assert(next.drop_last() =~= prefix);
            assert(done.push(current).drop_last() =~= done);
        }
        if header[i] == 0x2c {
            let found = field_token(slice_subrange(header, begin, i));
            match found {
                Some(t) => {
                    tokens.push(t);
                },
                None => {},
            }
            proof {
                done = done.push(current);
                assert(header@.subrange(i + 1, i + 1) =~= Seq::<u8>::empty());
            }
            begin = i + 1;
        } else {
            proof {
                assert(current.push(header@[i as int]) =~= header@.subrange(begin as int, i + 1));
            }
        }
        i += 1;
    }
    let found = field_token(slice_subrange(header, begin, i));
    let ghost last = header@.subrange(begin as int, i as int);
    match found {
        Some(t) => {
            tokens.push(t);
        },
        None => {},
    }
    proof {
        assert(header@.take(i as int) =~= header@);
        assert(done.push(last).drop_last() =~= done);
    }
    tokens
}

/// The bearer token of an authorization header, if it holds one.
pub fn authorization_token(header: &[u8]) -> (token: Option<Vec<u8>>)
    ensures
        match token {
            Some(t) => bearer_token(header@) == Some(t@),
            None => bearer_token(header@) is None,
        },
{
    let marker = bearer_marker();
    if is_all_visible(header) && starts_with(header, marker.as_slice()) {
        Some(vstd::slice::slice_to_vec(trim(strip_all(header, marker.as_slice()))))
    } else {
        None
    }
}

} // verus!
