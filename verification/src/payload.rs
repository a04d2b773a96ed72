//! The plaintext payload of a record: a domain and a password, each escaped
//! and joined by one space, so that the pair can be split on whitespace
//! again after decryption.

use vstd::prelude::*;
use crate::text::{chars_of, string_of};

verus! {

/// What one character of a domain or password becomes in the payload.
pub open spec fn escape_char(c: char) -> Seq<char> {
    if c == '\\' {
        seq!['\\', '\\']
    } else if c == ' ' {
        seq!['\\', 's']
    } else {
        seq![c]
    }
}

/// `s` with every backslash doubled and every space written as `\s`.
pub open spec fn escape(s: Seq<char>) -> Seq<char>
    decreases s.len(),
{
    if s.len() == 0 {
        Seq::empty()
    } else {
        escape_char(s[0]) + escape(s.skip(1))
    }
}

/// The reading of an escaped token, from left to right, one escape at a
/// time: a backslash followed by `s` is a space, a backslash followed by a
/// backslash is one backslash, and any other character stands for itself.
pub open spec fn unescape(s: Seq<char>) -> Seq<char>
    decreases s.len(),
{
    if s.len() == 0 {
        s
    } else if s.len() >= 2 && s[0] == '\\' && s[1] == 's' {
        seq![' '] + unescape(s.skip(2))
    } else if s.len() >= 2 && s[0] == '\\' && s[1] == '\\' {
        seq!['\\'] + unescape(s.skip(2))
    } else {
        seq![s[0]] + unescape(s.skip(1))
    }
}

/// Whether `c` has the Unicode property White_Space.
pub open spec fn is_whitespace(c: char) -> bool {
    let n = c as u32;
    n == 0x20 || (0x09 <= n <= 0x0D) || n == 0x85 || n == 0xA0 || n == 0x1680 || (0x2000 <= n
        <= 0x200A) || n == 0x2028 || n == 0x2029 || n == 0x202F || n == 0x205F || n == 0x3000
}

/// The first position at or after `i` that holds no whitespace, or the
/// length of `s` if there is none.
pub open spec fn token_start(s: Seq<char>, i: int) -> int
    decreases s.len() - i,
{
    if i < 0 || i >= s.len() {
        s.len() as int
    } else if !is_whitespace(s[i]) {
        i
    } else {
        token_start(s, i + 1)
    }
}

/// The first position at or after `i` that holds whitespace, or the length
/// of `s` if there is none.
pub open spec fn token_end(s: Seq<char>, i: int) -> int
    decreases s.len() - i,
{
    if i < 0 || i >= s.len() {
        s.len() as int
    } else if is_whitespace(s[i]) {
        i
    } else {
        token_end(s, i + 1)
    }
}

/// Where the second whitespace-separated token of `s` starts, or the length
/// of `s` if it has fewer than two tokens.
pub open spec fn second_token_start(s: Seq<char>) -> int {
    token_start(s, token_end(s, token_start(s, 0)))
}

/// Whether `s` holds at least two whitespace-separated tokens.
pub open spec fn has_two_tokens(s: Seq<char>) -> bool {
    second_token_start(s) < s.len()
}

/// The payload that stands for a domain and its password.
pub open spec fn marshalled(domain: Seq<char>, password: Seq<char>) -> Seq<char> {
    escape(domain) + seq![' '] + escape(password)
}

/// The domain and password read from a payload: its first two
/// whitespace-separated tokens, unescaped. Further tokens are ignored.
pub open spec fn unmarshalled(data: Seq<char>) -> (Seq<char>, Seq<char>) {
    let a0 = token_start(data, 0);
    let b0 = token_end(data, a0);
    let a1 = token_start(data, b0);
    let b1 = token_end(data, a1);
    (unescape(data.subrange(a0, b0)), unescape(data.subrange(a1, b1)))
}

/// Whether `c` has the Unicode property White_Space.
pub fn char_is_whitespace(c: char) -> (r: bool)
    ensures
        r == is_whitespace(c),
{
    let n: u32 = c as u32;
    n == 0x20 || (0x09 <= n && n <= 0x0D) || n == 0x85 || n == 0xA0 || n == 0x1680 || (0x2000 <= n
        && n <= 0x200A) || n == 0x2028 || n == 0x2029 || n == 0x202F || n == 0x205F || n
        == 0x3000
}

/// Appends the escaped form of `s` to `out`.
pub fn escape_into(s: &Vec<char>, out: &mut Vec<char>)
    ensures
        final(out)@ == old(out)@ + escape(s@),
{
    let ghost before = out@;
    let mut i: usize = 0;
    proof {
        assert(s@.skip(0) =~= s@);
    }
    while i < s.len()
        invariant
            i <= s.len(),
            out@ + escape(s@.skip(i as int)) == before + escape(s@),
        decreases s.len() - i,
    {
        let ghost prev = out@;
        let c: char = s[i];
        proof {
            assert(s@.skip(i as int).skip(1) =~= s@.skip(i + 1));
            assert(s@.skip(i as int)[0] == c);
        }
        if c == '\\' {
            out.push('\\');
            out.push('\\');
        } else if c == ' ' {
            out.push('\\');
            out.push('s');
        } else {
            out.push(c);
        }
        proof {
            assert(out@ =~= prev + escape_char(c));
            assert(out@ + escape(s@.skip(i + 1)) =~= prev + escape(s@.skip(i as int)));
        }
        i = i + 1;
    }
    proof {
        assert(s@.skip(i as int) =~= Seq::<char>::empty());
        assert(out@ =~= before + escape(s@));
    }
}

/// Undoes the escaping of one token.
pub fn unescape_exec(token: &Vec<char>) -> (out: Vec<char>)
    ensures
        out@ == unescape(token@),
{
    let n: usize = token.len();
    let mut out: Vec<char> = Vec::new();
    let mut i: usize = 0;
    proof {
        assert(token@.skip(0) =~= token@);
        assert(out@ + unescape(token@) =~= unescape(token@));
    }
    while i < n
        invariant
            n == token.len(),
            i <= n,
            out@ + unescape(token@.skip(i as int)) == unescape(token@),
        decreases n - i,
    {
        let ghost prev = out@;
        let ghost rest = token@.skip(i as int);
        proof {
            assert(rest.len() == n - i);
            assert(rest[0] == token@[i as int]);
            if n - i >= 2 {
                assert(rest[1] == token@[i + 1]);
                assert(rest.skip(2) =~= token@.skip(i + 2));
            }
            assert(rest.skip(1) =~= token@.skip(i + 1));
        }
        if n - i >= 2 && token[i] == '\\' && (token[i + 1] == 's' || token[i + 1] == '\\') {
            if token[i + 1] == 's' {
                out.push(' ');
            } else {
                out.push('\\');
            }
            proof {
                assert(out@ + unescape(token@.skip(i + 2)) =~= prev + unescape(rest));
            }
            i = i + 2;
        } else {
            out.push(token[i]);
            proof {
                assert(out@ + unescape(token@.skip(i + 1)) =~= prev + unescape(rest));
            }
            i = i + 1;
        }
    }
    proof {
        assert(token@.skip(i as int) =~= Seq::<char>::empty());
        assert(out@ =~= unescape(token@));
    }
    out
}

/// The position of the next token's first character at or after `i`.
pub fn find_token_start(s: &Vec<char>, i: usize) -> (j: usize)
    requires
        i <= s.len(),
    ensures
        j == token_start(s@, i as int),
        i <= j <= s.len(),
{
    let mut j: usize = i;
    while j < s.len() && char_is_whitespace(s[j])
        invariant
            i <= j <= s.len(),
            token_start(s@, j as int) == token_start(s@, i as int),
        decreases s.len() - j,
    {
        j = j + 1;
    }
    j
}

/// The position just after the token that starts at `i`.
pub fn find_token_end(s: &Vec<char>, i: usize) -> (j: usize)
    requires
        i <= s.len(),
    ensures
        j == token_end(s@, i as int),
        i <= j <= s.len(),
{
    let mut j: usize = i;
    while j < s.len() && !char_is_whitespace(s[j])
        invariant
            i <= j <= s.len(),
            token_end(s@, j as int) == token_end(s@, i as int),
        decreases s.len() - j,
    {
        j = j + 1;
    }
    j
}

/// The characters of `s` from `from` up to `to`.
pub fn copy_chars(s: &Vec<char>, from: usize, to: usize) -> (out: Vec<char>)
    requires
        from <= to <= s.len(),
    ensures
        out@ == s@.subrange(from as int, to as int),
{
    let mut out: Vec<char> = Vec::new();
    let mut i: usize = from;
    while i < to
        invariant
            from <= i <= to,
            to <= s.len(),
            out@ == s@.subrange(from as int, i as int),
        decreases to - i,
    {
        out.push(s[i]);
        proof {
            assert(out@ =~= s@.subrange(from as int, i + 1));
        }
        i = i + 1;
    }
    out
}

/// Whether `data` holds the two tokens that a payload is made of.
pub fn is_payload(data: &str) -> (r: bool)
    ensures
        r == has_two_tokens(data@),
{
    let s: Vec<char> = chars_of(data);
    let a0: usize = find_token_start(&s, 0);
    let b0: usize = find_token_end(&s, a0);
    let a1: usize = find_token_start(&s, b0);
    a1 < s.len()
}

/// Joins a domain and a password into one payload, escaping spaces and
/// backslashes in both.
pub fn marshal(domain: &str, password: &str) -> (r: String)
    ensures
        r@ == marshalled(domain@, password@),
{
    let d: Vec<char> = chars_of(domain);
    let p: Vec<char> = chars_of(password);
    let mut out: Vec<char> = Vec::new();
    escape_into(&d, &mut out);
    out.push(' ');
    escape_into(&p, &mut out);
    proof {
        assert(out@ =~= marshalled(domain@, password@));
    }
    string_of(&out)
}

/// Splits a payload into its domain and password and undoes the escaping.
pub fn unmarshal(data: &str) -> (r: (String, String))
    requires
        has_two_tokens(data@),
    ensures
        (r.0@, r.1@) == unmarshalled(data@),
{
    let s: Vec<char> = chars_of(data);
    let a0: usize = find_token_start(&s, 0);
    let b0: usize = find_token_end(&s, a0);
    let a1: usize = find_token_start(&s, b0);
    let b1: usize = find_token_end(&s, a1);
    let first: Vec<char> = copy_chars(&s, a0, b0);
    let second: Vec<char> = copy_chars(&s, a1, b1);
    let domain: Vec<char> = unescape_exec(&first);
    let password: Vec<char> = unescape_exec(&second);
    (string_of(&domain), string_of(&password))
}

/// Whether `s` can stand as a domain or a password that is read back
/// unchanged: it is not empty, and its only whitespace is the plain space.
/// Anything else would be split or lost where the payload is cut into its
/// two tokens.
pub open spec fn survives_escaping(s: Seq<char>) -> bool {
    &&& s.len() > 0
    &&& forall|i: int| 0 <= i < s.len() && is_whitespace(#[trigger] s[i]) ==> s[i] == ' '
}

/// Escaping is undone by unescaping, whatever the string holds.
pub proof fn lemma_unescape_escape(s: Seq<char>)
    ensures
        unescape(escape(s)) == s,
    decreases s.len(),
{
    if s.len() == 0 {
        assert(unescape(escape(s)) =~= s);
    } else {
        let rest = s.skip(1);
        let tail = escape(rest);
        let whole = escape(s);
        lemma_unescape_escape(rest);
        assert(whole == escape_char(s[0]) + tail);
        assert(s =~= seq![s[0]] + rest);
        if s[0] == '\\' || s[0] == ' ' {
            assert(whole.skip(2) =~= tail);
        } else {
            assert(whole.skip(1) =~= tail);
        }
        assert(unescape(whole) =~= s);
    }
}

proof fn lemma_escape_has_no_whitespace(s: Seq<char>)
    requires
        forall|i: int| 0 <= i < s.len() && is_whitespace(#[trigger] s[i]) ==> s[i] == ' ',
    ensures
        forall|i: int| 0 <= i < escape(s).len() ==> !is_whitespace(#[trigger] escape(s)[i]),
        s.len() > 0 ==> escape(s).len() > 0,
    decreases s.len(),
{
    if s.len() > 0 {
        let rest = s.skip(1);
        assert forall|i: int| 0 <= i < rest.len() && is_whitespace(#[trigger] rest[i]) implies rest[i]
            == ' ' by {
            assert(rest[i] == s[i + 1]);
        }
        lemma_escape_has_no_whitespace(rest);
        let head = escape_char(s[0]);
        assert(escape(s) == head + escape(rest));
        assert forall|i: int| 0 <= i < escape(s).len() implies !is_whitespace(
            #[trigger] escape(s)[i],
        ) by {
            if i < head.len() {
                assert(escape(s)[i] == head[i]);
            } else {
                assert(escape(s)[i] == escape(rest)[i - head.len()]);
            }
        }
    }
}

proof fn lemma_token_end(s: Seq<char>, i: int, j: int)
    requires
        0 <= i <= j <= s.len(),
        forall|k: int| i <= k < j ==> !is_whitespace(#[trigger] s[k]),
        j < s.len() ==> is_whitespace(s[j]),
    ensures
        token_end(s, i) == j,
    decreases j - i,
{
    if i < j {
        lemma_token_end(s, i + 1, j);
    }
}

/// A payload made from a domain and a password that survive escaping is
/// read back as exactly that domain and that password.
pub proof fn lemma_marshal_round_trip(domain: Seq<char>, password: Seq<char>)
    requires
        survives_escaping(domain),
        survives_escaping(password),
    ensures
        has_two_tokens(marshalled(domain, password)),
        unmarshalled(marshalled(domain, password)) == (domain, password),
{
    let d = escape(domain);
    let p = escape(password);
    let data = marshalled(domain, password);
    lemma_escape_has_no_whitespace(domain);
    lemma_escape_has_no_whitespace(password);
    lemma_unescape_escape(domain);
    lemma_unescape_escape(password);
    let n = d.len() as int;
    assert(data.len() == n + 1 + p.len());
    assert forall|k: int| 0 <= k < n implies !is_whitespace(#[trigger] data[k]) by {
        assert(data[k] == d[k]);
    }
    assert(data[n] == ' ');
    assert forall|k: int| n + 1 <= k < data.len() implies !is_whitespace(#[trigger] data[k]) by {
        assert(data[k] == p[k - n - 1]);
    }
    assert(token_start(data, 0) == 0);
    lemma_token_end(data, 0, n);
    assert(token_start(data, n) == token_start(data, n + 1));
    assert(token_start(data, n + 1) == n + 1);
    lemma_token_end(data, n + 1, data.len() as int);
    assert(data.subrange(0, n) =~= d);
    assert(data.subrange(n + 1, data.len() as int) =~= p);
}

} // verus!
