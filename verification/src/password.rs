//! A generator of random passwords.

use vstd::prelude::*;
use rand::Rng;
use crate::text::{chars_of, string_of};

verus! {

/// Whether generated passwords may hold uppercase letters.
pub const INCLUDE_UPPERCASE: bool = true;

/// Whether generated passwords may hold digits.
pub const INCLUDE_NUMBERS: bool = true;

/// Whether generated passwords may hold punctuation.
pub const INCLUDE_SPECIAL: bool = true;

/// The lowercase letters.
pub const LOWERCASE: &'static str = "abcdefghijklmnopqrstuvwxyz";

/// The uppercase letters.
pub const UPPERCASE: &'static str = "ABCDEFGHIJKLMNOPQRSTUVWXYZ";

/// The digits.
pub const NUMBERS: &'static str = "0123456789";

/// The punctuation.
pub const SPECIAL: &'static str = "!@#$%^&*()-_=+[]{}|;:,.<>?";

/// Characters in a generated password.
pub const DEFAULT_LENGTH: usize = 16;

/// The characters that a generated password is drawn from.
pub open spec fn password_charset() -> Seq<char> {
    LOWERCASE@ + (if INCLUDE_UPPERCASE {
        UPPERCASE@
    } else {
        Seq::empty()
    }) + (if INCLUDE_NUMBERS {
        NUMBERS@
    } else {
        Seq::empty()
    }) + (if INCLUDE_SPECIAL {
        SPECIAL@
    } else {
        Seq::empty()
    })
}

/// Calls `Rng::gen_range` on the thread's generator of the `rand` crate
/// with the range from 0 up to, and without, `n`. The range must not be
/// empty; the value lies in it.
#[verifier::external_body]
fn random_index(n: usize) -> (i: usize)
    requires
        n > 0,
    ensures
        i < n,
{
    rand::thread_rng().gen_range(0..n)
}

fn append_chars(out: &mut Vec<char>, part: &str)
    ensures
        final(out)@ == old(out)@ + part@,
{
    let ghost before = out@;
    let chars: Vec<char> = chars_of(part);
    let mut i: usize = 0;
    while i < chars.len()
        invariant
            i <= chars.len(),
            out@ == before + chars@.subrange(0, i as int),
        decreases chars.len() - i,
    {
        out.push(chars[i]);
        proof {
            assert(out@ =~= before + chars@.subrange(0, i + 1));
        }
        i = i + 1;
    }
    proof {
        assert(chars@.subrange(0, chars@.len() as int) =~= chars@);
    }
}

/// Whether `s` can be a generated password: 16 characters, each of the
/// charset.
pub open spec fn is_generated(s: Seq<char>) -> bool {
    &&& s.len() == DEFAULT_LENGTH
    &&& forall|i: int| 0 <= i < s.len() ==> password_charset().contains(#[trigger] s[i])
}

/// A random password of 16 characters, each drawn from the charset.
pub fn generate_password() -> (password: String)
    ensures
        is_generated(password@),
{
    let mut charset: Vec<char> = Vec::new();
    append_chars(&mut charset, LOWERCASE);
    if INCLUDE_UPPERCASE {
        append_chars(&mut charset, UPPERCASE);
    } else {
        proof {
            assert(charset@ + Seq::<char>::empty() =~= charset@);
        }
    }
    if INCLUDE_NUMBERS {
        append_chars(&mut charset, NUMBERS);
    } else {
        proof {
            assert(charset@ + Seq::<char>::empty() =~= charset@);
        }
    }
    if INCLUDE_SPECIAL {
        append_chars(&mut charset, SPECIAL);
    } else {
        proof {
            assert(charset@ + Seq::<char>::empty() =~= charset@);
        }
    }
    proof {
        reveal_strlit("abcdefghijklmnopqrstuvwxyz");
        assert(charset@ =~= password_charset());
        assert(charset@.len() >= 26);
    }
    let mut password: Vec<char> = Vec::new();
    let mut k: usize = 0;
    while k < DEFAULT_LENGTH
        invariant
            k <= DEFAULT_LENGTH,
            password@.len() == k,
            charset@ == password_charset(),
            charset@.len() > 0,
            forall|i: int| 0 <= i < password@.len() ==> password_charset().contains(password@[i]),
        decreases DEFAULT_LENGTH - k,
    {
        let idx: usize = random_index(charset.len());
        password.push(charset[idx]);
        k = k + 1;
    }
    string_of(&password)
}

} // verus!
