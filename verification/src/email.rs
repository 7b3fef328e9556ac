use vstd::prelude::*;

use crate::errors::{AuthError, InvalidReason};

verus! {

/// How many `@` signs a candidate address holds.
pub open spec fn at_count(s: Seq<char>) -> nat
    decreases s.len(),
{
    if s.len() == 0 {
        0
    } else {
        at_count(s.drop_last()) + (if s.last() == '@' {
            1nat
        } else {
            0nat
        })
    }
}

/// A well-formed address: long enough for `a@b`, exactly one `@` that is
/// neither first nor last, and no control characters or spaces.
pub open spec fn is_valid_email(s: Seq<char>) -> bool {
    &&& s.len() >= 3
    &&& at_count(s) == 1
    &&& s[0] != '@'
    &&& s[s.len() - 1] != '@'
    &&& forall|i: int| 0 <= i < s.len() ==> #[trigger] s[i] as int > 32
}

/// Lower-cases an ASCII letter; every other character is kept.
pub open spec fn lower_char(c: char) -> char {
    if 'A' <= c && c <= 'Z' {
        seq!['a', 'b', 'c', 'd', 'e', 'f', 'g', 'h', 'i', 'j', 'k', 'l', 'm', 'n', 'o', 'p', 'q', 'r', 's', 't', 'u', 'v', 'w', 'x', 'y', 'z'][c as int - 65]
    } else {
        c
    }
}

/// The canonical form of an address: ASCII letters lower-cased.
pub open spec fn normalize_email(s: Seq<char>) -> Seq<char> {
    s.map_values(|c: char| lower_char(c))
}

/// Validates a candidate address and returns its canonical (lower-cased)
/// form, or `InvalidInput` on a malformed address. Every lookup and every
/// write of an account row goes through the canonical form.
pub fn validate_and_normalize_email_address(email: &str) -> (r: Result<String, AuthError>)
    ensures
        r is Ok <==> is_valid_email(email@),
        r matches Ok(n) ==> n@ == normalize_email(email@),
        r matches Err(e) ==> e == AuthError::InvalidInput(InvalidReason::InvalidEmail),
{
    let n = email.unicode_len();
    if n < 3 {
        return Err(AuthError::InvalidInput(InvalidReason::InvalidEmail));
    }
    let mut ats: usize = 0;
    let mut i: usize = 0;
    while i < n
        invariant
            n == email@.len(),
            i <= n,
            ats == at_count(email@.subrange(0, i as int)),
            ats <= i,
            forall|j: int| 0 <= j < i ==> #[trigger] email@[j] as int > 32,
        decreases n - i,
    {
        let c = email.get_char(i);
        proof {
            assert(email@.subrange(0, i + 1 as int).drop_last() =~= email@.subrange(0, i as int));
        }
        if (c as u32) <= 32 {
            return Err(AuthError::InvalidInput(InvalidReason::InvalidEmail));
        }
        if c == '@' {
            ats += 1;
        }
        i += 1;
    }
    proof {
        assert(email@.subrange(0, n as int) =~= email@);
    }
    if ats != 1 || email.get_char(0) == '@' || email.get_char(n - 1) == '@' {
        return Err(AuthError::InvalidInput(InvalidReason::InvalidEmail));
    }
    let mut out = String::new();
    let mut k: usize = 0;
    while k < n
        invariant
            n == email@.len(),
            k <= n,
            out@ == email@.subrange(0, k as int).map_values(|c: char| lower_char(c)),
        decreases n - k,
    {
        let c = email.get_char(k);
        if c >= 'A' && c <= 'Z' {
            let table = "abcdefghijklmnopqrstuvwxyz";
            proof {
                reveal_strlit("abcdefghijklmnopqrstuvwxyz");
                assert(table@ =~= seq!['a', 'b', 'c', 'd', 'e', 'f', 'g', 'h', 'i', 'j', 'k', 'l', 'm', 'n', 'o', 'p', 'q', 'r', 's', 't', 'u', 'v', 'w', 'x', 'y', 'z']);
            }
            let idx = (c as u32 - 65) as usize;
            let piece = table.substring_char(idx, idx + 1);
            out.append(piece);
            proof {
                assert(piece@ =~= seq![lower_char(email@[k as int])]);
            }
        } else {
            let piece = email.substring_char(k, k + 1);
            out.append(piece);
            proof {
                assert(piece@ =~= seq![lower_char(email@[k as int])]);
            }
        }
        proof {
            let pre = email@.subrange(0, k as int).map_values(|c: char| lower_char(c));
            let post = email@.subrange(0, k + 1 as int).map_values(|c: char| lower_char(c));
            assert(post =~= pre + seq![lower_char(email@[k as int])]);
        }
        k += 1;
    }
    proof {
        assert(email@.subrange(0, n as int) =~= email@);
    }
    Ok(out)
}

} // verus!
