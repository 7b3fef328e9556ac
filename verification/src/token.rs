use vstd::prelude::*;

use crate::password::is_digit_char;
use crate::random::generate_random_string;

verus! {

/// Length of a freshly minted CSRF token.
pub const CSRF_TOKEN_LENGTH: usize = 32;

/// Length of a freshly minted opaque refresh token.
pub const REFRESH_TOKEN_LENGTH: usize = 32;

/// The claims embedded in an access token: subject identity, verification
/// status, the CSRF token for double-submit checks, and the expiry instant
/// (seconds since the epoch).
#[derive(Debug)]
pub struct TokenClaims {
    pub sub: String,
    pub verified: bool,
    pub csrf_token: String,
    pub exp: u64,
}

/// A session: access-token claims plus the opaque refresh token that came
/// with them.
#[derive(Debug)]
pub struct Tokens {
    pub auth_token_claims: TokenClaims,
    pub refresh_token: Option<String>,
}

/// Well-formed claims: the embedded CSRF token has its minted length, which
/// is what lets the compact encoding be decoded unambiguously.
pub open spec fn wf_claims(c: TokenClaims) -> bool {
    c.csrf_token@.len() == CSRF_TOKEN_LENGTH
}

pub open spec fn digit_char(d: int) -> char {
    seq!['0', '1', '2', '3', '4', '5', '6', '7', '8', '9'][d]
}

pub open spec fn digit_of(c: char) -> int {
    c as int - 48
}

pub open spec fn pow10(w: nat) -> nat
    decreases w,
{
    if w == 0 {
        1
    } else {
        10 * pow10((w - 1) as nat)
    }
}

/// `n` written in decimal, zero-padded to exactly `w` digits (modulo
/// `pow10(w)`).
pub open spec fn pad_dec(n: nat, w: nat) -> Seq<char>
    decreases w,
{
    if w == 0 {
        Seq::<char>::empty()
    } else {
        pad_dec(n / 10, (w - 1) as nat).push(digit_char((n % 10) as int))
    }
}

pub open spec fn all_digits(s: Seq<char>) -> bool {
    forall|i: int| 0 <= i < s.len() ==> is_digit_char(#[trigger] s[i])
}

/// The number a digit string denotes.
pub open spec fn digits_val(s: Seq<char>) -> nat
    decreases s.len(),
{
    if s.len() == 0 {
        0
    } else {
        digits_val(s.drop_last()) * 10 + (if is_digit_char(s.last()) {
            digit_of(s.last())
        } else {
            0
        }) as nat
    }
}

proof fn lemma_digit_char_val(d: int)
    requires
        0 <= d < 10,
    ensures
        is_digit_char(digit_char(d)),
        digit_of(digit_char(d)) == d,
{
    if d == 0 {
        assert(digit_char(0) == '0');
    } else if d == 1 {
        assert(digit_char(1) == '1');
    } else if d == 2 {
        assert(digit_char(2) == '2');
    } else if d == 3 {
        assert(digit_char(3) == '3');
    } else if d == 4 {
        assert(digit_char(4) == '4');
    } else if d == 5 {
        assert(digit_char(5) == '5');
    } else if d == 6 {
        assert(digit_char(6) == '6');
    } else if d == 7 {
        assert(digit_char(7) == '7');
    } else if d == 8 {
        assert(digit_char(8) == '8');
    } else {
        assert(digit_char(9) == '9');
    }
}

proof fn lemma_digit_char_of(c: char)
    requires
        is_digit_char(c),
    ensures
        digit_char(digit_of(c)) == c,
        0 <= digit_of(c) < 10,
{
    lemma_digit_char_val(digit_of(c));
    assert(digit_char(digit_of(c)) as int == c as int);
}

proof fn lemma_pad_dec_shape(n: nat, w: nat)
    ensures
        pad_dec(n, w).len() == w,
        all_digits(pad_dec(n, w)),
    decreases w,
{
    if w > 0 {
        lemma_pad_dec_shape(n / 10, (w - 1) as nat);
        lemma_digit_char_val((n % 10) as int);
    }
}

proof fn lemma_pad_dec_val(n: nat, w: nat)
    requires
        n < pow10(w),
    ensures
        digits_val(pad_dec(n, w)) == n,
    decreases w,
{
    if w == 0 {
        assert(n == 0);
    } else {
        let p = pow10((w - 1) as nat);
        assert(n / 10 < p) by (nonlinear_arith)
            requires
                n < 10 * p,
                p > 0,
        ;
        lemma_pad_dec_val(n / 10, (w - 1) as nat);
        lemma_pad_dec_shape(n / 10, (w - 1) as nat);
        let s = pad_dec(n, w);
        assert(s.drop_last() =~= pad_dec(n / 10, (w - 1) as nat));
        lemma_digit_char_val((n % 10) as int);
        assert(digits_val(s) == (n / 10) * 10 + n % 10);
        vstd::arithmetic::div_mod::lemma_fundamental_div_mod(n as int, 10);
    }
}

proof fn lemma_pad_dec_unique(s: Seq<char>, n: nat, w: nat)
    requires
        s.len() == w,
        all_digits(s),
        digits_val(s) == n,
        n < pow10(w),
    ensures
        s == pad_dec(n, w),
    decreases w,
{
    if w == 0 {
        assert(s =~= pad_dec(n, w));
    } else {
        let last = s.last();
        let d = digit_of(last);
        lemma_digit_char_of(last);
        let q = digits_val(s.drop_last());
        assert(n == q * 10 + d);
        vstd::arithmetic::div_mod::lemma_fundamental_div_mod_converse(n as int, 10, q as int, d);
        assert(q == n / 10 && d == n % 10);
        let p = pow10((w - 1) as nat);
        assert(n / 10 < p) by (nonlinear_arith)
            requires
                n < 10 * p,
                p > 0,
        ;
        lemma_pad_dec_unique(s.drop_last(), q, (w - 1) as nat);
        assert(s =~= s.drop_last().push(last));
        assert(s =~= pad_dec(n, w));
    }
}

proof fn lemma_pow10_20()
    ensures
        pow10(20) == 100000000000000000000,
{
    assert(pow10(0) == 1);
    assert(pow10(1) == 10);
    assert(pow10(2) == 100);
    assert(pow10(3) == 1000);
    assert(pow10(4) == 10000);
    assert(pow10(5) == 100000);
    assert(pow10(6) == 1000000);
    assert(pow10(7) == 10000000);
    assert(pow10(8) == 100000000);
    assert(pow10(9) == 1000000000);
    assert(pow10(10) == 10000000000);
    assert(pow10(11) == 100000000000);
    assert(pow10(12) == 1000000000000);
    assert(pow10(13) == 10000000000000);
    assert(pow10(14) == 100000000000000);
    assert(pow10(15) == 1000000000000000);
    assert(pow10(16) == 10000000000000000);
    assert(pow10(17) == 100000000000000000);
    assert(pow10(18) == 1000000000000000000);
    assert(pow10(19) == 10000000000000000000);
}

proof fn lemma_pow10_increases(a: nat, b: nat)
    requires
        a <= b,
    ensures
        pow10(a) <= pow10(b),
    decreases b,
{
    if a < b {
        lemma_pow10_increases(a, (b - 1) as nat);
    }
}

/// The compact signed-token encoding over plain values: the fixed-length
/// CSRF token, the verified flag, the zero-padded expiry, and the subject as
/// the remainder, separated by dots.
pub open spec fn encode_parts(sub: Seq<char>, verified: bool, csrf: Seq<char>, exp: u64) -> Seq<
    char,
> {
    csrf + seq!['.'] + (if verified {
        seq!['1']
    } else {
        seq!['0']
    }) + seq!['.'] + pad_dec(exp as nat, 20) + seq!['.'] + sub
}

/// The encoding of a claims value.
pub open spec fn encode_claims(c: TokenClaims) -> Seq<char> {
    encode_parts(c.sub@, c.verified, c.csrf_token@, c.exp)
}

proof fn lemma_encode_parts_indexing(sub: Seq<char>, verified: bool, csrf: Seq<char>, exp: u64)
    requires
        csrf.len() == 32,
    ensures
        encode_parts(sub, verified, csrf, exp).len() == 56 + sub.len(),
        forall|i: int|
            0 <= i < 32 ==> #[trigger] encode_parts(sub, verified, csrf, exp)[i] == csrf[i],
        encode_parts(sub, verified, csrf, exp)[32] == '.',
        encode_parts(sub, verified, csrf, exp)[33] == (if verified {
            '1'
        } else {
            '0'
        }),
        encode_parts(sub, verified, csrf, exp)[34] == '.',
        forall|i: int|
            0 <= i < 20 ==> #[trigger] encode_parts(sub, verified, csrf, exp)[35 + i] == pad_dec(
                exp as nat,
                20,
            )[i],
        encode_parts(sub, verified, csrf, exp)[55] == '.',
        forall|i: int|
            0 <= i < sub.len() ==> #[trigger] encode_parts(sub, verified, csrf, exp)[56 + i]
                == sub[i],
        csrf == encode_parts(sub, verified, csrf, exp).subrange(0, 32),
        pad_dec(exp as nat, 20) == encode_parts(sub, verified, csrf, exp).subrange(35, 55),
        sub == encode_parts(sub, verified, csrf, exp).subrange(
            56,
            encode_parts(sub, verified, csrf, exp).len() as int,
        ),
{
    let e = encode_parts(sub, verified, csrf, exp);
    lemma_pad_dec_shape(exp as nat, 20);
    assert(csrf =~= e.subrange(0, 32));
    assert(pad_dec(exp as nat, 20) =~= e.subrange(35, 55));
    assert(sub =~= e.subrange(56, e.len() as int));
}

/// Two encodings over well-formed parts agree only when every part agrees:
/// the compact token pins down the claims it carries.
pub proof fn lemma_encode_parts_injective(
    sub1: Seq<char>,
    v1: bool,
    csrf1: Seq<char>,
    exp1: u64,
    sub2: Seq<char>,
    v2: bool,
    csrf2: Seq<char>,
    exp2: u64,
)
    requires
        csrf1.len() == 32,
        csrf2.len() == 32,
        encode_parts(sub1, v1, csrf1, exp1) == encode_parts(sub2, v2, csrf2, exp2),
    ensures
        csrf1 == csrf2,
        v1 == v2,
        exp1 == exp2,
        sub1 == sub2,
{
    lemma_encode_parts_indexing(sub1, v1, csrf1, exp1);
    lemma_encode_parts_indexing(sub2, v2, csrf2, exp2);
    assert(encode_parts(sub1, v1, csrf1, exp1)[33] == encode_parts(sub2, v2, csrf2, exp2)[33]);
    assert(pad_dec(exp1 as nat, 20) == pad_dec(exp2 as nat, 20));
    lemma_pow10_20();
    lemma_pad_dec_val(exp1 as nat, 20);
    lemma_pad_dec_val(exp2 as nat, 20);
    assert(encode_parts(sub1, v1, csrf1, exp1).len() == encode_parts(sub2, v2, csrf2, exp2).len());
}

/// Two well-formed claims with the same encoding agree in every field: the
/// token pins its claims down, so the CSRF token a caller reads back out of
/// an access token is exactly the one that was embedded when it was minted.
pub proof fn lemma_encode_claims_injective(a: TokenClaims, b: TokenClaims)
    requires
        wf_claims(a),
        wf_claims(b),
        encode_claims(a) == encode_claims(b),
    ensures
        a.csrf_token@ == b.csrf_token@,
        a.verified == b.verified,
        a.exp == b.exp,
        a.sub@ == b.sub@,
{
    lemma_encode_parts_injective(
        a.sub@,
        a.verified,
        a.csrf_token@,
        a.exp,
        b.sub@,
        b.verified,
        b.csrf_token@,
        b.exp,
    );
}

/// `n` rendered as exactly `w` decimal digits.
fn dec_fixed(n: u64, w: usize) -> (r: String)
    ensures
        r@ == pad_dec(n as nat, w as nat),
    decreases w,
{
    if w == 0 {
        let r = String::new();
        proof {
            assert(r@ =~= pad_dec(n as nat, 0));
        }
        r
    } else {
        let mut s = dec_fixed(n / 10, w - 1);
        let d = (n % 10) as usize;
        let table = "0123456789";
        proof {
            reveal_strlit("0123456789");
            assert(table@ =~= seq!['0', '1', '2', '3', '4', '5', '6', '7', '8', '9']);
        }
        let piece = table.substring_char(d, d + 1);
        s.append(piece);
        proof {
            assert(piece@ =~= seq![digit_char((n % 10) as int)]);
            assert(s@ =~= pad_dec(n as nat, w as nat));
        }
        s
    }
}

/// Encodes claims into their compact opaque representation. The encoding is
/// total and deterministic; `lemma_encode_claims_injective` is what makes it
/// a faithful carrier of its claims.
pub fn encode_token(claims: &TokenClaims) -> (r: String)
    ensures
        r@ == encode_claims(*claims),
{
    let mut out = claims.csrf_token.clone();
    proof {
        reveal_strlit(".");
        reveal_strlit("1");
        reveal_strlit("0");
        assert("."@ =~= seq!['.']);
        assert("1"@ =~= seq!['1']);
        assert("0"@ =~= seq!['0']);
    }
    out.append(".");
    if claims.verified {
        out.append("1");
    } else {
        out.append("0");
    }
    out.append(".");
    let expiry = dec_fixed(claims.exp, 20);
    out.append(expiry.as_str());
    out.append(".");
    out.append(claims.sub.as_str());
    proof {
        assert(out@ =~= encode_claims(*claims));
    }
    out
}

/// Decodes a compact token back into claims. Returns `None` exactly on the
/// strings that no well-formed claims value encodes to.
pub fn decode_token(token: &str) -> (r: Option<TokenClaims>)
    ensures
        r matches Some(c) ==> wf_claims(c) && token@ == encode_claims(c),
        forall|c: TokenClaims|
            wf_claims(c) && token@ == encode_claims(c) ==> r is Some,
{
    let n = token.unicode_len();
    if n < 56 {
        proof {
            assert forall|c: TokenClaims|
                wf_claims(c) && token@ == encode_claims(c) implies false by {
                lemma_encode_parts_indexing(c.sub@, c.verified, c.csrf_token@, c.exp);
            }
        }
        return None;
    }
    if token.get_char(32) != '.' || token.get_char(34) != '.' || token.get_char(55) != '.' {
        proof {
            assert forall|c: TokenClaims|
                wf_claims(c) && token@ == encode_claims(c) implies false by {
                lemma_encode_parts_indexing(c.sub@, c.verified, c.csrf_token@, c.exp);
            }
        }
        return None;
    }
    let vch = token.get_char(33);
    let verified = if vch == '1' {
        true
    } else if vch == '0' {
        false
    } else {
        proof {
            assert forall|c: TokenClaims|
                wf_claims(c) && token@ == encode_claims(c) implies false by {
                lemma_encode_parts_indexing(c.sub@, c.verified, c.csrf_token@, c.exp);
            }
        }
        return None;
    };
    let mut acc: u128 = 0;
    let mut j: usize = 0;
    proof {
        lemma_pow10_20();
    }
    while j < 20
        invariant
            n == token@.len(),
            n >= 56,
            j <= 20,
            all_digits(token@.subrange(35, 35 + j as int)),
            acc == digits_val(token@.subrange(35, 35 + j as int)),
            acc < pow10(j as nat),
            pow10(20) == 100000000000000000000,
        decreases 20 - j,
    {
        let c = token.get_char(35 + j);
        if !(c >= '0' && c <= '9') {
            proof {
                assert forall|cl: TokenClaims|
                    wf_claims(cl) && token@ == encode_claims(cl) implies false by {
                    lemma_encode_parts_indexing(cl.sub@, cl.verified, cl.csrf_token@, cl.exp);
                    lemma_pad_dec_shape(cl.exp as nat, 20);
                    assert(is_digit_char(token@[35 + j as int]));
                }
            }
            return None;
        }
        let d = (c as u32 - 48) as u128;
        proof {
            lemma_pow10_increases(j as nat, 20);
            assert(acc * 10 + d < pow10((j + 1) as nat)) by (nonlinear_arith)
                requires
                    acc < pow10(j as nat),
                    d < 10,
                    pow10((j + 1) as nat) == 10 * pow10(j as nat),
            ;
            lemma_pow10_increases((j + 1) as nat, 20);
            let pre = token@.subrange(35, 35 + j as int);
            let post = token@.subrange(35, 35 + (j + 1) as int);
            assert(post.drop_last() =~= pre);
            assert(post.last() == token@[35 + j as int]);
        }
        acc = acc * 10 + d;
        j += 1;
    }
    if acc > 18446744073709551615u128 {
        proof {
            assert forall|cl: TokenClaims|
                wf_claims(cl) && token@ == encode_claims(cl) implies false by {
                lemma_encode_parts_indexing(cl.sub@, cl.verified, cl.csrf_token@, cl.exp);
                lemma_pad_dec_shape(cl.exp as nat, 20);
                assert(token@.subrange(35, 55) =~= pad_dec(cl.exp as nat, 20));
                lemma_pad_dec_val(cl.exp as nat, 20);
            }
        }
        return None;
    }
    let exp = acc as u64;
    let csrf_token = String::from_str(token.substring_char(0, 32));
    let sub = String::from_str(token.substring_char(56, n));
    let claims = TokenClaims { sub, verified, csrf_token, exp };
    proof {
        let ds = token@.subrange(35, 55);
        lemma_pad_dec_unique(ds, exp as nat, 20);
        lemma_encode_parts_indexing(claims.sub@, claims.verified, claims.csrf_token@, claims.exp);
        assert(token@ =~= encode_claims(claims)) by {
            assert(claims.csrf_token@ =~= token@.subrange(0, 32));
            assert(claims.sub@ =~= token@.subrange(56, n as int));
            assert forall|i: int| 0 <= i < token@.len() implies token@[i] == encode_claims(
                claims,
            )[i] by {
                if i < 32 {
                    assert(encode_claims(claims)[i] == claims.csrf_token@[i]);
                    assert(claims.csrf_token@[i] == token@.subrange(0, 32)[i]);
                } else if 35 <= i < 55 {
                    assert(encode_claims(claims)[i] == pad_dec(exp as nat, 20)[i - 35]);
                    assert(pad_dec(exp as nat, 20)[i - 35] == ds[i - 35]);
                } else if 56 <= i {
                    assert(encode_claims(claims)[i] == claims.sub@[i - 56]);
                    assert(claims.sub@[i - 56] == token@.subrange(56, n as int)[i - 56]);
                }
            }
        }
    }
    Some(claims)
}

/// Mints a fresh token pair: random CSRF token, claims binding it to the
/// subject with the configured expiry, and a random opaque refresh token.
/// The CSRF token embedded in the claims is the one handed back to the
/// caller — the double-submit binding.
pub fn mint_new_tokens(verified: bool, user_id: &str, now: u64, auth_token_ttl: u64) -> (r:
    Tokens)
    requires
        now + auth_token_ttl <= u64::MAX,
    ensures
        wf_claims(r.auth_token_claims),
        r.auth_token_claims.sub@ == user_id@,
        r.auth_token_claims.verified == verified,
        r.auth_token_claims.exp == now + auth_token_ttl,
        r.refresh_token matches Some(t) && t@.len() == REFRESH_TOKEN_LENGTH,
{
    let csrf_token = generate_random_string(CSRF_TOKEN_LENGTH);
    let refresh_token = generate_random_string(REFRESH_TOKEN_LENGTH);
    let claims = TokenClaims {
        sub: String::from_str(user_id),
        verified,
        csrf_token,
        exp: now + auth_token_ttl,
    };
    Tokens { auth_token_claims: claims, refresh_token: Some(refresh_token) }
}

/// Rotates the session's refresh token: a fresh random token replaces the
/// previous one, which is handed back so the caller can invalidate it in
/// storage — refresh tokens are single-use. The access-token claims are
/// untouched.
pub fn rotate_refresh_token(tokens: &mut Tokens) -> (invalidated: Option<String>)
    ensures
        final(tokens).refresh_token matches Some(t) && t@.len() == REFRESH_TOKEN_LENGTH,
        invalidated == old(tokens).refresh_token,
        final(tokens).auth_token_claims == old(tokens).auth_token_claims,
{
    let fresh = generate_random_string(REFRESH_TOKEN_LENGTH);
    let invalidated = tokens.refresh_token.take();
    tokens.refresh_token = Some(fresh);
    invalidated
}

} // verus!
