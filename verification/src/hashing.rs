//! A stable, non-cryptographic hash of a character sequence and its rendering
//! as lowercase hexadecimal. The cache keys pages by this hash of their URL,
//! so the one property that matters is determinism: the hash is a pure
//! function of the characters.
//!
//! The hash is FNV-1a on 64 bits, folded over the code point of each
//! character in turn.

use vstd::prelude::*;

verus! {

/// The FNV-1a 64-bit offset basis.
pub const FNV_OFFSET: u64 = 0xcbf2_9ce4_8422_2325;

/// The FNV-1a 64-bit prime.
pub const FNV_PRIME: u64 = 0x0000_0100_0000_01b3;

/// One round of FNV-1a: fold one character into the running hash.
pub open spec fn fnv1a_step(h: u64, c: char) -> u64 {
    vstd::wrapping::u64_specs::wrapping_mul(h ^ (c as u64), FNV_PRIME)
}

/// The FNV-1a hash of a whole character sequence.
pub open spec fn fnv1a(s: Seq<char>) -> u64
    decreases s.len(),
{
    if s.len() == 0 {
        FNV_OFFSET
    } else {
        fnv1a_step(fnv1a(s.drop_last()), s.last())
    }
}

/// Computes `fnv1a` over the characters of a string.
pub fn hash_chars(s: &str) -> (h: u64)
    ensures
        h == fnv1a(s@),
{
    let n = s.unicode_len();
    let mut h: u64 = FNV_OFFSET;
    let mut i: usize = 0;
    while i < n
        invariant
            n == s@.len(),
            i <= n,
            h == fnv1a(s@.subrange(0, i as int)),
        decreases n - i,
    {
        let c = s.get_char(i);
        proof {
            let pre = s@.subrange(0, i as int);
            let post = s@.subrange(0, i + 1 as int);
            assert(post.drop_last() =~= pre);
            assert(post.last() == s@[i as int]);
        }
        h = (h ^ (c as u64)).wrapping_mul(FNV_PRIME);
        i = i + 1;
    }
    proof {
        assert(s@.subrange(0, n as int) =~= s@);
    }
    h
}

/// The lowercase hexadecimal digit for a value below sixteen.
pub open spec fn hex_digit(d: int) -> char {
    if d == 0 { '0' } else if d == 1 { '1' } else if d == 2 { '2' } else if d == 3 { '3' }
    else if d == 4 { '4' } else if d == 5 { '5' } else if d == 6 { '6' } else if d == 7 { '7' }
    else if d == 8 { '8' } else if d == 9 { '9' } else if d == 10 { 'a' } else if d == 11 { 'b' }
    else if d == 12 { 'c' } else if d == 13 { 'd' } else if d == 14 { 'e' } else { 'f' }
}

/// The shortest lowercase hexadecimal rendering of a number, most significant
/// digit first; zero renders as a single `'0'`.
pub open spec fn hex_rep(n: nat) -> Seq<char>
    decreases n,
{
    if n < 16 {
        seq![hex_digit(n as int)]
    } else {
        hex_rep(n / 16).push(hex_digit((n % 16) as int))
    }
}

/// A hex rendering has at least one digit, and at least two from sixteen on.
pub proof fn lemma_hex_rep_len(n: nat)
    ensures
        hex_rep(n).len() >= 1,
        n >= 16 ==> hex_rep(n).len() >= 2,
    decreases n,
{
    if n >= 16 {
        lemma_hex_rep_len(n / 16);
    }
}

/// Distinct numbers render as distinct hex strings.
pub proof fn lemma_hex_rep_injective(m: nat, n: nat)
    requires
        hex_rep(m) == hex_rep(n),
    ensures
        m == n,
    decreases m,
{
    if m < 16 && n < 16 {
        assert(hex_rep(m)[0] == hex_digit(m as int));
        assert(hex_rep(n)[0] == hex_digit(n as int));
        assert(m == n);
    } else if m < 16 && n >= 16 {
        lemma_hex_rep_len(n);
        assert(false);
    } else if m >= 16 && n < 16 {
        lemma_hex_rep_len(m);
        assert(false);
    } else {
        let a = hex_rep(m / 16);
        let b = hex_rep(n / 16);
        let x = hex_digit((m % 16) as int);
        let y = hex_digit((n % 16) as int);
        assert(hex_rep(m) == a.push(x));
        assert(hex_rep(n) == b.push(y));
        assert(a.push(x).last() == x);
        assert(b.push(y).last() == y);
        assert(x == y);
        assert(m % 16 == n % 16);
        assert(a =~= b) by {
            assert(a.push(x).len() == a.len() + 1);
            assert(b.push(y).len() == b.len() + 1);
            assert forall|i: int| 0 <= i < a.len() implies a[i] == b[i] by {
                assert(a.push(x)[i] == a[i]);
                assert(b.push(y)[i] == b[i]);
            }
        }
        lemma_hex_rep_injective(m / 16, n / 16);
        assert(m == 16 * (m / 16) + m % 16);
        assert(n == 16 * (n / 16) + n % 16);
    }
}

/// One hexadecimal digit as a string slice.
fn hex_digit_str(d: u64) -> (r: &'static str)
    requires
        d < 16,
    ensures
        r@ =~= seq![hex_digit(d as int)],
{
    proof {
        reveal_strlit("0"); reveal_strlit("1"); reveal_strlit("2"); reveal_strlit("3");
        reveal_strlit("4"); reveal_strlit("5"); reveal_strlit("6"); reveal_strlit("7");
        reveal_strlit("8"); reveal_strlit("9"); reveal_strlit("a"); reveal_strlit("b");
        reveal_strlit("c"); reveal_strlit("d"); reveal_strlit("e"); reveal_strlit("f");
    }
    if d == 0 { "0" } else if d == 1 { "1" } else if d == 2 { "2" } else if d == 3 { "3" }
    else if d == 4 { "4" } else if d == 5 { "5" } else if d == 6 { "6" } else if d == 7 { "7" }
    else if d == 8 { "8" } else if d == 9 { "9" } else if d == 10 { "a" } else if d == 11 { "b" }
    else if d == 12 { "c" } else if d == 13 { "d" } else if d == 14 { "e" } else { "f" }
}

/// Renders a number in lowercase hexadecimal, as `hex_rep` describes.
pub fn hex_string(n: u64) -> (s: String)
    ensures
        s@ == hex_rep(n as nat),
    decreases n,
{
    let d: u64 = n % 16;
    let digit = hex_digit_str(d);
    if n < 16 {
        String::from_str(digit)
    } else {
        let rest = hex_string(n / 16);
        proof {
            assert(rest@ + digit@ =~= hex_rep((n / 16) as nat).push(hex_digit((n % 16) as int)));
        }
        rest.concat(digit)
    }
}

} // verus!
