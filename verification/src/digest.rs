//! The cache key: a deterministic digest of the fully-qualified download URL,
//! rendered as sixteen hexadecimal digits.  The digest is a 64-bit FNV-1a
//! fold over the characters of the URL; two sources serving identical bytes
//! at different URLs therefore key distinct cache entries.

use vstd::prelude::*;

verus! {

/// The FNV-1a offset basis.
pub open spec fn fnv_offset() -> u64 {
    0xcbf29ce484222325u64
}

/// The FNV-1a prime.
pub open spec fn fnv_prime() -> u64 {
    0x100000001b3u64
}

/// One FNV-1a round: fold a character into the running hash.
pub open spec fn fnv_step(h: u64, c: char) -> u64 {
    vstd::wrapping::u64_specs::wrapping_mul(h ^ (c as u64), fnv_prime())
}

/// The FNV-1a hash of a character sequence.
pub open spec fn fnv_fold(s: Seq<char>) -> u64
    decreases s.len(),
{
    if s.len() == 0 {
        fnv_offset()
    } else {
        fnv_step(fnv_fold(s.drop_last()), s.last())
    }
}

/// The hexadecimal digit character for a value below sixteen.
pub open spec fn hex_digit(d: u64) -> char {
    if d == 0 {
        '0'
    } else if d == 1 {
        '1'
    } else if d == 2 {
        '2'
    } else if d == 3 {
        '3'
    } else if d == 4 {
        '4'
    } else if d == 5 {
        '5'
    } else if d == 6 {
        '6'
    } else if d == 7 {
        '7'
    } else if d == 8 {
        '8'
    } else if d == 9 {
        '9'
    } else if d == 10 {
        'a'
    } else if d == 11 {
        'b'
    } else if d == 12 {
        'c'
    } else if d == 13 {
        'd'
    } else if d == 14 {
        'e'
    } else {
        'f'
    }
}

/// The last `digits` hexadecimal digits of `h`, most significant first.
pub open spec fn hex_seq(h: u64, digits: nat) -> Seq<char>
    decreases digits,
{
    if digits == 0 {
        Seq::empty()
    } else {
        hex_seq(h / 16, (digits - 1) as nat).push(hex_digit(h % 16))
    }
}

/// What the cache key of a URL string is: its FNV-1a hash, as sixteen
/// hexadecimal digits.
pub open spec fn digest_spec(s: Seq<char>) -> Seq<char> {
    hex_seq(fnv_fold(s), 16)
}

/// The single-character string for a hexadecimal digit.
fn hex_digit_string(d: u64) -> (r: String)
    requires
        d < 16,
    ensures
        r@ =~= seq![hex_digit(d)],
{
    proof {
        reveal_strlit("0");
        reveal_strlit("1");
        reveal_strlit("2");
        reveal_strlit("3");
        reveal_strlit("4");
        reveal_strlit("5");
        reveal_strlit("6");
        reveal_strlit("7");
        reveal_strlit("8");
        reveal_strlit("9");
        reveal_strlit("a");
        reveal_strlit("b");
        reveal_strlit("c");
        reveal_strlit("d");
        reveal_strlit("e");
        reveal_strlit("f");
    }
    if d == 0 {
        String::from_str("0")
    } else if d == 1 {
        String::from_str("1")
    } else if d == 2 {
        String::from_str("2")
    } else if d == 3 {
        String::from_str("3")
    } else if d == 4 {
        String::from_str("4")
    } else if d == 5 {
        String::from_str("5")
    } else if d == 6 {
        String::from_str("6")
    } else if d == 7 {
        String::from_str("7")
    } else if d == 8 {
        String::from_str("8")
    } else if d == 9 {
        String::from_str("9")
    } else if d == 10 {
        String::from_str("a")
    } else if d == 11 {
        String::from_str("b")
    } else if d == 12 {
        String::from_str("c")
    } else if d == 13 {
        String::from_str("d")
    } else if d == 14 {
        String::from_str("e")
    } else {
        String::from_str("f")
    }
}

/// Render the last `digits` hexadecimal digits of `h`.
fn hex_string(h: u64, digits: u64) -> (s: String)
    ensures
        s@ == hex_seq(h, digits as nat),
    decreases digits,
{
    if digits == 0 {
        String::new()
    } else {
        let mut s = hex_string(h / 16, digits - 1);
        let last = hex_digit_string(h % 16);
        s.append(last.as_str());
        proof {
            assert(s@ =~= hex_seq(h, digits as nat));
        }
        s
    }
}

/// The cache key for a URL string.
pub fn cache_digest(s: &str) -> (r: String)
    ensures
        r@ == digest_spec(s@),
{
    let n = s.unicode_len();
    let mut h: u64 = 0xcbf29ce484222325u64;
    let mut i: usize = 0;
    while i < n
        invariant
            n == s@.len(),
            i <= n,
            h == fnv_fold(s@.subrange(0, i as int)),
        decreases n - i,
    {
        let c = s.get_char(i);
        h = (h ^ (c as u64)).wrapping_mul(0x100000001b3u64);
        proof {
            assert(s@.subrange(0, i + 1).drop_last() =~= s@.subrange(0, i as int));
            assert(s@.subrange(0, i + 1).last() == s@[i as int]);
        }
        i += 1;
    }
    proof {
        assert(s@.subrange(0, n as int) =~= s@);
    }
    hex_string(h, 16)
}

} // verus!
