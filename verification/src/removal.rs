//! Accounting of a removal sweep: how many directories and how many bytes
//! were deleted.  Removals form a commutative monoid under [`Removal::combine`]
//! with [`Removal::empty`] as the identity; saturation at `u64::MAX` keeps the
//! tally total without a possibility of overflow.

use vstd::prelude::*;

verus! {

/// Saturating addition on `u64`, the arithmetic of the tally.
pub open spec fn sat_add(a: u64, b: u64) -> u64 {
    if a + b > u64::MAX {
        u64::MAX
    } else {
        (a + b) as u64
    }
}

/// The decimal digit character for a value below ten.
pub open spec fn dec_digit(d: nat) -> char {
    if d == 0 {
        '0'
    } else if d == 1 {
        '1'
    } else if d == 2 {
        '2'
    } else if d == 3 {
        '3'
    } else if d == 4 {
        '4'
    } else if d == 5 {
        '5'
    } else if d == 6 {
        '6'
    } else if d == 7 {
        '7'
    } else if d == 8 {
        '8'
    } else {
        '9'
    }
}

/// The decimal rendering of a natural number, most significant digit first.
pub open spec fn dec_seq(n: nat) -> Seq<char>
    decreases n,
{
    if n < 10 {
        seq![dec_digit(n)]
    } else {
        dec_seq(n / 10).push(dec_digit(n % 10))
    }
}

/// What the human-readable summary of a removal says, depending on which
/// fields are nonzero.
pub open spec fn render_spec(dirs: u64, bytes: u64) -> Seq<char> {
    if dirs == 0 && bytes == 0 {
        "No cache entries removed"@
    } else if dirs == 0 {
        "Removed "@ + dec_seq(bytes as nat) + " bytes"@
    } else if bytes == 0 {
        "Removed "@ + dec_seq(dirs as nat) + " directories"@
    } else {
        "Removed "@ + dec_seq(dirs as nat) + " directories ("@ + dec_seq(bytes as nat) + " bytes)"@
    }
}

/// The tally of one removal operation: directories removed and bytes freed.
#[derive(Debug, Clone, Copy)]
pub struct Removal {
    /// The number of directories removed.
    pub dirs: u64,
    /// The number of bytes removed.
    pub bytes: u64,
}

impl Removal {
    /// A removal with the given tallies.
    pub fn new(dirs: u64, bytes: u64) -> (r: Removal)
        ensures
            r.dirs == dirs,
            r.bytes == bytes,
    {
        Removal { dirs, bytes }
    }

    /// The identity of [`Removal::combine`]: nothing removed yet.
    pub fn empty() -> (r: Removal)
        ensures
            r.dirs == 0,
            r.bytes == 0,
    {
        Removal { dirs: 0, bytes: 0 }
    }

    /// Whether nothing at all was removed.
    pub fn is_empty(&self) -> (r: bool)
        ensures
            r == (self.dirs == 0 && self.bytes == 0),
    {
        self.dirs == 0 && self.bytes == 0
    }

    /// The sum of two tallies, saturating at `u64::MAX`.
    pub fn combine(self, other: Removal) -> (r: Removal)
        ensures
            r == spec_combine(self, other),
    {
        Removal {
            dirs: self.dirs.saturating_add(other.dirs),
            bytes: self.bytes.saturating_add(other.bytes),
        }
    }

    /// Add another tally into this one, saturating at `u64::MAX`.
    pub fn combine_assign(&mut self, other: Removal)
        ensures
            *final(self) == spec_combine(*old(self), other),
    {
        self.dirs = self.dirs.saturating_add(other.dirs);
        self.bytes = self.bytes.saturating_add(other.bytes);
    }

    /// The human-readable summary of the removal.
    pub fn to_string(&self) -> (r: String)
        ensures
            r@ == render_spec(self.dirs, self.bytes),
    {
        if self.dirs == 0 && self.bytes == 0 {
            let r = String::from_str("No cache entries removed");
            r
        } else if self.dirs == 0 {
            let mut r = String::from_str("Removed ");
            let digits = u64_to_decimal(self.bytes);
            r.append(digits.as_str());
            r.append(" bytes");
            r
        } else if self.bytes == 0 {
            let mut r = String::from_str("Removed ");
            let digits = u64_to_decimal(self.dirs);
            r.append(digits.as_str());
            r.append(" directories");
            r
        } else {
            let mut r = String::from_str("Removed ");
            let dir_digits = u64_to_decimal(self.dirs);
            r.append(dir_digits.as_str());
            r.append(" directories (");
            let byte_digits = u64_to_decimal(self.bytes);
            r.append(byte_digits.as_str());
            r.append(" bytes)");
            r
        }
    }
}

impl Default for Removal {
    /// The empty tally.
    fn default() -> (r: Removal)
        ensures
            r.dirs == 0,
            r.bytes == 0,
    {
        Removal { dirs: 0, bytes: 0 }
    }
}

/// The sum of two tallies, field by field, saturating at `u64::MAX`.
pub open spec fn spec_combine(a: Removal, b: Removal) -> Removal {
    Removal { dirs: sat_add(a.dirs, b.dirs), bytes: sat_add(a.bytes, b.bytes) }
}

/// Combining with the empty tally, on either side, changes nothing.
pub proof fn lemma_combine_identity(a: Removal)
    ensures
        spec_combine(a, Removal { dirs: 0, bytes: 0 }) == a,
        spec_combine(Removal { dirs: 0, bytes: 0 }, a) == a,
{
}

/// Combining tallies is commutative.
pub proof fn lemma_combine_commutative(a: Removal, b: Removal)
    ensures
        spec_combine(a, b) == spec_combine(b, a),
{
}

/// Combining tallies is associative.
pub proof fn lemma_combine_associative(a: Removal, b: Removal, c: Removal)
    ensures
        spec_combine(spec_combine(a, b), c) == spec_combine(a, spec_combine(b, c)),
{
}

/// The single-character string for a decimal digit.
fn digit_string(d: u64) -> (r: String)
    requires
        d < 10,
    ensures
        r@ =~= seq![dec_digit(d as nat)],
{
    proof {
        reveal_strlit("0");
        reveal_strlit("1");
        reveal_strlit("2");
        reveal_strlit("3");
        reveal_strlit("4");
        reveal_strlit("5");
        reveal_strlit("6");
        reveal_strlit("7");
        reveal_strlit("8");
        reveal_strlit("9");
    }
    if d == 0 {
        String::from_str("0")
    } else if d == 1 {
        String::from_str("1")
    } else if d == 2 {
        String::from_str("2")
    } else if d == 3 {
        String::from_str("3")
    } else if d == 4 {
        String::from_str("4")
    } else if d == 5 {
        String::from_str("5")
    } else if d == 6 {
        String::from_str("6")
    } else if d == 7 {
        String::from_str("7")
    } else if d == 8 {
        String::from_str("8")
    } else {
        String::from_str("9")
    }
}

/// Render a `u64` in decimal, most significant digit first.
pub fn u64_to_decimal(n: u64) -> (s: String)
    ensures
        s@ == dec_seq(n as nat),
    decreases n,
{
    if n < 10 {
        digit_string(n)
    } else {
        proof {
            assert(n / 10 < n) by (nonlinear_arith)
                requires
                    n >= 10,
            ;
        }
        let mut s = u64_to_decimal(n / 10);
        let last = digit_string(n % 10);
        s.append(last.as_str());
        proof {
            assert(s@ =~= dec_seq(n as nat));
        }
        s
    }
}

} // verus!
