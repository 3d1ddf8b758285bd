//! The search target: a validated hexadecimal prefix, and the matcher that
//! tests a generated address against it.

use vstd::prelude::*;

use crate::config::ConfigError;

verus! {

/// The fixed marker that every canonical address string begins with.
pub open spec fn marker() -> Seq<char> {
    seq!['0', 'x']
}

/// A character is a hexadecimal digit: `0-9`, `a-f` or `A-F`.
pub open spec fn is_hex_digit_char(c: char) -> bool {
    (48 <= c as u32 && c as u32 <= 57)  // '0'..='9'
    || (97 <= c as u32 && c as u32 <= 102)  // 'a'..='f'
    || (65 <= c as u32 && c as u32 <= 70)  // 'A'..='F'
}

/// Every character of the sequence is a hexadecimal digit.
pub open spec fn is_hex_seq(s: Seq<char>) -> bool {
    forall|i: int| 0 <= i < s.len() ==> is_hex_digit_char(s[i])
}

/// `a` begins with `p`: the first `p.len()` characters of `a` equal `p` exactly.
pub open spec fn seq_starts_with(a: Seq<char>, p: Seq<char>) -> bool {
    p.len() <= a.len() && (forall|i: int| 0 <= i < p.len() ==> a[i] == p[i])
}

/// Tests whether `c` is a hexadecimal digit.
pub fn is_hex_digit(c: char) -> (r: bool)
    ensures
        r == is_hex_digit_char(c),
{
    let u = c as u32;
    (48 <= u && u <= 57) || (97 <= u && u <= 102) || (65 <= u && u <= 70)
}

/// Tests whether `address` starts with `prefix`, by exact case-sensitive
/// character comparison.
pub fn prefix_matches(address: &str, prefix: &str) -> (r: bool)
    ensures
        r == seq_starts_with(address@, prefix@),
{
    let plen = prefix.unicode_len();
    let alen = address.unicode_len();
    if plen > alen {
        return false;
    }
    let mut i: usize = 0;
    while i < plen
        invariant
            i <= plen,
            plen <= alen,
            plen == prefix@.len(),
            alen == address@.len(),
            forall|j: int| 0 <= j < i ==> address@[j] == prefix@[j],
        decreases plen - i,
    {
        if address.get_char(i) != prefix.get_char(i) {
            return false;
        }
        i = i + 1;
    }
    true
}

/// `n` repetitions of the character `'0'`.
pub open spec fn zeros(n: nat) -> Seq<char> {
    Seq::new(n, |i: int| '0')
}

/// The count-based input mode normalizes like the literal one: a run of
/// zero digits is all hexadecimal, so the target built from a count of `n`
/// has the same text as the one built from the literal string of `n` `'0'`
/// characters.
pub proof fn lemma_zeros_are_hex(n: nat)
    ensures
        is_hex_seq(zeros(n)),
{
}

/// The validated, normalized search target: the fixed `0x` marker followed
/// by the hexadecimal digits that a matching address must continue with.
pub struct SearchTarget {
    text: String,
}

impl View for SearchTarget {
    type V = Seq<char>;

    closed spec fn view(&self) -> Seq<char> {
        self.text@
    }
}

impl SearchTarget {
    /// The target text is the marker followed by hexadecimal digits only.
    pub open spec fn wf(&self) -> bool {
        &&& self@.len() >= 2
        &&& self@.subrange(0, 2) == marker()
        &&& is_hex_seq(self@.skip(2))
    }

    /// Builds the target from a literal hexadecimal prefix, rejecting any
    /// input that holds a non-hexadecimal character.
    pub fn from_hex(prefix: &str) -> (r: Result<SearchTarget, ConfigError>)
        ensures
            match r {
                Ok(t) => is_hex_seq(prefix@) && t@ == marker() + prefix@ && t.wf(),
                Err(e) => !is_hex_seq(prefix@) && e == ConfigError::NonHexPrefix,
            },
    {
        let n = prefix.unicode_len();
        let mut i: usize = 0;
        while i < n
            invariant
                i <= n,
                n == prefix@.len(),
                forall|j: int| 0 <= j < i ==> is_hex_digit_char(prefix@[j]),
            decreases n - i,
        {
            if !is_hex_digit(prefix.get_char(i)) {
                return Err(ConfigError::NonHexPrefix);
            }
            i = i + 1;
        }
        let text = String::from_str("0x").concat(prefix);
        proof {
            reveal_strlit("0x");
            assert(text@ =~= marker() + prefix@);
            assert(text@.subrange(0, 2) =~= marker());
            assert(text@.skip(2) =~= prefix@);
        }
        Ok(SearchTarget { text })
    }

    /// Builds the target in the count-based input mode: `count` leading zero
    /// digits. It normalizes to the same representation as the literal mode
    /// on a string of `count` `'0'` characters.
    pub fn from_zero_count(count: usize) -> (t: SearchTarget)
        ensures
            t@ == marker() + zeros(count as nat),
            t.wf(),
    {
        let mut text = String::from_str("0x");
        proof {
            reveal_strlit("0x");
            reveal_strlit("0");
            assert(text@ =~= marker());
        }
        let mut i: usize = 0;
        while i < count
            invariant
                i <= count,
                text@ =~= marker() + zeros(i as nat),
                "0"@ =~= seq!['0'],
            decreases count - i,
        {
            text.append("0");
            i = i + 1;
            proof {
                assert(text@ =~= marker() + zeros(i as nat));
            }
        }
        let t = SearchTarget { text };
        proof {
            assert(t@.subrange(0, 2) =~= marker());
            assert(t@.skip(2) =~= zeros(count as nat));
        }
        t
    }

    /// The normalized target text, marker included.
    pub fn as_str(&self) -> (s: &str)
        ensures
            s@ == self@,
    {
        self.text.as_str()
    }

    /// Tests whether a generated address satisfies this target: the address
    /// starts with the full normalized target text.
    pub fn matches_address(&self, address: &str) -> (r: bool)
        ensures
            r == seq_starts_with(address@, self@),
    {
        prefix_matches(address, self.text.as_str())
    }
}

} // verus!
