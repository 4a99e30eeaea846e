use vstd::prelude::*;

use crate::text::{spec_dec, u64_to_string};

verus! {

/// Free-text title filter: the transient edit buffer and whether it is
/// currently being typed.
pub struct FilterState {
    pub active: bool,
    pub text: String,
}

impl Default for FilterState {
    /// Not being typed, empty buffer.
    fn default() -> (r: Self)
        ensures
            !r.active,
            r.text@ == Seq::<char>::empty(),
    {
        FilterState { active: false, text: String::new() }
    }
}

/// Ten to the given power.
pub open spec fn pow10(n: nat) -> int
    decreases n,
{
    if n == 0 {
        1
    } else {
        10 * pow10((n - 1) as nat)
    }
}

proof fn lemma_pow10_monotone(a: nat, b: nat)
    requires
        a <= b,
    ensures
        pow10(a) <= pow10(b),
        pow10(a) >= 1,
    decreases b,
{
    if b > 0 {
        if a <= b - 1 {
            lemma_pow10_monotone(a, (b - 1) as nat);
        } else {
            lemma_pow10_monotone((a - 1) as nat, (b - 1) as nat);
        }
    }
}

/// The concrete powers of ten that the proofs below compare against.
proof fn lemma_pow10_values()
    ensures
        pow10(8) == 100000000,
        pow10(10) == 10000000000,
        pow10(15) == 1000000000000000,
        pow10(16) == 10000000000000000,
{
    reveal_with_fuel(pow10, 17);
}

/// A decimal rendering has at most as many digits as the power bounding it.
pub proof fn lemma_dec_len(n: int, k: nat)
    requires
        0 <= n < pow10(k),
        k >= 1,
    ensures
        spec_dec(n).len() <= k,
    decreases k,
{
    if n < 10 {
    } else {
        if k == 1 {
            assert(pow10(1) == 10 * pow10(0));
            assert(pow10(0) == 1);
            assert(false);
        }
        assert(pow10(k) == 10 * pow10((k - 1) as nat));
        lemma_dec_len(n / 10, (k - 1) as nat);
    }
}

/// Whether a character is a decimal digit.
pub open spec fn spec_is_digit(c: char) -> bool {
    48 <= c as u32 && c as u32 <= 57
}

/// The numeric value of a digit character.
pub open spec fn spec_digit_val(c: char) -> int {
    c as u32 - 48
}

/// The value of a run of digit characters read as a decimal number.
pub open spec fn spec_digits_val(s: Seq<char>) -> int
    decreases s.len(),
{
    if s.len() == 0 {
        0
    } else {
        spec_digits_val(s.drop_last()) * 10 + spec_digit_val(s.last())
    }
}

/// A digit run's value is below ten to its length.
pub proof fn lemma_digits_val_bound(s: Seq<char>)
    requires
        forall|i: int| 0 <= i < s.len() ==> spec_is_digit(s[i]),
    ensures
        0 <= spec_digits_val(s) < pow10(s.len() as nat),
    decreases s.len(),
{
    if s.len() > 0 {
        lemma_digits_val_bound(s.drop_last());
    }
}

/// The index of the first `.` in the text, or its length when there is none.
pub open spec fn spec_dot_pos(s: Seq<char>) -> int
    decreases s.len(),
{
    if s.len() == 0 {
        0
    } else if s[0] == '.' {
        0
    } else {
        1 + spec_dot_pos(s.drop_first())
    }
}

proof fn lemma_dot_pos_prefix(s: Seq<char>, k: int)
    requires
        0 <= k <= s.len(),
        forall|j: int| 0 <= j < k ==> s[j] != '.',
        k == s.len() || s[k] == '.',
    ensures
        spec_dot_pos(s) == k,
    decreases k,
{
    if k == 0 {
    } else {
        lemma_dot_pos_prefix(s.drop_first(), k - 1);
    }
}

/// The integer and fraction parts of a money text, split at the first dot.
pub open spec fn spec_int_part(s: Seq<char>) -> Seq<char> {
    s.subrange(0, spec_dot_pos(s))
}

pub open spec fn spec_frac_part(s: Seq<char>) -> Seq<char> {
    if spec_dot_pos(s) == s.len() {
        Seq::empty()
    } else {
        s.subrange(spec_dot_pos(s) + 1, s.len() as int)
    }
}

/// Whether a text is a well-formed money amount: at least one digit, at most
/// one dot, and nothing else.
pub open spec fn spec_money_ok(s: Seq<char>) -> bool {
    let ip = spec_int_part(s);
    let fp = spec_frac_part(s);
    &&& ip.len() + fp.len() >= 1
    &&& forall|i: int| 0 <= i < ip.len() ==> spec_is_digit(ip[i])
    &&& forall|i: int| 0 <= i < fp.len() ==> spec_is_digit(fp[i])
}

/// The amount in minor units (cents) that a well-formed money text denotes.
/// Fraction digits beyond the second are ignored.
pub open spec fn spec_money_cents(s: Seq<char>) -> int {
    let ip = spec_int_part(s);
    let fp = spec_frac_part(s);
    let f1 = if fp.len() >= 1 {
        spec_digit_val(fp[0])
    } else {
        0
    };
    let f2 = if fp.len() >= 2 {
        spec_digit_val(fp[1])
    } else {
        0
    };
    spec_digits_val(ip) * 100 + f1 * 10 + f2
}

/// What parsing a money text yields: the amount in cents for a well-formed
/// text, nothing otherwise.
pub open spec fn spec_money(s: Seq<char>) -> Option<u64> {
    if spec_money_ok(s) && spec_money_cents(s) <= u64::MAX {
        Some(spec_money_cents(s) as u64)
    } else {
        None
    }
}

/// Parses a money amount written with digits and at most one dot into minor
/// currency units, as the price filter reads its bounds.
pub fn parse_money(s: &str) -> (r: Option<u64>)
    requires
        s@.len() <= 16,
    ensures
        r == spec_money(s@),
        r matches Some(v) ==> v < 100 * pow10(s@.len() as nat),
{
    let len = s.unicode_len();
    let mut i: usize = 0;
    while i < len && s.get_char(i) != '.'
        invariant
            0 <= i <= len,
            len == s@.len(),
            len <= 16,
            forall|j: int| 0 <= j < i ==> s@[j] != '.' && spec_is_digit(s@[j]),
        decreases len - i,
    {
        let c = s.get_char(i);
        let u = c as u32;
        if !(48 <= u && u <= 57) {
            proof {
                // The offending character sits in the integer part.
                lemma_dot_pos_is_dot(s@);
                assert(spec_dot_pos(s@) > i);
                assert(spec_int_part(s@)[i as int] == s@[i as int]);
                assert(!spec_money_ok(s@));
            }
            return None;
        }
        i = i + 1;
    }
    let dp = i;
    proof {
        lemma_dot_pos_prefix(s@, dp as int);
    }
    let frac_len = if dp < len {
        len - dp - 1
    } else {
        0
    };
    if dp == 0 && frac_len == 0 {
        // Nothing but a lone dot, or nothing at all.
        return None;
    }
    // Validate the fraction part.
    let mut j: usize = 0;
    while j < frac_len
        invariant
            0 <= j <= frac_len,
            len == s@.len(),
            len <= 16,
            dp <= len,
            dp == spec_dot_pos(s@),
            dp < len ==> frac_len == len - dp - 1,
            dp == len ==> frac_len == 0,
            forall|k: int| 0 <= k < j ==> spec_is_digit(#[trigger] s@[dp + 1 + k]),
        decreases frac_len - j,
    {
        let c = s.get_char(dp + 1 + j);
        let u = c as u32;
        if !(48 <= u && u <= 57) {
            proof {
                assert(spec_frac_part(s@)[j as int] == s@[dp + 1 + j]);
                assert(!spec_money_ok(s@));
            }
            return None;
        }
        j = j + 1;
    }
    proof {
        assert(forall|k: int|
            0 <= k < spec_frac_part(s@).len() ==> spec_frac_part(s@)[k] == s@[dp + 1 + k]);
    }
    // Accumulate the integer part.
    let mut acc: u64 = 0;
    let mut k: usize = 0;
    while k < dp
        invariant
            0 <= k <= dp <= len <= 16,
            len == s@.len(),
            dp == spec_dot_pos(s@),
            forall|j2: int| 0 <= j2 < dp ==> spec_is_digit(s@[j2]),
            acc == spec_digits_val(s@.subrange(0, k as int)),
            0 <= acc < pow10(k as nat),
        decreases dp - k,
    {
        let c = s.get_char(k);
        let d = (c as u32) as u64 - 48;
        proof {
            lemma_pow10_monotone(k as nat, 15);
            lemma_pow10_values();
            assert(s@.subrange(0, k + 1).drop_last() =~= s@.subrange(0, k as int));
            lemma_digits_val_bound(s@.subrange(0, k + 1));
        }
        acc = acc * 10 + d;
        k = k + 1;
    }
    proof {
        assert(s@.subrange(0, dp as int) =~= spec_int_part(s@));
        lemma_pow10_monotone(dp as nat, 16);
        lemma_pow10_values();
    }
    let f1: u64 = if frac_len >= 1 {
        (s.get_char(dp + 1) as u32) as u64 - 48
    } else {
        0
    };
    let f2: u64 = if frac_len >= 2 {
        (s.get_char(dp + 2) as u32) as u64 - 48
    } else {
        0
    };
    let cents = acc * 100 + f1 * 10 + f2;
    proof {
        assert(spec_money_ok(s@));
        assert(cents == spec_money_cents(s@));
        lemma_pow10_monotone(dp as nat, s@.len() as nat);
        lemma_pow10_monotone(1, s@.len() as nat);
    }
    Some(cents)
}

proof fn lemma_dot_pos_is_dot(s: Seq<char>)
    ensures
        0 <= spec_dot_pos(s) <= s.len(),
        spec_dot_pos(s) < s.len() ==> s[spec_dot_pos(s)] == '.',
    decreases s.len(),
{
    if s.len() > 0 && s[0] != '.' {
        lemma_dot_pos_is_dot(s.drop_first());
    }
}

/// The optional price-range filter edited in its own popup: free-form text
/// per bound, and the bounds that were active when last applied. Active
/// bounds are in minor currency units.
pub struct PriceFilterState {
    pub min_input: String,
    pub max_input: String,
    /// Which bound the popup is editing: 0 for min, 1 for max.
    pub selected_field: usize,
    pub active_min: Option<u64>,
    pub active_max: Option<u64>,
}

impl PriceFilterState {
    /// Edit buffers stay short enough to parse without overflow, the field
    /// selector is binary, and active bounds came from such buffers.
    pub open spec fn wf(&self) -> bool {
        &&& self.min_input@.len() <= 8
        &&& self.max_input@.len() <= 8
        &&& self.selected_field <= 1
        &&& (self.active_min matches Some(v) ==> v < 10000000000)
        &&& (self.active_max matches Some(v) ==> v < 10000000000)
    }

    /// Drops both edit buffers and both active bounds.
    pub fn clear(&mut self)
        ensures
            final(self).min_input@ == Seq::<char>::empty(),
            final(self).max_input@ == Seq::<char>::empty(),
            final(self).active_min is None,
            final(self).active_max is None,
            final(self).selected_field == old(self).selected_field,
            old(self).wf() ==> final(self).wf(),
    {
        self.min_input = String::new();
        self.max_input = String::new();
        self.active_min = None;
        self.active_max = None;
    }

    /// Parses both edit buffers into the active bounds; a buffer that is not
    /// a well-formed amount clears its bound.
    pub fn apply(&mut self)
        requires
            old(self).wf(),
        ensures
            final(self).wf(),
            final(self).active_min == spec_money(old(self).min_input@),
            final(self).active_max == spec_money(old(self).max_input@),
            final(self).min_input == old(self).min_input,
            final(self).max_input == old(self).max_input,
            final(self).selected_field == old(self).selected_field,
    {
        proof {
            lemma_pow10_monotone(self.min_input@.len() as nat, 8);
            lemma_pow10_monotone(self.max_input@.len() as nat, 8);
            lemma_pow10_values();
        }
        self.active_min = parse_money(self.min_input.as_str());
        self.active_max = parse_money(self.max_input.as_str());
    }

    /// Whether any bound is active.
    pub open spec fn spec_is_active(&self) -> bool {
        self.active_min is Some || self.active_max is Some
    }

    pub fn is_active(&self) -> (r: bool)
        ensures
            r == self.spec_is_active(),
    {
        self.active_min.is_some() || self.active_max.is_some()
    }

    /// Whether a price in minor units passes the active bounds; both bounds
    /// are inclusive.
    pub open spec fn spec_matches(&self, price: u64) -> bool {
        &&& (self.active_min matches Some(min) ==> price >= min)
        &&& (self.active_max matches Some(max) ==> price <= max)
    }

    pub fn matches(&self, price: u64) -> (r: bool)
        ensures
            r == self.spec_matches(price),
    {
        if let Some(min) = self.active_min {
            if price < min {
                return false;
            }
        }
        if let Some(max) = self.active_max {
            if price > max {
                return false;
            }
        }
        true
    }

    /// The whole-unit rendering of an active bound, fraction truncated.
    pub open spec fn spec_bound_label(v: u64) -> Seq<char> {
        spec_dec(v as int / 100)
    }

    /// The status-line label for the filter: `a-b`, `>a`, `<b`, or a dash.
    pub open spec fn spec_label(&self) -> Seq<char> {
        match (self.active_min, self.active_max) {
            (Some(min), Some(max)) => Self::spec_bound_label(min) + "-"@ + Self::spec_bound_label(
                max,
            ),
            (Some(min), None) => ">"@ + Self::spec_bound_label(min),
            (None, Some(max)) => "<"@ + Self::spec_bound_label(max),
            (None, None) => "—"@,
        }
    }

    pub fn label(&self) -> (r: String)
        ensures
            r@ == self.spec_label(),
    {
        match (self.active_min, self.active_max) {
            (Some(min), Some(max)) => {
                let mut s = u64_to_string(min / 100);
                s.append("-");
                let t = u64_to_string(max / 100);
                s.append(t.as_str());
                proof {
                    assert(s@ =~= self.spec_label());
                }
                s
            },
            (Some(min), None) => {
                let mut s = String::from_str(">");
                let t = u64_to_string(min / 100);
                s.append(t.as_str());
                s
            },
            (None, Some(max)) => {
                let mut s = String::from_str("<");
                let t = u64_to_string(max / 100);
                s.append(t.as_str());
                s
            },
            (None, None) => String::from_str("—"),
        }
    }

    /// Seeds the edit buffers from the active bounds, whole units only, and
    /// selects the min field, as opening the popup does.
    pub fn seed_inputs(&mut self)
        requires
            old(self).wf(),
        ensures
            final(self).wf(),
            final(self).min_input@ == (match old(self).active_min {
                Some(v) => Self::spec_bound_label(v),
                None => Seq::<char>::empty(),
            }),
            final(self).max_input@ == (match old(self).active_max {
                Some(v) => Self::spec_bound_label(v),
                None => Seq::<char>::empty(),
            }),
            final(self).selected_field == 0,
            final(self).active_min == old(self).active_min,
            final(self).active_max == old(self).active_max,
    {
        self.min_input = match self.active_min {
            Some(v) => {
                proof {
                    lemma_pow10_values();
                    lemma_dec_len(v as int / 100, 8);
                }
                u64_to_string(v / 100)
            },
            None => String::new(),
        };
        self.max_input = match self.active_max {
            Some(v) => {
                proof {
                    lemma_pow10_values();
                    lemma_dec_len(v as int / 100, 8);
                }
                u64_to_string(v / 100)
            },
            None => String::new(),
        };
        self.selected_field = 0;
    }
}

impl Default for PriceFilterState {
    /// Empty buffers, no active bounds, min field selected.
    fn default() -> (r: Self)
        ensures
            r.min_input@ == Seq::<char>::empty(),
            r.max_input@ == Seq::<char>::empty(),
            r.selected_field == 0,
            r.active_min is None,
            r.active_max is None,
            r.wf(),
    {
        PriceFilterState {
            min_input: String::new(),
            max_input: String::new(),
            selected_field: 0,
            active_min: None,
            active_max: None,
        }
    }
}

} // verus!
