//! The boundary to the external nuclide reference data.
//!
//! The reference table that maps a chemical identifier such as `"He-3"`
//! to a proton and neutron count is kept by the `Nuclide` crate; this
//! module declares what the library assumes of that lookup, and holds
//! the verified guard that keeps identifiers the table's own index
//! arithmetic cannot handle away from it.

use vstd::prelude::*;
use vstd::string::StrSliceExecFns;

verus! {

/// No entry of the reference table carries a nucleon count above this
/// bound (the largest is below three hundred), so a counted identifier
/// beyond it can never resolve; the bound also keeps the table's index
/// arithmetic inside `usize`.
pub const NUCLEON_COUNT_LIMIT: usize = 100000;

pub open spec fn is_decimal_digit(c: char) -> bool {
    '0' <= c && c <= '9'
}

/// The number that a run of decimal digits denotes.
pub open spec fn decimal_value(s: Seq<char>) -> int
    decreases s.len(),
{
    if s.len() == 0 {
        0
    } else {
        decimal_value(s.drop_last()) * 10 + (s.last() as int - '0' as int)
    }
}

/// The one place a '-' occurs in `s` is index `i`.
pub open spec fn single_dash_at(s: Seq<char>, i: int) -> bool {
    &&& 0 <= i < s.len()
    &&& s[i] == '-'
    &&& forall|j: int| 0 <= j < s.len() && s[j] == '-' ==> j == i
}

/// From position `k` to the end, `s` is one or more decimal digits.
pub open spec fn decimal_run(s: Seq<char>, k: int) -> bool {
    &&& 0 <= k < s.len()
    &&& forall|j: int| k <= j < s.len() ==> is_decimal_digit(s[j])
}

/// `s` is a counted identifier: a symbol part, its single '-' at `i`,
/// an optional '+', and a decimal nucleon count from `k` on — the one
/// shape under which the reference parser reads a count out of `s`.
pub open spec fn counted_form(s: Seq<char>, i: int, k: int) -> bool {
    &&& single_dash_at(s, i)
    &&& (k == i + 1 || (i + 1 < s.len() && s[i + 1] == '+' && k == i + 2))
    &&& decimal_run(s, k)
}

/// The nucleon count read out of `s`, for a counted identifier whose
/// digits start at `k`.
pub open spec fn counted_value(s: Seq<char>, k: int) -> int {
    decimal_value(s.subrange(k, s.len() as int))
}

/// The identifier carries a nucleon count that no entry of the
/// reference table can have: zero, or more than `NUCLEON_COUNT_LIMIT`.
/// On such a count the table's index arithmetic must not be run at all,
/// so the resolver answers without consulting the table.
pub open spec fn count_outside_table(s: Seq<char>) -> bool {
    exists|i: int, k: int|
        counted_form(s, i, k) && !(1 <= counted_value(s, k) <= NUCLEON_COUNT_LIMIT)
}

/// The proton and neutron count that the external reference table
/// associates with a chemical identifier, or `None` when the table
/// knows no such nuclide. The table is fixed data compiled into the
/// `Nuclide` crate, so the result depends on the identifier alone.
pub uninterp spec fn symbol_lookup(identifier: Seq<char>) -> Option<(usize, usize)>;

/// Relies on `Nuclide::Nuclide::new` to parse the identifier against the
/// reference table, and on `Nuclide::Nuclide::proton_neutron` to read the
/// proton and neutron count out of the match. An identifier whose counted
/// suffix reads as zero or as more than `NUCLEON_COUNT_LIMIT` is excluded:
/// on those the parser's eager index arithmetic can underflow or overflow
/// `usize` and abort in builds with overflow checks, while for every
/// admitted identifier the arithmetic stays inside `usize` (each table
/// entry has start + 1 at least its lowest count, and start at most a few
/// thousand).
#[verifier::external_body]
pub(crate) fn lookup_by_symbol(identifier: &str) -> (r: Option<(usize, usize)>)
    requires
        !count_outside_table(identifier@),
    ensures
        r == symbol_lookup(identifier@),
{
    ::Nuclide::Nuclide::new(identifier).map(|nuclide| nuclide.proton_neutron())
}

/// Whether the identifier carries a nucleon count outside the reference
/// table's range, so that the resolver must refuse it without consulting
/// the table.
pub fn has_count_outside_table(identifier: &str) -> (b: bool)
    ensures
        b == count_outside_table(identifier@),
{
    let ghost s = identifier@;
    let len: usize = identifier.unicode_len();

    // Find the dash; a counted identifier has exactly one.
    let mut dash: usize = 0;
    let mut dash_found = false;
    let mut i: usize = 0;
    while i < len
        invariant
            i <= len,
            len == s.len(),
            s == identifier@,
            dash_found ==> dash < i && s[dash as int] == '-',
            forall|j: int| 0 <= j < i && s[j] == '-' ==> dash_found && j == dash as int,
        decreases len - i,
    {
        let c = identifier.get_char(i);
        if c == '-' {
            if dash_found {
                proof {
                    assert forall|i2: int, k2: int| !counted_form(s, i2, k2) by {
                        if single_dash_at(s, i2) {
                            assert(s[dash as int] == '-');
                            assert(s[i as int] == '-');
                        }
                    }
                }
                return false;
            }
            dash = i;
            dash_found = true;
        }
        i += 1;
    }
    if !dash_found {
        proof {
            assert forall|i2: int, k2: int| !counted_form(s, i2, k2) by {
                if single_dash_at(s, i2) {
                    assert(s[i2] == '-');
                }
            }
        }
        return false;
    }

    // The digits may be preceded by one '+', which the numeric parse
    // accepts.
    let mut k: usize = dash + 1;
    let ghost mut plus_skipped: bool = false;
    if k < len && identifier.get_char(k) == '+' {
        k = dash + 2;
        proof {
            plus_skipped = true;
        }
    }
    assert(!is_decimal_digit('+'));

    if k >= len {
        proof {
            assert forall|i2: int, k2: int| !counted_form(s, i2, k2) by {
                if counted_form(s, i2, k2) {
                    assert(s[i2] == '-');
                    assert(i2 == dash as int);
                }
            }
        }
        return false;
    }

    // Read the digits, capping the value one past the table bound.
    let mut value: usize = 0;
    let mut j: usize = k;
    while j < len
        invariant
            k <= j <= len,
            k < len,
            len == s.len(),
            s == identifier@,
            forall|t: int| k <= t < j ==> is_decimal_digit(s[t]),
            0 <= decimal_value(s.subrange(k as int, j as int)),
            value == if decimal_value(s.subrange(k as int, j as int)) > NUCLEON_COUNT_LIMIT {
                NUCLEON_COUNT_LIMIT + 1
            } else {
                decimal_value(s.subrange(k as int, j as int))
            },
            dash_found && dash < len && s[dash as int] == '-',
            forall|t: int| 0 <= t < len && s[t] == '-' ==> t == dash as int,
            plus_skipped ==> dash + 1 < len && s[dash + 1] == '+' && k == dash + 2,
            !plus_skipped ==> k == dash + 1 && s[dash + 1] != '+',
        decreases len - j,
    {
        let c = identifier.get_char(j);
        if !('0' <= c && c <= '9') {
            proof {
                assert(!is_decimal_digit('+'));
                assert forall|i2: int, k2: int| !counted_form(s, i2, k2) by {
                    if counted_form(s, i2, k2) {
                        assert(s[i2] == '-');
                        assert(i2 == dash as int);
                        if k2 == dash + 2 {
                            assert(s[dash + 1] == '+');
                        }
                        if plus_skipped && k2 == dash + 1 {
                            assert(is_decimal_digit(s[dash + 1]));
                        }
                        assert(k2 == k as int);
                        assert(is_decimal_digit(s[j as int]));
                    }
                }
            }
            return false;
        }
        let digit: usize = (c as usize) - ('0' as usize);
        proof {
            assert(s.subrange(k as int, j + 1).drop_last() =~= s.subrange(k as int, j as int));
            assert(s.subrange(k as int, j + 1).last() == s[j as int]);
        }
        value = value * 10 + digit;
        if value > NUCLEON_COUNT_LIMIT {
            value = NUCLEON_COUNT_LIMIT + 1;
        }
        j += 1;
    }
    proof {
        assert(s.subrange(k as int, len as int) == s.subrange(k as int, s.len() as int));
    }

    if value == 0 || value > NUCLEON_COUNT_LIMIT {
        proof {
            assert(counted_form(s, dash as int, k as int));
            assert(!(1 <= counted_value(s, k as int) <= NUCLEON_COUNT_LIMIT));
        }
        true
    } else {
        proof {
            assert(!is_decimal_digit('+'));
            assert forall|i2: int, k2: int|
                !(counted_form(s, i2, k2) && !(1 <= counted_value(s, k2)
                    <= NUCLEON_COUNT_LIMIT)) by {
                if counted_form(s, i2, k2) {
                    assert(s[i2] == '-');
                    assert(i2 == dash as int);
                    if k2 == dash + 2 {
                        assert(s[dash + 1] == '+');
                    }
                    if plus_skipped && k2 == dash + 1 {
                        assert(is_decimal_digit(s[dash + 1]));
                    }
                    assert(k2 == k as int);
                }
            }
        }
        false
    }
}

} // verus!
