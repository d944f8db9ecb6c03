//! Names of schema migration files: `<VERSION>_<DESCRIPTION>.sql`.

use vstd::prelude::*;
use crate::text::same_text;

verus! {

/// The value of a run of decimal digits.
pub open spec fn digits_value(s: Seq<char>) -> int
    decreases s.len(),
{
    if s.len() == 0 {
        0
    } else {
        digits_value(s.drop_last()) * 10 + (s.last() as int - '0' as int)
    }
}

pub open spec fn is_digit(c: char) -> bool {
    '0' <= c && c <= '9'
}

pub open spec fn all_digits(s: Seq<char>) -> bool {
    forall|i: int| 0 <= i < s.len() ==> is_digit(#[trigger] s[i])
}

/// A decimal integer with an optional leading sign, as `str::parse::<i64>`
/// reads it; `None` when the text is not one or the value does not fit.
pub open spec fn parse_i64_spec(s: Seq<char>) -> Option<i64> {
    let neg = s.len() > 0 && s[0] == '-';
    let signed = s.len() > 0 && (s[0] == '-' || s[0] == '+');
    let body = if signed {
        s.drop_first()
    } else {
        s
    };
    if body.len() == 0 || !all_digits(body) {
        None
    } else {
        let v = if neg {
            -digits_value(body)
        } else {
            digits_value(body)
        };
        if i64::MIN <= v <= i64::MAX {
            Some(v as i64)
        } else {
            None
        }
    }
}

proof fn lemma_digits_value_nonneg(s: Seq<char>)
    requires
        all_digits(s),
    ensures
        digits_value(s) >= 0,
    decreases s.len(),
{
    if s.len() > 0 {
        assert(all_digits(s.drop_last())) by {
            assert forall|i: int| 0 <= i < s.drop_last().len() implies is_digit(
                #[trigger] s.drop_last()[i],
            ) by {
                assert(s.drop_last()[i] == s[i]);
            }
        }
        lemma_digits_value_nonneg(s.drop_last());
        assert(is_digit(s[s.len() - 1]));
    }
}

proof fn lemma_digits_value_grows(s: Seq<char>, k: int)
    requires
        all_digits(s),
        0 <= k <= s.len(),
    ensures
        digits_value(s) >= digits_value(s.subrange(0, k)),
    decreases s.len() - k,
{
    if k < s.len() {
        let t = s.subrange(0, k + 1);
        assert(all_digits(t)) by {
            assert forall|i: int| 0 <= i < t.len() implies is_digit(#[trigger] t[i]) by {
                assert(t[i] == s[i]);
            }
        }
        assert(t.drop_last() == s.subrange(0, k));
        assert(all_digits(s.subrange(0, k))) by {
            assert forall|i: int| 0 <= i < k implies is_digit(#[trigger] s.subrange(0, k)[i]) by {
                assert(s.subrange(0, k)[i] == s[i]);
            }
        }
        lemma_digits_value_nonneg(s.subrange(0, k));
        assert(is_digit(t[k]));
        lemma_digits_value_grows(s, k + 1);
    } else {
        assert(s.subrange(0, k) == s);
    }
}

/// Parses a decimal `i64` as `str::parse::<i64>` does.
pub fn parse_i64(s: &str) -> (r: Option<i64>)
    ensures
        r == parse_i64_spec(s@),
{
    let n = s.unicode_len();
    if n == 0 {
        return None;
    }
    let first = s.get_char(0);
    let neg = first == '-';
    let start: usize = if first == '-' || first == '+' {
        1
    } else {
        0
    };
    let ghost body = if start == 1 {
        s@.drop_first()
    } else {
        s@
    };
    assert(body == s@.subrange(start as int, n as int));
    if start == n {
        return None;
    }
    let limit: u64 = if neg {
        0x8000_0000_0000_0000
    } else {
        0x7fff_ffff_ffff_ffff
    };
    let mut acc: u64 = 0;
    let mut i: usize = start;
    while i < n
        invariant
            n == s@.len(),
            n > 0,
            neg == (s@[0] == '-'),
            body == (if s@.len() > 0 && (s@[0] == '-' || s@[0] == '+') {
                s@.drop_first()
            } else {
                s@
            }),
            limit == (if neg {
                0x8000_0000_0000_0000u64
            } else {
                0x7fff_ffff_ffff_ffffu64
            }),
            start <= i <= n,
            body == s@.subrange(start as int, n as int),
            all_digits(body.subrange(0, i - start)),
            acc as int == digits_value(body.subrange(0, i - start)),
            acc <= limit,
        decreases n - i,
    {
        let c = s.get_char(i);
        if c < '0' || c > '9' {
            assert(body[i - start] == c);
            assert(!is_digit(body[i - start]));
            assert(!all_digits(body));
            return None;
        }
        let d: u64 = (c as u32 - '0' as u32) as u64;
        assert(d <= 9);
        assert(d as int == c as int - '0' as int);
        let ghost pre = body.subrange(0, i - start);
        let ghost next = body.subrange(0, i - start + 1);
        assert(next.drop_last() == pre);
        assert(next.last() == c);
        assert(all_digits(next)) by {
            assert forall|j: int| 0 <= j < next.len() implies is_digit(#[trigger] next[j]) by {
                if j < pre.len() {
                    assert(next[j] == pre[j]);
                }
            }
        }
        if acc > (limit - d) / 10 {
            proof {
                assert(acc * 10 + d > limit) by (nonlinear_arith)
                    requires
                        acc > (limit - d) / 10,
                        d <= 9,
                        limit >= 9,
                ;
                assert(digits_value(next) == acc * 10 + d);
                let rest_ok = all_digits(body);
                if rest_ok {
                    lemma_digits_value_grows(body, i - start + 1);
                }
            }
            return None;
        }
        assert(acc * 10 + d <= limit) by (nonlinear_arith)
            requires
                acc <= (limit - d) / 10,
                d <= 9,
                limit >= 9,
        ;
        acc = acc * 10 + d;
        i = i + 1;
    }
    assert(body.subrange(0, n - start) == body);
    if neg {
        if acc == 0x8000_0000_0000_0000 {
            Some(i64::MIN)
        } else {
            Some(-(acc as i64))
        }
    } else {
        Some(acc as i64)
    }
}

/// Why a migration file name cannot be used.
#[derive(Clone, Copy, Debug, PartialEq, Eq, Structural)]
pub enum MigrationNameError {
    /// The part before the first '_' is not an `i64`.
    InvalidVersion,
}

/// The position of the first '_' in `s`.
pub open spec fn first_underscore(s: Seq<char>) -> Option<int>
    decreases s.len(),
{
    if s.len() == 0 {
        None
    } else if s[0] == '_' {
        Some(0)
    } else {
        match first_underscore(s.drop_first()) {
            Some(k) => Some(k + 1),
            None => None,
        }
    }
}

/// Whether `s` ends with ".sql".
pub open spec fn ends_with_sql(s: Seq<char>) -> bool {
    s.len() >= 4 && s.subrange(s.len() - 4, s.len() as int) == ".sql"@
}

/// `s` with every trailing ".sql" removed.
pub open spec fn trim_sql(s: Seq<char>) -> Seq<char>
    decreases s.len(),
{
    if ends_with_sql(s) {
        trim_sql(s.subrange(0, s.len() - 4))
    } else {
        s
    }
}

/// `s` with each '_' replaced by a space.
pub open spec fn underscores_to_spaces(s: Seq<char>) -> Seq<char> {
    s.map_values(|c: char| if c == '_' { ' ' } else { c })
}

/// What a migration file named `name` stands for: `Ok(None)` when the name is
/// not of the form `<VERSION>_<DESCRIPTION>.sql` (no '_', or no ".sql" at the
/// end) and the file is to be ignored; an error when the version is not a
/// number; otherwise the version and the description, with its ".sql"
/// endings removed and underscores turned into spaces.
pub open spec fn migration_name_spec(name: Seq<char>) -> Result<
    Option<(i64, Seq<char>)>,
    MigrationNameError,
> {
    match first_underscore(name) {
        None => Ok(None),
        Some(u) => {
            let head = name.subrange(0, u);
            let tail = name.subrange(u + 1, name.len() as int);
            if !ends_with_sql(tail) {
                Ok(None)
            } else {
                match parse_i64_spec(head) {
                    None => Err(MigrationNameError::InvalidVersion),
                    Some(v) => Ok(Some((v, underscores_to_spaces(trim_sql(tail))))),
                }
            }
        },
    }
}

proof fn lemma_first_underscore(s: Seq<char>, k: int)
    requires
        0 <= k <= s.len(),
        forall|j: int| 0 <= j < k ==> s[j] != '_',
        k == s.len() || s[k] == '_',
    ensures
        first_underscore(s) == if k == s.len() {
            None::<int>
        } else {
            Some(k)
        },
    decreases k,
{
    if k > 0 {
        let t = s.drop_first();
        assert forall|j: int| 0 <= j < k - 1 implies t[j] != '_' by {
            assert(t[j] == s[j + 1]);
        }
        lemma_first_underscore(t, k - 1);
    }
}

fn ends_with_sql_exec(s: &str) -> (r: bool)
    ensures
        r == ends_with_sql(s@),
{
    let n = s.unicode_len();
    if n < 4 {
        return false;
    }
    same_text(s.substring_char(n - 4, n), ".sql")
}

/// Reads a migration file name (the base name, without directories).
pub fn parse_migration_name(name: &str) -> (r: Result<Option<(i64, String)>, MigrationNameError>)
    ensures
        match migration_name_spec(name@) {
            Ok(None) => r == Ok::<Option<(i64, String)>, MigrationNameError>(None),
            Ok(Some((v, d))) => r.is_ok() && r.unwrap().is_some() && r.unwrap().unwrap().0 == v
                && r.unwrap().unwrap().1@ == d,
            Err(e) => r == Err::<Option<(i64, String)>, MigrationNameError>(e),
        },
{
    let n = name.unicode_len();
    let mut u: usize = 0;
    while u < n && name.get_char(u) != '_'
        invariant
            n == name@.len(),
            u <= n,
            forall|j: int| 0 <= j < u ==> name@[j] != '_',
        decreases n - u,
    {
        u = u + 1;
    }
    proof {
        lemma_first_underscore(name@, u as int);
    }
    if u == n {
        return Ok(None);
    }
    let head = name.substring_char(0, u);
    let tail = name.substring_char(u + 1, n);
    if !ends_with_sql_exec(tail) {
        return Ok(None);
    }
    let version = match parse_i64(head) {
        Some(v) => v,
        None => {
            return Err(MigrationNameError::InvalidVersion);
        },
    };
    let mut t = tail;
    while ends_with_sql_exec(t)
        invariant
            trim_sql(t@) == trim_sql(tail@),
        decreases t@.len(),
    {
        let m = t.unicode_len();
        t = t.substring_char(0, m - 4);
    }
    let m = t.unicode_len();
    let mut out = String::new();
    let mut i: usize = 0;
    while i < m
        invariant
            m == t@.len(),
            i <= m,
            out@ == underscores_to_spaces(t@.subrange(0, i as int)),
        decreases m - i,
    {
        let c = t.get_char(i);
        if c == '_' {
            out.append(" ");
            proof {
                reveal_strlit(" ");
            }
        } else {
            out.append(t.substring_char(i, i + 1));
        }
        assert(underscores_to_spaces(t@.subrange(0, i + 1)) =~= underscores_to_spaces(
            t@.subrange(0, i as int),
        ).push(if c == '_' { ' ' } else { c }));
        assert(out@ =~= underscores_to_spaces(t@.subrange(0, i + 1)));
        i = i + 1;
    }
    assert(t@.subrange(0, m as int) == t@);
    Ok(Some((version, out)))
}

} // verus!
