use vstd::prelude::*;
use vstd::string::StrSliceExecFns;

verus! {

/// Default bundle-result wait window, in seconds, used when the setting is
/// missing or invalid.
pub const DEFAULT_WAIT_SECONDS: u64 = 5;

pub open spec fn spec_is_digit(c: char) -> bool {
    '0' <= c && c <= '9'
}

pub open spec fn spec_all_digits(s: Seq<char>) -> bool {
    forall|i: int| 0 <= i < s.len() ==> spec_is_digit(#[trigger] s[i])
}

/// The numeric value of a digit string, most significant digit first.
pub open spec fn spec_decimal_value(s: Seq<char>) -> int
    decreases s.len(),
{
    if s.len() == 0 {
        0
    } else {
        spec_decimal_value(s.drop_last()) * 10 + (s.last() as int - '0' as int)
    }
}

proof fn lemma_decimal_value_nonneg(s: Seq<char>)
    requires
        spec_all_digits(s),
    ensures
        spec_decimal_value(s) >= 0,
    decreases s.len(),
{
    if s.len() > 0 {
        assert(spec_all_digits(s.drop_last())) by {
            assert(forall|i: int|
                0 <= i < s.len() - 1 ==> #[trigger] s.drop_last()[i] == s[i]);
        }
        lemma_decimal_value_nonneg(s.drop_last());
    }
}

proof fn lemma_decimal_take_step(s: Seq<char>, i: int)
    requires
        0 <= i < s.len(),
    ensures
        spec_decimal_value(s.take(i + 1)) == spec_decimal_value(s.take(i)) * 10 + (
        s[i] as int - '0' as int),
{
    assert(s.take(i + 1).drop_last() =~= s.take(i));
    assert(s.take(i + 1).last() == s[i]);
}

proof fn lemma_decimal_prefix_le(s: Seq<char>, i: int)
    requires
        spec_all_digits(s),
        0 <= i <= s.len(),
    ensures
        spec_decimal_value(s.take(i)) <= spec_decimal_value(s),
    decreases s.len() - i,
{
    if i < s.len() {
        assert(spec_all_digits(s.take(i))) by {
            assert(forall|j: int| 0 <= j < i ==> #[trigger] s.take(i)[j] == s[j]);
        }
        lemma_decimal_value_nonneg(s.take(i));
        lemma_decimal_take_step(s, i);
        lemma_decimal_prefix_le(s, i + 1);
    } else {
        assert(s.take(i) =~= s);
    }
}

/// Parses a non-negative decimal integer: accepts exactly the non-empty
/// all-digit strings whose value fits in `u64`.
pub fn parse_u64_decimal(s: &str) -> (r: Option<u64>)
    ensures
        (r is Some) <==> (s@.len() > 0 && spec_all_digits(s@) && spec_decimal_value(s@)
            <= u64::MAX),
        r matches Some(v) ==> v == spec_decimal_value(s@),
{
    let n = s.unicode_len();
    if n == 0 {
        return None;
    }
    let mut i: usize = 0;
    let mut acc: u64 = 0;
    while i < n
        invariant
            i <= n,
            n == s@.len(),
            forall|j: int| 0 <= j < i ==> spec_is_digit(#[trigger] s@[j]),
            acc == spec_decimal_value(s@.take(i as int)),
        decreases n - i,
    {
        let c = s.get_char(i);
        let cu: u32 = c as u32;
        let zero: u32 = '0' as u32;
        let nine: u32 = '9' as u32;
        if !(zero <= cu && cu <= nine) {
            proof {
                assert(!spec_is_digit(s@[i as int]));
            }
            return None;
        }
        let d: u64 = (cu - zero) as u64;
        let overflowed: bool = match acc.checked_mul(10) {
            Some(p) => match p.checked_add(d) {
                Some(q) => {
                    acc = q;
                    false
                },
                None => true,
            },
            None => true,
        };
        proof {
            lemma_decimal_take_step(s@, i as int);
        }
        if overflowed {
            proof {
                if spec_all_digits(s@) {
                    lemma_decimal_value_nonneg(s@.take(i as int));
                    lemma_decimal_prefix_le(s@, i as int + 1);
                }
            }
            return None;
        }
        i = i + 1;
    }
    proof {
        assert(s@.take(n as int) =~= s@);
    }
    Some(acc)
}

/// The wait window a setting string denotes: a non-empty all-digit string
/// whose value fits in `u64` gives that many seconds; a missing or invalid
/// setting falls back to the default rather than failing.
pub open spec fn spec_wait_seconds(setting: Option<String>) -> u64 {
    match setting {
        Option::Some(s) => if s@.len() > 0 && spec_all_digits(s@) && spec_decimal_value(s@)
            <= u64::MAX {
            spec_decimal_value(s@) as u64
        } else {
            DEFAULT_WAIT_SECONDS
        },
        Option::None => DEFAULT_WAIT_SECONDS,
    }
}

/// Reads the bundle-result wait window, in seconds, from an externally
/// sourced setting.
pub fn wait_seconds_setting(setting: &Option<String>) -> (r: u64)
    ensures
        r == spec_wait_seconds(*setting),
{
    match setting {
        Option::None => DEFAULT_WAIT_SECONDS,
        Option::Some(s) => match parse_u64_decimal(s.as_str()) {
            Option::Some(v) => v,
            Option::None => DEFAULT_WAIT_SECONDS,
        },
    }
}

/// The wait window in milliseconds: the configured seconds scaled by 1000,
/// saturating at the largest representable budget.
pub fn wait_window_millis(seconds: u64) -> (r: u64)
    ensures
        r == if seconds * 1000 <= u64::MAX {
            seconds * 1000
        } else {
            u64::MAX as int
        },
{
    if seconds <= u64::MAX / 1000 {
        seconds * 1000
    } else {
        u64::MAX
    }
}

} // verus!
