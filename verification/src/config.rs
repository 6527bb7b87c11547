//! Run configuration: download-directory precedence, the cache-enable flag,
//! and the eviction threshold, each resolved from plain values that the
//! caller looked up (an explicit argument, environment text).

use vstd::prelude::*;
use vstd::string::StringSliceAdditionalSpecFns;

verus! {

/// Where downloads land when neither an argument nor the environment names
/// a directory.
pub const TRUSS_TRANSFER_DOWNLOAD_DIR_FALLBACK: &'static str = "/tmp/bptr-resolved";

/// The environment variable that names the download directory.
pub const TRUSS_TRANSFER_DOWNLOAD_DIR_ENV_VAR: &'static str = "TRUSS_TRANSFER_DOWNLOAD_DIR";

/// The environment variable whose flag text switches the shared cache on.
pub const BASETEN_FS_ENABLED_ENV_VAR: &'static str = "BASETEN_FS_ENABLED";

/// The environment variable that overrides the eviction age threshold.
pub const TRUSS_TRANSFER_CLEANUP_HOURS_ENV_VAR: &'static str =
    "TRUSS_TRANSFER_CLEANUP_THRESHOLD_HOURS";

/// Hours a cache entry may go unaccessed before eviction, by default.
pub const DEFAULT_CLEANUP_HOURS: u64 = 14 * 24;

/// Picks the effective download directory: an explicit argument wins, then
/// the environment's value, then the documented fallback.
pub fn resolve_truss_transfer_download_dir(
    optional_download_dir: Option<String>,
    env_download_dir: Option<String>,
) -> (r: String)
    ensures
        optional_download_dir matches Some(d) ==> r == d,
        optional_download_dir is None ==> (env_download_dir matches Some(e) ==> r == e),
        optional_download_dir is None && env_download_dir is None ==> r@
            == TRUSS_TRANSFER_DOWNLOAD_DIR_FALLBACK@,
{
    match optional_download_dir {
        Some(d) => d,
        None => match env_download_dir {
            Some(e) => e,
            None => TRUSS_TRANSFER_DOWNLOAD_DIR_FALLBACK.to_owned(),
        },
    }
}

/// The ASCII-lowercase image of one byte.
pub open spec fn lower_byte(b: u8) -> u8 {
    if 'A' as u8 <= b <= 'Z' as u8 {
        (b + 32) as u8
    } else {
        b
    }
}

/// Whether flag text enables the cache: `"1"`, or `"true"` in any ASCII case.
pub open spec fn flag_truthy(s: Seq<u8>) -> bool {
    ||| s =~= seq!['1' as u8]
    ||| {
        &&& s.len() == 4
        &&& lower_byte(s[0]) == 't' as u8
        &&& lower_byte(s[1]) == 'r' as u8
        &&& lower_byte(s[2]) == 'u' as u8
        &&& lower_byte(s[3]) == 'e' as u8
    }
}

fn to_lower_byte(b: u8) -> (r: u8)
    ensures
        r == lower_byte(b),
{
    if b >= 'A' as u8 && b <= 'Z' as u8 {
        b + 32
    } else {
        b
    }
}

/// Decides whether the cache is enabled from the environment's flag text.
/// An absent variable, or any text other than `"1"` or a case variant of
/// `"true"`, leaves the cache off.
pub fn cache_enabled(flag: Option<&str>) -> (r: bool)
    ensures
        r == (flag matches Some(s) && flag_truthy(s.spec_bytes())),
{
    match flag {
        None => false,
        Some(s) => {
            let b = s.as_bytes();
            if b.len() == 1 && b[0] == '1' as u8 {
                proof {
                    assert(s.spec_bytes() =~= seq!['1' as u8]);
                }
                true
            } else if b.len() == 4 {
                to_lower_byte(b[0]) == 't' as u8 && to_lower_byte(b[1]) == 'r' as u8
                    && to_lower_byte(b[2]) == 'u' as u8 && to_lower_byte(b[3]) == 'e' as u8
            } else {
                false
            }
        },
    }
}

/// Whether a byte is an ASCII decimal digit.
pub open spec fn is_digit(b: u8) -> bool {
    '0' as u8 <= b <= '9' as u8
}

/// The numeric value of a digit byte.
pub open spec fn digit_val(b: u8) -> nat
    recommends
        is_digit(b),
{
    (b - '0' as u8) as nat
}

/// Whether every byte of `s` is a decimal digit.
pub open spec fn all_digits(s: Seq<u8>) -> bool {
    forall|i: int| 0 <= i < s.len() ==> is_digit(s[i])
}

/// The number that a digit string denotes, most significant digit first.
pub open spec fn digits_value(s: Seq<u8>) -> nat
    decreases s.len(),
{
    if s.len() == 0 {
        0
    } else {
        digits_value(s.drop_last()) * 10 + digit_val(s.last())
    }
}

/// The digit part of unsigned numeric text: everything after one optional
/// leading `'+'`.
pub open spec fn unsigned_body(s: Seq<u8>) -> Seq<u8> {
    if s.len() >= 1 && s[0] == '+' as u8 {
        s.subrange(1, s.len() as int)
    } else {
        s
    }
}

/// Whether `s` is text that `u64` parsing accepts: an optional `'+'`, then
/// at least one digit, all digits, denoting a value that fits in a `u64`.
pub open spec fn valid_u64_text(s: Seq<u8>) -> bool {
    &&& unsigned_body(s).len() >= 1
    &&& all_digits(unsigned_body(s))
    &&& digits_value(unsigned_body(s)) <= u64::MAX
}

proof fn lemma_digits_value_grows(s: Seq<u8>, i: int, j: int)
    requires
        0 <= i <= j <= s.len(),
    ensures
        digits_value(s.take(i)) <= digits_value(s.take(j)),
    decreases j - i,
{
    if i < j {
        lemma_digits_value_grows(s, i, j - 1);
        assert(s.take(j).drop_last() =~= s.take(j - 1));
        assert(digits_value(s.take(j - 1)) * 10 >= digits_value(s.take(j - 1)));
    }
}

/// Reads an unsigned decimal number, as `u64` parsing does: an optional
/// leading `'+'`, then digits. Returns `None` on empty or non-digit text and
/// on overflow.
pub fn parse_u64(s: &str) -> (r: Option<u64>)
    ensures
        valid_u64_text(s.spec_bytes()) ==> r == Some(
            (digits_value(unsigned_body(s.spec_bytes())) as u64),
        ),
        !valid_u64_text(s.spec_bytes()) ==> r is None,
{
    let b = s.as_bytes();
    let start: usize = if b.len() >= 1 && b[0] == '+' as u8 {
        1
    } else {
        0
    };
    let ghost body = unsigned_body(s.spec_bytes());
    proof {
        assert(body =~= s.spec_bytes().subrange(start as int, s.spec_bytes().len() as int));
    }
    if b.len() == start {
        return None;
    }
    let mut acc: u64 = 0;
    let mut i: usize = start;
    while i < b.len()
        invariant
            start <= i <= b.len(),
            b@ == s.spec_bytes(),
            body == unsigned_body(s.spec_bytes()),
            body == s.spec_bytes().subrange(start as int, s.spec_bytes().len() as int),
            start <= 1,
            b.len() > start,
            all_digits(body.take(i - start)),
            acc == digits_value(body.take(i - start)),
        decreases b.len() - i,
    {
        let c = b[i];
        if c < '0' as u8 || c > '9' as u8 {
            proof {
                assert(body[i - start] == c);
                assert(!all_digits(body));
            }
            return None;
        }
        let d = c - '0' as u8;
        let wide: u128 = acc as u128 * 10 + d as u128;
        proof {
            assert(body.take(i + 1 - start).drop_last() =~= body.take(i - start));
            assert(body.take(i + 1 - start).last() == body[i - start]);
            assert(digits_value(body.take(i + 1 - start)) == wide);
        }
        if wide > u64::MAX as u128 {
            proof {
                lemma_digits_value_grows(body, i + 1 - start, body.len() as int);
                assert(body.take(body.len() as int) =~= body);
            }
            return None;
        }
        acc = wide as u64;
        i = i + 1;
    }
    proof {
        assert(body.take(i - start) =~= body);
    }
    Some(acc)
}

/// Resolves the eviction age threshold, in hours: the environment's value
/// where it parses as a `u64`, the documented default otherwise.
pub fn get_cleanup_threshold_hours(env_val: Option<&str>) -> (r: u64)
    ensures
        env_val matches Some(s) ==> (valid_u64_text(s.spec_bytes()) ==> r == digits_value(
            unsigned_body(s.spec_bytes()),
        )),
        env_val is None ==> r == DEFAULT_CLEANUP_HOURS,
        env_val matches Some(s) && !valid_u64_text(s.spec_bytes()) ==> r
            == DEFAULT_CLEANUP_HOURS,
{
    match env_val {
        None => DEFAULT_CLEANUP_HOURS,
        Some(s) => match parse_u64(s) {
            Some(n) => n,
            None => DEFAULT_CLEANUP_HOURS,
        },
    }
}

} // verus!
