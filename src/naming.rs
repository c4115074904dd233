use vstd::prelude::*;
use vstd::string::StringExecFns;

verus! {

/// The character of a decimal digit.
pub open spec fn digit_char(d: nat) -> char {
    if d == 0 { '0' }
    else if d == 1 { '1' }
    else if d == 2 { '2' }
    else if d == 3 { '3' }
    else if d == 4 { '4' }
    else if d == 5 { '5' }
    else if d == 6 { '6' }
    else if d == 7 { '7' }
    else if d == 8 { '8' }
    else { '9' }
}

/// The decimal digits of `n`, most significant first, without leading zeros.
pub open spec fn decimal_digits(n: nat) -> Seq<char>
    decreases n,
{
    if n < 10 {
        seq![digit_char(n)]
    } else {
        decimal_digits(n / 10) + seq![digit_char(n % 10)]
    }
}

/// `t` written in decimal, with a leading `-` when it is negative.
pub open spec fn decimal(t: int) -> Seq<char> {
    if t < 0 {
        "-"@ + decimal_digits((-t) as nat)
    } else {
        decimal_digits(t as nat)
    }
}

/// The remote name of one deployed version:
/// `{binary}-{timestamp}-{commit}-{digest}`.
pub open spec fn version_name_of(
    binary: Seq<char>,
    timestamp: int,
    commit: Seq<char>,
    digest: Seq<char>,
) -> Seq<char> {
    binary + "-"@ + decimal(timestamp) + "-"@ + commit + "-"@ + digest
}

fn digit_str(d: u64) -> (r: &'static str)
    requires
        d < 10,
    ensures
        r@ == seq![digit_char(d as nat)],
{
    proof {
        reveal_strlit("0");
        reveal_strlit("1");
        reveal_strlit("2");
        reveal_strlit("3");
        reveal_strlit("4");
        reveal_strlit("5");
        reveal_strlit("6");
        reveal_strlit("7");
        reveal_strlit("8");
        reveal_strlit("9");
    }
    if d == 0 { "0" }
    else if d == 1 { "1" }
    else if d == 2 { "2" }
    else if d == 3 { "3" }
    else if d == 4 { "4" }
    else if d == 5 { "5" }
    else if d == 6 { "6" }
    else if d == 7 { "7" }
    else if d == 8 { "8" }
    else { "9" }
}

fn append_digits(s: &mut String, n: u64)
    ensures
        final(s)@ == old(s)@ + decimal_digits(n as nat),
    decreases n,
{
    if n >= 10 {
        append_digits(s, n / 10);
    }
    s.append(digit_str(n % 10));
    proof {
        if n >= 10 {
            assert(final(s)@ =~= old(s)@ + decimal_digits(n as nat));
        } else {
            assert(final(s)@ =~= old(s)@ + decimal_digits(n as nat));
        }
    }
}

/// Appends `t` written in decimal.
fn append_decimal(s: &mut String, t: i64)
    ensures
        final(s)@ == old(s)@ + decimal(t as int),
{
    if t < 0 {
        s.append("-");
        let magnitude: u64 = (-(t as i128)) as u64;
        append_digits(s, magnitude);
        proof {
            assert(final(s)@ =~= old(s)@ + decimal(t as int));
        }
    } else {
        append_digits(s, t as u64);
    }
}

/// The remote name of a version built at `build_timestamp` (seconds since
/// the Unix epoch).
pub fn version_name(binary_name: &str, build_timestamp: i64, commit_hash: &str, file_hash: &str) -> (r: String)
    ensures
        r@ == version_name_of(binary_name@, build_timestamp as int, commit_hash@, file_hash@),
{
    let mut r = String::from_str(binary_name);
    r.append("-");
    append_decimal(&mut r, build_timestamp);
    r.append("-");
    r.append(commit_hash);
    r.append("-");
    r.append(file_hash);
    proof {
        assert(r@ =~= version_name_of(binary_name@, build_timestamp as int, commit_hash@, file_hash@));
    }
    r
}

/// Relies on time::OffsetDateTime::now_utc and unix_timestamp: the current
/// time in whole seconds since the Unix epoch. Nothing is known of its value.
#[verifier::external_body]
pub(crate) fn unix_now() -> (r: i64) {
    time::OffsetDateTime::now_utc().unix_timestamp()
}

/// The remote name of a version built now: some timestamp stands in it,
/// whichever the clock gave.
pub fn remote_file_name(binary_name: &str, commit_hash: &str, file_hash: &str) -> (r: String)
    ensures
        exists|t: i64| r@ == version_name_of(binary_name@, t as int, commit_hash@, file_hash@),
{
    let now = unix_now();
    version_name(binary_name, now, commit_hash, file_hash)
}

} // verus!
