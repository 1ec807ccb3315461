//! Decimal rendering of counters and the generated environment names.
//!
//! The registry names environments it creates `environment_{n}` with a
//! monotonically increasing counter. The rendering is verified to be
//! injective, so distinct counter values can never collide.

use vstd::prelude::*;
use vstd::string::StringExecFns;

verus! {

/// Character of a single decimal digit.
pub open spec fn spec_digit_char(d: nat) -> char
    recommends
        d < 10,
{
    if d == 0 {
        '0'
    } else if d == 1 {
        '1'
    } else if d == 2 {
        '2'
    } else if d == 3 {
        '3'
    } else if d == 4 {
        '4'
    } else if d == 5 {
        '5'
    } else if d == 6 {
        '6'
    } else if d == 7 {
        '7'
    } else if d == 8 {
        '8'
    } else {
        '9'
    }
}

/// Decimal rendering of a natural number, most significant digit first.
pub open spec fn spec_decimal(n: nat) -> Seq<char>
    decreases n,
{
    if n < 10 {
        seq![spec_digit_char(n)]
    } else {
        spec_decimal(n / 10) + seq![spec_digit_char(n % 10)]
    }
}

/// A decimal rendering is never empty, and numbers of ten or more render to
/// at least two characters.
pub proof fn lemma_decimal_len(n: nat)
    ensures
        spec_decimal(n).len() >= 1,
        n >= 10 ==> spec_decimal(n).len() >= 2,
    decreases n,
{
    if n >= 10 {
        lemma_decimal_len(n / 10);
    }
}

proof fn lemma_digit_char_injective(x: nat, y: nat)
    requires
        x < 10,
        y < 10,
        spec_digit_char(x) == spec_digit_char(y),
    ensures
        x == y,
{
}

/// Decimal renderings of distinct numbers are distinct.
pub proof fn lemma_decimal_injective(a: nat, b: nat)
    requires
        spec_decimal(a) == spec_decimal(b),
    ensures
        a == b,
    decreases a,
{
    lemma_decimal_len(a);
    lemma_decimal_len(b);
    if a < 10 && b < 10 {
        assert(spec_decimal(a) == seq![spec_digit_char(a)]);
        assert(spec_decimal(b) == seq![spec_digit_char(b)]);
        assert(seq![spec_digit_char(a)][0] == seq![spec_digit_char(b)][0]);
        lemma_digit_char_injective(a, b);
    } else if a >= 10 && b >= 10 {
        let sa = spec_decimal(a / 10);
        let sb = spec_decimal(b / 10);
        let da = seq![spec_digit_char(a % 10)];
        let db = seq![spec_digit_char(b % 10)];
        assert(spec_decimal(a) == sa + da);
        assert(spec_decimal(b) == sb + db);
        lemma_decimal_len(a / 10);
        lemma_decimal_len(b / 10);
        assert((sa + da).len() == sa.len() + 1);
        assert((sb + db).len() == sb.len() + 1);
        assert(sa.len() == sb.len());
        assert forall|i: int| 0 <= i < sa.len() implies sa[i] == sb[i] by {
            assert((sa + da)[i] == sa[i]);
            assert((sb + db)[i] == sb[i]);
        }
        assert(sa =~= sb);
        lemma_decimal_injective(a / 10, b / 10);
        assert((sa + da)[sa.len() as int] == spec_digit_char(a % 10));
        assert((sb + db)[sb.len() as int] == spec_digit_char(b % 10));
        lemma_digit_char_injective(a % 10, b % 10);
        vstd::arithmetic::div_mod::lemma_fundamental_div_mod(a as int, 10);
        vstd::arithmetic::div_mod::lemma_fundamental_div_mod(b as int, 10);
    } else {
        // One rendering has one character and the other at least two, so the
        // renderings cannot be equal and this branch is vacuous.
        assert(false);
    }
}

/// Name generated for an environment from counter value `n`.
pub open spec fn spec_environment_name(n: nat) -> Seq<char> {
    "environment_"@ + spec_decimal(n)
}

/// Distinct counter values generate distinct environment names.
pub proof fn lemma_environment_name_injective(a: nat, b: nat)
    requires
        spec_environment_name(a) == spec_environment_name(b),
    ensures
        a == b,
{
    let p = "environment_"@;
    let sa = spec_decimal(a);
    let sb = spec_decimal(b);
    assert(spec_environment_name(a) == p + sa);
    assert(spec_environment_name(b) == p + sb);
    assert((p + sa).len() == p.len() + sa.len());
    assert((p + sb).len() == p.len() + sb.len());
    assert(sa.len() == sb.len());
    assert forall|i: int| 0 <= i < sa.len() implies sa[i] == sb[i] by {
        assert((p + sa)[p.len() + i] == sa[i]);
        assert((p + sb)[p.len() + i] == sb[i]);
    }
    assert(sa =~= sb);
    lemma_decimal_injective(a, b);
}

/// Distinct counter values generate distinct environment names, so a name
/// generated at one counter value is never handed out again once the
/// counter has moved past it — however many entries have come or gone in
/// between.
pub proof fn lemma_generated_names_never_repeat(a: nat, b: nat)
    requires
        a != b,
    ensures
        spec_environment_name(a) != spec_environment_name(b),
{
    if spec_environment_name(a) == spec_environment_name(b) {
        lemma_environment_name_injective(a, b);
    }
}

/// One-character slice holding a decimal digit.
fn digit_str(d: u64) -> (s: &'static str)
    requires
        d < 10,
    ensures
        s@ == seq![spec_digit_char(d as nat)],
{
    let s: &'static str = if d == 0 {
        "0"
    } else if d == 1 {
        "1"
    } else if d == 2 {
        "2"
    } else if d == 3 {
        "3"
    } else if d == 4 {
        "4"
    } else if d == 5 {
        "5"
    } else if d == 6 {
        "6"
    } else if d == 7 {
        "7"
    } else if d == 8 {
        "8"
    } else {
        "9"
    };
    proof {
        reveal_strlit("0");
        reveal_strlit("1");
        reveal_strlit("2");
        reveal_strlit("3");
        reveal_strlit("4");
        reveal_strlit("5");
        reveal_strlit("6");
        reveal_strlit("7");
        reveal_strlit("8");
        reveal_strlit("9");
        assert(s@ =~= seq![spec_digit_char(d as nat)]);
    }
    s
}

/// Append the decimal rendering of `n` to `out`.
fn append_decimal(n: u64, out: &mut String)
    ensures
        final(out)@ == old(out)@ + spec_decimal(n as nat),
    decreases n,
{
    if n < 10 {
        out.append(digit_str(n));
    } else {
        append_decimal(n / 10, out);
        out.append(digit_str(n % 10));
        assert(out@ =~= old(out)@ + spec_decimal(n as nat));
    }
}

/// Decimal rendering of a counter value.
pub fn u64_to_decimal(n: u64) -> (s: String)
    ensures
        s@ == spec_decimal(n as nat),
{
    let mut s = String::new();
    append_decimal(n, &mut s);
    proof {
        assert(s@ =~= spec_decimal(n as nat));
    }
    s
}

/// Executable twin of [`spec_environment_name`].
pub fn environment_name(n: u64) -> (s: String)
    ensures
        s@ == spec_environment_name(n as nat),
{
    let mut s = "environment_".to_owned();
    append_decimal(n, &mut s);
    s
}

} // verus!
