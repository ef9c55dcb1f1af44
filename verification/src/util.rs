//! Small helpers shared across the networking core: copying between byte
//! slices and rendering integers as decimal text.

use vstd::prelude::*;
use vstd::string::StringExecFns;

verus! {

/// The character for a single decimal digit.
pub open spec fn spec_digit_char(d: int) -> char {
    ((d + 48) as u8) as char
}

/// The decimal rendering of a natural number, most significant digit first,
/// with no leading zeros (a single `'0'` for zero).
pub open spec fn spec_decimal(n: nat) -> Seq<char>
    decreases n,
{
    if n < 10 {
        seq![spec_digit_char(n as int)]
    } else {
        spec_decimal(n / 10) + seq![spec_digit_char((n % 10) as int)]
    }
}

/// Powers of ten.
pub open spec fn pow10(k: nat) -> nat
    decreases k,
{
    if k == 0 {
        1
    } else {
        10 * pow10((k - 1) as nat)
    }
}

/// A number below the `k`-th power of ten renders to at most `k` digits.
pub proof fn lemma_decimal_len(n: nat, k: nat)
    requires
        1 <= k,
        n < pow10(k),
    ensures
        spec_decimal(n).len() <= k,
    decreases k,
{
    if n >= 10 {
        vstd::arithmetic::div_mod::lemma_fundamental_div_mod(n as int, 10);
        assert(10 * (n / 10) <= n);
        assert(n / 10 < pow10((k - 1) as nat));
        lemma_decimal_len(n / 10, (k - 1) as nat);
    }
}

/// Decimal renderings consist of ASCII characters only.
pub proof fn lemma_decimal_is_ascii(n: nat)
    ensures
        vstd::utf8::is_ascii_chars(spec_decimal(n)),
    decreases n,
{
    if n < 10 {
        assert('\0' <= spec_digit_char(n as int) <= '\u{7f}');
    } else {
        lemma_decimal_is_ascii(n / 10);
        let prefix = spec_decimal(n / 10);
        let whole = spec_decimal(n);
        assert forall|i: int| 0 <= i < whole.len() implies '\0' <= #[trigger] whole[i]
            <= '\u{7f}' by {
            if i < prefix.len() {
                assert(whole[i] == prefix[i]);
            } else {
                assert(whole[i] == spec_digit_char((n % 10) as int));
            }
        }
    }
}

/// One decimal digit as a string slice.
fn digit_str(d: u8) -> (s: &'static str)
    requires
        d < 10,
    ensures
        s@ == seq![spec_digit_char(d as int)],
{
    proof {
        reveal_strlit("0");
        reveal_strlit("1");
        reveal_strlit("2");
        reveal_strlit("3");
        reveal_strlit("4");
        reveal_strlit("5");
        reveal_strlit("6");
        reveal_strlit("7");
        reveal_strlit("8");
        reveal_strlit("9");
    }
    let s: &'static str = match d {
        0 => "0",
        1 => "1",
        2 => "2",
        3 => "3",
        4 => "4",
        5 => "5",
        6 => "6",
        7 => "7",
        8 => "8",
        _ => "9",
    };
    proof {
        assert(s@ =~= seq![spec_digit_char(d as int)]);
    }
    s
}

/// Renders `n` in decimal, most significant digit first.
pub fn decimal_string(n: u64) -> (s: String)
    ensures
        s@ == spec_decimal(n as nat),
    decreases n,
{
    if n < 10 {
        String::from_str(digit_str(n as u8))
    } else {
        let mut s = decimal_string(n / 10);
        s.append(digit_str((n % 10) as u8));
        s
    }
}

/// Copies as many bytes as fit from `from` into the front of `to`, returning
/// the number of bytes copied; the tail of `to` is left untouched.
pub fn slice_copy(from: &[u8], to: &mut [u8]) -> (n: usize)
    ensures
        n == if from@.len() <= old(to)@.len() {
            from@.len()
        } else {
            old(to)@.len()
        },
        final(to)@.len() == old(to)@.len(),
        forall|i: int| 0 <= i < n ==> final(to)@[i] == from@[i],
        forall|i: int| n <= i < old(to)@.len() ==> final(to)@[i] == old(to)@[i],
{
    let count: usize = if from.len() <= to.len() {
        from.len()
    } else {
        to.len()
    };
    let ghost orig = to@;
    let mut i: usize = 0;
    while i < count
        invariant
            i <= count,
            count <= from@.len(),
            count <= to@.len(),
            to@.len() == orig.len(),
            forall|j: int| 0 <= j < i ==> to@[j] == from@[j],
            forall|j: int| i <= j < orig.len() ==> to@[j] == orig[j],
        decreases count - i,
    {
        to[i] = from[i];
        i = i + 1;
    }
    count
}

} // verus!
