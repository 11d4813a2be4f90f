use vstd::prelude::*;

verus! {

/// Whether a character is a decimal digit.
pub open spec fn spec_is_digit(c: char) -> bool {
    '0' <= c && c <= '9'
}

/// Numeric value of a digit character (meaningful only when `spec_is_digit` holds).
pub open spec fn spec_digit_val(c: char) -> nat {
    ((c as u32) - ('0' as u32)) as nat
}

/// The decimal digit character for a value below ten.
pub open spec fn spec_digit_char(d: nat) -> char {
    if d == 0 { '0' }
    else if d == 1 { '1' }
    else if d == 2 { '2' }
    else if d == 3 { '3' }
    else if d == 4 { '4' }
    else if d == 5 { '5' }
    else if d == 6 { '6' }
    else if d == 7 { '7' }
    else if d == 8 { '8' }
    else { '9' }
}

/// Decimal rendering of a natural number, most significant digit first.
pub open spec fn spec_digits(n: nat) -> Seq<char>
    decreases n,
{
    if n < 10 {
        seq![spec_digit_char(n)]
    } else {
        spec_digits(n / 10).push(spec_digit_char(n % 10))
    }
}

/// One-character string for a digit value.
fn digit_str(d: u64) -> (r: &'static str)
    requires
        d < 10,
    ensures
        r@ == seq![spec_digit_char(d as nat)],
{
    proof {
        reveal_strlit("0");
        reveal_strlit("1");
        reveal_strlit("2");
        reveal_strlit("3");
        reveal_strlit("4");
        reveal_strlit("5");
        reveal_strlit("6");
        reveal_strlit("7");
        reveal_strlit("8");
        reveal_strlit("9");
    }
    match d {
        0 => "0",
        1 => "1",
        2 => "2",
        3 => "3",
        4 => "4",
        5 => "5",
        6 => "6",
        7 => "7",
        8 => "8",
        _ => "9",
    }
}

/// Appends the decimal rendering of `n` to `out`.
pub fn push_digits(n: u64, out: &mut String)
    ensures
        final(out)@ == old(out)@ + spec_digits(n as nat),
    decreases n,
{
    if n >= 10 {
        push_digits(n / 10, out);
    }
    let ghost mid = out@;
    out.append(digit_str(n % 10));
    proof {
        if n >= 10 {
            assert(old(out)@ + spec_digits(n as nat)
                =~= (old(out)@ + spec_digits((n / 10) as nat)).push(spec_digit_char((n % 10) as nat)));
        } else {
            assert(old(out)@ + spec_digits(n as nat)
                =~= old(out)@.push(spec_digit_char(n as nat)));
        }
    }
}

/// Decimal rendering of `n` as a fresh string.
pub fn u64_to_string(n: u64) -> (r: String)
    ensures
        r@ == spec_digits(n as nat),
{
    let mut s = String::new();
    push_digits(n, &mut s);
    proof {
        assert(Seq::<char>::empty() + spec_digits(n as nat) =~= spec_digits(n as nat));
    }
    s
}

/// Decimal rendering padded with a leading zero to at least two characters.
pub open spec fn spec_pad2(n: nat) -> Seq<char> {
    if n < 10 {
        seq!['0'] + spec_digits(n)
    } else {
        spec_digits(n)
    }
}

/// Appends the zero-padded two-or-more digit rendering of `n` to `out`.
pub fn push_pad2(n: u64, out: &mut String)
    ensures
        final(out)@ == old(out)@ + spec_pad2(n as nat),
{
    let ghost start = out@;
    if n < 10 {
        proof {
            reveal_strlit("0");
        }
        out.append("0");
    }
    push_digits(n, &mut *out);
    proof {
        if n < 10 {
            assert(old(out)@ + spec_pad2(n as nat)
                =~= (old(out)@ + "0"@) + spec_digits(n as nat));
        }
    }
}

/// Whether every character of `s` is a decimal digit.
pub open spec fn spec_all_digits(s: Seq<char>) -> bool {
    forall|i: int| 0 <= i < s.len() ==> spec_is_digit(#[trigger] s[i])
}

/// Value of a digit sequence read as a decimal number.
pub open spec fn spec_seq_val(s: Seq<char>) -> nat
    decreases s.len(),
{
    if s.len() == 0 {
        0
    } else {
        spec_seq_val(s.drop_last()) * 10 + spec_digit_val(s.last())
    }
}

/// What a numeric field is worth: a non-empty all-digit sequence whose value
/// fits in a `u64` gives that value, anything else gives zero.
pub open spec fn spec_parse_field(s: Seq<char>) -> u64 {
    if s.len() > 0 && spec_all_digits(s) && spec_seq_val(s) <= u64::MAX {
        spec_seq_val(s) as u64
    } else {
        0
    }
}

/// The decimal value of a prefix never exceeds the value of a longer prefix.
proof fn lemma_seq_val_prefix_le(s: Seq<char>, i: int, j: int)
    requires
        0 <= i <= j <= s.len(),
    ensures
        spec_seq_val(s.take(i)) <= spec_seq_val(s.take(j)),
    decreases j - i,
{
    if i < j {
        lemma_seq_val_prefix_le(s, i, j - 1);
        assert(s.take(j).drop_last() =~= s.take(j - 1));
        assert(spec_seq_val(s.take(j)) == spec_seq_val(s.take(j - 1)) * 10 + spec_digit_val(s.take(j).last()));
    }
}

/// Parses a numeric field: digits give their value, while empty, non-numeric
/// or overflowing input silently degrades to zero.
pub fn parse_field(s: &str) -> (r: u64)
    ensures
        r == spec_parse_field(s@),
{
    let len = s.unicode_len();
    let mut i: usize = 0;
    let mut ok: bool = true;
    let mut acc: u64 = 0;
    while i < len
        invariant
            0 <= i <= len,
            len == s@.len(),
            ok ==> spec_all_digits(s@.take(i as int)) && acc == spec_seq_val(s@.take(i as int)),
            !ok ==> !spec_all_digits(s@) || spec_seq_val(s@) > u64::MAX,
        decreases len - i,
    {
        let c = s.get_char(i);
        let u = c as u32;
        if ok {
            if 48 <= u && u <= 57 {
                let d = (u - 48) as u64;
                assert(spec_is_digit(c) && spec_digit_val(c) == d);
                if acc > u64::MAX / 10 || (acc == u64::MAX / 10 && d > u64::MAX % 10) {
                    proof {
                        assert(s@.take(i + 1).drop_last() =~= s@.take(i as int));
                        assert(acc * 10 + d > u64::MAX) by (nonlinear_arith)
                            requires
                                acc > u64::MAX / 10 || (acc == u64::MAX / 10 && d > u64::MAX % 10),
                                acc == spec_seq_val(s@.take(i as int)),
                                u64::MAX == u64::MAX / 10 * 10 + u64::MAX % 10,
                        ;
                        lemma_seq_val_prefix_le(s@, i + 1, s@.len() as int);
                        assert(s@.take(s@.len() as int) =~= s@);
                    }
                    ok = false;
                } else {
                    proof {
                        assert(acc * 10 + d <= u64::MAX) by (nonlinear_arith)
                            requires
                                acc <= u64::MAX / 10,
                                d <= 9,
                                !(acc == u64::MAX / 10 && d > u64::MAX % 10),
                                u64::MAX == u64::MAX / 10 * 10 + u64::MAX % 10,
                        ;
                        assert(s@.take(i + 1).drop_last() =~= s@.take(i as int));
                    }
                    acc = acc * 10 + d;
                    assert(acc == spec_seq_val(s@.take(i + 1)));
                }
            } else {
                assert(!spec_is_digit(s@[i as int]));
                ok = false;
            }
        }
        i += 1;
    }
    proof {
        assert(s@.take(len as int) =~= s@);
    }
    if ok {
        acc
    } else {
        0
    }
}

/// Index of the first colon at or after `i`, or the length when there is none.
pub open spec fn spec_find_colon(s: Seq<char>, i: int) -> int
    decreases s.len() - i,
{
    if i < 0 || i >= s.len() {
        s.len() as int
    } else if s[i] == ':' {
        i
    } else {
        spec_find_colon(s, i + 1)
    }
}

/// A position with no colon before it and a colon (or the end) at it is the first colon.
pub proof fn lemma_find_colon_at(s: Seq<char>, from: int, at: int)
    requires
        0 <= from <= at <= s.len(),
        forall|j: int| from <= j < at ==> s[j] != ':',
        at == s.len() || s[at] == ':',
    ensures
        spec_find_colon(s, from) == at,
    decreases at - from,
{
    if from < at {
        lemma_find_colon_at(s, from + 1, at);
    }
}

/// Finds the first colon at or after `from`, or the length when there is none.
pub fn find_colon(s: &str, from: usize) -> (r: usize)
    requires
        from <= s@.len(),
    ensures
        r == spec_find_colon(s@, from as int),
        from <= r <= s@.len(),
{
    let len = s.unicode_len();
    let mut i: usize = from;
    while i < len
        invariant
            from <= i <= len,
            len == s@.len(),
            forall|j: int| from <= j < i ==> s@[j] != ':',
        decreases len - i,
    {
        if s.get_char(i) == ':' {
            proof {
                lemma_find_colon_at(s@, from as int, i as int);
            }
            return i;
        }
        i += 1;
    }
    proof {
        lemma_find_colon_at(s@, from as int, len as int);
    }
    len
}

/// Rendering a number and reading the digits back gives the number again.
pub proof fn lemma_digits_roundtrip(n: u64)
    ensures
        spec_digits(n as nat).len() >= 1,
        spec_all_digits(spec_digits(n as nat)),
        spec_seq_val(spec_digits(n as nat)) == n,
        spec_parse_field(spec_digits(n as nat)) == n,
    decreases n,
{
    if n < 10 {
        assert(spec_digits(n as nat) =~= seq![spec_digit_char(n as nat)]);
        assert(spec_seq_val(seq![spec_digit_char(n as nat)])
            == spec_seq_val(seq![spec_digit_char(n as nat)].drop_last()) * 10
                + spec_digit_val(spec_digit_char(n as nat)));
        assert(seq![spec_digit_char(n as nat)].drop_last() =~= Seq::<char>::empty());
    } else {
        lemma_digits_roundtrip(n / 10);
        let d = spec_digits((n / 10) as nat);
        let whole = spec_digits(n as nat);
        assert(whole == d.push(spec_digit_char((n % 10) as nat)));
        assert(whole.drop_last() =~= d);
        assert(spec_seq_val(whole) == spec_seq_val(d) * 10 + spec_digit_val(whole.last()));
        assert(spec_digit_val(spec_digit_char((n % 10) as nat)) == n % 10);
        assert(spec_seq_val(whole) == (n / 10) * 10 + n % 10);
        assert((n / 10) * 10 + n % 10 == n) by (nonlinear_arith);
        assert forall|i: int| 0 <= i < whole.len() implies spec_is_digit(#[trigger] whole[i]) by {
            if i < d.len() {
                assert(whole[i] == d[i]);
            } else {
                assert(whole[i] == spec_digit_char((n % 10) as nat));
            }
        }
    }
}

/// Character-for-character string equality.
pub fn str_eq(a: &str, b: &str) -> (r: bool)
    ensures
        r == (a@ == b@),
{
    let len_a = a.unicode_len();
    let len_b = b.unicode_len();
    if len_a != len_b {
        return false;
    }
    let mut i: usize = 0;
    while i < len_a
        invariant
            0 <= i <= len_a,
            len_a == a@.len(),
            len_a == b@.len(),
            forall|j: int| 0 <= j < i ==> a@[j] == b@[j],
        decreases len_a - i,
    {
        if a.get_char(i) != b.get_char(i) {
            return false;
        }
        i += 1;
    }
    proof {
        assert(a@ =~= b@);
    }
    true
}

/// The digit rendering of a number contains no colon.
pub proof fn lemma_digits_no_colon(n: u64)
    ensures
        forall|i: int| 0 <= i < spec_digits(n as nat).len()
            ==> #[trigger] spec_digits(n as nat)[i] != ':',
    decreases n,
{
    lemma_digits_roundtrip(n);
    assert forall|i: int| 0 <= i < spec_digits(n as nat).len()
        implies #[trigger] spec_digits(n as nat)[i] != ':' by {
        assert(spec_is_digit(spec_digits(n as nat)[i]));
    }
}

} // verus!
