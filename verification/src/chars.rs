//! Character-level helpers shared by the tokenizer, the tag coercions and the
//! serializer: decimal digit sequences, their numeric values, and conversions
//! between `String` and `Vec<char>`.

use vstd::prelude::*;

verus! {

pub open spec fn is_digit_char(c: char) -> bool {
    '0' <= c && c <= '9'
}

pub open spec fn digit_val(c: char) -> int {
    c as int - '0' as int
}

pub open spec fn digit_char(d: int) -> char {
    (('0' as u8) + d) as char
}

pub open spec fn all_digits(s: Seq<char>) -> bool {
    forall|i: int| 0 <= i < s.len() ==> is_digit_char(#[trigger] s[i])
}

/// The numeric value of a sequence of decimal digit characters,
/// most significant digit first.
pub open spec fn seq_dec_val(s: Seq<char>) -> int
    decreases s.len(),
{
    if s.len() == 0 {
        0
    } else {
        seq_dec_val(s.drop_last()) * 10 + digit_val(s.last())
    }
}

pub proof fn lemma_seq_dec_val_nonneg(s: Seq<char>)
    requires
        all_digits(s),
    ensures
        seq_dec_val(s) >= 0,
    decreases s.len(),
{
    if s.len() > 0 {
        assert(all_digits(s.drop_last()));
        lemma_seq_dec_val_nonneg(s.drop_last());
    }
}

/// Appending digits never decreases the value of the digit string.
pub proof fn lemma_seq_dec_val_mono(s: Seq<char>, i: int, j: int)
    requires
        all_digits(s),
        0 <= i <= j <= s.len(),
    ensures
        seq_dec_val(s.take(i)) <= seq_dec_val(s.take(j)),
    decreases j - i,
{
    if i < j {
        lemma_seq_dec_val_mono(s, i, j - 1);
        let t = s.take(j);
        assert(t.drop_last() =~= s.take(j - 1));
        assert(all_digits(s.take(j - 1)));
        lemma_seq_dec_val_nonneg(s.take(j - 1));
        assert(seq_dec_val(t) == seq_dec_val(s.take(j - 1)) * 10 + digit_val(t.last()));
        assert(is_digit_char(s[j - 1]));
    }
}

/// The numeric value of the decimal digits `s[from..to]`, or `None` when it
/// does not fit in a `usize`.
pub fn dec_value(s: &Vec<char>, from: usize, to: usize) -> (r: Option<usize>)
    requires
        from <= to <= s@.len(),
        all_digits(s@.subrange(from as int, to as int)),
    ensures
        match r {
            Some(v) => v == seq_dec_val(s@.subrange(from as int, to as int)),
            None => seq_dec_val(s@.subrange(from as int, to as int)) > usize::MAX,
        },
{
    let ghost sub = s@.subrange(from as int, to as int);
    let mut acc: usize = 0;
    let mut i: usize = from;
    while i < to
        invariant
            from <= i <= to <= s@.len(),
            sub == s@.subrange(from as int, to as int),
            all_digits(sub),
            acc == seq_dec_val(sub.take(i - from)),
        decreases to - i,
    {
        let c = s[i];
        assert(sub[i - from] == s@[i as int]);
        assert(is_digit_char(c));
        let d: usize = ((c as u32) - ('0' as u32)) as usize;
        assert(d == digit_val(c));
        let acc10 = match acc.checked_mul(10) {
            Some(x) => x,
            None => {
                proof {
                    assert(sub.take(i + 1 - from).drop_last() =~= sub.take(i - from));
                    assert(sub.take(i + 1 - from).last() == sub[i - from]);
                    assert(seq_dec_val(sub.take(i + 1 - from)) == acc * 10 + digit_val(c));
                    lemma_seq_dec_val_mono(sub, i + 1 - from, sub.len() as int);
                    assert(sub.take(sub.len() as int) =~= sub);
                }
                return None;
            },
        };
        let acc2 = match acc10.checked_add(d) {
            Some(x) => x,
            None => {
                proof {
                    assert(sub.take(i + 1 - from).drop_last() =~= sub.take(i - from));
                    assert(sub.take(i + 1 - from).last() == sub[i - from]);
                    assert(seq_dec_val(sub.take(i + 1 - from)) == acc * 10 + digit_val(c));
                    lemma_seq_dec_val_mono(sub, i + 1 - from, sub.len() as int);
                    assert(sub.take(sub.len() as int) =~= sub);
                }
                return None;
            },
        };
        proof {
            assert(sub.take(i + 1 - from).drop_last() =~= sub.take(i - from));
            assert(sub.take(i + 1 - from).last() == sub[i - from]);
        }
        acc = acc2;
        i = i + 1;
    }
    proof {
        assert(sub.take(to - from) =~= sub);
    }
    Some(acc)
}

/// The decimal rendering of `n >= 0`, most significant digit first,
/// without leading zeros (a single `'0'` for zero).
pub open spec fn dec_digits(n: int) -> Seq<char>
    decreases n,
{
    if n < 10 {
        seq![digit_char(n)]
    } else {
        dec_digits(n / 10).push(digit_char(n % 10))
    }
}

pub fn push_dec(out: &mut Vec<char>, n: usize)
    ensures
        final(out)@ == old(out)@ + dec_digits(n as int),
    decreases n,
{
    if n >= 10 {
        push_dec(out, n / 10);
    }
    let d: u8 = (n % 10) as u8;
    out.push((('0' as u8) + d) as char);
    proof {
        if n < 10 {
            assert(out@ =~= old(out)@ + dec_digits(n as int));
        } else {
            assert(out@ =~= old(out)@ + dec_digits(n as int));
        }
    }
}

/// A two-digit zero-padded rendering, for the fields of a time literal.
pub open spec fn two_dec(n: int) -> Seq<char> {
    seq![digit_char(n / 10), digit_char(n % 10)]
}

pub fn push_two_dec(out: &mut Vec<char>, n: usize)
    requires
        n <= 99,
    ensures
        final(out)@ == old(out)@ + two_dec(n as int),
{
    out.push((('0' as u8) + (n / 10) as u8) as char);
    out.push((('0' as u8) + (n % 10) as u8) as char);
    proof {
        assert(out@ =~= old(out)@ + two_dec(n as int));
    }
}

/// A four-digit zero-padded rendering, for the year of a date.
pub open spec fn four_dec(n: int) -> Seq<char> {
    seq![
        digit_char(n / 1000),
        digit_char(n / 100 % 10),
        digit_char(n / 10 % 10),
        digit_char(n % 10),
    ]
}

pub fn push_four_dec(out: &mut Vec<char>, n: usize)
    requires
        n <= 9999,
    ensures
        final(out)@ == old(out)@ + four_dec(n as int),
{
    out.push((('0' as u8) + (n / 1000) as u8) as char);
    out.push((('0' as u8) + (n / 100 % 10) as u8) as char);
    out.push((('0' as u8) + (n / 10 % 10) as u8) as char);
    out.push((('0' as u8) + (n % 10) as u8) as char);
    proof {
        assert(out@ =~= old(out)@ + four_dec(n as int));
    }
}

/// The characters of `s`, in order.
pub fn str_to_chars(s: &str) -> (v: Vec<char>)
    ensures
        v@ == s@,
{
    let n = s.unicode_len();
    let mut v: Vec<char> = Vec::new();
    let mut i: usize = 0;
    while i < n
        invariant
            0 <= i <= n,
            n == s@.len(),
            v@ == s@.take(i as int),
        decreases n - i,
    {
        v.push(s.get_char(i));
        proof {
            assert(v@ =~= s@.take(i + 1));
        }
        i = i + 1;
    }
    proof {
        assert(s@.take(n as int) =~= s@);
    }
    v
}

/// Builds the `String` whose characters are exactly those of `v`.
/// Relies on `String: FromIterator<char>` of std: collecting chars yields
/// a string with those characters in order.
#[verifier::external_body]
pub fn chars_to_string(v: &Vec<char>) -> (s: String)
    ensures
        s@ == v@,
{
    v.iter().collect()
}

/// True iff the characters `s[from..to]` are exactly those of `lit`.
pub fn range_eq_str(s: &Vec<char>, from: usize, to: usize, lit: &str) -> (b: bool)
    requires
        from <= to <= s@.len(),
    ensures
        b == (s@.subrange(from as int, to as int) == lit@),
{
    let n = lit.unicode_len();
    if n != to - from {
        proof {
            assert(s@.subrange(from as int, to as int).len() == to - from);
        }
        return false;
    }
    let mut i: usize = 0;
    while i < n
        invariant
            0 <= i <= n,
            n == lit@.len(),
            n == to - from,
            from <= to <= s@.len(),
            forall|j: int| 0 <= j < i ==> s@[from + j] == lit@[j],
        decreases n - i,
    {
        if s[from + i] != lit.get_char(i) {
            proof {
                assert(s@.subrange(from as int, to as int)[i as int] != lit@[i as int]);
            }
            return false;
        }
        i = i + 1;
    }
    proof {
        assert(s@.subrange(from as int, to as int) =~= lit@);
    }
    true
}


/// The string holding exactly the characters `s[from..to]`.
pub fn range_to_string(s: &Vec<char>, from: usize, to: usize) -> (r: String)
    requires
        from <= to <= s@.len(),
    ensures
        r@ == s@.subrange(from as int, to as int),
{
    let mut v: Vec<char> = Vec::new();
    let mut i: usize = from;
    while i < to
        invariant
            from <= i <= to <= s@.len(),
            v@ == s@.subrange(from as int, i as int),
        decreases to - i,
    {
        v.push(s[i]);
        proof {
            assert(v@ =~= s@.subrange(from as int, i + 1));
        }
        i = i + 1;
    }
    chars_to_string(&v)
}

/// Rendering a number and reading it back is the identity: the rendering
/// is all digits and its value is the number.
pub proof fn lemma_dec_digits_value(n: int)
    requires
        n >= 0,
    ensures
        all_digits(dec_digits(n)),
        seq_dec_val(dec_digits(n)) == n,
        dec_digits(n).len() >= 1,
    decreases n,
{
    if n < 10 {
        assert(is_digit_char(digit_char(n)));
        assert(dec_digits(n) == seq![digit_char(n)]);
        assert(dec_digits(n).drop_last() =~= Seq::<char>::empty());
        assert(dec_digits(n).last() == digit_char(n));
        assert(seq_dec_val(Seq::<char>::empty()) == 0);
        assert(digit_val(digit_char(n)) == n);
        assert(seq_dec_val(dec_digits(n)) == 0 * 10 + n);
    } else {
        lemma_dec_digits_value(n / 10);
        let d = dec_digits(n);
        assert(d == dec_digits(n / 10).push(digit_char(n % 10)));
        assert(d.drop_last() =~= dec_digits(n / 10));
        assert(d.last() == digit_char(n % 10));
        assert(is_digit_char(digit_char(n % 10)));
        assert(digit_val(digit_char(n % 10)) == n % 10);
        assert(seq_dec_val(d) == (n / 10) * 10 + n % 10);
        assert((n / 10) * 10 + n % 10 == n) by (nonlinear_arith)
            requires
                n >= 0,
        ;
    }
}

/// Rendering a two-digit field and reading its digits back is the identity.
pub proof fn lemma_two_dec_value(n: int)
    requires
        0 <= n <= 99,
    ensures
        is_digit_char(two_dec(n)[0]),
        is_digit_char(two_dec(n)[1]),
        digit_val(two_dec(n)[0]) * 10 + digit_val(two_dec(n)[1]) == n,
{
    assert(digit_val(digit_char(n / 10)) == n / 10);
    assert(digit_val(digit_char(n % 10)) == n % 10);
    assert((n / 10) * 10 + n % 10 == n) by (nonlinear_arith)
        requires
            0 <= n,
    ;
}

/// Rendering a four-digit field and reading its digits back is the
/// identity.
pub proof fn lemma_four_dec_value(n: int)
    requires
        0 <= n <= 9999,
    ensures
        all_digits(four_dec(n)),
        seq_dec_val(four_dec(n)) == n,
{
    let f = four_dec(n);
    assert(is_digit_char(digit_char(n / 1000)));
    assert(is_digit_char(digit_char(n / 100 % 10)));
    assert(is_digit_char(digit_char(n / 10 % 10)));
    assert(is_digit_char(digit_char(n % 10)));
    assert forall|i: int| 0 <= i < f.len() implies is_digit_char(#[trigger] f[i]) by {
        assert(f[0] == digit_char(n / 1000));
        assert(f[1] == digit_char(n / 100 % 10));
        assert(f[2] == digit_char(n / 10 % 10));
        assert(f[3] == digit_char(n % 10));
    }
    assert(f.drop_last() =~= seq![
        digit_char(n / 1000),
        digit_char(n / 100 % 10),
        digit_char(n / 10 % 10),
    ]);
    assert(f.drop_last().drop_last() =~= seq![digit_char(n / 1000), digit_char(n / 100 % 10)]);
    assert(f.drop_last().drop_last().drop_last() =~= seq![digit_char(n / 1000)]);
    assert(seq![digit_char(n / 1000)].drop_last() =~= Seq::<char>::empty());
    assert(seq_dec_val(Seq::<char>::empty()) == 0);
    assert(seq_dec_val(seq![digit_char(n / 1000)]) == n / 1000);
    assert(seq_dec_val(f.drop_last().drop_last()) == (n / 1000) * 10 + n / 100 % 10);
    assert(seq_dec_val(f.drop_last()) == ((n / 1000) * 10 + n / 100 % 10) * 10 + n / 10 % 10);
    assert(seq_dec_val(f) == (((n / 1000) * 10 + n / 100 % 10) * 10 + n / 10 % 10) * 10 + n
        % 10);
    assert((((n / 1000) * 10 + n / 100 % 10) * 10 + n / 10 % 10) * 10 + n % 10 == n)
        by (nonlinear_arith)
        requires
            0 <= n <= 9999,
    ;
}
} // verus!
