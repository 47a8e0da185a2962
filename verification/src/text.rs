//! Text helpers: comparison, concatenation and splitting of strings, and
//! the decimal text of numbers.
use vstd::prelude::*;

verus! {

/// Whether two texts hold the same characters.
pub fn same_text(a: &str, b: &str) -> (r: bool)
    ensures
        r == (a@ == b@),
{
    <str as PartialEq>::eq(a, b)
}

/// A new string with the characters of `a` followed by those of `b`.
pub fn joined(a: &str, b: &str) -> (r: String)
    ensures
        r@ == a@ + b@,
{
    let mut s = a.to_owned();
    s.append(b);
    s
}

/// The fields of `s` between the occurrences of `sep`, in order, as
/// `str::split` yields them: `k` separators make `k + 1` fields, some of
/// them possibly empty.
pub open spec fn split_fields(s: Seq<char>, sep: char) -> Seq<Seq<char>>
    decreases s.len(),
{
    if s.len() == 0 {
        seq![Seq::empty()]
    } else {
        let init = split_fields(s.drop_last(), sep);
        if s.last() == sep {
            init.push(Seq::empty())
        } else {
            init.update(init.len() - 1, init.last().push(s.last()))
        }
    }
}

/// There is always at least one field.
pub proof fn lemma_split_fields_nonempty(s: Seq<char>, sep: char)
    ensures
        split_fields(s, sep).len() >= 1,
    decreases s.len(),
{
    if s.len() > 0 {
        lemma_split_fields_nonempty(s.drop_last(), sep);
    }
}

/// A word without the separator is a single field.
pub proof fn lemma_split_fields_word(w: Seq<char>, sep: char)
    requires
        !w.contains(sep),
    ensures
        split_fields(w, sep) == seq![w],
    decreases w.len(),
{
    if w.len() > 0 {
        let init = w.drop_last();
        assert(!init.contains(sep)) by {
            if init.contains(sep) {
                let k = choose|k: int| 0 <= k < init.len() && init[k] == sep;
                assert(w[k] == sep);
            }
        }
        lemma_split_fields_word(init, sep);
        assert(w.last() != sep) by {
            assert(w[w.len() - 1] == w.last());
        }
        assert(init.push(w.last()) =~= w);
        assert(split_fields(w, sep) =~= seq![w]);
    } else {
        assert(w =~= Seq::<char>::empty());
    }
}

/// Splitting text joined by a separator gives the fields of each side, in
/// order.
pub proof fn lemma_split_fields_concat(a: Seq<char>, b: Seq<char>, sep: char)
    ensures
        split_fields(a + seq![sep] + b, sep) == split_fields(a, sep) + split_fields(b, sep),
    decreases b.len(),
{
    let s = a + seq![sep] + b;
    if b.len() == 0 {
        assert(s.drop_last() =~= a);
        assert(split_fields(b, sep) =~= seq![Seq::<char>::empty()]);
        assert(split_fields(s, sep) =~= split_fields(a, sep) + split_fields(b, sep));
    } else {
        lemma_split_fields_concat(a, b.drop_last(), sep);
        lemma_split_fields_nonempty(b.drop_last(), sep);
        assert(s.drop_last() =~= a + seq![sep] + b.drop_last());
        assert(s.last() == b.last());
        let x = split_fields(a, sep);
        let y = split_fields(b.drop_last(), sep);
        if b.last() == sep {
            assert(split_fields(s, sep) =~= x + split_fields(b, sep));
        } else {
            assert((x + y).last() == y.last());
            assert(split_fields(s, sep) =~= x + split_fields(b, sep));
        }
    }
}

/// Splits `s` at each occurrence of `sep`.
pub fn split_on<'a>(s: &'a str, sep: char) -> (fields: Vec<&'a str>)
    ensures
        fields@.len() == split_fields(s@, sep).len(),
        forall|k: int| 0 <= k < fields@.len() ==> #[trigger] fields@[k]@ == split_fields(s@, sep)[k],
{
    let n = s.unicode_len();
    let mut fields: Vec<&'a str> = Vec::new();
    let mut start: usize = 0;
    let mut i: usize = 0;
    proof {
        assert(s@.take(0) =~= Seq::<char>::empty());
    }
    for c in it: s.chars()
        invariant
            n == s@.len(),
            i == it.index(),
            it.seq() == s@,
            start <= i <= n,
            fields@.len() + 1 == split_fields(s@.take(i as int), sep).len(),
            forall|k: int| 0 <= k < fields@.len() ==> #[trigger] fields@[k]@ == split_fields(s@.take(i as int), sep)[k],
            split_fields(s@.take(i as int), sep).last() == s@.subrange(start as int, i as int),
    {
        let ghost before = s@.take(i as int);
        proof {
            lemma_split_fields_nonempty(before, sep);
            assert(s@.take(i + 1).drop_last() =~= before);
            assert(s@.subrange(start as int, i + 1) =~= s@.subrange(start as int, i as int).push(c));
        }
        if c == sep {
            fields.push(s.substring_char(start, i));
            start = i + 1;
        }
        i = i + 1;
    }
    proof {
        assert(s@.take(i as int) =~= s@);
    }
    fields.push(s.substring_char(start, i));
    fields
}


/// The character of a decimal digit.
pub open spec fn digit_char(d: int) -> char {
    if d == 0 { '0' }
    else if d == 1 { '1' }
    else if d == 2 { '2' }
    else if d == 3 { '3' }
    else if d == 4 { '4' }
    else if d == 5 { '5' }
    else if d == 6 { '6' }
    else if d == 7 { '7' }
    else if d == 8 { '8' }
    else { '9' }
}

/// The decimal text of a natural number, without leading zeros, as
/// `Display` writes an unsigned integer.
pub open spec fn decimal(n: nat) -> Seq<char>
    decreases n,
{
    if n < 10 {
        seq![digit_char(n as int)]
    } else {
        decimal(n / 10).push(digit_char((n % 10) as int))
    }
}

/// The text of one decimal digit.
fn digit_text(d: u64) -> (r: &'static str)
    requires
        d < 10,
    ensures
        r@ == seq![digit_char(d as int)],
{
    proof {
        reveal_strlit("0");
        reveal_strlit("1");
        reveal_strlit("2");
        reveal_strlit("3");
        reveal_strlit("4");
        reveal_strlit("5");
        reveal_strlit("6");
        reveal_strlit("7");
        reveal_strlit("8");
        reveal_strlit("9");
    }
    if d == 0 { "0" }
    else if d == 1 { "1" }
    else if d == 2 { "2" }
    else if d == 3 { "3" }
    else if d == 4 { "4" }
    else if d == 5 { "5" }
    else if d == 6 { "6" }
    else if d == 7 { "7" }
    else if d == 8 { "8" }
    else { "9" }
}

/// The decimal text of `n`.
pub fn decimal_text(n: u64) -> (r: String)
    ensures
        r@ == decimal(n as nat),
    decreases n,
{
    if n < 10 {
        digit_text(n).to_owned()
    } else {
        let mut s = decimal_text(n / 10);
        s.append(digit_text(n % 10));
        s
    }
}

} // verus!
