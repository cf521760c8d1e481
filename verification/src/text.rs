//! Character-level utilities: base-ten numerals, string equality, and
//! word joining, with the spec-level vocabulary the rest of the library
//! uses to speak about the text it produces and consumes.

use vstd::prelude::*;
use vstd::string::*;

verus! {

/// True for the ten ASCII digit characters.
pub open spec fn is_digit(c: char) -> bool {
    48 <= c as u32 <= 57
}

/// Numeric value of an ASCII digit character.
pub open spec fn digit_val(c: char) -> nat {
    (c as u32 - 48) as nat
}

/// The digit character for a value below ten.
pub open spec fn digit_char(d: nat) -> char {
    if d == 0 {
        '0'
    } else if d == 1 {
        '1'
    } else if d == 2 {
        '2'
    } else if d == 3 {
        '3'
    } else if d == 4 {
        '4'
    } else if d == 5 {
        '5'
    } else if d == 6 {
        '6'
    } else if d == 7 {
        '7'
    } else if d == 8 {
        '8'
    } else {
        '9'
    }
}

/// Rendering a digit and reading it back is the identity, and yields a digit.
pub proof fn lemma_digit_roundtrip(d: nat)
    requires
        d < 10,
    ensures
        digit_val(digit_char(d)) == d,
        is_digit(digit_char(d)),
{
}

pub open spec fn all_digits(s: Seq<char>) -> bool {
    forall|i: int| 0 <= i < s.len() ==> is_digit(#[trigger] s[i])
}

/// Value of a digit string read in base ten.
pub open spec fn dec_val(s: Seq<char>) -> nat
    decreases s.len(),
{
    if s.len() == 0 {
        0
    } else {
        dec_val(s.drop_last()) * 10 + digit_val(s.last())
    }
}

/// The canonical base-ten rendering of a natural number.
pub open spec fn dec_rep(n: nat) -> Seq<char>
    decreases n,
{
    if n < 10 {
        seq![digit_char(n)]
    } else {
        dec_rep(n / 10) + seq![digit_char(n % 10)]
    }
}

/// Reading a numeral: `Some` iff the text is nonempty, all digits, and its
/// value fits in `usize`; leading zeroes are accepted.
pub open spec fn parse_dec(s: Seq<char>) -> Option<nat> {
    if s.len() > 0 && all_digits(s) && dec_val(s) <= usize::MAX {
        Some(dec_val(s))
    } else {
        None
    }
}

/// The lenient small-number reading used by the command validators: any
/// text that is not a numeral for a value in `1..=255` reads as zero
/// (and zero itself is never a legal stat, so zero always means "invalid").
pub open spec fn parse_u8_or_zero(s: Seq<char>) -> nat {
    if s.len() > 0 && all_digits(s) && dec_val(s) <= 255 {
        dec_val(s)
    } else {
        0
    }
}

/// The canonical rendering consists of digits and is never empty.
pub proof fn lemma_dec_rep_digits(n: nat)
    ensures
        dec_rep(n).len() >= 1,
        all_digits(dec_rep(n)),
    decreases n,
{
    if n < 10 {
    } else {
        lemma_dec_rep_digits(n / 10);
    }
}

/// Reading back the canonical rendering gives the number itself.
pub proof fn lemma_dec_rep_val(n: nat)
    ensures
        dec_val(dec_rep(n)) == n,
    decreases n,
{
    if n < 10 {
        lemma_digit_roundtrip(n);
        let s = dec_rep(n);
        assert(s.len() == 1);
        assert(s.drop_last() =~= Seq::<char>::empty());
        assert(dec_val(s.drop_last()) == 0);
        assert(s.last() == digit_char(n));
        assert(dec_val(s) == dec_val(s.drop_last()) * 10 + digit_val(s.last()));
        assert(dec_val(s) == n);
    } else {
        lemma_dec_rep_val(n / 10);
        lemma_digit_roundtrip(n % 10);
        let s = dec_rep(n);
        assert(s.len() >= 1);
        assert(s.drop_last() =~= dec_rep(n / 10));
        assert(s.last() == digit_char(n % 10));
        assert(dec_val(s) == dec_val(s.drop_last()) * 10 + digit_val(s.last()));
        assert(dec_val(s) == (n / 10) * 10 + (n % 10));
        assert(dec_val(s) == n);
    }
}

/// A digit string is worth at least as much as any of its prefixes.
pub proof fn lemma_dec_val_prefix(s: Seq<char>, i: int)
    requires
        0 <= i <= s.len(),
    ensures
        dec_val(s.subrange(0, i)) <= dec_val(s),
    decreases s.len() - i,
{
    if i == s.len() {
        assert(s.subrange(0, i) =~= s);
    } else {
        lemma_dec_val_prefix(s, i + 1);
        assert(s.subrange(0, i + 1).drop_last() =~= s.subrange(0, i));
        assert(dec_val(s.subrange(0, i + 1)) == dec_val(s.subrange(0, i)) * 10 + digit_val(
            s.subrange(0, i + 1).last(),
        ));
    }
}

/// Character-by-character string comparison.
pub fn str_eq(a: &str, b: &str) -> (r: bool)
    ensures
        r == (a@ == b@),
{
    let alen = a.unicode_len();
    let blen = b.unicode_len();
    if alen != blen {
        return false;
    }
    let mut i: usize = 0;
    while i < alen
        invariant
            alen == a@.len(),
            alen == b@.len(),
            i <= alen,
            forall|j: int| 0 <= j < i ==> a@[j] == b@[j],
        decreases alen - i,
    {
        if a.get_char(i) != b.get_char(i) {
            return false;
        }
        i = i + 1;
    }
    proof {
        assert(a@ =~= b@);
    }
    true
}

/// Appends one digit character.
fn append_digit(out: &mut String, d: u8)
    requires
        d < 10,
    ensures
        final(out)@ == old(out)@ + seq![digit_char(d as nat)],
{
    let s: &str = match d {
        0 => "0",
        1 => "1",
        2 => "2",
        3 => "3",
        4 => "4",
        5 => "5",
        6 => "6",
        7 => "7",
        8 => "8",
        _ => "9",
    };
    proof {
        reveal_strlit("0");
        reveal_strlit("1");
        reveal_strlit("2");
        reveal_strlit("3");
        reveal_strlit("4");
        reveal_strlit("5");
        reveal_strlit("6");
        reveal_strlit("7");
        reveal_strlit("8");
        reveal_strlit("9");
        assert(s@ =~= seq![digit_char(d as nat)]);
    }
    out.append(s);
}

/// Appends the base-ten rendering of `n`.
pub fn append_dec(out: &mut String, n: usize)
    ensures
        final(out)@ == old(out)@ + dec_rep(n as nat),
    decreases n,
{
    if n < 10 {
        append_digit(out, n as u8);
    } else {
        append_dec(out, n / 10);
        append_digit(out, (n % 10) as u8);
        proof {
            assert(out@ =~= old(out)@ + dec_rep(n as nat));
        }
    }
}

/// Reads a base-ten numeral from a whole string slice.
pub fn parse_usize(s: &str) -> (r: Option<usize>)
    ensures
        match r {
            Some(v) => parse_dec(s@) == Some(v as nat),
            None => parse_dec(s@) is None,
        },
{
    let len = s.unicode_len();
    if len == 0 {
        return None;
    }
    let mut acc: usize = 0;
    let mut i: usize = 0;
    while i < len
        invariant
            len == s@.len(),
            0 < len,
            i <= len,
            all_digits(s@.subrange(0, i as int)),
            acc as nat == dec_val(s@.subrange(0, i as int)),
        decreases len - i,
    {
        let c = s.get_char(i);
        let u = c as u32;
        if u < 48 || u > 57 {
            proof {
                assert(!all_digits(s@));
            }
            return None;
        }
        let d = (u - 48) as usize;
        if acc > (usize::MAX - d) / 10 {
            proof {
                assert((acc as nat) * 10 + d as nat > usize::MAX as nat) by (nonlinear_arith)
                    requires
                        acc as nat > (usize::MAX as nat - d as nat) / 10,
                        d < 10,
                ;
                assert(s@.subrange(0, i + 1).drop_last() =~= s@.subrange(0, i as int));
                assert(dec_val(s@.subrange(0, i + 1)) == (acc as nat) * 10 + d as nat);
                lemma_dec_val_prefix(s@, i + 1);
                assert(dec_val(s@) > usize::MAX as nat);
            }
            return None;
        }
        proof {
            assert((acc as nat) * 10 + d as nat <= usize::MAX as nat) by (nonlinear_arith)
                requires
                    acc as nat <= (usize::MAX as nat - d as nat) / 10,
                    d < 10,
            ;
            assert(s@.subrange(0, i + 1).drop_last() =~= s@.subrange(0, i as int));
        }
        acc = acc * 10 + d;
        i = i + 1;
    }
    proof {
        assert(s@.subrange(0, len as int) =~= s@);
    }
    Some(acc)
}

/// Reads a small number leniently: anything other than a numeral for a
/// value at most 255 yields zero.
pub fn str_to_u8(s: &str) -> (r: u8)
    ensures
        r as nat == parse_u8_or_zero(s@),
{
    match parse_usize(s) {
        Some(v) => {
            if v <= 255 {
                v as u8
            } else {
                0
            }
        },
        None => 0,
    }
}

/// Index of the first space, or the length when there is none.
pub open spec fn first_space(s: Seq<char>) -> nat
    decreases s.len(),
{
    if s.len() == 0 {
        0
    } else if s[0] == ' ' {
        0
    } else {
        1 + first_space(s.drop_first())
    }
}

pub proof fn lemma_first_space_bounds(s: Seq<char>)
    ensures
        first_space(s) <= s.len(),
        first_space(s) < s.len() ==> s[first_space(s) as int] == ' ',
        forall|j: int| 0 <= j < first_space(s) ==> s[j] != ' ',
    decreases s.len(),
{
    if s.len() > 0 && s[0] != ' ' {
        let t = s.drop_first();
        lemma_first_space_bounds(t);
        assert forall|j: int| 0 <= j < first_space(s) implies s[j] != ' ' by {
            if j > 0 {
                assert(t[j - 1] == s[j]);
            }
        }
    }
}

/// The space-separated fields of a line, empty fields kept: splitting at
/// every single space, as a chat front end tokenizes a message.
pub open spec fn split_spec(s: Seq<char>) -> Seq<Seq<char>>
    decreases s.len(),
{
    let i = first_space(s);
    if i >= s.len() {
        seq![s]
    } else {
        seq![s.subrange(0, i as int)] + split_spec(s.subrange(i as int + 1, s.len() as int))
    }
}

/// A stretch without spaces followed by a space or the end pins the first
/// space down.
proof fn lemma_first_space_at(s: Seq<char>, k: int)
    requires
        0 <= k <= s.len(),
        forall|j: int| 0 <= j < k ==> s[j] != ' ',
        k == s.len() || s[k] == ' ',
    ensures
        first_space(s) == k,
    decreases k,
{
    if k == 0 {
    } else {
        assert(s[0] != ' ');
        let t = s.drop_first();
        assert(forall|j: int| 0 <= j < k - 1 ==> t[j] != ' ');
        assert(k - 1 == t.len() || t[k - 1] == ' ');
        lemma_first_space_at(t, k - 1);
    }
}

/// Splits a line at every single space, keeping empty fields, the way
/// inbound chat text is tokenized into an argument vector.
pub fn split_words(s: &str) -> (r: Vec<String>)
    ensures
        r.deep_view() == split_spec(s@),
{
    let len = s.unicode_len();
    let mut r: Vec<String> = Vec::new();
    let mut start: usize = 0;
    let mut i: usize = 0;
    proof {
        assert(s@.subrange(0, len as int) =~= s@);
        assert(r.deep_view() =~= Seq::<Seq<char>>::empty());
        assert(split_spec(s@) =~= r.deep_view() + split_spec(s@.subrange(0, len as int)));
    }
    while i < len
        invariant
            start <= i <= len,
            len == s@.len(),
            forall|j: int| start <= j < i ==> s@[j] != ' ',
            split_spec(s@) =~= r.deep_view() + split_spec(s@.subrange(start as int, len as int)),
        decreases len - i,
    {
        if s.get_char(i) == ' ' {
            let ghost tail = s@.subrange(start as int, len as int);
            proof {
                assert(forall|j: int| 0 <= j < i - start ==> tail[j] != ' ');
                assert(tail[i - start] == ' ');
                lemma_first_space_at(tail, i - start);
                assert(tail.subrange(0, i - start) =~= s@.subrange(start as int, i as int));
                assert(tail.subrange(i - start + 1, tail.len() as int) =~= s@.subrange(
                    i + 1,
                    len as int,
                ));
            }
            let word = s.substring_char(start, i).to_owned();
            r.push(word);
            proof {
                assert(split_spec(s@) =~= r.deep_view() + split_spec(s@.subrange(
                    i + 1,
                    len as int,
                )));
            }
            start = i + 1;
        }
        i = i + 1;
    }
    let ghost tail = s@.subrange(start as int, len as int);
    proof {
        lemma_first_space_at(tail, len - start);
    }
    let word = s.substring_char(start, len).to_owned();
    r.push(word);
    proof {
        assert(r.deep_view() =~= split_spec(s@));
    }
    r
}

/// The words from `pos` on, joined with single spaces, peeled from the end.
pub open spec fn join_range(ws: Seq<Seq<char>>, pos: int, end: int) -> Seq<char>
    decreases end - pos,
{
    if pos < 0 || end > ws.len() || end <= pos {
        Seq::empty()
    } else if end == pos + 1 {
        ws[pos]
    } else {
        join_range(ws, pos, end - 1) + seq![' '] + ws[end - 1]
    }
}

/// Joins the words from `pos` to the end with single spaces.
pub fn join_from(words: &Vec<&str>, pos: usize) -> (r: String)
    requires
        pos < words@.len(),
    ensures
        r@ == join_range(words.deep_view(), pos as int, words@.len() as int),
{
    let ghost ws = words.deep_view();
    let n = words.len();
    let mut res = String::new();
    res.append(words[pos]);
    let mut i: usize = pos + 1;
    while i < n
        invariant
            n == words@.len(),
            pos < i <= words@.len(),
            ws == words.deep_view(),
            res@ == join_range(ws, pos as int, i as int),
        decreases words@.len() - i,
    {
        proof {
            reveal_strlit(" ");
        }
        res.append(" ");
        res.append(words[i]);
        proof {
            assert(res@ =~= join_range(ws, pos as int, i + 1));
        }
        i = i + 1;
    }
    res
}

} // verus!
