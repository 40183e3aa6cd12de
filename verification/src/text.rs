//! Verified text utilities shared by the rest of the library: string
//! equality, case-insensitive comparison, substring search, decimal
//! rendering and list joining.
use vstd::prelude::*;

verus! {

/// Exact equality of two string slices, decided character by character.
pub fn str_eq(a: &str, b: &str) -> (r: bool)
    ensures
        r == (a@ == b@),
{
    let an = a.unicode_len();
    let bn = b.unicode_len();
    if an != bn {
        return false;
    }
    let mut i: usize = 0;
    while i < an
        invariant
            0 <= i <= an,
            forall|j: int| 0 <= j < i ==> a@[j] == b@[j],
        decreases an - i,
    {
        if a.get_char(i) != b.get_char(i) {
            return false;
        }
        i = i + 1;
    }
    proof {
        assert(a@ =~= b@);
    }
    true
}

/// True when `p` occurs as a contiguous run inside `s` starting at `i`.
pub open spec fn occurs_at(s: Seq<char>, p: Seq<char>, i: int) -> bool {
    0 <= i && i + p.len() <= s.len() && s.subrange(i, i + p.len() as int) == p
}

/// True when `p` occurs somewhere inside `s`.
pub open spec fn has_sub(s: Seq<char>, p: Seq<char>) -> bool {
    exists|i: int| occurs_at(s, p, i)
}

/// Substring search by scanning every candidate position.
pub fn contains_sub(s: &str, p: &str) -> (r: bool)
    ensures
        r == has_sub(s@, p@),
{
    let sn = s.unicode_len();
    let pn = p.unicode_len();
    if pn > sn {
        assert(forall|k: int| !occurs_at(s@, p@, k));
        return false;
    }
    if pn == 0 {
        proof {
            assert(s@.subrange(0, 0) =~= p@);
            assert(occurs_at(s@, p@, 0));
        }
        return true;
    }
    let mut i: usize = 0;
    while i <= sn - pn
        invariant
            0 <= i <= sn - pn + 1,
            1 <= pn <= sn,
            forall|k: int| 0 <= k < i ==> !occurs_at(s@, p@, k),
        decreases sn - i,
    {
        let mut j: usize = 0;
        let mut same = true;
        while same && j < pn
            invariant
                0 <= j <= pn,
                same ==> forall|k: int| 0 <= k < j ==> s@[i + k] == p@[k],
                !same ==> !occurs_at(s@, p@, i as int),
            decreases pn - j, (if same { 1int } else { 0int }),
        {
            if s.get_char(i + j) != p.get_char(j) {
                proof {
                    assert(s@.subrange(i as int, i + pn)[j as int] != p@[j as int]);
                }
                same = false;
            } else {
                j = j + 1;
            }
        }
        if same {
            proof {
                assert(s@.subrange(i as int, i + pn) =~= p@);
                assert(occurs_at(s@, p@, i as int));
            }
            return true;
        }
        i = i + 1;
    }
    proof {
        assert forall|k: int| !occurs_at(s@, p@, k) by {
            if 0 <= k && k + p@.len() <= s@.len() {
                assert(k < i);
            }
        }
    }
    false
}

/// ASCII lowercase of one character; anything outside 'A'..'Z' is unchanged.
pub open spec fn lower_char(c: char) -> char {
    if 'A' <= c && c <= 'Z' {
        (((c as u32) + 32) as u8) as char
    } else {
        c
    }
}

/// ASCII lowercase of a character sequence.
pub open spec fn lower_seq(s: Seq<char>) -> Seq<char> {
    s.map_values(|c: char| lower_char(c))
}

/// ASCII lowercase of one character, executably.
pub fn lower(c: char) -> (r: char)
    ensures
        r == lower_char(c),
{
    if 'A' <= c && c <= 'Z' {
        (((c as u32) + 32) as u8) as char
    } else {
        c
    }
}

/// Equality of two string slices up to ASCII case.
pub fn str_eq_ignore_ascii_case(a: &str, b: &str) -> (r: bool)
    ensures
        r == (lower_seq(a@) == lower_seq(b@)),
{
    let an = a.unicode_len();
    let bn = b.unicode_len();
    if an != bn {
        assert(lower_seq(a@).len() != lower_seq(b@).len());
        return false;
    }
    let mut i: usize = 0;
    while i < an
        invariant
            0 <= i <= an,
            forall|j: int| 0 <= j < i ==> lower_char(a@[j]) == lower_char(b@[j]),
        decreases an - i,
    {
        if lower(a.get_char(i)) != lower(b.get_char(i)) {
            assert(lower_seq(a@)[i as int] != lower_seq(b@)[i as int]);
            return false;
        }
        i = i + 1;
    }
    proof {
        assert(lower_seq(a@) =~= lower_seq(b@));
    }
    true
}

/// Digit character for a value between 0 and 9.
pub open spec fn digit_char(d: int) -> char {
    if d == 0 {
        '0'
    } else if d == 1 {
        '1'
    } else if d == 2 {
        '2'
    } else if d == 3 {
        '3'
    } else if d == 4 {
        '4'
    } else if d == 5 {
        '5'
    } else if d == 6 {
        '6'
    } else if d == 7 {
        '7'
    } else if d == 8 {
        '8'
    } else {
        '9'
    }
}

/// Decimal rendering of a non-negative integer, most significant digit first.
pub open spec fn dec_rep(n: int) -> Seq<char>
    recommends
        n >= 0,
    decreases n,
{
    if n < 10 {
        seq![digit_char(n)]
    } else {
        dec_rep(n / 10) + seq![digit_char(n % 10)]
    }
}

/// One decimal digit as a string slice.
fn digit_str(d: u64) -> (r: &'static str)
    requires
        d < 10,
    ensures
        r@ == seq![digit_char(d as int)],
{
    let r: &'static str = if d == 0 {
        "0"
    } else if d == 1 {
        "1"
    } else if d == 2 {
        "2"
    } else if d == 3 {
        "3"
    } else if d == 4 {
        "4"
    } else if d == 5 {
        "5"
    } else if d == 6 {
        "6"
    } else if d == 7 {
        "7"
    } else if d == 8 {
        "8"
    } else {
        "9"
    };
    proof {
        reveal_strlit("0");
        reveal_strlit("1");
        reveal_strlit("2");
        reveal_strlit("3");
        reveal_strlit("4");
        reveal_strlit("5");
        reveal_strlit("6");
        reveal_strlit("7");
        reveal_strlit("8");
        reveal_strlit("9");
        assert(r@ =~= seq![digit_char(d as int)]);
    }
    r
}

/// Decimal rendering of `n`, executably.
pub fn u64_to_dec(n: u64) -> (r: String)
    ensures
        r@ == dec_rep(n as int),
    decreases n,
{
    if n < 10 {
        String::from_str(digit_str(n))
    } else {
        let mut s = u64_to_dec(n / 10);
        s.append(digit_str(n % 10));
        s
    }
}

/// Every character of a decimal rendering is a digit.
pub proof fn lemma_dec_rep_digits(n: int)
    requires
        n >= 0,
    ensures
        dec_rep(n).len() >= 1,
        forall|i: int|
            0 <= i < dec_rep(n).len() ==> '0' <= #[trigger] dec_rep(n)[i] && dec_rep(n)[i] <= '9',
    decreases n,
{
    if n >= 10 {
        lemma_dec_rep_digits(n / 10);
    }
}

/// Decimal renderings of distinct non-negative integers differ.
pub proof fn lemma_dec_rep_injective(a: int, b: int)
    requires
        a >= 0,
        b >= 0,
        dec_rep(a) == dec_rep(b),
    ensures
        a == b,
    decreases a,
{
    lemma_dec_rep_digits(a);
    lemma_dec_rep_digits(b);
    if a < 10 && b < 10 {
        assert(dec_rep(a) == seq![digit_char(a)]);
        assert(seq![digit_char(a)][0] == digit_char(a));
        assert(seq![digit_char(b)][0] == digit_char(b));
        assert(dec_rep(a)[0] == dec_rep(b)[0]);
        assert(digit_char(a) == digit_char(b));
        assert(a == b);
    } else if a < 10 {
        lemma_dec_rep_digits(b / 10);
        assert(dec_rep(a).len() == 1);
        assert(dec_rep(b).len() >= 2);
    } else if b < 10 {
        lemma_dec_rep_digits(a / 10);
        assert(dec_rep(b).len() == 1);
        assert(dec_rep(a).len() >= 2);
    } else {
        assert(dec_rep(a).last() == dec_rep(b).last());
        assert(dec_rep(a) == dec_rep(a / 10) + seq![digit_char(a % 10)]);
        assert(dec_rep(a).last() == digit_char(a % 10));
        assert(dec_rep(b).last() == digit_char(b % 10));
        assert(digit_char(a % 10) == digit_char(b % 10));
        assert(a % 10 == b % 10);
        assert(dec_rep(a).drop_last() =~= dec_rep(a / 10));
        assert(dec_rep(b).drop_last() =~= dec_rep(b / 10));
        lemma_dec_rep_injective(a / 10, b / 10);
    }
}

/// The items joined with the separator between neighbours.
pub open spec fn join_with(items: Seq<Seq<char>>, sep: Seq<char>) -> Seq<char>
    decreases items.len(),
{
    if items.len() == 0 {
        Seq::empty()
    } else if items.len() == 1 {
        items[0]
    } else {
        items[0] + sep + join_with(items.drop_first(), sep)
    }
}

proof fn lemma_join_push(items: Seq<Seq<char>>, sep: Seq<char>, x: Seq<char>)
    ensures
        items.len() == 0 ==> join_with(items.push(x), sep) == x,
        items.len() > 0 ==> join_with(items.push(x), sep) == join_with(items, sep) + sep + x,
    decreases items.len(),
{
    if items.len() == 0 {
        assert(join_with(items.push(x), sep) == items.push(x)[0]);
        assert(items.push(x)[0] == x);
    } else if items.len() == 1 {
        assert(items.push(x).drop_first() =~= seq![x]);
        assert(items.push(x)[0] == items[0]);
        assert(join_with(seq![x], sep) == seq![x][0]);
        assert(join_with(items.push(x), sep) =~= items[0] + sep + x);
        assert(join_with(items, sep) + sep + x =~= items[0] + sep + x);
    } else {
        lemma_join_push(items.drop_first(), sep, x);
        assert(items.push(x).drop_first() =~= items.drop_first().push(x));
        assert(join_with(items, sep) + sep + x =~= items[0] + sep + (join_with(
            items.drop_first(),
            sep,
        ) + sep + x));
    }
}

/// The items of a vector joined with a separator, executably.
pub fn join_strings(items: &Vec<String>, sep: &str) -> (r: String)
    ensures
        r@ == join_with(items.deep_view(), sep@),
{
    let mut r = String::new();
    let mut i: usize = 0;
    while i < items.len()
        invariant
            0 <= i <= items.len(),
            r@ == join_with(items.deep_view().take(i as int), sep@),
        decreases items.len() - i,
    {
        if i > 0 {
            r.append(sep);
        }
        r.append(items[i].as_str());
        proof {
            let dv = items.deep_view();
            assert(dv.take(i + 1) =~= dv.take(i as int).push(dv[i as int]));
            lemma_join_push(dv.take(i as int), sep@, dv[i as int]);
        }
        i = i + 1;
    }
    proof {
        assert(items.deep_view().take(items.len() as int) =~= items.deep_view());
    }
    r
}

/// The five characters that stand in for one single quote inside a
/// single-quoted shell word: quote, double-quote, quote, double-quote, quote.
pub open spec fn quote_escape() -> Seq<char> {
    seq!['\'', '"', '\'', '"', '\'']
}

/// The body of a single-quoted shell word: every single quote replaced by the
/// escape run, everything else kept verbatim.
pub open spec fn sh_escaped(s: Seq<char>) -> Seq<char>
    decreases s.len(),
{
    if s.len() == 0 {
        Seq::empty()
    } else if s[0] == '\'' {
        quote_escape() + sh_escaped(s.drop_first())
    } else {
        seq![s[0]] + sh_escaped(s.drop_first())
    }
}

/// A string quoted for the shell: the escaped body between single quotes.
pub open spec fn sh_quoted(s: Seq<char>) -> Seq<char> {
    seq!['\''] + sh_escaped(s) + seq!['\'']
}

proof fn lemma_sh_escaped_concat(a: Seq<char>, b: Seq<char>)
    ensures
        sh_escaped(a + b) == sh_escaped(a) + sh_escaped(b),
    decreases a.len(),
{
    if a.len() == 0 {
        assert(a + b =~= b);
        assert(sh_escaped(a) + sh_escaped(b) =~= sh_escaped(b));
    } else {
        assert((a + b)[0] == a[0]);
        assert((a + b).drop_first() =~= a.drop_first() + b);
        lemma_sh_escaped_concat(a.drop_first(), b);
        if a[0] == '\'' {
            assert(quote_escape() + (sh_escaped(a.drop_first()) + sh_escaped(b)) =~= (
            quote_escape() + sh_escaped(a.drop_first())) + sh_escaped(b));
        } else {
            assert(seq![a[0]] + (sh_escaped(a.drop_first()) + sh_escaped(b)) =~= (seq![a[0]]
                + sh_escaped(a.drop_first())) + sh_escaped(b));
        }
    }
}

proof fn lemma_sh_escaped_plain(s: Seq<char>)
    requires
        forall|k: int| 0 <= k < s.len() ==> s[k] != '\'',
    ensures
        sh_escaped(s) == s,
    decreases s.len(),
{
    if s.len() > 0 {
        lemma_sh_escaped_plain(s.drop_first());
        assert(seq![s[0]] + s.drop_first() =~= s);
    }
}

/// Quotes a string as one shell word: wraps it in single quotes and replaces
/// every embedded single quote, so arbitrary characters pass through intact.
pub fn sh_quote(input: &str) -> (r: String)
    ensures
        r@ == sh_quoted(input@),
{
    proof {
        reveal_strlit("'");
        reveal_strlit("'\"'\"'");
        assert("'"@ =~= seq!['\'']);
        assert("'\"'\"'"@ =~= quote_escape());
    }
    let n = input.unicode_len();
    let mut out = String::from_str("'");
    let mut start: usize = 0;
    let mut i: usize = 0;
    proof {
        assert(input@.take(0) =~= Seq::<char>::empty());
        assert(out@ =~= seq!['\''] + sh_escaped(input@.take(0)));
    }
    while i < n
        invariant
            0 <= start <= i <= n,
            out@ == seq!['\''] + sh_escaped(input@.take(start as int)),
            forall|k: int| start <= k < i ==> input@[k] != '\'',
        decreases n - i,
    {
        if input.get_char(i) == '\'' {
            out.append(input.substring_char(start, i));
            out.append("'\"'\"'");
            proof {
                let plain = input@.subrange(start as int, i as int);
                lemma_sh_escaped_plain(plain);
                lemma_sh_escaped_concat(input@.take(start as int), plain);
                lemma_sh_escaped_concat(input@.take(start as int) + plain, seq!['\'']);
                assert(input@.take(start as int) + plain =~= input@.take(i as int));
                assert((input@.take(start as int) + plain) + seq!['\''] =~= input@.take(i + 1));
                assert(seq!['\''][0] == '\'');
                assert(seq!['\''].drop_first() =~= Seq::<char>::empty());
                assert(sh_escaped(seq!['\'']) =~= quote_escape() + sh_escaped(
                    Seq::<char>::empty(),
                ));
                assert(sh_escaped(seq!['\'']) =~= quote_escape());
                assert(out@ =~= seq!['\''] + sh_escaped(input@.take(i + 1)));
            }
            start = i + 1;
        }
        i = i + 1;
    }
    out.append(input.substring_char(start, n));
    out.append("'");
    proof {
        let plain = input@.subrange(start as int, n as int);
        lemma_sh_escaped_plain(plain);
        lemma_sh_escaped_concat(input@.take(start as int), plain);
        assert(input@.take(start as int) + plain =~= input@);
        assert(out@ =~= sh_quoted(input@));
    }
    out
}

/// An occurrence inside the right half of a concatenation survives it.
pub proof fn lemma_has_sub_concat_right(a: Seq<char>, b: Seq<char>, p: Seq<char>)
    requires
        has_sub(b, p),
    ensures
        has_sub(a + b, p),
{
    let i = choose|i: int| occurs_at(b, p, i);
    assert((a + b).subrange(a.len() + i, a.len() + i + p.len() as int) =~= b.subrange(
        i,
        i + p.len() as int,
    ));
    assert(occurs_at(a + b, p, a.len() + i));
}

/// A prefix of a concatenation occurs in it.
pub proof fn lemma_has_sub_prefix(a: Seq<char>, b: Seq<char>)
    ensures
        has_sub(a + b, a),
{
    assert((a + b).subrange(0, a.len() as int) =~= a);
    assert(occurs_at(a + b, a, 0));
}

/// Every joined item occurs inside the joined text.
pub proof fn lemma_join_contains(items: Seq<Seq<char>>, sep: Seq<char>, k: int)
    requires
        0 <= k < items.len(),
    ensures
        has_sub(join_with(items, sep), items[k]),
    decreases items.len(),
{
    if items.len() == 1 {
        assert(join_with(items, sep) == items[0]);
        assert(join_with(items, sep).subrange(0, items[0].len() as int) =~= items[0]);
        assert(occurs_at(join_with(items, sep), items[0], 0));
    } else if k == 0 {
        assert(join_with(items, sep) == items[0] + sep + join_with(items.drop_first(), sep));
        assert(items[0] + sep + join_with(items.drop_first(), sep) =~= items[0] + (sep + join_with(
            items.drop_first(),
            sep,
        )));
        lemma_has_sub_prefix(items[0], sep + join_with(items.drop_first(), sep));
    } else {
        lemma_join_contains(items.drop_first(), sep, k - 1);
        assert(items.drop_first()[k - 1] == items[k]);
        assert(join_with(items, sep) == items[0] + sep + join_with(items.drop_first(), sep));
        assert(items[0] + sep + join_with(items.drop_first(), sep) =~= (items[0] + sep)
            + join_with(items.drop_first(), sep));
        lemma_has_sub_concat_right(items[0] + sep, join_with(items.drop_first(), sep), items[k]);
    }
}

} // verus!
