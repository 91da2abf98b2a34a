//! Text building blocks: decimal rendering of integers, joining lines and
//! prefix tests.

use vstd::prelude::*;
use vstd::string::*;

verus! {

/// The character that writes the decimal digit `d` (for `d < 10`).
pub open spec fn digit_char(d: nat) -> char {
    if d == 0 {
        '0'
    } else if d == 1 {
        '1'
    } else if d == 2 {
        '2'
    } else if d == 3 {
        '3'
    } else if d == 4 {
        '4'
    } else if d == 5 {
        '5'
    } else if d == 6 {
        '6'
    } else if d == 7 {
        '7'
    } else if d == 8 {
        '8'
    } else {
        '9'
    }
}

/// Whether `c` is one of the ten ASCII decimal digits.
pub open spec fn is_digit(c: char) -> bool {
    '0' <= c <= '9'
}

/// The value of the decimal digit `c`.
pub open spec fn digit_value(c: char) -> nat {
    ((c as int) - ('0' as int)) as nat
}

/// The shortest decimal notation of `n`, most significant digit first.
pub open spec fn decimal(n: nat) -> Seq<char>
    decreases n,
{
    if n < 10 {
        seq![digit_char(n)]
    } else {
        decimal(n / 10).push(digit_char(n % 10))
    }
}

/// The number that a string of decimal digits denotes.
pub open spec fn digits_value(s: Seq<char>) -> nat
    decreases s.len(),
{
    if s.len() == 0 {
        0
    } else {
        digits_value(s.drop_last()) * 10 + digit_value(s.last())
    }
}

proof fn lemma_digit(d: nat)
    requires
        d < 10,
    ensures
        digit_value(digit_char(d)) == d,
        is_digit(digit_char(d)),
        d != 0 ==> digit_char(d) != '0',
{
    assert(('0' as int) == 48);
    assert(('9' as int) == 57);
    if d == 0 {
    } else if d == 1 {
        assert(('1' as int) == 49);
    } else if d == 2 {
        assert(('2' as int) == 50);
    } else if d == 3 {
        assert(('3' as int) == 51);
    } else if d == 4 {
        assert(('4' as int) == 52);
    } else if d == 5 {
        assert(('5' as int) == 53);
    } else if d == 6 {
        assert(('6' as int) == 54);
    } else if d == 7 {
        assert(('7' as int) == 55);
    } else if d == 8 {
        assert(('8' as int) == 56);
    }
}

/// Reading back the digits of the decimal notation of `n` gives `n`; the
/// notation is made of digits only and has no leading zero.
pub proof fn lemma_decimal_roundtrip(n: nat)
    ensures
        digits_value(decimal(n)) == n,
        decimal(n).len() >= 1,
        forall|i: int| 0 <= i < decimal(n).len() ==> is_digit(#[trigger] decimal(n)[i]),
        n >= 10 ==> decimal(n)[0] != '0',
    decreases n,
{
    if n < 10 {
        lemma_digit(n);
        assert(decimal(n).drop_last() =~= Seq::<char>::empty());
        assert(digits_value(decimal(n).drop_last()) == 0);
    } else {
        lemma_digit(n % 10);
        lemma_decimal_roundtrip(n / 10);
        assert(decimal(n).drop_last() =~= decimal(n / 10));
        assert(decimal(n).last() == digit_char(n % 10));
        assert(digits_value(decimal(n)) == digits_value(decimal(n / 10)) * 10 + digit_value(
            digit_char(n % 10),
        ));
        assert((n / 10) * 10 + n % 10 == n);
        assert(forall|i: int| 0 <= i < decimal(n / 10).len() ==> decimal(n)[i] == decimal(n / 10)[i]);
    }
}

/// `s` is the decimal notation of `n`: digits only, at least one, no
/// leading zero, and reading them back gives `n`.
pub open spec fn is_decimal_text(s: Seq<char>, n: nat) -> bool {
    &&& s.len() >= 1
    &&& forall|i: int| 0 <= i < s.len() ==> is_digit(#[trigger] s[i])
    &&& digits_value(s) == n
    &&& s.len() > 1 ==> s[0] != '0'
}

/// `decimal(n)` is the decimal notation of `n`.
pub proof fn lemma_decimal_text(n: nat)
    ensures
        is_decimal_text(decimal(n), n),
{
    lemma_decimal_roundtrip(n);
}

/// The parts joined into one text with `sep` between neighbours.
pub open spec fn join(parts: Seq<Seq<char>>, sep: Seq<char>) -> Seq<char>
    decreases parts.len(),
{
    if parts.len() == 0 {
        Seq::empty()
    } else if parts.len() == 1 {
        parts[0]
    } else {
        join(parts.drop_last(), sep) + sep + parts.last()
    }
}

/// Joining two non-empty lists of parts gives the two joins with a
/// separator between them.
pub proof fn lemma_join_append(x: Seq<Seq<char>>, y: Seq<Seq<char>>, sep: Seq<char>)
    requires
        x.len() >= 1,
        y.len() >= 1,
    ensures
        join(x + y, sep) == join(x, sep) + sep + join(y, sep),
    decreases y.len(),
{
    assert((x + y).last() == y.last());
    if y.len() == 1 {
        assert((x + y).drop_last() =~= x);
        assert(join(y, sep) == y[0]);
    } else {
        lemma_join_append(x, y.drop_last(), sep);
        assert((x + y).drop_last() =~= x + y.drop_last());
        assert(join(x, sep) + sep + join(y.drop_last(), sep) + sep + y.last() =~= join(x, sep) + sep
            + join(y, sep));
    }
}

/// The lines of `s`: its pieces between line breaks (`\n`), as
/// `s.split('\n')` cuts them; a text without breaks is one line.
pub open spec fn split_lines(s: Seq<char>) -> Seq<Seq<char>>
    decreases s.len(),
{
    if s.len() == 0 {
        seq![Seq::empty()]
    } else if s.last() == '\n' {
        split_lines(s.drop_last()).push(Seq::empty())
    } else {
        let ls = split_lines(s.drop_last());
        ls.update(ls.len() - 1, ls.last().push(s.last()))
    }
}

/// Whether `s` holds no line break.
pub open spec fn single_line(s: Seq<char>) -> bool {
    forall|i: int| 0 <= i < s.len() ==> s[i] != '\n'
}

/// Two texts without line breaks make one without.
pub proof fn lemma_single_line_concat(a: Seq<char>, b: Seq<char>)
    requires
        single_line(a),
        single_line(b),
    ensures
        single_line(a + b),
{
    assert forall|i: int| 0 <= i < (a + b).len() implies (a + b)[i] != '\n' by {
        if i < a.len() {
            assert((a + b)[i] == a[i]);
        } else {
            assert((a + b)[i] == b[i - a.len()]);
        }
    }
}

/// Joining texts without line breaks with a separator without line breaks
/// gives a text without line breaks.
pub proof fn lemma_join_single_line(parts: Seq<Seq<char>>, sep: Seq<char>)
    requires
        single_line(sep),
        forall|i: int| 0 <= i < parts.len() ==> single_line(#[trigger] parts[i]),
    ensures
        single_line(join(parts, sep)),
    decreases parts.len(),
{
    if parts.len() == 0 {
    } else if parts.len() == 1 {
        assert(single_line(parts[0]));
    } else {
        let init = parts.drop_last();
        assert forall|i: int| 0 <= i < init.len() implies single_line(#[trigger] init[i]) by {
            assert(init[i] == parts[i]);
        }
        lemma_join_single_line(init, sep);
        assert(single_line(parts[parts.len() - 1]));
        lemma_single_line_concat(join(init, sep), sep);
        lemma_single_line_concat(join(init, sep) + sep, parts.last());
    }
}

/// The decimal notation of a number holds no line break.
pub proof fn lemma_decimal_single_line(n: nat)
    ensures
        single_line(decimal(n)),
{
    lemma_decimal_roundtrip(n);
    assert forall|i: int| 0 <= i < decimal(n).len() implies decimal(n)[i] != '\n' by {
        assert(is_digit(decimal(n)[i]));
    }
}

proof fn lemma_split_lines_nonempty(s: Seq<char>)
    ensures
        split_lines(s).len() >= 1,
    decreases s.len(),
{
    if s.len() > 0 {
        lemma_split_lines_nonempty(s.drop_last());
    }
}

/// Appending text without line breaks extends the last line.
proof fn lemma_split_lines_extend(x: Seq<char>, y: Seq<char>)
    requires
        single_line(y),
    ensures
        split_lines(x + y) == split_lines(x).update(
            split_lines(x).len() - 1,
            split_lines(x).last() + y,
        ),
    decreases y.len(),
{
    lemma_split_lines_nonempty(x);
    if y.len() == 0 {
        assert(x + y =~= x);
        assert(split_lines(x).last() + y =~= split_lines(x).last());
        assert(split_lines(x).update(split_lines(x).len() - 1, split_lines(x).last())
            =~= split_lines(x));
    } else {
        let y0 = y.drop_last();
        assert(single_line(y0));
        lemma_split_lines_extend(x, y0);
        assert((x + y).drop_last() =~= x + y0);
        assert((x + y).last() == y.last());
        lemma_split_lines_nonempty(x + y0);
        assert(y[y.len() - 1] != '\n');
        let sx = split_lines(x);
        let ls = split_lines(x + y0);
        assert(ls == sx.update(sx.len() - 1, sx.last() + y0));
        assert(ls.len() == sx.len());
        assert(ls.last() == sx.last() + y0);
        assert(split_lines(x + y) == ls.update(ls.len() - 1, ls.last().push(y.last())));
        assert((sx.last() + y0).push(y.last()) =~= sx.last() + y);
        assert(split_lines(x + y) =~= split_lines(x).update(
            split_lines(x).len() - 1,
            split_lines(x).last() + y,
        ));
    }
}

/// Cutting a text joined with line breaks into its lines gives back the
/// parts, when there is at least one part and none holds a line break.
pub proof fn lemma_split_join_lines(parts: Seq<Seq<char>>)
    requires
        parts.len() >= 1,
        forall|i: int| 0 <= i < parts.len() ==> single_line(#[trigger] parts[i]),
    ensures
        split_lines(join(parts, "\n"@)) == parts,
    decreases parts.len(),
{
    reveal_strlit("\n");
    if parts.len() == 1 {
        lemma_split_lines_extend(Seq::empty(), parts[0]);
        assert(Seq::<char>::empty() + parts[0] =~= parts[0]);
        assert(split_lines(parts[0]) =~= parts);
    } else {
        let init = parts.drop_last();
        assert forall|i: int| 0 <= i < init.len() implies single_line(#[trigger] init[i]) by {
            assert(init[i] == parts[i]);
        }
        lemma_split_join_lines(init);
        let head = join(init, "\n"@) + "\n"@;
        assert(head.drop_last() =~= join(init, "\n"@));
        assert(head.last() == '\n');
        assert(split_lines(head) == init.push(Seq::empty()));
        assert(single_line(parts.last()));
        lemma_split_lines_extend(head, parts.last());
        assert(Seq::<char>::empty() + parts.last() =~= parts.last());
        assert(init.push(Seq::empty()).update(init.len() as int, parts.last()) =~= parts);
    }
}

/// The character sequences of a sequence of strings.
pub open spec fn views(v: Seq<String>) -> Seq<Seq<char>> {
    v.map_values(|s: String| s@)
}

fn digit_str(d: u64) -> (s: &'static str)
    requires
        d < 10,
    ensures
        s@ == seq![digit_char(d as nat)],
{
    if d == 0 {
        proof { reveal_strlit("0"); }
        "0"
    } else if d == 1 {
        proof { reveal_strlit("1"); }
        "1"
    } else if d == 2 {
        proof { reveal_strlit("2"); }
        "2"
    } else if d == 3 {
        proof { reveal_strlit("3"); }
        "3"
    } else if d == 4 {
        proof { reveal_strlit("4"); }
        "4"
    } else if d == 5 {
        proof { reveal_strlit("5"); }
        "5"
    } else if d == 6 {
        proof { reveal_strlit("6"); }
        "6"
    } else if d == 7 {
        proof { reveal_strlit("7"); }
        "7"
    } else if d == 8 {
        proof { reveal_strlit("8"); }
        "8"
    } else {
        proof { reveal_strlit("9"); }
        "9"
    }
}

/// Writes `n` in decimal, as `format!("{}", n)` does.
pub fn decimal_string(n: u64) -> (s: String)
    ensures
        s@ == decimal(n as nat),
    decreases n,
{
    if n < 10 {
        String::from_str(digit_str(n))
    } else {
        let mut s = decimal_string(n / 10);
        s.append(digit_str(n % 10));
        proof {
            assert(s@ =~= decimal((n / 10) as nat).push(digit_char((n % 10) as nat)));
        }
        s
    }
}

/// Joins `parts` with `sep` between neighbours, as `parts.join(sep)` does.
pub fn join_strings(parts: &Vec<String>, sep: &str) -> (r: String)
    ensures
        r@ == join(views(parts@), sep@),
{
    let mut r = String::new();
    let mut i: usize = 0;
    while i < parts.len()
        invariant
            i <= parts.len(),
            r@ == join(views(parts@).take(i as int), sep@),
        decreases parts.len() - i,
    {
        if i > 0 {
            r.append(sep);
        }
        r.append(parts[i].as_str());
        proof {
            let v = views(parts@);
            assert(v.take(i + 1).drop_last() =~= v.take(i as int));
            assert(v.take(i + 1).last() == parts@[i as int]@);
            if i == 0 {
                assert(v.take(0) =~= Seq::<Seq<char>>::empty());
            }
        }
        i += 1;
    }
    proof {
        assert(views(parts@).take(parts.len() as int) =~= views(parts@));
    }
    r
}

/// Appends `s` to `parts`.
pub fn push_string(parts: &mut Vec<String>, s: String)
    ensures
        views(final(parts)@) == views(old(parts)@).push(s@),
{
    parts.push(s);
    proof {
        assert(views(parts@) =~= views(old(parts)@).push(s@));
    }
}

/// Whether `s` begins with `prefix`.
pub fn starts_with(s: &str, prefix: &str) -> (r: bool)
    ensures
        r == prefix@.is_prefix_of(s@),
{
    let n = prefix.unicode_len();
    let m = s.unicode_len();
    if n > m {
        return false;
    }
    let mut i: usize = 0;
    while i < n
        invariant
            i <= n,
            n == prefix@.len(),
            n <= m,
            m == s@.len(),
            forall|j: int| 0 <= j < i ==> prefix@[j] == s@[j],
        decreases n - i,
    {
        if prefix.get_char(i) != s.get_char(i) {
            return false;
        }
        i += 1;
    }
    proof {
        assert(prefix@ =~= s@.subrange(0, prefix@.len() as int));
    }
    true
}

} // verus!
