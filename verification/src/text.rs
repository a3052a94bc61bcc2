//! Character-level text operations shared by the report renderers and
//! parsers: each carries a spec function over `Seq<char>` that states what
//! the operation computes.
use vstd::prelude::*;

verus! {

/// `std::string::String::push`: the string grows by exactly the one character.
#[verifier::external_body]
pub fn push_char(s: &mut String, c: char)
    ensures
        final(s)@ == old(s)@.push(c),
{
    s.push(c);
}

/// The characters of `s`, in order.
pub fn chars_of(s: &str) -> (v: Vec<char>)
    ensures
        v@ == s@,
{
    let mut v: Vec<char> = Vec::new();
    for c in it: s.chars()
        invariant
            v@ == it.seq().take(it.index()),
            it.seq() == s@,
    {
        v.push(c);
    }
    v
}

/// Appends `cs[from..to]` to `out`.
pub fn push_chars(out: &mut String, cs: &Vec<char>, from: usize, to: usize)
    requires
        from <= to <= cs@.len(),
    ensures
        final(out)@ == old(out)@ + cs@.subrange(from as int, to as int),
{
    let mut i = from;
    while i < to
        invariant
            from <= i <= to <= cs@.len(),
            out@ == old(out)@ + cs@.subrange(from as int, i as int),
        decreases to - i,
    {
        push_char(out, cs[i]);
        assert(cs@.subrange(from as int, i + 1) =~= cs@.subrange(from as int, i as int).push(cs@[i as int]));
        i += 1;
    }
}

/// A string holding exactly `cs[from..to]`.
pub fn string_of(cs: &Vec<char>, from: usize, to: usize) -> (s: String)
    requires
        from <= to <= cs@.len(),
    ensures
        s@ == cs@.subrange(from as int, to as int),
{
    let mut s = String::new();
    push_chars(&mut s, cs, from, to);
    s
}

/// Unicode `White_Space`, the property that `char::is_whitespace` tests.
pub open spec fn is_ws(c: char) -> bool {
    let u = c as u32;
    ||| 9 <= u <= 13
    ||| u == 32
    ||| u == 0x85
    ||| u == 0xA0
    ||| u == 0x1680
    ||| 0x2000 <= u <= 0x200A
    ||| u == 0x2028
    ||| u == 0x2029
    ||| u == 0x202F
    ||| u == 0x205F
    ||| u == 0x3000
}

pub fn is_whitespace(c: char) -> (r: bool)
    ensures
        r == is_ws(c),
{
    let u = c as u32;
    (9 <= u && u <= 13) || u == 32 || u == 0x85 || u == 0xA0 || u == 0x1680 || (0x2000 <= u && u
        <= 0x200A) || u == 0x2028 || u == 0x2029 || u == 0x202F || u == 0x205F || u == 0x3000
}

/// `str::trim_start`: leading white space removed.
pub open spec fn trim_start(s: Seq<char>) -> Seq<char>
    decreases s.len(),
{
    if s.len() > 0 && is_ws(s[0]) {
        trim_start(s.drop_first())
    } else {
        s
    }
}

/// `str::trim_end`: trailing white space removed.
pub open spec fn trim_end(s: Seq<char>) -> Seq<char>
    decreases s.len(),
{
    if s.len() > 0 && is_ws(s.last()) {
        trim_end(s.drop_last())
    } else {
        s
    }
}

/// `str::trim`.
pub open spec fn trim(s: Seq<char>) -> Seq<char> {
    trim_end(trim_start(s))
}

/// Index of the first character of `cs[from..]` that is not white space
/// (`cs.len()` when there is none), with `trim_start(cs[from..])` starting there.
pub fn skip_ws(cs: &Vec<char>, from: usize) -> (i: usize)
    requires
        from <= cs@.len(),
    ensures
        from <= i <= cs@.len(),
        trim_start(cs@.subrange(from as int, cs@.len() as int)) == cs@.subrange(
            i as int,
            cs@.len() as int,
        ),
        i < cs@.len() ==> !is_ws(cs@[i as int]),
{
    let mut i = from;
    while i < cs.len() && is_whitespace(cs[i])
        invariant
            from <= i <= cs@.len(),
            trim_start(cs@.subrange(from as int, cs@.len() as int)) == trim_start(
                cs@.subrange(i as int, cs@.len() as int),
            ),
        decreases cs@.len() - i,
    {
        assert(cs@.subrange(i as int, cs@.len() as int).drop_first() =~= cs@.subrange(
            i + 1,
            cs@.len() as int,
        ));
        i += 1;
    }
    i
}

/// End of `trim_end(cs[from..to])` within `cs`.
pub fn skip_ws_back(cs: &Vec<char>, from: usize, to: usize) -> (j: usize)
    requires
        from <= to <= cs@.len(),
    ensures
        from <= j <= to,
        trim_end(cs@.subrange(from as int, to as int)) == cs@.subrange(from as int, j as int),
{
    let mut j = to;
    while j > from && is_whitespace(cs[j - 1])
        invariant
            from <= j <= to <= cs@.len(),
            trim_end(cs@.subrange(from as int, to as int)) == trim_end(
                cs@.subrange(from as int, j as int),
            ),
        decreases j,
    {
        assert(cs@.subrange(from as int, j as int).drop_last() =~= cs@.subrange(
            from as int,
            j - 1,
        ));
        j -= 1;
    }
    j
}

/// Bounds of `trim(cs[from..to])` within `cs`.
pub fn trim_bounds(cs: &Vec<char>, from: usize, to: usize) -> (r: (usize, usize))
    requires
        from <= to <= cs@.len(),
    ensures
        from <= r.0 <= r.1 <= to,
        trim(cs@.subrange(from as int, to as int)) == cs@.subrange(r.0 as int, r.1 as int),
{
    let mut i = from;
    while i < to && is_whitespace(cs[i])
        invariant
            from <= i <= to <= cs@.len(),
            trim_start(cs@.subrange(from as int, to as int)) == trim_start(
                cs@.subrange(i as int, to as int),
            ),
        decreases to - i,
    {
        assert(cs@.subrange(i as int, to as int).drop_first() =~= cs@.subrange(
            i + 1,
            to as int,
        ));
        i += 1;
    }
    assert(i < to ==> !is_ws(cs@.subrange(i as int, to as int)[0]));
    let j = skip_ws_back(cs, i, to);
    (i, j)
}

/// ASCII digit for `d < 10`.
pub open spec fn digit_char(d: nat) -> char {
    ((48 + d) as u8) as char
}

/// Decimal digits of `n`, most significant first, no leading zeros.
pub open spec fn decimal(n: nat) -> Seq<char>
    decreases n,
{
    if n < 10 {
        seq![digit_char(n)]
    } else {
        decimal(n / 10).push(digit_char(n % 10))
    }
}

/// Appends the decimal form of `n`.
pub fn push_decimal(out: &mut String, n: u64)
    ensures
        final(out)@ == old(out)@ + decimal(n as nat),
    decreases n,
{
    if n >= 10 {
        push_decimal(out, n / 10);
    }
    let d = (n % 10) as u8;
    push_char(out, (48u8 + d) as char);
    assert(out@ =~= old(out)@ + decimal(n as nat)) by {
        if n >= 10 {
            assert(decimal(n as nat) == decimal((n / 10) as nat).push(digit_char((n % 10) as nat)));
        }
    }
}


/// Character-wise equality of two strings.
pub fn str_eq(a: &str, b: &str) -> (r: bool)
    ensures
        r == (a@ == b@),
{
    let x = chars_of(a);
    let y = chars_of(b);
    if x.len() != y.len() {
        return false;
    }
    let mut i: usize = 0;
    while i < x.len()
        invariant
            x@ == a@,
            y@ == b@,
            x@.len() == y@.len(),
            i <= x@.len(),
            forall|k: int| 0 <= k < i ==> x@[k] == y@[k],
        decreases x@.len() - i,
    {
        if x[i] != y[i] {
            return false;
        }
        i += 1;
    }
    assert(x@ =~= y@);
    true
}


/// An optional string, taken by view.
pub open spec fn opt_view(o: Option<String>) -> Option<Seq<char>> {
    match o {
        Some(s) => Some(s@),
        None => None,
    }
}

/// A list of strings, each taken by view.
pub open spec fn strs_view(v: Seq<String>) -> Seq<Seq<char>> {
    v.map_values(|s: String| s@)
}

pub proof fn lemma_strs_view_push(v: Seq<String>, s: String)
    ensures
        strs_view(v.push(s)) == strs_view(v).push(s@),
{
    assert(strs_view(v.push(s)) =~= strs_view(v).push(s@));
}


/// `pat` occurs in `s` starting at `i`.
pub open spec fn occurs_at(s: Seq<char>, pat: Seq<char>, i: int) -> bool {
    0 <= i && i + pat.len() <= s.len() && s.subrange(i, i + pat.len()) == pat
}

/// `str::contains` for a string pattern.
pub open spec fn contains_seq(s: Seq<char>, pat: Seq<char>) -> bool {
    exists|i: int| occurs_at(s, pat, i)
}

/// `str::starts_with`.
pub open spec fn starts_with(s: Seq<char>, pat: Seq<char>) -> bool {
    pat.len() <= s.len() && s.subrange(0, pat.len() as int) == pat
}

/// `str::ends_with`.
pub open spec fn ends_with(s: Seq<char>, pat: Seq<char>) -> bool {
    pat.len() <= s.len() && s.subrange(s.len() - pat.len(), s.len() as int) == pat
}

/// `pat` occurs in `cs` at `i`.
pub fn matches_at(cs: &Vec<char>, pat: &Vec<char>, i: usize) -> (r: bool)
    ensures
        r == occurs_at(cs@, pat@, i as int),
{
    if i > cs.len() || pat.len() > cs.len() - i {
        return false;
    }
    let mut k: usize = 0;
    while k < pat.len()
        invariant
            i + pat@.len() <= cs.len(),
            k <= pat@.len(),
            forall|j: int| 0 <= j < k ==> cs@[i + j] == pat@[j],
        decreases pat@.len() - k,
    {
        if cs[i + k] != pat[k] {
            assert(cs@.subrange(i as int, i + pat@.len())[k as int] != pat@[k as int]);
            return false;
        }
        k += 1;
    }
    assert(cs@.subrange(i as int, i + pat@.len()) =~= pat@);
    true
}

pub fn contains_str(s: &str, pat: &str) -> (r: bool)
    ensures
        r == contains_seq(s@, pat@),
{
    let cs = chars_of(s);
    let ps = chars_of(pat);
    if ps.len() > cs.len() {
        return false;
    }
    let last = cs.len() - ps.len();
    let mut i: usize = 0;
    loop
        invariant
            cs@ == s@,
            ps@ == pat@,
            last == cs@.len() - ps@.len(),
            i <= last,
            forall|j: int| 0 <= j < i ==> !occurs_at(s@, pat@, j),
        ensures
            forall|j: int| 0 <= j <= last ==> !occurs_at(s@, pat@, j),
        decreases last - i,
    {
        if matches_at(&cs, &ps, i) {
            return true;
        }
        if i == last {
            break;
        }
        i += 1;
    }
    false
}

pub fn starts_with_str(s: &str, pat: &str) -> (r: bool)
    ensures
        r == starts_with(s@, pat@),
{
    let cs = chars_of(s);
    let ps = chars_of(pat);
    matches_at(&cs, &ps, 0)
}

pub fn ends_with_str(s: &str, pat: &str) -> (r: bool)
    ensures
        r == ends_with(s@, pat@),
{
    let cs = chars_of(s);
    let ps = chars_of(pat);
    if ps.len() > cs.len() {
        return false;
    }
    matches_at(&cs, &ps, cs.len() - ps.len())
}


/// The part of `s` before the first `c` (all of `s` when there is none):
/// the first item of `str::split(c)`.
pub open spec fn before_char(s: Seq<char>, c: char) -> Seq<char>
    decreases s.len(),
{
    if s.len() == 0 {
        s
    } else if s[0] == c {
        seq![]
    } else {
        seq![s[0]] + before_char(s.drop_first(), c)
    }
}

/// Index in `cs` where `before_char(cs, c)` ends.
pub fn find_char(cs: &Vec<char>, c: char) -> (i: usize)
    ensures
        i <= cs@.len(),
        before_char(cs@, c) == cs@.take(i as int),
        i < cs@.len() ==> cs@[i as int] == c,
        forall|k: int| 0 <= k < i ==> cs@[k] != c,
{
    let mut i: usize = 0;
    assert(cs@.skip(0) =~= cs@);
    assert(cs@.take(0) + cs@ =~= cs@);
    while i < cs.len() && cs[i] != c
        invariant
            i <= cs@.len(),
            before_char(cs@, c) == cs@.take(i as int) + before_char(cs@.skip(i as int), c),
            forall|k: int| 0 <= k < i ==> cs@[k] != c,
        decreases cs@.len() - i,
    {
        assert(cs@.skip(i as int).drop_first() =~= cs@.skip(i + 1));
        assert(cs@.take(i + 1) =~= cs@.take(i as int) + seq![cs@[i as int]]);
        i += 1;
    }
    if i < cs.len() {
        assert(before_char(cs@.skip(i as int), c) =~= seq![]);
    } else {
        assert(cs@.skip(i as int) =~= seq![]);
    }
    assert(before_char(cs@, c) =~= cs@.take(i as int));
    i
}

/// `n` copies of `c`.
pub open spec fn repeat_char(c: char, n: nat) -> Seq<char> {
    Seq::new(n, |k: int| c)
}

pub fn push_repeat(out: &mut String, c: char, n: usize)
    ensures
        final(out)@ == old(out)@ + repeat_char(c, n as nat),
{
    let mut k: usize = 0;
    while k < n
        invariant
            k <= n,
            out@ == old(out)@ + repeat_char(c, k as nat),
        decreases n - k,
    {
        push_char(out, c);
        assert(repeat_char(c, (k + 1) as nat) =~= repeat_char(c, k as nat).push(c));
        k += 1;
    }
}

/// The items of `list` with `sep` between each two: `[T]::join`.
pub open spec fn join(list: Seq<Seq<char>>, sep: Seq<char>) -> Seq<char>
    decreases list.len(),
{
    if list.len() == 0 {
        seq![]
    } else if list.len() == 1 {
        list[0]
    } else {
        join(list.drop_last(), sep) + sep + list.last()
    }
}

pub fn push_join(out: &mut String, list: &Vec<String>, sep: &str)
    ensures
        final(out)@ == old(out)@ + join(strs_view(list@), sep@),
{
    let mut i: usize = 0;
    while i < list.len()
        invariant
            i <= list@.len(),
            out@ == old(out)@ + join(strs_view(list@.take(i as int)), sep@),
        decreases list@.len() - i,
    {
        let ghost before = out@;
        assert(strs_view(list@.take(i + 1)).drop_last() =~= strs_view(list@.take(i as int)));
        if i > 0 {
            out.append(sep);
        }
        out.append(list[i].as_str());
        assert(out@ =~= old(out)@ + join(strs_view(list@.take(i + 1)), sep@));
        i += 1;
    }
    assert(list@.take(list@.len() as int) =~= list@);
}


/// `str::trim_end_matches(pat)`: every trailing copy of `pat` removed.
pub open spec fn strip_suffixes(s: Seq<char>, pat: Seq<char>) -> Seq<char>
    decreases s.len(),
{
    if pat.len() > 0 && ends_with(s, pat) {
        strip_suffixes(s.subrange(0, s.len() - pat.len()), pat)
    } else {
        s
    }
}

/// End of `strip_suffixes(cs[from..to], pat)` within `cs`.
pub fn strip_suffixes_end(cs: &Vec<char>, from: usize, to: usize, pat: &Vec<char>) -> (j: usize)
    requires
        from <= to <= cs@.len(),
    ensures
        from <= j <= to,
        strip_suffixes(cs@.subrange(from as int, to as int), pat@) == cs@.subrange(
            from as int,
            j as int,
        ),
{
    let mut j = to;
    if pat.len() == 0 {
        return j;
    }
    loop
        invariant
            from <= j <= to <= cs@.len(),
            pat@.len() > 0,
            strip_suffixes(cs@.subrange(from as int, to as int), pat@) == strip_suffixes(
                cs@.subrange(from as int, j as int),
                pat@,
            ),
        decreases j,
    {
        let ghost cur = cs@.subrange(from as int, j as int);
        if pat.len() > j - from || !matches_at(cs, pat, j - pat.len()) {
            assert(!ends_with(cur, pat@)) by {
                if ends_with(cur, pat@) {
                    assert(cur.subrange(cur.len() - pat@.len(), cur.len() as int) =~= cs@.subrange(
                        j - pat@.len(),
                        j as int,
                    ));
                }
            }
            return j;
        }
        assert(cur.subrange(cur.len() - pat@.len(), cur.len() as int) =~= cs@.subrange(
            j - pat@.len(),
            j as int,
        ));
        assert(cur.subrange(0, cur.len() - pat@.len()) =~= cs@.subrange(
            from as int,
            j - pat@.len(),
        ));
        j = j - pat.len();
    }
}

/// Index in `cs` where `before_char(cs[from..], c)` ends.
pub fn find_char_from(cs: &Vec<char>, from: usize, c: char) -> (i: usize)
    requires
        from <= cs@.len(),
    ensures
        from <= i <= cs@.len(),
        before_char(cs@.skip(from as int), c) == cs@.subrange(from as int, i as int),
        i < cs@.len() ==> cs@[i as int] == c,
{
    let mut i: usize = from;
    assert(cs@.subrange(from as int, from as int) + cs@.skip(from as int) =~= cs@.skip(from as int));
    while i < cs.len() && cs[i] != c
        invariant
            from <= i <= cs@.len(),
            before_char(cs@.skip(from as int), c) == cs@.subrange(from as int, i as int) + before_char(
                cs@.skip(i as int),
                c,
            ),
        decreases cs@.len() - i,
    {
        assert(cs@.skip(i as int).drop_first() =~= cs@.skip(i + 1));
        assert(cs@.subrange(from as int, i + 1) =~= cs@.subrange(from as int, i as int) + seq![cs@[i as int]]);
        i += 1;
    }
    if i < cs.len() {
        assert(before_char(cs@.skip(i as int), c) =~= seq![]);
    } else {
        assert(cs@.skip(i as int) =~= seq![]);
    }
    assert(before_char(cs@.skip(from as int), c) =~= cs@.subrange(from as int, i as int));
    i
}

/// A line without the `\r` of its `\r\n` ending.
pub open spec fn strip_cr(line: Seq<char>) -> Seq<char> {
    if line.len() > 0 && line.last() == '\r' {
        line.drop_last()
    } else {
        line
    }
}

/// `str::lines`: the text split at `\n` or `\r\n`; a final line ending adds
/// no empty line.
pub open spec fn lines(s: Seq<char>) -> Seq<Seq<char>>
    decreases s.len(),
{
    if s.len() == 0 {
        seq![]
    } else {
        let k = before_char(s, '\n').len();
        if k < s.len() {
            seq![strip_cr(s.take(k as int))] + lines(s.skip(k as int + 1))
        } else {
            seq![s]
        }
    }
}

/// The lines of a text.
pub fn lines_of(s: &str) -> (r: Vec<String>)
    ensures
        strs_view(r@) == lines(s@),
{
    let cs = chars_of(s);
    let mut r: Vec<String> = Vec::new();
    let mut start: usize = 0;
    assert(cs@.skip(0) =~= cs@);
    assert(strs_view(r@) =~= seq![]);
    while start < cs.len()
        invariant
            cs@ == s@,
            start <= cs@.len(),
            lines(s@) == strs_view(r@) + lines(cs@.skip(start as int)),
        decreases cs@.len() - start,
    {
        let ghost rest = cs@.skip(start as int);
        let k = find_char_from(&cs, start, '\n');
        assert(before_char(rest, '\n').len() == k - start);
        if k < cs.len() {
            let end = if k > start && cs[k - 1] == '\r' { k - 1 } else { k };
            let line = string_of(&cs, start, end);
            assert(rest.take(k - start) =~= cs@.subrange(start as int, k as int));
            assert(line@ =~= strip_cr(rest.take(k - start)));
            assert(rest.skip(k - start + 1) =~= cs@.skip(k + 1));
            proof {
                lemma_strs_view_push(r@, line);
            }
            r.push(line);
            start = k + 1;
        } else {
            let line = string_of(&cs, start, cs.len());
            assert(line@ =~= rest);
            proof {
                lemma_strs_view_push(r@, line);
            }
            r.push(line);
            start = cs.len();
            assert(cs@.skip(start as int) =~= seq![]);
        }
        assert(lines(s@) =~= strs_view(r@) + lines(cs@.skip(start as int)));
    }
    assert(cs@.skip(start as int) =~= seq![]);
    assert(strs_view(r@) + seq![] =~= strs_view(r@));
    r
}


/// The index of the last `c` in `s`, if any.
pub open spec fn last_index_of(s: Seq<char>, c: char) -> Option<int>
    decreases s.len(),
{
    if s.len() == 0 {
        None
    } else if s.last() == c {
        Some(s.len() - 1)
    } else {
        last_index_of(s.drop_last(), c)
    }
}

pub fn last_index(cs: &Vec<char>, c: char) -> (r: Option<usize>)
    ensures
        match r {
            Some(i) => last_index_of(cs@, c) == Some(i as int) && i < cs@.len(),
            None => last_index_of(cs@, c) is None,
        },
{
    let mut j = cs.len();
    assert(cs@.take(j as int) =~= cs@);
    while j > 0
        invariant
            j <= cs@.len(),
            last_index_of(cs@, c) == last_index_of(cs@.take(j as int), c),
        decreases j,
    {
        if cs[j - 1] == c {
            return Some(j - 1);
        }
        assert(cs@.take(j as int).drop_last() =~= cs@.take(j - 1));
        j -= 1;
    }
    None
}


pub open spec fn is_digit(c: char) -> bool {
    48 <= (c as u32) <= 57
}

/// The number that a run of decimal digits spells.
pub open spec fn digits_value(s: Seq<char>) -> nat
    decreases s.len(),
{
    if s.len() == 0 {
        0
    } else {
        digits_value(s.drop_last()) * 10 + ((s.last() as u32) - 48) as nat
    }
}

pub open spec fn all_digits(s: Seq<char>) -> bool {
    forall|i: int| 0 <= i < s.len() ==> is_digit(s[i])
}

/// `u64::from_str`: an optional `+`, then at least one decimal digit, the
/// value no more than `u64::MAX`.
pub open spec fn parse_u64(s: Seq<char>) -> Option<u64> {
    let d = if s.len() > 0 && s[0] == '+' {
        s.drop_first()
    } else {
        s
    };
    if d.len() > 0 && all_digits(d) && digits_value(d) <= u64::MAX {
        Some(digits_value(d) as u64)
    } else {
        None
    }
}

pub proof fn lemma_digits_value_grows(s: Seq<char>, k: int)
    requires
        0 <= k <= s.len(),
        all_digits(s),
    ensures
        digits_value(s.take(k)) <= digits_value(s),
    decreases s.len() - k,
{
    if k < s.len() {
        assert(s.take(k + 1).drop_last() =~= s.take(k));
        lemma_digits_value_grows(s, k + 1);
    } else {
        assert(s.take(k) =~= s);
    }
}

/// Parses a decimal `u64` the way `str::parse::<u64>` does.
pub fn parse_u64_str(s: &str) -> (r: Option<u64>)
    ensures
        r == parse_u64(s@),
{
    let cs = chars_of(s);
    let start: usize = if cs.len() > 0 && cs[0] == '+' { 1 } else { 0 };
    let ghost d = if s@.len() > 0 && s@[0] == '+' { s@.drop_first() } else { s@ };
    assert(d =~= cs@.skip(start as int));
    if start >= cs.len() {
        return None;
    }
    let mut value: u64 = 0;
    let mut i = start;
    while i < cs.len()
        invariant
            start <= i <= cs@.len(),
            cs@ == s@,
            d == (if s@.len() > 0 && s@[0] == '+' { s@.drop_first() } else { s@ }),
            d == cs@.skip(start as int),
            forall|k: int| start <= k < i ==> is_digit(cs@[k]),
            value == digits_value(cs@.subrange(start as int, i as int)),
        decreases cs@.len() - i,
    {
        let c = cs[i];
        let u = c as u32;
        if u < 48 || u > 57 {
            assert(!is_digit(d[i - start]));
            return None;
        }
        let digit = (u - 48) as u64;
        assert(cs@.subrange(start as int, i + 1).drop_last() =~= cs@.subrange(start as int, i as int));
        if value > (u64::MAX - digit) / 10 {
            proof {
                assert(digits_value(cs@.subrange(start as int, i + 1)) > u64::MAX);
                if all_digits(d) {
                    assert(d.take(i + 1 - start) =~= cs@.subrange(start as int, i + 1));
                    lemma_digits_value_grows(d, i + 1 - start);
                }
            }
            return None;
        }
        value = value * 10 + digit;
        i += 1;
    }
    assert(cs@.subrange(start as int, i as int) =~= d);
    Some(value)
}

} // verus!
