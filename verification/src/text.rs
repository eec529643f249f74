//! Text utilities shared by the other modules: prefix and suffix tests,
//! searching, trimming whitespace, splitting into lines, and writing and
//! reading decimal numbers.
//!
//! Every contract is stated over the `Seq<char>` view of the strings
//! involved; positions count characters, not bytes.
use vstd::prelude::*;
use vstd::string::*;

verus! {

/// Whether `c` is alphanumeric in the sense of `char::is_alphanumeric`
/// (the Unicode `Alphabetic` property or one of the numeric general categories).
pub uninterp spec fn is_alphanumeric_char(c: char) -> bool;

/// Whether `c` is whitespace in the sense of `char::is_whitespace`
/// (the Unicode `White_Space` property).
pub uninterp spec fn is_whitespace_char(c: char) -> bool;

/// Calls `char::is_alphanumeric`. The result is a function of the character
/// alone; this contract gives it the name [`is_alphanumeric_char`] and claims
/// nothing more about it.
#[verifier::external_body]
pub(crate) fn char_is_alphanumeric(c: char) -> (b: bool)
    ensures
        b == is_alphanumeric_char(c),
{
    c.is_alphanumeric()
}

/// Calls `char::is_whitespace`. The result is a function of the character
/// alone; this contract gives it the name [`is_whitespace_char`] and claims
/// nothing more about it.
#[verifier::external_body]
pub(crate) fn char_is_whitespace(c: char) -> (b: bool)
    ensures
        b == is_whitespace_char(c),
{
    c.is_whitespace()
}

/// Whether `s` begins with `p`.
pub fn starts_with(s: &str, p: &str) -> (b: bool)
    ensures
        b == p@.is_prefix_of(s@),
{
    let n: usize = s.unicode_len();
    let m: usize = p.unicode_len();
    if m > n {
        return false;
    }
    let mut i: usize = 0;
    while i < m
        invariant
            i <= m <= n,
            n == s@.len(),
            m == p@.len(),
            forall|j: int| 0 <= j < i ==> s@[j] == p@[j],
        decreases m - i,
    {
        if s.get_char(i) != p.get_char(i) {
            return false;
        }
        i = i + 1;
    }
    true
}

/// Whether `s` ends with `p`.
pub fn ends_with(s: &str, p: &str) -> (b: bool)
    ensures
        b == p@.is_suffix_of(s@),
{
    let n: usize = s.unicode_len();
    let m: usize = p.unicode_len();
    if m > n {
        return false;
    }
    let d: usize = n - m;
    let mut i: usize = 0;
    while i < m
        invariant
            i <= m <= n,
            d == n - m,
            n == s@.len(),
            m == p@.len(),
            forall|j: int| 0 <= j < i ==> s@[d + j] == p@[j],
        decreases m - i,
    {
        if s.get_char(d + i) != p.get_char(i) {
            return false;
        }
        i = i + 1;
    }
    true
}

/// The position of the first `c` in `s` at or after `from`, or the length of
/// `s` when there is none.
pub open spec fn find_from(s: Seq<char>, c: char, from: int) -> int
    decreases s.len() - from,
{
    if from < 0 || from >= s.len() {
        s.len() as int
    } else if s[from] == c {
        from
    } else {
        find_from(s, c, from + 1)
    }
}

/// What [`find_from`] returns lies between `from` and the length, names an
/// occurrence of `c` when it is inside `s`, and no `c` stands before it.
pub proof fn lemma_find_from(s: Seq<char>, c: char, from: int)
    requires
        0 <= from <= s.len(),
    ensures
        from <= find_from(s, c, from) <= s.len(),
        find_from(s, c, from) < s.len() ==> s[find_from(s, c, from)] == c,
        forall|j: int| from <= j < find_from(s, c, from) ==> s[j] != c,
    decreases s.len() - from,
{
    if from < s.len() && s[from] != c {
        lemma_find_from(s, c, from + 1);
    }
}

/// Searches `s` for `c` from position `from` on.
pub fn find_char_from(s: &str, c: char, from: usize) -> (r: usize)
    requires
        from <= s@.len(),
    ensures
        r == find_from(s@, c, from as int),
        from <= r <= s@.len(),
{
    let n: usize = s.unicode_len();
    let mut i: usize = from;
    while i < n
        invariant
            from <= i <= n,
            n == s@.len(),
            find_from(s@, c, from as int) == find_from(s@, c, i as int),
        decreases n - i,
    {
        if s.get_char(i) == c {
            return i;
        }
        i = i + 1;
    }
    i
}

/// The characters of `s` from position `from` up to position `to`, as a new string.
pub fn slice_to_string(s: &str, from: usize, to: usize) -> (r: String)
    requires
        from <= to <= s@.len(),
    ensures
        r@ == s@.subrange(from as int, to as int),
{
    String::from_str(s.substring_char(from, to))
}

/// For each character of `s`, whether it is whitespace.
pub open spec fn blanks(s: Seq<char>) -> Seq<bool> {
    s.map_values(|c: char| is_whitespace_char(c))
}

/// The first position at or after `from` that is not blank; the length
/// where all are.
pub open spec fn first_kept(blank: Seq<bool>, from: int) -> int
    decreases blank.len() - from,
{
    if 0 <= from < blank.len() && blank[from] {
        first_kept(blank, from + 1)
    } else {
        from
    }
}

/// The end of what is kept of `start..end`: the position behind the last
/// one in it that is not blank; `start` where all are.
pub open spec fn end_kept(blank: Seq<bool>, start: int, end: int) -> int
    decreases end - start,
{
    if start < end <= blank.len() && blank[end - 1] {
        end_kept(blank, start, end - 1)
    } else {
        end
    }
}

/// `s` with leading and trailing whitespace removed.
pub open spec fn trimmed(s: Seq<char>) -> Seq<char> {
    let start = first_kept(blanks(s), 0);
    s.subrange(start, end_kept(blanks(s), start, s.len() as int))
}

/// Where the text that is kept begins and ends, given for each character
/// whether it is blank: leading and trailing blanks are dropped.
pub fn trim_bounds(blank: &Vec<bool>) -> (r: (usize, usize))
    ensures
        r.0 == first_kept(blank@, 0),
        r.1 == end_kept(blank@, r.0 as int, blank@.len() as int),
        r.0 <= r.1 <= blank@.len(),
{
    let n: usize = blank.len();
    let mut start: usize = 0;
    while start < n && blank[start]
        invariant
            start <= n,
            n == blank@.len(),
            first_kept(blank@, 0) == first_kept(blank@, start as int),
        decreases n - start,
    {
        start = start + 1;
    }
    let mut end: usize = n;
    while end > start && blank[end - 1]
        invariant
            start <= end <= n,
            n == blank@.len(),
            end_kept(blank@, start as int, n as int) == end_kept(blank@, start as int, end as int),
        decreases end,
    {
        end = end - 1;
    }
    (start, end)
}

/// Removes leading and trailing whitespace, as `str::trim` does.
pub fn trim(s: &str) -> (r: &str)
    ensures
        r@ == trimmed(s@),
{
    let n: usize = s.unicode_len();
    let mut blank: Vec<bool> = Vec::new();
    let mut i: usize = 0;
    while i < n
        invariant
            i <= n,
            n == s@.len(),
            blank@.len() == i,
            forall|j: int| 0 <= j < i ==> blank@[j] == is_whitespace_char(s@[j]),
        decreases n - i,
    {
        blank.push(char_is_whitespace(s.get_char(i)));
        i = i + 1;
    }
    assert(blank@ =~= blanks(s@));
    let (start, end) = trim_bounds(&blank);
    s.substring_char(start, end)
}

/// The character that writes the decimal digit `d`.
pub open spec fn digit_char(d: int) -> char {
    if d == 0 {
        '0'
    } else if d == 1 {
        '1'
    } else if d == 2 {
        '2'
    } else if d == 3 {
        '3'
    } else if d == 4 {
        '4'
    } else if d == 5 {
        '5'
    } else if d == 6 {
        '6'
    } else if d == 7 {
        '7'
    } else if d == 8 {
        '8'
    } else {
        '9'
    }
}

/// The decimal digits of `n`, most significant first, without leading zeros.
pub open spec fn decimal(n: nat) -> Seq<char>
    decreases n,
{
    if n < 10 {
        seq![digit_char(n as int)]
    } else {
        decimal(n / 10).push(digit_char((n % 10) as int))
    }
}

/// `n` in decimal, padded with zeros on the left to at least three digits.
pub open spec fn decimal_width3(n: nat) -> Seq<char> {
    if n < 10 {
        seq!['0', '0'] + decimal(n)
    } else if n < 100 {
        seq!['0'] + decimal(n)
    } else {
        decimal(n)
    }
}

/// `v` in decimal, with a minus sign in front when it is negative.
pub open spec fn decimal_signed(v: int) -> Seq<char> {
    if v < 0 {
        seq!['-'] + decimal((-v) as nat)
    } else {
        decimal(v as nat)
    }
}

fn digit_str(d: u64) -> (r: &'static str)
    requires
        d < 10,
    ensures
        r@ == seq![digit_char(d as int)],
{
    proof {
        reveal_strlit("0");
        reveal_strlit("1");
        reveal_strlit("2");
        reveal_strlit("3");
        reveal_strlit("4");
        reveal_strlit("5");
        reveal_strlit("6");
        reveal_strlit("7");
        reveal_strlit("8");
        reveal_strlit("9");
    }
    let r: &'static str = if d == 0 {
        "0"
    } else if d == 1 {
        "1"
    } else if d == 2 {
        "2"
    } else if d == 3 {
        "3"
    } else if d == 4 {
        "4"
    } else if d == 5 {
        "5"
    } else if d == 6 {
        "6"
    } else if d == 7 {
        "7"
    } else if d == 8 {
        "8"
    } else {
        "9"
    };
    r
}

/// Appends `n` in decimal to `buf`.
pub fn push_decimal(buf: &mut String, n: u64)
    ensures
        final(buf)@ == old(buf)@ + decimal(n as nat),
    decreases n,
{
    if n >= 10 {
        push_decimal(buf, n / 10);
    }
    buf.append(digit_str(n % 10));
}

/// Appends `n` in decimal to `buf`, with at least three digits.
pub fn push_decimal_width3(buf: &mut String, n: u64)
    ensures
        final(buf)@ == old(buf)@ + decimal_width3(n as nat),
{
    proof {
        reveal_strlit("00");
        reveal_strlit("0");
    }
    if n < 10 {
        buf.append("00");
    } else if n < 100 {
        buf.append("0");
    }
    push_decimal(buf, n);
}

/// Appends `v` in decimal to `buf`, with a minus sign when it is negative.
pub fn push_decimal_signed(buf: &mut String, v: i64)
    ensures
        final(buf)@ == old(buf)@ + decimal_signed(v as int),
{
    if v < 0 {
        proof {
            reveal_strlit("-");
        }
        buf.append("-");
        let below: i64 = -(v + 1);
        let magnitude: u64 = below as u64 + 1;
        push_decimal(buf, magnitude);
    } else {
        push_decimal(buf, v as u64);
    }
}

/// Whether `c` is one of the ten decimal digits.
pub open spec fn is_digit(c: char) -> bool {
    '0' <= c <= '9'
}

/// The number that the decimal digits `s` write (digits only; see [`parse_u32_spec`]).
pub open spec fn digits_value(s: Seq<char>) -> nat
    decreases s.len(),
{
    if s.len() == 0 {
        0
    } else {
        digits_value(s.drop_last()) * 10 + (s.last() as nat - '0' as nat) as nat
    }
}

/// The number that `s` writes in decimal: an optional plus sign, then one or
/// more decimal digits whose value fits in 32 bits. Anything else is no number.
pub open spec fn parse_u32_spec(s: Seq<char>) -> Option<u32> {
    let d = without_plus_sign(s);
    if d.len() > 0 && all_digits(d) && digits_value(d) <= u32::MAX {
        Some(digits_value(d) as u32)
    } else {
        None
    }
}

/// `s` without the plus sign that it may begin with.
pub open spec fn without_plus_sign(s: Seq<char>) -> Seq<char> {
    if s.len() > 0 && s[0] == '+' {
        s.drop_first()
    } else {
        s
    }
}

/// Whether every character of `s` is a decimal digit.
pub open spec fn all_digits(s: Seq<char>) -> bool {
    forall|i: int| 0 <= i < s.len() ==> is_digit(#[trigger] s[i])
}

proof fn lemma_digits_value_grows(s: Seq<char>, k: int)
    requires
        0 <= k <= s.len(),
        forall|i: int| 0 <= i < s.len() ==> is_digit(#[trigger] s[i]),
    ensures
        digits_value(s.subrange(0, k)) <= digits_value(s),
    decreases s.len() - k,
{
    if k == s.len() {
        assert(s.subrange(0, k) =~= s);
    } else {
        lemma_digits_value_grows(s, k + 1);
        let t = s.subrange(0, k + 1);
        assert(t.drop_last() =~= s.subrange(0, k));
        assert(is_digit(s[k]));
        assert(t.last() == s[k]);
    }
}

/// Reads a decimal number as `str::parse::<u32>` does.
pub fn parse_u32(s: &str) -> (r: Option<u32>)
    ensures
        r == parse_u32_spec(s@),
{
    let n: usize = s.unicode_len();
    let start: usize = if n > 0 && s.get_char(0) == '+' {
        1
    } else {
        0
    };
    if start == n {
        return None;
    }
    let ghost d: Seq<char> = s@.subrange(start as int, n as int);
    let mut acc: u64 = 0;
    let mut i: usize = start;
    while i < n
        invariant
            start <= i <= n,
            n == s@.len(),
            d == s@.subrange(start as int, n as int),
            d.len() > 0,
            d == without_plus_sign(s@),
            forall|j: int| 0 <= j < i - start ==> is_digit(#[trigger] d[j]),
            acc == digits_value(d.subrange(0, i - start)),
            acc <= u32::MAX,
        decreases n - i,
    {
        let c: char = s.get_char(i);
        if c < '0' || c > '9' {
            assert(!is_digit(d[i - start]));
            return None;
        }
        let digit: u64 = (c as u32 - '0' as u32) as u64;
        let ghost t = d.subrange(0, i - start + 1);
        assert(t.drop_last() =~= d.subrange(0, i - start));
        let next: u64 = acc * 10 + digit;
        if next > 0xffff_ffff {
            proof {
                if all_digits(d) {
                    lemma_digits_value_grows(d, i - start + 1);
                }
            }
            return None;
        }
        acc = next;
        i = i + 1;
    }
    assert(d.subrange(0, n - start) =~= d);
    Some(acc as u32)
}

/// Whether `a` and `b` hold the same characters.
pub fn str_equal(a: &str, b: &str) -> (r: bool)
    ensures
        r == (a@ == b@),
{
    let same_length: bool = a.unicode_len() == b.unicode_len();
    let prefix: bool = starts_with(a, b);
    proof {
        if same_length && prefix {
            assert(a@.subrange(0, b@.len() as int) =~= a@);
        }
    }
    same_length && prefix
}

/// How often `c` occurs in `s` at or after position `from`.
pub open spec fn count_from(s: Seq<char>, c: char, from: int) -> nat
    decreases s.len() - from,
{
    if from < 0 || from >= s.len() {
        0
    } else if s[from] == c {
        1 + count_from(s, c, from + 1)
    } else {
        count_from(s, c, from + 1)
    }
}

/// How often `c` occurs in `s`.
pub open spec fn count_char(s: Seq<char>, c: char) -> nat {
    count_from(s, c, 0)
}

/// The first occurrence found by [`find_from`] accounts for one of the
/// occurrences counted by [`count_from`]; there is none exactly when the
/// count is zero.
pub proof fn lemma_find_count(s: Seq<char>, c: char, from: int)
    requires
        0 <= from <= s.len(),
    ensures
        find_from(s, c, from) == s.len() <==> count_from(s, c, from) == 0,
        find_from(s, c, from) < s.len() ==> count_from(s, c, from) == 1 + count_from(
            s,
            c,
            find_from(s, c, from) + 1,
        ),
    decreases s.len() - from,
{
    if from < s.len() && s[from] != c {
        lemma_find_count(s, c, from + 1);
    }
}

/// The views of a list of strings.
pub open spec fn views_of(v: Seq<String>) -> Seq<Seq<char>> {
    v.map_values(|s: String| s@)
}

/// [`decimal`] gives at least one digit, and no zero in front of a number
/// that is not zero.
pub proof fn lemma_decimal_shape(n: nat)
    ensures
        decimal(n).len() >= 1,
        n >= 10 ==> decimal(n).len() >= 2,
        n >= 100 ==> decimal(n).len() >= 3,
        n > 0 ==> decimal(n)[0] != '0',
    decreases n,
{
    if n >= 10 {
        lemma_decimal_shape(n / 10);
    }
}

/// Different numbers are written differently.
pub proof fn lemma_decimal_injective(a: nat, b: nat)
    requires
        decimal(a) == decimal(b),
    ensures
        a == b,
    decreases a,
{
    lemma_decimal_shape(a);
    lemma_decimal_shape(b);
    if a >= 10 && b >= 10 {
        let da = decimal(a / 10);
        let db = decimal(b / 10);
        assert(da.push(digit_char((a % 10) as int)).drop_last() =~= da);
        assert(db.push(digit_char((b % 10) as int)).drop_last() =~= db);
        assert(da.push(digit_char((a % 10) as int)).last() == digit_char((a % 10) as int));
        assert(db.push(digit_char((b % 10) as int)).last() == digit_char((b % 10) as int));
        lemma_decimal_injective(a / 10, b / 10);
    } else if a < 10 && b < 10 {
        assert(decimal(a)[0] == digit_char(a as int));
        assert(decimal(b)[0] == digit_char(b as int));
    }
}

/// Different numbers are written differently with three digits and more.
pub proof fn lemma_decimal_width3_injective(a: nat, b: nat)
    requires
        decimal_width3(a) == decimal_width3(b),
    ensures
        a == b,
{
    lemma_decimal_shape(a);
    lemma_decimal_shape(b);
    let wa = decimal_width3(a);
    let wb = decimal_width3(b);
    if a < 10 {
        assert(wa[0] == '0' && wa[1] == '0' && wa[2] == digit_char(a as int));
        assert(wa.len() == 3);
        if b < 10 {
            assert(wb[2] == digit_char(b as int));
        } else if b < 100 {
            assert(wb[1] == decimal(b)[0]);
        } else {
            assert(wb[0] == decimal(b)[0]);
        }
    } else if a < 100 {
        assert(wa[0] == '0' && wa[1] == decimal(a)[0]);
        if b < 10 {
            assert(wb[1] == '0');
        } else if b < 100 {
            assert(decimal(a) =~= wa.subrange(1, wa.len() as int));
            assert(decimal(b) =~= wb.subrange(1, wb.len() as int));
            lemma_decimal_injective(a, b);
        } else {
            assert(wb[0] == decimal(b)[0]);
        }
    } else {
        assert(wa[0] == decimal(a)[0]);
        if b < 10 {
            assert(wb[0] == '0');
        } else if b < 100 {
            assert(wb[0] == '0');
        } else {
            lemma_decimal_injective(a, b);
        }
    }
}

/// Where the line that ends with the line feed at `nl` ends: before the
/// carriage return that stands in front of the line feed, if one does.
pub open spec fn line_end(s: Seq<char>, from: int, nl: int) -> int {
    if nl > from && s[nl - 1] == '\r' {
        nl - 1
    } else {
        nl
    }
}

/// The lines of `s[from..]` that are not empty. A line ends with a line
/// feed, or a carriage return and a line feed, or the end of the text.
pub open spec fn nonempty_lines(s: Seq<char>, from: int) -> Seq<Seq<char>>
    decreases s.len() - from,
{
    if 0 <= from < s.len() {
        let nl = find_from(s, '\n', from);
        if from <= nl < s.len() {
            let end = line_end(s, from, nl);
            (if end > from {
                seq![s.subrange(from, end)]
            } else {
                Seq::empty()
            }) + nonempty_lines(s, nl + 1)
        } else {
            seq![s.subrange(from, s.len() as int)]
        }
    } else {
        Seq::empty()
    }
}

/// The lines of `output` that are not empty, as `str::lines` tells lines.
pub fn split_nonempty_lines(output: &str) -> (r: Vec<String>)
    ensures
        views_of(r@) == nonempty_lines(output@, 0),
{
    let n: usize = output.unicode_len();
    let mut out: Vec<String> = Vec::new();
    let mut from: usize = 0;
    while from < n
        invariant
            from <= n,
            n == output@.len(),
            views_of(out@) + nonempty_lines(output@, from as int) == nonempty_lines(
                output@,
                0,
            ),
        decreases n - from,
    {
        let nl: usize = find_char_from(output, '\n', from);
        if nl < n {
            let mut end: usize = nl;
            if end > from && output.get_char(end - 1) == '\r' {
                end = end - 1;
            }
            if end > from {
                out.push(slice_to_string(output, from, end));
            }
            from = nl + 1;
        } else {
            out.push(slice_to_string(output, from, n));
            from = n;
        }
    }
    out
}

/// Whether `pat` stands in `s` at position `k`.
pub open spec fn occurs_at(s: Seq<char>, pat: Seq<char>, k: int) -> bool {
    0 <= k && k + pat.len() <= s.len() && s.subrange(k, k + pat.len()) == pat
}

/// Whether `pat` stands somewhere in `s`.
pub open spec fn contains_text(s: Seq<char>, pat: Seq<char>) -> bool {
    exists|k: int| occurs_at(s, pat, k)
}

/// Whether `pat` stands somewhere in `s`.
pub fn contains_str(s: &str, pat: &str) -> (b: bool)
    ensures
        b == contains_text(s@, pat@),
{
    let n: usize = s.unicode_len();
    let m: usize = pat.unicode_len();
    if m > n {
        return false;
    }
    let last: usize = n - m;
    let mut k: usize = 0;
    while k < last
        invariant
            last == n - m,
            k <= last,
            n == s@.len(),
            m == pat@.len(),
            forall|j: int| 0 <= j < k ==> !occurs_at(s@, pat@, j),
        decreases last - k,
    {
        if str_equal(s.substring_char(k, k + m), pat) {
            assert(occurs_at(s@, pat@, k as int));
            return true;
        }
        k = k + 1;
    }
    let found: bool = str_equal(s.substring_char(last, n), pat);
    assert(found == occurs_at(s@, pat@, last as int));
    found
}

} // verus!
