//! Text primitives over `char` sequences: trimming, searching, replacing,
//! number parsing and printing, as the combat-log rules need them.

use vstd::prelude::*;
use vstd::string::*;

verus! {

/// The Unicode `White_Space` property, the set of characters that
/// `str::trim` removes.
pub open spec fn is_white_space(c: char) -> bool {
    let u = c as u32;
    ||| (0x9 <= u && u <= 0xd)
    ||| u == 0x20
    ||| u == 0x85
    ||| u == 0xa0
    ||| u == 0x1680
    ||| (0x2000 <= u && u <= 0x200a)
    ||| u == 0x2028
    ||| u == 0x2029
    ||| u == 0x202f
    ||| u == 0x205f
    ||| u == 0x3000
}

pub open spec fn trim_start(s: Seq<char>) -> Seq<char>
    decreases s.len(),
{
    if s.len() > 0 && is_white_space(s[0]) {
        trim_start(s.skip(1))
    } else {
        s
    }
}

pub open spec fn trim_end(s: Seq<char>) -> Seq<char>
    decreases s.len(),
{
    if s.len() > 0 && is_white_space(s.last()) {
        trim_end(s.drop_last())
    } else {
        s
    }
}

/// `s` without its leading and trailing white space.
pub open spec fn trim(s: Seq<char>) -> Seq<char> {
    trim_end(trim_start(s))
}

pub fn is_white_space_char(c: char) -> (r: bool)
    ensures
        r == is_white_space(c),
{
    let u = c as u32;
    (0x9 <= u && u <= 0xd) || u == 0x20 || u == 0x85 || u == 0xa0 || u == 0x1680 || (0x2000 <= u
        && u <= 0x200a) || u == 0x2028 || u == 0x2029 || u == 0x202f || u == 0x205f || u == 0x3000
}

/// The characters of `s` from position `from` (inclusive) to `to` (exclusive).
pub fn slice_text(s: &str, from: usize, to: usize) -> (r: String)
    requires
        from <= to <= s@.len(),
    ensures
        r@ == s@.subrange(from as int, to as int),
{
    s.substring_char(from, to).to_owned()
}

/// Trimming, as `str::trim` does it.
pub fn trim_text(s: &str) -> (r: String)
    ensures
        r@ == trim(s@),
{
    let n = s.unicode_len();
    let mut i: usize = 0;
    assert(s@.skip(0) =~= s@);
    while i < n && is_white_space_char(s.get_char(i))
        invariant
            n == s@.len(),
            i <= n,
            trim_start(s@) == trim_start(s@.skip(i as int)),
        decreases n - i,
    {
        assert(s@.skip(i as int).skip(1) =~= s@.skip(i + 1));
        i = i + 1;
    }
    assert(trim_start(s@.skip(i as int)) == s@.skip(i as int));
    let mut j: usize = n;
    assert(s@.skip(i as int) =~= s@.subrange(i as int, j as int));
    while j > i && is_white_space_char(s.get_char(j - 1))
        invariant
            n == s@.len(),
            i <= j <= n,
            trim_start(s@) == s@.skip(i as int),
            trim_end(s@.skip(i as int)) == trim_end(s@.subrange(i as int, j as int)),
        decreases j - i,
    {
        assert(s@.subrange(i as int, j as int).drop_last() =~= s@.subrange(i as int, j - 1));
        j = j - 1;
    }
    proof {
        assert(s@.skip(i as int) =~= s@.subrange(i as int, n as int));
    }
    slice_text(s, i, j)
}


/// `p` stands in `s` at position `i`.
pub open spec fn occurs_at(s: Seq<char>, p: Seq<char>, i: int) -> bool {
    0 <= i && i + p.len() <= s.len() && s.subrange(i, i + p.len()) == p
}

/// Position of the first occurrence of `p` in `s` at or after `i`, or -1.
pub open spec fn find_from(s: Seq<char>, p: Seq<char>, i: nat) -> int
    decreases s.len() - i,
{
    if p.len() == 0 {
        if i <= s.len() {
            i as int
        } else {
            -1
        }
    } else if i + p.len() > s.len() {
        -1
    } else if occurs_at(s, p, i as int) {
        i as int
    } else {
        find_from(s, p, i + 1)
    }
}

/// Position of the first occurrence of `p` in `s`, or -1.
pub open spec fn find_first(s: Seq<char>, p: Seq<char>) -> int {
    find_from(s, p, 0)
}

/// `p` occurs somewhere in `s`.
pub open spec fn contains_text(s: Seq<char>, p: Seq<char>) -> bool {
    find_first(s, p) >= 0
}

/// Whether `p` stands in `s` at position `i`.
pub fn occurs_at_pos(s: &str, p: &str, i: usize) -> (r: bool)
    requires
        i <= s@.len(),
    ensures
        r == occurs_at(s@, p@, i as int),
{
    let n = s.unicode_len();
    let m = p.unicode_len();
    if m > n - i {
        return false;
    }
    let mut j: usize = 0;
    while j < m
        invariant
            n == s@.len(),
            m == p@.len(),
            i + m <= n,
            j <= m,
            forall|k: int| 0 <= k < j ==> s@[i + k] == p@[k],
        decreases m - j,
    {
        if s.get_char(i + j) != p.get_char(j) {
            assert(s@.subrange(i as int, i + m)[j as int] != p@[j as int]);
            return false;
        }
        j = j + 1;
    }
    assert(s@.subrange(i as int, i + m) =~= p@);
    true
}

/// Position of the first occurrence of `p` in `s`, as `str::find` gives it.
pub fn find_text(s: &str, p: &str) -> (r: Option<usize>)
    ensures
        match r {
            Some(k) => k == find_first(s@, p@) && occurs_at(s@, p@, k as int),
            None => find_first(s@, p@) == -1,
        },
{
    let n = s.unicode_len();
    let m = p.unicode_len();
    let mut i: usize = 0;
    while i <= n
        invariant
            n == s@.len(),
            m == p@.len(),
            find_first(s@, p@) == find_from(s@, p@, i as nat),
        decreases n + 1 - i,
    {
        if m == 0 {
            assert(s@.subrange(i as int, i as int) =~= p@);
            return Some(i);
        }
        if m > n - i {
            return None;
        }
        if occurs_at_pos(s, p, i) {
            return Some(i);
        }
        i = i + 1;
    }
    None
}

/// Whether `p` occurs in `s`, as `str::contains` tells it.
pub fn contains(s: &str, p: &str) -> (r: bool)
    ensures
        r == contains_text(s@, p@),
{
    match find_text(s, p) {
        Some(_) => true,
        None => false,
    }
}

/// Every non-overlapping occurrence of `p` in `s`, scanned from the left,
/// replaced by `rep`: what `str::replace` computes for a non-empty `p`.
pub open spec fn replace_text(s: Seq<char>, p: Seq<char>, rep: Seq<char>) -> Seq<char>
    decreases s.len(),
{
    if p.len() == 0 || s.len() == 0 {
        s
    } else if occurs_at(s, p, 0) {
        rep + replace_text(s.skip(p.len() as int), p, rep)
    } else {
        seq![s[0]] + replace_text(s.skip(1), p, rep)
    }
}

/// `str::replace` for a non-empty pattern.
pub fn replace_all_text(s: &str, p: &str, rep: &str) -> (r: String)
    requires
        p@.len() > 0,
    ensures
        r@ == replace_text(s@, p@, rep@),
{
    let n = s.unicode_len();
    let m = p.unicode_len();
    let mut res = String::new();
    let mut i: usize = 0;
    assert(s@.skip(0) =~= s@);
    while i < n
        invariant
            n == s@.len(),
            m == p@.len(),
            m > 0,
            i <= n,
            replace_text(s@, p@, rep@) == res@ + replace_text(s@.skip(i as int), p@, rep@),
        decreases n - i,
    {
        let ghost rest = s@.skip(i as int);
        if occurs_at_pos(s, p, i) {
            proof {
                assert(rest.subrange(0, m as int) =~= s@.subrange(i as int, i + m));
                assert(rest.skip(m as int) =~= s@.skip(i + m));
            }
            res.append(rep);
            i = i + m;
        } else {
            proof {
                if occurs_at(rest, p@, 0) {
                    assert(rest.subrange(0, m as int) =~= s@.subrange(i as int, i + m));
                }
                assert(rest.skip(1) =~= s@.skip(i + 1));
                assert(s@.subrange(i as int, i + 1) =~= seq![rest[0]]);
            }
            let piece = slice_text(s, i, i + 1);
            res.append(piece.as_str());
            i = i + 1;
        }
        proof {
            assert((res@ + replace_text(s@.skip(i as int), p@, rep@)) =~= replace_text(s@, p@, rep@));
        }
    }
    proof {
        assert(s@.skip(n as int) =~= Seq::<char>::empty());
        assert(res@ + Seq::<char>::empty() =~= res@);
    }
    res
}

/// Equality of two texts.
pub fn text_eq(a: &str, b: &str) -> (r: bool)
    ensures
        r == (a@ == b@),
{
    let n = a.unicode_len();
    if n != b.unicode_len() {
        return false;
    }
    let mut i: usize = 0;
    while i < n
        invariant
            n == a@.len(),
            n == b@.len(),
            i <= n,
            forall|k: int| 0 <= k < i ==> a@[k] == b@[k],
        decreases n - i,
    {
        if a.get_char(i) != b.get_char(i) {
            return false;
        }
        i = i + 1;
    }
    assert(a@ =~= b@);
    true
}

/// Whether one of `list` reads `name`.
pub open spec fn names_contain(list: Seq<String>, name: Seq<char>) -> bool {
    exists|i: int| 0 <= i < list.len() && #[trigger] list[i]@ == name
}

/// Membership test of a name in a list of names, as `contains` on a slice does it.
pub fn contains_name(list: &[String], name: &str) -> (r: bool)
    ensures
        r == names_contain(list@, name@),
{
    let mut i: usize = 0;
    while i < list.len()
        invariant
            i <= list@.len(),
            forall|k: int| 0 <= k < i ==> #[trigger] list@[k]@ != name@,
        decreases list@.len() - i,
    {
        if text_eq(list[i].as_str(), name) {
            return true;
        }
        i = i + 1;
    }
    false
}


/// What `s.split(sep).next()` gives: the text before the first `sep`, or
/// the whole of `s`.
pub open spec fn first_segment(s: Seq<char>, sep: Seq<char>) -> Seq<char> {
    let k = find_first(s, sep);
    if k < 0 {
        s
    } else {
        s.take(k)
    }
}

/// What `s.split(sep).nth(1)` gives: the text between the first and the
/// second `sep`, or after the first one when there is no second one.
pub open spec fn second_segment(s: Seq<char>, sep: Seq<char>) -> Option<Seq<char>> {
    let k = find_first(s, sep);
    if k < 0 {
        None
    } else {
        Some(first_segment(s.skip(k + sep.len()), sep))
    }
}

/// `s.split(sep).next()` for a non-empty `sep`.
pub fn first_segment_text(s: &str, sep: &str) -> (r: String)
    requires
        sep@.len() > 0,
    ensures
        r@ == first_segment(s@, sep@),
{
    match find_text(s, sep) {
        None => s.to_owned(),
        Some(k) => slice_text(s, 0, k),
    }
}

/// `s.split(sep).nth(1)` for a non-empty `sep`.
pub fn second_segment_text(s: &str, sep: &str) -> (r: Option<String>)
    requires
        sep@.len() > 0,
    ensures
        r matches Some(t) ==> second_segment(s@, sep@) == Some(t@),
        r is None ==> second_segment(s@, sep@) is None,
{
    match find_text(s, sep) {
        None => None,
        Some(k) => {
            let n = s.unicode_len();
            let m = sep.unicode_len();
            let rest = slice_text(s, k + m, n);
            proof {
                assert(rest@ =~= s@.skip(k + m));
            }
            Some(first_segment_text(rest.as_str(), sep))
        }
    }
}

/// A position that `find_from` reports is one where the pattern occurs.
pub proof fn reveal_find_first_bounds(s: Seq<char>, p: Seq<char>, i: nat)
    ensures
        find_from(s, p, i) >= 0 ==> occurs_at(s, p, find_from(s, p, i)) && find_from(s, p, i) >= i,
        find_from(s, p, i) >= -1,
    decreases s.len() - i,
{
    if p.len() == 0 {
        if i <= s.len() {
            assert(s.subrange(i as int, i as int) =~= p);
        }
    } else if i + p.len() > s.len() {
    } else if occurs_at(s, p, i as int) {
    } else {
        reveal_find_first_bounds(s, p, i + 1);
    }
}

/// Name for what `str::to_lowercase` returns: the Unicode lowercase mapping
/// of each character, the results joined, with the final-sigma rule.
pub uninterp spec fn lowercase_of(s: Seq<char>) -> Seq<char>;

/// Calls `str::to_lowercase`. Its contract claims only that the result is
/// determined by the text's characters, through `lowercase_of`.
#[verifier::external_body]
pub(crate) fn to_lowercase(s: &str) -> (r: String)
    ensures
        r@ == lowercase_of(s@),
{
    s.to_lowercase()
}

pub open spec fn is_ascii_digit(c: char) -> bool {
    48 <= (c as u32) <= 57
}

/// Value of a run of decimal digits.
pub open spec fn digits_value(s: Seq<char>) -> int
    decreases s.len(),
{
    if s.len() == 0 {
        0
    } else {
        digits_value(s.drop_last()) * 10 + ((s.last() as u32) - 48)
    }
}

pub open spec fn all_ascii_digits(s: Seq<char>) -> bool {
    forall|k: int| 0 <= k < s.len() ==> is_ascii_digit(#[trigger] s[k])
}

/// What `str::parse::<i32>` accepts: an optional `+` or `-`, then at least one
/// ASCII digit and nothing else, of a value that fits in an `i32`.
pub open spec fn parse_i32(s: Seq<char>) -> Option<i32> {
    let negative = s.len() > 0 && s[0] == '-';
    let signed = s.len() > 0 && (s[0] == '-' || s[0] == '+');
    let body = if signed {
        s.skip(1)
    } else {
        s
    };
    let v = if negative {
        -digits_value(body)
    } else {
        digits_value(body)
    };
    if body.len() == 0 || !all_ascii_digits(body) || v < i32::MIN || v > i32::MAX {
        None
    } else {
        Some(v as i32)
    }
}

pub proof fn lemma_digits_value_nonneg(s: Seq<char>)
    requires
        all_ascii_digits(s),
    ensures
        digits_value(s) >= 0,
    decreases s.len(),
{
    if s.len() > 0 {
        lemma_digits_value_nonneg(s.drop_last());
    }
}

/// Appending digits never makes the value smaller.
pub proof fn lemma_digits_value_grows(s: Seq<char>, k: int)
    requires
        all_ascii_digits(s),
        0 <= k <= s.len(),
    ensures
        digits_value(s.take(k)) <= digits_value(s),
    decreases s.len(),
{
    if k < s.len() {
        assert(s.drop_last().take(k) =~= s.take(k));
        lemma_digits_value_grows(s.drop_last(), k);
        lemma_digits_value_nonneg(s.drop_last());
        assert(s.take(s.len() as int) =~= s);
    } else {
        assert(s.take(k) =~= s);
    }
}

/// `str::parse::<i32>`.
pub fn parse_i32_text(s: &str) -> (r: Option<i32>)
    ensures
        r == parse_i32(s@),
{
    let n = s.unicode_len();
    if n == 0 {
        return None;
    }
    let c0 = s.get_char(0);
    let negative = c0 == '-';
    let start: usize = if c0 == '-' || c0 == '+' { 1 } else { 0 };
    let ghost body = if start == 1 { s@.skip(1) } else { s@ };
    assert(s@.skip(0) =~= s@);
    if start == n {
        return None;
    }
    let mut acc: i64 = 0;
    let mut k: usize = start;
    while k < n
        invariant
            n == s@.len(),
            start <= k <= n,
            start < n,
            start == (if s@[0] == '-' || s@[0] == '+' { 1usize } else { 0usize }),
            negative == (s@[0] == '-'),
            body == (if start == 1 { s@.skip(1) } else { s@ }),
            body == s@.skip(start as int),
            acc == digits_value(body.take(k - start)),
            0 <= acc <= 2147483648,
            all_ascii_digits(body.take(k - start)),
        decreases n - k,
    {
        let c = s.get_char(k);
        let u = c as u32;
        if u < 48 || u > 57 {
            assert(body[k - start] == c);
            assert(!is_ascii_digit(body[k - start]));
            assert(!all_ascii_digits(body));
            return None;
        }
        proof {
            assert(body.take(k + 1 - start).drop_last() =~= body.take(k - start));
            assert(body.take(k + 1 - start).last() == c);
        }
        acc = acc * 10 + (u as i64 - 48);
        k = k + 1;
        assert(acc == digits_value(body.take(k - start)));
        assert(all_ascii_digits(body.take(k - start))) by {
            assert forall|j: int| 0 <= j < k - start implies is_ascii_digit(#[trigger] body.take(k - start)[j]) by {
                if j < k - 1 - start {
                    assert(body.take(k - start)[j] == body.take(k - 1 - start)[j]);
                }
            }
        }
        if acc > 2147483648 {
            proof {
                assert(all_ascii_digits(body.take(k - start)));
                if all_ascii_digits(body) {
                    assert(body.take(k - start) =~= body.take(k - start));
                    lemma_digits_value_grows(body, k - start);
                }
            }
            return None;
        }
    }
    proof {
        assert(body.take(n - start) =~= body);
    }
    let v: i64 = if negative { -acc } else { acc };
    assert(acc == digits_value(body));
    assert(body.len() > 0);
    assert(all_ascii_digits(body));
    assert(negative == (s@.len() > 0 && s@[0] == '-'));
    if v < -2147483648 || v > 2147483647 {
        return None;
    }
    Some(v as i32)
}

/// `i32::abs` as an optimised build computes it: `i32::MIN` stays itself.
pub open spec fn abs_wrapping(v: i32) -> i32 {
    if v == i32::MIN {
        v
    } else if v < 0 {
        (-v) as i32
    } else {
        v
    }
}

pub fn abs_wrapping_i32(v: i32) -> (r: i32)
    ensures
        r == abs_wrapping(v),
{
    if v == i32::MIN {
        v
    } else if v < 0 {
        -v
    } else {
        v
    }
}

/// The decimal digits of `n`, without leading zeros.
pub open spec fn digits_of(n: nat) -> Seq<char>
    decreases n,
{
    if n < 10 {
        seq![((n + 48) as u32) as char]
    } else {
        digits_of(n / 10).push((((n % 10) + 48) as u32) as char)
    }
}

/// How `{}` prints an integer.
pub open spec fn decimal(n: int) -> Seq<char> {
    if n < 0 {
        seq!['-'] + digits_of((-n) as nat)
    } else {
        digits_of(n as nat)
    }
}

fn digit_text(d: u64) -> (r: String)
    requires
        d < 10,
    ensures
        r@ == seq![((d + 48) as u32) as char],
{
    let digits = "0123456789";
    proof {
        reveal_strlit("0123456789");
    }
    let r = slice_text(digits, d as usize, d as usize + 1);
    assert(r@ =~= seq![((d + 48) as u32) as char]);
    r
}

fn digits_text(m: u64) -> (r: String)
    ensures
        r@ == digits_of(m as nat),
    decreases m,
{
    if m < 10 {
        digit_text(m)
    } else {
        let mut r = digits_text(m / 10);
        let d = digit_text(m % 10);
        r.append(d.as_str());
        assert(r@ =~= digits_of(m as nat));
        r
    }
}

/// `n.to_string()` for an `i32`.
pub fn decimal_text(n: i32) -> (r: String)
    ensures
        r@ == decimal(n as int),
{
    if n < 0 {
        let m: u64 = (-(n as i64)) as u64;
        let digits = digits_text(m);
        let mut minus = String::new();
        minus.append("-");
        minus.append(digits.as_str());
        proof {
            reveal_strlit("-");
            assert(minus@ =~= decimal(n as int));
        }
        minus
    } else {
        digits_text(n as u64)
    }
}

} // verus!
