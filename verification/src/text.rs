use vstd::prelude::*;
use vstd::std_specs::iter::IteratorSpec;

verus! {

broadcast use vstd::string::group_string_axioms;

/// The characters of a string slice, in order.
pub fn chars_of(s: &str) -> (r: Vec<char>)
    ensures
        r@ == s@,
{
    broadcast use vstd::string::next_postcondition;

    let mut it = s.chars();
    let mut r: Vec<char> = Vec::new();
    loop
        invariant
            r@ + it.remaining() == s@,
        ensures
            r@ == s@,
        decreases s@.len() - r@.len(),
    {
        let ghost before = it.remaining();
        match it.next() {
            Some(c) => {
                proof {
                    assert(r@.push(c) + it.remaining() =~= r@ + before);
                }
                r.push(c);
            },
            None => {
                assert(r@ + before =~= r@);
                break ;
            },
        }
    }
    r
}

/// Appends a character to a string.
///
/// Calls `String::push`, which std documents as appending the character to the end of
/// the string.
#[verifier::external_body]
fn push_char(s: &mut String, c: char)
    ensures
        final(s)@ == old(s)@.push(c),
{
    s.push(c);
}

/// A string made of the given characters, in order.
pub fn string_of(cs: &Vec<char>) -> (r: String)
    ensures
        r@ == cs@,
{
    let mut r = String::new();
    let mut i: usize = 0;
    while i < cs.len()
        invariant
            i <= cs@.len(),
            r@ == cs@.take(i as int),
        decreases cs@.len() - i,
    {
        push_char(&mut r, cs[i]);
        assert(cs@.take(i + 1) =~= cs@.take(i as int).push(cs@[i as int]));
        i += 1;
    }
    assert(cs@.take(cs@.len() as int) =~= cs@);
    r
}

/// Whether `c` occurs in `s`.
pub fn has_char(s: &Vec<char>, c: char) -> (r: bool)
    ensures
        r == s@.contains(c),
{
    let mut i: usize = 0;
    while i < s.len()
        invariant
            i <= s@.len(),
            forall|j: int| 0 <= j < i ==> s@[j] != c,
        decreases s@.len() - i,
    {
        if s[i] == c {
            assert(s@[i as int] == c);
            return true;
        }
        i += 1;
    }
    false
}

/// Whether `t` occurs in `s` starting at index `i`.
pub open spec fn occurs_at(s: Seq<char>, t: Seq<char>, i: int) -> bool {
    0 <= i && i + t.len() <= s.len() && s.subrange(i, i + t.len()) == t
}

/// Whether `t` occurs anywhere in `s`.
pub open spec fn has_sub(s: Seq<char>, t: Seq<char>) -> bool {
    exists|i: int| occurs_at(s, t, i)
}

/// Whether `t` occurs in `s`.
pub fn contains_sub(s: &Vec<char>, t: &Vec<char>) -> (r: bool)
    ensures
        r == has_sub(s@, t@),
{
    if t.len() > s.len() {
        assert forall|i: int| !occurs_at(s@, t@, i) by {}
        return false;
    }
    let n = s.len();
    let limit = n - t.len();
    let mut i: usize = 0;
    while i <= limit
        invariant
            n == s@.len(),
            limit == s@.len() - t@.len(),
            i <= limit + 1,
            forall|j: int| 0 <= j < i ==> !occurs_at(s@, t@, j),
        decreases limit + 1 - i,
    {
        let mut k: usize = 0;
        let mut same = true;
        while k < t.len()
            invariant
                i <= limit,
                n == s@.len(),
                limit == s@.len() - t@.len(),
                k <= t@.len(),
                same == forall|m: int| 0 <= m < k ==> s@[i + m] == t@[m],
            decreases t@.len() - k,
        {
            if s[i + k] != t[k] {
                same = false;
            }
            k += 1;
        }
        if same {
            assert(s@.subrange(i as int, i + t@.len()) =~= t@);
            assert(occurs_at(s@, t@, i as int));
            return true;
        }
        assert(!occurs_at(s@, t@, i as int)) by {
            if s@.subrange(i as int, i + t@.len()) == t@ {
                assert forall|m: int| 0 <= m < t@.len() implies s@[i + m] == t@[m] by {
                    assert(s@.subrange(i as int, i + t@.len())[m] == s@[i + m]);
                }
            }
        }
        if i == limit {
            assert forall|j: int| !occurs_at(s@, t@, j) by {}
            return false;
        }
        i += 1;
    }
    false
}

/// The index of the first space in `s`, or its length when it has none.
pub open spec fn first_space(s: Seq<char>) -> int
    decreases s.len(),
{
    if s.len() == 0 {
        0
    } else if s[0] == ' ' {
        0
    } else {
        1 + first_space(s.drop_first())
    }
}

/// The text of `s` up to its first space: the first piece of `s` split at spaces.
pub open spec fn first_word(s: Seq<char>) -> Seq<char> {
    s.take(first_space(s))
}

/// The index just past the last space in `s`, or 0 when it has none.
pub open spec fn after_last_space(s: Seq<char>) -> int
    decreases s.len(),
{
    if s.len() == 0 {
        0
    } else if s.last() == ' ' {
        s.len() as int
    } else {
        after_last_space(s.drop_last())
    }
}

/// The text of `s` after its last space: the last piece of `s` split at spaces.
pub open spec fn last_word(s: Seq<char>) -> Seq<char> {
    s.skip(after_last_space(s))
}

proof fn lemma_first_space(s: Seq<char>, i: int)
    requires
        0 <= i <= s.len(),
        forall|j: int| 0 <= j < i ==> s[j] != ' ',
        i == s.len() || s[i] == ' ',
    ensures
        first_space(s) == i,
    decreases i,
{
    if i > 0 {
        lemma_first_space(s.drop_first(), i - 1);
    }
}

proof fn lemma_after_last_space(s: Seq<char>, i: int)
    requires
        0 <= i <= s.len(),
        forall|j: int| i <= j < s.len() ==> s[j] != ' ',
        i == 0 || s[i - 1] == ' ',
    ensures
        after_last_space(s) == i,
    decreases s.len(),
{
    if s.len() > 0 && i < s.len() {
        lemma_after_last_space(s.drop_last(), i);
    }
}

/// The first piece of `s` split at spaces.
pub fn first_word_of(s: &Vec<char>) -> (r: Vec<char>)
    ensures
        r@ == first_word(s@),
{
    let mut r: Vec<char> = Vec::new();
    let mut i: usize = 0;
    while i < s.len() && s[i] != ' '
        invariant
            i <= s@.len(),
            forall|j: int| 0 <= j < i ==> s@[j] != ' ',
            r@ == s@.take(i as int),
        decreases s@.len() - i,
    {
        r.push(s[i]);
        assert(s@.take(i + 1) =~= s@.take(i as int).push(s@[i as int]));
        i += 1;
    }
    proof {
        lemma_first_space(s@, i as int);
    }
    r
}

/// The last piece of `s` split at spaces.
pub fn last_word_of(s: &Vec<char>) -> (r: Vec<char>)
    ensures
        r@ == last_word(s@),
{
    let mut i: usize = s.len();
    while i > 0 && s[i - 1] != ' '
        invariant
            i <= s@.len(),
            forall|j: int| i <= j < s@.len() ==> s@[j] != ' ',
        decreases i,
    {
        i -= 1;
    }
    proof {
        lemma_after_last_space(s@, i as int);
    }
    let mut r: Vec<char> = Vec::new();
    let mut k: usize = i;
    while k < s.len()
        invariant
            i <= k <= s@.len(),
            r@ == s@.subrange(i as int, k as int),
        decreases s@.len() - k,
    {
        r.push(s[k]);
        assert(s@.subrange(i as int, k + 1) =~= s@.subrange(i as int, k as int).push(s@[k as int]));
        k += 1;
    }
    assert(s@.subrange(i as int, s@.len() as int) =~= s@.skip(i as int));
    r
}

/// `s` without any of the characters in `cs`.
pub open spec fn without_chars(s: Seq<char>, cs: Seq<char>) -> Seq<char>
    decreases s.len(),
{
    if s.len() == 0 {
        s
    } else {
        let rest = without_chars(s.drop_last(), cs);
        if cs.contains(s.last()) {
            rest
        } else {
            rest.push(s.last())
        }
    }
}

/// `s` without any of the characters in `cs`.
pub fn remove_chars(s: &Vec<char>, cs: &Vec<char>) -> (r: Vec<char>)
    ensures
        r@ == without_chars(s@, cs@),
{
    let mut r: Vec<char> = Vec::new();
    let mut i: usize = 0;
    while i < s.len()
        invariant
            i <= s@.len(),
            r@ == without_chars(s@.take(i as int), cs@),
        decreases s@.len() - i,
    {
        assert(s@.take(i + 1).drop_last() =~= s@.take(i as int));
        if !has_char(cs, s[i]) {
            r.push(s[i]);
        }
        i += 1;
    }
    assert(s@.take(s@.len() as int) =~= s@);
    r
}

/// Unicode's `White_Space` characters, which `char::is_whitespace` tells apart.
pub open spec fn is_ws(c: char) -> bool {
    ||| '\u{9}' <= c <= '\u{d}'
    ||| c == ' '
    ||| c == '\u{85}'
    ||| c == '\u{a0}'
    ||| c == '\u{1680}'
    ||| '\u{2000}' <= c <= '\u{200a}'
    ||| c == '\u{2028}'
    ||| c == '\u{2029}'
    ||| c == '\u{202f}'
    ||| c == '\u{205f}'
    ||| c == '\u{3000}'
}

pub fn is_white_space(c: char) -> (r: bool)
    ensures
        r == is_ws(c),
{
    ('\u{9}' <= c && c <= '\u{d}') || c == ' ' || c == '\u{85}' || c == '\u{a0}' || c == '\u{1680}'
        || ('\u{2000}' <= c && c <= '\u{200a}') || c == '\u{2028}' || c == '\u{2029}' || c == '\u{202f}'
        || c == '\u{205f}' || c == '\u{3000}'
}

/// The number of white-space characters `s` starts with.
pub open spec fn leading_ws(s: Seq<char>) -> int
    decreases s.len(),
{
    if s.len() == 0 {
        0
    } else if is_ws(s[0]) {
        1 + leading_ws(s.drop_first())
    } else {
        0
    }
}

/// The number of white-space characters `s` ends with.
pub open spec fn trailing_ws(s: Seq<char>) -> int
    decreases s.len(),
{
    if s.len() == 0 {
        0
    } else if is_ws(s.last()) {
        1 + trailing_ws(s.drop_last())
    } else {
        0
    }
}

/// `s` without white space at either end, as `str::trim` leaves it.
pub open spec fn trimmed(s: Seq<char>) -> Seq<char> {
    let rest = s.skip(leading_ws(s));
    rest.take(rest.len() - trailing_ws(rest))
}

proof fn lemma_leading_ws(s: Seq<char>, i: int)
    requires
        0 <= i <= s.len(),
        forall|j: int| 0 <= j < i ==> is_ws(#[trigger] s[j]),
        i == s.len() || !is_ws(s[i]),
    ensures
        leading_ws(s) == i,
    decreases i,
{
    if i > 0 {
        assert forall|j: int| 0 <= j < i - 1 implies is_ws(#[trigger] s.drop_first()[j]) by {
            assert(s.drop_first()[j] == s[j + 1]);
        }
        lemma_leading_ws(s.drop_first(), i - 1);
    }
}

proof fn lemma_trailing_ws(s: Seq<char>, i: int)
    requires
        0 <= i <= s.len(),
        forall|j: int| i <= j < s.len() ==> is_ws(#[trigger] s[j]),
        i == 0 || !is_ws(s[i - 1]),
    ensures
        trailing_ws(s) == s.len() - i,
    decreases s.len(),
{
    if s.len() > i {
        assert forall|j: int| i <= j < s.len() - 1 implies is_ws(#[trigger] s.drop_last()[j]) by {
            assert(s.drop_last()[j] == s[j]);
        }
        lemma_trailing_ws(s.drop_last(), i);
    }
}

/// `s` without white space at either end.
pub fn trim_chars(s: &Vec<char>) -> (r: Vec<char>)
    ensures
        r@ == trimmed(s@),
{
    let mut a: usize = 0;
    while a < s.len() && is_white_space(s[a])
        invariant
            a <= s@.len(),
            forall|j: int| 0 <= j < a ==> is_ws(#[trigger] s@[j]),
        decreases s@.len() - a,
    {
        a += 1;
    }
    proof {
        lemma_leading_ws(s@, a as int);
    }
    let ghost rest = s@.skip(a as int);
    let mut b: usize = s.len();
    while b > a && is_white_space(s[b - 1])
        invariant
            a <= b <= s@.len(),
            forall|j: int| b <= j < s@.len() ==> is_ws(#[trigger] s@[j]),
        decreases b,
    {
        b -= 1;
    }
    proof {
        assert forall|j: int| b - a <= j < rest.len() implies is_ws(#[trigger] rest[j]) by {
            assert(rest[j] == s@[a + j]);
        }
        if b > a {
            assert(rest[b - a - 1] == s@[b - 1]);
        }
        lemma_trailing_ws(rest, b - a);
    }
    let mut r: Vec<char> = Vec::new();
    let mut k: usize = a;
    while k < b
        invariant
            a <= k <= b,
            b <= s@.len(),
            r@ == s@.subrange(a as int, k as int),
        decreases b - k,
    {
        r.push(s[k]);
        assert(s@.subrange(a as int, k + 1) =~= s@.subrange(a as int, k as int).push(s@[k as int]));
        k += 1;
    }
    assert(r@ =~= rest.take(rest.len() - trailing_ws(rest)));
    r
}

/// `s` with every occurrence of the two characters `x`, `y`, from left to right, replaced by
/// `c`, as `str::replace` does.
pub open spec fn replace_pair(s: Seq<char>, x: char, y: char, c: char) -> Seq<char>
    decreases s.len(),
{
    if s.len() == 0 {
        s
    } else if s.len() >= 2 && s[0] == x && s[1] == y {
        seq![c] + replace_pair(s.skip(2), x, y, c)
    } else {
        seq![s[0]] + replace_pair(s.drop_first(), x, y, c)
    }
}

pub fn replace_pair_of(s: &Vec<char>, x: char, y: char, c: char) -> (r: Vec<char>)
    ensures
        r@ == replace_pair(s@, x, y, c),
{
    let mut r: Vec<char> = Vec::new();
    let mut i: usize = 0;
    assert(s@.skip(0) =~= s@);
    assert(r@ + replace_pair(s@.skip(0), x, y, c) =~= replace_pair(s@, x, y, c));
    while i < s.len()
        invariant
            i <= s@.len(),
            r@ + replace_pair(s@.skip(i as int), x, y, c) == replace_pair(s@, x, y, c),
        decreases s@.len() - i,
    {
        let ghost tail = s@.skip(i as int);
        if i + 1 < s.len() && s[i] == x && s[i + 1] == y {
            assert(tail.skip(2) =~= s@.skip(i + 2));
            r.push(c);
            i += 2;
        } else {
            assert(tail.drop_first() =~= s@.skip(i + 1));
            r.push(s[i]);
            i += 1;
        }
    }
    assert(s@.skip(i as int) =~= seq![]);
    assert(r@ + seq![] =~= r@);
    r
}

/// The pieces of `s` between the occurrences of `c`, as `str::split` gives them.
pub open spec fn split_on(s: Seq<char>, c: char) -> Seq<Seq<char>>
    decreases s.len(),
{
    if s.len() == 0 {
        seq![seq![]]
    } else {
        let rest = split_on(s.drop_last(), c);
        if s.last() == c {
            rest.push(seq![])
        } else {
            rest.update(rest.len() - 1, rest.last().push(s.last()))
        }
    }
}

proof fn lemma_split_on_nonempty(s: Seq<char>, c: char)
    ensures
        split_on(s, c).len() >= 1,
    decreases s.len(),
{
    if s.len() > 0 {
        lemma_split_on_nonempty(s.drop_last(), c);
    }
}

/// The pieces of `s` between the occurrences of `c`.
pub fn split_on_char(s: &Vec<char>, c: char) -> (r: Vec<Vec<char>>)
    ensures
        r@.map_values(|p: Vec<char>| p@) == split_on(s@, c),
{
    let mut r: Vec<Vec<char>> = Vec::new();
    let mut cur: Vec<char> = Vec::new();
    let mut i: usize = 0;
    assert(s@.take(0) =~= Seq::<char>::empty());
    assert(r@.map_values(|p: Vec<char>| p@).push(cur@) =~= split_on(s@.take(0), c));
    while i < s.len()
        invariant
            i <= s@.len(),
            r@.map_values(|p: Vec<char>| p@).push(cur@) == split_on(s@.take(i as int), c),
        decreases s@.len() - i,
    {
        let ghost prev = split_on(s@.take(i as int), c);
        proof {
            assert(s@.take(i + 1).drop_last() =~= s@.take(i as int));
            lemma_split_on_nonempty(s@.take(i as int), c);
        }
        if s[i] == c {
            let done = cur;
            cur = Vec::new();
            let ghost before = r@;
            r.push(done);
            assert(r@.map_values(|p: Vec<char>| p@) =~= before.map_values(|p: Vec<char>| p@).push(done@));
            assert(r@.map_values(|p: Vec<char>| p@).push(cur@) =~= prev.push(seq![]));
        } else {
            cur.push(s[i]);
            assert(r@.map_values(|p: Vec<char>| p@).push(cur@) =~= prev.update(
                prev.len() - 1,
                prev.last().push(s@[i as int]),
            ));
        }
        i += 1;
    }
    assert(s@.take(s@.len() as int) =~= s@);
    let ghost before = r@;
    r.push(cur);
    assert(r@.map_values(|p: Vec<char>| p@) =~= before.map_values(|p: Vec<char>| p@).push(cur@));
    r
}

/// The first index from `start` on at which `t` occurs in `s`, or the length of `s`.
pub open spec fn find_from(s: Seq<char>, t: Seq<char>, start: int) -> int
    decreases s.len() - start,
{
    if start >= s.len() {
        s.len() as int
    } else if occurs_at(s, t, start) {
        start
    } else {
        find_from(s, t, start + 1)
    }
}

proof fn lemma_find_from(s: Seq<char>, t: Seq<char>, start: int, k: int)
    requires
        0 <= start <= k <= s.len(),
        forall|j: int| start <= j < k ==> !occurs_at(s, t, j),
        k == s.len() || occurs_at(s, t, k),
    ensures
        find_from(s, t, start) == k,
    decreases k - start,
{
    if start < k {
        lemma_find_from(s, t, start + 1, k);
    }
}

/// The first index from `start` on at which the two characters `x`, `y` occur in `s`, or
/// the length of `s`.
pub fn find_pair_from(s: &Vec<char>, x: char, y: char, start: usize) -> (r: usize)
    requires
        start <= s@.len(),
    ensures
        r == find_from(s@, seq![x, y], start as int),
        start <= r <= s@.len(),
{
    let ghost t = seq![x, y];
    let mut i: usize = start;
    while i < s.len()
        invariant
            start <= i <= s@.len(),
            t == seq![x, y],
            forall|j: int| start <= j < i ==> !occurs_at(s@, t, j),
        decreases s@.len() - i,
    {
        if i + 1 < s.len() && s[i] == x && s[i + 1] == y {
            assert(s@.subrange(i as int, i + 2) =~= t);
            proof {
                lemma_find_from(s@, t, start as int, i as int);
            }
            return i;
        }
        assert(!occurs_at(s@, t, i as int)) by {
            if occurs_at(s@, t, i as int) {
                assert(s@.subrange(i as int, i + 2)[0] == s@[i as int]);
                assert(s@.subrange(i as int, i + 2)[1] == s@[i + 1]);
            }
        }
        i += 1;
    }
    proof {
        lemma_find_from(s@, t, start as int, s@.len() as int);
    }
    s.len()
}

/// Whether the two views are the same text.
pub fn same_chars(a: &Vec<char>, b: &Vec<char>) -> (r: bool)
    ensures
        r == (a@ == b@),
{
    if a.len() != b.len() {
        return false;
    }
    let mut i: usize = 0;
    while i < a.len()
        invariant
            a@.len() == b@.len(),
            i <= a@.len(),
            forall|j: int| 0 <= j < i ==> a@[j] == b@[j],
        decreases a@.len() - i,
    {
        if a[i] != b[i] {
            return false;
        }
        i += 1;
    }
    assert(a@ =~= b@);
    true
}

} // verus!
