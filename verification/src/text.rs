//! Text helpers: substring search and the shrinking of XML text.

use vstd::prelude::*;
use crate::factory::BTFactory;

verus! {

/// Calls `str::chars` and collects the characters of `s`, in order.
#[verifier::external_body]
pub(crate) fn str_chars(s: &str) -> (r: Vec<char>)
    ensures
        r@ == s@,
{
    s.chars().collect()
}

/// Calls `String::from_iter` on the characters of `v`, in order.
#[verifier::external_body]
pub(crate) fn string_from_chars(v: &Vec<char>) -> (r: String)
    ensures
        r@ == v@,
{
    String::from_iter(v.iter())
}

/// Append the characters of `s` to `buf`.
pub fn push_text(buf: &mut Vec<char>, s: &str)
    ensures
        final(buf)@ == old(buf)@ + s@,
{
    let mut cs = str_chars(s);
    buf.append(&mut cs);
}

/// The text of `a`, `b` and `c` one after the other.
pub fn concat3(a: &str, b: &str, c: &str) -> (r: String)
    ensures
        r@ == a@ + b@ + c@,
{
    let mut buf: Vec<char> = Vec::new();
    push_text(&mut buf, a);
    push_text(&mut buf, b);
    push_text(&mut buf, c);
    assert(buf@ =~= a@ + b@ + c@);
    string_from_chars(&buf)
}

/// The decimal digit of `d`.
pub open spec fn digit(d: nat) -> char {
    if d == 0 { '0' } else if d == 1 { '1' } else if d == 2 { '2' } else if d == 3 { '3' } else if d == 4 {
        '4'
    } else if d == 5 { '5' } else if d == 6 { '6' } else if d == 7 { '7' } else if d == 8 { '8' } else { '9' }
}

/// The decimal notation of `n`, without leading zeros.
pub open spec fn decimal(n: nat) -> Seq<char>
    decreases n,
{
    if n < 10 {
        seq![digit(n)]
    } else {
        decimal(n / 10).push(digit(n % 10))
    }
}

fn digit_char(d: u32) -> (c: char)
    requires
        d < 10,
    ensures
        c == digit(d as nat),
{
    if d == 0 { '0' } else if d == 1 { '1' } else if d == 2 { '2' } else if d == 3 { '3' } else if d == 4 {
        '4'
    } else if d == 5 { '5' } else if d == 6 { '6' } else if d == 7 { '7' } else if d == 8 { '8' } else { '9' }
}

/// Append the decimal notation of `n` to `buf`.
pub fn push_decimal(buf: &mut Vec<char>, n: u32)
    ensures
        final(buf)@ == old(buf)@ + decimal(n as nat),
    decreases n,
{
    if n >= 10 {
        push_decimal(buf, n / 10);
    }
    buf.push(digit_char(n % 10));
    assert(buf@ =~= old(buf)@ + decimal(n as nat));
}

/// The characters of `v` from `from` up to `to`.
pub fn chars_range(v: &Vec<char>, from: usize, to: usize) -> (r: Vec<char>)
    requires
        from <= to <= v@.len(),
    ensures
        r@ == v@.subrange(from as int, to as int),
{
    let mut r: Vec<char> = Vec::new();
    let mut i = from;
    while i < to
        invariant
            from <= i <= to <= v@.len(),
            r@ == v@.subrange(from as int, i as int),
        decreases to - i,
    {
        r.push(v[i]);
        i = i + 1;
        assert(r@ =~= v@.subrange(from as int, i as int));
    }
    r
}

/// Whether `a` and `b` hold the same characters.
pub fn same_chars(a: &Vec<char>, b: &Vec<char>) -> (r: bool)
    ensures
        r == (a@ == b@),
{
    if a.len() != b.len() {
        return false;
    }
    let mut i: usize = 0;
    while i < a.len()
        invariant
            i <= a@.len(),
            a@.len() == b@.len(),
            forall|j: int| 0 <= j < i ==> a@[j] == b@[j],
        decreases a@.len() - i,
    {
        if a[i] != b[i] {
            return false;
        }
        i = i + 1;
    }
    assert(a@ =~= b@);
    true
}

/// `needle` occurs in `hay` at position `i`.
pub open spec fn occurs_at(hay: Seq<char>, needle: Seq<char>, i: int) -> bool {
    0 <= i && i + needle.len() <= hay.len() && hay.subrange(i, i + needle.len()) == needle
}

/// `needle` occurs somewhere in `hay`.
pub open spec fn is_substring(needle: Seq<char>, hay: Seq<char>) -> bool {
    exists|i: int| occurs_at(hay, needle, i)
}

/// The first position from `i` on at which `needle` occurs in `hay`, if any.
pub open spec fn first_from(hay: Seq<char>, needle: Seq<char>, i: int) -> Option<int>
    decreases hay.len() + 1 - i,
{
    if i < 0 || i + needle.len() > hay.len() {
        None
    } else if occurs_at(hay, needle, i) {
        Some(i)
    } else {
        first_from(hay, needle, i + 1)
    }
}

/// The first position at which `needle` occurs in `hay`, if any.
pub open spec fn first_occurrence(hay: Seq<char>, needle: Seq<char>) -> Option<int> {
    first_from(hay, needle, 0)
}

proof fn lemma_first_from(hay: Seq<char>, needle: Seq<char>, i: int)
    requires
        0 <= i,
    ensures
        match first_from(hay, needle, i) {
            Some(k) => i <= k && occurs_at(hay, needle, k) && forall|j: int| i <= j < k ==> !occurs_at(hay, needle, j),
            None => forall|j: int| i <= j ==> !occurs_at(hay, needle, j),
        },
    decreases hay.len() + 1 - i,
{
    if i + needle.len() <= hay.len() && !occurs_at(hay, needle, i) {
        lemma_first_from(hay, needle, i + 1);
    }
}

/// The first occurrence is one, with none before it; there is none exactly when
/// the needle does not occur.
pub proof fn lemma_first_occurrence(hay: Seq<char>, needle: Seq<char>)
    ensures
        match first_occurrence(hay, needle) {
            Some(k) => occurs_at(hay, needle, k) && forall|j: int| 0 <= j < k ==> !occurs_at(hay, needle, j),
            None => !is_substring(needle, hay),
        },
{
    lemma_first_from(hay, needle, 0);
}

fn occurs_at_exec(hay: &Vec<char>, needle: &Vec<char>, i: usize) -> (r: bool)
    requires
        i + needle@.len() <= hay@.len(),
    ensures
        r == occurs_at(hay@, needle@, i as int),
{
    let hl = hay.len();
    let mut k: usize = 0;
    while k < needle.len()
        invariant
            hl == hay@.len(),
            k <= needle@.len(),
            i + needle@.len() <= hay@.len(),
            forall|m: int| 0 <= m < k ==> hay@[i + m] == needle@[m],
        decreases needle@.len() - k,
    {
        assert(i + k < hay@.len());
        if hay[i + k] != needle[k] {
            assert(hay@.subrange(i as int, i + needle@.len())[k as int] != needle@[k as int]);
            return false;
        }
        k = k + 1;
    }
    assert(hay@.subrange(i as int, i + needle@.len()) =~= needle@);
    true
}

/// The first position at which `needle` occurs in `hay`, in characters.
pub fn find_chars(hay: &Vec<char>, needle: &Vec<char>) -> (r: Option<usize>)
    ensures
        match r {
            Some(i) => first_occurrence(hay@, needle@) == Some(i as int),
            None => first_occurrence(hay@, needle@) is None,
        },
{
    if needle.len() > hay.len() {
        return None;
    }
    let last = hay.len() - needle.len();
    let mut i: usize = 0;
    loop
        invariant
            last + needle@.len() == hay@.len(),
            i <= last,
            first_from(hay@, needle@, i as int) == first_occurrence(hay@, needle@),
        decreases last - i,
    {
        if occurs_at_exec(hay, needle, i) {
            return Some(i);
        }
        if i == last {
            assert(first_from(hay@, needle@, i + 1) is None);
            return None;
        }
        i = i + 1;
    }
}

/// Whether `needle` occurs in `hay`.
pub fn contains_str(hay: &str, needle: &str) -> (r: bool)
    ensures
        r == is_substring(needle@, hay@),
{
    let h = str_chars(hay);
    let n = str_chars(needle);
    proof {
        lemma_first_occurrence(h@, n@);
    }
    find_chars(&h, &n).is_some()
}

/// What the shrinking of XML text keeps track of.
#[derive(Clone, Copy, Debug, PartialEq, Eq, Structural)]
pub struct ShrinkState {
    /// the last character kept was a space or tab inside a tag
    pub in_whitespaces: bool,
    /// inside `<` ... `>`
    pub in_tag: bool,
    /// inside a quoted literal
    pub in_literal: bool,
    /// right after `=`
    pub in_assignment: bool,
}

/// The state at the start of the text.
pub open spec fn shrink_start() -> ShrinkState {
    ShrinkState { in_whitespaces: false, in_tag: false, in_literal: false, in_assignment: false }
}

/// One character of the text: the new state and what is kept so far.
pub open spec fn shrink_char(st: ShrinkState, res: Seq<char>, c: char) -> (ShrinkState, Seq<char>) {
    if c == '\n' {
        (st, res)
    } else if c == '<' {
        (ShrinkState { in_tag: true, in_whitespaces: false, in_assignment: false, ..st }, res.push(c))
    } else if c == '>' {
        (ShrinkState { in_tag: false, in_whitespaces: false, in_assignment: false, ..st }, res.push(c))
    } else if c == '"' {
        (
            ShrinkState {
                in_literal: !st.in_literal,
                in_whitespaces: false,
                in_assignment: false,
                ..st
            },
            res.push(c),
        )
    } else if c == ' ' || c == '\t' {
        if !st.in_tag {
            (st, res)
        } else if !st.in_literal {
            if st.in_whitespaces || st.in_assignment {
                (st, res)
            } else {
                (ShrinkState { in_whitespaces: true, ..st }, res.push(c))
            }
        } else {
            (st, res.push(c))
        }
    } else if c == '=' {
        let kept = if st.in_whitespaces && res.len() > 0 { res.drop_last() } else { res };
        (ShrinkState { in_whitespaces: false, in_assignment: true, ..st }, kept.push(c))
    } else {
        (ShrinkState { in_whitespaces: false, in_assignment: false, ..st }, res.push(c))
    }
}

/// The shrinking of the characters `input`, from state `st` with `res` kept so far.
pub open spec fn shrink_from(st: ShrinkState, res: Seq<char>, input: Seq<char>) -> Seq<char>
    decreases input.len(),
{
    if input.len() == 0 {
        res
    } else {
        let (st2, res2) = shrink_char(st, res, input[0]);
        shrink_from(st2, res2, input.drop_first())
    }
}

/// XML text reduced to its information: line breaks go, and so do spaces and
/// tabs outside tags, repeated ones inside tags (outside literals), and those
/// around `=`.
pub open spec fn shrink(input: Seq<char>) -> Seq<char> {
    shrink_from(shrink_start(), Seq::empty(), input)
}

impl BTFactory {
    /// Reduce XML text by eliminating everything that is only formatting.
    pub fn shrink_xml(input: &str) -> (r: String)
        ensures
            r@ == shrink(input@),
    {
        let chars = str_chars(input);
        let mut res: Vec<char> = Vec::new();
        let mut st = ShrinkState {
            in_whitespaces: false,
            in_tag: false,
            in_literal: false,
            in_assignment: false,
        };
        let mut i: usize = 0;
        assert(chars@.skip(0) =~= chars@);
        while i < chars.len()
            invariant
                i <= chars@.len(),
                chars@ == input@,
                shrink_from(st, res@, chars@.skip(i as int)) == shrink(input@),
            decreases chars@.len() - i,
        {
            let c = chars[i];
            assert(chars@.skip(i as int)[0] == c);
            assert(chars@.skip(i as int).drop_first() =~= chars@.skip(i + 1));
            if c == '\n' {
            } else if c == '<' {
                st.in_tag = true;
                st.in_whitespaces = false;
                st.in_assignment = false;
                res.push(c);
            } else if c == '>' {
                st.in_tag = false;
                st.in_whitespaces = false;
                st.in_assignment = false;
                res.push(c);
            } else if c == '"' {
                st.in_literal = !st.in_literal;
                st.in_whitespaces = false;
                st.in_assignment = false;
                res.push(c);
            } else if c == ' ' || c == '\t' {
                if !st.in_tag {
                } else if !st.in_literal {
                    if st.in_whitespaces || st.in_assignment {
                    } else {
                        st.in_whitespaces = true;
                        res.push(c);
                    }
                } else {
                    res.push(c);
                }
            } else if c == '=' {
                if st.in_whitespaces {
                    res.pop();
                }
                st.in_whitespaces = false;
                st.in_assignment = true;
                res.push(c);
            } else {
                st.in_whitespaces = false;
                st.in_assignment = false;
                res.push(c);
            }
            i = i + 1;
        }
        assert(chars@.skip(i as int).len() == 0);
        string_from_chars(&res)
    }
}

proof fn lemma_shrink_no_newline(st: ShrinkState, res: Seq<char>, input: Seq<char>)
    requires
        forall|i: int| 0 <= i < res.len() ==> res[i] != '\n',
    ensures
        forall|i: int| 0 <= i < shrink_from(st, res, input).len() ==> shrink_from(st, res, input)[i] != '\n',
        shrink_from(st, res, input).len() <= res.len() + input.len(),
    decreases input.len(),
{
    if input.len() > 0 {
        let (st2, res2) = shrink_char(st, res, input[0]);
        assert forall|i: int| 0 <= i < res2.len() implies res2[i] != '\n' by {
            if input[0] == '=' && st.in_whitespaces && res.len() > 0 {
                assert(res2 =~= res.drop_last().push('='));
            }
        }
        lemma_shrink_no_newline(st2, res2, input.drop_first());
    }
}

/// `a` is a subsequence of `b`: `a` is `b` with some characters taken out.
/// Matching from the end, each character of `a` is the last one of `b` that can
/// still stand for it.
pub open spec fn is_subsequence(a: Seq<char>, b: Seq<char>) -> bool
    decreases b.len(),
{
    if a.len() == 0 {
        true
    } else if b.len() == 0 {
        false
    } else if a.last() == b.last() {
        is_subsequence(a.drop_last(), b.drop_last())
    } else {
        is_subsequence(a, b.drop_last())
    }
}

proof fn lemma_subsequence_drop_last(a: Seq<char>, b: Seq<char>)
    requires
        is_subsequence(a, b),
        a.len() > 0,
    ensures
        is_subsequence(a.drop_last(), b),
    decreases b.len(), 0int,
{
    if a.last() == b.last() {
        if a.drop_last().len() > 0 {
            lemma_subsequence_drop_last(a.drop_last(), b.drop_last());
            lemma_subsequence_extend(a.drop_last(), b.drop_last(), b.last());
            assert(b.drop_last().push(b.last()) =~= b);
        }
    } else {
        lemma_subsequence_drop_last(a, b.drop_last());
        if a.drop_last().len() > 0 {
            lemma_subsequence_extend(a.drop_last(), b.drop_last(), b.last());
            assert(b.drop_last().push(b.last()) =~= b);
        }
    }
}

proof fn lemma_subsequence_extend(a: Seq<char>, b: Seq<char>, c: char)
    requires
        is_subsequence(a, b),
    ensures
        is_subsequence(a, b.push(c)),
    decreases b.len(), 1int,
{
    assert(b.push(c).drop_last() =~= b);
    if a.len() > 0 && a.last() == c {
        lemma_subsequence_drop_last(a, b);
    }
}

proof fn lemma_shrink_subsequence(st: ShrinkState, res: Seq<char>, done: Seq<char>, input: Seq<char>)
    requires
        is_subsequence(res, done),
    ensures
        is_subsequence(shrink_from(st, res, input), done + input),
    decreases input.len(),
{
    if input.len() == 0 {
        assert(done + input =~= done);
    } else {
        let c = input[0];
        let (st2, res2) = shrink_char(st, res, c);
        let done2 = done.push(c);
        assert(done2.drop_last() =~= done);
        if res2 == res {
            lemma_subsequence_extend(res, done, c);
        } else if res2 == res.push(c) {
            assert(res.push(c).drop_last() =~= res);
        } else {
            assert(c == '=' && st.in_whitespaces && res.len() > 0);
            assert(res2 == res.drop_last().push(c));
            lemma_subsequence_drop_last(res, done);
            assert(res.drop_last().push(c).drop_last() =~= res.drop_last());
        }
        assert(is_subsequence(res2, done2));
        lemma_shrink_subsequence(st2, res2, done2, input.drop_first());
        assert(done2 + input.drop_first() =~= done + input);
    }
}

/// The shrinking of the characters `input`, from state `st` with `res` kept so
/// far: the state reached and what is kept.
pub open spec fn shrink_run(st: ShrinkState, res: Seq<char>, input: Seq<char>) -> (ShrinkState, Seq<char>)
    decreases input.len(),
{
    if input.len() == 0 {
        (st, res)
    } else {
        let (st2, res2) = shrink_char(st, res, input[0]);
        shrink_run(st2, res2, input.drop_first())
    }
}

proof fn lemma_shrink_run_kept(st: ShrinkState, res: Seq<char>, input: Seq<char>)
    ensures
        shrink_run(st, res, input).1 == shrink_from(st, res, input),
    decreases input.len(),
{
    if input.len() > 0 {
        let (st2, res2) = shrink_char(st, res, input[0]);
        lemma_shrink_run_kept(st2, res2, input.drop_first());
    }
}

proof fn lemma_shrink_run_push(st: ShrinkState, res: Seq<char>, input: Seq<char>, c: char)
    ensures
        shrink_run(st, res, input.push(c)) == shrink_char(
            shrink_run(st, res, input).0,
            shrink_run(st, res, input).1,
            c,
        ),
    decreases input.len(),
{
    let (st2, res2) = shrink_char(st, res, input.push(c)[0]);
    assert(shrink_run(st, res, input.push(c)) == shrink_run(st2, res2, input.push(c).drop_first()));
    if input.len() == 0 {
        assert(input.push(c).drop_first() =~= Seq::<char>::empty());
        assert(input.push(c)[0] == c);
        assert(shrink_run(st, res, input) == (st, res));
        assert(shrink_run(st2, res2, Seq::<char>::empty()) == (st2, res2));
    } else {
        assert(input.push(c)[0] == input[0]);
        assert(input.push(c).drop_first() =~= input.drop_first().push(c));
        assert(shrink_run(st, res, input) == shrink_run(st2, res2, input.drop_first()));
        lemma_shrink_run_push(st2, res2, input.drop_first(), c);
    }
}

/// What shrinking its own result again gives back: the same characters and the
/// same state; after a space kept in a tag, shrinking the characters before it
/// ends in the same state but for that space.
spec fn shrink_fixed(st: ShrinkState, res: Seq<char>) -> bool {
    &&& shrink_run(shrink_start(), Seq::empty(), res) == (st, res)
    &&& st.in_whitespaces ==> {
        &&& !st.in_literal
        &&& res.len() > 0
        &&& shrink_run(shrink_start(), Seq::empty(), res.drop_last()) == (
            ShrinkState { in_whitespaces: false, ..st },
            res.drop_last(),
        )
    }
}

proof fn lemma_shrink_fixed_step(st: ShrinkState, res: Seq<char>, c: char)
    requires
        shrink_fixed(st, res),
    ensures
        shrink_fixed(shrink_char(st, res, c).0, shrink_char(st, res, c).1),
{
    let (st2, res2) = shrink_char(st, res, c);
    let e = Seq::<char>::empty();
    lemma_shrink_run_push(shrink_start(), e, res, c);
    assert(res.push(c).drop_last() =~= res);
    if c == '=' && st.in_whitespaces && res.len() > 0 {
        lemma_shrink_run_push(shrink_start(), e, res.drop_last(), c);
        assert(res2 == res.drop_last().push(c));
    }
}

proof fn lemma_shrink_fixed(st: ShrinkState, res: Seq<char>, input: Seq<char>)
    requires
        shrink_fixed(st, res),
    ensures
        shrink_fixed(shrink_run(st, res, input).0, shrink_run(st, res, input).1),
    decreases input.len(),
{
    if input.len() > 0 {
        lemma_shrink_fixed_step(st, res, input[0]);
        let (st2, res2) = shrink_char(st, res, input[0]);
        lemma_shrink_fixed(st2, res2, input.drop_first());
    }
}

/// Shrinking is idempotent: shrunk XML text shrinks to itself.
pub proof fn law_shrink_idempotent(input: Seq<char>)
    ensures
        shrink(shrink(input)) == shrink(input),
{
    let e = Seq::<char>::empty();
    assert(shrink_run(shrink_start(), e, e) == (shrink_start(), e));
    lemma_shrink_fixed(shrink_start(), e, input);
    lemma_shrink_run_kept(shrink_start(), e, input);
    lemma_shrink_run_kept(shrink_start(), e, shrink(input));
}

/// Shrunk XML text holds no line break, is never longer than the original and
/// only leaves characters of the original out.
pub proof fn law_shrink_xml(input: Seq<char>)
    ensures
        forall|i: int| 0 <= i < shrink(input).len() ==> shrink(input)[i] != '\n',
        shrink(input).len() <= input.len(),
        is_subsequence(shrink(input), input),
{
    lemma_shrink_no_newline(shrink_start(), Seq::empty(), input);
    lemma_shrink_subsequence(shrink_start(), Seq::empty(), Seq::empty(), input);
    assert(Seq::<char>::empty() + input =~= input);
}

} // verus!
