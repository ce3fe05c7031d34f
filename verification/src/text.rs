//! Character and string predicates that the configuration rules are stated in,
//! each with the executable function that decides or computes it.

use vstd::prelude::*;
use vstd::std_specs::iter::IteratorSpec;
use vstd::string::StringExecFns;

verus! {

/// Whether `c` is a white-space character: one of the twenty-five code points
/// that carry the Unicode `White_Space` property.
pub open spec fn white_space(c: char) -> bool {
    let n = c as u32;
    ||| 0x09 <= n <= 0x0D
    ||| n == 0x20
    ||| n == 0x85
    ||| n == 0xA0
    ||| n == 0x1680
    ||| 0x2000 <= n <= 0x200A
    ||| n == 0x2028
    ||| n == 0x2029
    ||| n == 0x202F
    ||| n == 0x205F
    ||| n == 0x3000
}

/// A text is blank when nothing but white space is in it, so that trimming
/// it leaves the empty text.
pub open spec fn blank(s: Seq<char>) -> bool {
    forall|i: int| 0 <= i < s.len() ==> white_space(#[trigger] s[i])
}

/// A token starts at `i` when `s[i]` is no white space and either begins the
/// text or follows a white-space character.
pub open spec fn starts_token(s: Seq<char>, i: int) -> bool {
    &&& 0 <= i < s.len()
    &&& !white_space(s[i])
    &&& (i == 0 || white_space(s[i - 1]))
}

/// The number of white-space separated tokens in `s`.
pub open spec fn token_count(s: Seq<char>) -> nat
    decreases s.len(),
{
    if s.len() == 0 {
        0
    } else if starts_token(s, s.len() - 1) {
        token_count(s.drop_last()) + 1
    } else {
        token_count(s.drop_last())
    }
}

/// The tokens of a text are those of the text without its last character,
/// and one more where a token starts at that character.
pub proof fn lemma_token_count_step(s: Seq<char>, k: int)
    requires
        0 <= k < s.len(),
    ensures
        token_count(s.take(k + 1)) == token_count(s.take(k)) + if starts_token(s, k) {
            1nat
        } else {
            0nat
        },
{
    let next = s.take(k + 1);
    assert(next.drop_last() =~= s.take(k));
    assert(starts_token(next, k) == starts_token(s, k));
}

/// `s` without the white space that it begins with.
pub open spec fn trim_start(s: Seq<char>) -> Seq<char>
    decreases s.len(),
{
    if s.len() > 0 && white_space(s[0]) {
        trim_start(s.drop_first())
    } else {
        s
    }
}

/// `s` without the white space that it ends with.
pub open spec fn trim_end(s: Seq<char>) -> Seq<char>
    decreases s.len(),
{
    if s.len() > 0 && white_space(s.last()) {
        trim_end(s.drop_last())
    } else {
        s
    }
}

/// `s` without the white space at either end.
pub open spec fn trimmed(s: Seq<char>) -> Seq<char> {
    trim_end(trim_start(s))
}

/// Where the first `k` characters of `s` are white space and the next is
/// not, `s` without its leading white space is what follows the first `k`.
pub proof fn lemma_trim_start_skips(s: Seq<char>, k: int)
    requires
        0 <= k <= s.len(),
        forall|i: int| 0 <= i < k ==> white_space(#[trigger] s[i]),
        k < s.len() ==> !white_space(s[k]),
    ensures
        trim_start(s) == s.skip(k),
    decreases k,
{
    if k == 0 {
        assert(s.skip(0) =~= s);
    } else {
        assert(white_space(s[0]));
        let rest = s.drop_first();
        assert forall|i: int| 0 <= i < k - 1 implies white_space(#[trigger] rest[i]) by {
            assert(rest[i] == s[i + 1]);
        }
        lemma_trim_start_skips(rest, k - 1);
        assert(rest.skip(k - 1) =~= s.skip(k));
    }
}

/// Where the characters of `s` from `e` on are white space and the one
/// before is not, `s` without its trailing white space is its first `e`.
pub proof fn lemma_trim_end_takes(s: Seq<char>, e: int)
    requires
        0 <= e <= s.len(),
        forall|i: int| e <= i < s.len() ==> white_space(#[trigger] s[i]),
        e > 0 ==> !white_space(s[e - 1]),
    ensures
        trim_end(s) == s.take(e),
    decreases s.len() - e,
{
    if e == s.len() {
        assert(s.take(e) =~= s);
    } else {
        assert(white_space(s[s.len() - 1]));
        let rest = s.drop_last();
        assert forall|i: int| e <= i < rest.len() implies white_space(#[trigger] rest[i]) by {
            assert(rest[i] == s[i]);
        }
        lemma_trim_end_takes(rest, e);
        assert(rest.take(e) =~= s.take(e));
    }
}

/// What is left of `s` without its leading white space is empty, or begins
/// with a character that is no white space; it is empty just when `s` is
/// blank.
pub proof fn lemma_trim_start_of_blank(s: Seq<char>)
    ensures
        trim_start(s).len() == 0 <==> blank(s),
        trim_start(s).len() > 0 ==> !white_space(trim_start(s)[0]),
    decreases s.len(),
{
    if s.len() > 0 && white_space(s[0]) {
        let rest = s.drop_first();
        lemma_trim_start_of_blank(rest);
        if blank(rest) {
            assert forall|i: int| 0 <= i < s.len() implies white_space(#[trigger] s[i]) by {
                if i > 0 {
                    assert(rest[i - 1] == s[i]);
                }
            }
        }
        if blank(s) {
            assert forall|i: int| 0 <= i < rest.len() implies white_space(#[trigger] rest[i]) by {
                assert(rest[i] == s[i + 1]);
            }
        }
    } else if s.len() > 0 {
        assert(!white_space(s[0]));
    }
}

/// What is left of a text that begins with no white space, without its
/// trailing white space, is not empty.
pub proof fn lemma_trim_end_keeps_the_start(s: Seq<char>)
    requires
        s.len() > 0,
        !white_space(s[0]),
    ensures
        trim_end(s).len() > 0,
    decreases s.len(),
{
    if white_space(s.last()) {
        let rest = s.drop_last();
        assert(s.len() > 1);
        assert(rest[0] == s[0]);
        lemma_trim_end_keeps_the_start(rest);
    }
}

/// A text is blank just when trimming it leaves nothing.
pub proof fn lemma_blank_trims_to_nothing(s: Seq<char>)
    ensures
        blank(s) <==> trimmed(s).len() == 0,
{
    lemma_trim_start_of_blank(s);
    if trim_start(s).len() > 0 {
        lemma_trim_end_keeps_the_start(trim_start(s));
    }
}

/// The decimal digit that stands for `d`, for `d` below ten.
pub open spec fn digit(d: nat) -> char {
    if d == 0 {
        '0'
    } else if d == 1 {
        '1'
    } else if d == 2 {
        '2'
    } else if d == 3 {
        '3'
    } else if d == 4 {
        '4'
    } else if d == 5 {
        '5'
    } else if d == 6 {
        '6'
    } else if d == 7 {
        '7'
    } else if d == 8 {
        '8'
    } else {
        '9'
    }
}

/// `n` written in decimal, without sign or leading zeros.
pub open spec fn decimal(n: nat) -> Seq<char>
    decreases n,
{
    if n < 10 {
        seq![digit(n)]
    } else {
        decimal(n / 10).push(digit(n % 10))
    }
}

/// `scope`, a dot, and `field`: the dotted path of a field inside a scope.
pub open spec fn dotted(scope: Seq<char>, field: Seq<char>) -> Seq<char> {
    scope + seq!['.'] + field
}

/// `name` followed by `index` in square brackets: the path of one element of
/// a sequence.
pub open spec fn indexed(name: Seq<char>, index: nat) -> Seq<char> {
    name + seq!['['] + decimal(index) + seq![']']
}

/// Whether `c` is a white-space character.
pub fn is_white_space(c: char) -> (r: bool)
    ensures
        r == white_space(c),
{
    let n: u32 = c as u32;
    (0x09 <= n && n <= 0x0D) || n == 0x20 || n == 0x85 || n == 0xA0 || n == 0x1680 || (0x2000 <= n
        && n <= 0x200A) || n == 0x2028 || n == 0x2029 || n == 0x202F || n == 0x205F || n == 0x3000
}

/// Whether nothing but white space is in `s`.
pub fn is_blank(s: &str) -> (r: bool)
    ensures
        r == blank(s@),
{
    for c in it: s.chars()
        invariant
            it.seq() == s@,
            forall|i: int| 0 <= i < it.index() ==> white_space(#[trigger] s@[i]),
    {
        if !is_white_space(c) {
            return false;
        }
    }
    true
}

/// Whether `a` and `b` are the same text, character for character.
pub fn same_text(a: &str, b: &str) -> (r: bool)
    ensures
        r == (a@ == b@),
{
    broadcast use vstd::string::group_string_axioms;

    let mut x = a.chars();
    let mut y = b.chars();
    loop
        invariant
            (a@ == b@) == (x.remaining() == y.remaining()),
            x.decrease() is Some,
        decreases x.decrease()->0,
    {
        let ghost xs = x.remaining();
        let ghost ys = y.remaining();
        let p = x.next();
        let q = y.next();
        match (p, q) {
            (None, None) => {
                assert(xs =~= ys);
                return true;
            },
            (Some(c), Some(d)) => {
                if c != d {
                    return false;
                }
                assert(xs =~= seq![c] + xs.drop_first());
                assert(ys =~= seq![d] + ys.drop_first());
            },
            _ => {
                return false;
            },
        }
    }
}

/// The number of white-space separated tokens in `s`.
pub fn count_tokens(s: &str) -> (r: usize)
    ensures
        r == token_count(s@),
{
    let len = s.unicode_len();
    let mut count: usize = 0;
    let mut after_space = true;
    assert(s@.take(0) =~= Seq::<char>::empty());
    for c in it: s.chars()
        invariant
            it.seq() == s@,
            len == s@.len(),
            count == token_count(s@.take(it.index() as int)),
            count <= it.index(),
            after_space == (it.index() == 0 || white_space(s@[it.index() - 1])),
    {
        let ghost k = it.index() as int;
        let space = is_white_space(c);
        proof {
            let next = s@.take(k + 1);
            assert(next.drop_last() =~= s@.take(k));
            assert(starts_token(next, k) == (!space && after_space));
        }
        if !space && after_space {
            count += 1;
        }
        after_space = space;
    }
    assert(s@.take(s@.len() as int) =~= s@);
    count
}

/// The part of `s` between the white space at its ends.
pub fn trim(s: &str) -> (r: &str)
    ensures
        r@ == trimmed(s@),
{
    let len = s.unicode_len();
    let mut index: usize = 0;
    let mut start: usize = 0;
    let mut end: usize = 0;
    for c in it: s.chars()
        invariant
            it.seq() == s@,
            len == s@.len(),
            index == it.index(),
            start <= index,
            end <= index,
            forall|i: int| 0 <= i < start ==> white_space(#[trigger] s@[i]),
            forall|i: int| end <= i < index ==> white_space(#[trigger] s@[i]),
            start < index ==> !white_space(s@[start as int]),
            end > 0 ==> start < end && !white_space(s@[end - 1]),
            end == 0 ==> start == index,
    {
        if is_white_space(c) {
            if end == 0 {
                start = index + 1;
            }
        } else {
            end = index + 1;
        }
        index += 1;
    }
    if end == 0 {
        proof {
            lemma_trim_start_skips(s@, len as int);
            assert(s@.skip(len as int) =~= Seq::<char>::empty());
            assert(s@.subrange(0, 0) =~= Seq::<char>::empty());
        }
        s.substring_char(0, 0)
    } else {
        proof {
            let rest = s@.skip(start as int);
            lemma_trim_start_skips(s@, start as int);
            assert forall|i: int| end - start <= i < rest.len() implies white_space(
                #[trigger] rest[i],
            ) by {
                assert(rest[i] == s@[i + start]);
            }
            assert(rest[end - start - 1] == s@[end - 1]);
            lemma_trim_end_takes(rest, end - start);
            assert(rest.take(end - start) =~= s@.subrange(start as int, end as int));
        }
        s.substring_char(start, end)
    }
}

fn digit_text(d: u64) -> (r: &'static str)
    requires
        d < 10,
    ensures
        r@ == seq![digit(d as nat)],
{
    proof {
        reveal_strlit("0");
        reveal_strlit("1");
        reveal_strlit("2");
        reveal_strlit("3");
        reveal_strlit("4");
        reveal_strlit("5");
        reveal_strlit("6");
        reveal_strlit("7");
        reveal_strlit("8");
        reveal_strlit("9");
    }
    let r = if d == 0 {
        "0"
    } else if d == 1 {
        "1"
    } else if d == 2 {
        "2"
    } else if d == 3 {
        "3"
    } else if d == 4 {
        "4"
    } else if d == 5 {
        "5"
    } else if d == 6 {
        "6"
    } else if d == 7 {
        "7"
    } else if d == 8 {
        "8"
    } else {
        "9"
    };
    assert(r@ =~= seq![digit(d as nat)]);
    r
}

/// `n` written in decimal.
pub fn decimal_string(n: u64) -> (r: String)
    ensures
        r@ == decimal(n as nat),
    decreases n,
{
    if n < 10 {
        String::from_str(digit_text(n))
    } else {
        let mut r = decimal_string(n / 10);
        r.append(digit_text(n % 10));
        assert(r@ =~= decimal(n as nat));
        r
    }
}

/// The dotted path of `field` inside `scope`.
pub fn dotted_path(scope: &str, field: &str) -> (r: String)
    ensures
        r@ == dotted(scope@, field@),
{
    proof {
        reveal_strlit(".");
    }
    let mut r = String::from_str(scope);
    r.append(".");
    r.append(field);
    assert(r@ =~= dotted(scope@, field@));
    r
}

/// The path of the element at `index` of the sequence `name`.
pub fn indexed_path(name: &str, index: usize) -> (r: String)
    ensures
        r@ == indexed(name@, index as nat),
{
    proof {
        reveal_strlit("[");
        reveal_strlit("]");
    }
    let number = decimal_string(index as u64);
    let mut r = String::from_str(name);
    r.append("[");
    r.append(number.as_str());
    r.append("]");
    assert(r@ =~= indexed(name@, index as nat));
    r
}

} // verus!
