//! Small verified helpers on lines of characters.

use vstd::prelude::*;
use vstd::string::StrSliceExecFns;

verus! {

/// The classes of characters that the editing rules skip over.
#[derive(Clone, Copy, Debug, PartialEq, Eq, Structural)]
pub enum CharClass {
    /// The space character alone.
    Space,
    /// Space or horizontal tab.
    Blank,
    /// Every character that Unicode classes as white space.
    Whitespace,
}

/// The code points that Unicode classes as white space.
pub open spec fn is_whitespace(c: char) -> bool {
    let n = c as u32;
    ||| 0x09 <= n <= 0x0D
    ||| n == 0x20
    ||| n == 0x85
    ||| n == 0xA0
    ||| n == 0x1680
    ||| 0x2000 <= n <= 0x200A
    ||| n == 0x2028
    ||| n == 0x2029
    ||| n == 0x202F
    ||| n == 0x205F
    ||| n == 0x3000
}

/// Whether `c` belongs to the class `k`.
pub open spec fn in_class(k: CharClass, c: char) -> bool {
    match k {
        CharClass::Space => c == ' ',
        CharClass::Blank => c == ' ' || c == '\t',
        CharClass::Whitespace => is_whitespace(c),
    }
}

/// The first index at or after `i` whose character is outside `k`, or the
/// length of `s` when there is none.
pub open spec fn skip_class(s: Seq<char>, k: CharClass, i: int) -> int
    decreases s.len() - i,
{
    if 0 <= i < s.len() && in_class(k, s[i]) {
        skip_class(s, k, i + 1)
    } else {
        i
    }
}

/// The least `j <= n` such that every character of `s` in `j..n` is in `k`.
pub open spec fn skip_class_back(s: Seq<char>, k: CharClass, n: int) -> int
    decreases n,
{
    if 0 < n <= s.len() && in_class(k, s[n - 1]) {
        skip_class_back(s, k, n - 1)
    } else {
        n
    }
}

/// `skip_class` stops inside the line, after a run of class characters, at
/// a character outside the class.
pub proof fn lemma_skip_class(s: Seq<char>, k: CharClass, i: int)
    requires
        0 <= i <= s.len(),
    ensures
        i <= skip_class(s, k, i) <= s.len(),
        forall|j: int| i <= j < skip_class(s, k, i) ==> in_class(k, #[trigger] s[j]),
        skip_class(s, k, i) < s.len() ==> !in_class(k, s[skip_class(s, k, i)]),
    decreases s.len() - i,
{
    if i < s.len() && in_class(k, s[i]) {
        lemma_skip_class(s, k, i + 1);
    }
}

/// `skip_class_back` stops inside the line, before a run of class
/// characters, just after a character outside the class.
pub proof fn lemma_skip_class_back(s: Seq<char>, k: CharClass, n: int)
    requires
        0 <= n <= s.len(),
    ensures
        0 <= skip_class_back(s, k, n) <= n,
        forall|j: int| skip_class_back(s, k, n) <= j < n ==> in_class(k, #[trigger] s[j]),
        skip_class_back(s, k, n) > 0 ==> !in_class(k, s[skip_class_back(s, k, n) - 1]),
    decreases n,
{
    if 0 < n && in_class(k, s[n - 1]) {
        lemma_skip_class_back(s, k, n - 1);
    }
}

/// Tests membership in a character class.
pub fn has_class(k: CharClass, c: char) -> (b: bool)
    ensures
        b == in_class(k, c),
{
    match k {
        CharClass::Space => c == ' ',
        CharClass::Blank => c == ' ' || c == '\t',
        CharClass::Whitespace => {
            let n: u32 = c as u32;
            (0x09 <= n && n <= 0x0D) || n == 0x20 || n == 0x85 || n == 0xA0 || n == 0x1680 || (
            0x2000 <= n && n <= 0x200A) || n == 0x2028 || n == 0x2029 || n == 0x202F || n
                == 0x205F || n == 0x3000
        },
    }
}

/// Skips forward over characters of class `k`, starting at `from`.
pub fn skip_forward(line: &Vec<char>, k: CharClass, from: usize) -> (at: usize)
    requires
        from <= line.len(),
    ensures
        at == skip_class(line@, k, from as int),
        from <= at <= line.len(),
        forall|j: int| from <= j < at ==> in_class(k, #[trigger] line@[j]),
        at < line.len() ==> !in_class(k, line@[at as int]),
{
    proof {
        lemma_skip_class(line@, k, from as int);
    }
    let mut i: usize = from;
    while i < line.len() && has_class(k, line[i])
        invariant
            from <= i <= line.len(),
            skip_class(line@, k, from as int) == skip_class(line@, k, i as int),
        decreases line.len() - i,
    {
        i += 1;
    }
    i
}

/// Skips backward over characters of class `k`, starting just before `upto`.
pub fn skip_backward(line: &Vec<char>, k: CharClass, upto: usize) -> (at: usize)
    requires
        upto <= line.len(),
    ensures
        at == skip_class_back(line@, k, upto as int),
        at <= upto,
        forall|j: int| at <= j < upto ==> in_class(k, #[trigger] line@[j]),
        at > 0 ==> !in_class(k, line@[at - 1]),
{
    proof {
        lemma_skip_class_back(line@, k, upto as int);
    }
    let mut i: usize = upto;
    while i > 0 && has_class(k, line[i - 1])
        invariant
            i <= upto <= line.len(),
            skip_class_back(line@, k, upto as int) == skip_class_back(line@, k, i as int),
        decreases i,
    {
        i -= 1;
    }
    i
}

/// A copy of the characters of `src` in `from..to`.
pub fn copy_range(src: &Vec<char>, from: usize, to: usize) -> (out: Vec<char>)
    requires
        from <= to <= src.len(),
    ensures
        out@ == src@.subrange(from as int, to as int),
{
    let mut out: Vec<char> = Vec::new();
    let mut i: usize = from;
    while i < to
        invariant
            from <= i <= to <= src.len(),
            out@ == src@.subrange(from as int, i as int),
        decreases to - i,
    {
        out.push(src[i]);
        i += 1;
        assert(out@ =~= src@.subrange(from as int, i as int));
    }
    out
}

/// Appends the characters of `src` to `dst`.
pub fn push_all(dst: &mut Vec<char>, src: &Vec<char>)
    ensures
        final(dst)@ == old(dst)@ + src@,
{
    let mut i: usize = 0;
    while i < src.len()
        invariant
            i <= src.len(),
            dst@ == old(dst)@ + src@.subrange(0, i as int),
        decreases src.len() - i,
    {
        dst.push(src[i]);
        i += 1;
        assert(dst@ =~= old(dst)@ + src@.subrange(0, i as int));
    }
    assert(src@.subrange(0, src.len() as int) =~= src@);
}

/// The characters of a string.
pub fn chars_of(s: &str) -> (out: Vec<char>)
    ensures
        out@ == s@,
{
    let n = s.unicode_len();
    let mut out: Vec<char> = Vec::new();
    let mut i: usize = 0;
    while i < n
        invariant
            i <= n,
            n == s@.len(),
            out@ == s@.subrange(0, i as int),
        decreases n - i,
    {
        out.push(s.get_char(i));
        i += 1;
        assert(out@ =~= s@.subrange(0, i as int));
    }
    assert(s@.subrange(0, n as int) =~= s@);
    out
}

/// Whether two lines hold the same characters.
pub fn same_chars(a: &Vec<char>, b: &Vec<char>) -> (r: bool)
    ensures
        r == (a@ == b@),
{
    if a.len() != b.len() {
        return false;
    }
    let mut i: usize = 0;
    while i < a.len()
        invariant
            i <= a.len(),
            a.len() == b.len(),
            forall|j: int| 0 <= j < i ==> a@[j] == b@[j],
        decreases a.len() - i,
    {
        if a[i] != b[i] {
            return false;
        }
        i += 1;
    }
    assert(a@ =~= b@);
    true
}

} // verus!
