//! The text side of JSONL session files: naming a session's file and
//! cutting a file's content into the records that are worth parsing.

use vstd::prelude::*;
use crate::text::{join, push_char, strings_view};

verus! {

/// The characters with the Unicode `White_Space` property (what
/// `char::is_whitespace` tests).
pub open spec fn is_white_space(c: char) -> bool {
    ||| '\u{9}' <= c && c <= '\u{d}'
    ||| c == ' '
    ||| c == '\u{85}'
    ||| c == '\u{a0}'
    ||| c == '\u{1680}'
    ||| '\u{2000}' <= c && c <= '\u{200a}'
    ||| c == '\u{2028}'
    ||| c == '\u{2029}'
    ||| c == '\u{202f}'
    ||| c == '\u{205f}'
    ||| c == '\u{3000}'
}

/// Whether `c` has the Unicode `White_Space` property.
pub fn white_space(c: char) -> (r: bool)
    ensures
        r == is_white_space(c),
{
    ('\u{9}' <= c && c <= '\u{d}') || c == ' ' || c == '\u{85}' || c == '\u{a0}' || c == '\u{1680}'
        || ('\u{2000}' <= c && c <= '\u{200a}') || c == '\u{2028}' || c == '\u{2029}' || c
        == '\u{202f}' || c == '\u{205f}' || c == '\u{3000}'
}

/// `s` without its leading white space.
pub open spec fn trim_start(s: Seq<char>) -> Seq<char>
    decreases s.len(),
{
    if s.len() > 0 && is_white_space(s[0]) {
        trim_start(s.drop_first())
    } else {
        s
    }
}

/// `s` without its trailing white space.
pub open spec fn trim_end(s: Seq<char>) -> Seq<char>
    decreases s.len(),
{
    if s.len() > 0 && is_white_space(s.last()) {
        trim_end(s.drop_last())
    } else {
        s
    }
}

/// `s` without its leading and trailing white space (what `str::trim`
/// returns).
pub open spec fn trim(s: Seq<char>) -> Seq<char> {
    trim_end(trim_start(s))
}

/// The pieces of `s` between its newlines, in order: one more piece than
/// there are newlines, the last one empty when `s` ends with a newline.
pub open spec fn split_lines(s: Seq<char>) -> Seq<Seq<char>>
    decreases s.len(),
{
    if s.len() == 0 {
        seq![Seq::<char>::empty()]
    } else {
        let p = split_lines(s.drop_last());
        if s.last() == '\n' {
            p.push(Seq::<char>::empty())
        } else {
            p.update(p.len() - 1, p.last().push(s.last()))
        }
    }
}

/// The trimmed pieces that are not empty, in order.
pub open spec fn nonempty_trimmed(pieces: Seq<Seq<char>>) -> Seq<Seq<char>>
    decreases pieces.len(),
{
    if pieces.len() == 0 {
        Seq::empty()
    } else {
        let rest = nonempty_trimmed(pieces.drop_last());
        if trim(pieces.last()).len() > 0 {
            rest.push(trim(pieces.last()))
        } else {
            rest
        }
    }
}

/// The records of a JSONL file's content: its lines, each trimmed of white
/// space, without the lines that are then empty.
pub open spec fn jsonl_records(content: Seq<char>) -> Seq<Seq<char>> {
    nonempty_trimmed(split_lines(content))
}

proof fn lemma_trim_start_skip(s: Seq<char>, k: int)
    requires
        0 <= k <= s.len(),
        forall|i: int| 0 <= i < k ==> is_white_space(#[trigger] s[i]),
        k == s.len() || !is_white_space(s[k]),
    ensures
        trim_start(s) == s.skip(k),
    decreases k,
{
    if k == 0 {
        assert(s.skip(0) =~= s);
    } else {
        let t = s.drop_first();
        assert forall|i: int| 0 <= i < k - 1 implies is_white_space(#[trigger] t[i]) by {
            assert(t[i] == s[i + 1]);
        }
        if k < s.len() {
            assert(t[k - 1] == s[k]);
        }
        lemma_trim_start_skip(t, k - 1);
        assert(t.skip(k - 1) =~= s.skip(k));
    }
}

proof fn lemma_trim_end_take(s: Seq<char>, m: int)
    requires
        0 <= m <= s.len(),
        forall|i: int| m <= i < s.len() ==> is_white_space(#[trigger] s[i]),
        m == 0 || !is_white_space(s[m - 1]),
    ensures
        trim_end(s) == s.take(m),
    decreases s.len() - m,
{
    if m == s.len() {
        assert(s.take(m) =~= s);
    } else {
        let t = s.drop_last();
        assert forall|i: int| m <= i < t.len() implies is_white_space(#[trigger] t[i]) by {
            assert(t[i] == s[i]);
        }
        if m > 0 {
            assert(t[m - 1] == s[m - 1]);
        }
        assert(is_white_space(s[s.len() - 1]));
        lemma_trim_end_take(t, m);
        assert(t.take(m) =~= s.take(m));
    }
}

/// `s` trimmed of leading and trailing white space, as `trim` states.
pub fn trim_text(s: &str) -> (r: String)
    ensures
        r@ == trim(s@),
{
    let mut chars: Vec<char> = Vec::new();
    for c in it: s.chars()
        invariant
            it.seq() == s@,
            chars@ == s@.take(it.index() as int),
    {
        chars.push(c);
        assert(chars@ =~= s@.take(it.index() + 1));
    }
    assert(chars@ =~= s@);
    let n = chars.len();
    let mut start: usize = 0;
    while start < n && white_space(chars[start])
        invariant
            n == chars@.len(),
            start <= n,
            forall|i: int| 0 <= i < start ==> is_white_space(#[trigger] chars@[i]),
        decreases n - start,
    {
        start = start + 1;
    }
    proof {
        lemma_trim_start_skip(s@, start as int);
    }
    let ghost t = s@.skip(start as int);
    let mut end: usize = n;
    while end > start && white_space(chars[end - 1])
        invariant
            n == chars@.len(),
            start <= end <= n,
            t == chars@.skip(start as int),
            forall|i: int| end <= i < n ==> is_white_space(#[trigger] chars@[i]),
        decreases end - start,
    {
        end = end - 1;
    }
    proof {
        assert forall|i: int| end - start <= i < t.len() implies is_white_space(#[trigger] t[i]) by {
            assert(t[i] == chars@[i + start]);
        }
        if end > start {
            assert(t[end - start - 1] == chars@[end - 1]);
        }
        lemma_trim_end_take(t, end - start);
    }
    let mut r = String::new();
    let mut k: usize = start;
    while k < end
        invariant
            n == chars@.len(),
            start <= k <= end <= n,
            r@ == chars@.subrange(start as int, k as int),
        decreases end - k,
    {
        push_char(&mut r, chars[k]);
        assert(r@ =~= chars@.subrange(start as int, k + 1));
        k = k + 1;
    }
    assert(r@ =~= t.take(end - start));
    r
}

/// The records of a JSONL file's content, as `jsonl_records` states: each
/// line trimmed of white space, the empty ones left out.
pub fn jsonl_lines(content: &str) -> (r: Vec<String>)
    ensures
        strings_view(r@) == jsonl_records(content@),
{
    let mut out: Vec<String> = Vec::new();
    let mut current = String::new();
    for c in it: content.chars()
        invariant
            it.seq() == content@,
            split_lines(content@.take(it.index() as int)).len() >= 1,
            current@ == split_lines(content@.take(it.index() as int)).last(),
            strings_view(out@) == nonempty_trimmed(
                split_lines(content@.take(it.index() as int)).drop_last(),
            ),
    {
        let ghost i = it.index() as int;
        let ghost prefix = content@.take(i);
        let ghost p = split_lines(prefix);
        proof {
            assert(content@.take(i + 1).drop_last() =~= prefix);
            assert(content@.take(i + 1).last() == c);
        }
        if c == '\n' {
            let t = trim_text(current.as_str());
            proof {
                assert(split_lines(content@.take(i + 1)) == p.push(Seq::<char>::empty()));
                assert(p.push(Seq::<char>::empty()).drop_last() =~= p);
                assert(p.drop_last().push(p.last()) =~= p);
            }
            let ghost before = out@;
            if !t.as_str().is_empty() {
                out.push(t);
                assert(strings_view(out@) =~= strings_view(before).push(trim(p.last())));
            }
            current = String::new();
        } else {
            push_char(&mut current, c);
            proof {
                let q = p.update(p.len() - 1, p.last().push(c));
                assert(split_lines(content@.take(i + 1)) == q);
                assert(q.drop_last() =~= p.drop_last());
            }
        }
    }
    assert(content@.take(content@.len() as int) =~= content@);
    let ghost p = split_lines(content@);
    let t = trim_text(current.as_str());
    let ghost before = out@;
    if !t.as_str().is_empty() {
        out.push(t);
        assert(strings_view(out@) =~= strings_view(before).push(trim(p.last())));
    }
    proof {
        assert(p.drop_last().push(p.last()) =~= p);
    }
    out
}

/// The name of a session's JSONL file: the session id followed by ".jsonl".
pub fn jsonl_file_name(id: &str) -> (r: String)
    ensures
        r@ == id@ + ".jsonl"@,
{
    join(id, ".jsonl")
}

/// Law: no record is empty or starts or ends with white space.
pub proof fn law_records_are_trimmed_and_nonempty(content: Seq<char>)
    ensures
        forall|i: int|
            0 <= i < jsonl_records(content).len() ==> (#[trigger] jsonl_records(content)[i]).len()
                > 0 && !is_white_space(jsonl_records(content)[i][0]) && !is_white_space(
                jsonl_records(content)[i].last(),
            ),
{
    lemma_nonempty_trimmed_shape(split_lines(content));
}

proof fn lemma_trim_shape(s: Seq<char>)
    ensures
        trim(s).len() > 0 ==> !is_white_space(trim(s)[0]) && !is_white_space(trim(s).last()),
{
    lemma_trim_start_shape(s);
    lemma_trim_end_shape(trim_start(s));
}

proof fn lemma_trim_start_shape(s: Seq<char>)
    ensures
        trim_start(s).len() > 0 ==> !is_white_space(trim_start(s)[0]),
    decreases s.len(),
{
    if s.len() > 0 && is_white_space(s[0]) {
        lemma_trim_start_shape(s.drop_first());
    }
}

proof fn lemma_trim_end_shape(s: Seq<char>)
    ensures
        trim_end(s).len() > 0 ==> !is_white_space(trim_end(s).last()),
        trim_end(s).len() > 0 && s.len() > 0 && !is_white_space(s[0]) ==> !is_white_space(
            trim_end(s)[0],
        ),
        trim_end(s).len() <= s.len(),
        trim_end(s).len() > 0 ==> trim_end(s)[0] == s[0],
    decreases s.len(),
{
    if s.len() > 0 && is_white_space(s.last()) {
        lemma_trim_end_shape(s.drop_last());
    }
}

proof fn lemma_nonempty_trimmed_shape(pieces: Seq<Seq<char>>)
    ensures
        forall|i: int|
            0 <= i < nonempty_trimmed(pieces).len() ==> (#[trigger] nonempty_trimmed(pieces)[i]).len()
                > 0 && !is_white_space(nonempty_trimmed(pieces)[i][0]) && !is_white_space(
                nonempty_trimmed(pieces)[i].last(),
            ),
    decreases pieces.len(),
{
    if pieces.len() > 0 {
        lemma_nonempty_trimmed_shape(pieces.drop_last());
        lemma_trim_shape(pieces.last());
        lemma_trim_start_shape(pieces.last());
        lemma_trim_end_shape(trim_start(pieces.last()));
        let rest = nonempty_trimmed(pieces.drop_last());
        assert forall|i: int| 0 <= i < nonempty_trimmed(pieces).len() implies (
        #[trigger] nonempty_trimmed(pieces)[i]).len() > 0 && !is_white_space(
            nonempty_trimmed(pieces)[i][0],
        ) && !is_white_space(nonempty_trimmed(pieces)[i].last()) by {
            if i < rest.len() {
                assert(nonempty_trimmed(pieces)[i] == rest[i]);
            }
        }
    }
}

} // verus!
