//! Punctuation rules for transcripts: the streaming path removes every
//! punctuation mark, the batch path only those at the end.

use crate::encoding::push_char;
use vstd::prelude::*;
use vstd::string::*;

verus! {

/// The marks that a streamed transcript never holds: sentence and clause
/// punctuation in wide and narrow form, quotes and brackets.
pub open spec fn is_stream_punctuation(c: char) -> bool {
    ||| c == '。' || c == '，' || c == '！' || c == '？' || c == '、' || c == '；' || c == '：'
    ||| c == '.' || c == ',' || c == '!' || c == '?' || c == ';' || c == ':'
    ||| c == '"' || c == '\'' || c == '\u{2018}' || c == '\u{2019}'
    ||| c == '（' || c == '）' || c == '(' || c == ')'
    ||| c == '【' || c == '】' || c == '[' || c == ']'
    ||| c == '《' || c == '》' || c == '<' || c == '>'
    ||| c == '—' || c == '…' || c == '·'
}

/// The marks that a batch transcript does not end in.
pub open spec fn is_trailing_punctuation(c: char) -> bool {
    ||| c == '。' || c == '，' || c == '！' || c == '？' || c == '、' || c == '；' || c == '：'
    ||| c == '.' || c == ',' || c == '!' || c == '?' || c == ';' || c == ':'
    ||| c == '"' || c == '\''
}

/// `s` with every stream punctuation mark taken out, the rest in order.
pub open spec fn without_punctuation(s: Seq<char>) -> Seq<char> {
    s.filter(|c: char| !is_stream_punctuation(c))
}

/// The number of characters of `s` that stay when trailing punctuation is
/// cut: the end of the last character that is no trailing punctuation.
pub open spec fn trimmed_len(s: Seq<char>) -> nat
    decreases s.len(),
{
    if s.len() == 0 {
        0
    } else if is_trailing_punctuation(s.last()) {
        trimmed_len(s.drop_last())
    } else {
        s.len()
    }
}

/// `s` without the punctuation at its end.
pub open spec fn without_trailing_punctuation(s: Seq<char>) -> Seq<char> {
    s.take(trimmed_len(s) as int)
}

pub fn stream_punctuation(c: char) -> (yes: bool)
    ensures
        yes == is_stream_punctuation(c),
{
    c == '。' || c == '，' || c == '！' || c == '？' || c == '、' || c == '；' || c == '：'
        || c == '.' || c == ',' || c == '!' || c == '?' || c == ';' || c == ':' || c == '"'
        || c == '\'' || c == '\u{2018}' || c == '\u{2019}' || c == '（' || c == '）' || c == '('
        || c == ')' || c == '【' || c == '】' || c == '[' || c == ']' || c == '《' || c == '》'
        || c == '<' || c == '>' || c == '—' || c == '…' || c == '·'
}

pub fn trailing_punctuation(c: char) -> (yes: bool)
    ensures
        yes == is_trailing_punctuation(c),
{
    c == '。' || c == '，' || c == '！' || c == '？' || c == '、' || c == '；' || c == '：'
        || c == '.' || c == ',' || c == '!' || c == '?' || c == ';' || c == ':' || c == '"'
        || c == '\''
}

/// Filtering a sequence that grew by one element at its end.
pub proof fn lemma_filter_push<A>(s: Seq<A>, a: A, pred: spec_fn(A) -> bool)
    ensures
        s.push(a).filter(pred) == if pred(a) {
            s.filter(pred).push(a)
        } else {
            s.filter(pred)
        },
{
    reveal(Seq::filter);
    assert(s.push(a).drop_last() =~= s);
}

/// Removes every stream punctuation mark from `text`.
pub fn strip_punctuation(text: &str) -> (clean: String)
    ensures
        clean@ == without_punctuation(text@),
{
    let mut clean = String::new();
    proof {
        reveal(Seq::filter);
        assert(text@.take(0) =~= Seq::<char>::empty());
    }
    for c in chars: text.chars()
        invariant
            chars.seq() == text@,
            clean@ == without_punctuation(text@.take(chars.index())),
    {
        proof {
            let i = chars.index();
            lemma_filter_push(text@.take(i), c, |c: char| !is_stream_punctuation(c));
            assert(text@.take(i).push(c) =~= text@.take(i + 1));
        }
        if !stream_punctuation(c) {
            push_char(&mut clean, c);
        }
    }
    proof {
        assert(text@.take(text@.len() as int) =~= text@);
    }
    clean
}

/// What trimming keeps is a prefix, what it cuts is punctuation, and what it
/// keeps does not end in punctuation.
pub proof fn lemma_trimmed_len(s: Seq<char>)
    ensures
        trimmed_len(s) <= s.len(),
        forall|i: int| trimmed_len(s) <= i < s.len() ==> is_trailing_punctuation(#[trigger] s[i]),
        trimmed_len(s) > 0 ==> !is_trailing_punctuation(s[trimmed_len(s) - 1]),
    decreases s.len(),
{
    if s.len() > 0 && is_trailing_punctuation(s.last()) {
        lemma_trimmed_len(s.drop_last());
        assert forall|i: int| trimmed_len(s) <= i < s.len() implies is_trailing_punctuation(
            #[trigger] s[i],
        ) by {
            if i < s.len() - 1 {
                assert(s[i] == s.drop_last()[i]);
            }
        }
    }
}

/// Cutting the punctuation behind position `k` changes nothing of what
/// trimming keeps.
proof fn lemma_trimmed_len_take(s: Seq<char>, k: int)
    requires
        0 <= k <= s.len(),
        forall|i: int| k <= i < s.len() ==> is_trailing_punctuation(#[trigger] s[i]),
    ensures
        trimmed_len(s) == trimmed_len(s.take(k)),
    decreases s.len() - k,
{
    if k < s.len() {
        assert(is_trailing_punctuation(s[s.len() - 1]));
        lemma_trimmed_len_take(s.drop_last(), k);
        assert(s.drop_last().take(k) =~= s.take(k));
    } else {
        assert(s.take(k) =~= s);
    }
}

/// Removes the punctuation at the end of `text`; what stands before the last
/// other character stays as it is.
pub fn trim_trailing_punctuation(text: &str) -> (trimmed: String)
    ensures
        trimmed@ == without_trailing_punctuation(text@),
{
    let len = text.unicode_len();
    let mut seen: usize = 0;
    let mut kept: usize = 0;
    for c in chars: text.chars()
        invariant
            chars.seq() == text@,
            seen == chars.index(),
            kept <= seen,
            len == text@.len(),
            forall|i: int| kept <= i < seen ==> is_trailing_punctuation(#[trigger] text@[i]),
            kept > 0 ==> !is_trailing_punctuation(text@[kept - 1]),
    {
        seen += 1;
        if !trailing_punctuation(c) {
            kept = seen;
        }
    }
    proof {
        lemma_trimmed_len_take(text@, kept as int);
        let prefix = text@.take(kept as int);
        if kept > 0 {
            assert(prefix.last() == text@[kept - 1]);
        }
        assert(trimmed_len(prefix) == kept);
        assert(text@.subrange(0, kept as int) =~= text@.take(kept as int));
    }
    String::from_str(text.substring_char(0, kept))
}

/// A stripped transcript holds no stream punctuation, at its ends or inside,
/// and holds every other character of the text, in the order of the text.
pub proof fn lemma_stripped_is_clean(s: Seq<char>)
    ensures
        forall|i: int|
            0 <= i < without_punctuation(s).len() ==> !is_stream_punctuation(
                #[trigger] without_punctuation(s)[i],
            ),
        forall|i: int|
            0 <= i < s.len() && !is_stream_punctuation(#[trigger] s[i])
                ==> without_punctuation(s).contains(s[i]),
        without_punctuation(s).len() <= s.len(),
{
    let pred = |c: char| !is_stream_punctuation(c);
    broadcast use vstd::seq_lib::group_filter_ensures;

    assert forall|i: int|
        0 <= i < without_punctuation(s).len() implies !is_stream_punctuation(
        #[trigger] without_punctuation(s)[i],
    ) by {
        assert(pred(s.filter(pred)[i]));
    }
    assert forall|i: int|
        0 <= i < s.len() && !is_stream_punctuation(#[trigger] s[i]) implies without_punctuation(
        s,
    ).contains(s[i]) by {
        assert(pred(s[i]));
    }
}

/// A text without stream punctuation passes through stripping unchanged, so
/// stripping twice is stripping once.
pub proof fn lemma_strip_fixes_clean_text(s: Seq<char>)
    requires
        forall|i: int| 0 <= i < s.len() ==> !is_stream_punctuation(#[trigger] s[i]),
    ensures
        without_punctuation(s) == s,
    decreases s.len(),
{
    reveal(Seq::filter);
    if s.len() > 0 {
        lemma_strip_fixes_clean_text(s.drop_last());
        assert(s.drop_last().push(s.last()) =~= s);
    }
}

/// Stripping is idempotent.
pub proof fn lemma_strip_idempotent(s: Seq<char>)
    ensures
        without_punctuation(without_punctuation(s)) == without_punctuation(s),
{
    lemma_stripped_is_clean(s);
    lemma_strip_fixes_clean_text(without_punctuation(s));
}

/// Trimming touches the end only: the result is a prefix of the text, every
/// character cut is trailing punctuation, and the result is empty or ends in
/// another character. Punctuation at the start or inside stays.
pub proof fn lemma_trim_cuts_the_end_only(s: Seq<char>)
    ensures
        without_trailing_punctuation(s).is_prefix_of(s),
        forall|i: int|
            without_trailing_punctuation(s).len() <= i < s.len() ==> is_trailing_punctuation(
                #[trigger] s[i],
            ),
        without_trailing_punctuation(s).len() > 0 ==> !is_trailing_punctuation(
            without_trailing_punctuation(s).last(),
        ),
{
    lemma_trimmed_len(s);
}

/// Trimming is idempotent.
pub proof fn lemma_trim_idempotent(s: Seq<char>)
    ensures
        without_trailing_punctuation(without_trailing_punctuation(s))
            == without_trailing_punctuation(s),
{
    lemma_trimmed_len(s);
    let t = without_trailing_punctuation(s);
    if t.len() > 0 {
        assert(trimmed_len(t) == t.len());
    }
    assert(t.take(trimmed_len(t) as int) =~= t);
}

} // verus!
