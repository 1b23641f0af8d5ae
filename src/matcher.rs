use vstd::prelude::*;

use crate::text::{char_is_whitespace, chars_of, is_white, lower_of, push_char, to_lower};

verus! {

/// Punctuation that counts as a word break in answers and messages.
pub open spec fn is_mark(c: char) -> bool {
    c == '\n' || c == '-' || c == ',' || c == '.' || c == '!' || c == '?' || c == ':'
}

/// The text with every punctuation mark replaced by a space.
pub open spec fn blank_marks(s: Seq<char>) -> Seq<char> {
    s.map_values(|c: char| if is_mark(c) { ' ' } else { c })
}

/// The words of `s` that follow a word `cur` already begun: maximal runs of
/// non-whitespace characters, empty runs left out.
pub open spec fn words_after(s: Seq<char>, cur: Seq<char>) -> Seq<Seq<char>>
    decreases s.len(),
{
    if s.len() == 0 {
        if cur.len() == 0 {
            Seq::empty()
        } else {
            seq![cur]
        }
    } else if is_white(s[0]) {
        if cur.len() == 0 {
            words_after(s.drop_first(), Seq::empty())
        } else {
            seq![cur] + words_after(s.drop_first(), Seq::empty())
        }
    } else {
        words_after(s.drop_first(), cur.push(s[0]))
    }
}

/// The words of a text split on whitespace.
pub open spec fn split_words(s: Seq<char>) -> Seq<Seq<char>> {
    words_after(s, Seq::empty())
}

/// The normalized words of a text: lower-cased, punctuation blanked, split.
pub open spec fn words(text: Seq<char>) -> Seq<Seq<char>> {
    split_words(blank_marks(lower_of(text)))
}

/// `answer` stands contiguously in `content` from position `i` on.
pub open spec fn window_at(content: Seq<Seq<char>>, answer: Seq<Seq<char>>, i: int) -> bool {
    0 <= i && i + answer.len() <= content.len() && content.subrange(i, i + answer.len()) == answer
}

/// A non-empty answer matches when its words appear in order and side by
/// side among the message's words.
pub open spec fn answer_matches(content: Seq<Seq<char>>, answer: Seq<Seq<char>>) -> bool {
    answer.len() > 0 && exists|i: int| window_at(content, answer, i)
}

/// Splits lower-cased text into its normalized words.
pub fn tokens_of_lowered(lowered: &str) -> (r: Vec<String>)
    ensures
        r.deep_view() == split_words(blank_marks(lowered@)),
{
    let chars = chars_of(lowered);
    let ghost s = blank_marks(lowered@);
    let mut out: Vec<String> = Vec::new();
    let mut cur = String::new();
    let mut i: usize = 0;
    assert(s.subrange(0, s.len() as int) =~= s);
    assert(out.deep_view() =~= Seq::<Seq<char>>::empty());
    assert(Seq::<Seq<char>>::empty() + split_words(s) =~= split_words(s));
    while i < chars.len()
        invariant
            i <= chars.len(),
            chars@ == lowered@,
            s == blank_marks(lowered@),
            out.deep_view() + words_after(s.subrange(i as int, s.len() as int), cur@)
                == split_words(s),
        decreases chars.len() - i,
    {
        let raw = chars[i];
        let c = if raw == '\n' || raw == '-' || raw == ',' || raw == '.' || raw == '!' || raw
            == '?' || raw == ':' {
            ' '
        } else {
            raw
        };
        let ghost rest = s.subrange(i as int, s.len() as int);
        let ghost old_out = out.deep_view();
        let ghost old_cur = cur@;
        assert(rest[0] == c);
        assert(rest.drop_first() =~= s.subrange(i + 1, s.len() as int));
        if char_is_whitespace(c) {
            if !cur.as_str().is_empty() {
                out.push(cur);
                assert(out.deep_view() =~= old_out.push(old_cur));
                assert(out.deep_view() + words_after(rest.drop_first(), Seq::empty()) =~= old_out
                    + (seq![old_cur] + words_after(rest.drop_first(), Seq::empty())));
            }
            cur = String::new();
        } else {
            push_char(&mut cur, c);
        }
        i += 1;
    }
    assert(s.subrange(i as int, s.len() as int) =~= Seq::<char>::empty());
    if !cur.as_str().is_empty() {
        let ghost old_out = out.deep_view();
        let ghost old_cur = cur@;
        out.push(cur);
        assert(out.deep_view() =~= old_out + seq![old_cur]);
    } else {
        assert(out.deep_view() =~= out.deep_view() + Seq::<Seq<char>>::empty());
    }
    out
}

/// The normalized words of a text.
pub fn normalized_words(text: &str) -> (r: Vec<String>)
    ensures
        r.deep_view() == words(text@),
{
    let lowered = to_lower(text);
    tokens_of_lowered(lowered.as_str())
}

fn window_equal(content: &Vec<String>, answer: &Vec<String>, start: usize) -> (r: bool)
    requires
        start + answer.len() <= content.len(),
    ensures
        r == (content.deep_view().subrange(start as int, start + answer.len())
            == answer.deep_view()),
{
    let ghost cv = content.deep_view();
    let ghost av = answer.deep_view();
    let mut j: usize = 0;
    while j < answer.len()
        invariant
            start + answer.len() <= content.len(),
            j <= answer.len(),
            cv == content.deep_view(),
            av == answer.deep_view(),
            forall|k: int| 0 <= k < j ==> cv[start + k] == av[k],
        decreases answer.len() - j,
    {
        if !(content[start + j] == answer[j]) {
            assert(cv.subrange(start as int, start + answer.len())[j as int] != av[j as int]);
            return false;
        }
        j += 1;
    }
    assert(cv.subrange(start as int, start + answer.len()) =~= av);
    true
}

/// Whether the message words hold the answer words.
/// An answer of one word matches wherever that word occurs; a longer one
/// must occur contiguously and in order; an empty answer matches nothing.
pub fn contains_answer(content: &Vec<String>, answer: &Vec<String>) -> (r: bool)
    ensures
        r == answer_matches(content.deep_view(), answer.deep_view()),
        answer.len() == 1 ==> (r <==> content.deep_view().contains(answer.deep_view()[0])),
        answer.len() > content.len() ==> !r,
{
    let ghost cv = content.deep_view();
    let ghost av = answer.deep_view();
    let n = content.len();
    let m = answer.len();
    proof {
        if m == 1 {
            assert forall|i: int| 0 <= i < cv.len() implies (window_at(cv, av, i) <==> cv[i]
                == av[0]) by {
                if cv[i] == av[0] {
                    assert(cv.subrange(i, i + 1) =~= av);
                }
                if window_at(cv, av, i) {
                    assert(cv.subrange(i, i + 1)[0] == av[0]);
                }
            }
            if cv.contains(av[0]) {
                let i = choose|i: int| 0 <= i < cv.len() && cv[i] == av[0];
                assert(window_at(cv, av, i));
            }
        }
    }
    if m == 0 || m > n {
        return false;
    }
    let mut i: usize = 0;
    while i <= n - m
        invariant
            0 < m <= n,
            n == content.len(),
            m == answer.len(),
            cv == content.deep_view(),
            av == answer.deep_view(),
            i <= n - m + 1,
            forall|k: int| 0 <= k < i ==> !window_at(cv, av, k),
        decreases n - m + 1 - i,
    {
        if window_equal(content, answer, i) {
            assert(window_at(cv, av, i as int));
            return true;
        }
        i += 1;
    }
    false
}

/// Whether the message text holds the answer text, both normalized.
pub fn answer_found(message: &str, answer: &str) -> (r: bool)
    ensures
        r == answer_matches(words(message@), words(answer@)),
{
    let content = normalized_words(message);
    let target = normalized_words(answer);
    contains_answer(&content, &target)
}

} // verus!
