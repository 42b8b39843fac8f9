//! Splitting display text into plain and emphasised runs.

use vstd::prelude::*;
use vstd::std_specs::iter::IteratorSpec;

verus! {

/// The marker that switches emphasis on and off inside a text.
pub open spec fn is_marker(c: char) -> bool {
    c == '*'
}

/// Position of the first marker in `s`, or `s.len()` when there is none.
pub open spec fn first_marker(s: Seq<char>) -> int
    decreases s.len(),
{
    if s.len() == 0 || is_marker(s[0]) {
        0
    } else {
        1 + first_marker(s.drop_first())
    }
}

/// The runs of `s` between markers, in order, without the empty ones.
pub open spec fn runs(s: Seq<char>) -> Seq<Seq<char>>
    decreases s.len(),
    via runs_decreases
{
    let k = first_marker(s);
    let rest = if k < s.len() {
        runs(s.subrange(k + 1, s.len() as int))
    } else {
        Seq::empty()
    };
    if k == 0 {
        rest
    } else {
        seq![s.subrange(0, k)] + rest
    }
}

#[via_fn]
proof fn runs_decreases(s: Seq<char>) {
    lemma_first_marker_bounds(s);
}

/// `first_marker` points inside `s` or just past it, at a marker if inside,
/// and nothing before it is a marker.
pub proof fn lemma_first_marker_bounds(s: Seq<char>)
    ensures
        0 <= first_marker(s) <= s.len(),
        first_marker(s) < s.len() ==> is_marker(s[first_marker(s)]),
        forall|i: int| 0 <= i < first_marker(s) ==> !is_marker(#[trigger] s[i]),
    decreases s.len(),
{
    if s.len() == 0 || is_marker(s[0]) {
    } else {
        let t = s.drop_first();
        lemma_first_marker_bounds(t);
        assert forall|i: int| 0 <= i < first_marker(s) implies !is_marker(#[trigger] s[i]) by {
            if i > 0 {
                assert(s[i] == t[i - 1]);
            }
        }
    }
}

/// With no marker in `head`, the first marker of `head + tail` is the first
/// marker of `tail`, moved by the length of `head`.
pub proof fn lemma_first_marker_skips(head: Seq<char>, tail: Seq<char>)
    requires
        forall|i: int| 0 <= i < head.len() ==> !is_marker(#[trigger] head[i]),
    ensures
        first_marker(head + tail) == head.len() + first_marker(tail),
    decreases head.len(),
{
    if head.len() == 0 {
        assert(head + tail =~= tail);
    } else {
        let whole = head + tail;
        assert(whole[0] == head[0]);
        assert(whole.drop_first() =~= head.drop_first() + tail);
        assert forall|i: int| 0 <= i < head.drop_first().len() implies !is_marker(
            #[trigger] head.drop_first()[i],
        ) by {
            assert(head.drop_first()[i] == head[i + 1]);
        }
        lemma_first_marker_skips(head.drop_first(), tail);
    }
}

/// `s` without its markers.
pub open spec fn letters(s: Seq<char>) -> Seq<char>
    decreases s.len(),
{
    if s.len() == 0 {
        s
    } else if is_marker(s[0]) {
        letters(s.drop_first())
    } else {
        seq![s[0]] + letters(s.drop_first())
    }
}

/// The pieces put together, one after the other.
pub open spec fn joined(pieces: Seq<Seq<char>>) -> Seq<char>
    decreases pieces.len(),
{
    if pieces.len() == 0 {
        Seq::empty()
    } else {
        pieces[0] + joined(pieces.drop_first())
    }
}

/// No run is empty and no run holds a marker.
pub proof fn lemma_runs_are_plain(s: Seq<char>)
    ensures
        forall|i: int|
            0 <= i < runs(s).len() ==> {
                &&& (#[trigger] runs(s)[i]).len() > 0
                &&& forall|j: int| 0 <= j < runs(s)[i].len() ==> !is_marker(runs(s)[i][j])
            },
    decreases s.len(),
{
    lemma_first_marker_bounds(s);
    let k = first_marker(s);
    let head = s.subrange(0, k);
    let rest = if k < s.len() {
        runs(s.subrange(k + 1, s.len() as int))
    } else {
        Seq::empty()
    };
    if k < s.len() {
        lemma_runs_are_plain(s.subrange(k + 1, s.len() as int));
    }
    assert forall|i: int| 0 <= i < runs(s).len() implies {
        &&& (#[trigger] runs(s)[i]).len() > 0
        &&& forall|j: int| 0 <= j < runs(s)[i].len() ==> !is_marker(runs(s)[i][j])
    } by {
        if k > 0 {
            if i == 0 {
                assert(runs(s)[0] == head);
                assert forall|j: int| 0 <= j < head.len() implies !is_marker(head[j]) by {
                    assert(head[j] == s[j]);
                }
            } else {
                assert(runs(s)[i] == rest[i - 1]);
            }
        }
    }
}

/// A text that holds letters and no marker is its own single run.
pub proof fn lemma_runs_of_plain_text(s: Seq<char>)
    requires
        s.len() > 0,
        forall|i: int| 0 <= i < s.len() ==> !is_marker(#[trigger] s[i]),
    ensures
        runs(s) == seq![s],
{
    lemma_first_marker_bounds(s);
    assert(first_marker(s) == s.len());
    assert(s.subrange(0, s.len() as int) =~= s);
    assert(seq![s] + Seq::<Seq<char>>::empty() =~= seq![s]);
}

proof fn lemma_letters_after_plain(head: Seq<char>, tail: Seq<char>)
    requires
        forall|i: int| 0 <= i < head.len() ==> !is_marker(#[trigger] head[i]),
    ensures
        letters(head + tail) == head + letters(tail),
    decreases head.len(),
{
    if head.len() == 0 {
        assert(head + tail =~= tail);
        assert(head + letters(tail) =~= letters(tail));
    } else {
        let whole = head + tail;
        assert(whole[0] == head[0]);
        assert(whole.drop_first() =~= head.drop_first() + tail);
        assert forall|i: int| 0 <= i < head.drop_first().len() implies !is_marker(
            #[trigger] head.drop_first()[i],
        ) by {
            assert(head.drop_first()[i] == head[i + 1]);
        }
        lemma_letters_after_plain(head.drop_first(), tail);
        assert(seq![head[0]] + (head.drop_first() + letters(tail)) =~= head + letters(tail));
    }
}

/// Nothing but the markers is lost: the runs put together are the text
/// without its markers.
pub proof fn lemma_runs_keep_the_letters(s: Seq<char>)
    ensures
        joined(runs(s)) == letters(s),
    decreases s.len(),
{
    lemma_first_marker_bounds(s);
    let k = first_marker(s);
    let head = s.subrange(0, k);
    if k < s.len() {
        let rest = s.subrange(k + 1, s.len() as int);
        let tail = s.subrange(k, s.len() as int);
        lemma_runs_keep_the_letters(rest);
        assert(s =~= head + tail);
        lemma_letters_after_plain(head, tail);
        assert(tail[0] == s[k]);
        assert(tail.drop_first() =~= rest);
        assert(letters(tail) == letters(rest));
        if k == 0 {
            assert(head + letters(rest) =~= letters(rest));
            assert(runs(s) == runs(rest));
        } else {
            let all = seq![head] + runs(rest);
            assert(runs(s) == all);
            assert(all[0] == head);
            assert(all.drop_first() =~= runs(rest));
            assert(joined(all) == head + joined(runs(rest)));
        }
    } else {
        assert(s =~= head + Seq::<char>::empty());
        lemma_letters_after_plain(head, Seq::empty());
        assert(letters(Seq::<char>::empty()) =~= Seq::<char>::empty());
        if k > 0 {
            let all = seq![head] + Seq::<Seq<char>>::empty();
            assert(runs(s) == all);
            assert(all[0] == head);
            assert(all.drop_first() =~= Seq::<Seq<char>>::empty());
            assert(joined(all.drop_first()) =~= Seq::<char>::empty());
            assert(joined(all) == head + Seq::<char>::empty());
        } else {
            assert(runs(s) =~= Seq::<Seq<char>>::empty());
        }
    }
}

/// The texts that a vector of strings holds.
pub open spec fn texts(v: Seq<String>) -> Seq<Seq<char>> {
    Seq::new(v.len(), |i: int| v[i]@)
}

/// `String::push` appends one character to the end of the string.
pub assume_specification[ String::push ](s: &mut String, c: char)
    ensures
        final(s)@ == old(s)@.push(c),
;

/// Cuts `input` at every `*` and returns the pieces in order, leaving out
/// the empty ones. In a text that marks emphasis with asterisks the pieces
/// alternate between plain and emphasised.
pub fn process_string_asterisks(input: &str) -> (result: Vec<String>)
    ensures
        texts(result@) == runs(input@),
{
    broadcast use vstd::string::group_string_axioms;

    let mut result: Vec<String> = Vec::new();
    let mut current_string = String::new();
    let mut chars = input.chars();
    let ghost mut rest: Seq<char> = input@;
    assert(texts(result@) =~= Seq::<Seq<char>>::empty());
    assert(current_string@ + rest =~= input@);
    loop
        invariant
            rest == chars.remaining(),
            forall|i: int|
                0 <= i < current_string@.len() ==> !is_marker(#[trigger] current_string@[i]),
            runs(input@) == texts(result@) + runs(current_string@ + rest),
        ensures
            rest.len() == 0,
            forall|i: int|
                0 <= i < current_string@.len() ==> !is_marker(#[trigger] current_string@[i]),
            runs(input@) == texts(result@) + runs(current_string@ + rest),
        decreases rest.len(),
    {
        let ghost before = current_string@;
        let ghost done = texts(result@);
        proof {
            lemma_first_marker_skips(before, rest);
            lemma_first_marker_bounds(rest);
        }
        match chars.next() {
            None => {
                break ;
            },
            Some(c) => {
                if c == '*' {
                    proof {
                        let whole = before + rest;
                        assert(whole.subrange(0, before.len() as int) =~= before);
                        assert(whole.subrange(before.len() as int + 1, whole.len() as int)
                            =~= rest.drop_first());
                        assert(Seq::<char>::empty() + rest.drop_first() =~= rest.drop_first());
                    }
                    if !current_string.as_str().is_empty() {
                        result.push(current_string);
                        current_string = String::new();
                        assert(texts(result@) =~= done + seq![before]);
                    }
                } else {
                    current_string.push(c);
                    assert(current_string@ + rest.drop_first() =~= before + rest);
                }
                proof {
                    rest = rest.drop_first();
                }
            },
        }
    }
    proof {
        let last = current_string@;
        assert(last + rest =~= last);
        lemma_first_marker_skips(last, Seq::empty());
        assert(last + Seq::<char>::empty() =~= last);
        assert(last.subrange(0, last.len() as int) =~= last);
    }
    let ghost done = texts(result@);
    if !current_string.as_str().is_empty() {
        let ghost last = current_string@;
        result.push(current_string);
        assert(texts(result@) =~= done + seq![last]);
    }
    result
}

} // verus!
