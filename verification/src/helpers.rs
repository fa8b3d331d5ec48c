use vstd::prelude::*;
use vstd::string::*;

verus! {

/// The tokenizer's state after reading a prefix of the input: the words
/// already flushed, the word being built, and whether a quote is open.
pub struct SplitState {
    pub words: Seq<Seq<char>>,
    pub current: Seq<char>,
    pub in_quotes: bool,
}

/// One step of the tokenizer.  A quote toggles quote mode, flushing the
/// pending word when it closes; a space outside quotes flushes the
/// pending word; every other character (and a space inside quotes is
/// dropped, not kept) extends the pending word.
pub open spec fn split_step(st: SplitState, c: char) -> SplitState {
    if c == '"' {
        if st.in_quotes && st.current.len() > 0 {
            SplitState { words: st.words.push(st.current), current: Seq::empty(), in_quotes: false }
        } else {
            SplitState { words: st.words, current: st.current, in_quotes: !st.in_quotes }
        }
    } else if c == ' ' {
        if !st.in_quotes && st.current.len() > 0 {
            SplitState { words: st.words.push(st.current), current: Seq::empty(), in_quotes: false }
        } else {
            st
        }
    } else {
        SplitState { words: st.words, current: st.current.push(c), in_quotes: st.in_quotes }
    }
}

/// The tokenizer's starting state.
pub open spec fn split_start() -> SplitState {
    SplitState { words: Seq::empty(), current: Seq::empty(), in_quotes: false }
}

/// The tokenizer's state after reading all of `s`.
pub open spec fn split_run(s: Seq<char>) -> SplitState
    decreases s.len(),
{
    if s.len() == 0 {
        split_start()
    } else {
        split_step(split_run(s.drop_last()), s.last())
    }
}

/// What `split_with_quotes` returns: the first token and the rest, after
/// flushing any pending word at the end of the input.
pub open spec fn spec_split_with_quotes(s: Seq<char>) -> (Seq<char>, Seq<Seq<char>>) {
    let st = split_run(s);
    let all = if st.current.len() > 0 {
        st.words.push(st.current)
    } else {
        st.words
    };
    if all.len() == 0 {
        (Seq::<char>::empty(), Seq::<Seq<char>>::empty())
    } else {
        (all.first(), all.drop_first())
    }
}

/// Relies on String's FromIterator collect over chars: builds the string
/// holding exactly the given characters.
#[verifier::external_body]
fn chars_to_string(v: &Vec<char>) -> (r: String)
    ensures
        r@ == v@,
{
    v.iter().collect()
}

/// Split a command line into its first word and the remaining words,
/// honouring double quotes: a quoted stretch is glued into the
/// surrounding word with the quotes removed (spaces inside quotes are
/// dropped, not kept).
pub fn split_with_quotes(input: String) -> (r: (String, Vec<String>))
    ensures
        r.0@ == spec_split_with_quotes(input@).0,
        r.1@.map_values(|w: String| w@) == spec_split_with_quotes(input@).1,
{
    let s = input.as_str();
    let n = s.unicode_len();
    let mut words: Vec<String> = Vec::new();
    let mut current: Vec<char> = Vec::new();
    let mut in_quotes = false;
    let mut i: usize = 0;
    while i < n
        invariant
            i <= n,
            n == input@.len(),
            s@ == input@,
            words@.map_values(|w: String| w@) == split_run(input@.take(i as int)).words,
            current@ == split_run(input@.take(i as int)).current,
            in_quotes == split_run(input@.take(i as int)).in_quotes,
        decreases n - i,
    {
        proof {
            let pre = input@.take(i as int);
            let cur = input@.take(i as int + 1);
            assert(cur.drop_last() =~= pre);
            assert(cur.last() == input@[i as int]);
        }
        let c = s.get_char(i);
        if c == '"' {
            if in_quotes && current.len() > 0 {
                let ghost prev = words@;
                let w = chars_to_string(&current);
                words.push(w);
                proof {
                    assert(words@.map_values(|x: String| x@) =~= prev.map_values(
                        |x: String| x@,
                    ).push(w@));
                }
                current = Vec::new();
                in_quotes = false;
            } else {
                in_quotes = !in_quotes;
            }
        } else if c == ' ' {
            if !in_quotes && current.len() > 0 {
                let ghost prev = words@;
                let w = chars_to_string(&current);
                words.push(w);
                proof {
                    assert(words@.map_values(|x: String| x@) =~= prev.map_values(
                        |x: String| x@,
                    ).push(w@));
                }
                current = Vec::new();
            }
        } else {
            current.push(c);
        }
        i += 1;
    }
    proof {
        assert(input@.take(n as int) =~= input@);
    }
    if current.len() > 0 {
        let ghost prev = words@;
        let w = chars_to_string(&current);
        words.push(w);
        proof {
            assert(words@.map_values(|x: String| x@) =~= prev.map_values(|x: String| x@).push(w@));
        }
    }
    if words.len() == 0 {
        proof {
            assert(Seq::<String>::empty().map_values(|w: String| w@) =~= Seq::<
                Seq<char>,
            >::empty());
        }
        (String::new(), Vec::new())
    } else {
        let ghost all = words@.map_values(|w: String| w@);
        let first = words.remove(0);
        proof {
            assert(words@.map_values(|w: String| w@) =~= all.drop_first());
        }
        (first, words)
    }
}

} // verus!
