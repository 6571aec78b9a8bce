use vstd::prelude::*;

use crate::error::InitError;

verus! {

/// ASCII whitespace as the kernel command line is split at it:
/// space, tab, line feed, form feed and carriage return.
pub open spec fn is_ascii_ws(c: char) -> bool {
    c == ' ' || c == '\t' || c == '\n' || c == '\x0C' || c == '\r'
}

/// Splitting at ASCII whitespace, left to right: the words finished so far,
/// and the word in progress (empty between words).
pub open spec fn scan(s: Seq<char>) -> (Seq<Seq<char>>, Seq<char>)
    decreases s.len(),
{
    if s.len() == 0 {
        (Seq::empty(), Seq::empty())
    } else {
        let (ws, cur) = scan(s.drop_last());
        let c = s.last();
        if is_ascii_ws(c) {
            if cur.len() > 0 {
                (ws.push(cur), Seq::empty())
            } else {
                (ws, Seq::empty())
            }
        } else {
            (ws, cur.push(c))
        }
    }
}

/// The non-empty words of `s`, separated by ASCII whitespace, in order.
pub open spec fn words(s: Seq<char>) -> Seq<Seq<char>> {
    let (ws, cur) = scan(s);
    if cur.len() > 0 {
        ws.push(cur)
    } else {
        ws
    }
}

pub open spec fn init_key() -> Seq<char> {
    seq!['i', 'n', 'i', 't', '=']
}

/// A word that sets the `init` parameter.
pub open spec fn is_init_word(w: Seq<char>) -> bool {
    w.len() >= 5 && w.subrange(0, 5) == init_key()
}

/// The values of the `init=` words of `ws`, in order.
pub open spec fn init_values(ws: Seq<Seq<char>>) -> Seq<Seq<char>>
    decreases ws.len(),
{
    if ws.len() == 0 {
        Seq::empty()
    } else {
        let rest = init_values(ws.drop_last());
        let w = ws.last();
        if is_init_word(w) {
            rest.push(w.subrange(5, w.len() as int))
        } else {
            rest
        }
    }
}

/// The `init=` values of a kernel command line.
pub open spec fn cmdline_inits(cmdline: Seq<char>) -> Seq<Seq<char>> {
    init_values(words(cmdline))
}

pub fn is_ascii_whitespace(c: char) -> (r: bool)
    ensures
        r == is_ascii_ws(c),
{
    c == ' ' || c == '\t' || c == '\n' || c == '\x0C' || c == '\r'
}

/// Whether the characters `start .. end` of `s` form an `init=` word.
fn is_init_at(s: &str, start: usize, end: usize) -> (r: bool)
    requires
        start <= end <= s@.len(),
    ensures
        r == is_init_word(s@.subrange(start as int, end as int)),
{
    if end - start < 5 {
        return false;
    }
    let r = s.get_char(start) == 'i' && s.get_char(start + 1) == 'n' && s.get_char(start + 2) == 'i'
        && s.get_char(start + 3) == 't' && s.get_char(start + 4) == '=';
    assert(r == (s@.subrange(start as int, end as int).subrange(0, 5) =~= init_key()));
    r
}

proof fn lemma_words_by_blank(s: Seq<char>)
    ensures
        scan(s.push(' ')).0 == words(s),
        scan(s.push(' ')).1.len() == 0,
{
    assert(s.push(' ').drop_last() =~= s);
}

proof fn lemma_init_values_push(ws: Seq<Seq<char>>, w: Seq<char>)
    ensures
        init_values(ws.push(w)) == if is_init_word(w) {
            init_values(ws).push(w.subrange(5, w.len() as int))
        } else {
            init_values(ws)
        },
{
    assert(ws.push(w).drop_last() =~= ws);
}

/// What the scan of the prefix `p` of `s` has found: whether a word is in
/// progress and where it started, how many `init=` words were finished (up to
/// two), and where the value of the first one lies.
spec fn scanned(
    p: Seq<char>,
    s: Seq<char>,
    start: usize,
    in_word: bool,
    count: usize,
    first_start: usize,
    first_end: usize,
) -> bool {
    let (ws, cur) = scan(p);
    &&& start <= p.len()
    &&& in_word == (cur.len() > 0)
    &&& in_word ==> p.len() <= s.len() && cur == s.subrange(start as int, p.len() as int)
    &&& count == (if init_values(ws).len() < 2 {
        init_values(ws).len()
    } else {
        2
    })
    &&& count >= 1 ==> first_start + 5 <= first_end <= s.len() && init_values(ws)[0] == s.subrange(
        first_start as int + 5,
        first_end as int,
    )
}

/// Extracts the value of the `init` parameter from a kernel command line.
///
/// The line is split at ASCII whitespace; the value is what follows `init=`
/// in the one word that starts so, unchanged. No such word, or more than one,
/// is an error that carries the line.
pub fn extract_init(cmdline: &str) -> (r: Result<String, InitError>)
    ensures
        r is Ok <==> cmdline_inits(cmdline@).len() == 1,
        r matches Ok(v) ==> v@ == cmdline_inits(cmdline@)[0],
        r matches Err(e) ==> (e matches InitError::MalformedBootParameters(l) && l@ == cmdline@),
{
    let ghost s = cmdline@;
    let ghost t = s.push(' ');
    let n = cmdline.unicode_len();
    let mut i: usize = 0;
    let mut start: usize = 0;
    let mut in_word = false;
    let mut count: usize = 0;
    let mut first_start: usize = 0;
    let mut first_end: usize = 0;
    loop
        invariant_except_break
            scanned(t.take(i as int), s, start, in_word, count, first_start, first_end),
        invariant
            n == s.len(),
            t == s.push(' '),
            s == cmdline@,
            i <= n,
        ensures
            scanned(t.take(n as int + 1), s, start, in_word, count, first_start, first_end),
        decreases n - i,
    {
        let c = if i < n {
            cmdline.get_char(i)
        } else {
            ' '
        };
        let ghost prev = scan(t.take(i as int));
        assert(t.take(i as int + 1).drop_last() =~= t.take(i as int));
        assert(c == t[i as int]);
        if is_ascii_whitespace(c) {
            if in_word {
                proof {
                    lemma_init_values_push(prev.0, prev.1);
                }
                if is_init_at(cmdline, start, i) {
                    assert(prev.1.subrange(5, prev.1.len() as int) =~= s.subrange(
                        start as int + 5,
                        i as int,
                    ));
                    if count == 0 {
                        first_start = start;
                        first_end = i;
                    }
                    if count < 2 {
                        count = count + 1;
                    }
                }
            }
            in_word = false;
        } else {
            if !in_word {
                start = i;
                in_word = true;
            }
            assert(scan(t.take(i as int + 1)).1 =~= s.subrange(start as int, i as int + 1));
        }
        assert(scanned(t.take(i as int + 1), s, start, in_word, count, first_start, first_end));
        if i == n {
            break;
        }
        i = i + 1;
    }
    assert(t.take(n as int + 1) =~= t);
    proof {
        lemma_words_by_blank(s);
    }
    if count == 1 {
        let v = cmdline.substring_char(first_start + 5, first_end);
        Ok(v.to_string())
    } else {
        Err(InitError::MalformedBootParameters(cmdline.to_string()))
    }
}

} // verus!
