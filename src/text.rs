use vstd::prelude::*;
use vstd::std_specs::iter::IteratorSpec;

verus! {

broadcast use vstd::string::axiom_spec_iter, vstd::string::next_postcondition;

/// The characters of `s`, in order.
pub fn chars_of(s: &str) -> (r: Vec<char>)
    ensures
        r@ == s@,
{
    let mut out: Vec<char> = Vec::new();
    let mut it = s.chars();
    loop
        invariant
            it.obeys_prophetic_iter_laws(),
            it.remaining() == s@.skip(out@.len() as int),
            out@ == s@.take(out@.len() as int),
            out@.len() <= s@.len(),
        decreases s@.len() - out@.len(),
    {
        match it.next() {
            Some(c) => {
                proof {
                    assert(s@.skip(out@.len() as int)[0] == s@[out@.len() as int]);
                }
                out.push(c);
                assert(out@ =~= s@.take(out@.len() as int));
                assert(s@.skip(out@.len() as int) =~= s@.skip(out@.len() - 1).drop_first());
            }
            None => {
                assert(out@ =~= s@);
                return out;
            }
        }
    }
}

/// Relies on `String::push`: appends one character at the end.
#[verifier::external_body]
fn push_char(s: &mut String, c: char)
    ensures
        final(s)@ == old(s)@.push(c),
{
    s.push(c);
}

/// The string made of the characters of `v`, in order.
pub fn string_of(v: &Vec<char>) -> (r: String)
    ensures
        r@ == v@,
{
    let mut out = String::new();
    let mut i: usize = 0;
    while i < v.len()
        invariant
            i <= v@.len(),
            out@ == v@.take(i as int),
        decreases v@.len() - i,
    {
        push_char(&mut out, v[i]);
        i = i + 1;
        assert(out@ =~= v@.take(i as int));
    }
    assert(v@.take(v@.len() as int) =~= v@);
    out
}

/// Whether `c` has Unicode's `White_Space` property: the characters that
/// regex's `\s` matches.
pub open spec fn is_white_space(c: char) -> bool {
    ||| ('\t' <= c && c <= '\r')
    ||| c == ' '
    ||| c == '\u{85}'
    ||| c == '\u{a0}'
    ||| c == '\u{1680}'
    ||| ('\u{2000}' <= c && c <= '\u{200a}')
    ||| c == '\u{2028}'
    ||| c == '\u{2029}'
    ||| c == '\u{202f}'
    ||| c == '\u{205f}'
    ||| c == '\u{3000}'
}

/// `s` without its leading whitespace.
pub open spec fn trim_start(s: Seq<char>) -> Seq<char>
    decreases s.len(),
{
    if s.len() > 0 && is_white_space(s[0]) {
        trim_start(s.drop_first())
    } else {
        s
    }
}

/// `s` without its trailing whitespace.
pub open spec fn trim_end(s: Seq<char>) -> Seq<char>
    decreases s.len(),
{
    if s.len() > 0 && is_white_space(s.last()) {
        trim_end(s.drop_last())
    } else {
        s
    }
}

/// `s` without its leading and trailing whitespace.
pub open spec fn spaces_trimmed(s: Seq<char>) -> Seq<char> {
    trim_end(trim_start(s))
}

/// Relies on `regex::Regex::new` and `Regex::replace_all`, with the pattern
/// `^\s+|\s+$` and an empty replacement: `\s` matches the `White_Space`
/// characters, the first branch the leading run of them and the second the
/// trailing run, so both runs are removed and nothing else.
#[verifier::external_body]
pub fn trim_spaces(s: &str) -> (r: String)
    ensures
        r@ == spaces_trimmed(s@),
{
    let re = regex::Regex::new(r"^\s+|\s+$").unwrap();
    re.replace_all(s, "").to_string()
}

/// The words of `s` as splitting at every space gives them: empty words
/// included, and always at least one.
pub open spec fn words(s: Seq<char>) -> Seq<Seq<char>>
    decreases s.len(),
{
    if s.len() == 0 {
        seq![Seq::<char>::empty()]
    } else {
        let w = words(s.drop_last());
        if s.last() == ' ' {
            w.push(Seq::<char>::empty())
        } else {
            w.drop_last().push(w.last().push(s.last()))
        }
    }
}

/// Bytes that `c` takes in UTF-8.
pub open spec fn utf8_len(c: char) -> nat {
    if (c as u32) < 0x80 {
        1
    } else if (c as u32) < 0x800 {
        2
    } else if (c as u32) < 0x10000 {
        3
    } else {
        4
    }
}

/// Bytes that `w` takes in UTF-8.
pub open spec fn byte_len(w: Seq<char>) -> nat
    decreases w.len(),
{
    if w.len() == 0 {
        0
    } else {
        byte_len(w.drop_last()) + utf8_len(w.last())
    }
}

/// Lines finished, the line being filled, and its length in bytes, after the
/// words `ws` were laid out against a width of `max` bytes. A word that would
/// overflow the line ends it and is itself left out.
pub open spec fn wrap(ws: Seq<Seq<char>>, max: nat) -> (Seq<Seq<char>>, Seq<char>, nat)
    decreases ws.len(),
{
    if ws.len() == 0 {
        (Seq::empty(), Seq::empty(), 0)
    } else {
        let (lines, content, cur) = wrap(ws.drop_last(), max);
        let w = ws.last();
        if cur + byte_len(w) > max {
            (lines.push(spaces_trimmed(content)), Seq::empty(), 0)
        } else {
            (lines, content + w.push(' '), cur + byte_len(w))
        }
    }
}

proof fn lemma_wrap_bound(ws: Seq<Seq<char>>, max: nat)
    ensures
        wrap(ws, max).2 <= max,
    decreases ws.len(),
{
    if ws.len() > 0 {
        lemma_wrap_bound(ws.drop_last(), max);
    }
}

fn utf8_len_of(c: char) -> (r: u128)
    ensures
        r == utf8_len(c),
{
    let v = c as u32;
    if v < 0x80 {
        1
    } else if v < 0x800 {
        2
    } else if v < 0x10000 {
        3
    } else {
        4
    }
}

/// Lays out one more word, as `wrap` does.
fn wrap_word(
    lines: &mut Vec<String>,
    content: &mut Vec<char>,
    cur: &mut usize,
    word: &Vec<char>,
    wl: u128,
    max_length: usize,
    Ghost(done): Ghost<Seq<Seq<char>>>,
)
    requires
        wl == byte_len(word@),
        wl <= 4 * (usize::MAX as int),
        lines_of(old(lines)@) == wrap(done, max_length as nat).0,
        old(content)@ == wrap(done, max_length as nat).1,
        *old(cur) == wrap(done, max_length as nat).2,
    ensures
        lines_of(final(lines)@) == wrap(done.push(word@), max_length as nat).0,
        final(content)@ == wrap(done.push(word@), max_length as nat).1,
        *final(cur) == wrap(done.push(word@), max_length as nat).2,
{
    proof {
        lemma_wrap_bound(done, max_length as nat);
        assert(done.push(word@).drop_last() =~= done);
    }
    if (*cur as u128) + wl > max_length as u128 {
        let line = trim_spaces(string_of(content).as_str());
        lines.push(line);
        *content = Vec::new();
        *cur = 0;
        assert(lines_of(lines@) =~= lines_of(old(lines)@).push(line@));
    } else {
        let mut k: usize = 0;
        let ghost start = content@;
        while k < word.len()
            invariant
                k <= word@.len(),
                content@ == start + word@.take(k as int),
            decreases word@.len() - k,
        {
            content.push(word[k]);
            k = k + 1;
            assert(content@ =~= start + word@.take(k as int));
        }
        content.push(' ');
        assert(content@ =~= start + word@.push(' '));
        *cur = *cur + wl as usize;
    }
}

/// The text of each line.
pub open spec fn lines_of(ls: Seq<String>) -> Seq<Seq<char>> {
    ls.map_values(|l: String| l@)
}

/// Breaks `s` at spaces into lines of at most `max_length` bytes of words.
/// Known limits of this layout: a word that would overflow a line ends that
/// line and is itself dropped, and the line still being filled when the text
/// ends is not returned, so a text that fits in one line gives no line.
pub fn into_lines(s: &str, max_length: usize) -> (r: Vec<String>)
    ensures
        lines_of(r@) == wrap(words(s@), max_length as nat).0,
{
    let chars = chars_of(s);
    let mut lines: Vec<String> = Vec::new();
    let mut content: Vec<char> = Vec::new();
    let mut cur: usize = 0;
    let mut word: Vec<char> = Vec::new();
    let mut wl: u128 = 0;
    let ghost mut done: Seq<Seq<char>> = Seq::empty();
    let mut i: usize = 0;
    assert(lines_of(lines@) =~= Seq::<Seq<char>>::empty());
    assert(chars@.take(0) =~= Seq::<char>::empty());
    assert(words(Seq::<char>::empty()) =~= done.push(word@));
    while i < chars.len()
        invariant
            i <= chars@.len(),
            chars@ == s@,
            words(chars@.take(i as int)) == done.push(word@),
            wl == byte_len(word@),
            wl <= 4 * word@.len(),
            word@.len() <= i,
            lines_of(lines@) == wrap(done, max_length as nat).0,
            content@ == wrap(done, max_length as nat).1,
            cur == wrap(done, max_length as nat).2,
        decreases chars@.len() - i,
    {
        let c = chars[i];
        proof {
            assert(chars@.take(i + 1).drop_last() =~= chars@.take(i as int));
            assert(chars@.take(i + 1).last() == c);
        }
        if c == ' ' {
            wrap_word(&mut lines, &mut content, &mut cur, &word, wl, max_length, Ghost(done));
            proof {
                done = done.push(word@);
            }
            word = Vec::new();
            wl = 0;
        } else {
            let ghost before = word@;
            word.push(c);
            wl = wl + utf8_len_of(c);
            proof {
                assert(word@.drop_last() =~= before);
                assert(done.push(before).drop_last().push(before.push(c)) =~= done.push(word@));
            }
        }
        i = i + 1;
    }
    assert(chars@.take(chars@.len() as int) =~= chars@);
    wrap_word(&mut lines, &mut content, &mut cur, &word, wl, max_length, Ghost(done));
    lines
}

} // verus!
