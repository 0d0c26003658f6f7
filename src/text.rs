use vstd::prelude::*;
use vstd::std_specs::iter::IteratorSpec;
use vstd::string::*;

verus! {

broadcast use vstd::string::group_string_axioms;

/// `s` without one trailing carriage return.
pub open spec fn strip_cr(s: Seq<char>) -> Seq<char> {
    if s.len() > 0 && s.last() == '\r' {
        s.drop_last()
    } else {
        s
    }
}

/// The lines of `rest`, when the line under way already holds `cur`.
pub open spec fn split_from(cur: Seq<char>, rest: Seq<char>) -> Seq<Seq<char>>
    decreases rest.len(),
{
    if rest.len() == 0 {
        if cur.len() == 0 {
            Seq::empty()
        } else {
            seq![cur]
        }
    } else if rest[0] == '\n' {
        seq![strip_cr(cur)] + split_from(Seq::empty(), rest.drop_first())
    } else {
        split_from(cur.push(rest[0]), rest.drop_first())
    }
}

/// The lines of `s`: pieces separated by `\n` or `\r\n`; a final line
/// ending is optional and yields no empty last line.
pub open spec fn lines_of(s: Seq<char>) -> Seq<Seq<char>> {
    split_from(Seq::empty(), s)
}

/// The character sequences of a sequence of strings.
pub open spec fn texts(v: Seq<String>) -> Seq<Seq<char>> {
    v.map_values(|s: String| s@)
}

/// Splits `text` into its lines.
pub fn split_lines(text: &str) -> (r: Vec<String>)
    ensures
        texts(r@) == lines_of(text@),
{
    let ghost s = text@;
    let mut out: Vec<String> = Vec::new();
    let mut it = text.chars();
    let mut start: usize = 0;
    let mut i: usize = 0;
    let mut prev: char = '\n';
    let n = text.unicode_len();
    assert(s.subrange(0, 0) =~= Seq::<char>::empty());
    assert(s.subrange(0, s.len() as int) =~= s);
    assert(texts(out@) =~= Seq::<Seq<char>>::empty());
    loop
        invariant
            s == text@,
            n == s.len(),
            start <= i <= s.len(),
            it.remaining() == s.subrange(i as int, s.len() as int),
            start < i ==> prev == s[i - 1],
            texts(out@) + split_from(s.subrange(start as int, i as int), s.subrange(i as int, s.len() as int))
                == lines_of(s),
        ensures
            start <= i == s.len(),
            texts(out@) + split_from(s.subrange(start as int, i as int), Seq::empty()) == lines_of(s),
        decreases s.len() - i,
    {
        let ghost rest = s.subrange(i as int, s.len() as int);
        let ghost cur = s.subrange(start as int, i as int);
        match it.next() {
            Some(c) => {
                assert(rest.drop_first() =~= s.subrange(i + 1, s.len() as int));
                if c == '\n' {
                    let end = if start < i && prev == '\r' {
                        i - 1
                    } else {
                        i
                    };
                    let line = text.substring_char(start, end).to_owned();
                    assert(line@ =~= strip_cr(cur));
                    let ghost done = out@;
                    out.push(line);
                    assert(texts(out@) =~= texts(done).push(strip_cr(cur)));
                    assert(texts(done) + split_from(cur, rest) =~= texts(out@) + split_from(
                        Seq::empty(),
                        rest.drop_first(),
                    ));
                    start = i + 1;
                    assert(s.subrange(start as int, start as int) =~= Seq::<char>::empty());
                } else {
                    assert(cur.push(c) =~= s.subrange(start as int, i + 1));
                }
                prev = c;
                i = i + 1;
            },
            None => {
                assert(rest =~= Seq::<char>::empty());
                break ;
            },
        }
    }
    let ghost done = out@;
    if start < i {
        let line = text.substring_char(start, i).to_owned();
        out.push(line);
        assert(texts(out@) =~= texts(done) + split_from(s.subrange(start as int, i as int), Seq::empty()));
    } else {
        assert(texts(done) =~= texts(done) + split_from(s.subrange(start as int, i as int), Seq::empty()));
    }
    out
}

} // verus!
