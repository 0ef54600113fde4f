//! Splitting captured text into the lines of the output log.
use vstd::prelude::*;
use crate::numtext::push_char;
use vstd::std_specs::iter::IteratorSpec;

verus! {

/// The pieces of `s` between line feeds, in order; the last piece is what
/// follows the final line feed (empty when `s` ends with one).
pub open spec fn split_lf(s: Seq<char>) -> Seq<Seq<char>>
    decreases s.len(),
{
    if s.len() == 0 {
        seq![Seq::<char>::empty()]
    } else {
        let prev = split_lf(s.drop_last());
        if s.last() == '\n' {
            prev.push(Seq::<char>::empty())
        } else {
            prev.update(prev.len() - 1, prev.last().push(s.last()))
        }
    }
}

/// A line that ended in `"\r\n"` loses its carriage return.
pub open spec fn strip_cr(l: Seq<char>) -> Seq<char> {
    if l.len() > 0 && l.last() == '\r' {
        l.drop_last()
    } else {
        l
    }
}

/// The lines of `s`: split at `'\n'`, a `'\r'` before a `'\n'` dropped, and
/// no empty line after a final line feed. The empty text has no lines.
pub open spec fn lines_of(s: Seq<char>) -> Seq<Seq<char>> {
    let p = split_lf(s);
    let done = p.drop_last().map_values(|l: Seq<char>| strip_cr(l));
    if p.last().len() == 0 {
        done
    } else {
        done.push(p.last())
    }
}

/// The character sequences held by a sequence of strings.
pub open spec fn texts(v: Seq<String>) -> Seq<Seq<char>> {
    v.map_values(|s: String| s@)
}

pub proof fn lemma_split_lf_nonempty(s: Seq<char>)
    ensures
        split_lf(s).len() >= 1,
    decreases s.len(),
{
    if s.len() > 0 {
        lemma_split_lf_nonempty(s.drop_last());
    }
}

/// The text of a line being read, with a carriage return that may still
/// turn out to end it held back.
pub open spec fn held(line: Seq<char>, pending_cr: bool) -> Seq<char> {
    if pending_cr {
        line.push('\r')
    } else {
        line
    }
}

/// Appends the lines of `text` to `buf`, in order. One pass over the
/// characters.
pub fn push_lines(buf: &mut Vec<String>, text: &str)
    ensures
        texts(final(buf)@) == texts(old(buf)@) + lines_of(text@),
{
    let ghost s = text@;
    let ghost base = texts(buf@);
    let n = text.unicode_len();
    let mut it = text.chars();
    let mut line = String::new();
    let mut pending_cr = false;
    let mut i: usize = 0;
    let ghost mut start: int = 0;
    proof {
        assert(s.subrange(0, 0) =~= Seq::<char>::empty());
        assert(s.subrange(0, n as int) =~= s);
        assert(texts(buf@) =~= base + split_lf(s.subrange(0, 0)).drop_last().map_values(
            |l: Seq<char>| strip_cr(l),
        ));
        assert(line@ =~= s.subrange(0, 0));
    }
    while i < n
        invariant
            n == s.len(),
            s == text@,
            0 <= start <= i <= n,
            it.remaining() == s.subrange(i as int, n as int),
            held(line@, pending_cr) == s.subrange(start, i as int),
            !pending_cr ==> line@.len() == 0 || line@.last() != '\r',
            texts(buf@) == base + split_lf(s.subrange(0, i as int)).drop_last().map_values(
                |l: Seq<char>| strip_cr(l),
            ),
            split_lf(s.subrange(0, i as int)).last() == s.subrange(start, i as int),
        decreases n - i,
    {
        let ghost pre = s.subrange(0, i as int);
        let ghost cur = s.subrange(0, i as int + 1);
        let ghost old_buf = buf@;
        let ghost old_line = held(line@, pending_cr);
        let ghost pending_cr_before = pending_cr;
        proof {
            assert(cur.drop_last() =~= pre);
            lemma_split_lf_nonempty(pre);
        }
        let c = it.next().unwrap();
        proof {
            assert(c == s[i as int]);
            assert(it.remaining() =~= s.subrange(i as int + 1, n as int));
        }
        if c == '\n' {
            let done = line;
            line = String::new();
            pending_cr = false;
            buf.push(done);
            proof {
                let p = split_lf(pre);
                assert(split_lf(cur) == p.push(Seq::<char>::empty()));
                assert(split_lf(cur).drop_last() =~= p);
                if pending_cr_before {
                    assert(old_line.drop_last() =~= done@);
                } else {
                    assert(strip_cr(old_line) == done@);
                }
                assert(p =~= p.drop_last().push(p.last()));
                assert(p.map_values(|l: Seq<char>| strip_cr(l)) =~= p.drop_last().map_values(
                    |l: Seq<char>| strip_cr(l),
                ).push(strip_cr(p.last())));
                assert(texts(buf@) =~= texts(old_buf).push(done@));
                assert(s.subrange(i as int + 1, i as int + 1) =~= Seq::<char>::empty());
                assert(line@ =~= Seq::<char>::empty());
                start = i + 1;
            }
        } else {
            if pending_cr {
                push_char(&mut line, '\r');
            }
            if c == '\r' {
                pending_cr = true;
            } else {
                pending_cr = false;
                push_char(&mut line, c);
            }
            proof {
                let p = split_lf(pre);
                let q = p.update(p.len() - 1, p.last().push(c));
                assert(split_lf(cur) == q);
                assert(q.drop_last() =~= p.drop_last());
                assert(s.subrange(start, i as int + 1) =~= s.subrange(start, i as int).push(c));
                assert(held(line@, pending_cr) =~= old_line.push(c));
            }
        }
        i = i + 1;
    }
    proof {
        assert(s.subrange(0, n as int) =~= s);
    }
    if pending_cr {
        push_char(&mut line, '\r');
    }
    if !line.as_str().is_empty() {
        let ghost old_buf = buf@;
        buf.push(line);
        proof {
            assert(texts(buf@) =~= texts(old_buf).push(line@));
        }
    } else {
        proof {
            assert(s.subrange(start, n as int) =~= Seq::<char>::empty());
        }
    }
}

} // verus!
