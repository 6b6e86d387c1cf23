use vstd::prelude::*;

use crate::strmap::StrMap;
use crate::text::{
    chars_of, find_char, first_index, has_char, lemma_first_index, lemma_first_index_exists,
    split_once,
};
use crate::packet_laws::{lemma_no_char_concat, lemma_split_once_at};

verus! {

/// `s` without the `?` characters it starts with.
pub open spec fn trim_leading_question_marks(s: Seq<char>) -> Seq<char>
    decreases s.len(),
{
    if s.len() > 0 && s[0] == '?' {
        trim_leading_question_marks(s.skip(1))
    } else {
        s
    }
}

/// The key of a query entry: what follows the first `?` in it, if any.
pub open spec fn query_key(k: Seq<char>) -> Seq<char> {
    match split_once(k, '?') {
        Some((_, after)) => after,
        None => k,
    }
}

/// Adding a `key=value` segment; a segment without `=` adds nothing.
pub open spec fn add_query_entry(m: Map<Seq<char>, Seq<char>>, seg: Seq<char>) -> Map<
    Seq<char>,
    Seq<char>,
> {
    match split_once(seg, '=') {
        Some((k, v)) => m.insert(query_key(k), v),
        None => m,
    }
}

/// Adding the `&`-separated segments of `s`, left to right.
pub open spec fn add_query_segments(m: Map<Seq<char>, Seq<char>>, s: Seq<char>) -> Map<
    Seq<char>,
    Seq<char>,
>
    decreases s.len(),
{
    if has_char(s, '&') {
        proof {
            lemma_first_index_exists(s, '&');
        }
        let i = first_index(s, '&');
        add_query_segments(add_query_entry(m, s.take(i)), s.skip(i + 1))
    } else {
        add_query_entry(m, s)
    }
}

/// Adding the parameters of a raw query, which may start with `?`.
pub open spec fn add_raw_query(m: Map<Seq<char>, Seq<char>>, q: Seq<char>) -> Map<
    Seq<char>,
    Seq<char>,
> {
    add_query_segments(m, trim_leading_question_marks(q))
}

/// Query parameters.
pub type QueryMap = StrMap<String>;

impl StrMap<String> {
    /// Adds the `key=value` parameters of a raw query such as `?a=1&b=2`; the part of a key up
    /// to a `?` is dropped, segments without `=` are skipped and later values win.
    pub fn add_raw_query(&mut self, query: &str)
        ensures
            final(self)@ == add_raw_query(old(self)@, query@),
    {
        let cs = chars_of(query);
        let n = cs.len();
        let mut start: usize = 0;
        assert(cs@.skip(0) =~= cs@);
        while start < n && cs[start] == '?'
            invariant
                start <= n == cs@.len(),
                trim_leading_question_marks(cs@.skip(start as int))
                    == trim_leading_question_marks(cs@),
            decreases n - start,
        {
            assert(cs@.skip(start as int).skip(1) =~= cs@.skip(start + 1));
            start += 1;
        }
        let ghost target = add_raw_query(old(self)@, query@);
        assert(cs@.skip(start as int) =~= cs@.subrange(start as int, n as int));
        let mut pos = start;
        assert(trim_leading_question_marks(cs@.skip(start as int)) == cs@.skip(start as int));
        loop
            invariant_except_break
                pos <= n == cs@.len(),
                cs@ == query@,
                add_query_segments(self@, cs@.subrange(pos as int, n as int)) == target,
            ensures
                self@ == target,
            decreases n - pos,
        {
            let ghost rest = cs@.subrange(pos as int, n as int);
            match find_char(&cs, pos, n, '&') {
                Some(j) => {
                    proof {
                        lemma_first_index(rest, '&', j - pos);
                        assert(rest.take(j - pos) =~= cs@.subrange(pos as int, j as int));
                        assert(rest.skip(j - pos + 1) =~= cs@.subrange(j + 1, n as int));
                    }
                    self.add_segment(query, &cs, pos, j);
                    pos = j + 1;
                },
                None => {
                    self.add_segment(query, &cs, pos, n);
                    break;
                },
            }
        }
    }

    /// Adds the segment `from..to` of a raw query.
    fn add_segment(&mut self, query: &str, cs: &Vec<char>, from: usize, to: usize)
        requires
            cs@ == query@,
            from <= to <= cs@.len(),
        ensures
            final(self)@ == add_query_entry(old(self)@, cs@.subrange(from as int, to as int)),
    {
        let ghost seg = cs@.subrange(from as int, to as int);
        match find_char(cs, from, to, '=') {
            None => {},
            Some(eq) => {
                proof {
                    lemma_first_index(seg, '=', eq - from);
                }
                let ghost k = cs@.subrange(from as int, eq as int);
                assert(seg.take(eq - from) =~= k);
                assert(seg.skip(eq - from + 1) =~= cs@.subrange(eq + 1, to as int));
                let key_start = match find_char(cs, from, eq, '?') {
                    Some(q) => {
                        proof {
                            lemma_first_index(k, '?', q - from);
                            assert(k.skip(q - from + 1) =~= cs@.subrange(q + 1, eq as int));
                        }
                        q + 1
                    },
                    None => {
                        assert(k =~= cs@.subrange(from as int, eq as int));
                        from
                    },
                };
                let key = query.substring_char(key_start, eq).to_owned();
                let value = query.substring_char(eq + 1, to).to_owned();
                self.insert(key, value);
            },
        }
    }
}

/// A segment `k=v` whose key holds no `=` or `?` sets `k` to everything after the first `=`,
/// `=` characters included; and a raw query made of that one segment, with no `&` in it and
/// not starting with `?`, does the same to the parameters.
pub proof fn law_query_value_after_first_equals(
    m: Map<Seq<char>, Seq<char>>,
    k: Seq<char>,
    v: Seq<char>,
)
    requires
        !has_char(k, '='),
        !has_char(k, '?'),
    ensures
        add_query_entry(m, k + seq!['='] + v) == m.insert(k, v),
        !has_char(k, '&') && !has_char(v, '&') ==> add_raw_query(m, k + seq!['='] + v) == m.insert(
            k,
            v,
        ),
{
    lemma_split_once_at(k, '=', v);
    assert(split_once(k, '?') is None);
    assert(query_key(k) == k);
    let q = k + seq!['='] + v;
    if !has_char(k, '&') && !has_char(v, '&') {
        assert(q[k.len() as int] == '=');
        if k.len() > 0 {
            assert(q[0] == k[0]);
            assert(k[0] != '?');
        }
        assert(trim_leading_question_marks(q) == q);
        assert(!has_char(seq!['='], '&'));
        lemma_no_char_concat(k, seq!['='], '&');
        lemma_no_char_concat(k + seq!['='], v, '&');
        assert(add_query_segments(m, q) == add_query_entry(m, q));
    }
}

} // verus!
