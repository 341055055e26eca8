//! Delimited text: a spec-level model of splitting a character sequence on a
//! separator and joining the parts back, with verified executable versions.

use vstd::prelude::*;

verus! {

/// The views of a vector of character vectors.
pub open spec fn views_of(parts: Seq<Vec<char>>) -> Seq<Seq<char>> {
    parts.map_values(|p: Vec<char>| p@)
}

/// The parts of `s` delimited by `d`. The empty sequence has one empty part;
/// every occurrence of `d` closes the part before it and opens a new one, so
/// the result always holds at least one part.
pub open spec fn split_sep(s: Seq<char>, d: char) -> Seq<Seq<char>>
    decreases s.len(),
{
    if s.len() == 0 {
        seq![Seq::<char>::empty()]
    } else {
        let prefix = split_sep(s.drop_last(), d);
        if s.last() == d {
            prefix.push(Seq::<char>::empty())
        } else {
            prefix.update(prefix.len() - 1, prefix.last().push(s.last()))
        }
    }
}

/// The parts joined back together, with `d` between neighbouring parts.
pub open spec fn join_sep(parts: Seq<Seq<char>>, d: char) -> Seq<char>
    decreases parts.len(),
{
    if parts.len() == 0 {
        Seq::<char>::empty()
    } else if parts.len() == 1 {
        parts[0]
    } else {
        join_sep(parts.drop_last(), d).push(d) + parts.last()
    }
}

pub proof fn lemma_split_sep_len(s: Seq<char>, d: char)
    ensures
        split_sep(s, d).len() >= 1,
    decreases s.len(),
{
    if s.len() != 0 {
        lemma_split_sep_len(s.drop_last(), d);
    }
}

/// Splitting on a separator and rejoining the parts with it restores the
/// original text exactly.
pub proof fn lemma_join_split_identity(s: Seq<char>, d: char)
    ensures
        join_sep(split_sep(s, d), d) == s,
    decreases s.len(),
{
    if s.len() == 0 {
        assert(join_sep(split_sep(s, d), d) =~= s);
    } else {
        let rest = s.drop_last();
        let prefix = split_sep(rest, d);
        lemma_join_split_identity(rest, d);
        lemma_split_sep_len(rest, d);
        if s.last() == d {
            let parts = prefix.push(Seq::<char>::empty());
            assert(split_sep(s, d) == parts);
            assert(parts.drop_last() =~= prefix);
            assert(join_sep(parts, d) =~= join_sep(prefix, d).push(d));
            assert(join_sep(prefix, d).push(d) =~= s);
        } else {
            let c = s.last();
            if prefix.len() == 1 {
                let parts = prefix.update(0, prefix[0].push(c));
                assert(split_sep(s, d) == parts);
                assert(join_sep(parts, d) == parts[0]);
                assert(join_sep(prefix, d) == prefix[0]);
                assert(parts[0] =~= s);
            } else {
                let parts = prefix.update(prefix.len() - 1, prefix.last().push(c));
                assert(split_sep(s, d) == parts);
                assert(parts.drop_last() =~= prefix.drop_last());
                assert(parts.last() == prefix.last().push(c));
                assert(join_sep(parts, d)
                    == join_sep(prefix.drop_last(), d).push(d) + prefix.last().push(c));
                assert(join_sep(prefix, d)
                    == join_sep(prefix.drop_last(), d).push(d) + prefix.last());
                assert(join_sep(prefix.drop_last(), d).push(d) + prefix.last().push(c)
                    =~= (join_sep(prefix.drop_last(), d).push(d) + prefix.last()).push(c));
                assert(rest.push(c) =~= s);
            }
        }
    }
}

/// Appends every character of `src` to `dst`.
pub fn extend_with(dst: &mut Vec<char>, src: &Vec<char>)
    ensures
        final(dst)@ == old(dst)@ + src@,
{
    let mut i: usize = 0;
    while i < src.len()
        invariant
            i <= src@.len(),
            dst@ == old(dst)@ + src@.take(i as int),
        decreases src@.len() - i,
    {
        let c = src[i];
        dst.push(c);
        proof {
            assert(src@.take(i + 1 as int) =~= src@.take(i as int).push(src@[i as int]));
            assert(old(dst)@ + src@.take(i + 1 as int)
                =~= (old(dst)@ + src@.take(i as int)).push(src@[i as int]));
        }
        i = i + 1;
    }
    proof {
        assert(src@.take(src@.len() as int) =~= src@);
    }
}

/// Compares two character vectors for equal contents.
pub fn chars_eq(a: &Vec<char>, b: &Vec<char>) -> (r: bool)
    ensures
        r == (a@ == b@),
{
    if a.len() != b.len() {
        return false;
    }
    let mut i: usize = 0;
    while i < a.len()
        invariant
            i <= a@.len(),
            a@.len() == b@.len(),
            forall|j: int| 0 <= j < i ==> a@[j] == b@[j],
        decreases a@.len() - i,
    {
        if a[i] != b[i] {
            return false;
        }
        i = i + 1;
    }
    proof {
        assert(a@ =~= b@);
    }
    true
}

/// Splits `s` into the parts delimited by `d`.
pub fn split_on(s: &Vec<char>, d: char) -> (parts: Vec<Vec<char>>)
    ensures
        views_of(parts@) == split_sep(s@, d),
        parts@.len() >= 1,
{
    let mut done: Vec<Vec<char>> = Vec::new();
    let mut cur: Vec<char> = Vec::new();
    let mut i: usize = 0;
    proof {
        assert(s@.take(0) =~= Seq::<char>::empty());
        assert(views_of(done@).push(cur@) =~= split_sep(s@.take(0), d));
    }
    while i < s.len()
        invariant
            i <= s@.len(),
            views_of(done@).push(cur@) == split_sep(s@.take(i as int), d),
        decreases s@.len() - i,
    {
        let c = s[i];
        proof {
            assert(s@.take(i + 1 as int) =~= s@.take(i as int).push(s@[i as int]));
            assert(s@.take(i + 1 as int).drop_last() =~= s@.take(i as int));
        }
        if c == d {
            let ghost before = views_of(done@).push(cur@);
            done.push(cur);
            cur = Vec::new();
            proof {
                assert(views_of(done@) =~= before);
                assert(views_of(done@).push(cur@) =~= split_sep(s@.take(i + 1 as int), d));
            }
        } else {
            let ghost before = views_of(done@).push(cur@);
            cur.push(c);
            proof {
                assert(before.last() == before[before.len() - 1]);
                assert(views_of(done@).push(cur@)
                    =~= before.update(before.len() - 1, before.last().push(s@[i as int])));
            }
        }
        i = i + 1;
    }
    proof {
        assert(s@.take(s@.len() as int) =~= s@);
    }
    let ghost before = views_of(done@).push(cur@);
    done.push(cur);
    proof {
        assert(views_of(done@) =~= before);
    }
    done
}

/// Joins the parts with `d` between neighbours.
pub fn join_with(parts: &Vec<Vec<char>>, d: char) -> (out: Vec<char>)
    ensures
        out@ == join_sep(views_of(parts@), d),
{
    let mut out: Vec<char> = Vec::new();
    if parts.len() == 0 {
        return out;
    }
    extend_with(&mut out, &parts[0]);
    let mut i: usize = 1;
    while i < parts.len()
        invariant
            1 <= i <= parts@.len(),
            out@ == join_sep(views_of(parts@).take(i as int), d),
        decreases parts@.len() - i,
    {
        let ghost vs = views_of(parts@);
        out.push(d);
        extend_with(&mut out, &parts[i]);
        proof {
            assert(vs.take(i + 1 as int).drop_last() =~= vs.take(i as int));
            assert(vs.take(i + 1 as int).last() == vs[i as int]);
            assert(out@ =~= join_sep(vs.take(i as int), d).push(d) + vs[i as int]);
        }
        i = i + 1;
    }
    proof {
        assert(views_of(parts@).take(parts@.len() as int) =~= views_of(parts@));
    }
    out
}

} // verus!
