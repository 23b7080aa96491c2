//! Paths compared as paths: by their components, as `Path::components` splits
//! them on Unix, so that `/music` and `/music/` (or `a//b` and `a/./b`) name the
//! same directory.
use vstd::prelude::*;

use crate::text::{chars_eq, chars_of};

verus! {

/// The texts of a list of character vectors.
pub open spec fn views(v: Seq<Vec<char>>) -> Seq<Seq<char>> {
    v.map_values(|x: Vec<char>| x@)
}

/// The pieces of `s` between `/` separators: one more than there are separators,
/// empty pieces included.
pub open spec fn pieces(s: Seq<char>) -> Seq<Seq<char>>
    decreases s.len(),
{
    if s.len() == 0 {
        seq![Seq::empty()]
    } else if s.last() == '/' {
        pieces(s.drop_last()).push(Seq::empty())
    } else {
        let p = pieces(s.drop_last());
        p.update(p.len() - 1, p.last().push(s.last()))
    }
}

/// Whether a piece is a component of its own: not empty and not `.`.
pub open spec fn named_piece(p: Seq<char>) -> bool {
    p.len() > 0 && p != seq!['.']
}

/// The pieces that are components of their own, in order.
pub open spec fn named(ps: Seq<Seq<char>>) -> Seq<Seq<char>>
    decreases ps.len(),
{
    if ps.len() == 0 {
        ps
    } else if named_piece(ps.last()) {
        named(ps.drop_last()).push(ps.last())
    } else {
        named(ps.drop_last())
    }
}

/// The components of a path: `/` for the root of an absolute path, `.` for a
/// relative path that starts with `.` as its own piece, then every piece that is
/// neither empty nor `.` (`..` included).
pub open spec fn components(s: Seq<char>) -> Seq<Seq<char>> {
    let ps = pieces(s);
    if s.len() > 0 && s[0] == '/' {
        seq![seq!['/']] + named(ps.drop_first())
    } else if ps[0] == seq!['.'] {
        seq![seq!['.']] + named(ps.drop_first())
    } else {
        named(ps)
    }
}

/// Whether two paths are equal as paths (`PathBuf == PathBuf`).
pub open spec fn same_path(a: Seq<char>, b: Seq<char>) -> bool {
    components(a) == components(b)
}

proof fn lemma_pieces_len(s: Seq<char>)
    ensures
        pieces(s).len() >= 1,
    decreases s.len(),
{
    if s.len() > 0 {
        lemma_pieces_len(s.drop_last());
    }
}

fn copy_chars(v: &Vec<char>) -> (r: Vec<char>)
    ensures
        r@ == v@,
{
    let mut r: Vec<char> = Vec::new();
    let mut i: usize = 0;
    while i < v.len()
        invariant
            i <= v@.len(),
            r@ == v@.take(i as int),
        decreases v@.len() - i,
    {
        r.push(v[i]);
        i = i + 1;
        assert(r@ =~= v@.take(i as int));
    }
    assert(v@.take(i as int) =~= v@);
    r
}

fn split_pieces(s: &Vec<char>) -> (r: Vec<Vec<char>>)
    ensures
        views(r@) == pieces(s@),
{
    let mut done: Vec<Vec<char>> = Vec::new();
    let mut cur: Vec<char> = Vec::new();
    let mut i: usize = 0;
    assert(views(done@).push(cur@) =~= pieces(s@.take(0)));
    while i < s.len()
        invariant
            i <= s@.len(),
            views(done@).push(cur@) == pieces(s@.take(i as int)),
        decreases s@.len() - i,
    {
        let c = s[i];
        let ghost before = views(done@);
        let ghost old_cur = cur@;
        assert(s@.take(i + 1).drop_last() =~= s@.take(i as int));
        assert(s@.take(i + 1).last() == c);
        if c == '/' {
            done.push(cur);
            cur = Vec::new();
            assert(views(done@) =~= before.push(old_cur));
            assert(views(done@).push(cur@) =~= before.push(old_cur).push(Seq::empty()));
        } else {
            cur.push(c);
            assert(views(done@).push(cur@) =~= before.push(old_cur).update(
                before.len() as int,
                old_cur.push(c),
            ));
        }
        i = i + 1;
    }
    let ghost before = views(done@);
    let ghost last = cur@;
    done.push(cur);
    assert(views(done@) =~= before.push(last));
    assert(s@.take(i as int) =~= s@);
    done
}

fn is_named(p: &Vec<char>) -> (r: bool)
    ensures
        r == named_piece(p@),
{
    if p.len() == 0 {
        false
    } else if p.len() == 1 && p[0] == '.' {
        assert(p@ =~= seq!['.']);
        false
    } else {
        assert(p@ != seq!['.']) by {
            if p@ == seq!['.'] {
                assert(p@[0] == '.');
            }
        }
        true
    }
}

/// The components of a path (see `components`).
pub fn path_components(s: &str) -> (r: Vec<Vec<char>>)
    ensures
        views(r@) == components(s@),
{
    let cs = chars_of(s);
    let ps = split_pieces(&cs);
    proof {
        lemma_pieces_len(s@);
    }
    let ghost pv = views(ps@);
    let mut out: Vec<Vec<char>> = Vec::new();
    let mut start: usize = 0;
    let dot: Vec<char> = vec!['.'];
    assert(dot@ =~= seq!['.']);
    let slash: Vec<char> = vec!['/'];
    assert(slash@ =~= seq!['/']);
    if cs.len() > 0 && cs[0] == '/' {
        out.push(slash);
        start = 1;
        assert(views(out@) =~= seq![seq!['/']]);
    } else if chars_eq(&ps[0], &dot) {
        out.push(dot);
        start = 1;
        assert(views(out@) =~= seq![seq!['.']]);
    }
    let ghost head = views(out@);
    assert(head.len() == start);
    let n = ps.len();
    let mut i: usize = start;
    assert(pv.subrange(start as int, start as int) =~= Seq::<Seq<char>>::empty());
    while i < n
        invariant
            start <= i <= n,
            n == ps@.len(),
            pv == views(ps@),
            head.len() == start,
            views(out@) == head + named(pv.subrange(start as int, i as int)),
        decreases n - i,
    {
        let ghost prev = views(out@);
        assert(pv.subrange(start as int, i + 1).drop_last() =~= pv.subrange(start as int, i as int));
        assert(pv.subrange(start as int, i + 1).last() == ps@[i as int]@);
        if is_named(&ps[i]) {
            let p = copy_chars(&ps[i]);
            out.push(p);
            assert(views(out@) =~= prev.push(ps@[i as int]@));
        }
        i = i + 1;
    }
    proof {
        if start == 1 {
            assert(pv.subrange(1, n as int) =~= pv.drop_first());
        } else {
            assert(pv.subrange(0, n as int) =~= pv);
        }
        if !(s@.len() > 0 && s@[0] == '/') && start == 0 {
            assert(pv[0] != seq!['.']);
        }
        assert(head + named(pv.subrange(start as int, n as int)) =~= components(s@)) by {
            if s@.len() > 0 && s@[0] == '/' {
                assert(head =~= seq![seq!['/']]);
            } else if pv[0] == seq!['.'] {
                assert(head =~= seq![seq!['.']]);
            } else {
                assert(head =~= Seq::<Seq<char>>::empty());
            }
        }
    }
    out
}

fn char_lists_eq(a: &Vec<Vec<char>>, b: &Vec<Vec<char>>) -> (r: bool)
    ensures
        r == (views(a@) == views(b@)),
{
    if a.len() != b.len() {
        assert(views(a@).len() != views(b@).len());
        return false;
    }
    let mut i: usize = 0;
    while i < a.len()
        invariant
            i <= a@.len(),
            a@.len() == b@.len(),
            forall|j: int| 0 <= j < i ==> a@[j]@ == b@[j]@,
        decreases a@.len() - i,
    {
        if !chars_eq(&a[i], &b[i]) {
            assert(views(a@)[i as int] != views(b@)[i as int]);
            return false;
        }
        i = i + 1;
    }
    assert(views(a@) =~= views(b@));
    true
}

/// Whether two paths are equal as paths, component by component.
pub fn same_dir(a: &str, b: &str) -> (r: bool)
    ensures
        r == same_path(a@, b@),
{
    let x = path_components(a);
    let y = path_components(b);
    char_lists_eq(&x, &y)
}

} // verus!
