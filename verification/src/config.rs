//! Persistent settings: the recently used directories, volume, repeat mode and
//! shuffle. Reading and writing the settings file is done by the program.
use vstd::prelude::*;

use crate::app::RepeatMode;
use crate::pathname::{same_dir, same_path};

verus! {

/// How many recent directories are kept.
pub const MAX_RECENT: usize = 10;

/// The texts of a list of strings.
pub open spec fn texts(v: Seq<String>) -> Seq<Seq<char>> {
    v.map_values(|d: String| d@)
}

/// `s` without any entry that is the same path as `x`, order kept.
pub open spec fn without(s: Seq<Seq<char>>, x: Seq<char>) -> Seq<Seq<char>>
    decreases s.len(),
{
    if s.len() == 0 {
        s
    } else if same_path(s.last(), x) {
        without(s.drop_last(), x)
    } else {
        without(s.drop_last(), x).push(s.last())
    }
}

/// The recent list after using `x`: `x` first, then the others in their order,
/// cut to `MAX_RECENT` entries.
pub open spec fn pushed_recent(s: Seq<Seq<char>>, x: Seq<char>) -> Seq<Seq<char>> {
    let t = seq![x] + without(s, x);
    if t.len() > 10 {
        t.take(10)
    } else {
        t
    }
}

/// No two entries of `s` are the same path.
pub open spec fn distinct_paths(s: Seq<Seq<char>>) -> bool {
    forall|a: int, b: int| 0 <= a < b < s.len() ==> !same_path(#[trigger] s[a], #[trigger] s[b])
}

/// Whether some entry of `s` is the same path as `x`.
pub open spec fn holds_path(s: Seq<Seq<char>>, x: Seq<char>) -> bool {
    exists|i: int| 0 <= i < s.len() && same_path(#[trigger] s[i], x)
}

/// A well-kept recent list: at most `MAX_RECENT` entries, no directory twice.
pub open spec fn recent_ok(s: Seq<Seq<char>>) -> bool {
    s.len() <= 10 && distinct_paths(s)
}

/// Settings kept between runs.
#[derive(Debug)]
pub struct Config {
    /// Recently used directories, newest first, at most `MAX_RECENT`.
    pub recent_dirs: Vec<String>,
    /// Volume in percent (0 to 200), restored at start-up.
    pub volume: u32,
    /// Repeat mode, restored at start-up.
    pub repeat: RepeatMode,
    /// Shuffle, restored at start-up.
    pub shuffle: bool,
}

impl Default for Config {
    fn default() -> (c: Self)
        ensures
            c.recent_dirs@.len() == 0,
            c.volume == 100,
            c.repeat == RepeatMode::Off,
            !c.shuffle,
    {
        Config { recent_dirs: Vec::new(), volume: 100, repeat: RepeatMode::Off, shuffle: false }
    }
}

proof fn lemma_without_step(s: Seq<Seq<char>>, x: Seq<char>, i: int)
    requires
        0 <= i < s.len(),
    ensures
        without(s.take(i + 1), x) == (if same_path(s[i], x) {
            without(s.take(i), x)
        } else {
            without(s.take(i), x).push(s[i])
        }),
{
    assert(s.take(i + 1).drop_last() =~= s.take(i));
}

/// What `without` keeps: every entry that is not the same path as `x`, and
/// nothing else.
pub proof fn lemma_without_contains(s: Seq<Seq<char>>, x: Seq<char>, y: Seq<char>)
    ensures
        without(s, x).contains(y) <==> (!same_path(y, x) && s.contains(y)),
        without(s, x).len() <= s.len(),
    decreases s.len(),
{
    if s.len() > 0 {
        lemma_without_contains(s.drop_last(), x, y);
        let w = without(s.drop_last(), x);
        if s.contains(y) && !same_path(y, x) {
            let j = choose|j: int| 0 <= j < s.len() && s[j] == y;
            if j < s.len() - 1 {
                assert(s.drop_last()[j] == y);
                assert(s.drop_last().contains(y));
                assert(w.contains(y));
                let k = choose|k: int| 0 <= k < w.len() && w[k] == y;
                if !same_path(s.last(), x) {
                    assert(without(s, x) == w.push(s.last()));
                    assert(without(s, x)[k] == y);
                } else {
                    assert(without(s, x) == w);
                }
            } else {
                assert(without(s, x) == w.push(s.last()));
                assert(without(s, x)[w.len() as int] == y);
            }
        }
        if without(s, x).contains(y) {
            let j = choose|j: int| 0 <= j < without(s, x).len() && without(s, x)[j] == y;
            if !same_path(s.last(), x) && j == w.len() {
                assert(without(s, x) == w.push(s.last()));
                assert(s[s.len() - 1] == y);
            } else {
                if !same_path(s.last(), x) {
                    assert(without(s, x) == w.push(s.last()));
                } else {
                    assert(without(s, x) == w);
                }
                assert(w[j] == y);
                assert(w.contains(y));
                let k = choose|k: int| 0 <= k < s.drop_last().len() && s.drop_last()[k] == y;
                assert(s[k] == y);
            }
        }
    }
}

proof fn lemma_distinct_prefix(s: Seq<Seq<char>>)
    requires
        s.len() > 0,
        distinct_paths(s),
    ensures
        distinct_paths(s.drop_last()),
{
    let p = s.drop_last();
    assert forall|a: int, b: int| 0 <= a < b < p.len() implies !same_path(
        #[trigger] p[a],
        #[trigger] p[b],
    ) by {
        assert(p[a] == s[a] && p[b] == s[b]);
    }
}

/// `without` keeps a list free of repeated paths.
pub proof fn lemma_without_distinct(s: Seq<Seq<char>>, x: Seq<char>)
    requires
        distinct_paths(s),
    ensures
        distinct_paths(without(s, x)),
    decreases s.len(),
{
    if s.len() > 0 {
        let p = s.drop_last();
        lemma_distinct_prefix(s);
        lemma_without_distinct(p, x);
        if !same_path(s.last(), x) {
            let w = without(p, x);
            let w2 = w.push(s.last());
            assert forall|a: int, b: int| 0 <= a < b < w2.len() implies !same_path(
                #[trigger] w2[a],
                #[trigger] w2[b],
            ) by {
                if b == w.len() {
                    assert(w2[a] == w[a]);
                    assert(w.contains(w[a]));
                    lemma_without_contains(p, x, w[a]);
                    let k = choose|k: int| 0 <= k < p.len() && p[k] == w[a];
                    assert(s[k] == p[k]);
                    assert(!same_path(s[k], s[s.len() - 1]));
                } else {
                    assert(w2[a] == w[a] && w2[b] == w[b]);
                }
            }
            assert(without(s, x) == w2);
        }
    }
}

proof fn lemma_without_length(s: Seq<Seq<char>>, x: Seq<char>)
    requires
        distinct_paths(s),
    ensures
        without(s, x).len() == if holds_path(s, x) {
            s.len() - 1
        } else {
            s.len() as int
        },
    decreases s.len(),
{
    if s.len() > 0 {
        let p = s.drop_last();
        lemma_distinct_prefix(s);
        lemma_without_length(p, x);
        if same_path(s.last(), x) {
            assert(!holds_path(p, x)) by {
                if holds_path(p, x) {
                    let k = choose|k: int| 0 <= k < p.len() && same_path(p[k], x);
                    assert(s[k] == p[k]);
                    assert(!same_path(s[k], s[s.len() - 1]));
                }
            }
            assert(same_path(s[s.len() - 1], x));
        } else {
            assert(holds_path(s, x) <==> holds_path(p, x)) by {
                if holds_path(s, x) {
                    let k = choose|k: int| 0 <= k < s.len() && same_path(s[k], x);
                    assert(k < p.len());
                    assert(p[k] == s[k]);
                }
                if holds_path(p, x) {
                    let k = choose|k: int| 0 <= k < p.len() && same_path(p[k], x);
                    assert(s[k] == p[k]);
                }
            }
        }
    }
}

impl Config {
    /// Puts `dir` first in the recent list: any earlier entry for the same path
    /// goes away, and
    /// entries beyond `MAX_RECENT` are dropped from the end.
    pub fn push_recent_dir(&mut self, dir: String)
        ensures
            texts(final(self).recent_dirs@) == pushed_recent(texts(old(self).recent_dirs@), dir@),
            final(self).volume == old(self).volume,
            final(self).repeat == old(self).repeat,
            final(self).shuffle == old(self).shuffle,
    {
        let ghost s = texts(self.recent_dirs@);
        let n = self.recent_dirs.len();
        let mut kept: Vec<String> = Vec::new();
        let mut i: usize = 0;
        while i < n
            invariant
                i <= n,
                n == self.recent_dirs@.len(),
                s == texts(self.recent_dirs@),
                texts(kept@) == without(s.take(i as int), dir@),
            decreases n - i,
        {
            proof {
                lemma_without_step(s, dir@, i as int);
            }
            if !same_dir(self.recent_dirs[i].as_str(), dir.as_str()) {
                let d = self.recent_dirs[i].clone();
                kept.push(d);
                assert(texts(kept@) =~= without(s.take(i as int), dir@).push(s[i as int]));
            }
            i = i + 1;
        }
        assert(s.take(n as int) =~= s);
        kept.insert(0, dir);
        assert(texts(kept@) =~= seq![dir@] + without(s, dir@));
        kept.truncate(MAX_RECENT);
        assert(texts(kept@) =~= pushed_recent(s, dir@));
        self.recent_dirs = kept;
    }

    /// Removes every entry for the same path as `dir` from the recent list; nothing
    /// happens when there is none.
    pub fn remove_recent_dir(&mut self, dir: &String)
        ensures
            texts(final(self).recent_dirs@) == without(texts(old(self).recent_dirs@), dir@),
            final(self).volume == old(self).volume,
            final(self).repeat == old(self).repeat,
            final(self).shuffle == old(self).shuffle,
    {
        let ghost s = texts(self.recent_dirs@);
        let n = self.recent_dirs.len();
        let mut kept: Vec<String> = Vec::new();
        let mut i: usize = 0;
        while i < n
            invariant
                i <= n,
                n == self.recent_dirs@.len(),
                s == texts(self.recent_dirs@),
                texts(kept@) == without(s.take(i as int), dir@),
            decreases n - i,
        {
            proof {
                lemma_without_step(s, dir@, i as int);
            }
            if !same_dir(self.recent_dirs[i].as_str(), dir.as_str()) {
                let d = self.recent_dirs[i].clone();
                kept.push(d);
                assert(texts(kept@) =~= without(s.take(i as int), dir@).push(s[i as int]));
            }
            i = i + 1;
        }
        assert(s.take(n as int) =~= s);
        self.recent_dirs = kept;
    }
}

/// Using a directory puts it first; the list never grows beyond `MAX_RECENT` and
/// never holds a directory twice once it did not before; every entry was already
/// there or is the new one.
pub proof fn lemma_push_recent(s: Seq<Seq<char>>, x: Seq<char>)
    requires
        distinct_paths(s),
    ensures
        pushed_recent(s, x)[0] == x,
        pushed_recent(s, x).len() <= 10,
        pushed_recent(s, x).len() == (if holds_path(s, x) {
            s.len()
        } else {
            s.len() + 1
        }) || pushed_recent(s, x).len() == 10,
        recent_ok(pushed_recent(s, x)),
        forall|y: Seq<char>| #[trigger] pushed_recent(s, x).contains(y) ==> y == x || s.contains(y),
{
    lemma_without_distinct(s, x);
    let w = without(s, x);
    let t = seq![x] + w;
    assert(distinct_paths(t)) by {
        assert forall|a: int, b: int| 0 <= a < b < t.len() implies !same_path(
            #[trigger] t[a],
            #[trigger] t[b],
        ) by {
            if a == 0 {
                assert(t[b] == w[b - 1]);
                assert(w.contains(w[b - 1]));
                lemma_without_contains(s, x, w[b - 1]);
            } else {
                assert(t[a] == w[a - 1] && t[b] == w[b - 1]);
            }
        }
    }
    lemma_without_length(s, x);
    let p = pushed_recent(s, x);
    assert(distinct_paths(p)) by {
        assert forall|a: int, b: int| 0 <= a < b < p.len() implies !same_path(
            #[trigger] p[a],
            #[trigger] p[b],
        ) by {
            assert(p[a] == t[a] && p[b] == t[b]);
        }
    }
    assert forall|y: Seq<char>| #[trigger] p.contains(y) implies y == x || s.contains(y) by {
        let j = choose|j: int| 0 <= j < p.len() && p[j] == y;
        if j > 0 {
            assert(t[j] == w[j - 1]);
            assert(w.contains(y));
            lemma_without_contains(s, x, y);
        }
    }
}

/// Removing a directory removes every entry for the same path, leaves every
/// other one, and keeps the list well kept.
pub proof fn lemma_remove_recent(s: Seq<Seq<char>>, x: Seq<char>, y: Seq<char>)
    requires
        recent_ok(s),
    ensures
        !holds_path(without(s, x), x),
        !same_path(y, x) ==> (without(s, x).contains(y) <==> s.contains(y)),
        recent_ok(without(s, x)),
{
    lemma_without_contains(s, x, y);
    lemma_without_contains(s, x, x);
    lemma_without_distinct(s, x);
    let w = without(s, x);
    if holds_path(w, x) {
        let k = choose|k: int| 0 <= k < w.len() && same_path(w[k], x);
        assert(w.contains(w[k]));
        lemma_without_contains(s, x, w[k]);
    }
}

} // verus!
