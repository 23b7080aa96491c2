//! The source picker's entries and track search. The program lists the saved
//! playlists on disk; the library orders the entries.
use vstd::prelude::*;

use crate::models::TrackInfo;
use crate::pathname::{same_dir, same_path};
use crate::text::{chars_of, contains_chars, contains_seq, lowercase, push_str, to_lowercase};

verus! {

/// An entry of the source picker.
#[derive(Debug)]
pub enum SourceEntry {
    /// The directory scanned at start-up.
    Directory(String),
    /// A recently used directory.
    RecentDir(String),
    /// A saved playlist file and the playlist's name.
    Playlist { path: String, name: String },
}

impl Clone for SourceEntry {
    fn clone(&self) -> (r: Self)
        ensures
            r == *self,
    {
        match self {
            SourceEntry::Directory(p) => SourceEntry::Directory(p.clone()),
            SourceEntry::RecentDir(p) => SourceEntry::RecentDir(p.clone()),
            SourceEntry::Playlist { path, name } => SourceEntry::Playlist {
                path: path.clone(),
                name: name.clone(),
            },
        }
    }
}

/// The line shown for an entry.
pub open spec fn entry_label(e: SourceEntry) -> Seq<char> {
    match e {
        SourceEntry::Directory(p) => "[Dir]    "@ + p@,
        SourceEntry::RecentDir(p) => "[Recent] "@ + p@,
        SourceEntry::Playlist { name, .. } => "[PL]     "@ + name@,
    }
}

impl SourceEntry {
    /// The line shown in the picker: a kind tag, then the path or playlist name.
    pub fn label(&self) -> (r: String)
        ensures
            r@ == entry_label(*self),
    {
        let mut s = String::new();
        match self {
            SourceEntry::Directory(p) => {
                push_str(&mut s, "[Dir]    ");
                push_str(&mut s, p.as_str());
            },
            SourceEntry::RecentDir(p) => {
                push_str(&mut s, "[Recent] ");
                push_str(&mut s, p.as_str());
            },
            SourceEntry::Playlist { name, .. } => {
                push_str(&mut s, "[PL]     ");
                push_str(&mut s, name.as_str());
            },
        }
        assert(s@ =~= entry_label(*self));
        s
    }

    /// The directory of a directory entry (kept in the recent list once loaded).
    pub fn loaded_dir(&self) -> (r: Option<String>)
        ensures
            match *self {
                SourceEntry::Directory(p) => r == Some(p),
                SourceEntry::RecentDir(p) => r == Some(p),
                SourceEntry::Playlist { .. } => r is None,
            },
    {
        match self {
            SourceEntry::Directory(p) => Some(p.clone()),
            SourceEntry::RecentDir(p) => Some(p.clone()),
            SourceEntry::Playlist { .. } => None,
        }
    }
}

/// Whether a track matches a lowercased query: in its title, artist or album,
/// ignoring letter case.
pub open spec fn track_matches(t: TrackInfo, q: Seq<char>) -> bool {
    ||| contains_seq(lowercase(t.title@), q)
    ||| contains_seq(lowercase(t.artist@), q)
    ||| contains_seq(lowercase(t.album@), q)
}

/// The indices below `n` of the tracks that match `q`, in increasing order.
pub open spec fn matching_upto(tracks: Seq<TrackInfo>, q: Seq<char>, n: int) -> Seq<usize>
    decreases n,
{
    if n <= 0 {
        Seq::empty()
    } else if track_matches(tracks[n - 1], q) {
        matching_upto(tracks, q, n - 1).push((n - 1) as usize)
    } else {
        matching_upto(tracks, q, n - 1)
    }
}

/// All indices below `n`.
pub open spec fn all_indices(n: nat) -> Seq<usize> {
    Seq::new(n, |i: int| i as usize)
}

/// The search result: every index for an empty query, else the matching tracks.
pub open spec fn search_result(tracks: Seq<TrackInfo>, query: Seq<char>) -> Seq<usize> {
    if query.len() == 0 {
        all_indices(tracks.len())
    } else {
        matching_upto(tracks, lowercase(query), tracks.len() as int)
    }
}

/// Every index from 0 to `n - 1`.
pub fn index_range(n: usize) -> (r: Vec<usize>)
    ensures
        r@ == all_indices(n as nat),
{
    let mut r: Vec<usize> = Vec::new();
    let mut i: usize = 0;
    while i < n
        invariant
            i <= n,
            r@ == all_indices(i as nat),
        decreases n - i,
    {
        r.push(i);
        i = i + 1;
        assert(r@ =~= all_indices(i as nat));
    }
    r
}

fn field_matches(field: &String, q: &Vec<char>) -> (r: bool)
    ensures
        r == contains_seq(lowercase(field@), q@),
{
    let lower = to_lowercase(field.as_str());
    let cs = chars_of(lower.as_str());
    contains_chars(&cs, q)
}

/// The indices of the tracks whose title, artist or album contains `query`,
/// ignoring letter case, in list order; every index for an empty query.
pub fn filter_tracks(tracks: &[TrackInfo], query: &str) -> (r: Vec<usize>)
    ensures
        r@ == search_result(tracks@, query@),
{
    if query.is_empty() {
        return index_range(tracks.len());
    }
    let lower = to_lowercase(query);
    let q = chars_of(lower.as_str());
    let mut r: Vec<usize> = Vec::new();
    let n = tracks.len();
    let mut i: usize = 0;
    while i < n
        invariant
            i <= n,
            n == tracks@.len(),
            q@ == lowercase(query@),
            r@ == matching_upto(tracks@, q@, i as int),
        decreases n - i,
    {
        let t = &tracks[i];
        if field_matches(&t.title, &q) || field_matches(&t.artist, &q) || field_matches(
            &t.album,
            &q,
        ) {
            r.push(i);
        }
        i = i + 1;
    }
    r
}

/// The search keeps list order and only names tracks of the list: its indices are
/// strictly increasing and below the number of tracks.
pub proof fn lemma_search_ordered(tracks: Seq<TrackInfo>, q: Seq<char>, n: int)
    requires
        0 <= n <= tracks.len(),
        n <= usize::MAX,
    ensures
        forall|a: int, b: int|
            0 <= a < b < matching_upto(tracks, q, n).len() ==> matching_upto(tracks, q, n)[a]
                < matching_upto(tracks, q, n)[b],
        forall|a: int|
            0 <= a < matching_upto(tracks, q, n).len() ==> matching_upto(tracks, q, n)[a] < n,
        forall|i: int|
            0 <= i < n ==> (matching_upto(tracks, q, n).contains(i as usize) <==> track_matches(
                tracks[i],
                q,
            )),
    decreases n,
{
    if n > 0 {
        lemma_search_ordered(tracks, q, n - 1);
        let p = matching_upto(tracks, q, n - 1);
        let m = matching_upto(tracks, q, n);
        if track_matches(tracks[n - 1], q) {
            assert forall|a: int, b: int| 0 <= a < b < m.len() implies m[a] < m[b] by {
                if b == p.len() {
                    assert(m[a] == p[a]);
                } else {
                    assert(m[a] == p[a] && m[b] == p[b]);
                }
            }
        }
        assert forall|i: int| 0 <= i < n implies (m.contains(i as usize) <==> track_matches(
            tracks[i],
            q,
        )) by {
            if i < n - 1 {
                if p.contains(i as usize) {
                    let k = choose|k: int| 0 <= k < p.len() && p[k] == i as usize;
                    assert(m[k] == i as usize);
                }
                if m.contains(i as usize) {
                    let k = choose|k: int| 0 <= k < m.len() && m[k] == i as usize;
                    if k < p.len() {
                        assert(p[k] == i as usize);
                    }
                }
            } else {
                if track_matches(tracks[n - 1], q) {
                    assert(m[p.len() as int] == (n - 1) as usize);
                } else {
                    if m.contains(i as usize) {
                        let k = choose|k: int| 0 <= k < m.len() && m[k] == i as usize;
                        assert(p[k] < n - 1);
                    }
                }
            }
        }
    }
}

/// A saved playlist found in the playlist directory: when it was last modified
/// (nanoseconds from the Unix epoch, negative before it), its file and its name.
pub struct PlaylistFile {
    pub mtime: i128,
    pub path: String,
    pub name: String,
}

/// `p` lists every index of `keys` once, newest (largest key) first, and entries
/// with equal keys in their given order.
pub open spec fn newest_first(keys: Seq<i128>, p: Seq<usize>) -> bool {
    &&& p.len() == keys.len()
    &&& forall|i: int| 0 <= i < p.len() ==> #[trigger] p[i] < keys.len()
    &&& p.no_duplicates()
    &&& forall|a: int, b: int|
        #![trigger p[a], p[b]]
        0 <= a < b < p.len() ==> keys[p[a] as int] >= keys[p[b] as int]
    &&& forall|a: int, b: int|
        #![trigger p[a], p[b]]
        0 <= a < b < p.len() && keys[p[a] as int] == keys[p[b] as int] ==> p[a] < p[b]
}

/// The order of `keys` from newest to oldest, equal keys in their given order.
pub fn newest_first_order(keys: &Vec<i128>) -> (p: Vec<usize>)
    ensures
        newest_first(keys@, p@),
{
    let n = keys.len();
    let mut p: Vec<usize> = Vec::new();
    let mut i: usize = 0;
    while i < n
        invariant
            i <= n,
            n == keys@.len(),
            p@.len() == i,
            forall|k: int| 0 <= k < p@.len() ==> #[trigger] p@[k] < i,
            p@.no_duplicates(),
            forall|a: int, b: int|
                #![trigger p@[a], p@[b]]
                0 <= a < b < p@.len() ==> keys@[p@[a] as int] >= keys@[p@[b] as int],
            forall|a: int, b: int|
                #![trigger p@[a], p@[b]]
                0 <= a < b < p@.len() && keys@[p@[a] as int] == keys@[p@[b] as int] ==> p@[a]
                    < p@[b],
        decreases n - i,
    {
        let ki = keys[i];
        let mut j: usize = 0;
        while j < p.len() && keys[p[j]] >= ki
            invariant
                j <= p@.len(),
                forall|k: int| 0 <= k < p@.len() ==> #[trigger] p@[k] < i,
                i < n,
                n == keys@.len(),
                ki == keys@[i as int],
                forall|k: int| 0 <= k < j ==> keys@[#[trigger] p@[k] as int] >= ki,
            decreases p@.len() - j,
        {
            j = j + 1;
        }
        let ghost old_p = p@;
        proof {
            assert forall|k: int| j <= k < old_p.len() implies keys@[#[trigger] old_p[k] as int]
                < ki by {
                assert(keys@[old_p[j as int] as int] < ki);
                if k > j {
                    assert(keys@[old_p[j as int] as int] >= keys@[old_p[k] as int]);
                }
            }
        }
        p.insert(j, i);
        proof {
            let np = p@;
            assert(np == old_p.insert(j as int, i));
            assert forall|k: int| 0 <= k < np.len() implies #[trigger] np[k] < i + 1 by {
                if k < j {
                    assert(np[k] == old_p[k]);
                } else if k > j {
                    assert(np[k] == old_p[k - 1]);
                }
            }
            assert forall|a: int, b: int| 0 <= a < b < np.len() implies np[a] != np[b] by {
                if a < j && b < j {
                    assert(np[a] == old_p[a] && np[b] == old_p[b]);
                } else if a < j && b == j {
                    assert(np[a] == old_p[a]);
                } else if a < j && b > j {
                    assert(np[a] == old_p[a] && np[b] == old_p[b - 1]);
                } else if a == j {
                    assert(np[b] == old_p[b - 1]);
                } else {
                    assert(np[a] == old_p[a - 1] && np[b] == old_p[b - 1]);
                }
            }
            assert forall|a: int, b: int|
                #![trigger np[a], np[b]]
                0 <= a < b < np.len() implies keys@[np[a] as int] >= keys@[np[b] as int] && (
                keys@[np[a] as int] == keys@[np[b] as int] ==> np[a] < np[b]) by {
                if a < j && b < j {
                    assert(np[a] == old_p[a] && np[b] == old_p[b]);
                } else if a < j && b == j {
                    assert(np[a] == old_p[a]);
                } else if a < j && b > j {
                    assert(np[a] == old_p[a] && np[b] == old_p[b - 1]);
                } else if a == j {
                    assert(np[b] == old_p[b - 1]);
                    assert(keys@[old_p[b - 1] as int] < ki);
                } else {
                    assert(np[a] == old_p[a - 1] && np[b] == old_p[b - 1]);
                }
            }
        }
        i = i + 1;
    }
    p
}

/// The picker entry of the `k`-th saved playlist.
pub open spec fn playlist_entry(playlists: Seq<PlaylistFile>, k: usize) -> SourceEntry {
    SourceEntry::Playlist { path: playlists[k as int].path, name: playlists[k as int].name }
}

/// The picker entries: the start-up directory, the recent directories other
/// than it (newest first), then the saved playlists in `order`.
pub open spec fn entries_spec(
    source_dir: String,
    recent: Seq<String>,
    playlists: Seq<PlaylistFile>,
    order: Seq<usize>,
) -> Seq<SourceEntry> {
    seq![SourceEntry::Directory(source_dir)] + other_recent(recent, source_dir@) + order.map_values(
        |k: usize| playlist_entry(playlists, k),
    )
}

/// Recent-directory entries for the directories other than `source` (compared as
/// paths).
pub open spec fn other_recent(recent: Seq<String>, source: Seq<char>) -> Seq<SourceEntry>
    decreases recent.len(),
{
    if recent.len() == 0 {
        Seq::empty()
    } else if same_path(recent.last()@, source) {
        other_recent(recent.drop_last(), source)
    } else {
        other_recent(recent.drop_last(), source).push(SourceEntry::RecentDir(recent.last()))
    }
}

/// The modification times of the playlists.
pub open spec fn mtimes(playlists: Seq<PlaylistFile>) -> Seq<i128> {
    playlists.map_values(|f: PlaylistFile| f.mtime)
}

/// Builds the source picker's entries from the start-up directory, the recent
/// directories and the saved playlists found on disk.
pub fn source_entries(source_dir: &String, recent: &Vec<String>, playlists: Vec<PlaylistFile>) -> (r:
    Vec<SourceEntry>)
    ensures
        exists|order: Seq<usize>|
            newest_first(mtimes(playlists@), order) && r@ == entries_spec(
                *source_dir,
                recent@,
                playlists@,
                order,
            ),
{
    let mut r: Vec<SourceEntry> = Vec::new();
    r.push(SourceEntry::Directory(source_dir.clone()));
    let n = recent.len();
    let mut i: usize = 0;
    while i < n
        invariant
            i <= n,
            n == recent@.len(),
            r@ == seq![SourceEntry::Directory(*source_dir)] + other_recent(
                recent@.take(i as int),
                source_dir@,
            ),
        decreases n - i,
    {
        assert(recent@.take(i + 1).drop_last() =~= recent@.take(i as int));
        if !same_dir(recent[i].as_str(), source_dir.as_str()) {
            r.push(SourceEntry::RecentDir(recent[i].clone()));
            assert(r@ =~= seq![SourceEntry::Directory(*source_dir)] + other_recent(
                recent@.take(i + 1),
                source_dir@,
            ));
        } else {
            assert(r@ =~= seq![SourceEntry::Directory(*source_dir)] + other_recent(
                recent@.take(i + 1),
                source_dir@,
            ));
        }
        i = i + 1;
    }
    assert(recent@.take(n as int) =~= recent@);
    let m = playlists.len();
    let mut keys: Vec<i128> = Vec::new();
    let mut k: usize = 0;
    while k < m
        invariant
            k <= m,
            m == playlists@.len(),
            keys@ == mtimes(playlists@).take(k as int),
        decreases m - k,
    {
        keys.push(playlists[k].mtime);
        k = k + 1;
        assert(keys@ =~= mtimes(playlists@).take(k as int));
    }
    assert(keys@ =~= mtimes(playlists@));
    let order = newest_first_order(&keys);
    let ghost head = r@;
    let mut j: usize = 0;
    while j < m
        invariant
            j <= m,
            m == playlists@.len(),
            order@.len() == m,
            newest_first(keys@, order@),
            keys@ == mtimes(playlists@),
            r@ == head + order@.take(j as int).map_values(
                |k: usize| playlist_entry(playlists@, k),
            ),
        decreases m - j,
    {
        let idx = order[j];
        assert(idx < m);
        let f = &playlists[idx];
        r.push(SourceEntry::Playlist { path: f.path.clone(), name: f.name.clone() });
        j = j + 1;
        assert(r@ =~= head + order@.take(j as int).map_values(
            |k: usize| playlist_entry(playlists@, k),
        ));
    }
    assert(order@.take(m as int) =~= order@);
    r
}

/// Two orders that both list `keys` newest first with ties in given order are
/// the same: the playlist part of the picker is fully determined.
pub proof fn lemma_newest_first_unique(keys: Seq<i128>, p: Seq<usize>, q: Seq<usize>)
    requires
        keys.len() <= usize::MAX,
        newest_first(keys, p),
        newest_first(keys, q),
    ensures
        p == q,
{
    assert forall|i: int| 0 <= i < p.len() implies p[i] == q[i] by {
        lemma_rank(keys, p, i);
        lemma_rank(keys, q, i);
        lemma_rank_determines(keys, p, q, i);
    }
    assert(p =~= q);
}

/// The rank of an index: how many indices come before it in a newest-first order.
pub open spec fn before(keys: Seq<i128>, x: int, y: int) -> bool {
    keys[y] > keys[x] || (keys[y] == keys[x] && y < x)
}

proof fn lemma_rank(keys: Seq<i128>, p: Seq<usize>, i: int)
    requires
        newest_first(keys, p),
        0 <= i < p.len(),
    ensures
        forall|j: int| 0 <= j < p.len() ==> (j < i <==> before(keys, p[i] as int, #[trigger] p[j] as int)),
{
    assert forall|j: int| 0 <= j < p.len() implies (j < i <==> before(
        keys,
        p[i] as int,
        #[trigger] p[j] as int,
    )) by {
        if j < i {
            assert(keys[p[j] as int] >= keys[p[i] as int]);
        } else if j > i {
            assert(keys[p[i] as int] >= keys[p[j] as int]);
            assert(p[i] != p[j]);
        }
    }
}

proof fn lemma_perm_contains(keys: Seq<i128>, p: Seq<usize>, x: usize)
    requires
        keys.len() <= usize::MAX,
        newest_first(keys, p),
        x < keys.len(),
    ensures
        exists|j: int| 0 <= j < p.len() && p[j] == x,
{
    let s = Set::new(|v: usize| v < keys.len());
    let ps = p.to_set();
    if !p.contains(x) {
        assert forall|v: usize| ps.contains(v) implies s.remove(x).contains(v) by {
            let j = choose|j: int| 0 <= j < p.len() && p[j] == v;
        }
        lemma_range_set_len(keys.len());
        vstd::set_lib::lemma_len_subset(ps, s.remove(x));
        p.unique_seq_to_set();
        assert(s.contains(x));
    }
}

proof fn lemma_range_set_len(n: nat)
    requires
        n <= usize::MAX + 1,
    ensures
        Set::new(|v: usize| v < n).finite(),
        Set::new(|v: usize| v < n).len() == n,
    decreases n,
{
    if n == 0 {
        assert(Set::new(|v: usize| v < n) =~= Set::<usize>::empty());
    } else {
        lemma_range_set_len((n - 1) as nat);
        assert(Set::new(|v: usize| v < n) =~= Set::new(|v: usize| v < (n - 1) as nat).insert(
            (n - 1) as usize,
        ));
    }
}

proof fn lemma_rank_determines(keys: Seq<i128>, p: Seq<usize>, q: Seq<usize>, i: int)
    requires
        keys.len() <= usize::MAX,
        newest_first(keys, p),
        newest_first(keys, q),
        0 <= i < p.len(),
        forall|j: int| 0 <= j < p.len() ==> (j < i <==> before(keys, p[i] as int, #[trigger] p[j] as int)),
        forall|j: int| 0 <= j < q.len() ==> (j < i <==> before(keys, q[i] as int, #[trigger] q[j] as int)),
    ensures
        p[i] == q[i],
{
    if p[i] != q[i] {
        let x = p[i] as int;
        let y = q[i] as int;
        // one of them comes first in the order
        if before(keys, x, y) {
            // y comes before x in p, so y is at a position below i in p; then in q the
            // indices before y include all those before it ... count argument
            lemma_perm_contains(keys, p, y as usize);
            let jy = choose|j: int| 0 <= j < p.len() && p[j] == y as usize;
            assert(jy < i);
            lemma_count_before(keys, p, q, i);
        } else {
            lemma_perm_contains(keys, q, x as usize);
            lemma_count_before(keys, q, p, i);
            assert(before(keys, y, x) || x == y) by {
                if !before(keys, x, y) {
                    assert(keys[y] > keys[x] || (keys[y] == keys[x] && y <= x));
                }
            }
        }
    }
}

proof fn lemma_count_before(keys: Seq<i128>, p: Seq<usize>, q: Seq<usize>, i: int)
    requires
        keys.len() <= usize::MAX,
        newest_first(keys, p),
        newest_first(keys, q),
        0 <= i < p.len(),
        forall|j: int| 0 <= j < p.len() ==> (j < i <==> before(keys, p[i] as int, #[trigger] p[j] as int)),
        forall|j: int| 0 <= j < q.len() ==> (j < i <==> before(keys, q[i] as int, #[trigger] q[j] as int)),
    ensures
        !(p[i] != q[i] && before(keys, p[i] as int, q[i] as int)),
{
    if p[i] != q[i] && before(keys, p[i] as int, q[i] as int) {
        // every index before q[i] is before p[i]; q[i] itself is before p[i] too:
        // that is i + 1 indices before p[i], but p has only i of them.
        let x = p[i] as int;
        let y = q[i] as int;
        let bx = Set::new(|v: usize| (v as int) < keys.len() && before(keys, x, v as int));
        let qi = q.take(i + 1);
        let pre = qi.to_set();
        assert forall|v: usize| pre.contains(v) implies bx.contains(v) by {
            let j = choose|j: int| 0 <= j < qi.len() && qi[j] == v;
            assert(q[j] == v);
            if j < i {
                assert(before(keys, y, v as int));
            }
        }
        let pb = p.take(i).to_set();
        assert forall|v: usize| bx.contains(v) implies pb.contains(v) by {
            lemma_perm_contains(keys, p, v);
            let j = choose|j: int| 0 <= j < p.len() && p[j] == v;
            assert(j < i);
            assert(p.take(i)[j] == v);
        }
        assert(qi.no_duplicates()) by {
            assert forall|a: int, b: int| 0 <= a < b < qi.len() implies qi[a] != qi[b] by {
                assert(qi[a] == q[a] && qi[b] == q[b]);
            }
        }
        qi.unique_seq_to_set();
        p.take(i).lemma_cardinality_of_set();
        vstd::set_lib::lemma_len_subset(bx, pb);
        vstd::set_lib::lemma_len_subset(pre, bx);
        assert(false);
    }
}

/// Search covers the whole list: for a non-empty query, a track is in the result
/// exactly when its title, artist or album, lowercased, contains the lowercased
/// query, and the result lists them in list order; an empty query lists every
/// track in order.
pub proof fn lemma_search_complete(tracks: Seq<TrackInfo>, query: Seq<char>)
    requires
        tracks.len() <= usize::MAX,
    ensures
        forall|k: int|
            0 <= k < search_result(tracks, query).len() ==> search_result(tracks, query)[k]
                < tracks.len(),
        forall|a: int, b: int|
            0 <= a < b < search_result(tracks, query).len() ==> search_result(tracks, query)[a]
                < search_result(tracks, query)[b],
        query.len() > 0 ==> forall|i: int|
            0 <= i < tracks.len() ==> (search_result(tracks, query).contains(i as usize) <==> (
            contains_seq(lowercase(tracks[i].title@), lowercase(query)) || contains_seq(
                lowercase(tracks[i].artist@),
                lowercase(query),
            ) || contains_seq(lowercase(tracks[i].album@), lowercase(query)))),
        query.len() == 0 ==> search_result(tracks, query).len() == tracks.len() && forall|k: int|
            0 <= k < tracks.len() ==> search_result(tracks, query)[k] == k,
{
    lemma_search_ordered(tracks, lowercase(query), tracks.len() as int);
}

} // verus!
