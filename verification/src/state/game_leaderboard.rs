//! The ranked leaderboard: at most a hundred entries, highest score first,
//! one entry per identity.

use vstd::prelude::*;
use crate::bytes::bytes_equal;

verus! {

/// The most entries that a leaderboard holds.
pub const LEADERBOARD_CAPACITY: usize = 100;

/// One entry of a leaderboard.
#[derive(Clone, Copy, Debug, PartialEq)]
pub struct LeaderboardEntry {
    /// The identity, null-padded.
    pub user_id: [u8; 64],
    /// The score by which entries are ranked.
    pub score: u64,
    /// Wins this season.
    pub wins: u32,
    /// Games played this season.
    pub games_played: u32,
    /// When the entry was last updated.
    pub timestamp: i64,
}

impl LeaderboardEntry {
    /// The stored size of an entry.
    pub const SIZE: usize = 64 + 8 + 4 + 4 + 8;
}

/// The leaderboard of one game type in one season, in its stored layout.
#[derive(Clone, Copy, Debug)]
pub struct GameLeaderboard {
    /// Game-type code.
    pub game_type: u8,
    /// The season that the board belongs to.
    pub season_id: u64,
    /// Number of entries in use.
    pub entry_count: u8,
    /// The entries; the first `entry_count` are in use, best first.
    pub entries: [LeaderboardEntry; 100],
    /// When the board was last updated.
    pub last_updated: i64,
}

/// Scores never increase from one rank to the next.
pub open spec fn sorted_desc(s: Seq<LeaderboardEntry>) -> bool {
    forall|i: int, j: int| 0 <= i < j < s.len() ==> s[i].score >= s[j].score
}

/// Scores decrease from each rank to the next.
pub open spec fn strictly_desc(s: Seq<LeaderboardEntry>) -> bool {
    forall|i: int, j: int| 0 <= i < j < s.len() ==> s[i].score > s[j].score
}

/// No identity has two entries.
pub open spec fn ids_distinct(s: Seq<LeaderboardEntry>) -> bool {
    forall|i: int, j: int| 0 <= i < j < s.len() ==> s[i].user_id@ != s[j].user_id@
}

/// Whether `id` has an entry.
pub open spec fn has_user(s: Seq<LeaderboardEntry>, id: Seq<u8>) -> bool {
    exists|i: int| 0 <= i < s.len() && (#[trigger] s[i]).user_id@ == id
}

/// The invariant of a ranking: within capacity, best first, one entry per
/// identity.
pub open spec fn board_wf(s: Seq<LeaderboardEntry>) -> bool {
    &&& s.len() <= LEADERBOARD_CAPACITY
    &&& sorted_desc(s)
    &&& ids_distinct(s)
}

/// The index of the first entry of `id`, or the length when it has none.
pub open spec fn position_of(s: Seq<LeaderboardEntry>, id: Seq<u8>) -> int
    decreases s.len(),
{
    if s.len() == 0 {
        0
    } else if s[0].user_id@ == id {
        0
    } else {
        1 + position_of(s.drop_first(), id)
    }
}

/// The ranking without the entry of `id`.
pub open spec fn without_user(s: Seq<LeaderboardEntry>, id: Seq<u8>) -> Seq<LeaderboardEntry> {
    let p = position_of(s, id);
    if 0 <= p < s.len() {
        s.remove(p)
    } else {
        s
    }
}

/// Where an entry with `score` goes: behind every leading entry whose
/// score is at least as high, so that among equal scores the entry that
/// came first ranks first.
pub open spec fn insertion_point(s: Seq<LeaderboardEntry>, score: u64) -> int
    decreases s.len(),
{
    if s.len() == 0 || s[0].score < score {
        0
    } else {
        1 + insertion_point(s.drop_first(), score)
    }
}

/// Whether an entry is taken at all: the board has room, or the entry
/// beats the last rank.
pub open spec fn qualifies(s: Seq<LeaderboardEntry>, e: LeaderboardEntry) -> bool {
    s.len() < LEADERBOARD_CAPACITY || e.score > s.last().score
}

/// The ranking after `e` was taken: the old entry of the identity is
/// removed, `e` is placed at its insertion point, and what then exceeds
/// the capacity is dropped from the end.
pub open spec fn inserted(s: Seq<LeaderboardEntry>, e: LeaderboardEntry) -> Seq<LeaderboardEntry> {
    let rest = without_user(s, e.user_id@);
    let t = rest.insert(insertion_point(rest, e.score), e);
    if t.len() > LEADERBOARD_CAPACITY {
        t.take(LEADERBOARD_CAPACITY as int)
    } else {
        t
    }
}

/// What inserting or updating does: `None` when the entry does not
/// qualify, else the new ranking.
pub open spec fn insert_spec(s: Seq<LeaderboardEntry>, e: LeaderboardEntry) -> Option<
    Seq<LeaderboardEntry>,
> {
    if qualifies(s, e) {
        Some(inserted(s, e))
    } else {
        None
    }
}

/// The rank of `id`, counted from 1; 0 when it has no entry.
pub open spec fn rank_of(s: Seq<LeaderboardEntry>, id: Seq<u8>) -> int {
    let p = position_of(s, id);
    if 0 <= p < s.len() {
        p + 1
    } else {
        0
    }
}

/// What `position_of` returns: the first index that holds `id`.
pub proof fn lemma_position_of(s: Seq<LeaderboardEntry>, id: Seq<u8>)
    ensures
        0 <= position_of(s, id) <= s.len(),
        forall|j: int| 0 <= j < position_of(s, id) ==> (#[trigger] s[j]).user_id@ != id,
        position_of(s, id) < s.len() ==> s[position_of(s, id)].user_id@ == id,
    decreases s.len(),
{
    if s.len() > 0 && s[0].user_id@ != id {
        let t = s.drop_first();
        lemma_position_of(t, id);
        assert forall|j: int| 0 <= j < position_of(s, id) implies (#[trigger] s[j]).user_id@ != id by {
            if j > 0 {
                assert(s[j] == t[j - 1]);
            }
        }
    }
}

/// An index that holds `id`, with none before it that does, is its position.
pub proof fn lemma_position_is(s: Seq<LeaderboardEntry>, id: Seq<u8>, k: int)
    requires
        0 <= k <= s.len(),
        forall|j: int| 0 <= j < k ==> (#[trigger] s[j]).user_id@ != id,
        k < s.len() ==> s[k].user_id@ == id,
    ensures
        position_of(s, id) == k,
{
    lemma_position_of(s, id);
    let p = position_of(s, id);
    if p < k {
        assert(s[p].user_id@ != id);
    } else if k < p {
        assert(s[k].user_id@ != id);
    }
}

/// What `insertion_point` returns: the length of the longest prefix whose
/// scores are all at least `score`.
pub proof fn lemma_insertion_point(s: Seq<LeaderboardEntry>, score: u64)
    ensures
        0 <= insertion_point(s, score) <= s.len(),
        forall|j: int| 0 <= j < insertion_point(s, score) ==> (#[trigger] s[j]).score >= score,
        insertion_point(s, score) < s.len() ==> s[insertion_point(s, score)].score < score,
    decreases s.len(),
{
    if s.len() > 0 && s[0].score >= score {
        let t = s.drop_first();
        lemma_insertion_point(t, score);
        assert forall|j: int| 0 <= j < insertion_point(s, score) implies (#[trigger] s[j]).score
            >= score by {
            if j > 0 {
                assert(s[j] == t[j - 1]);
            }
        }
    }
}

/// An index with only scores of at least `score` before it, and a lower
/// score at it, is the insertion point.
pub proof fn lemma_insertion_point_is(s: Seq<LeaderboardEntry>, score: u64, k: int)
    requires
        0 <= k <= s.len(),
        forall|j: int| 0 <= j < k ==> (#[trigger] s[j]).score >= score,
        k < s.len() ==> s[k].score < score,
    ensures
        insertion_point(s, score) == k,
{
    lemma_insertion_point(s, score);
    let p = insertion_point(s, score);
    if p < k {
        assert(s[p].score >= score);
    } else if k < p {
        assert(s[k].score >= score);
    }
}

/// Removing the entry of an identity keeps the invariant and leaves the
/// identity without an entry.
pub proof fn lemma_without_user(s: Seq<LeaderboardEntry>, id: Seq<u8>)
    requires
        board_wf(s),
    ensures
        board_wf(without_user(s, id)),
        !has_user(without_user(s, id), id),
        without_user(s, id).len() == (if has_user(s, id) {
            s.len() - 1
        } else {
            s.len() as int
        }),
        strictly_desc(s) ==> strictly_desc(without_user(s, id)),
{
    lemma_position_of(s, id);
    let p = position_of(s, id);
    let r = without_user(s, id);
    if p < s.len() {
        assert(s[p].user_id@ == id);
        assert forall|j: int| 0 <= j < r.len() implies (#[trigger] r[j]).user_id@ != id by {
            if j < p {
                assert(r[j] == s[j]);
            } else {
                assert(r[j] == s[j + 1]);
            }
        }
        assert forall|i: int, j: int| 0 <= i < j < r.len() implies r[i].score >= r[j].score
            && r[i].user_id@ != r[j].user_id@ && (strictly_desc(s) ==> r[i].score > r[j].score) by {
            let a = if i < p { i } else { i + 1 };
            let b = if j < p { j } else { j + 1 };
            assert(r[i] == s[a] && r[j] == s[b]);
        }
    } else {
        assert forall|j: int| 0 <= j < s.len() implies (#[trigger] s[j]).user_id@ != id by {}
    }
}

/// Taking an entry keeps the invariant: the ranking stays within capacity,
/// best first, with one entry per identity; the entry taken is on it.
pub proof fn lemma_inserted_wf(s: Seq<LeaderboardEntry>, e: LeaderboardEntry)
    requires
        board_wf(s),
        qualifies(s, e),
    ensures
        board_wf(inserted(s, e)),
        has_user(inserted(s, e), e.user_id@),
        inserted(s, e)[insertion_point(without_user(s, e.user_id@), e.score)] == e,
        insertion_point(without_user(s, e.user_id@), e.score) < inserted(s, e).len(),
{
    let id = e.user_id@;
    lemma_without_user(s, id);
    let rest = without_user(s, id);
    lemma_insertion_point(rest, e.score);
    let p = insertion_point(rest, e.score);
    let t = rest.insert(p, e);
    assert(t[p] == e);
    assert forall|i: int, j: int| 0 <= i < j < t.len() implies t[i].score >= t[j].score
        && t[i].user_id@ != t[j].user_id@ by {
        if i == p {
            assert(t[j] == rest[j - 1]);
            assert(rest[p].score < e.score);
            if j - 1 > p {
                assert(rest[p].score >= rest[j - 1].score);
            }
            assert(rest[j - 1].user_id@ != id);
        } else if j == p {
            assert(t[i] == rest[i]);
            assert(rest[i].score >= e.score);
            assert(rest[i].user_id@ != id);
        } else {
            let a = if i < p { i } else { i - 1 };
            let b = if j < p { j } else { j - 1 };
            assert(t[i] == rest[a] && t[j] == rest[b]);
        }
    }
    if t.len() > LEADERBOARD_CAPACITY {
        // the board was full and the identity new: the entry beats the last rank
        assert(rest == s);
        assert(s.last().score < e.score);
        if p == s.len() {
            assert(s[s.len() - 1].score >= e.score);
        }
        assert(p < 100);
        let u = t.take(100);
        assert(u[p] == e);
    }
    assert(inserted(s, e)[p] == e);
}

/// Where no other identity on the board has the score of the entry taken,
/// a strictly descending ranking stays strictly descending.
pub proof fn lemma_inserted_strict(s: Seq<LeaderboardEntry>, e: LeaderboardEntry)
    requires
        board_wf(s),
        strictly_desc(s),
        qualifies(s, e),
        forall|j: int|
            0 <= j < s.len() && (#[trigger] s[j]).user_id@ != e.user_id@ ==> s[j].score != e.score,
    ensures
        strictly_desc(inserted(s, e)),
{
    let id = e.user_id@;
    lemma_without_user(s, id);
    lemma_position_of(s, id);
    let rest = without_user(s, id);
    lemma_insertion_point(rest, e.score);
    let p = insertion_point(rest, e.score);
    let t = rest.insert(p, e);
    let q = position_of(s, id);
    assert forall|j: int| 0 <= j < rest.len() implies (#[trigger] rest[j]).score != e.score by {
        if q < s.len() {
            let a = if j < q { j } else { j + 1 };
            assert(rest[j] == s[a]);
            if s[a].user_id@ == id {
                if a < q {
                    assert(s[a].user_id@ != s[q].user_id@);
                } else {
                    assert(s[q].user_id@ != s[a].user_id@);
                }
            }
        } else {
            assert(s[j].user_id@ != id);
        }
    }
    assert forall|i: int, j: int| 0 <= i < j < t.len() implies t[i].score > t[j].score by {
        if i == p {
            assert(t[j] == rest[j - 1]);
            assert(rest[p].score < e.score);
            if j - 1 > p {
                assert(rest[p].score > rest[j - 1].score);
            }
        } else if j == p {
            assert(t[i] == rest[i]);
            assert(rest[i].score >= e.score);
        } else {
            let a = if i < p { i } else { i - 1 };
            let b = if j < p { j } else { j - 1 };
            assert(t[i] == rest[a] && t[j] == rest[b]);
        }
    }
}

/// The ranking after a sequence of insert-or-update calls; a call whose
/// entry does not qualify changes nothing.
pub open spec fn after_inserts(s: Seq<LeaderboardEntry>, calls: Seq<LeaderboardEntry>) -> Seq<
    LeaderboardEntry,
>
    decreases calls.len(),
{
    if calls.len() == 0 {
        s
    } else {
        let t = after_inserts(s, calls.drop_last());
        match insert_spec(t, calls.last()) {
            Some(u) => u,
            None => t,
        }
    }
}

/// Whether no call of the sequence brings a score that another identity
/// on the board holds at that moment.
pub open spec fn tie_free(s: Seq<LeaderboardEntry>, calls: Seq<LeaderboardEntry>) -> bool
    decreases calls.len(),
{
    if calls.len() == 0 {
        true
    } else {
        let t = after_inserts(s, calls.drop_last());
        let e = calls.last();
        &&& tie_free(s, calls.drop_last())
        &&& (qualifies(t, e) ==> forall|j: int|
            0 <= j < t.len() && (#[trigger] t[j]).user_id@ != e.user_id@ ==> t[j].score != e.score)
    }
}

/// After any sequence of insert-or-update calls the ranking holds at most
/// a hundred entries, no identity twice, and its scores never increase
/// from one rank to the next.
pub proof fn lemma_after_inserts_wf(s: Seq<LeaderboardEntry>, calls: Seq<LeaderboardEntry>)
    requires
        board_wf(s),
    ensures
        board_wf(after_inserts(s, calls)),
    decreases calls.len(),
{
    if calls.len() > 0 {
        lemma_after_inserts_wf(s, calls.drop_last());
        let t = after_inserts(s, calls.drop_last());
        if qualifies(t, calls.last()) {
            lemma_inserted_wf(t, calls.last());
        }
    }
}

/// After a sequence of insert-or-update calls of which none brings a score
/// that another identity holds, the scores decrease strictly from each
/// rank to the next.
pub proof fn lemma_after_inserts_strict(s: Seq<LeaderboardEntry>, calls: Seq<LeaderboardEntry>)
    requires
        board_wf(s),
        strictly_desc(s),
        tie_free(s, calls),
    ensures
        strictly_desc(after_inserts(s, calls)),
    decreases calls.len(),
{
    if calls.len() > 0 {
        lemma_after_inserts_wf(s, calls.drop_last());
        lemma_after_inserts_strict(s, calls.drop_last());
        let t = after_inserts(s, calls.drop_last());
        if qualifies(t, calls.last()) {
            lemma_inserted_strict(t, calls.last());
        }
    }
}

/// On a full board an entry that does not beat the last rank is refused;
/// one that does is taken, and when its identity is new the identity of
/// the last rank leaves the board.
pub proof fn lemma_full_board(s: Seq<LeaderboardEntry>, e: LeaderboardEntry)
    requires
        board_wf(s),
        s.len() == LEADERBOARD_CAPACITY,
    ensures
        e.score <= s.last().score ==> insert_spec(s, e) is None,
        e.score > s.last().score ==> insert_spec(s, e) is Some && insert_spec(s, e)->0.len()
            == LEADERBOARD_CAPACITY && has_user(insert_spec(s, e)->0, e.user_id@),
        e.score > s.last().score && !has_user(s, e.user_id@) ==> !has_user(
            insert_spec(s, e)->0,
            s.last().user_id@,
        ),
{
    if e.score > s.last().score {
        let id = e.user_id@;
        lemma_inserted_wf(s, e);
        lemma_without_user(s, id);
        lemma_position_of(s, id);
        let rest = without_user(s, id);
        lemma_insertion_point(rest, e.score);
        if !has_user(s, id) {
            if position_of(s, id) < s.len() {
                assert(s[position_of(s, id)].user_id@ == id);
            }
            assert(rest == s);
            let p = insertion_point(s, e.score);
            let t = inserted(s, e);
            assert(s[99].user_id@ != id);
            assert forall|j: int| 0 <= j < t.len() implies (#[trigger] t[j]).user_id@
                != s.last().user_id@ by {
                if j < p {
                    assert(t[j] == s[j]);
                    assert(s[j].user_id@ != s[99].user_id@);
                } else if j > p {
                    assert(t[j] == s[j - 1]);
                    assert(s[j - 1].user_id@ != s[99].user_id@);
                }
            }
        }
    }
}

/// Moves the entries behind `idx` one place up, over the entry at `idx`.
fn remove_at(entries: &mut [LeaderboardEntry; 100], count: usize, idx: usize)
    requires
        idx < count <= 100,
    ensures
        final(entries)@.take(count - 1) == old(entries)@.take(count as int).remove(idx as int),
{
    let ghost before = entries@;
    let mut i: usize = idx;
    while i + 1 < count
        invariant
            idx <= i < count <= 100,
            forall|j: int| 0 <= j < idx ==> entries@[j] == before[j],
            forall|j: int| idx <= j < i ==> entries@[j] == before[j + 1],
            forall|j: int| i <= j < 100 ==> entries@[j] == before[j],
        decreases count - i,
    {
        let next = entries[i + 1];
        entries[i] = next;
        i += 1;
    }
    assert(entries@.take(count - 1) =~= before.take(count as int).remove(idx as int));
}

/// Moves the entries from `pos` on one place down, dropping the last one
/// of a full board, and puts `e` at `pos`.
fn insert_at(entries: &mut [LeaderboardEntry; 100], count: usize, pos: usize, e: LeaderboardEntry)
    requires
        pos <= count <= 100,
        pos < 100,
    ensures
        count < 100 ==> final(entries)@.take(count + 1) == old(entries)@.take(count as int).insert(
            pos as int,
            e,
        ),
        count == 100 ==> final(entries)@.take(100) == old(entries)@.take(100).insert(pos as int, e).take(
            100,
        ),
{
    let ghost before = entries@;
    let top: usize = if count < 100 {
        count
    } else {
        99
    };
    let mut i: usize = top;
    while i > pos
        invariant
            pos <= i <= top <= 99,
            top <= count <= 100,
            forall|j: int| 0 <= j <= i ==> entries@[j] == before[j],
            forall|j: int| i < j <= top ==> entries@[j] == before[j - 1],
        decreases i,
    {
        let prev = entries[i - 1];
        entries[i] = prev;
        i -= 1;
    }
    entries[pos] = e;
    if count < 100 {
        assert(entries@.take(count + 1) =~= before.take(count as int).insert(pos as int, e));
    } else {
        assert(entries@.take(100) =~= before.take(100).insert(pos as int, e).take(100));
    }
}

/// Binary search for the insertion point among the first `count` entries.
fn search_insertion_point(entries: &[LeaderboardEntry; 100], count: usize, score: u64) -> (r: usize)
    requires
        count <= 100,
        sorted_desc(entries@.take(count as int)),
    ensures
        r == insertion_point(entries@.take(count as int), score),
        r <= count,
{
    let ghost s = entries@.take(count as int);
    let mut left: usize = 0;
    let mut right: usize = count;
    while left < right
        invariant
            left <= right <= count <= 100,
            s == entries@.take(count as int),
            sorted_desc(s),
            forall|j: int| 0 <= j < left ==> (#[trigger] s[j]).score >= score,
            forall|j: int| right <= j < count ==> (#[trigger] s[j]).score < score,
        decreases right - left,
    {
        let mid = left + (right - left) / 2;
        assert(s[mid as int] == entries@[mid as int]);
        if entries[mid].score >= score {
            assert forall|j: int| 0 <= j < mid + 1 implies (#[trigger] s[j]).score >= score by {
                if j < mid {
                    assert(s[j].score >= s[mid as int].score);
                }
            }
            left = mid + 1;
        } else {
            assert forall|j: int| mid <= j < count implies (#[trigger] s[j]).score < score by {
                if j > mid {
                    assert(s[mid as int].score >= s[j].score);
                }
            }
            right = mid;
        }
    }
    proof {
        lemma_insertion_point_is(s, score, left as int);
    }
    left
}

/// Linear search for the entry of `user_id` among the first `count`.
fn search_user(entries: &[LeaderboardEntry; 100], count: usize, user_id: &[u8; 64]) -> (r: usize)
    requires
        count <= 100,
    ensures
        r == position_of(entries@.take(count as int), user_id@),
        r <= count,
{
    let ghost s = entries@.take(count as int);
    let mut i: usize = 0;
    while i < count
        invariant
            i <= count <= 100,
            s == entries@.take(count as int),
            forall|j: int| 0 <= j < i ==> (#[trigger] s[j]).user_id@ != user_id@,
        decreases count - i,
    {
        assert(s[i as int] == entries@[i as int]);
        if bytes_equal(&entries[i].user_id, user_id) {
            proof {
                lemma_position_is(s, user_id@, i as int);
            }
            return i;
        }
        i += 1;
    }
    proof {
        lemma_position_is(s, user_id@, count as int);
    }
    count
}

impl GameLeaderboard {
    /// The byte-size ceiling of a stored leaderboard.
    pub const MAX_SIZE: usize = 8 + 1 + 8 + 1 + (88 * 100) + 8;

    /// The ranking: the entries in use, best first.
    pub open spec fn ranked(&self) -> Seq<LeaderboardEntry> {
        self.entries@.take(
            if self.entry_count <= 100 {
                self.entry_count as int
            } else {
                100
            },
        )
    }

    /// The invariant of a leaderboard.
    pub open spec fn wf(&self) -> bool {
        self.entry_count <= LEADERBOARD_CAPACITY && board_wf(self.ranked())
    }

    /// An empty leaderboard for a game type and season.
    pub fn new(game_type: u8, season_id: u64, now: i64) -> (board: GameLeaderboard)
        ensures
            board.wf(),
            board.ranked() == Seq::<LeaderboardEntry>::empty(),
            board.game_type == game_type,
            board.season_id == season_id,
            board.last_updated == now,
    {
        let blank = LeaderboardEntry {
            user_id: [0u8; 64],
            score: 0,
            wins: 0,
            games_played: 0,
            timestamp: 0,
        };
        let board = GameLeaderboard {
            game_type,
            season_id,
            entry_count: 0,
            entries: [blank; 100],
            last_updated: now,
        };
        assert(board.ranked() =~= Seq::<LeaderboardEntry>::empty());
        board
    }

    /// Tests the invariant at run time.
    pub fn is_well_formed(&self) -> (r: bool)
        ensures
            r == self.wf(),
    {
        if self.entry_count > 100 {
            return false;
        }
        let count = self.entry_count as usize;
        let ghost s = self.ranked();
        let mut j: usize = 1;
        while j < count
            invariant
                1 <= j,
                count <= 100,
                count == self.entry_count,
                s == self.ranked(),
                count >= 1 ==> j <= count && board_wf(s.take(j as int)),
                count == 0 ==> board_wf(s),
            decreases count - j,
        {
            assert(s[j as int] == self.entries@[j as int]);
            assert(s[j - 1] == self.entries@[j - 1]);
            let ghost prefix = s.take(j as int);
            let ghost longer = s.take(j + 1);
            if self.entries[j - 1].score < self.entries[j].score {
                assert(!(s[j - 1].score >= s[j as int].score));
                return false;
            }
            let p = search_user(&self.entries, j, &self.entries[j].user_id);
            assert(self.entries@.take(j as int) =~= prefix);
            proof {
                lemma_position_of(prefix, s[j as int].user_id@);
            }
            if p < j {
                assert(prefix[p as int].user_id@ == s[j as int].user_id@);
                assert(s[p as int].user_id@ == s[j as int].user_id@);
                return false;
            }
            proof {
                assert forall|a: int, b: int| 0 <= a < b < longer.len() implies longer[a].score
                    >= longer[b].score && longer[a].user_id@ != longer[b].user_id@ by {
                    if b < j {
                        assert(prefix[a] == longer[a] && prefix[b] == longer[b]);
                    } else {
                        assert(prefix[a] == longer[a]);
                        assert(longer[b] == s[j as int]);
                        if a < j - 1 {
                            assert(prefix[a].score >= prefix[j - 1].score);
                        }
                    }
                }
            }
            j += 1;
        }
        proof {
            if count > 0 {
                assert(s.take(count as int) =~= s);
            }
        }
        true
    }

    /// Where an entry with `score` would be placed.
    pub fn find_insertion_point(&self, score: u64) -> (r: usize)
        requires
            self.wf(),
        ensures
            r == insertion_point(self.ranked(), score),
            r <= self.entry_count,
    {
        search_insertion_point(&self.entries, self.entry_count as usize, score)
    }

    /// Inserts an entry, or replaces the entry that its identity holds.
    /// Returns whether the entry was taken; a refused entry changes
    /// nothing.
    pub fn insert_entry(&mut self, entry: LeaderboardEntry) -> (taken: bool)
        requires
            old(self).wf(),
        ensures
            final(self).wf(),
            match insert_spec(old(self).ranked(), entry) {
                Some(s) => taken && final(self).ranked() == s,
                None => !taken && *final(self) == *old(self),
            },
            final(self).game_type == old(self).game_type,
            final(self).season_id == old(self).season_id,
            final(self).last_updated == old(self).last_updated,
    {
        let ghost s = self.ranked();
        let count = self.entry_count as usize;
        if count >= 100 {
            assert(s.last() == self.entries@[99]);
            if entry.score <= self.entries[count - 1].score {
                return false;
            }
        }
        proof {
            lemma_without_user(s, entry.user_id@);
            lemma_inserted_wf(s, entry);
            lemma_position_of(s, entry.user_id@);
        }
        let ghost rest = without_user(s, entry.user_id@);
        let at = search_user(&self.entries, count, &entry.user_id);
        let mut live = count;
        if at < count {
            remove_at(&mut self.entries, count, at);
            live = count - 1;
        }
        assert(self.entries@.take(live as int) == rest);
        let pos = search_insertion_point(&self.entries, live, entry.score);
        proof {
            lemma_insertion_point(rest, entry.score);
            if live == 100 {
                assert(rest == s);
                if pos == 100 {
                    assert(s[99].score >= entry.score);
                }
            }
        }
        insert_at(&mut self.entries, live, pos, entry);
        if live < 100 {
            self.entry_count = (live + 1) as u8;
        }
        assert(self.ranked() =~= inserted(s, entry));
        true
    }

    /// The rank of an identity, counted from 1; 0 when it has no entry.
    pub fn get_user_rank(&self, user_id: &[u8; 64]) -> (rank: u16)
        ensures
            rank == rank_of(self.ranked(), user_id@),
            rank <= LEADERBOARD_CAPACITY,
    {
        let count: usize = if self.entry_count <= 100 {
            self.entry_count as usize
        } else {
            100
        };
        let at = search_user(&self.entries, count, user_id);
        if at < count {
            (at + 1) as u16
        } else {
            0
        }
    }
}

} // verus!
