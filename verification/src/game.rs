//! The chart of a song, written in beats: the notes placed on it, and the
//! score of the current play-through.
use vstd::prelude::*;
use std::collections::BTreeSet;
use vstd::std_specs::btree::{increasing_seq, spec_btree_keys_iter};
use vstd::std_specs::cmp::OrdSpec;
use vstd::std_specs::iter::IteratorSpec;

use std::collections::VecDeque;

use crate::field::{discard_flagged, flagged_count, unflagged};
use crate::objects::{
    brick_type_from_index, brick_type_index, spec_brick_type_from_index, spec_brick_type_index,
    BrickType,
};

verus! {

broadcast use vstd::std_specs::btree::group_btree_axioms, vstd::laws_cmp::group_laws_cmp;

/// The key by which a note is ordered and found in a chart: its beat, its
/// column, its brick type, its last beat and whether it is held.
pub type NoteKey = (i32, i32, u8, i32, u8);

/// `a` comes strictly before `b` in the order of a chart.
pub open spec fn key_lt(a: NoteKey, b: NoteKey) -> bool {
    ||| a.0 < b.0
    ||| a.0 == b.0 && a.1 < b.1
    ||| a.0 == b.0 && a.1 == b.1 && a.2 < b.2
    ||| a.0 == b.0 && a.1 == b.1 && a.2 == b.2 && a.3 < b.3
    ||| a.0 == b.0 && a.1 == b.1 && a.2 == b.2 && a.3 == b.3 && a.4 < b.4
}

/// `s` lists its keys in strictly increasing chart order.
pub open spec fn strictly_sorted(s: Seq<NoteKey>) -> bool {
    forall|i: int, j: int| 0 <= i < j < s.len() ==> key_lt(#[trigger] s[i], #[trigger] s[j])
}

proof fn lemma_cmp_less_is_key_lt(a: NoteKey, b: NoteKey)
    requires
        a.cmp_spec(&b) is Less,
    ensures
        key_lt(a, b),
{
}

/// The keys of `notes`, in increasing chart order.
fn ordered_keys(notes: &BTreeSet<NoteKey>) -> (v: Vec<NoteKey>)
    ensures
        v@.to_set() == notes@,
        v@.len() == notes@.len(),
        strictly_sorted(v@),
{
    let ghost s = spec_btree_keys_iter(notes).remaining().unref();
    let mut v: Vec<NoteKey> = Vec::new();
    for k in it: notes.iter()
        invariant
            it.seq().unref() == s,
            v@.len() == it.index(),
            forall|j: int| 0 <= j < it.index() ==> v@[j] == *it.seq()[j],
    {
        v.push(*k);
    }
    proof {
        assert(v@ =~= s);
        let r = spec_btree_keys_iter(notes).remaining();
        assert(increasing_seq(r));
        assert(vstd::laws_cmp::obeys_cmp::<&NoteKey>());
        assert forall|i: int, j: int| 0 <= i < j < v@.len() implies key_lt(#[trigger] v@[i], #[trigger] v@[j]) by {
            assert(OrdSpec::cmp_spec(&r[i], &r[j]) is Less);
            lemma_cmp_less_is_key_lt(v@[i], v@[j]);
        }
    }
    v
}

/// The most notes a chart can hold: a full score of a hundred points a note
/// stays within an `i32`.
pub const MAX_NOTES: usize = 21474836;

/// Points for each brick broken.
pub const POINTS_PER_BRICK: i32 = 100;

/// A note of a chart: a brick of some type in some column, to be hit on a
/// beat, or held from that beat to its last beat.
#[derive(Clone, Copy, Debug, PartialEq, Eq, Structural)]
pub struct BrickData {
    pub brick_type: BrickType,
    pub beat_pos: i32,
    pub end_beat_pos: i32,
    pub x_pos: i32,
    pub is_hold_note: bool,
}

/// A key that stands for a note.
pub open spec fn valid_key(k: NoteKey) -> bool {
    k.2 < 3 && k.4 < 2
}

/// The note that a key stands for.
pub open spec fn note_of_key(k: NoteKey) -> BrickData {
    BrickData {
        brick_type: spec_brick_type_from_index(k.2),
        beat_pos: k.0,
        end_beat_pos: k.3,
        x_pos: k.1,
        is_hold_note: k.4 == 1,
    }
}

impl BrickData {
    /// The key of this note.
    pub open spec fn spec_key(self) -> NoteKey {
        (
            self.beat_pos,
            self.x_pos,
            spec_brick_type_index(self.brick_type),
            self.end_beat_pos,
            if self.is_hold_note { 1u8 } else { 0u8 },
        )
    }

    /// The key of this note.
    pub fn key(&self) -> (k: NoteKey)
        ensures
            k == self.spec_key(),
            valid_key(k),
            note_of_key(k) == *self,
    {
        (self.beat_pos, self.x_pos, brick_type_index(self.brick_type), self.end_beat_pos, if self.is_hold_note { 1u8 } else { 0u8 })
    }

    /// The note that `k` stands for.
    pub fn from_key(k: NoteKey) -> (b: BrickData)
        requires
            valid_key(k),
        ensures
            b == note_of_key(k),
            b.spec_key() == k,
    {
        BrickData {
            brick_type: brick_type_from_index(k.2),
            beat_pos: k.0,
            end_beat_pos: k.3,
            x_pos: k.1,
            is_hold_note: k.4 == 1,
        }
    }

    /// The note lies in column `x_pos` and is to be hit on beat `beat_pos`,
    /// or is held over it.
    pub open spec fn covers(self, beat_pos: i32, x_pos: i32) -> bool {
        &&& x_pos == self.x_pos
        &&& (beat_pos == self.beat_pos || (beat_pos > self.beat_pos && beat_pos <= self.end_beat_pos))
    }
}

/// The abstract value of a game: the keys of its chart's notes and its
/// score.
pub struct GameView {
    pub notes: Set<NoteKey>,
    pub score: i32,
    pub max_score: i32,
    pub bricks_broken: u8,
}

/// A game: the chart being played and the score of the play-through.
pub struct Game {
    notes: BTreeSet<NoteKey>,
    score: i32,
    max_score: i32,
    bricks_broken: u8,
}

impl View for Game {
    type V = GameView;

    closed spec fn view(&self) -> GameView {
        GameView {
            notes: self.notes@,
            score: self.score,
            max_score: self.max_score,
            bricks_broken: self.bricks_broken,
        }
    }
}

/// A well formed game: finitely many notes, all of them keys of notes, no
/// more than `MAX_NOTES`, and the best score is a hundred points a note.
pub open spec fn game_wf(g: GameView) -> bool {
    &&& g.notes.finite()
    &&& g.notes.len() <= MAX_NOTES
    &&& forall|k: NoteKey| #[trigger] g.notes.contains(k) ==> valid_key(k)
    &&& g.max_score == POINTS_PER_BRICK * g.notes.len()
}

impl Game {
    #[verifier::type_invariant]
    spec fn well_formed(self) -> bool {
        game_wf(self@)
    }

    /// A game without notes and without points.
    pub fn new() -> (g: Game)
        ensures
            g@.notes == Set::<NoteKey>::empty(),
            g@.score == 0,
            g@.max_score == 0,
            g@.bricks_broken == 0,
            game_wf(g@),
    {
        Game { notes: BTreeSet::new(), score: 0, max_score: 0, bricks_broken: 0 }
    }

    /// Tells verified callers that this game is well formed, so that the
    /// laws of this module apply to it; does nothing when run.
    pub fn assert_well_formed(&self)
        ensures
            game_wf(self@),
    {
        proof {
            use_type_invariant(self);
        }
    }

    /// The points scored so far.
    pub fn score(&self) -> (s: i32)
        ensures
            s == self@.score,
    {
        self.score
    }

    /// The points a play-through that breaks every brick scores.
    pub fn max_score(&self) -> (s: i32)
        ensures
            s == self@.max_score,
            s == POINTS_PER_BRICK * self@.notes.len(),
    {
        proof {
            use_type_invariant(self);
        }
        self.max_score
    }

    /// The number of notes in the chart.
    pub fn note_count(&self) -> (n: usize)
        ensures
            n == self@.notes.len(),
    {
        proof {
            use_type_invariant(self);
        }
        self.notes.len()
    }

    /// The number of bricks broken since they were last counted.
    pub fn bricks_broken_count(&self) -> (n: u8)
        ensures
            n == self@.bricks_broken,
    {
        self.bricks_broken
    }

    /// Returns the number of bricks broken since the last call and starts
    /// counting again from zero.
    pub fn bricks_broken(&mut self) -> (n: u8)
        ensures
            n == old(self)@.bricks_broken,
            final(self)@ == (GameView { bricks_broken: 0, ..old(self)@ }),
    {
        proof {
            use_type_invariant(&*self);
        }
        let n = self.bricks_broken;
        self.bricks_broken = 0;
        n
    }

    /// Starts the play-through over: no points, no bricks broken.
    pub fn reset_score(&mut self)
        ensures
            final(self)@ == (GameView { score: 0, bricks_broken: 0, ..old(self)@ }),
    {
        proof {
            use_type_invariant(&*self);
        }
        self.score = 0;
        self.bricks_broken = 0;
    }
    /// Puts `brick_data` into the chart; the best score grows with it, and
    /// the play-through starts over with no points and no bricks broken.
    pub fn add_brick(&mut self, brick_data: BrickData)
        requires
            old(self)@.notes.len() < MAX_NOTES,
        ensures
            final(self)@.notes == old(self)@.notes.insert(brick_data.spec_key()),
            final(self)@.max_score == POINTS_PER_BRICK * final(self)@.notes.len(),
            final(self)@.score == 0,
            final(self)@.bricks_broken == 0,
    {
        proof {
            use_type_invariant(&*self);
        }
        let mut taken = Game::new();
        std::mem::swap(self, &mut taken);
        let Game { mut notes, score: _, max_score: _, bricks_broken: _ } = taken;
        let k = brick_data.key();
        notes.insert(k);
        let max_score = (notes.len() as i32) * POINTS_PER_BRICK;
        *self = Game { notes, score: 0, max_score, bricks_broken: 0 };
    }

    /// Takes the note equal to `brick_data` out of the chart, if it is
    /// there; the best score shrinks with it, and the play-through starts
    /// over with no points and no bricks broken.
    pub fn remove_brick(&mut self, brick_data: BrickData)
        ensures
            final(self)@.notes == old(self)@.notes.remove(brick_data.spec_key()),
            final(self)@.max_score == POINTS_PER_BRICK * final(self)@.notes.len(),
            final(self)@.score == 0,
            final(self)@.bricks_broken == 0,
    {
        proof {
            use_type_invariant(&*self);
        }
        let mut taken = Game::new();
        std::mem::swap(self, &mut taken);
        let Game { mut notes, score: _, max_score: _, bricks_broken: _ } = taken;
        let k = brick_data.key();
        notes.remove(&k);
        let max_score = (notes.len() as i32) * POINTS_PER_BRICK;
        *self = Game { notes, score: 0, max_score, bricks_broken: 0 };
    }
    /// The note of the chart that lies in column `x_pos` and is hit on, or
    /// held over, beat `beat_pos`; where several do, the first in chart
    /// order. `None` when no note does.
    pub fn select_brick(&self, beat_pos: i32, x_pos: i32) -> (r: Option<BrickData>)
        ensures
            match r {
                None => forall|k: NoteKey| #[trigger] self@.notes.contains(k) ==> !note_of_key(k).covers(beat_pos, x_pos),
                Some(b) => {
                    &&& self@.notes.contains(b.spec_key())
                    &&& b.covers(beat_pos, x_pos)
                    &&& forall|k: NoteKey|
                        #[trigger] self@.notes.contains(k) && note_of_key(k).covers(beat_pos, x_pos)
                            ==> !key_lt(k, b.spec_key())
                },
            },
    {
        proof {
            use_type_invariant(self);
        }
        let keys = ordered_keys(&self.notes);
        let mut i: usize = 0;
        while i < keys.len()
            invariant
                i <= keys@.len(),
                keys@.to_set() == self@.notes,
                strictly_sorted(keys@),
                forall|k: NoteKey| #[trigger] self@.notes.contains(k) ==> valid_key(k),
                forall|j: int| 0 <= j < i ==> !note_of_key(#[trigger] keys@[j]).covers(beat_pos, x_pos),
            decreases keys@.len() - i,
        {
            let k = keys[i];
            proof {
                assert(keys@.to_set().contains(k));
            }
            if x_pos == k.1 && (beat_pos == k.0 || (beat_pos > k.0 && beat_pos <= k.3)) {
                let b = BrickData::from_key(k);
                proof {
                    assert forall|kk: NoteKey|
                        #[trigger] self@.notes.contains(kk) && note_of_key(kk).covers(beat_pos, x_pos)
                            implies !key_lt(kk, b.spec_key()) by {
                        assert(keys@.to_set().contains(kk));
                        let j = keys@.index_of(kk);
                        if j > i {
                            assert(key_lt(keys@[i as int], keys@[j]));
                        }
                    }
                }
                return Some(b);
            }
            if beat_pos < k.0 {
                proof {
                    assert forall|kk: NoteKey| #[trigger] self@.notes.contains(kk)
                        implies !note_of_key(kk).covers(beat_pos, x_pos) by {
                        assert(keys@.to_set().contains(kk));
                        let j = keys@.index_of(kk);
                        if j > i {
                            assert(key_lt(keys@[i as int], keys@[j]));
                        }
                    }
                }
                return None;
            }
            i = i + 1;
        }
        proof {
            assert forall|kk: NoteKey| #[trigger] self@.notes.contains(kk)
                implies !note_of_key(kk).covers(beat_pos, x_pos) by {
                assert(keys@.to_set().contains(kk));
                let j = keys@.index_of(kk);
                assert(keys@[j] == kk);
            }
        }
        None
    }

    /// Every note of the chart, in chart order.
    pub fn bricks(&self) -> (v: Vec<BrickData>)
        ensures
            v@.len() == self@.notes.len(),
            v@.map_values(|b: BrickData| b.spec_key()).to_set() == self@.notes,
            strictly_sorted(v@.map_values(|b: BrickData| b.spec_key())),
    {
        proof {
            use_type_invariant(self);
        }
        let keys = ordered_keys(&self.notes);
        let mut v: Vec<BrickData> = Vec::new();
        let mut i: usize = 0;
        while i < keys.len()
            invariant
                i <= keys@.len(),
                v@.len() == i,
                keys@.to_set() == self@.notes,
                forall|k: NoteKey| #[trigger] self@.notes.contains(k) ==> valid_key(k),
                forall|j: int| 0 <= j < i ==> (#[trigger] v@[j]).spec_key() == keys@[j],
            decreases keys@.len() - i,
        {
            proof {
                assert(keys@.to_set().contains(keys@[i as int]));
            }
            v.push(BrickData::from_key(keys[i]));
            i = i + 1;
        }
        proof {
            assert(v@.map_values(|b: BrickData| b.spec_key()) =~= keys@);
        }
        v
    }
    /// Breaks the bricks on the field whose flag in `struck` is set: they
    /// leave `bricks`, the others keep their order, and each scores a
    /// hundred points and counts as broken. Returns how many broke.
    pub fn break_bricks<T>(&mut self, bricks: &mut VecDeque<T>, struck: &Vec<bool>) -> (broken: usize)
        requires
            old(bricks)@.len() == struck@.len(),
            old(self)@.score + POINTS_PER_BRICK * flagged_count(struck@, struck@.len() as int) <= i32::MAX,
            old(self)@.bricks_broken + flagged_count(struck@, struck@.len() as int) <= u8::MAX,
        ensures
            final(bricks)@ == unflagged(old(bricks)@, struck@),
            broken == flagged_count(struck@, struck@.len() as int),
            final(self)@.score == old(self)@.score + POINTS_PER_BRICK * broken,
            final(self)@.bricks_broken == old(self)@.bricks_broken + broken,
            final(self)@.notes == old(self)@.notes,
            final(self)@.max_score == old(self)@.max_score,
    {
        proof {
            use_type_invariant(&*self);
        }
        let broken = discard_flagged(bricks, struck);
        self.score = self.score + POINTS_PER_BRICK * (broken as i32);
        self.bricks_broken = self.bricks_broken + (broken as u8);
        broken
    }
}

/// Adding a note that was not in the chart and then removing it leaves the
/// chart and its best score as they were.
pub proof fn lemma_remove_undoes_add(g: GameView, b: BrickData)
    requires
        game_wf(g),
        !g.notes.contains(b.spec_key()),
    ensures
        g.notes.insert(b.spec_key()).remove(b.spec_key()) == g.notes,
        POINTS_PER_BRICK * g.notes.insert(b.spec_key()).remove(b.spec_key()).len() == g.max_score,
{
    assert(g.notes.insert(b.spec_key()).remove(b.spec_key()) =~= g.notes);
}

/// Adding a note that is already in the chart changes nothing.
pub proof fn lemma_add_present_is_noop(g: GameView, b: BrickData)
    requires
        game_wf(g),
        g.notes.contains(b.spec_key()),
    ensures
        g.notes.insert(b.spec_key()) == g.notes,
{
    assert(g.notes.insert(b.spec_key()) =~= g.notes);
}

/// A note stands for itself through its key, and it covers its own beat in
/// its own column: once added, a selection at its beat and column finds a
/// note.
pub proof fn lemma_note_key_round_trip(b: BrickData)
    ensures
        valid_key(b.spec_key()),
        note_of_key(b.spec_key()) == b,
        b.covers(b.beat_pos, b.x_pos),
{
}

/// Each key stands for exactly one note.
pub proof fn lemma_key_determines_note(a: BrickData, b: BrickData)
    requires
        a.spec_key() == b.spec_key(),
    ensures
        a == b,
{
    assert(note_of_key(a.spec_key()) == a);
    assert(note_of_key(b.spec_key()) == b);
}

/// A note covers exactly the beats of its own column from its beat on: its
/// beat itself, and, after it, every beat up to its last beat.
pub proof fn lemma_covers(b: BrickData, beat_pos: i32, x_pos: i32)
    ensures
        b.covers(beat_pos, x_pos) <==> (x_pos == b.x_pos && b.beat_pos <= beat_pos
            && (beat_pos == b.beat_pos || beat_pos <= b.end_beat_pos)),
{
}

/// Chart order is a strict total order on keys led by the beat: an earlier
/// beat always comes first, no key comes before itself, the order is
/// transitive, and of two different keys one comes first.
pub proof fn lemma_chart_order(a: NoteKey, b: NoteKey, c: NoteKey)
    ensures
        a.0 < b.0 ==> key_lt(a, b),
        !key_lt(a, a),
        key_lt(a, b) && key_lt(b, c) ==> key_lt(a, c),
        a != b ==> key_lt(a, b) || key_lt(b, a),
        key_lt(a, b) ==> !key_lt(b, a),
{
}

} // verus!
