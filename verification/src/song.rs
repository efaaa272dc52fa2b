//! The notes of a song written in time, and how hitting them scores.
use vstd::prelude::*;

use crate::objects::{BrickType, BRICK_WIDTH, MAX_NOTES_PER_SCREEN_WIDTH};

verus! {

/// Points scored by breaking every note once, for each note.
pub const POINTS_PER_NOTE: i32 = 100;

/// The most notes a song can hold: a full score stays within an `i32`.
pub const MAX_SONG_NOTES: usize = 21474836;

/// How close to its time a brick was broken.
#[derive(Clone, Copy, Debug, PartialEq, Eq, Structural)]
pub enum Grade {
    Perfect,
    Good,
    Okay,
    Late,
}

impl Grade {
    /// Points for a brick broken with this grade.
    pub open spec fn spec_points(self) -> u64 {
        match self {
            Grade::Perfect => 100,
            Grade::Good => 90,
            Grade::Okay => 80,
            Grade::Late => 70,
        }
    }

    /// Points for a brick broken with this grade.
    pub fn points(self) -> (p: u64)
        ensures
            p == self.spec_points(),
    {
        match self {
            Grade::Perfect => 100,
            Grade::Good => 90,
            Grade::Okay => 80,
            Grade::Late => 70,
        }
    }
}

/// The grade of a brick broken within the perfect, good and ok windows as
/// the three flags tell; the windows are nested, the perfect one the
/// narrowest, and the tightest window that holds the hit decides.
pub open spec fn spec_grade_of(within_perfect: bool, within_good: bool, within_ok: bool) -> Grade {
    if within_perfect {
        Grade::Perfect
    } else if within_good {
        Grade::Good
    } else if within_ok {
        Grade::Okay
    } else {
        Grade::Late
    }
}

/// Breaking a brick closer to its time never scores less: a hundred points
/// for a perfect hit, ninety for a good one, eighty for an okay one and
/// seventy for a late one; the tightest window that holds a hit decides its
/// grade.
pub proof fn lemma_grades(within_perfect: bool, within_good: bool, within_ok: bool)
    ensures
        Grade::Perfect.spec_points() == 100,
        Grade::Good.spec_points() == 90,
        Grade::Okay.spec_points() == 80,
        Grade::Late.spec_points() == 70,
        within_perfect ==> spec_grade_of(within_perfect, within_good, within_ok) == Grade::Perfect,
        !within_perfect && within_good ==> spec_grade_of(within_perfect, within_good, within_ok) == Grade::Good,
        !within_perfect && !within_good && within_ok
            ==> spec_grade_of(within_perfect, within_good, within_ok) == Grade::Okay,
        !within_perfect && !within_good && !within_ok
            ==> spec_grade_of(within_perfect, within_good, within_ok) == Grade::Late,
{
}

/// The grade of a hit, from the timing windows that hold it.
pub fn grade_of(within_perfect: bool, within_good: bool, within_ok: bool) -> (g: Grade)
    ensures
        g == spec_grade_of(within_perfect, within_good, within_ok),
{
    if within_perfect {
        Grade::Perfect
    } else if within_good {
        Grade::Good
    } else if within_ok {
        Grade::Okay
    } else {
        Grade::Late
    }
}

/// The points of the grades among the first `n` of `grades`; a brick that
/// was not broken has no grade and scores nothing.
pub open spec fn points_of(grades: Seq<Option<Grade>>, n: int) -> nat
    decreases n,
{
    if n <= 0 {
        0
    } else {
        points_of(grades, n - 1) + match grades[n - 1] {
            Some(g) => g.spec_points() as nat,
            None => 0nat,
        }
    }
}

proof fn lemma_points_of_bound(grades: Seq<Option<Grade>>, n: int)
    requires
        0 <= n,
    ensures
        points_of(grades, n) <= 100 * n,
    decreases n,
{
    if n > 0 {
        lemma_points_of_bound(grades, n - 1);
    }
}

/// The points scored by the broken bricks among `grades`.
pub fn total_points(grades: &Vec<Option<Grade>>) -> (p: u64)
    requires
        grades@.len() <= u32::MAX,
    ensures
        p == points_of(grades@, grades@.len() as int),
{
    let mut total: u64 = 0;
    let mut i: usize = 0;
    while i < grades.len()
        invariant
            i <= grades@.len() <= u32::MAX,
            total == points_of(grades@, i as int),
            total <= 100 * i,
        decreases grades@.len() - i,
    {
        proof {
            lemma_points_of_bound(grades@, i + 1);
        }
        match grades[i] {
            Some(g) => {
                total = total + g.points();
            },
            None => {},
        }
        i = i + 1;
    }
    total
}

/// The points of a play-through that breaks each of `note_count` notes.
pub fn max_score_for(note_count: usize) -> (s: i32)
    requires
        note_count <= MAX_SONG_NOTES,
    ensures
        s == POINTS_PER_NOTE * note_count,
{
    let mut max: i32 = 0;
    let mut i: usize = 0;
    while i < note_count
        invariant
            i <= note_count <= MAX_SONG_NOTES,
            max == POINTS_PER_NOTE * i,
        decreases note_count - i,
    {
        max = max + POINTS_PER_NOTE;
        i = i + 1;
    }
    max
}

/// The column a note position falls in: positions past the last column
/// fall in the last one.
pub open spec fn spec_clamp_note_pos(pos: u8) -> u8 {
    if pos >= MAX_NOTES_PER_SCREEN_WIDTH {
        (MAX_NOTES_PER_SCREEN_WIDTH - 1) as u8
    } else {
        pos
    }
}

/// The column a note position falls in.
pub fn clamp_note_pos(pos: u8) -> (c: u8)
    ensures
        c == spec_clamp_note_pos(pos),
        c < MAX_NOTES_PER_SCREEN_WIDTH,
        pos < 16 ==> c == pos,
        pos >= 16 ==> c == 15,
{
    if pos >= MAX_NOTES_PER_SCREEN_WIDTH {
        MAX_NOTES_PER_SCREEN_WIDTH - 1
    } else {
        pos
    }
}

/// Every position short of the column count is its own column; every
/// other position falls in the last column.
pub proof fn lemma_clamp_note_pos(pos: u8)
    ensures
        pos < 16 ==> spec_clamp_note_pos(pos) == pos,
        pos >= 16 ==> spec_clamp_note_pos(pos) == 15,
{
}

/// The x coordinate of the left edge of the column of a note position.
pub fn note_pos_to_x(pos: u8) -> (x: u32)
    ensures
        x == BRICK_WIDTH * spec_clamp_note_pos(pos),
        pos < 16 ==> x == 120 * pos,
        pos >= 16 ==> x == 1800,
{
    let pos = clamp_note_pos(pos);
    BRICK_WIDTH * (pos as u32)
}

/// How toggling a place of the song changes the notes there.
#[derive(Clone, Copy, Debug, PartialEq, Eq, Structural)]
pub enum SlotChange {
    /// Take out the note of the first type and put in one of the second.
    Replace(BrickType, BrickType),
    /// Take out the note of this type.
    Remove(BrickType),
    /// Put in a note of this type.
    Insert(BrickType),
}

/// The change that toggling a place makes, given which brick types have a
/// note there: a note of the first type there turns into one of the
/// second, one of the second turns into one of the third, one of the third
/// is taken out, and an empty place gets a note of type `bt`. The types are
/// looked at in that order.
pub open spec fn spec_toggle_change(has1: bool, has2: bool, has3: bool, bt: BrickType) -> SlotChange {
    if has1 {
        SlotChange::Replace(BrickType::Type1, BrickType::Type2)
    } else if has2 {
        SlotChange::Replace(BrickType::Type2, BrickType::Type3)
    } else if has3 {
        SlotChange::Remove(BrickType::Type3)
    } else {
        SlotChange::Insert(bt)
    }
}

/// The change that toggling a place makes; see `spec_toggle_change`.
pub fn toggle_change(has1: bool, has2: bool, has3: bool, bt: BrickType) -> (c: SlotChange)
    ensures
        c == spec_toggle_change(has1, has2, has3, bt),
{
    if has1 {
        SlotChange::Replace(BrickType::Type1, BrickType::Type2)
    } else if has2 {
        SlotChange::Replace(BrickType::Type2, BrickType::Type3)
    } else if has3 {
        SlotChange::Remove(BrickType::Type3)
    } else {
        SlotChange::Insert(bt)
    }
}

/// Toggling looks at the types in order: a note of the first type turns
/// into one of the second whatever else is there, otherwise one of the
/// second turns into one of the third, otherwise one of the third is taken
/// out, and only an empty place gets a note of the chosen type.
pub proof fn lemma_toggle_priority(has1: bool, has2: bool, has3: bool, bt: BrickType)
    ensures
        has1 ==> spec_toggle_change(has1, has2, has3, bt) == SlotChange::Replace(BrickType::Type1, BrickType::Type2),
        !has1 && has2 ==> spec_toggle_change(has1, has2, has3, bt) == SlotChange::Replace(BrickType::Type2, BrickType::Type3),
        !has1 && !has2 && has3 ==> spec_toggle_change(has1, has2, has3, bt) == SlotChange::Remove(BrickType::Type3),
        !has1 && !has2 && !has3 ==> spec_toggle_change(has1, has2, has3, bt) == SlotChange::Insert(bt),
{
}

/// The brick types with a note at a place after a change.
pub open spec fn apply_change(slot: Set<BrickType>, c: SlotChange) -> Set<BrickType> {
    match c {
        SlotChange::Replace(from, to) => slot.remove(from).insert(to),
        SlotChange::Remove(t) => slot.remove(t),
        SlotChange::Insert(t) => slot.insert(t),
    }
}

/// The brick types with a note at a place after it is toggled with `bt`.
pub open spec fn toggled(slot: Set<BrickType>, bt: BrickType) -> Set<BrickType> {
    apply_change(
        slot,
        spec_toggle_change(
            slot.contains(BrickType::Type1),
            slot.contains(BrickType::Type2),
            slot.contains(BrickType::Type3),
            bt,
        ),
    )
}

/// Toggling an empty place puts a note of the chosen type there, each
/// further toggle moves it on to the next type, and the toggle after the
/// third type empties the place again; a place never holds two notes.
pub proof fn lemma_toggle_cycles(bt: BrickType, bt2: BrickType, bt3: BrickType, bt4: BrickType)
    ensures
        toggled(Set::empty(), bt) == set![bt],
        toggled(set![BrickType::Type1], bt2) == set![BrickType::Type2],
        toggled(set![BrickType::Type2], bt3) == set![BrickType::Type3],
        toggled(set![BrickType::Type3], bt4) == Set::<BrickType>::empty(),
{
    assert(toggled(Set::empty(), bt) =~= set![bt]);
    assert(toggled(set![BrickType::Type1], bt2) =~= set![BrickType::Type2]);
    assert(toggled(set![BrickType::Type2], bt3) =~= set![BrickType::Type3]);
    assert(toggled(set![BrickType::Type3], bt4) =~= Set::<BrickType>::empty());
}

/// The score of a play-through and the bricks broken since they were last
/// counted.
pub struct ScoreKeeper {
    pub score: i32,
    pub bricks_broken: u8,
}

impl ScoreKeeper {
    /// No points and no bricks broken.
    pub fn new() -> (k: ScoreKeeper)
        ensures
            k.score == 0,
            k.bricks_broken == 0,
    {
        ScoreKeeper { score: 0, bricks_broken: 0 }
    }

    /// The points scored so far.
    pub fn score(&self) -> (s: i32)
        ensures
            s == self.score,
    {
        self.score
    }

    /// Returns the number of bricks broken since the last call and starts
    /// counting again from zero.
    pub fn bricks_broken(&mut self) -> (n: u8)
        ensures
            n == old(self).bricks_broken,
            final(self).bricks_broken == 0,
            final(self).score == old(self).score,
    {
        let n = self.bricks_broken;
        self.bricks_broken = 0;
        n
    }

    /// Adds `points` for `count` bricks broken.
    pub fn record(&mut self, points: u64, count: usize)
        requires
            points <= i32::MAX,
            old(self).score + points <= i32::MAX,
            old(self).bricks_broken + count <= u8::MAX,
        ensures
            final(self).score == old(self).score + points,
            final(self).bricks_broken == old(self).bricks_broken + count,
    {
        self.score = self.score + (points as i32);
        self.bricks_broken = self.bricks_broken + (count as u8);
    }

    /// Starts over: no points, no bricks broken.
    pub fn reset(&mut self)
        ensures
            final(self).score == 0,
            final(self).bricks_broken == 0,
    {
        self.score = 0;
        self.bricks_broken = 0;
    }
}

/// The texts of the first `n` entries, separated by commas.
pub open spec fn joined_entries(entries: Seq<String>, n: int) -> Seq<char>
    decreases n,
{
    if n <= 0 {
        Seq::empty()
    } else if n == 1 {
        entries[0]@
    } else {
        joined_entries(entries, n - 1) + seq![','] + entries[n - 1]@
    }
}

/// The JSON array of the given entries: the entries between brackets,
/// separated by commas; without entries, an empty pair of brackets.
pub fn json_array(entries: &Vec<String>) -> (text: String)
    ensures
        text@ == seq!['['] + joined_entries(entries@, entries@.len() as int) + seq![']'],
{
    let mut text = String::new();
    text.append("[");
    proof {
        reveal_strlit("[");
        assert(text@ =~= seq!['['] + joined_entries(entries@, 0));
    }
    let mut i: usize = 0;
    while i < entries.len()
        invariant
            i <= entries@.len(),
            text@ == seq!['['] + joined_entries(entries@, i as int),
        decreases entries@.len() - i,
    {
        if i > 0 {
            text.append(",");
            proof {
                reveal_strlit(",");
            }
        }
        text.append(entries[i].as_str());
        proof {
            if i == 0 {
                assert(joined_entries(entries@, 1) == entries@[0]@);
                assert(text@ =~= seq!['['] + joined_entries(entries@, 1));
            } else {
                assert(joined_entries(entries@, i + 1)
                    == joined_entries(entries@, i as int) + seq![','] + entries@[i as int]@);
                assert(text@ =~= seq!['['] + joined_entries(entries@, i + 1));
            }
        }
        i = i + 1;
    }
    text.append("]");
    proof {
        reveal_strlit("]");
        assert(text@ =~= seq!['['] + joined_entries(entries@, entries@.len() as int) + seq![']']);
    }
    text
}

} // verus!
