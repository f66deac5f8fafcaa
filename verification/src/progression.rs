//! Chord progressions, and the search for the lowest capo fret at which a
//! progression needs no barre chord.

use crate::chord::{lemma_transposed_twice, lemma_transposed_wraps, lemma_transposed_zero, Chord};
use vstd::prelude::*;

verus! {

/// Whether some chord of the progression needs a barre.
pub open spec fn has_barre_chord(progression: Seq<Chord>) -> bool {
    exists|i: int| 0 <= i < progression.len() && (#[trigger] progression[i]).is_barre()
}

/// The progression with every chord `frets` semitones up, in the same order.
pub open spec fn transposed(progression: Seq<Chord>, frets: nat) -> Seq<Chord> {
    Seq::new(progression.len(), |i: int| progression[i].transposed(frets))
}

/// Whether the progression needs no barre chord with a capo on `fret`.
pub open spec fn playable_with_capo(progression: Seq<Chord>, fret: nat) -> bool {
    !has_barre_chord(transposed(progression, fret))
}

/// Whether `fret` is the lowest fret at which a capo rids the progression of
/// its barre chords. Fret 0 stands for no capo at all.
pub open spec fn lowest_capo_fret(progression: Seq<Chord>, fret: nat) -> bool {
    &&& playable_with_capo(progression, fret)
    &&& forall|lower: nat| lower < fret ==> !#[trigger] playable_with_capo(progression, lower)
}

/// The names of the chords in order, with one space between neighbours.
pub open spec fn joined_names(progression: Seq<Chord>) -> Seq<char>
    decreases progression.len(),
{
    if progression.len() == 0 {
        Seq::empty()
    } else if progression.len() == 1 {
        progression[0].name()
    } else {
        joined_names(progression.drop_last()) + " "@ + progression.last().name()
    }
}

/// Whether some chord of the progression needs a barre.
pub fn progression_has_barre_chord(p: &Vec<Chord>) -> (found: bool)
    ensures
        found == has_barre_chord(p@),
{
    let mut i: usize = 0;
    while i < p.len()
        invariant
            i <= p.len(),
            forall|j: int| 0 <= j < i ==> !(#[trigger] p@[j]).is_barre(),
        decreases p.len() - i,
    {
        if p[i].is_barre_chord() {
            return true;
        }
        i += 1;
    }
    false
}

/// Whether no chord of the progression needs a barre. An empty progression
/// has none.
pub fn progression_has_no_barre_chord(p: &Vec<Chord>) -> (none: bool)
    ensures
        none == !has_barre_chord(p@),
{
    !progression_has_barre_chord(p)
}

/// The progression with every chord `frets` semitones up, in the same order.
pub fn advance_progression(p: &Vec<Chord>, frets: u8) -> (advanced: Vec<Chord>)
    ensures
        advanced@ == transposed(p@, frets as nat),
{
    let mut advanced: Vec<Chord> = Vec::new();
    let mut i: usize = 0;
    while i < p.len()
        invariant
            i <= p.len(),
            advanced@ == transposed(p@.take(i as int), frets as nat),
        decreases p.len() - i,
    {
        advanced.push(p[i].advance_frets(frets));
        assert(p@.take(i + 1) == p@.take(i as int).push(p@[i as int]));
        i += 1;
    }
    assert(p@.take(i as int) == p@);
    advanced
}

/// Where to put the capo, and what the progression becomes there.
#[derive(Debug, PartialEq, Eq)]
pub struct CapoPosition {
    /// The fret that takes the capo, from 1 to 11, or 0 for no capo.
    pub fret: u8,
    /// The chords as they are fingered with the capo on: the progression,
    /// `fret` semitones up.
    pub chords: Vec<Chord>,
}

/// Finds the lowest fret at which a capo rids the progression of its barre
/// chords. A progression without barre chords, an empty one too, gets fret
/// 0. Frets 1 to 11 are tried in rising order, each one semitone above the
/// last, and the first that fits is returned with the chords as they are
/// fingered there. When none of them fits, there is no such fret.
pub fn find_capo_position(progression: &Vec<Chord>) -> (position: Option<CapoPosition>)
    ensures
        match position {
            Some(found) => {
                &&& found.fret <= 11
                &&& lowest_capo_fret(progression@, found.fret as nat)
                &&& found.chords@ == transposed(progression@, found.fret as nat)
            },
            None => forall|fret: nat|
                fret <= 11 ==> !#[trigger] playable_with_capo(progression@, fret),
        },
{
    let mut chords: Vec<Chord> = progression.clone();
    let mut fret: u8 = 0;
    proof {
        lemma_transposed_progression_zero(progression@);
    }
    loop
        invariant
            fret <= 11,
            chords@ == transposed(progression@, fret as nat),
            forall|lower: nat|
                lower < fret ==> !#[trigger] playable_with_capo(progression@, lower),
        decreases 11 - fret,
    {
        if progression_has_no_barre_chord(&chords) {
            return Some(CapoPosition { fret, chords });
        }
        if fret == 11 {
            return None;
        }
        proof {
            lemma_transposed_progression_twice(progression@, fret as nat, 1);
        }
        chords = advance_progression(&chords, 1);
        fret += 1;
    }
}

/// The names of the chords in order, with one space between neighbours.
pub fn chord_names(progression: &Vec<Chord>) -> (line: String)
    ensures
        line@ == joined_names(progression@),
{
    let mut line = String::new();
    let mut i: usize = 0;
    while i < progression.len()
        invariant
            i <= progression.len(),
            line@ == joined_names(progression@.take(i as int)),
        decreases progression.len() - i,
    {
        if i > 0 {
            line.append(" ");
        }
        line.append(progression[i].to_str());
        proof {
            let so_far = progression@.take(i + 1);
            assert(so_far.drop_last() == progression@.take(i as int));
            assert(so_far.last() == progression@[i as int]);
        }
        i += 1;
    }
    assert(progression@.take(i as int) == progression@);
    line
}

/// Transposing a progression by no fret changes nothing.
pub proof fn lemma_transposed_progression_zero(progression: Seq<Chord>)
    ensures
        transposed(progression, 0) == progression,
{
    assert forall|i: int| 0 <= i < progression.len() implies transposed(progression, 0)[i]
        == progression[i] by {
        lemma_transposed_zero(progression[i]);
    }
}

/// Transposing a progression by `a` frets and then by `b` is transposing it
/// by `a + b`.
pub proof fn lemma_transposed_progression_twice(progression: Seq<Chord>, a: nat, b: nat)
    ensures
        transposed(transposed(progression, a), b) == transposed(progression, a + b),
{
    assert forall|i: int| 0 <= i < progression.len() implies transposed(
        transposed(progression, a),
        b,
    )[i] == transposed(progression, a + b)[i] by {
        lemma_transposed_twice(progression[i], a, b);
    }
}

/// Twelve frets up, every chord is itself again: whether a capo fits depends
/// on its fret modulo twelve only.
pub proof fn lemma_capo_wraps(progression: Seq<Chord>, fret: nat)
    ensures
        transposed(progression, fret) == transposed(progression, fret % 12),
        playable_with_capo(progression, fret) == playable_with_capo(progression, fret % 12),
{
    assert forall|i: int| 0 <= i < progression.len() implies transposed(progression, fret)[i]
        == transposed(progression, fret % 12)[i] by {
        lemma_transposed_wraps(progression[i], fret);
    }
}

/// A progression that no capo on frets 0 to 11 makes playable is not made
/// playable by a capo on any fret.
pub proof fn lemma_no_capo_beyond_eleven(progression: Seq<Chord>, fret: nat)
    requires
        forall|low: nat| low <= 11 ==> !#[trigger] playable_with_capo(progression, low),
    ensures
        !playable_with_capo(progression, fret),
{
    lemma_capo_wraps(progression, fret);
}

/// There is at most one lowest fret.
pub proof fn lemma_lowest_capo_fret_unique(progression: Seq<Chord>, a: nat, b: nat)
    requires
        lowest_capo_fret(progression, a),
        lowest_capo_fret(progression, b),
    ensures
        a == b,
{
}

} // verus!
