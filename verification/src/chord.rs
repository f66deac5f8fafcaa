//! The twelve chord roots, their names, and transposition along the
//! chromatic scale.

use vstd::prelude::*;

verus! {

/// A chord, identified by its root: one of the twelve pitch classes of the
/// chromatic scale. The five tones between the naturals carry their flat
/// spelling.
#[derive(Copy, Clone, Debug, PartialEq, Eq, Structural)]
pub enum Chord {
    C,
    Db,
    D,
    Eb,
    E,
    F,
    Gb,
    G,
    Ab,
    A,
    Bb,
    B,
}

/// The error for a string that names no chord.
#[derive(Debug, PartialEq, Eq)]
pub struct InvalidChordName {
    /// The string that was rejected, as it was given.
    pub name: String,
}

impl InvalidChordName {
    /// A sentence that reports the rejected string.
    pub fn message(&self) -> (text: String)
        ensures
            text@ == "Unknown chord: "@ + self.name@,
    {
        let mut text = String::from_str("Unknown chord: ");
        text.append(self.name.as_str());
        text
    }
}

// The model: names, positions on the scale, transposition, fingering.
impl Chord {
    /// The chord's name, with the flat spelling for the five tones between
    /// the naturals.
    pub open spec fn name(self) -> Seq<char> {
        match self {
            Chord::C => "C"@,
            Chord::Db => "Db"@,
            Chord::D => "D"@,
            Chord::Eb => "Eb"@,
            Chord::E => "E"@,
            Chord::F => "F"@,
            Chord::Gb => "Gb"@,
            Chord::G => "G"@,
            Chord::Ab => "Ab"@,
            Chord::A => "A"@,
            Chord::Bb => "Bb"@,
            Chord::B => "B"@,
        }
    }

    /// The sharp spelling of the chord's name, for the five chords that have
    /// one.
    pub open spec fn sharp_name(self) -> Option<Seq<char>> {
        match self {
            Chord::Db => Some("C#"@),
            Chord::Eb => Some("D#"@),
            Chord::Gb => Some("F#"@),
            Chord::Ab => Some("G#"@),
            Chord::Bb => Some("A#"@),
            _ => None,
        }
    }

    /// Whether `s` spells this chord: by its name or by its sharp spelling,
    /// letter for letter.
    pub open spec fn spelled(self, s: Seq<char>) -> bool {
        s == self.name() || self.sharp_name() == Some(s)
    }

    /// The chord that `s` spells, if it spells one.
    pub open spec fn parse(s: Seq<char>) -> Option<Chord> {
        if Chord::C.spelled(s) {
            Some(Chord::C)
        } else if Chord::Db.spelled(s) {
            Some(Chord::Db)
        } else if Chord::D.spelled(s) {
            Some(Chord::D)
        } else if Chord::Eb.spelled(s) {
            Some(Chord::Eb)
        } else if Chord::E.spelled(s) {
            Some(Chord::E)
        } else if Chord::F.spelled(s) {
            Some(Chord::F)
        } else if Chord::Gb.spelled(s) {
            Some(Chord::Gb)
        } else if Chord::G.spelled(s) {
            Some(Chord::G)
        } else if Chord::Ab.spelled(s) {
            Some(Chord::Ab)
        } else if Chord::A.spelled(s) {
            Some(Chord::A)
        } else if Chord::Bb.spelled(s) {
            Some(Chord::Bb)
        } else if Chord::B.spelled(s) {
            Some(Chord::B)
        } else {
            None
        }
    }

    /// The chord's position on the chromatic scale: the number of semitones
    /// from C up to its root.
    pub open spec fn semitone(self) -> nat {
        match self {
            Chord::C => 0,
            Chord::Db => 1,
            Chord::D => 2,
            Chord::Eb => 3,
            Chord::E => 4,
            Chord::F => 5,
            Chord::Gb => 6,
            Chord::G => 7,
            Chord::Ab => 8,
            Chord::A => 9,
            Chord::Bb => 10,
            Chord::B => 11,
        }
    }

    /// The chord at position `n` of the chromatic scale, for `n` from 0 to 11.
    pub open spec fn at_semitone(n: nat) -> Chord
        recommends
            n < 12,
    {
        if n == 0 {
            Chord::C
        } else if n == 1 {
            Chord::Db
        } else if n == 2 {
            Chord::D
        } else if n == 3 {
            Chord::Eb
        } else if n == 4 {
            Chord::E
        } else if n == 5 {
            Chord::F
        } else if n == 6 {
            Chord::Gb
        } else if n == 7 {
            Chord::G
        } else if n == 8 {
            Chord::Ab
        } else if n == 9 {
            Chord::A
        } else if n == 10 {
            Chord::Bb
        } else {
            Chord::B
        }
    }

    /// The chord `frets` semitones above this one. The scale closes on
    /// itself after twelve semitones.
    pub open spec fn transposed(self, frets: nat) -> Chord {
        Chord::at_semitone((self.semitone() + frets) % 12)
    }

    /// Whether the chord has an open fingering on a guitar in standard
    /// tuning. Only the root decides.
    pub open spec fn is_open(self) -> bool {
        self is C || self is D || self is Eb || self is E || self is G || self is A
    }

    /// Whether the chord needs a barre: it does when it has no open
    /// fingering.
    pub open spec fn is_barre(self) -> bool {
        !self.is_open()
    }
}

impl Chord {
    /// Reads a chord from its name. The seven naturals and the five flats are
    /// accepted, and so are the five sharps, each as another spelling of the
    /// flat above it. Anything else is rejected, and the error carries the
    /// string.
    pub fn from_str(chord: &str) -> (r: Result<Chord, InvalidChordName>)
        ensures
            match r {
                Ok(c) => Chord::parse(chord@) == Some(c),
                Err(e) => Chord::parse(chord@) is None && e.name@ == chord@,
            },
    {
        proof {
            lemma_names_revealed();
        }
        let len: usize = chord.unicode_len();
        if len == 1 {
            let root: char = chord.get_char(0);
            assert(chord@ =~= seq![root]);
            if root == 'C' {
                return Ok(Chord::C);
            } else if root == 'D' {
                return Ok(Chord::D);
            } else if root == 'E' {
                return Ok(Chord::E);
            } else if root == 'F' {
                return Ok(Chord::F);
            } else if root == 'G' {
                return Ok(Chord::G);
            } else if root == 'A' {
                return Ok(Chord::A);
            } else if root == 'B' {
                return Ok(Chord::B);
            }
        } else if len == 2 {
            let root: char = chord.get_char(0);
            let accidental: char = chord.get_char(1);
            assert(chord@ =~= seq![root, accidental]);
            if accidental == '#' {
                if root == 'C' {
                    return Ok(Chord::Db);
                } else if root == 'D' {
                    return Ok(Chord::Eb);
                } else if root == 'F' {
                    return Ok(Chord::Gb);
                } else if root == 'G' {
                    return Ok(Chord::Ab);
                } else if root == 'A' {
                    return Ok(Chord::Bb);
                }
            } else if accidental == 'b' {
                if root == 'D' {
                    return Ok(Chord::Db);
                } else if root == 'E' {
                    return Ok(Chord::Eb);
                } else if root == 'G' {
                    return Ok(Chord::Gb);
                } else if root == 'A' {
                    return Ok(Chord::Ab);
                } else if root == 'B' {
                    return Ok(Chord::Bb);
                }
            }
        }
        Err(InvalidChordName { name: chord.to_owned() })
    }

    /// The chord's name, with the flat spelling for the five tones between
    /// the naturals.
    pub fn to_str(self) -> (s: &'static str)
        ensures
            s@ == self.name(),
    {
        match self {
            Chord::C => "C",
            Chord::Db => "Db",
            Chord::D => "D",
            Chord::Eb => "Eb",
            Chord::E => "E",
            Chord::F => "F",
            Chord::Gb => "Gb",
            Chord::G => "G",
            Chord::Ab => "Ab",
            Chord::A => "A",
            Chord::Bb => "Bb",
            Chord::B => "B",
        }
    }

    /// The chord's position on the chromatic scale, from 0 for C to 11 for B.
    pub fn to_u8(self) -> (n: u8)
        ensures
            n == self.semitone(),
    {
        match self {
            Chord::C => 0,
            Chord::Db => 1,
            Chord::D => 2,
            Chord::Eb => 3,
            Chord::E => 4,
            Chord::F => 5,
            Chord::Gb => 6,
            Chord::G => 7,
            Chord::Ab => 8,
            Chord::A => 9,
            Chord::Bb => 10,
            Chord::B => 11,
        }
    }

    /// The chord at position `value` of the chromatic scale.
    pub fn from_u8(value: u8) -> (c: Chord)
        requires
            value < 12,
        ensures
            c == Chord::at_semitone(value as nat),
            c.semitone() == value,
    {
        match value {
            0 => Chord::C,
            1 => Chord::Db,
            2 => Chord::D,
            3 => Chord::Eb,
            4 => Chord::E,
            5 => Chord::F,
            6 => Chord::Gb,
            7 => Chord::G,
            8 => Chord::Ab,
            9 => Chord::A,
            10 => Chord::Bb,
            _ => Chord::B,
        }
    }

    /// The chord `frets` semitones up, as it sounds with a capo that many
    /// frets higher. Any number of frets is taken; twelve of them lead back
    /// to the same chord.
    pub fn advance_frets(self, frets: u8) -> (c: Chord)
        ensures
            c == self.transposed(frets as nat),
    {
        // Reducing `frets` first keeps the sum within a byte.
        Chord::from_u8((self.to_u8() + frets % 12) % 12)
    }

    /// Whether the chord needs a barre.
    pub fn is_barre_chord(&self) -> (barre: bool)
        ensures
            barre == self.is_barre(),
    {
        match self {
            Chord::C | Chord::D | Chord::Eb | Chord::E | Chord::G | Chord::A => false,
            _ => true,
        }
    }
}

/// Every accepted spelling, letter by letter: a natural is its one letter,
/// an accidental is a letter followed by `b` or `#`.
pub proof fn lemma_names_revealed()
    ensures
        "C"@ == seq!['C'],
        "D"@ == seq!['D'],
        "E"@ == seq!['E'],
        "F"@ == seq!['F'],
        "G"@ == seq!['G'],
        "A"@ == seq!['A'],
        "B"@ == seq!['B'],
        "Db"@ == seq!['D', 'b'],
        "Eb"@ == seq!['E', 'b'],
        "Gb"@ == seq!['G', 'b'],
        "Ab"@ == seq!['A', 'b'],
        "Bb"@ == seq!['B', 'b'],
        "C#"@ == seq!['C', '#'],
        "D#"@ == seq!['D', '#'],
        "F#"@ == seq!['F', '#'],
        "G#"@ == seq!['G', '#'],
        "A#"@ == seq!['A', '#'],
{
    reveal_strlit("C");
    reveal_strlit("D");
    reveal_strlit("E");
    reveal_strlit("F");
    reveal_strlit("G");
    reveal_strlit("A");
    reveal_strlit("B");
    reveal_strlit("Db");
    reveal_strlit("Eb");
    reveal_strlit("Gb");
    reveal_strlit("Ab");
    reveal_strlit("Bb");
    reveal_strlit("C#");
    reveal_strlit("D#");
    reveal_strlit("F#");
    reveal_strlit("G#");
    reveal_strlit("A#");
}

/// A string spells at most one chord, and `parse` finds it: `parse(s)` is
/// `c` exactly when `s` is the name of `c` or its sharp spelling.
pub proof fn lemma_parse_finds_spelled_chord(s: Seq<char>, c: Chord)
    ensures
        Chord::parse(s) == Some(c) <==> c.spelled(s),
{
    lemma_names_revealed();
    // Two spellings differ in their length or in one of their two letters.
    let letters = (s.len(), s[0], s[1]);
}

/// Reading a chord's name gives the chord back, and so the name of what was
/// read from a chord's name is that name again.
pub proof fn lemma_name_round_trip(c: Chord)
    ensures
        Chord::parse(c.name()) == Some(c),
        Chord::parse(c.name()).unwrap().name() == c.name(),
{
    lemma_parse_finds_spelled_chord(c.name(), c);
}

/// The sharp spelling of a chord reads as the same chord as its name does.
pub proof fn lemma_sharp_name_is_alias(c: Chord)
    requires
        c.sharp_name() is Some,
    ensures
        Chord::parse(c.sharp_name().unwrap()) == Chord::parse(c.name()),
        Chord::parse(c.sharp_name().unwrap()) == Some(c),
{
    lemma_parse_finds_spelled_chord(c.sharp_name().unwrap(), c);
    lemma_name_round_trip(c);
}

/// The twelve chords and the positions 0 to 11 correspond one to one.
pub proof fn lemma_semitone_round_trip(c: Chord, n: nat)
    ensures
        c.semitone() < 12,
        Chord::at_semitone(c.semitone()) == c,
        n < 12 ==> Chord::at_semitone(n).semitone() == n,
{
}

/// Transposing by no fret changes nothing.
pub proof fn lemma_transposed_zero(c: Chord)
    ensures
        c.transposed(0) == c,
{
}

/// Transposing by twelve frets leads back to the same chord.
pub proof fn lemma_transposed_octave(c: Chord)
    ensures
        c.transposed(12) == c,
{
}

/// Transposing by `a` frets and then by `b` is transposing by `a + b`.
pub proof fn lemma_transposed_twice(c: Chord, a: nat, b: nat)
    ensures
        c.transposed(a).transposed(b) == c.transposed(a + b),
{
    lemma_semitone_round_trip(c, (c.semitone() + a) % 12);
}

/// Only the number of frets modulo twelve matters.
pub proof fn lemma_transposed_wraps(c: Chord, frets: nat)
    ensures
        c.transposed(frets) == c.transposed(frets % 12),
{
}

} // verus!
