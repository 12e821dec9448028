//! Numbering patterns: a formatting rule mapping a counter's value
//! vector to display text.
//!
//! Pattern text decomposes into pieces, one per nesting level: a literal
//! prefix followed by a counting symbol (`1`, `a`, `A`, `i` or `I`); the
//! characters after the last symbol are a literal suffix. Text with no
//! counting symbol at all (the empty string among it) is rejected at
//! construction, never silently defaulted.

use vstd::prelude::*;
use vstd::string::*;

use crate::text::{alphabetic, arabic, push_char, roman, spec_alpha, spec_arabic, spec_roman};

verus! {

/// A counting scheme for one nesting level of a pattern.
#[derive(Clone, Copy, PartialEq, Eq, Structural, Debug)]
pub enum NumberingKind {
    Arabic,
    LowerAlpha,
    UpperAlpha,
    LowerRoman,
    UpperRoman,
}

/// The scheme a counting symbol stands for, if the character is one.
pub open spec fn spec_kind_of(c: char) -> Option<NumberingKind> {
    if c == '1' {
        Some(NumberingKind::Arabic)
    } else if c == 'a' {
        Some(NumberingKind::LowerAlpha)
    } else if c == 'A' {
        Some(NumberingKind::UpperAlpha)
    } else if c == 'i' {
        Some(NumberingKind::LowerRoman)
    } else if c == 'I' {
        Some(NumberingKind::UpperRoman)
    } else {
        None
    }
}

/// Whether `c` is one of the recognized counting symbols.
pub open spec fn is_counting_symbol(c: char) -> bool {
    spec_kind_of(c) is Some
}

fn kind_of(c: char) -> (r: Option<NumberingKind>)
    ensures
        r == spec_kind_of(c),
{
    if c == '1' {
        Some(NumberingKind::Arabic)
    } else if c == 'a' {
        Some(NumberingKind::LowerAlpha)
    } else if c == 'A' {
        Some(NumberingKind::UpperAlpha)
    } else if c == 'i' {
        Some(NumberingKind::LowerRoman)
    } else if c == 'I' {
        Some(NumberingKind::UpperRoman)
    } else {
        None
    }
}

/// The text one scheme produces for one number.
pub open spec fn spec_format(kind: NumberingKind, n: u64) -> Seq<char> {
    match kind {
        NumberingKind::Arabic => spec_arabic(n as nat),
        NumberingKind::LowerAlpha => spec_alpha(n as nat, false),
        NumberingKind::UpperAlpha => spec_alpha(n as nat, true),
        NumberingKind::LowerRoman => spec_roman(n as nat, false),
        NumberingKind::UpperRoman => spec_roman(n as nat, true),
    }
}

fn format(kind: NumberingKind, n: u64) -> (s: String)
    ensures
        s@ == spec_format(kind, n),
{
    match kind {
        NumberingKind::Arabic => arabic(n),
        NumberingKind::LowerAlpha => alphabetic(n, false),
        NumberingKind::UpperAlpha => alphabetic(n, true),
        NumberingKind::LowerRoman => roman(n, false),
        NumberingKind::UpperRoman => roman(n, true),
    }
}

/// One parsed piece of a pattern: the literal prefix standing before the
/// counting symbol, and the symbol's scheme.
pub struct NumberingPiece {
    pub prefix: String,
    pub kind: NumberingKind,
}

/// The mathematical shape of a [`NumberingPiece`].
pub struct NumberingPieceModel {
    pub prefix: Seq<char>,
    pub kind: NumberingKind,
}

impl View for NumberingPiece {
    type V = NumberingPieceModel;

    open spec fn view(&self) -> NumberingPieceModel {
        NumberingPieceModel { prefix: self.prefix@, kind: self.kind }
    }
}

impl Clone for NumberingPiece {
    fn clone(&self) -> (r: NumberingPiece)
        ensures
            r == *self,
    {
        NumberingPiece { prefix: self.prefix.clone(), kind: self.kind }
    }
}

/// The error pattern construction fails with when the text cannot be
/// decomposed into pieces: it holds no counting symbol at all.
#[derive(Clone, Copy, PartialEq, Eq, Structural, Debug)]
pub struct InvalidNumberingPattern;

/// A parsed numbering pattern: its pieces in order, then the suffix.
pub struct NumberingPattern {
    pub pieces: Vec<NumberingPiece>,
    pub suffix: String,
}

/// The mathematical shape of a [`NumberingPattern`].
pub struct NumberingPatternModel {
    pub pieces: Seq<NumberingPieceModel>,
    pub suffix: Seq<char>,
}

impl View for NumberingPattern {
    type V = NumberingPatternModel;

    open spec fn view(&self) -> NumberingPatternModel {
        NumberingPatternModel {
            pieces: self.pieces@.map_values(|p: NumberingPiece| p@),
            suffix: self.suffix@,
        }
    }
}

impl Clone for NumberingPattern {
    fn clone(&self) -> (r: NumberingPattern)
        ensures
            r@ == self@,
    {
        let mut pieces: Vec<NumberingPiece> = Vec::new();
        let mut i: usize = 0;
        while i < self.pieces.len()
            invariant
                i <= self.pieces.len(),
                pieces@ == self.pieces@.take(i as int),
            decreases self.pieces.len() - i,
        {
            pieces.push(self.pieces[i].clone());
            i += 1;
            proof {
                assert(pieces@ =~= self.pieces@.take(i as int));
            }
        }
        let r = NumberingPattern { pieces, suffix: self.suffix.clone() };
        proof {
            assert(self.pieces@.take(self.pieces@.len() as int) =~= self.pieces@);
            assert(r@.pieces =~= self@.pieces);
        }
        r
    }
}

/// Decomposes `s` from position `i` on, with `cur` the literal prefix
/// read so far: the pieces still to come, and the trailing suffix.
pub open spec fn spec_parse_rec(s: Seq<char>, i: int, cur: Seq<char>) -> (Seq<
    NumberingPieceModel,
>, Seq<char>)
    decreases s.len() - i,
{
    if i < 0 || i >= s.len() {
        (Seq::empty(), cur)
    } else if is_counting_symbol(s[i]) {
        let rest = spec_parse_rec(s, i + 1, Seq::empty());
        (
            seq![NumberingPieceModel { prefix: cur, kind: spec_kind_of(s[i])->Some_0 }] + rest.0,
            rest.1,
        )
    } else {
        spec_parse_rec(s, i + 1, cur.push(s[i]))
    }
}

/// The pattern that given text decomposes into.
pub open spec fn spec_parse(s: Seq<char>) -> NumberingPatternModel {
    NumberingPatternModel {
        pieces: spec_parse_rec(s, 0, Seq::empty()).0,
        suffix: spec_parse_rec(s, 0, Seq::empty()).1,
    }
}

/// Parsing finds no piece exactly when no counting symbol remains.
proof fn lemma_parse_rec_no_piece(s: Seq<char>, i: int, cur: Seq<char>)
    requires
        0 <= i <= s.len(),
    ensures
        (spec_parse_rec(s, i, cur).0.len() == 0) <==> (forall|j: int|
            i <= j < s.len() ==> !is_counting_symbol(s[j])),
    decreases s.len() - i,
{
    if i < s.len() && !is_counting_symbol(s[i]) {
        lemma_parse_rec_no_piece(s, i + 1, cur.push(s[i]));
    }
}

/// The piece responsible for position `i` of a value vector: the piece
/// at `i`, or the last piece when the vector is longer than the pattern.
pub open spec fn spec_piece_at(p: NumberingPatternModel, i: int) -> NumberingPieceModel {
    if i < p.pieces.len() {
        p.pieces[i]
    } else {
        p.pieces.last()
    }
}

/// The text produced for the first `i` positions of a value vector.
pub open spec fn spec_apply_upto(p: NumberingPatternModel, nums: Seq<u64>, i: int) -> Seq<char>
    decreases i,
{
    if i <= 0 {
        Seq::empty()
    } else {
        spec_apply_upto(p, nums, i - 1) + spec_piece_at(p, i - 1).prefix + spec_format(
            spec_piece_at(p, i - 1).kind,
            nums[i - 1],
        )
    }
}

/// The full text a pattern produces for a value vector: every position
/// rendered by its piece, left to right, then the suffix. A vector
/// longer than the pattern reuses the last piece for the extra levels; a
/// shorter one leaves the later pieces unused.
pub open spec fn spec_apply(p: NumberingPatternModel, nums: Seq<u64>) -> Seq<char> {
    spec_apply_upto(p, nums, nums.len() as int) + p.suffix
}

impl NumberingPattern {
    /// A pattern is well formed when it holds at least one piece; every
    /// pattern construction hands out is.
    pub open spec fn wf(&self) -> bool {
        self@.pieces.len() >= 1
    }

    /// Decomposes pattern text into a pattern. Fails, with
    /// [`InvalidNumberingPattern`], exactly when the text holds no
    /// counting symbol — in particular on the empty string.
    pub fn from_str(text: &str) -> (r: Result<NumberingPattern, InvalidNumberingPattern>)
        ensures
            r is Ok <==> spec_parse(text@).pieces.len() > 0,
            r is Ok ==> r->Ok_0@ == spec_parse(text@) && r->Ok_0.wf(),
            r is Err <==> (forall|j: int| 0 <= j < text@.len() ==> !is_counting_symbol(text@[j])),
    {
        let len = text.unicode_len();
        let mut pieces: Vec<NumberingPiece> = Vec::new();
        let mut cur = String::new();
        let mut i: usize = 0;
        while i < len
            invariant
                i <= len,
                len == text@.len(),
                spec_parse(text@).pieces == pieces@.map_values(|p: NumberingPiece| p@)
                    + spec_parse_rec(text@, i as int, cur@).0,
                spec_parse(text@).suffix == spec_parse_rec(text@, i as int, cur@).1,
            decreases len - i,
        {
            let c = text.get_char(i);
            match kind_of(c) {
                Some(kind) => {
                    let ghost pieces_before = pieces@.map_values(|p: NumberingPiece| p@);
                    let ghost cur_before = cur@;
                    pieces.push(NumberingPiece { prefix: cur, kind });
                    cur = String::new();
                    proof {
                        let pm = NumberingPieceModel { prefix: cur_before, kind };
                        assert(pieces@.map_values(|p: NumberingPiece| p@) =~= pieces_before
                            + seq![pm]);
                        assert(pieces_before + (seq![pm] + spec_parse_rec(
                            text@,
                            i + 1,
                            Seq::empty(),
                        ).0) =~= (pieces_before + seq![pm]) + spec_parse_rec(
                            text@,
                            i + 1,
                            Seq::empty(),
                        ).0);
                    }
                },
                None => {
                    push_char(&mut cur, c);
                },
            }
            i += 1;
        }
        if pieces.len() == 0 {
            proof {
                lemma_parse_rec_no_piece(text@, 0, Seq::empty());
                assert(pieces@.map_values(|p: NumberingPiece| p@) + spec_parse_rec(
                    text@,
                    len as int,
                    cur@,
                ).0 =~= Seq::<NumberingPieceModel>::empty());
            }
            Err(InvalidNumberingPattern)
        } else {
            let r = NumberingPattern { pieces, suffix: cur };
            proof {
                lemma_parse_rec_no_piece(text@, 0, Seq::empty());
                assert(r@.pieces =~= spec_parse(text@).pieces);
            }
            Ok(r)
        }
    }

    /// Renders a value vector through the pattern.
    pub fn apply(&self, nums: &Vec<u64>) -> (s: String)
        requires
            self.wf(),
        ensures
            s@ == spec_apply(self@, nums@),
    {
        let mut s = String::new();
        let mut i: usize = 0;
        proof {
            assert(s@ =~= spec_apply_upto(self@, nums@, 0));
        }
        while i < nums.len()
            invariant
                self.wf(),
                i <= nums.len(),
                s@ == spec_apply_upto(self@, nums@, i as int),
            decreases nums.len() - i,
        {
            let piece = if i < self.pieces.len() {
                &self.pieces[i]
            } else {
                &self.pieces[self.pieces.len() - 1]
            };
            proof {
                assert(piece@ == spec_piece_at(self@, i as int));
            }
            s.append(piece.prefix.as_str());
            let f = format(piece.kind, nums[i]);
            s.append(f.as_str());
            i += 1;
            proof {
                assert(s@ =~= spec_apply_upto(self@, nums@, i as int));
            }
        }
        s.append(self.suffix.as_str());
        s
    }
}

/// The pattern model behind an optional numbering: `None` stays `None`.
pub open spec fn spec_opt_numbering(o: Option<Numbering>) -> Option<NumberingPatternModel> {
    match o {
        Some(n) => Some(n@),
        None => None,
    }
}

/// How a counter value is turned into text: through a parsed pattern.
/// (The system also admits an opaque formatting function as a numbering;
/// that choice lives with the style layer, outside this subsystem.)
pub enum Numbering {
    Pattern(NumberingPattern),
}

impl View for Numbering {
    type V = NumberingPatternModel;

    open spec fn view(&self) -> NumberingPatternModel {
        match self {
            Numbering::Pattern(p) => p@,
        }
    }
}

impl Clone for Numbering {
    fn clone(&self) -> (r: Numbering)
        ensures
            r@ == self@,
    {
        match self {
            Numbering::Pattern(p) => Numbering::Pattern(p.clone()),
        }
    }
}

impl Numbering {
    /// A numbering is well formed when its pattern is.
    pub open spec fn wf(&self) -> bool {
        self@.pieces.len() >= 1
    }

    /// Renders a value vector. The output is used verbatim as the number
    /// text; the vector is consumed as given, without mutation.
    pub fn apply(&self, nums: &Vec<u64>) -> (s: String)
        requires
            self.wf(),
        ensures
            s@ == spec_apply(self@, nums@),
    {
        match self {
            Numbering::Pattern(p) => p.apply(nums),
        }
    }
}

} // verus!
