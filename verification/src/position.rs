//! Places in source text: points, locations, and positions in files.

use crate::filename::Filename;
use crate::numeral::decimal;
use crate::numeral::push_decimal;
use crate::order::bytes_order;
use crate::order::chains;
use crate::order::indices_order;
use crate::order::lemma_bytes_order;
use crate::order::lemma_bytes_order_chains;
use crate::order::lemma_indices_order;
use crate::order::lemma_indices_order_chains;
use crate::order::lemma_same_bytes_same_text;
use crate::order::order_of_indices;
use crate::order::order_of_text;
use crate::order::order_then;
use crate::order::reverse;
use crate::order::same_text;
use crate::strref::lemma_pair_order;
use crate::strref::pair_order;
use core::cmp::Ordering;
use vstd::prelude::*;
use vstd::std_specs::cmp::OrdSpec;
use vstd::std_specs::cmp::PartialEqSpec;
use vstd::std_specs::cmp::PartialEqSpecImpl;
use vstd::std_specs::cmp::PartialOrdSpec;
use vstd::std_specs::cmp::PartialOrdSpecImpl;
use vstd::std_specs::convert::FromSpecImpl;
use vstd::string::StringExecFns;
use vstd::string::StringSliceAdditionalSpecFns;

verus! {

/// A single point in a file.
#[derive(Clone, Copy, Debug, PartialEq, Eq, Structural, Hash, Ord)]
pub struct Point {
    /// The line number, starting at 1.
    pub line: u32,
    /// The column number, starting at 1.
    pub col: u32,
}

impl Point {
    /// How `self` stands to `other`: by line, and on one line by column.
    pub open spec fn order(&self, other: &Point) -> Ordering {
        if self.line < other.line {
            Ordering::Less
        } else if self.line > other.line {
            Ordering::Greater
        } else if self.col < other.col {
            Ordering::Less
        } else if self.col > other.col {
            Ordering::Greater
        } else {
            Ordering::Equal
        }
    }
}

impl PartialOrdSpecImpl for Point {
    open spec fn obeys_partial_cmp_spec() -> bool {
        true
    }

    open spec fn partial_cmp_spec(&self, other: &Point) -> Option<Ordering> {
        Some(self.order(other))
    }
}

impl PartialOrd for Point {
    fn partial_cmp(&self, other: &Point) -> (r: Option<Ordering>) {
        if self.line < other.line {
            Some(Ordering::Less)
        } else if self.line > other.line {
            Some(Ordering::Greater)
        } else if self.col < other.col {
            Some(Ordering::Less)
        } else if self.col > other.col {
            Some(Ordering::Greater)
        } else {
            Some(Ordering::Equal)
        }
    }
}

/// A location in a source file.
///
/// Two locations are equal when they are of one variant and hold equal
/// points: for spans, start equal to start and end equal to end.
#[derive(Clone, Copy, Debug, PartialEq, Eq, Structural, Hash, Ord)]
pub enum Location {
    /// A span in a source file, starting at `start` and ending at `end`.
    Span {
        /// The starting position.
        start: Point,
        /// The ending position.
        end: Point,
    },
    /// A specific point in a source file.
    Point {
        /// The point in the file.
        point: Point,
    },
}

impl Location {
    /// How `self` stands to `other`. Every span comes before every point;
    /// two spans go by their starts and then by their ends, two points as
    /// points do.
    pub open spec fn order(&self, other: &Location) -> Ordering {
        match (*self, *other) {
            (Location::Span { start: start1, end: end1 }, Location::Span { start: start2, end: end2 }) => {
                order_then(start1.order(&start2), end1.order(&end2))
            },
            (Location::Span { .. }, Location::Point { .. }) => Ordering::Less,
            (Location::Point { .. }, Location::Span { .. }) => Ordering::Greater,
            (Location::Point { point: point1 }, Location::Point { point: point2 }) => {
                point1.order(&point2)
            },
        }
    }
}

impl PartialOrdSpecImpl for Location {
    open spec fn obeys_partial_cmp_spec() -> bool {
        true
    }

    open spec fn partial_cmp_spec(&self, other: &Location) -> Option<Ordering> {
        Some(self.order(other))
    }
}

impl PartialOrd for Location {
    fn partial_cmp(&self, other: &Location) -> (r: Option<Ordering>) {
        match (self, other) {
            (Location::Span { start: start1, end: end1 }, Location::Span { start: start2, end: end2 }) => {
                match start1.partial_cmp(start2) {
                    Some(Ordering::Equal) => end1.partial_cmp(end2),
                    first => first,
                }
            },
            (Location::Span { .. }, Location::Point { .. }) => Some(Ordering::Less),
            (Location::Point { .. }, Location::Span { .. }) => Some(Ordering::Greater),
            (Location::Point { point: point1 }, Location::Point { point: point2 }) => {
                point1.partial_cmp(point2)
            },
        }
    }
}

/// Writes a point at the end of `out`.
fn push_point(out: &mut String, p: &Point)
    ensures
        final(out)@ == old(out)@ + p.text(),
{
    push_decimal(out, p.line as u64);
    proof {
        reveal_strlit(".");
    }
    out.append(".");
    push_decimal(out, p.col as u64);
    assert(out@ =~= old(out)@ + p.text());
}

/// Writes a location at the end of `out`.
fn push_location(out: &mut String, loc: &Location)
    ensures
        final(out)@ == old(out)@ + loc.text(),
{
    proof {
        reveal_strlit("-");
    }
    match loc {
        Location::Span { start, end } => {
            push_point(out, start);
            out.append("-");
            if start.line == end.line {
                push_decimal(out, end.col as u64);
            } else {
                push_point(out, end);
            }
        },
        Location::Point { point } => {
            push_point(out, point);
        },
    }
    assert(out@ =~= old(out)@ + loc.text());
}

impl Point {
    /// The point in writing: line, full stop, column.
    pub open spec fn text(&self) -> Seq<char> {
        decimal(self.line as nat) + seq!['.'] + decimal(self.col as nat)
    }

    /// The point in writing: line, full stop, column.
    pub fn to_string(&self) -> (s: String)
        ensures
            s@ == self.text(),
    {
        let mut s = String::new();
        push_point(&mut s, self);
        assert(s@ =~= self.text());
        s
    }
}

impl Location {
    /// The location in writing. A point is written as a point. A span is
    /// written as its start, a hyphen and its end, where of the end only the
    /// column is written if both lie on one line.
    pub open spec fn text(&self) -> Seq<char> {
        match *self {
            Location::Span { start, end } => {
                if start.line == end.line {
                    start.text() + seq!['-'] + decimal(end.col as nat)
                } else {
                    start.text() + seq!['-'] + end.text()
                }
            },
            Location::Point { point } => point.text(),
        }
    }

    /// The location in writing.
    pub fn to_string(&self) -> (s: String)
        ensures
            s@ == self.text(),
    {
        let mut s = String::new();
        push_location(&mut s, self);
        assert(s@ =~= self.text());
        s
    }
}

/// A position referring to a point in the file `filename`, at location
/// `loc`.
#[derive(Clone, Copy, Debug, Eq, Hash, Ord)]
pub struct FilePosition<'a> {
    /// The file in which this occurs.
    pub filename: Filename<'a>,
    /// The location in the file.
    pub loc: Location,
}

/// Context for creating positions while a file is read.
pub trait FilePositionCtx<'a> {
    /// The position of the point at line `line` and column `col`.
    fn point(&mut self, line: u32, col: u32) -> (pos: &FilePosition<'a>)
        ensures
            pos.loc == (Location::Point { point: Point { line, col } }),
    ;

    /// The position of the span that begins where `start` begins and ends
    /// where `end` ends.
    fn span(&mut self, start: &FilePosition<'a>, end: &FilePosition<'a>) -> (pos: &FilePosition<'a>)
        ensures
            pos.loc == (Location::Span { start: start.loc.first(), end: end.loc.last() }),
    ;
}

impl Location {
    /// The point at which the location begins.
    pub open spec fn first(&self) -> Point {
        match *self {
            Location::Span { start, end } => start,
            Location::Point { point } => point,
        }
    }

    /// The point at which the location ends.
    pub open spec fn last(&self) -> Point {
        match *self {
            Location::Span { start, end } => end,
            Location::Point { point } => point,
        }
    }
}

impl<'a> FilePosition<'a> {
    /// Whether both are the same place in the same file: the filenames have
    /// one identity and the locations are equal.
    pub open spec fn same(&self, other: &FilePosition<'a>) -> bool {
        self.filename.identity() == other.filename.identity() && self.loc == other.loc
    }

    /// How `self` stands to `other`: by the identity of the filename, and in
    /// one file by the location.
    pub open spec fn order(&self, other: &FilePosition<'a>) -> Ordering {
        order_then(
            pair_order(self.filename.identity(), other.filename.identity()),
            self.loc.order(&other.loc),
        )
    }

    /// The position in writing: the filename, a space and the location.
    pub open spec fn text(&self) -> Seq<char> {
        self.filename.0.text()@ + seq![' '] + self.loc.text()
    }

    /// The position in writing: the filename, a space and the location.
    pub fn to_string(&self) -> (s: String)
        ensures
            s@ == self.text(),
    {
        let mut s = self.filename.to_string();
        proof {
            reveal_strlit(" ");
        }
        s.append(" ");
        push_location(&mut s, &self.loc);
        assert(s@ =~= self.text());
        s
    }
}

impl<'a> PartialEqSpecImpl for FilePosition<'a> {
    open spec fn obeys_eq_spec() -> bool {
        true
    }

    open spec fn eq_spec(&self, other: &FilePosition<'a>) -> bool {
        self.same(other)
    }
}

impl<'a> PartialEq for FilePosition<'a> {
    fn eq(&self, other: &FilePosition<'a>) -> (r: bool) {
        self.filename == other.filename && self.loc == other.loc
    }
}

impl<'a> PartialOrdSpecImpl for FilePosition<'a> {
    open spec fn obeys_partial_cmp_spec() -> bool {
        true
    }

    open spec fn partial_cmp_spec(&self, other: &FilePosition<'a>) -> Option<Ordering> {
        Some(self.order(other))
    }
}

impl<'a> PartialOrd for FilePosition<'a> {
    fn partial_cmp(&self, other: &FilePosition<'a>) -> (r: Option<Ordering>) {
        match self.filename.partial_cmp(&other.filename) {
            Some(Ordering::Equal) => self.loc.partial_cmp(&other.loc),
            first => first,
        }
    }
}

/// A basic position type, useful for compiler frontends.
#[derive(Debug, Eq, Hash, Ord)]
pub enum BasicPosition<'a> {
    /// A position referring to a point in a file.
    Content {
        /// The file position.
        filepos: FilePosition<'a>,
    },
    /// A position referring to an entire file.
    File {
        /// The name of the file.
        filename: Filename<'a>,
    },
    /// A position referring to command-line arguments.
    CmdLine {
        /// Indexes of the command-line arguments to which this refers.
        idxs: Vec<usize>,
    },
    /// A synthetic position.
    Synthetic {
        /// The description of the synthetic position.
        desc: &'static str,
    },
}

impl<'a> BasicPosition<'a> {
    /// The place of the position's kind among the four kinds: content
    /// first, then file, command line and synthetic.
    pub open spec fn kind(&self) -> int {
        match self {
            BasicPosition::Content { .. } => 0,
            BasicPosition::File { .. } => 1,
            BasicPosition::CmdLine { .. } => 2,
            BasicPosition::Synthetic { .. } => 3,
        }
    }

    /// Whether both are positions of one kind that hold the same: the same
    /// place in the same file, filenames of one identity, the same indices,
    /// or descriptions that spell the same.
    pub open spec fn same(&self, other: &BasicPosition<'a>) -> bool {
        match (self, other) {
            (BasicPosition::Content { filepos: filepos1 }, BasicPosition::Content { filepos: filepos2 }) => {
                filepos1.same(filepos2)
            },
            (BasicPosition::File { filename: filename1 }, BasicPosition::File { filename: filename2 }) => {
                filename1.identity() == filename2.identity()
            },
            (BasicPosition::CmdLine { idxs: idxs1 }, BasicPosition::CmdLine { idxs: idxs2 }) => {
                idxs1@ == idxs2@
            },
            (BasicPosition::Synthetic { desc: desc1 }, BasicPosition::Synthetic { desc: desc2 }) => {
                desc1@ == desc2@
            },
            _ => false,
        }
    }

    /// How `self` stands to `other`. Positions of different kinds go by
    /// their kinds. Two of one kind go by what they hold: file positions as
    /// such, filenames by their identity, indices and descriptions as in the
    /// dictionary.
    pub open spec fn order(&self, other: &BasicPosition<'a>) -> Ordering {
        match (self, other) {
            (BasicPosition::Content { filepos: filepos1 }, BasicPosition::Content { filepos: filepos2 }) => {
                filepos1.order(filepos2)
            },
            (BasicPosition::Content { .. }, _) => Ordering::Less,
            (_, BasicPosition::Content { .. }) => Ordering::Greater,
            (BasicPosition::File { filename: filename1 }, BasicPosition::File { filename: filename2 }) => {
                pair_order(filename1.identity(), filename2.identity())
            },
            (BasicPosition::File { .. }, _) => Ordering::Less,
            (_, BasicPosition::File { .. }) => Ordering::Greater,
            (BasicPosition::CmdLine { idxs: idxs1 }, BasicPosition::CmdLine { idxs: idxs2 }) => {
                indices_order(idxs1@, idxs2@)
            },
            (BasicPosition::CmdLine { .. }, _) => Ordering::Less,
            (_, BasicPosition::CmdLine { .. }) => Ordering::Greater,
            (BasicPosition::Synthetic { desc: desc1 }, BasicPosition::Synthetic { desc: desc2 }) => {
                bytes_order(desc1.spec_bytes(), desc2.spec_bytes())
            },
        }
    }
}

impl<'a> PartialEqSpecImpl for BasicPosition<'a> {
    open spec fn obeys_eq_spec() -> bool {
        true
    }

    open spec fn eq_spec(&self, other: &BasicPosition<'a>) -> bool {
        self.same(other)
    }
}

impl<'a> PartialEq for BasicPosition<'a> {
    fn eq(&self, other: &BasicPosition<'a>) -> (r: bool) {
        match (self, other) {
            (BasicPosition::Content { filepos: filepos1 }, BasicPosition::Content { filepos: filepos2 }) => {
                filepos1 == filepos2
            },
            (BasicPosition::File { filename: filename1 }, BasicPosition::File { filename: filename2 }) => {
                filename1 == filename2
            },
            (BasicPosition::CmdLine { idxs: idxs1 }, BasicPosition::CmdLine { idxs: idxs2 }) => {
                let same = idxs1 == idxs2;
                assert(same == (idxs1@ =~= idxs2@));
                same
            },
            (BasicPosition::Synthetic { desc: desc1 }, BasicPosition::Synthetic { desc: desc2 }) => {
                same_text(desc1, desc2)
            },
            _ => false,
        }
    }
}

impl<'a> PartialOrdSpecImpl for BasicPosition<'a> {
    open spec fn obeys_partial_cmp_spec() -> bool {
        true
    }

    open spec fn partial_cmp_spec(&self, other: &BasicPosition<'a>) -> Option<Ordering> {
        Some(self.order(other))
    }
}

impl<'a> PartialOrd for BasicPosition<'a> {
    fn partial_cmp(&self, other: &BasicPosition<'a>) -> (r: Option<Ordering>) {
        match (self, other) {
            (BasicPosition::Content { filepos: filepos1 }, BasicPosition::Content { filepos: filepos2 }) => {
                filepos1.partial_cmp(filepos2)
            },
            (BasicPosition::Content { .. }, _) => Some(Ordering::Less),
            (_, BasicPosition::Content { .. }) => Some(Ordering::Greater),
            (BasicPosition::File { filename: filename1 }, BasicPosition::File { filename: filename2 }) => {
                filename1.partial_cmp(filename2)
            },
            (BasicPosition::File { .. }, _) => Some(Ordering::Less),
            (_, BasicPosition::File { .. }) => Some(Ordering::Greater),
            (BasicPosition::CmdLine { idxs: idxs1 }, BasicPosition::CmdLine { idxs: idxs2 }) => {
                Some(order_of_indices(idxs1.as_slice(), idxs2.as_slice()))
            },
            (BasicPosition::CmdLine { .. }, _) => Some(Ordering::Less),
            (_, BasicPosition::CmdLine { .. }) => Some(Ordering::Greater),
            (BasicPosition::Synthetic { desc: desc1 }, BasicPosition::Synthetic { desc: desc2 }) => {
                Some(order_of_text(desc1, desc2))
            },
        }
    }
}

/// Expanded position with DWARF information.
#[allow(inconsistent_fields)]
#[derive(Debug, Eq, Hash, Ord)]
pub enum DWARFPosition<'a, T, D> {
    /// A position within a definition.
    Def {
        /// The definition's ID.
        id: D,
        /// The position of the definition.
        pos: FilePosition<'a>,
    },
    /// A position within a type definition.
    TypeDef {
        /// The definition's ID.
        id: T,
        /// The position of the definition.
        pos: FilePosition<'a>,
    },
    /// A position within a basic block.
    Block {
        /// The position of the basic block.
        ctx: Box<DWARFPosition<'a, T, D>>,
        /// The position within the basic block.
        pos: FilePosition<'a>,
    },
    /// A basic position.
    Basic {
        /// The position information.
        pos: BasicPosition<'a>,
    },
}

impl<'a, T, D> DWARFPosition<'a, T, D> {
    /// The place of the position's kind among the four kinds: definition
    /// first, then type definition, block and basic.
    pub open spec fn kind(&self) -> int {
        match self {
            DWARFPosition::Def { .. } => 0,
            DWARFPosition::TypeDef { .. } => 1,
            DWARFPosition::Block { .. } => 2,
            DWARFPosition::Basic { .. } => 3,
        }
    }
}

impl<'a, T: Eq, D: Eq> DWARFPosition<'a, T, D> {
    /// Whether both are positions of one kind that hold the same: ids that
    /// are equal as their type has it, the same place in the same file, and
    /// for blocks the same surroundings.
    pub open spec fn same(&self, other: &DWARFPosition<'a, T, D>) -> bool
        decreases self,
    {
        match (self, other) {
            (DWARFPosition::Def { id: id1, pos: pos1 }, DWARFPosition::Def { id: id2, pos: pos2 }) => {
                id1.eq_spec(id2) && pos1.same(pos2)
            },
            (DWARFPosition::TypeDef { id: id1, pos: pos1 }, DWARFPosition::TypeDef { id: id2, pos: pos2 }) => {
                id1.eq_spec(id2) && pos1.same(pos2)
            },
            (DWARFPosition::Block { ctx: ctx1, pos: pos1 }, DWARFPosition::Block { ctx: ctx2, pos: pos2 }) => {
                ctx1.same(&**ctx2) && pos1.same(pos2)
            },
            (DWARFPosition::Basic { pos: pos1 }, DWARFPosition::Basic { pos: pos2 }) => {
                pos1.same(pos2)
            },
            _ => false,
        }
    }
}

impl<'a, T: Ord, D: Ord> DWARFPosition<'a, T, D> {
    /// How `self` stands to `other`. Positions of different kinds go by
    /// their kinds. Two of one kind go by what they hold: the id first, as
    /// its type orders it, or for blocks the surroundings, and then the
    /// place in the file; basic positions as such.
    pub open spec fn order(&self, other: &DWARFPosition<'a, T, D>) -> Ordering
        decreases self,
    {
        match (self, other) {
            (DWARFPosition::Def { id: id1, pos: pos1 }, DWARFPosition::Def { id: id2, pos: pos2 }) => {
                order_then(id1.cmp_spec(id2), pos1.order(pos2))
            },
            (DWARFPosition::Def { .. }, _) => Ordering::Less,
            (_, DWARFPosition::Def { .. }) => Ordering::Greater,
            (DWARFPosition::TypeDef { id: id1, pos: pos1 }, DWARFPosition::TypeDef { id: id2, pos: pos2 }) => {
                order_then(id1.cmp_spec(id2), pos1.order(pos2))
            },
            (DWARFPosition::TypeDef { .. }, _) => Ordering::Less,
            (_, DWARFPosition::TypeDef { .. }) => Ordering::Greater,
            (DWARFPosition::Block { ctx: ctx1, pos: pos1 }, DWARFPosition::Block { ctx: ctx2, pos: pos2 }) => {
                order_then(ctx1.order(&**ctx2), pos1.order(pos2))
            },
            (DWARFPosition::Block { .. }, _) => Ordering::Less,
            (_, DWARFPosition::Block { .. }) => Ordering::Greater,
            (DWARFPosition::Basic { pos: pos1 }, DWARFPosition::Basic { pos: pos2 }) => {
                pos1.order(pos2)
            },
        }
    }
}

impl<'a, T: Eq, D: Eq> PartialEqSpecImpl for DWARFPosition<'a, T, D> {
    open spec fn obeys_eq_spec() -> bool {
        T::obeys_eq_spec() && D::obeys_eq_spec()
    }

    open spec fn eq_spec(&self, other: &DWARFPosition<'a, T, D>) -> bool {
        self.same(other)
    }
}

impl<'a, T: Eq, D: Eq> PartialEq for DWARFPosition<'a, T, D> {
    fn eq(&self, other: &DWARFPosition<'a, T, D>) -> (r: bool)
        decreases self,
    {
        match (self, other) {
            (DWARFPosition::Def { id: id1, pos: pos1 }, DWARFPosition::Def { id: id2, pos: pos2 }) => {
                id1 == id2 && pos1 == pos2
            },
            (DWARFPosition::TypeDef { id: id1, pos: pos1 }, DWARFPosition::TypeDef { id: id2, pos: pos2 }) => {
                id1 == id2 && pos1 == pos2
            },
            (DWARFPosition::Block { ctx: ctx1, pos: pos1 }, DWARFPosition::Block { ctx: ctx2, pos: pos2 }) => {
                (**ctx1).eq(&**ctx2) && pos1 == pos2
            },
            (DWARFPosition::Basic { pos: pos1 }, DWARFPosition::Basic { pos: pos2 }) => {
                pos1 == pos2
            },
            _ => false,
        }
    }
}

impl<'a, T: Ord, D: Ord> PartialOrdSpecImpl for DWARFPosition<'a, T, D> {
    open spec fn obeys_partial_cmp_spec() -> bool {
        T::obeys_cmp_spec() && D::obeys_cmp_spec()
    }

    open spec fn partial_cmp_spec(&self, other: &DWARFPosition<'a, T, D>) -> Option<Ordering> {
        Some(self.order(other))
    }
}

impl<'a, T: Ord, D: Ord> PartialOrd for DWARFPosition<'a, T, D> {
    fn partial_cmp(&self, other: &DWARFPosition<'a, T, D>) -> (r: Option<Ordering>)
        decreases self,
    {
        match (self, other) {
            (DWARFPosition::Def { id: id1, pos: pos1 }, DWARFPosition::Def { id: id2, pos: pos2 }) => {
                match id1.cmp(id2) {
                    Ordering::Equal => pos1.partial_cmp(pos2),
                    first => Some(first),
                }
            },
            (DWARFPosition::Def { .. }, _) => Some(Ordering::Less),
            (_, DWARFPosition::Def { .. }) => Some(Ordering::Greater),
            (DWARFPosition::TypeDef { id: id1, pos: pos1 }, DWARFPosition::TypeDef { id: id2, pos: pos2 }) => {
                match id1.cmp(id2) {
                    Ordering::Equal => pos1.partial_cmp(pos2),
                    first => Some(first),
                }
            },
            (DWARFPosition::TypeDef { .. }, _) => Some(Ordering::Less),
            (_, DWARFPosition::TypeDef { .. }) => Some(Ordering::Greater),
            (DWARFPosition::Block { ctx: ctx1, pos: pos1 }, DWARFPosition::Block { ctx: ctx2, pos: pos2 }) => {
                match (**ctx1).partial_cmp(&**ctx2) {
                    Some(Ordering::Equal) => pos1.partial_cmp(pos2),
                    first => first,
                }
            },
            (DWARFPosition::Block { .. }, _) => Some(Ordering::Less),
            (_, DWARFPosition::Block { .. }) => Some(Ordering::Greater),
            (DWARFPosition::Basic { pos: pos1 }, DWARFPosition::Basic { pos: pos2 }) => {
                pos1.partial_cmp(pos2)
            },
        }
    }
}

/// Get information about position representations.
pub trait PositionInfo<'a>: Sized {
    /// Get the file that the position lies in, and the location in it where
    /// the position has one. A position without a file gives `None`.
    fn location(&self) -> Option<(&Filename<'a>, Option<&Location>)>;

    /// Get the children of the current position.
    fn children(&self) -> &[&Self];

    /// Whether or not to show source context when printing this message.
    /// Note that some rendering modes omit all source context.
    fn show_ctx(&self) -> bool;

    /// Get a textual description of the message.
    fn description(&self) -> Option<&'a str>;
}

impl<'a> FromSpecImpl<FilePosition<'a>> for BasicPosition<'a> {
    open spec fn obeys_from_spec() -> bool {
        true
    }

    open spec fn from_spec(filepos: FilePosition<'a>) -> BasicPosition<'a> {
        BasicPosition::Content { filepos }
    }
}

impl<'a> From<FilePosition<'a>> for BasicPosition<'a> {
    /// Create a `BasicPosition` from a `FilePosition`.
    fn from(filepos: FilePosition<'a>) -> (pos: BasicPosition<'a>) {
        BasicPosition::Content { filepos }
    }
}

impl<'a, T, D> FromSpecImpl<BasicPosition<'a>> for DWARFPosition<'a, T, D> {
    open spec fn obeys_from_spec() -> bool {
        true
    }

    open spec fn from_spec(pos: BasicPosition<'a>) -> DWARFPosition<'a, T, D> {
        DWARFPosition::Basic { pos }
    }
}

impl<'a, T, D> From<BasicPosition<'a>> for DWARFPosition<'a, T, D> {
    /// Create a `DWARFPosition` from a `BasicPosition`.
    fn from(pos: BasicPosition<'a>) -> (dwarf: DWARFPosition<'a, T, D>) {
        DWARFPosition::Basic { pos }
    }
}

impl<'a> PositionInfo<'a> for FilePosition<'a> {
    fn location(&self) -> (r: Option<(&Filename<'a>, Option<&Location>)>)
        ensures
            r == Some((&self.filename, Some(&self.loc))),
    {
        Some((&self.filename, Some(&self.loc)))
    }

    fn children(&self) -> (r: &[&Self])
        ensures
            r@.len() == 0,
    {
        &[]
    }

    fn show_ctx(&self) -> (r: bool)
        ensures
            r,
    {
        true
    }

    fn description(&self) -> (r: Option<&'a str>)
        ensures
            r is None,
    {
        None
    }
}

impl<'a> PositionInfo<'a> for BasicPosition<'a> {
    fn location(&self) -> (r: Option<(&Filename<'a>, Option<&Location>)>)
        ensures
            r == match self {
                BasicPosition::Content { filepos } => Some((&filepos.filename, Some(&filepos.loc))),
                BasicPosition::File { filename } => Some((filename, None)),
                BasicPosition::CmdLine { .. } => None,
                BasicPosition::Synthetic { .. } => None,
            },
    {
        match self {
            BasicPosition::Content { filepos } => filepos.location(),
            BasicPosition::File { filename } => Some((filename, None)),
            BasicPosition::CmdLine { .. } => None,
            BasicPosition::Synthetic { .. } => None,
        }
    }

    fn description(&self) -> (r: Option<&'a str>)
        ensures
            r == match self {
                BasicPosition::Synthetic { desc } => Some(*desc),
                _ => None,
            },
    {
        match self {
            BasicPosition::Synthetic { desc } => Some(desc),
            _ => None,
        }
    }

    fn children(&self) -> (r: &[&Self])
        ensures
            r@.len() == 0,
    {
        &[]
    }

    fn show_ctx(&self) -> (r: bool)
        ensures
            r == (self is Content),
    {
        match self {
            BasicPosition::Content { .. } => true,
            _ => false,
        }
    }
}

/// One point comes before another when its line is the smaller, or on one
/// line its column.
pub proof fn lemma_point_before(a: Point, b: Point)
    ensures
        PartialOrdSpec::partial_cmp_spec(&a, &b) == Some(Ordering::Less) <==> (a.line < b.line
            || (a.line == b.line && a.col < b.col)),
        PartialOrdSpec::partial_cmp_spec(&a, &b) == Some(Ordering::Equal) <==> a == b,
        b.order(&a) == reverse(a.order(&b)),
{
}

/// The orders of three points fit together.
pub proof fn lemma_point_order_chains(a: Point, b: Point, c: Point)
    ensures
        chains(a.order(&b), b.order(&c), a.order(&c)),
{
}

/// Seen from the other side the order of two locations is the reverse, and
/// they are in order `Equal` when they are equal, and only then.
pub proof fn lemma_location_order(a: Location, b: Location)
    ensures
        b.order(&a) == reverse(a.order(&b)),
        a.order(&b) == Ordering::Equal <==> a == b,
{
}

/// The orders of three locations fit together.
pub proof fn lemma_location_order_chains(a: Location, b: Location, c: Location)
    ensures
        chains(a.order(&b), b.order(&c), a.order(&c)),
{
}

/// Seen from the other side the order of two file positions is the
/// reverse, and they are in order `Equal` when they are the same, and only
/// then.
pub proof fn lemma_file_position_order<'a>(a: FilePosition<'a>, b: FilePosition<'a>)
    ensures
        b.order(&a) == reverse(a.order(&b)),
        a.order(&b) == Ordering::Equal <==> a.same(&b),
{
    lemma_location_order(a.loc, b.loc);
}

/// The orders of three file positions fit together.
pub proof fn lemma_file_position_order_chains<'a>(
    a: FilePosition<'a>,
    b: FilePosition<'a>,
    c: FilePosition<'a>,
)
    ensures
        chains(a.order(&b), b.order(&c), a.order(&c)),
{
    lemma_pair_order(a.filename.identity(), b.filename.identity(), c.filename.identity());
    lemma_location_order_chains(a.loc, b.loc, c.loc);
}

/// Basic positions of different kinds are ordered by their kinds alone,
/// content before file before command line before synthetic, and from
/// whichever side they are compared.
pub proof fn lemma_basic_kinds<'a>(a: BasicPosition<'a>, b: BasicPosition<'a>)
    requires
        a.kind() != b.kind(),
    ensures
        a.kind() < b.kind() ==> a.order(&b) == Ordering::Less && b.order(&a) == Ordering::Greater,
        a.kind() > b.kind() ==> a.order(&b) == Ordering::Greater && b.order(&a) == Ordering::Less,
        !a.same(&b),
{
}

/// Seen from the other side the order of two basic positions is the
/// reverse, and they are in order `Equal` when they are the same, and only
/// then.
pub proof fn lemma_basic_order<'a>(a: BasicPosition<'a>, b: BasicPosition<'a>)
    ensures
        b.order(&a) == reverse(a.order(&b)),
        a.order(&b) == Ordering::Equal <==> a.same(&b),
{
    match (a, b) {
        (BasicPosition::Content { filepos: filepos1 }, BasicPosition::Content { filepos: filepos2 }) => {
            lemma_file_position_order(filepos1, filepos2);
        },
        (BasicPosition::CmdLine { idxs: idxs1 }, BasicPosition::CmdLine { idxs: idxs2 }) => {
            lemma_indices_order(idxs1@, idxs2@);
        },
        (BasicPosition::Synthetic { desc: desc1 }, BasicPosition::Synthetic { desc: desc2 }) => {
            lemma_bytes_order(desc1.spec_bytes(), desc2.spec_bytes());
            lemma_same_bytes_same_text(desc1, desc2);
        },
        _ => {},
    }
}

/// The orders of three basic positions fit together: with
/// `lemma_basic_order` this makes the order total.
pub proof fn lemma_basic_order_chains<'a>(
    a: BasicPosition<'a>,
    b: BasicPosition<'a>,
    c: BasicPosition<'a>,
)
    ensures
        chains(a.order(&b), b.order(&c), a.order(&c)),
{
    match (a, b, c) {
        (
            BasicPosition::Content { filepos: filepos1 },
            BasicPosition::Content { filepos: filepos2 },
            BasicPosition::Content { filepos: filepos3 },
        ) => {
            lemma_file_position_order_chains(filepos1, filepos2, filepos3);
        },
        (
            BasicPosition::File { filename: filename1 },
            BasicPosition::File { filename: filename2 },
            BasicPosition::File { filename: filename3 },
        ) => {
            lemma_pair_order(filename1.identity(), filename2.identity(), filename3.identity());
        },
        (
            BasicPosition::CmdLine { idxs: idxs1 },
            BasicPosition::CmdLine { idxs: idxs2 },
            BasicPosition::CmdLine { idxs: idxs3 },
        ) => {
            lemma_indices_order_chains(idxs1@, idxs2@, idxs3@);
        },
        (
            BasicPosition::Synthetic { desc: desc1 },
            BasicPosition::Synthetic { desc: desc2 },
            BasicPosition::Synthetic { desc: desc3 },
        ) => {
            lemma_bytes_order_chains(desc1.spec_bytes(), desc2.spec_bytes(), desc3.spec_bytes());
        },
        _ => {},
    }
}

/// Positions with DWARF information of different kinds are ordered by
/// their kinds alone, definition before type definition before block before
/// basic, and from whichever side they are compared.
pub proof fn lemma_dwarf_kinds<'a, T: Ord, D: Ord>(
    a: DWARFPosition<'a, T, D>,
    b: DWARFPosition<'a, T, D>,
)
    requires
        a.kind() != b.kind(),
    ensures
        a.kind() < b.kind() ==> a.order(&b) == Ordering::Less && b.order(&a) == Ordering::Greater,
        a.kind() > b.kind() ==> a.order(&b) == Ordering::Greater && b.order(&a) == Ordering::Less,
        !a.same(&b),
{
}

/// Where the ids are ordered so that the order seen from the other side is
/// the reverse, so are the positions that hold them.
pub proof fn lemma_dwarf_order_reverse<'a, T: Ord, D: Ord>(
    a: DWARFPosition<'a, T, D>,
    b: DWARFPosition<'a, T, D>,
)
    requires
        forall|x: T, y: T| #[trigger] y.cmp_spec(&x) == reverse(x.cmp_spec(&y)),
        forall|x: D, y: D| #[trigger] y.cmp_spec(&x) == reverse(x.cmp_spec(&y)),
    ensures
        b.order(&a) == reverse(a.order(&b)),
    decreases a,
{
    match (a, b) {
        (DWARFPosition::Def { id: id1, pos: pos1 }, DWARFPosition::Def { id: id2, pos: pos2 }) => {
            lemma_file_position_order(pos1, pos2);
        },
        (DWARFPosition::TypeDef { id: id1, pos: pos1 }, DWARFPosition::TypeDef { id: id2, pos: pos2 }) => {
            lemma_file_position_order(pos1, pos2);
        },
        (DWARFPosition::Block { ctx: ctx1, pos: pos1 }, DWARFPosition::Block { ctx: ctx2, pos: pos2 }) => {
            lemma_dwarf_order_reverse(*ctx1, *ctx2);
            lemma_file_position_order(pos1, pos2);
        },
        (DWARFPosition::Basic { pos: pos1 }, DWARFPosition::Basic { pos: pos2 }) => {
            lemma_basic_order(pos1, pos2);
        },
        _ => {},
    }
}

/// Where ids are in order `Equal` when they are equal as their type has it,
/// and only then, positions are in order `Equal` when they are the same,
/// and only then.
pub proof fn lemma_dwarf_order_equal<'a, T: Ord, D: Ord>(
    a: DWARFPosition<'a, T, D>,
    b: DWARFPosition<'a, T, D>,
)
    requires
        forall|x: T, y: T| #[trigger] x.cmp_spec(&y) == Ordering::Equal <==> x.eq_spec(&y),
        forall|x: D, y: D| #[trigger] x.cmp_spec(&y) == Ordering::Equal <==> x.eq_spec(&y),
    ensures
        a.order(&b) == Ordering::Equal <==> a.same(&b),
    decreases a,
{
    match (a, b) {
        (DWARFPosition::Def { id: id1, pos: pos1 }, DWARFPosition::Def { id: id2, pos: pos2 }) => {
            lemma_file_position_order(pos1, pos2);
        },
        (DWARFPosition::TypeDef { id: id1, pos: pos1 }, DWARFPosition::TypeDef { id: id2, pos: pos2 }) => {
            lemma_file_position_order(pos1, pos2);
        },
        (DWARFPosition::Block { ctx: ctx1, pos: pos1 }, DWARFPosition::Block { ctx: ctx2, pos: pos2 }) => {
            lemma_dwarf_order_equal(*ctx1, *ctx2);
            lemma_file_position_order(pos1, pos2);
        },
        (DWARFPosition::Basic { pos: pos1 }, DWARFPosition::Basic { pos: pos2 }) => {
            lemma_basic_order(pos1, pos2);
        },
        _ => {},
    }
}

/// Where the orders of three ids always fit together, so do the orders of
/// three positions that hold them.
pub proof fn lemma_dwarf_order_chains<'a, T: Ord, D: Ord>(
    a: DWARFPosition<'a, T, D>,
    b: DWARFPosition<'a, T, D>,
    c: DWARFPosition<'a, T, D>,
)
    requires
        forall|x: T, y: T, z: T|
            chains(#[trigger] x.cmp_spec(&y), #[trigger] y.cmp_spec(&z), x.cmp_spec(&z)),
        forall|x: D, y: D, z: D|
            chains(#[trigger] x.cmp_spec(&y), #[trigger] y.cmp_spec(&z), x.cmp_spec(&z)),
    ensures
        chains(a.order(&b), b.order(&c), a.order(&c)),
    decreases a,
{
    match (a, b, c) {
        (
            DWARFPosition::Def { id: id1, pos: pos1 },
            DWARFPosition::Def { id: id2, pos: pos2 },
            DWARFPosition::Def { id: id3, pos: pos3 },
        ) => {
            lemma_file_position_order_chains(pos1, pos2, pos3);
            assert(chains(id1.cmp_spec(&id2), id2.cmp_spec(&id3), id1.cmp_spec(&id3)));
        },
        (
            DWARFPosition::TypeDef { id: id1, pos: pos1 },
            DWARFPosition::TypeDef { id: id2, pos: pos2 },
            DWARFPosition::TypeDef { id: id3, pos: pos3 },
        ) => {
            lemma_file_position_order_chains(pos1, pos2, pos3);
            assert(chains(id1.cmp_spec(&id2), id2.cmp_spec(&id3), id1.cmp_spec(&id3)));
        },
        (
            DWARFPosition::Block { ctx: ctx1, pos: pos1 },
            DWARFPosition::Block { ctx: ctx2, pos: pos2 },
            DWARFPosition::Block { ctx: ctx3, pos: pos3 },
        ) => {
            lemma_dwarf_order_chains(*ctx1, *ctx2, *ctx3);
            lemma_file_position_order_chains(pos1, pos2, pos3);
        },
        (
            DWARFPosition::Basic { pos: pos1 },
            DWARFPosition::Basic { pos: pos2 },
            DWARFPosition::Basic { pos: pos3 },
        ) => {
            lemma_basic_order_chains(pos1, pos2, pos3);
        },
        _ => {},
    }
}

} // verus!
