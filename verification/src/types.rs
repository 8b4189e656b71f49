//! Structural model of field type expressions.
//!
//! A field's declared type is carried as its canonical rendered text together
//! with just enough of its syntactic shape for the optional-wrapper test: is
//! it a path, does it have a leading-root qualifier or a qualified-self
//! prefix, what are its segments, and what generic arguments does a segment
//! carry. Inner types (generic arguments) are carried by their canonical text
//! alone, since type equality is decided textually.

use vstd::prelude::*;

verus! {

/// Ghost model of a generic argument of a path segment.
pub enum GenericArgView {
    /// A type argument, by its canonical text.
    TypeArg { text: Seq<char> },
    /// A lifetime, const, or other non-type argument.
    OtherArg,
}

/// Ghost model of the argument slot of a path segment.
pub enum SegmentArgsView {
    /// No argument brackets at all.
    NoArgs,
    /// Angle-bracketed arguments.
    Angle { args: Seq<GenericArgView> },
    /// Parenthesized (function-style) arguments.
    Paren,
}

/// Ghost model of one path segment.
pub struct PathSegmentView {
    pub name: Seq<char>,
    pub args: SegmentArgsView,
}

/// Ghost model of the shape of a type expression.
pub enum TypeShapeView {
    /// A path type, e.g. `a::b::C<D>`.
    Path { rooted: bool, qualified: bool, segments: Seq<PathSegmentView> },
    /// Anything that is not a path (tuple, reference, array, function type).
    NonPath,
}

/// Ghost model of a type expression.
pub struct TypeExprView {
    pub text: Seq<char>,
    pub shape: TypeShapeView,
}

/// A generic argument of a path segment.
#[derive(Debug, PartialEq, Eq)]
pub enum GenericArg {
    /// A type argument, by its canonical text.
    TypeArg { text: String },
    /// A lifetime, const, or other non-type argument.
    OtherArg,
}

impl View for GenericArg {
    type V = GenericArgView;

    open spec fn view(&self) -> GenericArgView {
        match self {
            GenericArg::TypeArg { text } => GenericArgView::TypeArg { text: text@ },
            GenericArg::OtherArg => GenericArgView::OtherArg,
        }
    }
}

/// The argument slot of a path segment.
#[derive(Debug, PartialEq, Eq)]
pub enum SegmentArgs {
    /// No argument brackets at all.
    NoArgs,
    /// Angle-bracketed arguments.
    Angle { args: Vec<GenericArg> },
    /// Parenthesized (function-style) arguments.
    Paren,
}

impl View for SegmentArgs {
    type V = SegmentArgsView;

    open spec fn view(&self) -> SegmentArgsView {
        match self {
            SegmentArgs::NoArgs => SegmentArgsView::NoArgs,
            SegmentArgs::Angle { args } => SegmentArgsView::Angle {
                args: args@.map_values(|a: GenericArg| a@),
            },
            SegmentArgs::Paren => SegmentArgsView::Paren,
        }
    }
}

/// One path segment: a name and its generic-argument slot.
#[derive(Debug, PartialEq, Eq)]
pub struct PathSegment {
    pub name: String,
    pub args: SegmentArgs,
}

impl View for PathSegment {
    type V = PathSegmentView;

    open spec fn view(&self) -> PathSegmentView {
        PathSegmentView { name: self.name@, args: self.args@ }
    }
}

/// The shape of a type expression.
#[derive(Debug, PartialEq, Eq)]
pub enum TypeShape {
    /// A path type; `rooted` means a leading `::`, `qualified` means a
    /// qualified-self prefix such as `<T as Trait>::`.
    Path { rooted: bool, qualified: bool, segments: Vec<PathSegment> },
    /// Anything that is not a path (tuple, reference, array, function type).
    NonPath,
}

impl View for TypeShape {
    type V = TypeShapeView;

    open spec fn view(&self) -> TypeShapeView {
        match self {
            TypeShape::Path { rooted, qualified, segments } => TypeShapeView::Path {
                rooted: *rooted,
                qualified: *qualified,
                segments: segments@.map_values(|s: PathSegment| s@),
            },
            TypeShape::NonPath => TypeShapeView::NonPath,
        }
    }
}

/// A type expression: its canonical rendered text and its shape.
#[derive(Debug, PartialEq, Eq)]
pub struct TypeExpr {
    pub text: String,
    pub shape: TypeShape,
}

impl View for TypeExpr {
    type V = TypeExprView;

    open spec fn view(&self) -> TypeExprView {
        TypeExprView { text: self.text@, shape: self.shape@ }
    }
}

impl GenericArg {
    /// Duplicate this argument, preserving its model.
    pub fn dup(&self) -> (r: GenericArg)
        ensures
            r@ == self@,
    {
        match self {
            GenericArg::TypeArg { text } => GenericArg::TypeArg { text: dup_string(text) },
            GenericArg::OtherArg => GenericArg::OtherArg,
        }
    }
}

impl SegmentArgs {
    /// Duplicate this argument slot, preserving its model.
    pub fn dup(&self) -> (r: SegmentArgs)
        ensures
            r@ == self@,
    {
        match self {
            SegmentArgs::NoArgs => SegmentArgs::NoArgs,
            SegmentArgs::Paren => SegmentArgs::Paren,
            SegmentArgs::Angle { args } => {
                let mut out: Vec<GenericArg> = Vec::new();
                let mut i: usize = 0;
                while i < args.len()
                    invariant
                        i <= args.len(),
                        out@.len() == i as int,
                        forall|j: int| 0 <= j < i ==> out@[j]@ == args@[j]@,
                    decreases args.len() - i,
                {
                    out.push(args[i].dup());
                    i += 1;
                }
                proof {
                    assert(out@.map_values(|a: GenericArg| a@) =~= args@.map_values(
                        |a: GenericArg| a@,
                    ));
                }
                SegmentArgs::Angle { args: out }
            },
        }
    }
}

impl PathSegment {
    /// Duplicate this segment, preserving its model.
    pub fn dup(&self) -> (r: PathSegment)
        ensures
            r@ == self@,
    {
        PathSegment { name: dup_string(&self.name), args: self.args.dup() }
    }
}

impl TypeShape {
    /// Duplicate this shape, preserving its model.
    pub fn dup(&self) -> (r: TypeShape)
        ensures
            r@ == self@,
    {
        match self {
            TypeShape::NonPath => TypeShape::NonPath,
            TypeShape::Path { rooted, qualified, segments } => {
                let mut out: Vec<PathSegment> = Vec::new();
                let mut i: usize = 0;
                while i < segments.len()
                    invariant
                        i <= segments.len(),
                        out@.len() == i as int,
                        forall|j: int| 0 <= j < i ==> out@[j]@ == segments@[j]@,
                    decreases segments.len() - i,
                {
                    out.push(segments[i].dup());
                    i += 1;
                }
                proof {
                    assert(out@.map_values(|s: PathSegment| s@) =~= segments@.map_values(
                        |s: PathSegment| s@,
                    ));
                }
                TypeShape::Path { rooted: *rooted, qualified: *qualified, segments: out }
            },
        }
    }
}

impl TypeExpr {
    /// Duplicate this type expression, preserving its model.
    pub fn dup(&self) -> (r: TypeExpr)
        ensures
            r@ == self@,
    {
        TypeExpr { text: dup_string(&self.text), shape: self.shape.dup() }
    }
}

/// Compare two string slices for character-wise equality.
pub fn str_eq(a: &str, b: &str) -> (r: bool)
    ensures
        r == (a@ == b@),
{
    let owned_a: String = a.to_owned();
    let owned_b: String = b.to_owned();
    owned_a.eq(&owned_b)
}

/// Duplicate a string, preserving its characters.
pub fn dup_string(s: &String) -> (r: String)
    ensures
        r@ == s@,
{
    s.clone()
}

} // verus!
