//! Resolution of a path's fill and stroke into the style attributes of the
//! shapes made from it, and their classification by shape variant.
//!
//! Opacities and widths are IEEE-754 double-precision bit patterns, carried
//! through unchanged.
use vstd::prelude::*;

verus! {

/// A solid color, one byte per channel.
#[derive(Clone, Copy, Debug, PartialEq, Eq, Structural)]
pub struct Rgb {
    pub red: u8,
    pub green: u8,
    pub blue: u8,
}

/// How an area or outline is painted.
#[derive(Clone, Copy, Debug, PartialEq, Eq, Structural)]
pub enum Paint {
    Color(Rgb),
    /// A reference to a gradient or a pattern, which shapes cannot show.
    Link,
}

/// The fill that a path declares.
#[derive(Clone, Copy, Debug, PartialEq, Eq, Structural)]
pub struct FillSpec {
    pub paint: Paint,
    pub opacity: u64,
}

/// The shape at the open ends of a stroke.
#[derive(Clone, Copy, Debug, PartialEq, Eq, Structural)]
pub enum LineCap {
    Butt,
    Round,
    Square,
}

/// The shape at the corners of a stroke.
#[derive(Clone, Copy, Debug, PartialEq, Eq, Structural)]
pub enum LineJoin {
    Miter,
    Round,
    Bevel,
}

/// The stroke that a path declares.
#[derive(Clone, Copy, Debug, PartialEq, Eq, Structural)]
pub struct StrokeSpec {
    pub paint: Paint,
    pub opacity: u64,
    pub width: u64,
    pub linecap: LineCap,
    pub linejoin: LineJoin,
}

/// End cap of a shape's border; `Joined` is used for closed loops.
#[derive(Clone, Copy, Debug, PartialEq, Eq, Structural)]
pub enum EndCapStyle {
    Butt,
    Square,
    Round,
    Joined,
}

/// Joint of a shape's border.
#[derive(Clone, Copy, Debug, PartialEq, Eq, Structural)]
pub enum JointStyle {
    Miter,
    Bevel,
    Round,
}

/// Which visual attributes a shape carries.
#[derive(Clone, Copy, Debug, PartialEq, Eq, Structural)]
pub enum ShapeVariant {
    Fill,
    Border,
    FillAndBorder,
}

/// A fill that a shape shows: a solid color and its opacity.
#[derive(Clone, Copy, Debug, PartialEq, Eq, Structural)]
pub struct ResolvedFill {
    pub color: Rgb,
    pub opacity: u64,
}

/// A shape's border. The color is absent where the stroke's paint is not a
/// solid color.
#[derive(Clone, Copy, Debug, PartialEq, Eq)]
pub struct ResolvedStroke {
    pub color: Option<Rgb>,
    pub opacity: u64,
    pub thickness: u64,
    pub cap: EndCapStyle,
    pub join: JointStyle,
}

/// Everything a shape takes from its path's style.
#[derive(Clone, Copy, Debug, PartialEq, Eq)]
pub struct ShapeStyle {
    pub fill: Option<ResolvedFill>,
    pub stroke: Option<ResolvedStroke>,
    pub variant: ShapeVariant,
}

impl Default for ShapeVariant {
    fn default() -> (r: ShapeVariant)
        ensures
            r == ShapeVariant::Fill,
    {
        ShapeVariant::Fill
    }
}

impl Default for JointStyle {
    fn default() -> (r: JointStyle)
        ensures
            r == JointStyle::Miter,
    {
        JointStyle::Miter
    }
}

impl Default for EndCapStyle {
    fn default() -> (r: EndCapStyle)
        ensures
            r == EndCapStyle::Butt,
    {
        EndCapStyle::Butt
    }
}

/// The variant for a shape with or without a fill and a stroke; a shape with
/// neither counts as filled.
pub open spec fn variant_of(has_fill: bool, has_stroke: bool) -> ShapeVariant {
    if has_fill && has_stroke {
        ShapeVariant::FillAndBorder
    } else if has_stroke {
        ShapeVariant::Border
    } else {
        ShapeVariant::Fill
    }
}

/// The end cap of a border: `Joined` on a closed loop, else the declared cap.
pub open spec fn cap_of(cap: LineCap, closed: bool) -> EndCapStyle {
    if closed {
        EndCapStyle::Joined
    } else {
        match cap {
            LineCap::Butt => EndCapStyle::Butt,
            LineCap::Round => EndCapStyle::Round,
            LineCap::Square => EndCapStyle::Square,
        }
    }
}

/// The joint of a border: the declared join.
pub open spec fn join_of(join: LineJoin) -> JointStyle {
    match join {
        LineJoin::Miter => JointStyle::Miter,
        LineJoin::Round => JointStyle::Round,
        LineJoin::Bevel => JointStyle::Bevel,
    }
}

/// The fill a shape shows: only a solid-color fill shows.
pub open spec fn fill_of(fill: Option<FillSpec>) -> Option<ResolvedFill> {
    match fill {
        Some(f) => match f.paint {
            Paint::Color(c) => Some(ResolvedFill { color: c, opacity: f.opacity }),
            Paint::Link => None,
        },
        None => None,
    }
}

/// The border a shape shows: every declared stroke, with its color only
/// where its paint is a solid color.
pub open spec fn stroke_of(stroke: Option<StrokeSpec>, closed: bool) -> Option<ResolvedStroke> {
    match stroke {
        Some(s) => Some(
            ResolvedStroke {
                color: match s.paint {
                    Paint::Color(c) => Some(c),
                    Paint::Link => None,
                },
                opacity: s.opacity,
                thickness: s.width,
                cap: cap_of(s.linecap, closed),
                join: join_of(s.linejoin),
            },
        ),
        None => None,
    }
}

/// The style of a shape made from a loop of a path. The variant counts a
/// declared fill even where its paint cannot be shown.
pub open spec fn style_of(
    fill: Option<FillSpec>,
    stroke: Option<StrokeSpec>,
    closed: bool,
) -> ShapeStyle {
    ShapeStyle {
        fill: fill_of(fill),
        stroke: stroke_of(stroke, closed),
        variant: variant_of(fill is Some, stroke is Some),
    }
}

/// Classifies a shape by whether its path declares a fill and a stroke.
pub fn classify(has_fill: bool, has_stroke: bool) -> (r: ShapeVariant)
    ensures
        r == variant_of(has_fill, has_stroke),
{
    match (has_fill, has_stroke) {
        (true, false) => ShapeVariant::Fill,
        (false, true) => ShapeVariant::Border,
        (true, true) => ShapeVariant::FillAndBorder,
        (false, false) => ShapeVariant::Fill,
    }
}

/// The end cap of a border on an open or a closed loop.
pub fn resolve_cap(cap: LineCap, closed: bool) -> (r: EndCapStyle)
    ensures
        r == cap_of(cap, closed),
{
    if closed {
        return EndCapStyle::Joined;
    }
    match cap {
        LineCap::Round => EndCapStyle::Round,
        LineCap::Square => EndCapStyle::Square,
        LineCap::Butt => EndCapStyle::Butt,
    }
}

/// The joint of a border.
pub fn resolve_join(join: LineJoin) -> (r: JointStyle)
    ensures
        r == join_of(join),
{
    match join {
        LineJoin::Round => JointStyle::Round,
        LineJoin::Bevel => JointStyle::Bevel,
        LineJoin::Miter => JointStyle::Miter,
    }
}

/// The style of a shape made from a loop of a path with the given fill and
/// stroke.
pub fn resolve(fill: &Option<FillSpec>, stroke: &Option<StrokeSpec>, closed: bool) -> (r:
    ShapeStyle)
    ensures
        r == style_of(*fill, *stroke, closed),
{
    let shown_fill = match fill {
        Some(f) => match f.paint {
            Paint::Color(c) => Some(ResolvedFill { color: c, opacity: f.opacity }),
            Paint::Link => None,
        },
        None => None,
    };
    let border = match stroke {
        Some(s) => {
            let color = match s.paint {
                Paint::Color(c) => Some(c),
                Paint::Link => None,
            };
            Some(
                ResolvedStroke {
                    color,
                    opacity: s.opacity,
                    thickness: s.width,
                    cap: resolve_cap(s.linecap, closed),
                    join: resolve_join(s.linejoin),
                },
            )
        },
        None => None,
    };
    let variant = classify(fill.is_some(), stroke.is_some());
    ShapeStyle { fill: shown_fill, stroke: border, variant }
}

} // verus!
