//! Output and region value types, the containment arithmetic used to
//! validate a requested capture area against a display's bounding rectangle,
//! and output/region resolution for one capture request.

use vstd::prelude::*;

use crate::errors::CaptureError;

verus! {

/// An axis-aligned rectangle in compositor-global coordinates. Describes both
/// a requested capture area and an output's bounding box.
#[derive(Debug, Clone, Copy, PartialEq, Eq, Structural)]
pub struct Region {
    pub x: i32,
    pub y: i32,
    pub width: i32,
    pub height: i32,
}

/// `a` contains `b` iff all four corners of `b` lie within `a`'s bounds.
pub open spec fn region_contains(a: Region, b: Region) -> bool {
    &&& a.x <= b.x
    &&& a.y <= b.y
    &&& b.x + b.width <= a.x + a.width
    &&& b.y + b.height <= a.y + a.height
}

impl Region {
    pub fn new(x: i32, y: i32, width: i32, height: i32) -> (r: Region)
        ensures
            r == (Region { x, y, width, height }),
    {
        Region { x, y, width, height }
    }

    /// Containment test: does `self` contain all four corners of `other`?
    pub fn contains(&self, other: &Region) -> (r: bool)
        ensures
            r == region_contains(*self, *other),
    {
        let ax = self.x as i64;
        let ay = self.y as i64;
        let bx = other.x as i64;
        let by = other.y as i64;
        ax <= bx && ay <= by && bx + other.width as i64 <= ax + self.width as i64
            && by + other.height as i64 <= ay + self.height as i64
    }
}

/// One physical or logical display: a compositor-assigned name (opaque, not
/// guaranteed unique across reconnects), position and logical size in
/// compositor-global coordinates, and an integer scale factor. Immutable
/// once discovered.
#[derive(Debug)]
pub struct Output {
    pub name: String,
    pub x: i32,
    pub y: i32,
    pub width: i32,
    pub height: i32,
    pub scale: i32,
}

/// An output's bounding rectangle in compositor-global coordinates.
pub open spec fn output_bounds(o: Output) -> Region {
    Region { x: o.x, y: o.y, width: o.width, height: o.height }
}

impl Output {
    /// The bounding rectangle of this output.
    pub fn bounds(&self) -> (r: Region)
        ensures
            r == output_bounds(*self),
    {
        Region { x: self.x, y: self.y, width: self.width, height: self.height }
    }
}

impl Clone for Output {
    fn clone(&self) -> (r: Output)
        ensures
            r == *self,
    {
        Output {
            name: self.name.clone(),
            x: self.x,
            y: self.y,
            width: self.width,
            height: self.height,
            scale: self.scale,
        }
    }
}

impl Default for Output {
    /// A placeholder output: unnamed, empty, at the origin, scale 1.
    fn default() -> (o: Output)
        ensures
            o.name@ == "<unknown>"@,
            o.x == 0,
            o.y == 0,
            o.width == 0,
            o.height == 0,
            o.scale == 1,
    {
        Output {
            name: "<unknown>".to_owned(),
            x: 0,
            y: 0,
            width: 0,
            height: 0,
            scale: 1,
        }
    }
}

/// The index of the first output whose name reads `name`, in discovery
/// order, if any does.
pub open spec fn find_named(outputs: Seq<Output>, name: Seq<char>) -> Option<int>
    decreases outputs.len(),
{
    if outputs.len() == 0 {
        None
    } else if outputs[0].name@ == name {
        Some(0int)
    } else {
        match find_named(outputs.drop_first(), name) {
            Some(i) => Some(i + 1),
            None => None,
        }
    }
}

/// The index of the first output whose bounds contain `region`, in discovery
/// order, if any does.
pub open spec fn find_containing(outputs: Seq<Output>, region: Region) -> Option<int>
    decreases outputs.len(),
{
    if outputs.len() == 0 {
        None
    } else if region_contains(output_bounds(outputs[0]), region) {
        Some(0int)
    } else {
        match find_containing(outputs.drop_first(), region) {
            Some(i) => Some(i + 1),
            None => None,
        }
    }
}

proof fn lemma_find_named_some(outputs: Seq<Output>, name: Seq<char>, i: int)
    requires
        0 <= i < outputs.len(),
        outputs[i].name@ == name,
        forall|k: int| 0 <= k < i ==> outputs[k].name@ != name,
    ensures
        find_named(outputs, name) == Some(i),
    decreases i,
{
    if i > 0 {
        lemma_find_named_some(outputs.drop_first(), name, i - 1);
    }
}

proof fn lemma_find_named_none(outputs: Seq<Output>, name: Seq<char>)
    requires
        forall|k: int| 0 <= k < outputs.len() ==> outputs[k].name@ != name,
    ensures
        find_named(outputs, name) is None,
    decreases outputs.len(),
{
    if outputs.len() > 0 {
        lemma_find_named_none(outputs.drop_first(), name);
    }
}

proof fn lemma_find_containing_some(outputs: Seq<Output>, region: Region, i: int)
    requires
        0 <= i < outputs.len(),
        region_contains(output_bounds(outputs[i]), region),
        forall|k: int| 0 <= k < i ==> !region_contains(output_bounds(outputs[k]), region),
    ensures
        find_containing(outputs, region) == Some(i),
    decreases i,
{
    if i > 0 {
        lemma_find_containing_some(outputs.drop_first(), region, i - 1);
    }
}

proof fn lemma_find_containing_none(outputs: Seq<Output>, region: Region)
    requires
        forall|k: int| 0 <= k < outputs.len() ==> !region_contains(output_bounds(outputs[k]), region),
    ensures
        find_containing(outputs, region) is None,
    decreases outputs.len(),
{
    if outputs.len() > 0 {
        lemma_find_containing_none(outputs.drop_first(), region);
    }
}

/// Find the output matching `output_name`, or return the first output when
/// no name is given. A name that matches nothing, or an empty output list,
/// is a not-found failure.
pub fn get_output<'a>(output_name: Option<&String>, outputs: &'a Vec<Output>) -> (r: Result<
    &'a Output,
    CaptureError,
>)
    ensures
        match output_name {
            Some(name) => match find_named(outputs@, name@) {
                Some(i) => r matches Ok(o) && *o == outputs@[i],
                None => r matches Err(e) && e == CaptureError::NotFound,
            },
            None => if outputs@.len() > 0 {
                r matches Ok(o) && *o == outputs@[0]
            } else {
                r matches Err(e) && e == CaptureError::NotFound
            },
        },
{
    match output_name {
        Some(name) => {
            let n = outputs.len();
            let mut i: usize = 0;
            while i < n
                invariant
                    output_name == Some(name),
                    n == outputs@.len(),
                    i <= n,
                    forall|k: int| 0 <= k < i ==> outputs@[k].name@ != name@,
                decreases n - i,
            {
                if outputs[i].name.eq(name) {
                    proof {
                        lemma_find_named_some(outputs@, name@, i as int);
                    }
                    return Ok(&outputs[i]);
                }
                i = i + 1;
            }
            proof {
                lemma_find_named_none(outputs@, name@);
            }
            Err(CaptureError::NotFound)
        },
        None => {
            if outputs.len() > 0 {
                Ok(&outputs[0])
            } else {
                Err(CaptureError::NotFound)
            }
        },
    }
}

/// Find the first output whose bounds fully contain `region`. A region that
/// lies in no single output is rejected as invalid.
pub fn find_output_from_region<'a>(region: Region, outputs: &'a Vec<Output>) -> (r: Result<
    &'a Output,
    CaptureError,
>)
    ensures
        match find_containing(outputs@, region) {
            Some(i) => r matches Ok(o) && *o == outputs@[i],
            None => r matches Err(e) && e == CaptureError::InvalidRegion,
        },
{
    let n = outputs.len();
    let mut i: usize = 0;
    while i < n
        invariant
            n == outputs@.len(),
            i <= n,
            forall|k: int| 0 <= k < i ==> !region_contains(output_bounds(outputs@[k]), region),
        decreases n - i,
    {
        let bounds = outputs[i].bounds();
        if bounds.contains(&region) {
            proof {
                lemma_find_containing_some(outputs@, region, i as int);
            }
            return Ok(&outputs[i]);
        }
        i = i + 1;
    }
    proof {
        lemma_find_containing_none(outputs@, region);
    }
    Err(CaptureError::InvalidRegion)
}

/// A requested capture area is acceptable iff it is non-degenerate and fully
/// contained in the chosen output's bounds.
pub open spec fn region_valid_for(region: Region, output: Output) -> bool {
    region.width > 0 && region.height > 0 && region_contains(output_bounds(output), region)
}

/// Check a requested capture area against the resolved output: it must be
/// non-degenerate and fully contained in the output's bounds.
pub fn validate_region(region: &Region, output: &Output) -> (r: Result<(), CaptureError>)
    ensures
        r matches Ok(u) ==> region_valid_for(*region, *output),
        r matches Err(e) ==> e == CaptureError::InvalidRegion && !region_valid_for(
            *region,
            *output,
        ),
{
    let bounds = output.bounds();
    if region.width > 0 && region.height > 0 && bounds.contains(region) {
        Ok(())
    } else {
        Err(CaptureError::InvalidRegion)
    }
}

/// Translate a validated capture area from compositor-global coordinates
/// into coordinates local to its output, as the copy request expects.
pub fn to_local(region: &Region, output: &Output) -> (r: Region)
    requires
        region_valid_for(*region, *output),
    ensures
        r.x == region.x - output.x,
        r.y == region.y - output.y,
        r.width == region.width,
        r.height == region.height,
{
    Region {
        x: region.x - output.x,
        y: region.y - output.y,
        width: region.width,
        height: region.height,
    }
}

/// The window area reported by the window manager for the focused window:
/// the node rectangle offset by the window rectangle's position, with the
/// window rectangle's size.
pub fn focused_window_region(
    rect_x: i32,
    rect_y: i32,
    win_x: i32,
    win_y: i32,
    win_width: i32,
    win_height: i32,
) -> (r: Region)
    requires
        i32::MIN <= rect_x + win_x <= i32::MAX,
        i32::MIN <= rect_y + win_y <= i32::MAX,
    ensures
        r == (Region {
            x: (rect_x + win_x) as i32,
            y: (rect_y + win_y) as i32,
            width: win_width,
            height: win_height,
        }),
{
    Region { x: rect_x + win_x, y: rect_y + win_y, width: win_width, height: win_height }
}

/// Clamp an ideal extent to what an `i32` width or height can hold, with a
/// floor of zero.
pub open spec fn clamp_extent(v: int) -> int {
    if v < 0 {
        0
    } else if v > i32::MAX {
        i32::MAX as int
    } else {
        v
    }
}

/// The capture area that a set of optional coordinate arguments denotes on
/// the given output: missing coordinates default to zero, missing extents
/// default to the space remaining on the output past the chosen corner.
pub open spec fn args_region(
    x: Option<i32>,
    y: Option<i32>,
    width: Option<i32>,
    height: Option<i32>,
    output: Output,
) -> Region {
    let rx = if x is Some { x->0 } else { 0 };
    let ry = if y is Some { y->0 } else { 0 };
    let rw = if width is Some { width->0 } else { clamp_extent(output.width - rx) as i32 };
    let rh = if height is Some { height->0 } else { clamp_extent(output.height - ry) as i32 };
    Region { x: rx, y: ry, width: rw, height: rh }
}

/// Build the capture area requested through coordinate arguments, if any was
/// requested at all, and validate it against the chosen output: a degenerate
/// or out-of-bounds area is rejected as invalid.
pub fn region_from_args(
    x: Option<i32>,
    y: Option<i32>,
    width: Option<i32>,
    height: Option<i32>,
    output: &Output,
) -> (r: Option<Result<Region, CaptureError>>)
    ensures
        x is None && y is None && width is None && height is None ==> r is None,
        (x is Some || y is Some || width is Some || height is Some) ==> {
            let region = args_region(x, y, width, height, *output);
            if region_valid_for(region, *output) {
                r == Some(Result::<Region, CaptureError>::Ok(region))
            } else {
                r == Some(Result::<Region, CaptureError>::Err(CaptureError::InvalidRegion))
            }
        },
{
    if x.is_none() && y.is_none() && width.is_none() && height.is_none() {
        return None;
    }
    let rx = match x {
        Some(v) => v,
        None => 0,
    };
    let ry = match y {
        Some(v) => v,
        None => 0,
    };
    let rw = match width {
        Some(v) => v,
        None => clamp_extent_exec(output.width as i64 - rx as i64),
    };
    let rh = match height {
        Some(v) => v,
        None => clamp_extent_exec(output.height as i64 - ry as i64),
    };
    let region = Region { x: rx, y: ry, width: rw, height: rh };
    match validate_region(&region, output) {
        Ok(_) => Some(Ok(region)),
        Err(e) => Some(Err(e)),
    }
}

fn clamp_extent_exec(v: i64) -> (r: i32)
    ensures
        r == clamp_extent(v as int),
{
    if v < 0 {
        0
    } else if v > i32::MAX as i64 {
        i32::MAX
    } else {
        v as i32
    }
}

} // verus!
