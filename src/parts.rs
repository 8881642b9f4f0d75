//! The five decoration parts of a window and the operations on them.

use vstd::prelude::*;

use crate::geometry::{Coord, Location, Part, Rect};

verus! {

/// The theme's thicknesses, fixed for the lifetime of a `DecorationParts`.
#[derive(Clone, Copy, Debug, PartialEq, Eq, Structural)]
pub struct DecorationSizes {
    /// Thickness of the painted border strips.
    pub border: u32,
    /// Height of the header bar.
    pub header: u32,
    /// Thickness of the pointer-sensitive zone of a border strip.
    pub resize_handle: u32,
}

impl DecorationSizes {
    /// Every offset derived from the sizes fits in an `i32`.
    pub open spec fn valid(self) -> bool {
        &&& self.border + self.header <= i32::MAX
        &&& self.resize_handle <= i32::MAX
    }
}

/// The decoration's 'parts'.
#[derive(Debug)]
pub struct DecorationParts {
    sizes: DecorationSizes,
    parts: [Part; 5],
}

impl View for DecorationParts {
    type V = Seq<Part>;

    /// The parts in role order: top, left, right, bottom, header.
    closed spec fn view(&self) -> Seq<Part> {
        self.parts@
    }
}

/// The location that the part at `index` stands for.
pub open spec fn location_of(index: int) -> Location {
    if index == DecorationParts::TOP as int {
        Location::Top
    } else if index == DecorationParts::LEFT as int {
        Location::Left
    } else if index == DecorationParts::RIGHT as int {
        Location::Right
    } else if index == DecorationParts::BOTTOM as int {
        Location::Bottom
    } else {
        Location::Head
    }
}

/// Whether the input area of `part`, placed at the part's origin, contains the
/// point `(x, y)` moved by `(dx, dy)`; the edges belong to the area.
pub open spec fn hits(part: Part, x: Coord, y: Coord, dx: int, dy: int) -> bool {
    let input = part.effective_input();
    let left = part.rect.x + input.x;
    let top = part.rect.y + input.y;
    &&& x.shifted_within(dx, left, left + input.width)
    &&& y.shifted_within(dy, top, top + input.height)
}

impl DecorationParts {
    pub const TOP: usize = 0;
    pub const LEFT: usize = 1;
    pub const RIGHT: usize = 2;
    pub const BOTTOM: usize = 3;
    pub const HEADER: usize = 4;

    /// The sizes the parts were made with.
    pub closed spec fn spec_sizes(&self) -> DecorationSizes {
        self.sizes
    }

    pub open spec fn top(&self) -> Part {
        self@[Self::TOP as int]
    }

    pub open spec fn left(&self) -> Part {
        self@[Self::LEFT as int]
    }

    pub open spec fn right(&self) -> Part {
        self@[Self::RIGHT as int]
    }

    pub open spec fn bottom(&self) -> Part {
        self@[Self::BOTTOM as int]
    }

    pub open spec fn head(&self) -> Part {
        self@[Self::HEADER as int]
    }

    /// The geometry that does not depend on the content size: the origins and
    /// thicknesses that the sizes fix, and which parts carry an input area.
    pub open spec fn wf(&self) -> bool {
        let b = self.spec_sizes().border as int;
        let h = self.spec_sizes().header as int;
        let k = self.spec_sizes().resize_handle as int;
        &&& self.spec_sizes().valid()
        &&& self@.len() == 5
        &&& self.top().rect.x == -b
        &&& self.top().rect.y == -(h + b)
        &&& self.top().rect.height == b
        &&& self.top().input_rect matches Some(i) && i.x == b - k && i.y == b - k && i.height == k
        &&& self.left().rect.x == -b
        &&& self.left().rect.y == -h
        &&& self.left().rect.width == b
        &&& self.left().input_rect matches Some(i) && i.x == b - k && i.y == 0 && i.width == k
        &&& self.right().rect.y == -h
        &&& self.right().rect.width == b
        &&& self.right().input_rect matches Some(i) && i.x == 0 && i.y == 0 && i.width == k
        &&& self.bottom().rect.x == -b
        &&& self.bottom().rect.height == b
        &&& self.bottom().input_rect matches Some(i) && i.x == b - k && i.y == 0 && i.height == k
        &&& self.head().rect.x == 0
        &&& self.head().rect.y == -h
        &&& self.head().rect.height == h
        &&& self.head().input_rect is None
        &&& 2 * b + self.left().rect.height <= u32::MAX
    }

    /// The geometry that depends on the content size, before the first resize:
    /// every such width, height and offset is zero.
    pub open spec fn is_pending(&self) -> bool {
        &&& self.top().rect.width == 0
        &&& self.top().effective_input().width == 0
        &&& self.left().rect.height == 0
        &&& self.left().effective_input().height == 0
        &&& self.right().rect.x == 0
        &&& self.right().rect.height == 0
        &&& self.right().effective_input().height == 0
        &&& self.bottom().rect.y == 0
        &&& self.bottom().rect.width == 0
        &&& self.bottom().effective_input().width == 0
        &&& self.head().rect.width == 0
    }

    /// The geometry that depends on the content size, for content of
    /// `width` by `height`.
    pub open spec fn sized_for(&self, width: int, height: int) -> bool {
        let b = self.spec_sizes().border as int;
        let h = self.spec_sizes().header as int;
        let k = self.spec_sizes().resize_handle as int;
        &&& self.head().rect.width == width
        &&& self.bottom().rect.width == width + 2 * b
        &&& self.bottom().rect.y == height
        &&& self.bottom().effective_input().width == width + 2 * k
        &&& self.top().rect.width == width + 2 * b
        &&& self.top().effective_input().width == width + 2 * k
        &&& self.left().rect.height == height + h
        &&& self.left().effective_input().height == height + h
        &&& self.right().rect.height == height + h
        &&& self.right().rect.x == width
        &&& self.right().effective_input().height == height + h
    }

    /// Whether content of `width` by `height` can be decorated with numbers
    /// that fit in the rectangles' fields.
    pub open spec fn fits(&self, width: int, height: int) -> bool {
        let b = self.spec_sizes().border as int;
        let h = self.spec_sizes().header as int;
        let k = self.spec_sizes().resize_handle as int;
        &&& 0 <= width <= i32::MAX
        &&& 0 <= height <= i32::MAX
        &&& width + 2 * b <= u32::MAX
        &&& width + 2 * k <= u32::MAX
        &&& height + h + 2 * b <= u32::MAX
    }

    /// The rectangle that surface coordinates are relative to: the whole
    /// decorated envelope with borders, else the header's rectangle.
    pub open spec fn spec_surface_rect(&self, draw_borders: bool) -> Rect {
        if draw_borders {
            Rect {
                height: (self.top().rect.height + self.left().rect.height
                    + self.bottom().rect.height) as u32,
                ..self.top().rect
            }
        } else {
            self.head().rect
        }
    }

    /// The first part in role order whose input area contains the point
    /// `(x, y)` moved by `(dx, dy)`, searching from `from` on.
    pub open spec fn first_hit(&self, from: int, x: Coord, y: Coord, dx: int, dy: int) -> Location
        decreases 5 - from,
    {
        if from < 0 || from >= 5 {
            Location::Outside
        } else if hits(self@[from], x, y, dx, dy) {
            location_of(from)
        } else {
            self.first_hit(from + 1, x, y, dx, dy)
        }
    }

    /// Where the point `(x, y)`, given in coordinates of the decoration's
    /// surface, falls.
    pub open spec fn locate(&self, draw_borders: bool, x: Coord, y: Coord) -> Location {
        let origin = self.spec_surface_rect(draw_borders);
        self.first_hit(0, x, y, origin.x as int, origin.y as int)
    }

    /// Lays out the five parts for the given sizes. What depends on the
    /// content size stays zero until the first `resize`.
    pub fn new(sizes: DecorationSizes) -> (r: Self)
        requires
            sizes.valid(),
        ensures
            r.wf(),
            r.spec_sizes() == sizes,
            r.is_pending(),
    {
        let border = sizes.border as i32;
        let header = sizes.header as i32;
        let handle = sizes.resize_handle as i32;
        // The order must be in sync with the associated constants.
        let parts = [
            // Top.
            Part {
                rect: Rect {
                    x: -border,
                    y: -(header + border),
                    width: 0,  // Defined by `Self::resize`.
                    height: sizes.border,
                },
                input_rect: Some(
                    Rect {
                        x: border - handle,
                        y: border - handle,
                        width: 0,  // Defined by `Self::resize`.
                        height: sizes.resize_handle,
                    },
                ),
            },
            // Left.
            Part {
                rect: Rect {
                    x: -border,
                    y: -header,
                    width: sizes.border,
                    height: 0,  // Defined by `Self::resize`.
                },
                input_rect: Some(
                    Rect {
                        x: border - handle,
                        y: 0,
                        width: sizes.resize_handle,
                        height: 0,  // Defined by `Self::resize`.
                    },
                ),
            },
            // Right.
            Part {
                rect: Rect {
                    x: 0,  // Defined by `Self::resize`.
                    y: -header,
                    width: sizes.border,
                    height: 0,  // Defined by `Self::resize`.
                },
                input_rect: Some(
                    Rect {
                        x: 0,
                        y: 0,
                        width: sizes.resize_handle,
                        height: 0,  // Defined by `Self::resize`.
                    },
                ),
            },
            // Bottom.
            Part {
                rect: Rect {
                    x: -border,
                    y: 0,  // Defined by `Self::resize`.
                    width: 0,  // Defined by `Self::resize`.
                    height: sizes.border,
                },
                input_rect: Some(
                    Rect {
                        x: border - handle,
                        y: 0,
                        width: 0,  // Defined by `Self::resize`.
                        height: sizes.resize_handle,
                    },
                ),
            },
            // Header.
            Part {
                rect: Rect {
                    x: 0,
                    y: -header,
                    width: 0,  // Defined by `Self::resize`.
                    height: sizes.header,
                },
                input_rect: None,
            },
        ];
        Self { sizes, parts }
    }

    /// Re-derives every size-dependent field for content of `width` by
    /// `height`.
    pub fn resize(&mut self, width: u32, height: u32)
        requires
            old(self).wf(),
            old(self).fits(width as int, height as int),
        ensures
            final(self).wf(),
            final(self).spec_sizes() == old(self).spec_sizes(),
            final(self).sized_for(width as int, height as int),
            final(self).head().rect.width == width,
            final(self).top().rect.width == final(self).bottom().rect.width,
            final(self).bottom().rect.width == width + 2 * final(self).spec_sizes().border,
            final(self).left().rect.height == final(self).right().rect.height,
            final(self).left().rect.height == height + final(self).spec_sizes().header,
    {
        let border = self.sizes.border;
        let handle = self.sizes.resize_handle;

        let mut header = self.parts[Self::HEADER];
        header.rect.width = width;
        self.parts[Self::HEADER] = header;

        let mut bottom = self.parts[Self::BOTTOM];
        bottom.rect.width = width + 2 * border;
        bottom.rect.y = height as i32;
        bottom.input_rect = Some(
            Rect { width: bottom.rect.width - (border * 2) + (handle * 2), ..bottom.input_rect.unwrap() },
        );
        self.parts[Self::BOTTOM] = bottom;

        let mut top = self.parts[Self::TOP];
        top.rect.width = bottom.rect.width;
        top.input_rect = Some(
            Rect { width: top.rect.width - (border * 2) + (handle * 2), ..top.input_rect.unwrap() },
        );
        self.parts[Self::TOP] = top;

        let mut left = self.parts[Self::LEFT];
        left.rect.height = height + self.sizes.header;
        left.input_rect = Some(Rect { height: left.rect.height, ..left.input_rect.unwrap() });
        self.parts[Self::LEFT] = left;

        let mut right = self.parts[Self::RIGHT];
        right.rect.height = left.rect.height;
        right.rect.x = width as i32;
        right.input_rect = Some(Rect { height: right.rect.height, ..right.input_rect.unwrap() });
        self.parts[Self::RIGHT] = right;
    }

    /// The sizes the parts were made with.
    pub fn sizes(&self) -> (r: DecorationSizes)
        ensures
            r == self.spec_sizes(),
    {
        self.sizes
    }

    /// The five parts in role order: top, left, right, bottom, header.
    pub fn parts(&self) -> (r: &[Part; 5])
        ensures
            r@ == self@,
    {
        &self.parts
    }

    /// The rectangle that coordinates on the decoration's surface are relative
    /// to: with borders, the top strip's origin and width and the height of
    /// the top strip, a side strip and the bottom strip together; without, the
    /// header's rectangle.
    pub fn surface_rect(&self, draw_borders: bool) -> (r: Rect)
        requires
            self.wf(),
        ensures
            r == self.spec_surface_rect(draw_borders),
            draw_borders ==> r.height == self.top().rect.height + self.left().rect.height
                + self.bottom().rect.height,
            !draw_borders ==> r == self.head().rect,
    {
        if draw_borders {
            let top = self.parts[Self::TOP].rect;
            Rect {
                height: top.height + self.parts[Self::LEFT].rect.height
                    + self.parts[Self::BOTTOM].rect.height,
                ..top
            }
        } else {
            self.parts[Self::HEADER].rect
        }
    }

    pub fn header(&self) -> (r: &Part)
        requires
            self.wf(),
        ensures
            *r == self.head(),
    {
        &self.parts[Self::HEADER]
    }

    /// The height of the side strips.
    pub fn side_height(&self) -> (r: u32)
        requires
            self.wf(),
        ensures
            r == self.left().rect.height,
    {
        self.parts[Self::LEFT].rect.height
    }

    /// Where the point `(x, y)` on the decoration's surface falls: the first
    /// part in role order whose input area holds it, or `Outside`.
    ///
    /// `on_own_surface` tells whether the pointer is on the decoration's own
    /// surface; on any other the point is `Outside`.
    pub fn find_part(&self, on_own_surface: bool, draw_borders: bool, x: Coord, y: Coord) -> (r:
        Location)
        requires
            self.wf(),
        ensures
            r == (if on_own_surface {
                self.locate(draw_borders, x, y)
            } else {
                Location::Outside
            }),
    {
        if !on_own_surface {
            return Location::Outside;
        }
        let surface_rect = self.surface_rect(draw_borders);
        // Offset `x` and `y` to be relative to the main surface.
        let x_floor = x.floor as i128 + surface_rect.x as i128;
        let x_ceil = x.ceil as i128 + surface_rect.x as i128;
        let y_floor = y.floor as i128 + surface_rect.y as i128;
        let y_ceil = y.ceil as i128 + surface_rect.y as i128;
        let mut i: usize = 0;
        while i < 5
            invariant
                self.wf(),
                on_own_surface,
                0 <= i <= 5,
                surface_rect == self.spec_surface_rect(draw_borders),
                x_floor == x.floor + surface_rect.x,
                x_ceil == x.ceil + surface_rect.x,
                y_floor == y.floor + surface_rect.y,
                y_ceil == y.ceil + surface_rect.y,
                self.locate(draw_borders, x, y) == self.first_hit(
                    i as int,
                    x,
                    y,
                    surface_rect.x as int,
                    surface_rect.y as int,
                ),
            decreases 5 - i,
        {
            let part = &self.parts[i];
            let input_rect = part.input_rect();
            let rect_x = part.rect.x as i128 + input_rect.x as i128;
            let rect_y = part.rect.y as i128 + input_rect.y as i128;
            if x_floor >= rect_x && x_ceil <= rect_x + input_rect.width as i128 && y_floor >= rect_y
                && y_ceil <= rect_y + input_rect.height as i128 {
                return Self::location_at(i);
            }
            i = i + 1;
        }
        Location::Outside
    }

    /// The location that the part at `index` stands for.
    fn location_at(index: usize) -> (r: Location)
        requires
            index < 5,
        ensures
            r == location_of(index as int),
    {
        if index == Self::TOP {
            Location::Top
        } else if index == Self::LEFT {
            Location::Left
        } else if index == Self::RIGHT {
            Location::Right
        } else if index == Self::BOTTOM {
            Location::Bottom
        } else {
            Location::Head
        }
    }
}

} // verus!
