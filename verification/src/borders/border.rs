//! The border of one window: which requests reach its overlay, and when its
//! bitmap is reused, recoloured or rendered again.
use crate::borders::raster::is_capacity_for;
use crate::borders::style::{BorderStyle, CornerPreference};
use crate::borders::surface::{recolored_surface_shows_the_ring, size_fits, CachedSurface};
use crate::common::Rect;
use vstd::prelude::*;

verus! {

/// The border overlay of one window.
///
/// `overlay` is the handle of the overlay window, zero once it is destroyed;
/// `target` is the handle of the window that the border belongs to.
#[derive(Debug)]
pub struct Border {
    /// Overlay handle, or zero.
    pub overlay: isize,
    /// Handle of the bordered window.
    pub target: isize,
    /// Style to show.
    pub style: BorderStyle,
    /// Corner preference that the border was created with.
    pub corner_preference: CornerPreference,
    /// Last rendered bitmap.
    pub surface: Option<CachedSurface>,
}

/// What a paint request asks of the cached bitmap.
#[derive(Debug, Clone, Copy, PartialEq, Eq, Structural)]
pub enum PaintPlan {
    /// Nothing to do.
    Skip,
    /// Swap the colour in place.
    Recolor,
    /// Render into the existing buffer.
    Recomposite,
    /// Render into a new buffer.
    Rebuild,
}

/// A request to move, resize and re-seat the overlay just above a window.
#[derive(Debug, Clone, Copy, PartialEq, Eq, Structural)]
pub struct Placement {
    /// Overlay to place.
    pub hwnd: isize,
    /// Window that it sits just above.
    pub above: isize,
    /// Rect that it covers.
    pub rect: Rect,
}

/// Edges of a window on screen.
#[derive(Debug, Clone, Copy, PartialEq, Eq, Structural)]
pub struct Edges {
    /// Left edge.
    pub left: i32,
    /// Top edge.
    pub top: i32,
    /// Right edge.
    pub right: i32,
    /// Bottom edge.
    pub bottom: i32,
}

impl Edges {
    /// Whether width and height are representable.
    pub open spec fn fits(self) -> bool {
        &&& i32::MIN <= self.right - self.left <= i32::MAX
        &&& i32::MIN <= self.bottom - self.top <= i32::MAX
    }

    /// Whether `rect` has these edges.
    pub open spec fn bound(self, rect: Rect) -> bool {
        &&& rect.x == self.left
        &&& rect.y == self.top
        &&& rect.x + rect.width == self.right
        &&& rect.y + rect.height == self.bottom
    }

    /// The rect with these edges.
    pub fn to_rect(self) -> (res: Rect)
        requires
            self.fits(),
        ensures
            self.bound(res),
    {
        Rect {
            x: self.left,
            y: self.top,
            width: self.right - self.left,
            height: self.bottom - self.top,
        }
    }
}

impl Border {
    /// Whether the cached bitmap, where there is one, shows the ring that it was
    /// last asked for.
    pub open spec fn well_formed<F: Fn(usize, usize, usize, usize, bool) -> u8>(
        &self,
        f: F,
    ) -> bool {
        self.surface is Some ==> self.surface->Some_0.shows_ring(f)
    }

    /// What painting `rect` asks of the cached bitmap: nothing for an empty rect, a
    /// destroyed overlay or an image that is already right; otherwise the cheapest
    /// step that makes it right.
    pub open spec fn plan_for(&self, rect: Rect) -> PaintPlan {
        if rect.spec_is_empty() || self.overlay == 0 {
            PaintPlan::Skip
        } else {
            match self.surface {
                Some(s) => if s.has_shape(rect.width as int, rect.height as int, self.style) {
                    if s.color == self.style.color {
                        PaintPlan::Skip
                    } else {
                        PaintPlan::Recolor
                    }
                } else if rect.width <= s.buf_w && rect.height <= s.buf_h {
                    PaintPlan::Recomposite
                } else {
                    PaintPlan::Rebuild
                },
                None => PaintPlan::Rebuild,
            }
        }
    }

    /// A border with the overlay window `overlay`, with nothing painted yet.
    pub fn create(style: BorderStyle, target_hwnd: isize, overlay: isize) -> (res: Self)
        ensures
            res == (Border {
                overlay,
                target: target_hwnd,
                style,
                corner_preference: style.corner_preference,
                surface: None,
            }),
    {
        Border {
            overlay,
            target: target_hwnd,
            style,
            corner_preference: style.corner_preference,
            surface: None,
        }
    }

    /// Handle of the overlay window, zero once it is destroyed.
    #[must_use]
    pub fn hwnd(&self) -> (res: isize)
        ensures
            res == self.overlay,
    {
        self.overlay
    }

    /// Corner preference that the border was created with.
    #[must_use]
    pub fn corner_preference(&self) -> (res: CornerPreference)
        ensures
            res == self.corner_preference,
    {
        self.corner_preference
    }

    /// Overlay and target for a request to seat the first just above the second;
    /// nothing once the overlay is destroyed.
    #[must_use]
    pub fn seat_above_target(&self) -> (res: Option<(isize, isize)>)
        ensures
            res == if self.overlay == 0 {
                None
            } else {
                Some((self.overlay, self.target))
            },
    {
        if self.overlay == 0 {
            return None;
        }
        Some((self.overlay, self.target))
    }

    /// Marks the overlay as destroyed and gives the handle to destroy, the first
    /// time only.
    pub fn destroy(&mut self) -> (res: Option<isize>)
        ensures
            res == if old(self).overlay == 0 {
                None
            } else {
                Some(old(self).overlay)
            },
            *final(self) == (Border { overlay: 0, ..*old(self) }),
    {
        let raw: isize = self.overlay;
        if raw == 0 {
            return None;
        }
        self.overlay = 0;
        Some(raw)
    }

    /// Current screen rect of the overlay from its edges as the system reports them;
    /// nothing once the overlay is destroyed or when its edges cannot be had.
    #[must_use]
    pub fn overlay_rect(&self, edges: Option<Edges>) -> (res: Option<Rect>)
        requires
            edges is Some ==> edges->Some_0.fits(),
        ensures
            res is Some <==> self.overlay != 0 && edges is Some,
            res is Some ==> edges->Some_0.bound(res->Some_0),
    {
        if self.overlay == 0 {
            return None;
        }
        match edges {
            Some(e) => Some(e.to_rect()),
            None => None,
        }
    }

    /// Decides what painting `rect` asks of the cached bitmap.
    pub fn paint_plan(&self, rect: Rect) -> (res: PaintPlan)
        ensures
            res == self.plan_for(rect),
    {
        if rect.is_empty() {
            return PaintPlan::Skip;
        }
        if self.overlay == 0 {
            return PaintPlan::Skip;
        }
        match &self.surface {
            Some(s) => {
                if s.shape_matches(rect.width, rect.height, &self.style) {
                    if s.color == self.style.color {
                        PaintPlan::Skip
                    } else {
                        PaintPlan::Recolor
                    }
                } else if s.buffer_fits(rect.width, rect.height) {
                    PaintPlan::Recomposite
                } else {
                    PaintPlan::Rebuild
                }
            },
            None => PaintPlan::Rebuild,
        }
    }

    /// Renders the ring for `rect` and says whether the bitmap is to be uploaded.
    ///
    /// `bitmap_ready` tells whether a new bitmap could be had, which matters only
    /// where the plan is to rebuild: without one the last good bitmap stays.
    pub fn paint<F: Fn(usize, usize, usize, usize, bool) -> u8>(
        &mut self,
        rect: Rect,
        bitmap_ready: bool,
        f: &F,
    ) -> (upload: bool)
        requires
            old(self).well_formed(*f),
            old(self).plan_for(rect) == PaintPlan::Rebuild && bitmap_ready ==> size_fits(
                rect.width as int,
                rect.height as int,
            ),
            forall|args: (usize, usize, usize, usize, bool)| f.requires(args),
        ensures
            final(self).well_formed(*f),
            *final(self) == (Border { surface: final(self).surface, ..*old(self) }),
            upload == match old(self).plan_for(rect) {
                PaintPlan::Skip => false,
                PaintPlan::Recolor => true,
                PaintPlan::Recomposite => true,
                PaintPlan::Rebuild => bitmap_ready,
            },
            !upload ==> final(self).surface == old(self).surface,
            rect.width > 0 && rect.height > 0 && old(self).overlay != 0 && (bitmap_ready || (old(
                self,
            ).surface is Some && rect.width <= old(self).surface->Some_0.buf_w && rect.height
                <= old(self).surface->Some_0.buf_h)) ==> {
                &&& final(self).surface is Some
                &&& final(self).surface->Some_0.shows_ring(*f)
                &&& final(self).surface->Some_0.w == rect.width
                &&& final(self).surface->Some_0.h == rect.height
                &&& final(self).surface->Some_0.thickness == old(self).style.width_px
                &&& final(self).surface->Some_0.corner == old(self).style.corner_preference
                &&& final(self).surface->Some_0.color == old(self).style.color
            },
            upload ==> {
                &&& final(self).surface is Some
                &&& final(self).surface->Some_0.shows_ring(*f)
                &&& final(self).surface->Some_0.has_shape(
                    rect.width as int,
                    rect.height as int,
                    old(self).style,
                )
                &&& final(self).surface->Some_0.color == old(self).style.color
                &&& if old(self).plan_for(rect) == PaintPlan::Rebuild {
                    &&& is_capacity_for(
                        final(self).surface->Some_0.buf_w as int,
                        rect.width as int,
                    )
                    &&& is_capacity_for(
                        final(self).surface->Some_0.buf_h as int,
                        rect.height as int,
                    )
                } else {
                    &&& final(self).surface->Some_0.buf_w == old(self).surface->Some_0.buf_w
                    &&& final(self).surface->Some_0.buf_h == old(self).surface->Some_0.buf_h
                }
            },
    {
        let plan: PaintPlan = self.paint_plan(rect);
        match plan {
            PaintPlan::Skip => false,
            PaintPlan::Recolor => {
                let color = self.style.color;
                if let Some(surface) = &mut self.surface {
                    let ghost before = *surface;
                    surface.recolor(color);
                    proof {
                        recolored_surface_shows_the_ring(*f, before, *surface);
                    }
                }
                true
            },
            PaintPlan::Recomposite => {
                let style = self.style;
                if let Some(surface) = &mut self.surface {
                    surface.render_ring(rect.width, rect.height, &style, f);
                }
                true
            },
            PaintPlan::Rebuild => {
                if !bitmap_ready {
                    return false;
                }
                self.surface = Some(CachedSurface::build(rect.width, rect.height, &self.style, f));
                true
            },
        }
    }

    /// Repaints at the overlay's current geometry after its size changed; nothing
    /// when the overlay is destroyed or its edges cannot be had.
    pub fn on_wm_size<F: Fn(usize, usize, usize, usize, bool) -> u8>(
        &mut self,
        edges: Option<Edges>,
        bitmap_ready: bool,
        f: &F,
    ) -> (upload: bool)
        requires
            edges is Some ==> edges->Some_0.fits(),
            old(self).well_formed(*f),
            edges is Some && bitmap_ready ==> forall|rect: Rect| #[trigger]
                edges->Some_0.bound(rect) && old(self).plan_for(rect) == PaintPlan::Rebuild
                    ==> size_fits(rect.width as int, rect.height as int),
            forall|args: (usize, usize, usize, usize, bool)| f.requires(args),
        ensures
            final(self).well_formed(*f),
            *final(self) == (Border { surface: final(self).surface, ..*old(self) }),
            !upload ==> final(self).surface == old(self).surface,
            edges is None || old(self).overlay == 0 ==> !upload,
            edges is Some && edges->Some_0.left < edges->Some_0.right && edges->Some_0.top
                < edges->Some_0.bottom && old(self).overlay != 0 && bitmap_ready ==> {
                &&& final(self).surface is Some
                &&& final(self).surface->Some_0.w == edges->Some_0.right - edges->Some_0.left
                &&& final(self).surface->Some_0.h == edges->Some_0.bottom - edges->Some_0.top
                &&& final(self).surface->Some_0.thickness == old(self).style.width_px
                &&& final(self).surface->Some_0.corner == old(self).style.corner_preference
                &&& final(self).surface->Some_0.color == old(self).style.color
            },
            forall|rect: Rect|
                edges is Some && #[trigger] edges->Some_0.bound(rect) ==> {
                    &&& upload == match old(self).plan_for(rect) {
                        PaintPlan::Skip => false,
                        PaintPlan::Recolor => true,
                        PaintPlan::Recomposite => true,
                        PaintPlan::Rebuild => bitmap_ready,
                    }
                    &&& upload ==> {
                        &&& final(self).surface is Some
                        &&& final(self).surface->Some_0.shows_ring(*f)
                        &&& final(self).surface->Some_0.has_shape(
                            rect.width as int,
                            rect.height as int,
                            old(self).style,
                        )
                        &&& final(self).surface->Some_0.color == old(self).style.color
                        &&& if old(self).plan_for(rect) == PaintPlan::Rebuild {
                            &&& is_capacity_for(
                                final(self).surface->Some_0.buf_w as int,
                                rect.width as int,
                            )
                            &&& is_capacity_for(
                                final(self).surface->Some_0.buf_h as int,
                                rect.height as int,
                            )
                        } else {
                            &&& final(self).surface->Some_0.buf_w
                                == old(self).surface->Some_0.buf_w
                            &&& final(self).surface->Some_0.buf_h
                                == old(self).surface->Some_0.buf_h
                        }
                    }
                },
    {
        match self.overlay_rect(edges) {
            Some(rect) => self.paint(rect, bitmap_ready, f),
            None => false,
        }
    }

    /// Where the overlay has to go to cover `visible_rect`; nothing for an empty rect
    /// or a destroyed overlay.
    #[must_use]
    pub fn set_geometry(&self, visible_rect: Rect) -> (res: Option<Placement>)
        ensures
            res == if visible_rect.spec_is_empty() || self.overlay == 0 {
                None
            } else {
                Some(
                    Placement { hwnd: self.overlay, above: self.target, rect: visible_rect },
                )
            },
    {
        if visible_rect.is_empty() {
            return None;
        }
        if self.overlay == 0 {
            return None;
        }
        Some(Placement { hwnd: self.overlay, above: self.target, rect: visible_rect })
    }

    /// Takes over a style and says whether the border has to be repainted: not when
    /// the style is the one that it already has.
    pub fn set_style(&mut self, style: BorderStyle) -> (repaint: bool)
        ensures
            repaint == (old(self).style != style),
            *final(self) == (Border { style, ..*old(self) }),
    {
        if self.style == style {
            return false;
        }
        self.style = style;
        true
    }

    /// The overlay to show or hide; nothing once it is destroyed.
    #[must_use]
    pub fn set_visible(&self, visible: bool) -> (res: Option<(isize, bool)>)
        ensures
            res == if self.overlay == 0 {
                None
            } else {
                Some((self.overlay, visible))
            },
    {
        if self.overlay == 0 {
            return None;
        }
        Some((self.overlay, visible))
    }
}

/// Once a paint was uploaded, painting the same rect again has nothing to do.
pub proof fn painting_twice_is_painting_once(painted: Border, rect: Rect)
    requires
        painted.surface is Some,
        painted.surface->Some_0.has_shape(rect.width as int, rect.height as int, painted.style),
        painted.surface->Some_0.color == painted.style.color,
    ensures
        painted.plan_for(rect) == PaintPlan::Skip,
{
}

/// A change of colour alone is painted by recolouring: the image is not rendered
/// again.
pub proof fn color_change_recolors(painted: Border, rect: Rect, color: crate::config::Color)
    requires
        painted.overlay != 0,
        !rect.spec_is_empty(),
        painted.surface is Some,
        painted.surface->Some_0.has_shape(rect.width as int, rect.height as int, painted.style),
        painted.surface->Some_0.color == painted.style.color,
        color != painted.style.color,
    ensures
        (Border { style: (BorderStyle { color, ..painted.style }), ..painted }).plan_for(rect)
            == PaintPlan::Recolor,
{
}

/// Nothing is painted exactly where nothing can be seen or the cached bitmap shows the right ring
/// already: its width, height, thickness, corner preference and colour are all those of the rect
/// and the style.
pub proof fn nothing_is_painted_only_where_the_bitmap_is_right(border: Border, rect: Rect)
    ensures
        border.plan_for(rect) == PaintPlan::Skip <==> {
            ||| rect.width <= 0
            ||| rect.height <= 0
            ||| border.overlay == 0
            ||| border.surface is Some && border.surface->Some_0.w == rect.width
                && border.surface->Some_0.h == rect.height && border.surface->Some_0.thickness
                == border.style.width_px && border.surface->Some_0.corner
                == border.style.corner_preference && border.surface->Some_0.color
                == border.style.color
        },
{
}

/// The cheapest step is taken that makes the bitmap right. Where only the colour differs it is
/// swapped. Where the bitmap has room for the rect it is rendered into, and otherwise a new one is
/// needed.
pub proof fn paint_takes_the_cheapest_step(border: Border, rect: Rect)
    requires
        rect.width > 0,
        rect.height > 0,
        border.overlay != 0,
    ensures
        border.surface is None ==> border.plan_for(rect) == PaintPlan::Rebuild,
        border.surface is Some ==> ({
            let s = border.surface->Some_0;
            let same_shape = s.w == rect.width && s.h == rect.height && s.thickness
                == border.style.width_px && s.corner == border.style.corner_preference;
            &&& same_shape && s.color != border.style.color ==> border.plan_for(rect)
                == PaintPlan::Recolor
            &&& !same_shape && rect.width <= s.buf_w && rect.height <= s.buf_h ==> border.plan_for(
                rect,
            ) == PaintPlan::Recomposite
            &&& !same_shape && (rect.width > s.buf_w || rect.height > s.buf_h) ==> border.plan_for(
                rect,
            ) == PaintPlan::Rebuild
        }),
{
}

/// Any change of the style, and any change of the size, is painted: with a bitmap to be had, the
/// plan is then never to do nothing.
pub proof fn every_change_is_painted(border: Border, rect: Rect, style: BorderStyle, new_rect: Rect)
    requires
        border.overlay != 0,
        new_rect.width > 0,
        new_rect.height > 0,
        border.plan_for(rect) == PaintPlan::Skip,
        rect.width > 0,
        rect.height > 0,
        style != border.style || new_rect.width != rect.width || new_rect.height != rect.height,
    ensures
        (Border { style, ..border }).plan_for(new_rect) != PaintPlan::Skip,
{
}

/// A size within the capacity of the buffer never asks for a new bitmap.
pub proof fn resize_within_capacity_reuses_the_buffer(border: Border, rect: Rect)
    requires
        border.surface is Some,
        rect.width <= border.surface->Some_0.buf_w,
        rect.height <= border.surface->Some_0.buf_h,
    ensures
        border.plan_for(rect) != PaintPlan::Rebuild,
{
}

/// A destroyed border asks for nothing any more.
pub proof fn destroyed_border_is_silent(border: Border, rect: Rect)
    requires
        border.overlay == 0,
    ensures
        border.plan_for(rect) == PaintPlan::Skip,
{
}

/// A rect with given edges starts at the left and top ones and ends at the right and bottom ones.
pub proof fn rects_reach_from_edge_to_edge(edges: Edges, rect: Rect)
    requires
        edges.bound(rect),
    ensures
        rect.x == edges.left,
        rect.y == edges.top,
        rect.width == edges.right - edges.left,
        rect.height == edges.bottom - edges.top,
{
}

} // verus!
