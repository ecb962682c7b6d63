use vstd::prelude::*;
use crate::errors::VisError;
use crate::font::{resolve_font, spec_fallback_font, spec_font_preferences};
use crate::layout::{is_tile_of, plan_layout, tile_rects, GridLayout, TileRect};
use crate::sample::select_sample;
use crate::shape::{validate_shapes, Shape3};
use crate::titles::{fallback_title, resolve_title};
use crate::variant::Variant;

verus! {

/// Everything the per-tile rendering needs, fixed once the arrays are
/// loaded and validated: the array shape, the chosen sample, the tile
/// grid with one tile and one title per channel, and the resolved font
/// family — shared read-only by every tile.
pub struct RenderPlan {
    pub shape: Shape3,
    pub sample: usize,
    pub layout: GridLayout,
    pub tiles: Vec<TileRect>,
    pub titles: Vec<String>,
    pub font: String,
}

impl RenderPlan {
    /// Internal consistency of a plan against the canvas it was made
    /// for: the sample is in the batch, the layout fits the channel
    /// count, and there is exactly one tile and one title per channel,
    /// the tiles at their even-split row-major places.
    pub open spec fn consistent(self, w: int, h: int) -> bool {
        &&& self.shape.renderable()
        &&& self.sample < self.shape.n
        &&& self.layout.fits(self.shape.c as int)
        &&& self.tiles@.len() == self.shape.c
        &&& (forall|i: int|
            0 <= i < self.shape.c ==> is_tile_of(
                #[trigger] self.tiles@[i],
                self.layout,
                w,
                h,
                i,
            ))
        &&& self.titles@.len() == self.shape.c
    }
}

/// Whether the loaded inputs are ones the planner must accept: identical
/// shapes, a non-empty batch, at least one channel, and a name list (when
/// present) that reaches every channel.
pub open spec fn plannable(
    true_shape: Shape3,
    pred_shape: Shape3,
    names: Option<Vec<String>>,
) -> bool {
    &&& true_shape == pred_shape
    &&& true_shape.renderable()
    &&& (names matches Some(ns) ==> true_shape.c <= ns@.len())
}

/// The titles a plan owes: entry `i` of the name list when one is
/// present, else the numbered fallback.
pub open spec fn titles_resolved(plan: RenderPlan, names: Option<Vec<String>>) -> bool {
    match names {
        Some(ns) => forall|i: int| 0 <= i < plan.shape.c ==> plan.titles@[i]@ == ns@[i]@,
        None => forall|i: int| 0 <= i < plan.shape.c ==> plan.titles@[i]@ == fallback_title(i),
    }
}

/// The decision stages of the pipeline between loading and rendering:
/// validate the two shapes, select the sample, plan the grid, resolve
/// every title, resolve the font. The result fixes everything the tile
/// loop will draw; inputs outside the accepted domain are rejected, and
/// nothing else is.
pub fn plan_render(
    true_shape: Shape3,
    pred_shape: Shape3,
    names: &Option<Vec<String>>,
    canvas_w: u32,
    canvas_h: u32,
) -> (r: Result<RenderPlan, VisError>)
    ensures
        r is Ok <==> plannable(true_shape, pred_shape, *names),
        r is Err ==> r == Err::<RenderPlan, VisError>(VisError::InvalidInputError),
        r matches Ok(plan) ==> {
            &&& plan.shape == true_shape
            &&& plan.consistent(canvas_w as int, canvas_h as int)
            &&& titles_resolved(plan, *names)
            &&& ((exists|i: int|
                0 <= i < spec_font_preferences().len() && plan.font@ == spec_font_preferences()[i])
                || plan.font@ == spec_fallback_font())
        },
{
    match validate_shapes(true_shape, pred_shape) {
        Ok(()) => {},
        Err(e) => {
            return Err(e);
        },
    }
    let sample = match select_sample(true_shape.n) {
        Ok(s) => s,
        Err(e) => {
            return Err(e);
        },
    };
    let layout = match plan_layout(true_shape.c) {
        Ok(g) => g,
        Err(e) => {
            return Err(e);
        },
    };
    let tiles = tile_rects(layout, true_shape.c, canvas_w, canvas_h);
    let mut titles: Vec<String> = Vec::new();
    let mut i: usize = 0;
    while i < true_shape.c
        invariant
            i <= true_shape.c,
            titles@.len() == i,
            match *names {
                Some(ns) => i <= ns@.len() && forall|j: int|
                    0 <= j < i ==> titles@[j]@ == ns@[j]@,
                None => forall|j: int| 0 <= j < i ==> titles@[j]@ == fallback_title(j),
            },
        decreases true_shape.c - i,
    {
        let t = match resolve_title(names, i) {
            Ok(t) => t,
            Err(e) => {
                return Err(e);
            },
        };
        titles.push(t);
        i = i + 1;
    }
    let font = resolve_font();
    Ok(RenderPlan { shape: true_shape, sample, layout, tiles, titles, font })
}

/// Where one visualization call stands: the pipeline is linear, with no
/// branching back-edges, and its first failure is terminal.
#[derive(Clone, Copy, Debug, PartialEq, Eq, Structural)]
pub enum DriverPhase {
    /// Waiting for the arrays and the optional name list to be read.
    Loading,
    /// Issuing one render request per channel, in order.
    Rendering,
    /// Every tile is drawn; waiting for the canvas to be written out.
    Flushing,
    /// The image file is written; its name can be reported.
    Done,
    /// A stage failed; the error is terminal and no file is written.
    Failed,
}

/// The composition driver of one visualization call. It owns every
/// decision — validation, sampling, layout, titles, font — and hands the
/// outside work (file reads, per-tile drawing, the final image write) to
/// its caller one request at a time, so a caller that follows the
/// protocol renders channels `0..c` in order, stops at the first fault,
/// and flushes only after every tile is drawn.
pub struct Driver {
    pub variant: Variant,
    pub canvas_w: u32,
    pub canvas_h: u32,
    pub phase: DriverPhase,
    pub plan: Option<RenderPlan>,
    pub next_tile: usize,
    pub error: Option<VisError>,
}

impl Driver {
    /// The driver's invariant: each phase holds what it needs.
    pub open spec fn wf(self) -> bool {
        &&& (self.phase is Rendering || self.phase is Flushing) ==> {
            &&& self.plan is Some
            &&& self.plan->Some_0.consistent(self.canvas_w as int, self.canvas_h as int)
            &&& self.plan->Some_0.shape.t >= 1
        }
        &&& self.phase is Rendering ==> self.next_tile < self.plan->Some_0.shape.c
        &&& self.phase is Flushing ==> self.next_tile == self.plan->Some_0.shape.c
        &&& self.phase is Failed ==> self.error is Some
    }

    /// Start a call for one variant: nothing is decided yet and the first
    /// duty of the caller is to read the two arrays and the optional name
    /// list.
    pub fn new(variant: Variant) -> (d: Driver)
        ensures
            d.wf(),
            d.variant == variant,
            d.phase == DriverPhase::Loading,
            variant is Test ==> d.canvas_w == 3840 && d.canvas_h == 2160,
            variant is Train ==> d.canvas_w == 1920 && d.canvas_h == 1080,
    {
        let (canvas_w, canvas_h) = variant.canvas_size();
        Driver {
            variant,
            canvas_w,
            canvas_h,
            phase: DriverPhase::Loading,
            plan: None,
            next_tile: 0,
            error: None,
        }
    }

    /// Reading an array failed: the pipeline ends with the loader's
    /// error, unchanged.
    pub fn on_load_failed(&mut self, e: VisError)
        requires
            old(self).phase == DriverPhase::Loading,
        ensures
            final(self).phase == DriverPhase::Failed,
            final(self).error == Some(e),
            final(self).wf(),
    {
        self.phase = DriverPhase::Failed;
        self.error = Some(e);
    }

    /// Both arrays (and the optional name list) are read: validate,
    /// sample, plan. On inputs in the accepted domain — identical
    /// renderable shapes, a long enough name list, at least one time
    /// step — the driver moves to rendering with a full plan; on any
    /// other input it fails with the input error and never renders.
    pub fn on_loaded(
        &mut self,
        true_shape: Shape3,
        pred_shape: Shape3,
        names: Option<Vec<String>>,
    )
        requires
            old(self).phase == DriverPhase::Loading,
        ensures
            final(self).wf(),
            final(self).variant == old(self).variant,
            final(self).canvas_w == old(self).canvas_w,
            final(self).canvas_h == old(self).canvas_h,
            plannable(true_shape, pred_shape, names) && true_shape.t >= 1 ==> {
                &&& final(self).phase == DriverPhase::Rendering
                &&& final(self).next_tile == 0
                &&& final(self).plan is Some
                &&& final(self).plan->Some_0.shape == true_shape
                &&& titles_resolved(final(self).plan->Some_0, names)
                &&& ((exists|i: int|
                    0 <= i < spec_font_preferences().len() && final(self).plan->Some_0.font@
                        == spec_font_preferences()[i]) || final(self).plan->Some_0.font@
                    == spec_fallback_font())
            },
            !(plannable(true_shape, pred_shape, names) && true_shape.t >= 1) ==> {
                &&& final(self).phase == DriverPhase::Failed
                &&& final(self).error == Some(VisError::InvalidInputError)
            },
    {
        if true_shape.t == 0 {
            // Nothing bounds the chart axes: the renderer's input error,
            // raised before any tile is touched.
            self.phase = DriverPhase::Failed;
            self.error = Some(VisError::InvalidInputError);
            return;
        }
        match plan_render(true_shape, pred_shape, &names, self.canvas_w, self.canvas_h) {
            Ok(plan) => {
                self.plan = Some(plan);
                self.next_tile = 0;
                self.phase = DriverPhase::Rendering;
            },
            Err(e) => {
                self.phase = DriverPhase::Failed;
                self.error = Some(e);
            },
        }
    }

    /// The next tile the caller must draw, while any is owed: the channel
    /// index, its tile, its title, and the sample to slice both arrays
    /// with. Requests come in channel order, one per channel.
    pub fn next_render(&self) -> (r: Option<(usize, TileRect, String, usize)>)
        requires
            self.wf(),
        ensures
            r is Some <==> self.phase is Rendering,
            r matches Some((i, t, title, s)) ==> {
                &&& i == self.next_tile
                &&& i < self.plan->Some_0.shape.c
                &&& t == self.plan->Some_0.tiles@[i as int]
                &&& title@ == self.plan->Some_0.titles@[i as int]@
                &&& s == self.plan->Some_0.sample
            },
    {
        match self.phase {
            DriverPhase::Rendering => {
                let plan = self.plan.as_ref().unwrap();
                let i = self.next_tile;
                Some((i, plan.tiles[i], plan.titles[i].clone(), plan.sample))
            },
            _ => None,
        }
    }

    /// One tile is drawn: move to the next channel, or to flushing when
    /// the last channel's tile is done.
    pub fn on_tile_done(&mut self)
        requires
            old(self).wf(),
            old(self).phase is Rendering,
        ensures
            final(self).wf(),
            final(self).plan == old(self).plan,
            final(self).variant == old(self).variant,
            final(self).canvas_w == old(self).canvas_w,
            final(self).canvas_h == old(self).canvas_h,
            final(self).next_tile == old(self).next_tile + 1,
            final(self).next_tile < final(self).plan->Some_0.shape.c ==> final(self).phase
                is Rendering,
            final(self).next_tile == final(self).plan->Some_0.shape.c ==> final(self).phase
                is Flushing,
    {
        self.next_tile = self.next_tile + 1;
        let c = self.plan.as_ref().unwrap().shape.c;
        if self.next_tile == c {
            self.phase = DriverPhase::Flushing;
        }
    }

    /// The backend faulted while a tile was drawn: the whole composite
    /// image is abandoned, nothing is flushed.
    pub fn on_tile_failed(&mut self)
        requires
            old(self).wf(),
            old(self).phase is Rendering,
        ensures
            final(self).wf(),
            final(self).phase == DriverPhase::Failed,
            final(self).error == Some(VisError::RenderError),
    {
        self.phase = DriverPhase::Failed;
        self.error = Some(VisError::RenderError);
    }

    /// The canvas is written to its output file: the call is complete.
    pub fn on_flush_done(&mut self)
        requires
            old(self).wf(),
            old(self).phase is Flushing,
        ensures
            final(self).wf(),
            final(self).phase == DriverPhase::Done,
    {
        self.phase = DriverPhase::Done;
    }

    /// Writing the image file failed: the call ends with an I/O error.
    pub fn on_flush_failed(&mut self)
        requires
            old(self).wf(),
            old(self).phase is Flushing,
        ensures
            final(self).wf(),
            final(self).phase == DriverPhase::Failed,
            final(self).error == Some(VisError::IOError),
    {
        self.phase = DriverPhase::Failed;
        self.error = Some(VisError::IOError);
    }

    /// The font family resolved for this call, shared read-only by every
    /// tile's text, available from the moment rendering begins.
    pub fn chosen_font(&self) -> (r: Option<String>)
        requires
            self.wf(),
        ensures
            r is Some <==> (self.phase is Rendering || self.phase is Flushing),
            r matches Some(f) ==> f@ == self.plan->Some_0.font@,
    {
        match self.phase {
            DriverPhase::Rendering | DriverPhase::Flushing => {
                Some(self.plan.as_ref().unwrap().font.clone())
            },
            _ => None,
        }
    }

    /// Whether every tile is drawn and the canvas is waiting to be
    /// written out.
    pub fn ready_to_flush(&self) -> (r: bool)
        ensures
            r == (self.phase is Flushing),
    {
        match self.phase {
            DriverPhase::Flushing => true,
            _ => false,
        }
    }

    /// The terminal error of a failed call, if the call has failed.
    pub fn failure(&self) -> (r: Option<VisError>)
        requires
            self.wf(),
        ensures
            r is Some <==> self.phase is Failed,
            self.phase is Failed ==> r == self.error,
    {
        match self.phase {
            DriverPhase::Failed => Some(*self.error.as_ref().unwrap()),
            _ => None,
        }
    }
}

} // verus!
