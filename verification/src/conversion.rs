//! One conversion request, from font bytes to the caller's vertex buffer.
//!
//! The font engine does the outside work: it parses the font, finds the
//! glyph and triangulates it. A `Conversion` decides what is asked of the
//! engine next and what each of its answers means. Whoever drives a request
//! starts it with `char_mesh_2d`, performs the `Action` it is given, reports
//! the engine's answer as an `Event` to `Conversion::step`, and goes on until
//! the action is `Deliver` or `Fail`.

use vstd::prelude::*;
use crate::buffer::{export, BufferVec2};
use crate::codepoint::{decode_scalar, is_scalar_value, utf16_unit};
use crate::error::MeshError;
use crate::mesh::{is_mesh, triangle_stream, Face, Mesh2D};
use crate::outline::{contours_closed, contours_of, Outline};
use crate::vector::Vector2;

verus! {

/// The longest font the engine can be handed: it takes the length of the
/// buffer as a signed 32-bit number.
pub const MAX_FONT_BYTES: usize = 0x7FFF_FFFF;

/// Why the engine produced no triangulation.
#[derive(Clone, Copy, Debug, PartialEq, Eq, Structural)]
pub enum EngineFailure {
    /// The outline cannot be triangulated: too few points are left of it, or
    /// its contours cross in a way the engine cannot resolve.
    Unresolvable,
    /// The engine itself broke down.
    Internal,
}

/// How far a request has come.
#[derive(Clone, Copy, Debug, PartialEq, Eq, Structural)]
pub enum Conversion {
    /// The engine has been asked to parse the font.
    AwaitingFont { codepoint: u32, quality: u8 },
    /// The engine has been asked for the glyph's outline.
    AwaitingGlyph { quality: u8 },
    /// The engine has been asked to triangulate the glyph.
    AwaitingMesh,
    /// The caller has its buffer.
    Delivered,
    /// The request has failed.
    Failed(MeshError),
}

/// An answer of the font engine.
#[derive(Debug)]
pub enum Event {
    /// The font was parsed.
    FontParsed,
    /// The bytes are not a font the engine can parse.
    FontRejected,
    /// The font has a glyph for the character; these are its contours.
    GlyphFound(Vec<Vec<Vector2>>),
    /// The font has no glyph for the character.
    GlyphMissing,
    /// The glyph was triangulated: a vertex list and the faces that index it.
    Meshed(Vec<Vector2>, Vec<Face>),
    /// The glyph was not triangulated.
    MeshFailed(EngineFailure),
}

/// What is to be done next for a request.
#[derive(Debug)]
pub enum Action {
    /// Have the engine parse these bytes as a font.
    ParseFont(Vec<u8>),
    /// Have the engine look up the glyph of this UTF-16 code unit.
    FindGlyph(u16),
    /// Have the engine triangulate the glyph at this quality.
    Triangulate(u8),
    /// Hand this buffer to the caller: the request has succeeded.
    Deliver(BufferVec2),
    /// Report this failure to the caller: the request has failed.
    Fail(MeshError),
    /// Nothing: the caller already has its buffer.
    Rest,
}

/// An `Event` as a value of the model.
pub enum EventView {
    FontParsed,
    FontRejected,
    GlyphFound(Seq<Seq<Vector2>>),
    GlyphMissing,
    Meshed(Seq<Vector2>, Seq<Face>),
    MeshFailed(EngineFailure),
}

/// An `Action` as a value of the model.
pub enum ActionView {
    ParseFont(Seq<u8>),
    FindGlyph(u16),
    Triangulate(u8),
    Deliver(Seq<Vector2>),
    Fail(MeshError),
    Rest,
}

impl View for Event {
    type V = EventView;

    open spec fn view(&self) -> EventView {
        match *self {
            Event::FontParsed => EventView::FontParsed,
            Event::FontRejected => EventView::FontRejected,
            Event::GlyphFound(contours) => EventView::GlyphFound(contours_of(contours)),
            Event::GlyphMissing => EventView::GlyphMissing,
            Event::Meshed(vertices, faces) => EventView::Meshed(vertices@, faces@),
            Event::MeshFailed(failure) => EventView::MeshFailed(failure),
        }
    }
}

impl View for Action {
    type V = ActionView;

    open spec fn view(&self) -> ActionView {
        match *self {
            Action::ParseFont(font) => ActionView::ParseFont(font@),
            Action::FindGlyph(unit) => ActionView::FindGlyph(unit),
            Action::Triangulate(quality) => ActionView::Triangulate(quality),
            Action::Deliver(buffer) => ActionView::Deliver(buffer@),
            Action::Fail(error) => ActionView::Fail(error),
            Action::Rest => ActionView::Rest,
        }
    }
}

/// The request fails with `error`.
pub open spec fn fails(error: MeshError) -> (Conversion, ActionView) {
    (Conversion::Failed(error), ActionView::Fail(error))
}

/// The loader's decision: a font longer than `MAX_FONT_BYTES` is malformed;
/// any other goes to the engine, byte for byte.
pub open spec fn load_spec(font: Seq<u8>, codepoint: u32, quality: u8) -> (
    Conversion,
    ActionView,
) {
    if font.len() <= MAX_FONT_BYTES {
        (Conversion::AwaitingFont { codepoint, quality }, ActionView::ParseFont(font))
    } else {
        fails(MeshError::MalformedFont)
    }
}

/// The resolver's decision once the font is parsed: a value that is no scalar
/// value is rejected; a character outside the Basic Multilingual Plane has no
/// glyph; for any other the engine is asked, under the character's own value.
pub open spec fn resolve_spec(codepoint: u32, quality: u8) -> (Conversion, ActionView) {
    if !is_scalar_value(codepoint) {
        fails(MeshError::InvalidCodepoint)
    } else if codepoint > 0xFFFF {
        fails(MeshError::GlyphNotFound)
    } else {
        (Conversion::AwaitingGlyph { quality }, ActionView::FindGlyph(codepoint as u16))
    }
}

/// The triangulator's decision on a glyph's contours: a contour with fewer
/// than three points makes the outline degenerate; an outline without
/// contours is delivered as the empty mesh, without asking the engine; any
/// other is triangulated at the requested quality.
pub open spec fn triangulate_spec(contours: Seq<Seq<Vector2>>, quality: u8) -> (
    Conversion,
    ActionView,
) {
    if !contours_closed(contours) {
        fails(MeshError::DegenerateOutline)
    } else if contours.len() == 0 {
        (Conversion::Delivered, ActionView::Deliver(Seq::empty()))
    } else {
        (Conversion::AwaitingMesh, ActionView::Triangulate(quality))
    }
}

/// The triangulator's decision on the engine's answer: a mesh is delivered as
/// its triangle stream; any other answer is a failed triangulation.
pub open spec fn accept_spec(vertices: Seq<Vector2>, faces: Seq<Face>) -> (
    Conversion,
    ActionView,
) {
    if is_mesh(vertices, faces) {
        (Conversion::Delivered, ActionView::Deliver(triangle_stream(vertices, faces)))
    } else {
        fails(MeshError::TriangulationFailed)
    }
}

/// The state after an answer of the engine, and what is to be done next.
///
/// Each stage takes its own answer and reports its own failure: a stage that
/// is told anything but what it asked for fails with the failure of its
/// class. A failed request stays failed with the same failure, and a
/// delivered one stays delivered.
pub open spec fn step_spec(state: Conversion, event: EventView) -> (Conversion, ActionView) {
    match state {
        Conversion::AwaitingFont { codepoint, quality } => match event {
            EventView::FontParsed => resolve_spec(codepoint, quality),
            _ => fails(MeshError::MalformedFont),
        },
        Conversion::AwaitingGlyph { quality } => match event {
            EventView::GlyphFound(contours) => triangulate_spec(contours, quality),
            _ => fails(MeshError::GlyphNotFound),
        },
        Conversion::AwaitingMesh => match event {
            EventView::Meshed(vertices, faces) => accept_spec(vertices, faces),
            EventView::MeshFailed(EngineFailure::Unresolvable) => fails(
                MeshError::DegenerateOutline,
            ),
            _ => fails(MeshError::TriangulationFailed),
        },
        Conversion::Delivered => (Conversion::Delivered, ActionView::Rest),
        Conversion::Failed(error) => fails(error),
    }
}

/// Starts a request for the mesh of the character `ch` of `font` at
/// `quality`.
///
/// The font goes to the engine unchanged, unless it is too long for the
/// engine to take. The quality is a knob of the triangulation and is passed
/// on to it as it is.
pub fn char_mesh_2d(font: Vec<u8>, ch: u32, quality: u8) -> (started: (Conversion, Action))
    ensures
        (started.0, started.1@) == load_spec(font@, ch, quality),
{
    if font.len() <= MAX_FONT_BYTES {
        (Conversion::AwaitingFont { codepoint: ch, quality }, Action::ParseFont(font))
    } else {
        fail(MeshError::MalformedFont)
    }
}

fn fail(error: MeshError) -> (failed: (Conversion, Action))
    ensures
        (failed.0, failed.1@) == fails(error),
{
    (Conversion::Failed(error), Action::Fail(error))
}

fn resolve(codepoint: u32, quality: u8) -> (next: (Conversion, Action))
    ensures
        (next.0, next.1@) == resolve_spec(codepoint, quality),
{
    match decode_scalar(codepoint) {
        Err(error) => fail(error),
        Ok(c) => match utf16_unit(c) {
            None => fail(MeshError::GlyphNotFound),
            Some(unit) => (Conversion::AwaitingGlyph { quality }, Action::FindGlyph(unit)),
        },
    }
}

fn triangulate(contours: Vec<Vec<Vector2>>, quality: u8) -> (next: (Conversion, Action))
    ensures
        (next.0, next.1@) == triangulate_spec(contours_of(contours), quality),
{
    match Outline::from_contours(contours) {
        Err(error) => fail(error),
        Ok(outline) => {
            if outline.is_empty() {
                (Conversion::Delivered, Action::Deliver(export(Mesh2D::empty())))
            } else {
                (Conversion::AwaitingMesh, Action::Triangulate(quality))
            }
        },
    }
}

fn accept(vertices: Vec<Vector2>, faces: Vec<Face>) -> (next: (Conversion, Action))
    ensures
        (next.0, next.1@) == accept_spec(vertices@, faces@),
{
    match Mesh2D::from_indexed(vertices, faces) {
        Err(error) => fail(error),
        Ok(mesh) => (Conversion::Delivered, Action::Deliver(export(mesh))),
    }
}

impl Conversion {
    /// Whether the request is over: delivered or failed.
    pub open spec fn settled(self) -> bool {
        self is Delivered || self is Failed
    }

    /// Whether the request is over: delivered or failed.
    pub fn is_settled(self) -> (settled: bool)
        ensures
            settled == self.settled(),
    {
        match self {
            Conversion::Delivered => true,
            Conversion::Failed(_) => true,
            _ => false,
        }
    }

    /// Takes an answer of the engine and says what is to be done next.
    pub fn step(self, event: Event) -> (next: (Conversion, Action))
        ensures
            (next.0, next.1@) == step_spec(self, event@),
    {
        match self {
            Conversion::AwaitingFont { codepoint, quality } => match event {
                Event::FontParsed => resolve(codepoint, quality),
                _ => fail(MeshError::MalformedFont),
            },
            Conversion::AwaitingGlyph { quality } => match event {
                Event::GlyphFound(contours) => triangulate(contours, quality),
                _ => fail(MeshError::GlyphNotFound),
            },
            Conversion::AwaitingMesh => match event {
                Event::Meshed(vertices, faces) => accept(vertices, faces),
                Event::MeshFailed(EngineFailure::Unresolvable) => fail(
                    MeshError::DegenerateOutline,
                ),
                _ => fail(MeshError::TriangulationFailed),
            },
            Conversion::Delivered => (Conversion::Delivered, Action::Rest),
            Conversion::Failed(error) => fail(error),
        }
    }
}

/// The state that a sequence of answers leads to.
pub open spec fn run(state: Conversion, events: Seq<EventView>) -> Conversion
    decreases events.len(),
{
    if events.len() == 0 {
        state
    } else {
        run(step_spec(state, events[0]).0, events.drop_first())
    }
}

/// How many answers a request may still need.
pub open spec fn answers_left(state: Conversion) -> nat {
    match state {
        Conversion::AwaitingFont { .. } => 3,
        Conversion::AwaitingGlyph { .. } => 2,
        Conversion::AwaitingMesh => 1,
        Conversion::Delivered => 0,
        Conversion::Failed(_) => 0,
    }
}

/// What the engine would answer at each stage of a request.
pub struct EngineAnswers {
    /// Whether it can parse the font.
    pub parsed: bool,
    /// The contours of the character's glyph, if the font has one.
    pub glyph: Option<Seq<Seq<Vector2>>>,
    /// Its triangulation of the glyph.
    pub mesh: Result<(Seq<Vector2>, Seq<Face>), EngineFailure>,
}

/// What a request comes to, stage by stage: the loader, the resolver, the
/// triangulator, and the layout of the buffer.
pub open spec fn outcome(font: Seq<u8>, codepoint: u32, answers: EngineAnswers) -> Result<
    Seq<Vector2>,
    MeshError,
> {
    if font.len() > MAX_FONT_BYTES || !answers.parsed {
        Err(MeshError::MalformedFont)
    } else if !is_scalar_value(codepoint) {
        Err(MeshError::InvalidCodepoint)
    } else if codepoint > 0xFFFF || answers.glyph is None {
        Err(MeshError::GlyphNotFound)
    } else if !contours_closed(answers.glyph->Some_0) {
        Err(MeshError::DegenerateOutline)
    } else if answers.glyph->Some_0.len() == 0 {
        Ok(Seq::empty())
    } else {
        match answers.mesh {
            Err(EngineFailure::Unresolvable) => Err(MeshError::DegenerateOutline),
            Err(EngineFailure::Internal) => Err(MeshError::TriangulationFailed),
            Ok((vertices, faces)) => if is_mesh(vertices, faces) {
                Ok(triangle_stream(vertices, faces))
            } else {
                Err(MeshError::TriangulationFailed)
            },
        }
    }
}

/// The engine's answer to an action, as an event.
pub open spec fn answer_to(action: ActionView, answers: EngineAnswers) -> EventView {
    match action {
        ActionView::ParseFont(_) => if answers.parsed {
            EventView::FontParsed
        } else {
            EventView::FontRejected
        },
        ActionView::FindGlyph(_) => match answers.glyph {
            Some(contours) => EventView::GlyphFound(contours),
            None => EventView::GlyphMissing,
        },
        _ => match answers.mesh {
            Ok((vertices, faces)) => EventView::Meshed(vertices, faces),
            Err(failure) => EventView::MeshFailed(failure),
        },
    }
}

/// Where a request stands after the engine has answered up to `rounds`
/// actions, each action with the answer that belongs to it; a request that
/// is over is left as it is.
pub open spec fn driven(
    started: (Conversion, ActionView),
    answers: EngineAnswers,
    rounds: nat,
) -> (Conversion, ActionView)
    decreases rounds,
{
    if rounds == 0 || started.0.settled() {
        started
    } else {
        driven(
            step_spec(started.0, answer_to(started.1, answers)),
            answers,
            (rounds - 1) as nat,
        )
    }
}

/// A failed request stays failed: whatever the engine says afterwards, the
/// state and the reported failure stay the same, and nothing is delivered.
pub proof fn lemma_failure_is_final(error: MeshError, events: Seq<EventView>)
    ensures
        run(Conversion::Failed(error), events) == Conversion::Failed(error),
        forall|event: EventView| #[trigger]
            step_spec(Conversion::Failed(error), event) == fails(error),
    decreases events.len(),
{
    if events.len() > 0 {
        lemma_failure_is_final(error, events.drop_first());
    }
}

/// A delivered request stays delivered: the caller gets one buffer, and no
/// later answer produces another or turns the success into a failure.
pub proof fn lemma_delivery_is_final(events: Seq<EventView>)
    ensures
        run(Conversion::Delivered, events) == Conversion::Delivered,
        forall|event: EventView| #[trigger]
            step_spec(Conversion::Delivered, event) == (Conversion::Delivered, ActionView::Rest),
    decreases events.len(),
{
    if events.len() > 0 {
        lemma_delivery_is_final(events.drop_first());
    }
}

/// Every answer brings a request that is not over closer to its end, and the
/// action says whether it is over: a request is delivered exactly when the
/// action hands over a buffer, and failed exactly when the action reports the
/// failure it failed with.
pub proof fn lemma_step_makes_progress(state: Conversion, event: EventView)
    requires
        !state.settled(),
    ensures
        answers_left(step_spec(state, event).0) < answers_left(state),
        step_spec(state, event).0 is Delivered <==> step_spec(state, event).1 is Deliver,
        step_spec(state, event).0 is Failed <==> step_spec(state, event).1 is Fail,
        step_spec(state, event).0 matches Conversion::Failed(error) ==> step_spec(
            state,
            event,
        ).1 == ActionView::Fail(error),
{
}

/// A request is over after at most three answers of the engine.
pub proof fn lemma_settled_after_three_answers(state: Conversion, events: Seq<EventView>)
    requires
        events.len() >= answers_left(state),
    ensures
        run(state, events).settled(),
    decreases events.len(),
{
    if state.settled() {
        match state {
            Conversion::Failed(error) => lemma_failure_is_final(error, events),
            _ => lemma_delivery_is_final(events),
        }
    } else {
        lemma_step_makes_progress(state, events[0]);
        lemma_settled_after_three_answers(step_spec(state, events[0]).0, events.drop_first());
    }
}

/// Each stage reports failures of its own class only: the loader a
/// malformed font; the resolver an invalid code point or a missing glyph; the
/// triangulator a degenerate outline or a failed triangulation.
pub proof fn lemma_stage_reports_its_own_failure(state: Conversion, event: EventView)
    ensures
        step_spec(state, event).1 matches ActionView::Fail(error) ==> match state {
            Conversion::AwaitingFont { .. } => match event {
                EventView::FontParsed => error == MeshError::InvalidCodepoint || error
                    == MeshError::GlyphNotFound,
                _ => error == MeshError::MalformedFont,
            },
            Conversion::AwaitingGlyph { .. } => match event {
                EventView::GlyphFound(_) => error == MeshError::DegenerateOutline,
                _ => error == MeshError::GlyphNotFound,
            },
            Conversion::AwaitingMesh => error == MeshError::DegenerateOutline || error
                == MeshError::TriangulationFailed,
            Conversion::Delivered => false,
            Conversion::Failed(earlier) => error == earlier,
        },
{
}

/// A value that is no Unicode scalar value is rejected as an invalid code
/// point once the font is parsed, whatever the font and the quality: the
/// engine is never asked for a glyph. Every surrogate half is such a value.
pub proof fn lemma_invalid_codepoint_is_rejected(codepoint: u32, quality: u8)
    ensures
        0xD800 <= codepoint <= 0xDFFF ==> !is_scalar_value(codepoint),
        codepoint > 0x10FFFF ==> !is_scalar_value(codepoint),
        !is_scalar_value(codepoint) ==> step_spec(
            Conversion::AwaitingFont { codepoint, quality },
            EventView::FontParsed,
        ) == fails(MeshError::InvalidCodepoint),
{
}

/// The engine is asked for a glyph only under the requested character's own
/// value, and only if that value is a scalar value of the Basic Multilingual
/// Plane.
pub proof fn lemma_glyph_key_is_the_codepoint(codepoint: u32, quality: u8, event: EventView)
    ensures
        step_spec(Conversion::AwaitingFont { codepoint, quality }, event).1 matches ActionView::FindGlyph(
            unit,
        ) ==> unit == codepoint && is_scalar_value(codepoint) && event is FontParsed,
{
}

/// A character for which the font has no glyph fails the request with
/// `GlyphNotFound`; no other glyph is put in its place.
pub proof fn lemma_missing_glyph_is_reported(quality: u8)
    ensures
        step_spec(Conversion::AwaitingGlyph { quality }, EventView::GlyphMissing) == fails(
            MeshError::GlyphNotFound,
        ),
{
}

/// A glyph with nothing to draw is delivered as a buffer of length zero, at
/// every quality: it is no failure, and the engine is not asked to
/// triangulate it.
pub proof fn lemma_empty_outline_gives_empty_buffer(quality: u8)
    ensures
        step_spec(
            Conversion::AwaitingGlyph { quality },
            EventView::GlyphFound(Seq::empty()),
        ) == (Conversion::Delivered, ActionView::Deliver(Seq::empty())),
{
}

/// The quality reaches the triangulation as it was requested.
pub proof fn lemma_quality_is_passed_on(quality: u8, event: EventView)
    ensures
        step_spec(Conversion::AwaitingGlyph { quality }, event).1 matches ActionView::Triangulate(
            asked,
        ) ==> asked == quality,
{
}

/// What is delivered is whole: the buffer holds the corners of every face of
/// the engine's mesh and nothing else, three to a triangle and in the order
/// of the faces, and its length fits the 32 bits in which it is reported.
pub proof fn lemma_delivered_buffer_is_whole(vertices: Seq<Vector2>, faces: Seq<Face>)
    requires
        is_mesh(vertices, faces),
    ensures
        step_spec(Conversion::AwaitingMesh, EventView::Meshed(vertices, faces)) == (
            Conversion::Delivered,
            ActionView::Deliver(triangle_stream(vertices, faces)),
        ),
        triangle_stream(vertices, faces).len() == 3 * faces.len(),
        triangle_stream(vertices, faces).len() <= u32::MAX,
        forall|k: int|
            0 <= k < faces.len() ==> {
                &&& triangle_stream(vertices, faces)[3 * k] == vertices[#[trigger] faces[k].v1 as int]
                &&& triangle_stream(vertices, faces)[3 * k + 1] == vertices[faces[k].v2 as int]
                &&& triangle_stream(vertices, faces)[3 * k + 2] == vertices[faces[k].v3 as int]
            },
{
    assert forall|k: int| 0 <= k < faces.len() implies {
        &&& triangle_stream(vertices, faces)[3 * k] == vertices[#[trigger] faces[k].v1 as int]
        &&& triangle_stream(vertices, faces)[3 * k + 1] == vertices[faces[k].v2 as int]
        &&& triangle_stream(vertices, faces)[3 * k + 2] == vertices[faces[k].v3 as int]
    } by {
    }
}

/// The same answers give the same result: two runs of a stage on the same
/// state and the same answer agree in state and action, and where they
/// deliver, the two buffers have the same length and hold the same vertices
/// the same number of times.
pub proof fn lemma_same_answer_same_mesh(
    state: Conversion,
    event: EventView,
    first: (Conversion, ActionView),
    second: (Conversion, ActionView),
)
    requires
        first == step_spec(state, event),
        second == step_spec(state, event),
    ensures
        first == second,
        first.1 matches ActionView::Deliver(a) ==> (second.1 matches ActionView::Deliver(b)
            && a.len() == b.len() && a.to_multiset() == b.to_multiset()),
{
}

/// Driving a request through its stages gives what `outcome` says: after the
/// engine has answered at most three actions the request is over; the buffer
/// it delivers is the one `outcome` names, and the failure it reports is the
/// one `outcome` names.
pub proof fn lemma_driven_request_gives_outcome(
    font: Seq<u8>,
    codepoint: u32,
    quality: u8,
    answers: EngineAnswers,
)
    ensures
        driven(load_spec(font, codepoint, quality), answers, 3).0.settled(),
        match outcome(font, codepoint, answers) {
            Ok(stream) => driven(load_spec(font, codepoint, quality), answers, 3) == (
                Conversion::Delivered,
                ActionView::Deliver(stream),
            ),
            Err(error) => driven(load_spec(font, codepoint, quality), answers, 3) == fails(error),
        },
{
    reveal_with_fuel(driven, 4);
}

} // verus!
