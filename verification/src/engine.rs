use vstd::prelude::*;
use crate::events::{
    GsnEvent, NativeEvent, lemma_translated_is_input, spec_translate_event, translate_event,
};
use crate::pixel::spec_rgb;
use crate::sprite::GsnSprite;

verus! {

/// A tick appends exactly one `Draw`, and it comes after every
/// input-derived action: in the segment `update` appends for `events`, the
/// last element is the only `Draw`, however many events were polled.
pub proof fn lemma_tick_appends_one_draw(events: Seq<NativeEvent>)
    ensures
        ({
            let appended = events.map_values(|e: NativeEvent| spec_translate_event(e)) + seq![
                GsnEvent::Draw,
            ];
            forall|m: int|
                0 <= m < appended.len() ==> ((appended[m] is Draw) <==> m == appended.len() - 1)
        }),
{
    let appended = events.map_values(|e: NativeEvent| spec_translate_event(e)) + seq![
        GsnEvent::Draw,
    ];
    assert forall|m: int| 0 <= m < appended.len() implies ((appended[m] is Draw) <==> m
        == appended.len() - 1) by {
        if m < events.len() {
            lemma_translated_is_input(events[m]);
            assert(appended[m] == spec_translate_event(events[m]));
        } else {
            assert(appended[m] == GsnEvent::Draw);
        }
    }
}

/// The engine core: the pixel buffer the application draws into, the queue
/// of semantic actions the application drains between ticks, and the flag
/// that asks the surrounding loop to stop.
///
/// The queue is append-only within a tick; the caller drains it afterwards,
/// typically by popping from the back, which visits the actions of a tick
/// most-recent first. Actions left undrained stay queued into the next tick.
pub struct GsnEngine {
    pub buffer: GsnSprite,
    pub actions: Vec<GsnEvent>,
    pub should_close: bool,
}

impl GsnEngine {
    /// Well-formed: the pixel buffer is.
    pub open spec fn wf(&self) -> bool {
        self.buffer.wf()
    }

    /// Creates an engine with a black `width`-by-`height` pixel buffer and a
    /// queue holding exactly one `Init` action.
    pub fn new(width: u32, height: u32) -> (engine: GsnEngine)
        requires
            width * height <= usize::MAX,
        ensures
            engine.wf(),
            engine.buffer.spec_width() == width,
            engine.buffer.spec_height() == height,
            forall|i: int, j: int|
                0 <= i < width && 0 <= j < height ==> engine.buffer.color_at(i, j) == spec_rgb(
                    0u8,
                    0u8,
                    0u8,
                ),
            engine.actions@ == seq![GsnEvent::Init],
            !engine.should_close,
    {
        let buffer = GsnSprite::new(width, height);
        let mut actions: Vec<GsnEvent> = Vec::new();
        actions.push(GsnEvent::Init);
        proof {
            assert(actions@ =~= seq![GsnEvent::Init]);
        }
        GsnEngine { buffer, actions, should_close: false }
    }

    /// Width of the pixel buffer.
    pub fn width(&self) -> (w: u32)
        ensures
            w == self.buffer.spec_width(),
    {
        self.buffer.width()
    }

    /// Height of the pixel buffer.
    pub fn height(&self) -> (h: u32)
        ensures
            h == self.buffer.spec_height(),
    {
        self.buffer.height()
    }

    /// Asks the surrounding loop to stop: raises the close flag and touches
    /// nothing else. The loop observes the flag; ticking does not stop by
    /// itself.
    pub fn exit(&mut self)
        ensures
            final(self).buffer == old(self).buffer,
            final(self).actions@ == old(self).actions@,
            final(self).should_close,
    {
        self.should_close = true;
    }

    /// One tick's queue work: appends the translation of each polled backend
    /// event, in delivery order, then exactly one trailing `Draw` marker.
    /// The pixel buffer and the close flag are untouched; the caller renders
    /// the buffer after this and drains the queue before the next tick.
    #[verifier::loop_isolation(false)]
    pub fn update(&mut self, events: &Vec<NativeEvent>)
        requires
            old(self).wf(),
        ensures
            final(self).wf(),
            final(self).buffer == old(self).buffer,
            final(self).should_close == old(self).should_close,
            final(self).actions@ == old(self).actions@ + events@.map_values(
                |e: NativeEvent| spec_translate_event(e),
            ) + seq![GsnEvent::Draw],
    {
        let ghost a0 = self.actions@;
        let mut k: usize = 0;
        while k < events.len()
            invariant
                k <= events.len(),
                self.buffer == old(self).buffer,
                self.should_close == old(self).should_close,
                self.actions@ =~= a0 + events@.subrange(0, k as int).map_values(
                    |e: NativeEvent| spec_translate_event(e),
                ),
            decreases events.len() - k,
        {
            let action = translate_event(events[k]);
            self.actions.push(action);
            proof {
                assert(events@.subrange(0, k + 1 as int) =~= events@.subrange(0, k as int).push(
                    events@[k as int],
                ));
                assert(events@.subrange(0, k + 1 as int).map_values(
                    |e: NativeEvent| spec_translate_event(e),
                ) =~= events@.subrange(0, k as int).map_values(
                    |e: NativeEvent| spec_translate_event(e),
                ).push(spec_translate_event(events@[k as int])));
            }
            k = k + 1;
        }
        self.actions.push(GsnEvent::Draw);
        proof {
            assert(events@.subrange(0, events@.len() as int) =~= events@);
            assert(self.actions@ =~= a0 + events@.map_values(
                |e: NativeEvent| spec_translate_event(e),
            ) + seq![GsnEvent::Draw]);
        }
    }
}

} // verus!
