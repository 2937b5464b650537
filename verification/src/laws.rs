//! Properties of the render loop that span several events.
use vstd::prelude::*;

use crate::NUM_FRAMES;
use crate::frames::{
    action_for, in_flight_slots, is_own_redraw, next_model, slot_of, well_formed, LoopAction,
    LoopEvent, LoopModel, Scene,
};
use crate::info::{info_line_text, TimingFigures};

verus! {

/// The slots listed for waiting among the first `n` are exactly those below
/// `n` whose flag is set, each listed once.
pub proof fn lemma_in_flight_slots_members(flags: Seq<bool>, n: nat)
    requires
        n <= flags.len(),
        n <= usize::MAX,
    ensures
        forall|j: usize| #[trigger]
            in_flight_slots(flags, n).contains(j) <==> (j < n && flags[j as int]),
        in_flight_slots(flags, n).no_duplicates(),
        in_flight_slots(flags, n).len() <= n,
    decreases n,
{
    if n > 0 {
        let k = (n - 1) as nat;
        lemma_in_flight_slots_members(flags, k);
        let earlier = in_flight_slots(flags, k);
        if flags[k as int] {
            let s = earlier.push(k as usize);
            assert(s == in_flight_slots(flags, n));
            assert forall|j: usize| #[trigger] s.contains(j) <==> (j < n && flags[j as int]) by {
                if s.contains(j) {
                    let i = choose|i: int| 0 <= i < s.len() && s[i] == j;
                    if i < earlier.len() {
                        assert(earlier[i] == j);
                        assert(earlier.contains(j));
                    }
                }
                if j < n && flags[j as int] {
                    if j < k {
                        assert(earlier.contains(j));
                        let i = choose|i: int| 0 <= i < earlier.len() && earlier[i] == j;
                        assert(s[i] == j);
                    } else {
                        assert(s[earlier.len() as int] == j);
                    }
                }
            }
            assert(!earlier.contains(k as usize));
            assert forall|a: int, b: int| 0 <= a < s.len() && 0 <= b < s.len() && a != b
                implies s[a] != s[b] by {
                if a < earlier.len() && b < earlier.len() {
                } else if a < earlier.len() {
                    assert(earlier.contains(s[a]));
                } else if b < earlier.len() {
                    assert(earlier.contains(s[b]));
                }
            }
        }
    }
}

/// Two redraws in a row render into consecutive frame slots, wrapping
/// around after the last slot.
pub proof fn lemma_consecutive_redraws_rotate(m: LoopModel, a1: LoopAction, a2: LoopAction)
    requires
        well_formed(m),
        action_for(m, LoopEvent::RedrawRequested { own_window: true }, a1),
        action_for(next_model(m, LoopEvent::RedrawRequested { own_window: true }), LoopEvent::RedrawRequested { own_window: true }, a2),
    ensures
        a1 matches LoopAction::Render { slot: s1, .. } && a2 matches LoopAction::Render { slot: s2, .. }
            && s2 == (s1 + 1) % (NUM_FRAMES as int),
{
}

/// A frame slot comes back every `NUM_FRAMES` frames.
pub proof fn lemma_slot_period(frame: nat)
    ensures
        slot_of(frame + NUM_FRAMES as nat) == slot_of(frame),
        slot_of(frame) < NUM_FRAMES,
{
}

/// No submission is lost: whatever the event, a submission in flight either
/// stays in flight or the caller is told to wait for it; and the caller is
/// told to wait only for submissions that are in flight.
pub proof fn lemma_submissions_are_waited_for(m: LoopModel, e: LoopEvent, a: LoopAction, j: usize)
    requires
        well_formed(m),
        action_for(m, e, a),
        j < NUM_FRAMES,
    ensures
        m.in_flight[j as int] ==> next_model(m, e).in_flight[j as int] || (
        a matches LoopAction::WaitAll { slots } && slots@.contains(j)),
        a matches LoopAction::Render { slot, wait_previous, .. } ==> (slot == j ==> (wait_previous
            <==> m.in_flight[j as int])),
        a matches LoopAction::WaitAll { slots } ==> (slots@.contains(j) <==> m.in_flight[j as int]),
        a matches LoopAction::WaitAll { slots } ==> slots@.no_duplicates(),
{
    lemma_in_flight_slots_members(m.in_flight, NUM_FRAMES as nat);
}

/// Once the loop is torn down nothing is in flight, and the frame count and
/// the choice of scene are unchanged.
pub proof fn lemma_teardown_clears(m: LoopModel)
    requires
        well_formed(m),
    ensures
        forall|j: int| 0 <= j < NUM_FRAMES ==> !#[trigger] next_model(m, LoopEvent::LoopDestroyed).in_flight[j],
        next_model(m, LoopEvent::LoopDestroyed).frame == m.frame,
        next_model(m, LoopEvent::LoopDestroyed).svg == m.svg,
{
}

/// The loop exits exactly when its own window asks to close.
pub proof fn lemma_exit_only_on_close(m: LoopModel, e: LoopEvent, a: LoopAction)
    requires
        action_for(m, e, a),
    ensures
        a is Exit <==> e == (LoopEvent::Window { own_window: true, close_requested: true }),
{
}

/// The frame count grows by one for each redraw of the loop's own window and
/// for nothing else; the choice of scene never changes.
pub proof fn lemma_frame_counts_redraws(m: LoopModel, e: LoopEvent)
    ensures
        next_model(m, e).frame == m.frame + if is_own_redraw(e) { 1nat } else { 0nat },
        next_model(m, e).svg == m.svg,
{
}

/// Every event keeps one in-flight flag per frame slot, so at most
/// `NUM_FRAMES` submissions are ever in flight.
pub proof fn lemma_well_formed_preserved(m: LoopModel, e: LoopEvent)
    requires
        well_formed(m),
    ensures
        well_formed(next_model(m, e)),
{
}

/// After a redraw its slot is in flight, and the other slots are as before.
pub proof fn lemma_redraw_marks_slot(m: LoopModel, a: LoopAction, j: usize)
    requires
        well_formed(m),
        action_for(m, LoopEvent::RedrawRequested { own_window: true }, a),
        j < NUM_FRAMES,
    ensures
        a matches LoopAction::Render { slot, .. } && next_model(
            m,
            LoopEvent::RedrawRequested { own_window: true },
        ).in_flight[j as int] == (j == slot || m.in_flight[j as int]),
{
}

/// A loop not drawing an SVG draws, at each redraw of its own window, the
/// animation at the number of frames rendered before it; a loop drawing an
/// SVG draws the SVG every time.
pub proof fn lemma_scene_of_each_redraw(m: LoopModel, a: LoopAction)
    requires
        action_for(m, LoopEvent::RedrawRequested { own_window: true }, a),
    ensures
        !m.svg ==> (a matches LoopAction::Render { scene, .. } && scene == (Scene::Animation {
            frame: m.frame as usize,
        })),
        m.svg ==> (a matches LoopAction::Render { scene, .. } && scene == Scene::Svg),
{
}

/// Whenever all pending events are cleared a redraw is requested, whatever
/// is in flight and however many frames were rendered, and nothing changes.
pub proof fn lemma_cleared_events_request_redraw(m: LoopModel, a: LoopAction)
    requires
        action_for(m, LoopEvent::MainEventsCleared, a),
    ensures
        a is RequestRedraw,
        next_model(m, LoopEvent::MainEventsCleared) == m,
{
}

/// Only a redraw of the loop's own window puts a slot in flight, and only
/// the slot it renders into.
pub proof fn lemma_only_redraws_put_slots_in_flight(m: LoopModel, e: LoopEvent, j: int)
    requires
        well_formed(m),
        0 <= j < NUM_FRAMES,
        next_model(m, e).in_flight[j],
        !m.in_flight[j],
    ensures
        e == (LoopEvent::RedrawRequested { own_window: true }),
        j == slot_of(m.frame),
{
}

/// Events other than an own-window redraw and the teardown leave the whole
/// state as it was: no flag is set or cleared and no frame is counted.
pub proof fn lemma_other_events_change_nothing(m: LoopModel, e: LoopEvent)
    requires
        e != (LoopEvent::RedrawRequested { own_window: true }),
        e != LoopEvent::LoopDestroyed,
    ensures
        next_model(m, e) == m,
{
}

/// The state after the events `es`, one after another, starting from `m`.
pub open spec fn replay(m: LoopModel, es: Seq<LoopEvent>) -> LoopModel
    decreases es.len(),
{
    if es.len() == 0 {
        m
    } else {
        next_model(replay(m, es.drop_last()), es.last())
    }
}

/// The state of a loop that has just been made.
pub open spec fn initial(svg: bool) -> LoopModel {
    LoopModel { frame: 0, in_flight: Seq::new(NUM_FRAMES as nat, |i: int| false), svg }
}

/// Whether `es[i]` is an own-window redraw that renders into slot `j`, when
/// the events are replayed from `m`, with no teardown after it.
pub open spec fn rendered_since_teardown(m: LoopModel, es: Seq<LoopEvent>, i: int, j: int) -> bool {
    &&& 0 <= i < es.len()
    &&& es[i] == (LoopEvent::RedrawRequested { own_window: true })
    &&& slot_of(replay(m, es.take(i)).frame) == j
    &&& forall|k: int| i < k < es.len() ==> es[k] != LoopEvent::LoopDestroyed
}

/// Replaying keeps one flag per slot.
pub proof fn lemma_replay_well_formed(m: LoopModel, es: Seq<LoopEvent>)
    requires
        well_formed(m),
    ensures
        well_formed(replay(m, es)),
    decreases es.len(),
{
    if es.len() > 0 {
        lemma_replay_well_formed(m, es.drop_last());
    }
}

/// In any run from a new loop, a slot is in flight exactly when some
/// own-window redraw has rendered into it since the last teardown.
pub proof fn lemma_in_flight_iff_rendered(svg: bool, es: Seq<LoopEvent>, j: int)
    requires
        0 <= j < NUM_FRAMES,
    ensures
        replay(initial(svg), es).in_flight[j] <==> exists|i: int|
            rendered_since_teardown(initial(svg), es, i, j),
    decreases es.len(),
{
    let m0 = initial(svg);
    if es.len() == 0 {
        assert(!m0.in_flight[j]);
    } else {
        let n = es.len() - 1;
        let prev = es.drop_last();
        let e = es.last();
        lemma_in_flight_iff_rendered(svg, prev, j);
        lemma_replay_well_formed(m0, prev);
        let before = replay(m0, prev);
        assert(es.take(n) =~= prev);
        assert forall|i: int| 0 <= i < n implies #[trigger] es.take(i) =~= prev.take(i) by {}
        if replay(m0, es).in_flight[j] {
            if e == (LoopEvent::RedrawRequested { own_window: true }) && j == slot_of(before.frame) {
                assert(rendered_since_teardown(m0, es, n, j));
            } else {
                assert(before.in_flight[j]);
                let i = choose|i: int| rendered_since_teardown(m0, prev, i, j);
                assert(es.take(i) =~= prev.take(i));
                assert(e != LoopEvent::LoopDestroyed);
                assert forall|k: int| i < k < es.len() implies es[k] != LoopEvent::LoopDestroyed by {
                    if k < n {
                        assert(es[k] == prev[k]);
                    }
                }
                assert(rendered_since_teardown(m0, es, i, j));
            }
        }
        if exists|i: int| rendered_since_teardown(m0, es, i, j) {
            let i = choose|i: int| rendered_since_teardown(m0, es, i, j);
            if i == n {
                assert(es.take(i) =~= prev);
            } else {
                assert(es.take(i) =~= prev.take(i));
                assert(rendered_since_teardown(m0, prev, i, j));
                assert(e != LoopEvent::LoopDestroyed);
            }
        }
    }
}

/// Without a redraw of the loop's own window, nothing is ever in flight.
pub proof fn lemma_no_redraw_nothing_in_flight(svg: bool, es: Seq<LoopEvent>, j: int)
    requires
        0 <= j < NUM_FRAMES,
        forall|i: int| 0 <= i < es.len() ==> es[i] != (LoopEvent::RedrawRequested { own_window: true }),
    ensures
        !replay(initial(svg), es).in_flight[j],
{
    lemma_in_flight_iff_rendered(svg, es, j);
}

/// The timing line starts with the frame total followed by `ms :: e:`, and
/// ends with the last stage's figure followed by `ms`.
pub proof fn lemma_info_line_ends(f: TimingFigures)
    ensures
        info_line_text(f).subrange(0, f.total@.len() as int) == f.total@,
        info_line_text(f).subrange(f.total@.len() as int, f.total@.len() + 8int) == "ms :: e:"@,
        info_line_text(f).subrange(
            info_line_text(f).len() - f.fine@.len() - 2,
            info_line_text(f).len() as int,
        ) == f.fine@ + "ms"@,
{
    reveal_strlit("ms :: e:");
    reveal_strlit("ms");
    let t = info_line_text(f);
    assert(t.subrange(0, f.total@.len() as int) =~= f.total@);
    assert(t.subrange(f.total@.len() as int, f.total@.len() + 8int) =~= "ms :: e:"@);
    assert(t.subrange(t.len() - f.fine@.len() - 2, t.len() as int) =~= f.fine@ + "ms"@);
}

} // verus!
