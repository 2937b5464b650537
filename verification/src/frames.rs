//! The render loop as a state machine: each event of the window system is
//! turned into the next state and one action for the caller to perform.
use vstd::prelude::*;

use crate::NUM_FRAMES;

verus! {

/// An event of the window system, reduced to what the loop decides on.
#[derive(Clone, Copy, Debug, PartialEq, Eq, Structural)]
pub enum LoopEvent {
    /// An event addressed to a window: `own_window` tells whether it is the
    /// window this loop draws into, `close_requested` whether it asks to close.
    Window { own_window: bool, close_requested: bool },
    /// All pending input has been handled.
    MainEventsCleared,
    /// A window asks to be redrawn.
    RedrawRequested { own_window: bool },
    /// The event loop is being torn down.
    LoopDestroyed,
    /// Any other event.
    Other,
}

/// What a frame draws: the SVG file given on the command line, or the
/// animation at the given frame number.
#[derive(Clone, Copy, Debug, PartialEq, Eq, Structural)]
pub enum Scene {
    Svg,
    Animation { frame: usize },
}

/// What the caller does in answer to an event.
#[derive(Debug)]
pub enum LoopAction {
    /// Nothing; keep polling.
    Continue,
    /// Stop the event loop.
    Exit,
    /// Ask the window to be redrawn; keep polling.
    RequestRedraw,
    /// Render one frame into frame slot `slot`: first, if `wait_previous`,
    /// wait for the submission still in flight in that slot; then draw `scene`,
    /// submit the work in that slot and present it.
    Render { slot: usize, wait_previous: bool, scene: Scene },
    /// Wait for the submissions in flight in these slots, in this order.
    WaitAll { slots: Vec<usize> },
}

/// The state of the loop, as the contracts see it.
pub struct LoopModel {
    /// Number of frames rendered so far.
    pub frame: nat,
    /// For each frame slot, whether a submission is in flight in it.
    pub in_flight: Seq<bool>,
    /// Whether an SVG file is drawn instead of the animation.
    pub svg: bool,
}

/// The frame slot that frame number `frame` uses.
pub open spec fn slot_of(frame: nat) -> nat {
    frame % (NUM_FRAMES as nat)
}

/// There is one in-flight flag per frame slot.
pub open spec fn well_formed(m: LoopModel) -> bool {
    m.in_flight.len() == NUM_FRAMES
}

/// The slots among the first `n` whose flag is set, in increasing order.
pub open spec fn in_flight_slots(flags: Seq<bool>, n: nat) -> Seq<usize>
    decreases n,
{
    if n == 0 {
        seq![]
    } else {
        let earlier = in_flight_slots(flags, (n - 1) as nat);
        if flags[n - 1] {
            earlier.push((n - 1) as usize)
        } else {
            earlier
        }
    }
}

/// What the next frame of a loop in state `m` draws.
pub open spec fn scene_for(m: LoopModel) -> Scene {
    if m.svg {
        Scene::Svg
    } else {
        Scene::Animation { frame: m.frame as usize }
    }
}

/// The state after event `e`.
pub open spec fn next_model(m: LoopModel, e: LoopEvent) -> LoopModel {
    match e {
        LoopEvent::RedrawRequested { own_window } => {
            if own_window {
                LoopModel {
                    frame: m.frame + 1,
                    in_flight: m.in_flight.update(slot_of(m.frame) as int, true),
                    svg: m.svg,
                }
            } else {
                m
            }
        },
        LoopEvent::LoopDestroyed => LoopModel {
            frame: m.frame,
            in_flight: Seq::new(NUM_FRAMES as nat, |i: int| false),
            svg: m.svg,
        },
        _ => m,
    }
}

/// Whether `a` is the action owed for event `e` in state `m`.
pub open spec fn action_for(m: LoopModel, e: LoopEvent, a: LoopAction) -> bool {
    match e {
        LoopEvent::Window { own_window, close_requested } => {
            if own_window && close_requested {
                a is Exit
            } else {
                a is Continue
            }
        },
        LoopEvent::MainEventsCleared => a is RequestRedraw,
        LoopEvent::RedrawRequested { own_window } => {
            if own_window {
                &&& a matches LoopAction::Render { slot, wait_previous, scene }
                &&& slot == slot_of(m.frame)
                &&& wait_previous == m.in_flight[slot as int]
                &&& scene == scene_for(m)
            } else {
                a is Continue
            }
        },
        LoopEvent::LoopDestroyed => {
            &&& a matches LoopAction::WaitAll { slots }
            &&& slots@ == in_flight_slots(m.in_flight, NUM_FRAMES as nat)
        },
        LoopEvent::Other => a is Continue,
    }
}

/// Whether `e` is a redraw request for the loop's own window.
pub open spec fn is_own_redraw(e: LoopEvent) -> bool {
    e matches LoopEvent::RedrawRequested { own_window } && own_window
}

/// The state of the render loop: the number of frames rendered, and for each
/// frame slot whether a submission is in flight in it.
pub struct FrameLoop {
    frame: usize,
    in_flight: [bool; NUM_FRAMES],
    svg: bool,
}

impl View for FrameLoop {
    type V = LoopModel;

    closed spec fn view(&self) -> LoopModel {
        LoopModel { frame: self.frame as nat, in_flight: self.in_flight@, svg: self.svg }
    }
}

impl FrameLoop {
    /// A loop that has rendered nothing and has nothing in flight; it draws
    /// the SVG file when `svg` holds and the animation otherwise.
    pub fn new(svg: bool) -> (r: Self)
        ensures
            r@.frame == 0,
            r@.in_flight == Seq::new(NUM_FRAMES as nat, |i: int| false),
            r@.svg == svg,
            well_formed(r@),
    {
        let r = FrameLoop { frame: 0, in_flight: [false; NUM_FRAMES], svg };
        assert(r@.in_flight =~= Seq::new(NUM_FRAMES as nat, |i: int| false));
        r
    }

    /// The number of frames rendered so far.
    pub fn frame_count(&self) -> (r: usize)
        ensures
            r == self@.frame,
    {
        self.frame
    }

    /// Whether a submission is in flight in frame slot `slot`.
    pub fn is_in_flight(&self, slot: usize) -> (r: bool)
        requires
            slot < NUM_FRAMES,
        ensures
            r == self@.in_flight[slot as int],
    {
        self.in_flight[slot]
    }

    /// Decides what to do about event `event`, and moves to the state the loop
    /// is in once that is done.
    pub fn on_event(&mut self, event: LoopEvent) -> (action: LoopAction)
        requires
            is_own_redraw(event) ==> old(self)@.frame < usize::MAX,
        ensures
            final(self)@ == next_model(old(self)@, event),
            action_for(old(self)@, event, action),
            well_formed(final(self)@),
            event == LoopEvent::MainEventsCleared ==> action is RequestRedraw,
            event == (LoopEvent::Window { own_window: true, close_requested: true }) ==> action is Exit,
            event == (LoopEvent::RedrawRequested { own_window: true }) ==> {
                &&& action matches LoopAction::Render { slot, wait_previous, scene }
                &&& slot == old(self)@.frame % (NUM_FRAMES as nat)
                &&& wait_previous == old(self)@.in_flight[slot as int]
                &&& scene == if old(self)@.svg {
                    Scene::Svg
                } else {
                    Scene::Animation { frame: old(self)@.frame as usize }
                }
                &&& final(self)@.frame == old(self)@.frame + 1
                &&& final(self)@.svg == old(self)@.svg
                &&& final(self)@.in_flight == old(self)@.in_flight.update(slot as int, true)
            },
            event != (LoopEvent::RedrawRequested { own_window: true }) && event
                != LoopEvent::LoopDestroyed ==> final(self)@ == old(self)@,
            event == LoopEvent::LoopDestroyed ==> {
                &&& action matches LoopAction::WaitAll { slots }
                &&& forall|j: usize|
                    #![trigger slots@.contains(j)]
                    slots@.contains(j) <==> (j < NUM_FRAMES && old(self)@.in_flight[j as int])
                &&& slots@.no_duplicates()
                &&& forall|j: int| 0 <= j < NUM_FRAMES ==> !#[trigger] final(self)@.in_flight[j]
                &&& final(self)@.frame == old(self)@.frame
                &&& final(self)@.svg == old(self)@.svg
            },
            forall|j: int|
                0 <= j < NUM_FRAMES && #[trigger] final(self)@.in_flight[j] && !old(self)@.in_flight[j]
                    ==> event == (LoopEvent::RedrawRequested { own_window: true }) && j == old(
                    self,
                )@.frame % (NUM_FRAMES as nat),
    {
        match event {
            LoopEvent::Window { own_window, close_requested } => {
                if own_window && close_requested {
                    LoopAction::Exit
                } else {
                    LoopAction::Continue
                }
            },
            LoopEvent::MainEventsCleared => LoopAction::RequestRedraw,
            LoopEvent::RedrawRequested { own_window } => {
                if own_window {
                    let slot = self.frame % NUM_FRAMES;
                    let wait_previous = self.in_flight[slot];
                    let scene = if self.svg {
                        Scene::Svg
                    } else {
                        Scene::Animation { frame: self.frame }
                    };
                    self.in_flight[slot] = true;
                    self.frame = self.frame + 1;
                    LoopAction::Render { slot, wait_previous, scene }
                } else {
                    LoopAction::Continue
                }
            },
            LoopEvent::LoopDestroyed => {
                proof {
                    crate::laws::lemma_in_flight_slots_members(self@.in_flight, NUM_FRAMES as nat);
                }
                let slots = self.drain_in_flight();
                LoopAction::WaitAll { slots }
            },
            LoopEvent::Other => LoopAction::Continue,
        }
    }

    /// Clears every in-flight flag and returns the slots that had one set.
    fn drain_in_flight(&mut self) -> (slots: Vec<usize>)
        ensures
            slots@ == in_flight_slots(old(self)@.in_flight, NUM_FRAMES as nat),
            final(self)@ == next_model(old(self)@, LoopEvent::LoopDestroyed),
    {
        let ghost flags = self.in_flight@;
        let mut slots: Vec<usize> = Vec::new();
        let mut i: usize = 0;
        while i < NUM_FRAMES
            invariant
                i <= NUM_FRAMES,
                flags == old(self)@.in_flight,
                self.frame == old(self).frame,
                self.svg == old(self).svg,
                slots@ == in_flight_slots(flags, i as nat),
                forall|j: int| 0 <= j < i ==> !self.in_flight@[j],
                forall|j: int| i <= j < NUM_FRAMES ==> self.in_flight@[j] == flags[j],
            decreases NUM_FRAMES - i,
        {
            if self.in_flight[i] {
                slots.push(i);
                self.in_flight[i] = false;
            }
            i = i + 1;
        }
        assert(self.in_flight@ =~= Seq::new(NUM_FRAMES as nat, |i: int| false));
        slots
    }
}

} // verus!
