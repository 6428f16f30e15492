use vstd::prelude::*;

use crate::attention::{AttentionRequest, FlashStyle, NativeHandle};
use crate::geometry::Rect;
use crate::input::{InputEvent, Key, MouseButton};

verus! {

/// Where the window is in its life: `Uninitialized -> Created -> (Resumed <-> Suspended)* -> Closed`.
#[derive(Clone, Copy, Debug, PartialEq, Eq, Structural)]
pub enum Lifecycle {
    Uninitialized,
    Created,
    Resumed,
    Suspended,
    Closed,
}

/// What makes the host ask for attention. The policies are alternatives.
#[derive(Clone, Copy, Debug, PartialEq, Eq, Structural)]
pub enum Trigger {
    /// A left click that lands inside `region`.
    Click { region: Rect },
    /// A press of `key` (its release does nothing).
    KeyPress { key: Key },
    /// Each move into the resumed state.
    Resume,
}

/// The shape of every flash the host asks for.
#[derive(Clone, Copy, Debug, PartialEq, Eq, Structural)]
pub struct FlashSettings {
    pub style: FlashStyle,
    pub count: u32,
    pub timeout_ms: u32,
}

/// What the driver of the event loop does after one event.
#[derive(Clone, Copy, Debug, PartialEq, Eq, Structural)]
pub enum Action {
    Nothing,
    /// Create the window, then report it with `Host::window_created`.
    CreateWindow,
    /// Issue this request for attention.
    Flash(AttentionRequest),
    /// Stop the event loop: the window is gone.
    Exit,
}

/// The host as a mathematical value.
pub struct HostState {
    pub lifecycle: Lifecycle,
    pub window: Option<NativeHandle>,
    pub trigger: Trigger,
    pub flash: FlashSettings,
}

impl HostState {
    /// A window exists exactly between its creation and its close.
    pub open spec fn wf(self) -> bool {
        match self.lifecycle {
            Lifecycle::Uninitialized | Lifecycle::Closed => self.window is None,
            _ => self.window is Some,
        }
    }

    pub open spec fn request_for(self, target: NativeHandle) -> AttentionRequest {
        AttentionRequest {
            target,
            style: self.flash.style,
            count: self.flash.count,
            timeout_ms: self.flash.timeout_ms,
        }
    }

    /// A flash aimed at the current window, if the host holds one.
    pub open spec fn flash_now(self) -> Action {
        match self.window {
            Some(h) => Action::Flash(self.request_for(h)),
            None => Action::Nothing,
        }
    }

    pub open spec fn fires_on(self, e: InputEvent) -> bool {
        match (self.trigger, e) {
            (Trigger::KeyPress { key }, InputEvent::KeyPressed { key: k }) => k == key,
            (Trigger::Click { region }, InputEvent::MouseButtonPressed { button, position }) => {
                button is Left && region.covers(position)
            },
            (Trigger::Resume, InputEvent::Resumed) => self.lifecycle is Created
                || self.lifecycle is Suspended,
            _ => false,
        }
    }

    /// The lifecycle after one event. Once closed, nothing changes it.
    pub open spec fn next_lifecycle(self, e: InputEvent) -> Lifecycle {
        match (self.lifecycle, e) {
            (Lifecycle::Closed, _) => Lifecycle::Closed,
            (_, InputEvent::WindowClosed) => Lifecycle::Closed,
            (Lifecycle::Created, InputEvent::Resumed) => Lifecycle::Resumed,
            (Lifecycle::Suspended, InputEvent::Resumed) => Lifecycle::Resumed,
            (Lifecycle::Resumed, InputEvent::Suspended) => Lifecycle::Suspended,
            (l, _) => l,
        }
    }

    /// The host after one event.
    pub open spec fn after(self, e: InputEvent) -> HostState {
        HostState {
            lifecycle: self.next_lifecycle(e),
            window: if self.next_lifecycle(e) is Closed {
                None
            } else {
                self.window
            },
            ..self
        }
    }

    /// What the host asks of its driver on one event.
    pub open spec fn reaction(self, e: InputEvent) -> Action {
        if self.lifecycle is Closed {
            Action::Nothing
        } else if e is WindowClosed {
            Action::Exit
        } else if self.lifecycle is Uninitialized && e is Resumed {
            Action::CreateWindow
        } else if self.fires_on(e) {
            self.flash_now()
        } else {
            Action::Nothing
        }
    }
}

/// The host after a sequence of events, each one dispatched in turn.
pub open spec fn state_after(s: HostState, events: Seq<InputEvent>) -> HostState
    decreases events.len(),
{
    if events.len() == 0 {
        s
    } else {
        state_after(s, events.drop_last()).after(events.last())
    }
}

/// The actions that a sequence of events yields, one for each event.
pub open spec fn reactions(s: HostState, events: Seq<InputEvent>) -> Seq<Action>
    decreases events.len(),
{
    if events.len() == 0 {
        seq![]
    } else {
        reactions(s, events.drop_last()).push(
            state_after(s, events.drop_last()).reaction(events.last()),
        )
    }
}

pub proof fn lemma_reactions_len(s: HostState, events: Seq<InputEvent>)
    ensures
        reactions(s, events).len() == events.len(),
    decreases events.len(),
{
    if events.len() > 0 {
        lemma_reactions_len(s, events.drop_last());
    }
}

/// The action at position `j` is the reaction of the host, as the events
/// before `j` left it, to the event at `j`.
pub proof fn lemma_reaction_at(s: HostState, events: Seq<InputEvent>, j: int)
    requires
        0 <= j < events.len(),
    ensures
        reactions(s, events)[j] == state_after(s, events.take(j)).reaction(events[j]),
    decreases events.len(),
{
    let front = events.drop_last();
    lemma_reactions_len(s, front);
    if j == events.len() - 1 {
        assert(front =~= events.take(j));
    } else {
        lemma_reaction_at(s, front, j);
        assert(front.take(j) =~= events.take(j));
    }
}

proof fn lemma_closed_stays(s: HostState, events: Seq<InputEvent>, i: int, j: int)
    requires
        0 <= i < j <= events.len(),
        state_after(s, events.take(i)).lifecycle is Closed,
        state_after(s, events.take(i)).window is None,
    ensures
        state_after(s, events.take(j)) == state_after(s, events.take(i)),
    decreases j - i,
{
    if j - 1 > i {
        lemma_closed_stays(s, events, i, j - 1);
    }
    assert(events.take(j).drop_last() =~= events.take(j - 1));
}

/// A window-closed event ends dispatch: from then on the host stays closed,
/// without a window, and answers every later event with `Action::Nothing`.
pub proof fn lemma_close_ends_dispatch(s: HostState, events: Seq<InputEvent>, i: int)
    requires
        0 <= i < events.len(),
        events[i] is WindowClosed,
    ensures
        forall|j: int|
            i < j <= events.len() ==> state_after(s, #[trigger] events.take(j)) == state_after(
                s,
                events.take(i + 1),
            ),
        state_after(s, events.take(i + 1)).lifecycle is Closed,
        state_after(s, events.take(i + 1)).window is None,
        forall|j: int| i < j < events.len() ==> #[trigger] reactions(s, events)[j] == Action::Nothing,
{
    assert(events.take(i + 1).drop_last() =~= events.take(i));
    assert forall|j: int| i < j <= events.len() implies state_after(
        s,
        #[trigger] events.take(j),
    ) == state_after(s, events.take(i + 1)) by {
        if j > i + 1 {
            lemma_closed_stays(s, events, i + 1, j);
        }
    }
    assert forall|j: int| i < j < events.len() implies #[trigger] reactions(s, events)[j]
        == Action::Nothing by {
        lemma_reaction_at(s, events, j);
    }
}

/// No flash is asked for after the window-closed event: the handle that the
/// close invalidated is never handed to the attention facility again.
pub proof fn lemma_no_flash_after_close(s: HostState, events: Seq<InputEvent>, i: int, j: int)
    requires
        0 <= i < j < events.len(),
        events[i] is WindowClosed,
    ensures
        !(reactions(s, events)[j] is Flash),
{
    lemma_close_ends_dispatch(s, events, i);
}

/// A flash is only ever aimed at the window the host holds, while it is open.
pub proof fn lemma_flash_targets_open_window(s: HostState, e: InputEvent)
    requires
        s.wf(),
        s.reaction(e) is Flash,
    ensures
        s.lifecycle !is Closed,
        s.lifecycle !is Uninitialized,
        s.window == Some(s.reaction(e)->Flash_0.target),
{
}

/// Owns the window's lifecycle and decides, event by event, what to do.
pub struct Host {
    lifecycle: Lifecycle,
    window: Option<NativeHandle>,
    trigger: Trigger,
    flash: FlashSettings,
}

impl View for Host {
    type V = HostState;

    closed spec fn view(&self) -> HostState {
        HostState {
            lifecycle: self.lifecycle,
            window: self.window,
            trigger: self.trigger,
            flash: self.flash,
        }
    }
}

impl Host {
    pub fn new(trigger: Trigger, flash: FlashSettings) -> (r: Host)
        ensures
            r@ == (HostState { lifecycle: Lifecycle::Uninitialized, window: None, trigger, flash }),
            r@.wf(),
    {
        Host { lifecycle: Lifecycle::Uninitialized, window: None, trigger, flash }
    }

    pub fn lifecycle(&self) -> (r: Lifecycle)
        ensures
            r == self@.lifecycle,
    {
        self.lifecycle
    }

    pub fn window(&self) -> (r: Option<NativeHandle>)
        ensures
            r == self@.window,
    {
        self.window
    }

    pub fn is_closed(&self) -> (r: bool)
        ensures
            r == (self@.lifecycle is Closed),
    {
        match self.lifecycle {
            Lifecycle::Closed => true,
            _ => false,
        }
    }

    /// Records the window that the driver created. Only an uninitialized host
    /// takes one; otherwise nothing changes and the result is `false`.
    pub fn window_created(&mut self, handle: NativeHandle) -> (accepted: bool)
        requires
            old(self)@.wf(),
        ensures
            accepted == (old(self)@.lifecycle is Uninitialized),
            accepted ==> final(self)@ == (HostState {
                lifecycle: Lifecycle::Created,
                window: Some(handle),
                ..old(self)@
            }),
            !accepted ==> final(self)@ == old(self)@,
            final(self)@.wf(),
    {
        match self.lifecycle {
            Lifecycle::Uninitialized => {
                self.lifecycle = Lifecycle::Created;
                self.window = Some(handle);
                true
            },
            _ => false,
        }
    }

    /// Gives up at startup, when a resource that the window needs could not be
    /// had: the host closes without a window and the driver must stop.
    pub fn fail_startup(&mut self) -> (a: Action)
        requires
            old(self)@.wf(),
        ensures
            a == Action::Exit,
            final(self)@ == (HostState { lifecycle: Lifecycle::Closed, window: None, ..old(self)@ }),
            final(self)@.wf(),
    {
        self.lifecycle = Lifecycle::Closed;
        self.window = None;
        Action::Exit
    }

    fn request(&self, target: NativeHandle) -> (r: AttentionRequest)
        ensures
            r == self@.request_for(target),
    {
        AttentionRequest {
            target,
            style: self.flash.style,
            count: self.flash.count,
            timeout_ms: self.flash.timeout_ms,
        }
    }

    fn fires_on(&self, e: InputEvent) -> (r: bool)
        ensures
            r == self@.fires_on(e),
    {
        match (self.trigger, e) {
            (Trigger::KeyPress { key }, InputEvent::KeyPressed { key: k }) => k == key,
            (Trigger::Click { region }, InputEvent::MouseButtonPressed { button, position }) => {
                match button {
                    MouseButton::Left => region.contains(position),
                    _ => false,
                }
            },
            (Trigger::Resume, InputEvent::Resumed) => match self.lifecycle {
                Lifecycle::Created | Lifecycle::Suspended => true,
                _ => false,
            },
            _ => false,
        }
    }

    /// Dispatches one event: moves the lifecycle and returns what the driver
    /// must do. A closed host ignores every event.
    pub fn dispatch(&mut self, e: InputEvent) -> (a: Action)
        requires
            old(self)@.wf(),
        ensures
            final(self)@ == old(self)@.after(e),
            a == old(self)@.reaction(e),
            final(self)@.wf(),
    {
        if self.is_closed() {
            return Action::Nothing;
        }
        let fires = self.fires_on(e);
        let a = match e {
            InputEvent::WindowClosed => Action::Exit,
            InputEvent::Resumed if self.lifecycle == Lifecycle::Uninitialized => Action::CreateWindow,
            _ => if fires {
                match self.window {
                    Some(h) => Action::Flash(self.request(h)),
                    None => Action::Nothing,
                }
            } else {
                Action::Nothing
            },
        };
        match (self.lifecycle, e) {
            (_, InputEvent::WindowClosed) => {
                self.lifecycle = Lifecycle::Closed;
                self.window = None;
            },
            (Lifecycle::Created, InputEvent::Resumed) | (Lifecycle::Suspended, InputEvent::Resumed) => {
                self.lifecycle = Lifecycle::Resumed;
            },
            (Lifecycle::Resumed, InputEvent::Suspended) => {
                self.lifecycle = Lifecycle::Suspended;
            },
            _ => {},
        }
        a
    }

    /// Dispatches `events` in order until the host is closed, and returns the
    /// action for each event dispatched. Nothing after a window-closed event
    /// is dispatched.
    pub fn run(&mut self, events: &Vec<InputEvent>) -> (r: Vec<Action>)
        requires
            old(self)@.wf(),
        ensures
            r.len() <= events.len(),
            r@ == reactions(old(self)@, events@.take(r.len() as int)),
            final(self)@ == state_after(old(self)@, events@.take(r.len() as int)),
            final(self)@.wf(),
            r.len() < events.len() ==> final(self)@.lifecycle is Closed,
            forall|i: int|
                0 <= i < r.len() ==> (#[trigger] state_after(old(self)@, events@.take(i))).lifecycle
                    !is Closed,
            forall|i: int|
                0 <= i < events.len() && (#[trigger] events@[i]) is WindowClosed ==> r.len() <= i
                    + 1,
            old(self)@.lifecycle !is Closed && r.len() < events.len() ==> r.len() > 0
                && events@[r.len() - 1] is WindowClosed,
            forall|i: int|
                #![trigger events@[i]]
                0 <= i < events.len() && events@[i] is WindowClosed && old(self)@.lifecycle
                    !is Closed && (forall|j: int| 0 <= j < i ==> !(#[trigger] events@[j] is WindowClosed))
                    ==> r.len() == i + 1,
    {
        let ghost s0 = self@;
        let mut r: Vec<Action> = Vec::new();
        let mut idx: usize = 0;
        assert(events@.take(0) =~= Seq::<InputEvent>::empty());
        while idx < events.len() && !self.is_closed()
            invariant
                idx <= events.len(),
                r.len() == idx,
                self@.wf(),
                r@ == reactions(s0, events@.take(idx as int)),
                self@ == state_after(s0, events@.take(idx as int)),
                forall|i: int|
                    0 <= i < idx ==> (#[trigger] state_after(s0, events@.take(i))).lifecycle
                        !is Closed,
                forall|k: int|
                    0 <= k < idx && (#[trigger] events@[k]) is WindowClosed ==> self@.lifecycle is Closed
                        && idx == k + 1,
                s0.lifecycle !is Closed && self@.lifecycle is Closed ==> idx > 0 && events@[idx
                    - 1] is WindowClosed,
            decreases events.len() - idx,
        {
            let e = events[idx];
            let a = self.dispatch(e);
            r.push(a);
            assert(events@.take(idx + 1).drop_last() =~= events@.take(idx as int));
            idx = idx + 1;
        }
        assert forall|i: int|
            #![trigger events@[i]]
            0 <= i < events.len() && events@[i] is WindowClosed && s0.lifecycle !is Closed && (forall|
                j: int,
            | 0 <= j < i ==> !(#[trigger] events@[j] is WindowClosed)) implies r.len() == i + 1 by {
            if r.len() < i + 1 {
                assert(events@[r.len() - 1] is WindowClosed);
            }
        }
        r
    }
}

} // verus!
