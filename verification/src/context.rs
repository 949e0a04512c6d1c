//! The application context and the event pump that feeds it.

use vstd::prelude::*;
use crate::error::{StartupStep, TetraError};
use crate::event::Event;
use crate::input::{InputState, InputView, Key, KEY_ESCAPE};
use crate::time::{TickLength, DEFAULT_TICK_NANOS};

verus! {

/// Mathematical model of a [`Context`], without the platform handles.
pub struct ContextView {
    /// The input snapshot.
    pub input: InputView,
    /// Whether the loop goes on after the current iteration.
    pub running: bool,
    /// Whether the escape key asks the loop to stop.
    pub quit_on_escape: bool,
    /// Length of one simulation tick, in nanoseconds.
    pub tick_nanos: nat,
}

impl ContextView {
    /// The model with a key recorded as down or up.
    pub open spec fn with_key(self, key: Key, pressed: bool) -> ContextView {
        ContextView { input: self.input.with_key(key, pressed), ..self }
    }

    /// The model once the loop has been told to stop.
    pub open spec fn stopped(self) -> ContextView {
        ContextView { running: false, ..self }
    }

    /// The model once the loop has been entered.
    pub open spec fn started(self) -> ContextView {
        ContextView { running: true, ..self }
    }

    /// The model at the start of the next frame, before any of its events.
    pub open spec fn next_frame(self) -> ContextView {
        ContextView { input: self.input.next_frame(), ..self }
    }

    /// The model after one event.
    pub open spec fn after_event(self, event: Event) -> ContextView {
        match event {
            Event::Quit => self.stopped(),
            Event::KeyDown { key } => {
                let recorded = self.with_key(key, true);
                if key == KEY_ESCAPE && self.quit_on_escape {
                    recorded.stopped()
                } else {
                    recorded
                }
            },
            Event::KeyUp { key } => self.with_key(key, false),
            Event::PointerMoved { x, y } => ContextView {
                input: self.input.with_pointer(x, y),
                ..self
            },
            Event::Other => self,
        }
    }

    /// The model after a batch of events, applied first to last.
    pub open spec fn after_events(self, events: Seq<Event>) -> ContextView
        decreases events.len(),
    {
        if events.len() == 0 {
            self
        } else {
            self.after_events(events.drop_last()).after_event(events.last())
        }
    }
}

/// Whether the event records a key going down or up.
pub open spec fn is_key_event(event: Event) -> bool {
    event is KeyDown || event is KeyUp
}

/// A frame in which no key event arrives leaves the two key tables equal:
/// no key counts as pressed or released in it.
pub proof fn lemma_frame_without_key_events(view: ContextView, events: Seq<Event>)
    requires
        forall|i: int| 0 <= i < events.len() ==> !is_key_event(#[trigger] events[i]),
    ensures
        view.next_frame().after_events(events).input.previous == view.next_frame().after_events(
            events,
        ).input.current,
        forall|key: Key|
            !(#[trigger] view.next_frame().after_events(events).input.pressed(key))
                && !(#[trigger] view.next_frame().after_events(events).input.released(key)),
    decreases events.len(),
{
    if events.len() > 0 {
        lemma_frame_without_key_events(view, events.drop_last());
    }
}

/// A batch of events never restarts the loop: where the context is stopped
/// before the batch, it is stopped after it.
pub proof fn lemma_events_never_restart(view: ContextView, events: Seq<Event>)
    requires
        !view.running,
    ensures
        !view.after_events(events).running,
    decreases events.len(),
{
    if events.len() > 0 {
        lemma_events_never_restart(view, events.drop_last());
    }
}

/// A quit request anywhere in a batch of events leaves the context stopped
/// at the end of the batch.
pub proof fn lemma_quit_stops(view: ContextView, events: Seq<Event>, at: int)
    requires
        0 <= at < events.len(),
        events[at] is Quit,
    ensures
        !view.after_events(events).running,
    decreases events.len(),
{
    if at < events.len() - 1 {
        lemma_quit_stops(view, events.drop_last(), at);
    }
}

/// The escape key going down stops the loop exactly where `quit_on_escape`
/// is set; either way the key is recorded as down.
pub proof fn lemma_escape_policy(view: ContextView)
    requires
        view.input.well_formed(),
    ensures
        view.after_event(Event::KeyDown { key: KEY_ESCAPE }).running == (view.running
            && !view.quit_on_escape),
        view.after_event(Event::KeyDown { key: KEY_ESCAPE }).input.down(KEY_ESCAPE),
        view.after_event(Event::KeyDown { key: KEY_ESCAPE }).quit_on_escape
            == view.quit_on_escape,
{
}

/// State shared by the loop and the callbacks: the input snapshot, the loop's
/// control flags, the tick length, and the platform handles `P`, which are
/// carried along untouched.
pub struct Context<P> {
    platform: P,
    input: InputState,
    running: bool,
    quit_on_escape: bool,
    tick: TickLength,
}

impl<P> View for Context<P> {
    type V = ContextView;

    closed spec fn view(&self) -> ContextView {
        ContextView {
            input: self.input@,
            running: self.running,
            quit_on_escape: self.quit_on_escape,
            tick_nanos: self.tick.length(),
        }
    }
}

impl<P> Context<P> {
    /// The platform handles that the context carries.
    pub closed spec fn platform_handles(self) -> P {
        self.platform
    }

    /// Applies one event: a quit request stops the loop, and so does the
    /// escape key going down where `quit_on_escape` is set; key and pointer
    /// events are recorded in the input snapshot; anything else is ignored.
    pub fn handle_event(&mut self, event: Event)
        ensures
            final(self)@ == old(self)@.after_event(event),
            final(self).platform_handles() == old(self).platform_handles(),
    {
        match event {
            Event::Quit => {
                self.running = false;
            },
            Event::KeyDown { key } => {
                if key == KEY_ESCAPE && self.quit_on_escape {
                    self.running = false;
                }
                self.input.set_key(key, true);
            },
            Event::KeyUp { key } => {
                self.input.set_key(key, false);
            },
            Event::PointerMoved { x, y } => {
                self.input.set_pointer_position(x, y);
            },
            Event::Other => {},
        }
    }

    /// Drains a batch of events, first to last. The batch is finite, so the
    /// drain ends however many events it holds.
    pub fn pump_events(&mut self, events: &Vec<Event>)
        ensures
            final(self)@ == old(self)@.after_events(events@),
            final(self).platform_handles() == old(self).platform_handles(),
    {
        let mut i: usize = 0;
        while i < events.len()
            invariant
                i <= events.len(),
                self@ == old(self)@.after_events(events@.take(i as int)),
                self.platform_handles() == old(self).platform_handles(),
            decreases events.len() - i,
        {
            assert(events@.take(i + 1).drop_last() == events@.take(i as int));
            self.handle_event(events[i]);
            i = i + 1;
        }
        assert(events@.take(i as int) == events@);
    }

    /// Starts a frame: the input snapshot of the frame before becomes the
    /// previous one.
    pub fn begin_frame(&mut self)
        ensures
            final(self)@ == old(self)@.next_frame(),
            final(self)@.input.previous == final(self)@.input.current,
            final(self).platform_handles() == old(self).platform_handles(),
    {
        self.input.begin_frame();
    }

    /// Enters a frame: the input snapshot starts the frame, and only then
    /// takes the events that were pending, first to last.
    pub fn enter_frame(&mut self, events: &Vec<Event>)
        ensures
            final(self)@ == old(self)@.next_frame().after_events(events@),
            final(self).platform_handles() == old(self).platform_handles(),
    {
        self.begin_frame();
        self.pump_events(events);
    }

    /// Marks the loop as entered.
    pub(crate) fn set_running(&mut self)
        ensures
            final(self)@ == old(self)@.started(),
            final(self).platform_handles() == old(self).platform_handles(),
    {
        self.running = true;
    }

    /// Whether the loop goes on after the current iteration.
    pub fn is_running(&self) -> (running: bool)
        ensures
            running == self@.running,
    {
        self.running
    }

    /// Whether the escape key asks the loop to stop.
    pub fn quits_on_escape(&self) -> (policy: bool)
        ensures
            policy == self@.quit_on_escape,
    {
        self.quit_on_escape
    }

    /// Length of one simulation tick, in nanoseconds. Never zero.
    pub fn tick_nanos(&self) -> (nanos: u64)
        ensures
            nanos == self@.tick_nanos,
            nanos > 0,
    {
        self.tick.nanos()
    }

    /// The input snapshot, for queries.
    pub fn input(&self) -> (input: &InputState)
        ensures
            input@ == self@.input,
    {
        &self.input
    }

    /// The platform handles.
    pub fn platform(&self) -> (platform: &P)
        ensures
            *platform == self.platform_handles(),
    {
        &self.platform
    }

    /// The key tables of any context cover exactly the tracked key codes.
    pub proof fn lemma_input_well_formed(&self)
        ensures
            self@.input.well_formed(),
    {
        self.input.lemma_well_formed();
    }

    /// The platform handles, for services that change them. The rest of the
    /// context stays as it is.
    pub fn platform_mut(&mut self) -> (platform: &mut P)
        ensures
            *platform == old(self).platform_handles(),
            final(self).platform_handles() == *final(platform),
            final(self)@ == old(self)@,
    {
        &mut self.platform
    }
}

/// Asks the loop to stop. It does so once the current iteration is complete.
pub fn quit<P>(ctx: &mut Context<P>)
    ensures
        final(ctx)@ == old(ctx)@.stopped(),
        final(ctx).platform_handles() == old(ctx).platform_handles(),
{
    ctx.running = false;
}

/// Mathematical model of a [`ContextBuilder`].
pub struct BuilderView {
    /// Window title.
    pub title: Seq<char>,
    /// Logical width, in pixels.
    pub width: nat,
    /// Logical height, in pixels.
    pub height: nat,
    /// Number of window pixels per logical pixel, along each axis.
    pub scale: nat,
    /// Whether frames wait for the display's refresh.
    pub vsync: bool,
    /// Whether the escape key asks the loop to stop.
    pub quit_on_escape: bool,
}

impl BuilderView {
    /// Width of the window, in pixels.
    pub open spec fn window_width(self) -> nat {
        self.width * self.scale
    }

    /// Height of the window, in pixels.
    pub open spec fn window_height(self) -> nat {
        self.height * self.scale
    }

    /// The window's size is one that the platform can be asked for: each
    /// side fits in 32 bits.
    pub open spec fn window_fits(self) -> bool {
        self.window_width() <= u32::MAX && self.window_height() <= u32::MAX
    }
}

/// What to ask the platform for when it creates the window.
#[derive(Clone, Copy, Debug, PartialEq, Eq)]
pub struct WindowSettings<'a> {
    /// Window title.
    pub title: &'a str,
    /// Width of the window, in pixels: logical width times scale.
    pub width: u32,
    /// Height of the window, in pixels: logical height times scale.
    pub height: u32,
    /// Logical width, in pixels.
    pub logical_width: u32,
    /// Logical height, in pixels.
    pub logical_height: u32,
    /// Number of window pixels per logical pixel, along each axis.
    pub scale: u32,
    /// Whether frames wait for the display's refresh.
    pub vsync: bool,
}

/// Collects the options of a context before it is built.
pub struct ContextBuilder<'a> {
    title: &'a str,
    width: u32,
    height: u32,
    scale: u32,
    vsync: bool,
    quit_on_escape: bool,
}

impl<'a> View for ContextBuilder<'a> {
    type V = BuilderView;

    closed spec fn view(&self) -> BuilderView {
        BuilderView {
            title: self.title@,
            width: self.width as nat,
            height: self.height as nat,
            scale: self.scale as nat,
            vsync: self.vsync,
            quit_on_escape: self.quit_on_escape,
        }
    }
}

impl<'a> ContextBuilder<'a> {
    /// A builder with the defaults: a window of 1280 by 720 logical pixels
    /// at scale 1, titled "Tetra", with vsync on and escape not quitting.
    pub fn new() -> (builder: ContextBuilder<'a>)
        ensures
            builder@ == (BuilderView {
                title: "Tetra"@,
                width: 1280,
                height: 720,
                scale: 1,
                vsync: true,
                quit_on_escape: false,
            }),
    {
        ContextBuilder {
            title: "Tetra",
            width: 1280,
            height: 720,
            scale: 1,
            vsync: true,
            quit_on_escape: false,
        }
    }

    /// Sets the window title.
    pub fn title(self, title: &'a str) -> (builder: ContextBuilder<'a>)
        ensures
            builder@ == (BuilderView { title: title@, ..self@ }),
    {
        let mut builder = self;
        builder.title = title;
        builder
    }

    /// Sets the logical size, in pixels.
    pub fn size(self, width: u32, height: u32) -> (builder: ContextBuilder<'a>)
        ensures
            builder@ == (BuilderView { width: width as nat, height: height as nat, ..self@ }),
    {
        let mut builder = self;
        builder.width = width;
        builder.height = height;
        builder
    }

    /// Sets the number of window pixels per logical pixel.
    pub fn scale(self, scale: u32) -> (builder: ContextBuilder<'a>)
        ensures
            builder@ == (BuilderView { scale: scale as nat, ..self@ }),
    {
        let mut builder = self;
        builder.scale = scale;
        builder
    }

    /// Sets whether frames wait for the display's refresh.
    pub fn vsync(self, vsync: bool) -> (builder: ContextBuilder<'a>)
        ensures
            builder@ == (BuilderView { vsync, ..self@ }),
    {
        let mut builder = self;
        builder.vsync = vsync;
        builder
    }

    /// Sets whether the escape key asks the loop to stop.
    pub fn quit_on_escape(self, quit_on_escape: bool) -> (builder: ContextBuilder<'a>)
        ensures
            builder@ == (BuilderView { quit_on_escape, ..self@ }),
    {
        let mut builder = self;
        builder.quit_on_escape = quit_on_escape;
        builder
    }

    /// What to ask the platform for: the title, the window's size (logical
    /// size times scale) and the vsync choice. A window with a side that does
    /// not fit in 32 bits cannot be created, and is refused here.
    pub fn window_settings(&self) -> (settings: Result<WindowSettings<'a>, TetraError>)
        ensures
            settings is Ok <==> self@.window_fits(),
            settings matches Ok(window) ==> {
                &&& window.title@ == self@.title
                &&& window.width == self@.window_width()
                &&& window.height == self@.window_height()
                &&& window.logical_width == self@.width
                &&& window.logical_height == self@.height
                &&& window.scale == self@.scale
                &&& window.vsync == self@.vsync
            },
            settings matches Err(error) ==> error is WindowCreation,
    {
        match (self.width.checked_mul(self.scale), self.height.checked_mul(self.scale)) {
            (Some(width), Some(height)) => Ok(
                WindowSettings {
                    title: self.title,
                    width,
                    height,
                    logical_width: self.width,
                    logical_height: self.height,
                    scale: self.scale,
                    vsync: self.vsync,
                },
            ),
            _ => Err(
                TetraError::at_step(StartupStep::Window, "window size out of range".to_string()),
            ),
        }
    }

    /// Wires the context around what platform start-up gave: its handles, or
    /// the reason it failed. On handles the context starts with every key
    /// up, the loop not yet running, and the default tick length; a failure
    /// is handed back as it came.
    pub fn build<P>(self, platform: Result<P, TetraError>) -> (built: Result<
        Context<P>,
        TetraError,
    >)
        ensures
            match platform {
                Ok(handles) => {
                    &&& built matches Ok(ctx)
                    &&& ctx.platform_handles() == handles
                    &&& ctx@ == (ContextView {
                        input: InputView::idle(),
                        running: false,
                        quit_on_escape: self@.quit_on_escape,
                        tick_nanos: DEFAULT_TICK_NANOS as nat,
                    })
                },
                Err(error) => built == Err::<Context<P>, TetraError>(error),
            },
    {
        match platform {
            Ok(handles) => Ok(
                Context {
                    platform: handles,
                    input: InputState::new(),
                    running: false,
                    quit_on_escape: self.quit_on_escape,
                    tick: TickLength::default_length(),
                },
            ),
            Err(error) => Err(error),
        }
    }
}

} // verus!
