//! The settings of the structured log.

use vstd::prelude::*;

verus! {

/// The most verbose level that is logged.
#[derive(Clone, Copy, Debug, PartialEq, Eq, Structural)]
pub enum LevelFilter {
    Off,
    Error,
    Warn,
    Info,
    Debug,
    Trace,
}

impl LevelFilter {
    pub const OFF: LevelFilter = LevelFilter::Off;

    pub const ERROR: LevelFilter = LevelFilter::Error;

    pub const WARN: LevelFilter = LevelFilter::Warn;

    pub const INFO: LevelFilter = LevelFilter::Info;

    pub const DEBUG: LevelFilter = LevelFilter::Debug;

    pub const TRACE: LevelFilter = LevelFilter::Trace;
}

/// The moments of a span's life at which a line is logged.
#[derive(Clone, Copy, Debug, PartialEq, Eq, Structural)]
pub struct SpanEvents {
    pub enter: bool,
    pub exit: bool,
    pub close: bool,
}

/// Collects the settings of the log.
#[derive(Clone, Copy, Debug, PartialEq, Eq, Structural)]
pub struct Builder {
    pub level: LevelFilter,
    pub span_events: bool,
    pub file: bool,
    pub flatten_event: bool,
    pub target: bool,
    pub span_list: bool,
    pub thread_names: bool,
    pub thread_ids: bool,
}

impl Builder {
    /// The settings that a builder begins with: level `Info`, and every
    /// switch on.
    pub open spec fn initial() -> Builder {
        Builder {
            level: LevelFilter::Info,
            span_events: true,
            file: true,
            flatten_event: true,
            target: true,
            span_list: true,
            thread_names: true,
            thread_ids: true,
        }
    }

    /// A builder with the settings of [`Builder::initial`].
    pub fn new() -> (builder: Builder)
        ensures
            builder == Builder::initial(),
    {
        Self::default()
    }

    /// Sets the most verbose level that is logged.
    pub fn with_level(&mut self, level: LevelFilter) -> (builder: &mut Self)
        ensures
            *builder == (Builder { level, ..*old(self) }),
            *final(self) == *final(builder),
    {
        self.level = level;
        self
    }

    /// Sets whether entering, leaving and closing a span is logged.
    pub fn with_span_events(&mut self, span_events: bool) -> (builder: &mut Self)
        ensures
            *builder == (Builder { span_events, ..*old(self) }),
            *final(self) == *final(builder),
    {
        self.span_events = span_events;
        self
    }

    /// Sets whether a line names the source file it comes from.
    pub fn with_file(&mut self, file: bool) -> (builder: &mut Self)
        ensures
            *builder == (Builder { file, ..*old(self) }),
            *final(self) == *final(builder),
    {
        self.file = file;
        self
    }

    /// Sets whether an event's fields stand at the top level of its line.
    pub fn with_flatten_event(&mut self, flatten_event: bool) -> (builder: &mut Self)
        ensures
            *builder == (Builder { flatten_event, ..*old(self) }),
            *final(self) == *final(builder),
    {
        self.flatten_event = flatten_event;
        self
    }

    /// Sets whether a line names the target of its event.
    pub fn with_target(&mut self, target: bool) -> (builder: &mut Self)
        ensures
            *builder == (Builder { target, ..*old(self) }),
            *final(self) == *final(builder),
    {
        self.target = target;
        self
    }

    /// Sets whether a line lists the spans it was logged in.
    pub fn with_span_list(&mut self, span_list: bool) -> (builder: &mut Self)
        ensures
            *builder == (Builder { span_list, ..*old(self) }),
            *final(self) == *final(builder),
    {
        self.span_list = span_list;
        self
    }

    /// Sets whether a line names the thread it was logged on.
    pub fn with_thread_names(&mut self, thread_names: bool) -> (builder: &mut Self)
        ensures
            *builder == (Builder { thread_names, ..*old(self) }),
            *final(self) == *final(builder),
    {
        self.thread_names = thread_names;
        self
    }

    /// Sets whether a line gives the id of the thread it was logged on.
    pub fn with_thread_ids(&mut self, thread_ids: bool) -> (builder: &mut Self)
        ensures
            *builder == (Builder { thread_ids, ..*old(self) }),
            *final(self) == *final(builder),
    {
        self.thread_ids = thread_ids;
        self
    }

    /// The moments of a span's life that are logged: all three where span
    /// events are on, none where they are off.
    pub fn span_event_kinds(&self) -> (kinds: SpanEvents)
        ensures
            kinds == (SpanEvents {
                enter: self.span_events,
                exit: self.span_events,
                close: self.span_events,
            }),
    {
        if self.span_events {
            SpanEvents { enter: true, exit: true, close: true }
        } else {
            SpanEvents { enter: false, exit: false, close: false }
        }
    }
}

impl Default for Builder {
    /// The settings of [`Builder::initial`].
    fn default() -> (builder: Builder)
        ensures
            builder == Builder::initial(),
    {
        Builder {
            level: LevelFilter::Info,
            span_events: true,
            thread_ids: true,
            thread_names: true,
            span_list: true,
            target: true,
            flatten_event: true,
            file: true,
        }
    }
}

/// The entry to the log's settings.
pub struct Logger {}

impl Logger {
    /// A builder with the settings of [`Builder::initial`].
    pub fn builder() -> (builder: Builder)
        ensures
            builder == Builder::initial(),
    {
        Builder::default()
    }
}

} // verus!
