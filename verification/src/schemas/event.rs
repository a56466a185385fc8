use vstd::prelude::*;
use core::cmp::Ordering;
use vstd::std_specs::cmp::PartialOrdSpecImpl;
use vstd::std_specs::convert::FromSpecImpl;

verus! {

broadcast use vstd::string::group_string_axioms;

/// How severe an event is; `Panic` is the most severe.
#[derive(Debug, Clone, PartialEq, Eq, Structural)]
pub enum LevelFilter {
    Panic,
    Error,
    Warn,
    Info,
    Debug,
    Trace,
}

/// The rank of a level: 0 for `Panic` up to 5 for `Trace`.
pub open spec fn level_rank(level: LevelFilter) -> u8 {
    match level {
        LevelFilter::Panic => 0,
        LevelFilter::Error => 1,
        LevelFilter::Warn => 2,
        LevelFilter::Info => 3,
        LevelFilter::Debug => 4,
        LevelFilter::Trace => 5,
    }
}

/// The name of a level.
pub open spec fn level_name(level: LevelFilter) -> Seq<char> {
    match level {
        LevelFilter::Panic => "Panic"@,
        LevelFilter::Error => "Error"@,
        LevelFilter::Warn => "Warn"@,
        LevelFilter::Info => "Info"@,
        LevelFilter::Debug => "Debug"@,
        LevelFilter::Trace => "Trace"@,
    }
}

/// Levels are ordered by their rank.
pub open spec fn rank_order(a: u8, b: u8) -> Option<Ordering> {
    if a < b {
        Some(Ordering::Less)
    } else if a == b {
        Some(Ordering::Equal)
    } else {
        Some(Ordering::Greater)
    }
}

impl LevelFilter {
    /// The name of the level.
    pub fn name(&self) -> (s: String)
        ensures
            s@ == level_name(*self),
    {
        match self {
            LevelFilter::Panic => "Panic".to_string(),
            LevelFilter::Error => "Error".to_string(),
            LevelFilter::Warn => "Warn".to_string(),
            LevelFilter::Info => "Info".to_string(),
            LevelFilter::Debug => "Debug".to_string(),
            LevelFilter::Trace => "Trace".to_string(),
        }
    }

    /// The rank of the level.
    pub fn rank(&self) -> (r: u8)
        ensures
            r == level_rank(*self),
    {
        match self {
            LevelFilter::Panic => 0,
            LevelFilter::Error => 1,
            LevelFilter::Warn => 2,
            LevelFilter::Info => 3,
            LevelFilter::Debug => 4,
            LevelFilter::Trace => 5,
        }
    }
}

impl<'a> From<&'a LevelFilter> for u8 {
    fn from(level: &'a LevelFilter) -> (r: u8) {
        level.rank()
    }
}

impl<'a> FromSpecImpl<&'a LevelFilter> for u8 {
    open spec fn obeys_from_spec() -> bool {
        true
    }

    open spec fn from_spec(level: &'a LevelFilter) -> u8 {
        level_rank(*level)
    }
}

impl PartialOrd for LevelFilter {
    fn partial_cmp(&self, other: &Self) -> (r: Option<Ordering>) {
        let a = self.rank();
        let b = other.rank();
        if a < b {
            Some(Ordering::Less)
        } else if a == b {
            Some(Ordering::Equal)
        } else {
            Some(Ordering::Greater)
        }
    }
}

impl PartialOrdSpecImpl for LevelFilter {
    open spec fn obeys_partial_cmp_spec() -> bool {
        true
    }

    open spec fn partial_cmp_spec(&self, other: &Self) -> Option<Ordering> {
        rank_order(level_rank(*self), level_rank(*other))
    }
}

/// A message reported by some part of the machine.
#[derive(Debug, Clone)]
pub struct Event {
    pub level: LevelFilter,
    pub source: String,
    pub message: String,
}

/// The events reported since they were last collected, oldest first.
pub struct EventBuffer {
    pub events: Vec<Event>,
}

/// The event a constructor builds.
pub open spec fn is_event(e: Event, level: LevelFilter, source: Seq<char>, message: Seq<char>) -> bool {
    e.level == level && e.source@ == source && e.message@ == message
}

impl Event {
    pub fn panic(source: &str, message: String) -> (e: Event)
        ensures
            is_event(e, LevelFilter::Panic, source@, message@),
    {
        Event { level: LevelFilter::Panic, source: source.to_string(), message }
    }

    pub fn error(source: &str, message: String) -> (e: Event)
        ensures
            is_event(e, LevelFilter::Error, source@, message@),
    {
        Event { level: LevelFilter::Error, source: source.to_string(), message }
    }

    pub fn warn(source: &str, message: String) -> (e: Event)
        ensures
            is_event(e, LevelFilter::Warn, source@, message@),
    {
        Event { level: LevelFilter::Warn, source: source.to_string(), message }
    }

    pub fn info(source: &str, message: String) -> (e: Event)
        ensures
            is_event(e, LevelFilter::Info, source@, message@),
    {
        Event { level: LevelFilter::Info, source: source.to_string(), message }
    }

    pub fn debug(source: &str, message: String) -> (e: Event)
        ensures
            is_event(e, LevelFilter::Debug, source@, message@),
    {
        Event { level: LevelFilter::Debug, source: source.to_string(), message }
    }

    pub fn trace(source: &str, message: String) -> (e: Event)
        ensures
            is_event(e, LevelFilter::Trace, source@, message@),
    {
        Event { level: LevelFilter::Trace, source: source.to_string(), message }
    }
}

/// The buffer after one event was recorded: everything before is kept, in order, and the
/// new event comes last.
pub open spec fn recorded(before: Seq<Event>, after: Seq<Event>, level: LevelFilter, source: Seq<char>, message: Seq<char>) -> bool {
    &&& after.len() == before.len() + 1
    &&& after.take(before.len() as int) == before
    &&& is_event(after.last(), level, source, message)
}

impl EventBuffer {
    pub fn new() -> (b: EventBuffer)
        ensures
            b.events@ == Seq::<Event>::empty(),
    {
        EventBuffer { events: Vec::new() }
    }

    pub fn push(&mut self, event: Event)
        ensures
            final(self).events@ == old(self).events@.push(event),
    {
        self.events.push(event);
    }

    pub fn panic(&mut self, source: &str, message: String)
        ensures
            recorded(old(self).events@, final(self).events@, LevelFilter::Panic, source@, message@),
    {
        self.push(Event::panic(source, message));
        proof { assert(final(self).events@.take(old(self).events@.len() as int) =~= old(self).events@); }
    }

    pub fn error(&mut self, source: &str, message: String)
        ensures
            recorded(old(self).events@, final(self).events@, LevelFilter::Error, source@, message@),
    {
        self.push(Event::error(source, message));
        proof { assert(final(self).events@.take(old(self).events@.len() as int) =~= old(self).events@); }
    }

    pub fn warn(&mut self, source: &str, message: String)
        ensures
            recorded(old(self).events@, final(self).events@, LevelFilter::Warn, source@, message@),
    {
        self.push(Event::warn(source, message));
        proof { assert(final(self).events@.take(old(self).events@.len() as int) =~= old(self).events@); }
    }

    pub fn info(&mut self, source: &str, message: String)
        ensures
            recorded(old(self).events@, final(self).events@, LevelFilter::Info, source@, message@),
    {
        self.push(Event::info(source, message));
        proof { assert(final(self).events@.take(old(self).events@.len() as int) =~= old(self).events@); }
    }

    pub fn debug(&mut self, source: &str, message: String)
        ensures
            recorded(old(self).events@, final(self).events@, LevelFilter::Debug, source@, message@),
    {
        self.push(Event::debug(source, message));
        proof { assert(final(self).events@.take(old(self).events@.len() as int) =~= old(self).events@); }
    }

    pub fn trace(&mut self, source: &str, message: String)
        ensures
            recorded(old(self).events@, final(self).events@, LevelFilter::Trace, source@, message@),
    {
        self.push(Event::trace(source, message));
        proof { assert(final(self).events@.take(old(self).events@.len() as int) =~= old(self).events@); }
    }
}

/// Levels run from the most severe to the least: panic, error, warning, info, debug, trace,
/// each ranked strictly below the next.
pub proof fn lemma_level_order()
    ensures
        level_rank(LevelFilter::Panic) < level_rank(LevelFilter::Error),
        level_rank(LevelFilter::Error) < level_rank(LevelFilter::Warn),
        level_rank(LevelFilter::Warn) < level_rank(LevelFilter::Info),
        level_rank(LevelFilter::Info) < level_rank(LevelFilter::Debug),
        level_rank(LevelFilter::Debug) < level_rank(LevelFilter::Trace),
        forall|a: LevelFilter, b: LevelFilter| level_rank(a) == level_rank(b) ==> a == b,
{
}

} // verus!
