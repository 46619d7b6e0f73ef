use vstd::prelude::*;

verus! {

/// Strength of a pending redraw request, ordered from weakest to strongest.
#[derive(Debug, Clone, Copy, PartialEq, Eq, Structural)]
pub enum InvalidationLevel {
    Nothing,
    Cursor,
    Light,
    Full,
}

impl InvalidationLevel {
    /// Position of the level in the order `Nothing < Cursor < Light < Full`.
    pub open spec fn rank(self) -> int {
        match self {
            InvalidationLevel::Nothing => 0,
            InvalidationLevel::Cursor => 1,
            InvalidationLevel::Light => 2,
            InvalidationLevel::Full => 3,
        }
    }
}

/// Subsystem that a redraw request is about.
#[derive(Debug, Clone, Copy, PartialEq, Eq, Structural)]
pub enum InvalidationTopic {
    General,
    Cursor,
    TimeScale,
    PriceScale,
    Series,
    PaneLayout,
    Style,
    Plugin,
    Axis,
}

/// A set of invalidation topics, one flag per topic.
#[derive(Debug, Clone, Copy, PartialEq, Eq, Structural)]
pub struct InvalidationTopics {
    general: bool,
    cursor: bool,
    time_scale: bool,
    price_scale: bool,
    series: bool,
    pane_layout: bool,
    style: bool,
    plugin: bool,
    axis: bool,
}

impl View for InvalidationTopics {
    type V = Set<InvalidationTopic>;

    closed spec fn view(&self) -> Set<InvalidationTopic> {
        Set::new(|t: InvalidationTopic| self.flag(t))
    }
}

impl InvalidationTopics {
    closed spec fn flag(self, topic: InvalidationTopic) -> bool {
        match topic {
            InvalidationTopic::General => self.general,
            InvalidationTopic::Cursor => self.cursor,
            InvalidationTopic::TimeScale => self.time_scale,
            InvalidationTopic::PriceScale => self.price_scale,
            InvalidationTopic::Series => self.series,
            InvalidationTopic::PaneLayout => self.pane_layout,
            InvalidationTopic::Style => self.style,
            InvalidationTopic::Plugin => self.plugin,
            InvalidationTopic::Axis => self.axis,
        }
    }

    /// The empty topic set.
    pub fn none() -> (r: InvalidationTopics)
        ensures
            r@ == Set::<InvalidationTopic>::empty(),
    {
        let r = InvalidationTopics {
            general: false,
            cursor: false,
            time_scale: false,
            price_scale: false,
            series: false,
            pane_layout: false,
            style: false,
            plugin: false,
            axis: false,
        };
        assert(r@ =~= Set::<InvalidationTopic>::empty());
        r
    }

    /// The set holding exactly `topic`.
    pub fn from_topic(topic: InvalidationTopic) -> (r: InvalidationTopics)
        ensures
            r@ == Set::<InvalidationTopic>::empty().insert(topic),
    {
        let r = InvalidationTopics::none().with_topic(topic);
        assert(r@ =~= Set::<InvalidationTopic>::empty().insert(topic));
        r
    }

    /// This set with `topic` added.
    pub fn with_topic(self, topic: InvalidationTopic) -> (r: InvalidationTopics)
        ensures
            r@ == self@.insert(topic),
    {
        let mut r = self;
        match topic {
            InvalidationTopic::General => r.general = true,
            InvalidationTopic::Cursor => r.cursor = true,
            InvalidationTopic::TimeScale => r.time_scale = true,
            InvalidationTopic::PriceScale => r.price_scale = true,
            InvalidationTopic::Series => r.series = true,
            InvalidationTopic::PaneLayout => r.pane_layout = true,
            InvalidationTopic::Style => r.style = true,
            InvalidationTopic::Plugin => r.plugin = true,
            InvalidationTopic::Axis => r.axis = true,
        }
        assert(r@ =~= self@.insert(topic));
        r
    }

    /// The union of two topic sets.
    pub fn union(self, other: InvalidationTopics) -> (r: InvalidationTopics)
        ensures
            r@ == self@.union(other@),
    {
        let r = InvalidationTopics {
            general: self.general || other.general,
            cursor: self.cursor || other.cursor,
            time_scale: self.time_scale || other.time_scale,
            price_scale: self.price_scale || other.price_scale,
            series: self.series || other.series,
            pane_layout: self.pane_layout || other.pane_layout,
            style: self.style || other.style,
            plugin: self.plugin || other.plugin,
            axis: self.axis || other.axis,
        };
        assert(r@ =~= self@.union(other@));
        r
    }

    /// Whether `topic` is in the set.
    pub fn contains_topic(self, topic: InvalidationTopic) -> (r: bool)
        ensures
            r == self@.contains(topic),
    {
        match topic {
            InvalidationTopic::General => self.general,
            InvalidationTopic::Cursor => self.cursor,
            InvalidationTopic::TimeScale => self.time_scale,
            InvalidationTopic::PriceScale => self.price_scale,
            InvalidationTopic::Series => self.series,
            InvalidationTopic::PaneLayout => self.pane_layout,
            InvalidationTopic::Style => self.style,
            InvalidationTopic::Plugin => self.plugin,
            InvalidationTopic::Axis => self.axis,
        }
    }
}

/// A pending redraw request of the chart API: a level and the topics it concerns.
#[derive(Debug, Clone, Copy, PartialEq, Eq, Structural)]
pub struct InvalidationMask {
    level: InvalidationLevel,
    topics: InvalidationTopics,
}

impl InvalidationMask {
    /// The level of the request.
    pub closed spec fn spec_level(self) -> InvalidationLevel {
        self.level
    }

    /// The topics of the request.
    pub closed spec fn spec_topics(self) -> Set<InvalidationTopic> {
        self.topics@
    }

    /// A request with the given level and topics.
    pub fn with_level_and_topics(level: InvalidationLevel, topics: InvalidationTopics) -> (m:
        InvalidationMask)
        ensures
            m.spec_level() == level,
            m.spec_topics() == topics@,
    {
        InvalidationMask { level, topics }
    }

    /// The empty request: nothing to redraw.
    pub fn none() -> (m: InvalidationMask)
        ensures
            m.spec_level() == InvalidationLevel::Nothing,
            m.spec_topics() == Set::<InvalidationTopic>::empty(),
    {
        InvalidationMask { level: InvalidationLevel::Nothing, topics: InvalidationTopics::none() }
    }

    /// A cursor-level request about the cursor.
    pub fn cursor() -> (m: InvalidationMask)
        ensures
            m.spec_level() == InvalidationLevel::Cursor,
            m.spec_topics() == Set::<InvalidationTopic>::empty().insert(InvalidationTopic::Cursor),
    {
        InvalidationMask {
            level: InvalidationLevel::Cursor,
            topics: InvalidationTopics::from_topic(InvalidationTopic::Cursor),
        }
    }

    /// A light-level general request.
    pub fn light() -> (m: InvalidationMask)
        ensures
            m.spec_level() == InvalidationLevel::Light,
            m.spec_topics() == Set::<InvalidationTopic>::empty().insert(InvalidationTopic::General),
    {
        InvalidationMask {
            level: InvalidationLevel::Light,
            topics: InvalidationTopics::from_topic(InvalidationTopic::General),
        }
    }

    /// A full general request.
    pub fn full() -> (m: InvalidationMask)
        ensures
            m.spec_level() == InvalidationLevel::Full,
            m.spec_topics() == Set::<InvalidationTopic>::empty().insert(InvalidationTopic::General),
    {
        InvalidationMask {
            level: InvalidationLevel::Full,
            topics: InvalidationTopics::from_topic(InvalidationTopic::General),
        }
    }

    /// The level of the request.
    pub fn level(self) -> (r: InvalidationLevel)
        ensures
            r == self.spec_level(),
    {
        self.level
    }

    /// The topics of the request.
    pub fn topics(self) -> (r: InvalidationTopics)
        ensures
            r@ == self.spec_topics(),
    {
        self.topics
    }

    /// Whether the request concerns `topic`.
    pub fn has_topic(self, topic: InvalidationTopic) -> (r: bool)
        ensures
            r == self.spec_topics().contains(topic),
    {
        self.topics.contains_topic(topic)
    }
}

} // verus!
