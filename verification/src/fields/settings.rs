//! The fields of the settings object.

use vstd::prelude::*;
use crate::text::{has_no_colon, is_plain, lemma_plain_text, str_eq};
use crate::fields::{Shape, Takes};

verus! {

/// A numeric field of the settings.
#[derive(Debug, Clone, Copy, PartialEq, Eq, Structural)]
pub enum SettingsAction {
    Version,
    BpmProject,
    SelectedTrack,
    SelectedPage,
    Mute,
    Unmute,
    FixedVelocityEnable,
    FixedVelocityAmount,
    SampleRecorderThr,
    SampleRecorderMonitorEnable,
}

impl SettingsAction {
    /// The word by which a command names this field.
    pub open spec fn name(self) -> Seq<char> {
        match self {
            Self::Version => "version"@,
            Self::BpmProject => "projectbpm"@,
            Self::SelectedTrack => "selectedtrack"@,
            Self::SelectedPage => "selectedpage"@,
            Self::Mute => "mute"@,
            Self::Unmute => "unmute"@,
            Self::FixedVelocityEnable => "fixedvelocity"@,
            Self::FixedVelocityAmount => "fixedvelocityamt"@,
            Self::SampleRecorderThr => "samplerecorderthr"@,
            Self::SampleRecorderMonitorEnable => "samplerecordermon"@,
        }
    }

    /// Whether a word names one of these.
    pub open spec fn known(s: Seq<char>) -> bool {
        exists|f: Self| f.name() == s
    }

    /// The word by which a command names this field.
    pub fn as_str(self) -> (r: &'static str)
        ensures
            r@ == self.name(),
    {
        match self {
            Self::Version => "version",
            Self::BpmProject => "projectbpm",
            Self::SelectedTrack => "selectedtrack",
            Self::SelectedPage => "selectedpage",
            Self::Mute => "mute",
            Self::Unmute => "unmute",
            Self::FixedVelocityEnable => "fixedvelocity",
            Self::FixedVelocityAmount => "fixedvelocityamt",
            Self::SampleRecorderThr => "samplerecorderthr",
            Self::SampleRecorderMonitorEnable => "samplerecordermon",
        }
    }

    /// The field a word names, if it names one.
    pub open spec fn named(s: Seq<char>) -> Option<Self> {
        if Self::known(s) {
            Some(choose|f: Self| f.name() == s)
        } else {
            None
        }
    }

    /// Looks a word up: the field that carries it, if there is one.
    pub fn from_name(s: &str) -> (r: Option<Self>)
        ensures
            r == Self::named(s@),
    {
        let r = if str_eq(s, "version") {
            Some(Self::Version)
        } else if str_eq(s, "projectbpm") {
            Some(Self::BpmProject)
        } else if str_eq(s, "selectedtrack") {
            Some(Self::SelectedTrack)
        } else if str_eq(s, "selectedpage") {
            Some(Self::SelectedPage)
        } else if str_eq(s, "mute") {
            Some(Self::Mute)
        } else if str_eq(s, "unmute") {
            Some(Self::Unmute)
        } else if str_eq(s, "fixedvelocity") {
            Some(Self::FixedVelocityEnable)
        } else if str_eq(s, "fixedvelocityamt") {
            Some(Self::FixedVelocityAmount)
        } else if str_eq(s, "samplerecorderthr") {
            Some(Self::SampleRecorderThr)
        } else if str_eq(s, "samplerecordermon") {
            Some(Self::SampleRecorderMonitorEnable)
        } else {
            None
        };
        proof {
            if let Some(f) = r {
                assert(f.name() == s@);
                Self::names_are_distinct(choose|g: Self| g.name() == s@, f);
            } else {
                assert forall|f: Self| f.name() != s@ by {}
            }
        }
        r
    }

    /// A field's own word names it and nothing else.
    pub proof fn named_by_its_name(self)
        ensures
            Self::named(self.name()) == Some(self),
    {
        assert(Self::known(self.name()));
        Self::names_are_distinct(choose|g: Self| g.name() == self.name(), self);
    }

    /// No two of these share a word, so a word names at most one field.
    pub proof fn names_are_distinct(a: Self, b: Self)
        requires
            a.name() == b.name(),
        ensures
            a == b,
    {
        reveal_strlit("version");
        reveal_strlit("projectbpm");
        reveal_strlit("selectedtrack");
        reveal_strlit("selectedpage");
        reveal_strlit("mute");
        reveal_strlit("unmute");
        reveal_strlit("fixedvelocity");
        reveal_strlit("fixedvelocityamt");
        reveal_strlit("samplerecorderthr");
        reveal_strlit("samplerecordermon");
        assert("version"@.len() == 7);
        assert("projectbpm"@.len() == 10);
        assert("selectedtrack"@.len() == 13 && "selectedtrack"@[0] == 's');
        assert("selectedpage"@.len() == 12);
        assert("mute"@.len() == 4);
        assert("unmute"@.len() == 6);
        assert("fixedvelocity"@.len() == 13 && "fixedvelocity"@[0] == 'f');
        assert("fixedvelocityamt"@.len() == 16);
        assert("samplerecorderthr"@.len() == 17 && "samplerecorderthr"@[14] == 't');
        assert("samplerecordermon"@.len() == 17 && "samplerecordermon"@[14] == 'm');
    }

    /// The word holds no colon, so it is never mistaken for an enum reference.
    pub proof fn name_is_plain(self)
        ensures
            is_plain(self.name()),
    {
        reveal_with_fuel(has_no_colon, 32);
        reveal_strlit("version");
        reveal_strlit("projectbpm");
        reveal_strlit("selectedtrack");
        reveal_strlit("selectedpage");
        reveal_strlit("mute");
        reveal_strlit("unmute");
        reveal_strlit("fixedvelocity");
        reveal_strlit("fixedvelocityamt");
        reveal_strlit("samplerecorderthr");
        reveal_strlit("samplerecordermon");
        assert(has_no_colon("version"@, 7));
        assert(has_no_colon("projectbpm"@, 10));
        assert(has_no_colon("selectedtrack"@, 13));
        assert(has_no_colon("selectedpage"@, 12));
        assert(has_no_colon("mute"@, 4));
        assert(has_no_colon("unmute"@, 6));
        assert(has_no_colon("fixedvelocity"@, 13));
        assert(has_no_colon("fixedvelocityamt"@, 16));
        assert(has_no_colon("samplerecorderthr"@, 17));
        assert(has_no_colon("samplerecordermon"@, 17));
        lemma_plain_text(self.name());
    }

    /// How the field is read, if it can be read at all.
    pub open spec fn spec_reads(self) -> Option<Shape> {
        match self {
            Self::Version | Self::Unmute => None,
            Self::BpmProject | Self::SelectedTrack | Self::SelectedPage
            | Self::FixedVelocityEnable | Self::FixedVelocityAmount | Self::SampleRecorderThr
            | Self::SampleRecorderMonitorEnable => Some(Shape::Plain),
            Self::Mute => Some(Shape::Slotted),
        }
    }

    /// How the field is read, if it can be read at all.
    #[verifier::when_used_as_spec(spec_reads)]
    pub fn reads(self) -> (r: Option<Shape>)
        ensures
            r == self.spec_reads(),
    {
        match self {
            Self::Version | Self::Unmute => None,
            Self::BpmProject | Self::SelectedTrack | Self::SelectedPage
            | Self::FixedVelocityEnable | Self::FixedVelocityAmount | Self::SampleRecorderThr
            | Self::SampleRecorderMonitorEnable => Some(Shape::Plain),
            Self::Mute => Some(Shape::Slotted),
        }
    }

    /// What the field takes when it is written, if it can be written at all.
    pub open spec fn spec_writes(self) -> Option<Takes> {
        match self {
            Self::Version => None,
            Self::BpmProject => Some(Takes::Real),
            Self::SelectedTrack | Self::SelectedPage | Self::Mute | Self::Unmute
            | Self::FixedVelocityAmount | Self::SampleRecorderThr => Some(Takes::Unsigned),
            Self::FixedVelocityEnable | Self::SampleRecorderMonitorEnable => Some(Takes::Flag),
        }
    }

    /// What the field takes when it is written, if it can be written at all.
    #[verifier::when_used_as_spec(spec_writes)]
    pub fn writes(self) -> (r: Option<Takes>)
        ensures
            r == self.spec_writes(),
    {
        match self {
            Self::Version => None,
            Self::BpmProject => Some(Takes::Real),
            Self::SelectedTrack | Self::SelectedPage | Self::Mute | Self::Unmute
            | Self::FixedVelocityAmount | Self::SampleRecorderThr => Some(Takes::Unsigned),
            Self::FixedVelocityEnable | Self::SampleRecorderMonitorEnable => Some(Takes::Flag),
        }
    }
}

/// A field of the settings that holds a named variant.
#[derive(Debug, Clone, Copy, PartialEq, Eq, Structural)]
pub enum SettingsEnum {
    ParameterMenuItem,
    FxParameterMenuItem,
    SequencerMode,
    PatternMode,
    SampleRecorderSource,
    SampleRecorderRecordingLength,
}

impl SettingsEnum {
    /// The word by which a command names this field.
    pub open spec fn name(self) -> Seq<char> {
        match self {
            Self::ParameterMenuItem => "parametermenuitem"@,
            Self::FxParameterMenuItem => "fxparametermenuitem"@,
            Self::SequencerMode => "sequencermode"@,
            Self::PatternMode => "patternmode"@,
            Self::SampleRecorderSource => "samplerecordersrc"@,
            Self::SampleRecorderRecordingLength => "samplerecorderrecordinglen"@,
        }
    }

    /// Whether a word names one of these.
    pub open spec fn known(s: Seq<char>) -> bool {
        exists|f: Self| f.name() == s
    }

    /// The word by which a command names this field.
    pub fn as_str(self) -> (r: &'static str)
        ensures
            r@ == self.name(),
    {
        match self {
            Self::ParameterMenuItem => "parametermenuitem",
            Self::FxParameterMenuItem => "fxparametermenuitem",
            Self::SequencerMode => "sequencermode",
            Self::PatternMode => "patternmode",
            Self::SampleRecorderSource => "samplerecordersrc",
            Self::SampleRecorderRecordingLength => "samplerecorderrecordinglen",
        }
    }

    /// The field a word names, if it names one.
    pub open spec fn named(s: Seq<char>) -> Option<Self> {
        if Self::known(s) {
            Some(choose|f: Self| f.name() == s)
        } else {
            None
        }
    }

    /// Looks a word up: the field that carries it, if there is one.
    pub fn from_name(s: &str) -> (r: Option<Self>)
        ensures
            r == Self::named(s@),
    {
        let r = if str_eq(s, "parametermenuitem") {
            Some(Self::ParameterMenuItem)
        } else if str_eq(s, "fxparametermenuitem") {
            Some(Self::FxParameterMenuItem)
        } else if str_eq(s, "sequencermode") {
            Some(Self::SequencerMode)
        } else if str_eq(s, "patternmode") {
            Some(Self::PatternMode)
        } else if str_eq(s, "samplerecordersrc") {
            Some(Self::SampleRecorderSource)
        } else if str_eq(s, "samplerecorderrecordinglen") {
            Some(Self::SampleRecorderRecordingLength)
        } else {
            None
        };
        proof {
            if let Some(f) = r {
                assert(f.name() == s@);
                Self::names_are_distinct(choose|g: Self| g.name() == s@, f);
            } else {
                assert forall|f: Self| f.name() != s@ by {}
            }
        }
        r
    }

    /// A field's own word names it and nothing else.
    pub proof fn named_by_its_name(self)
        ensures
            Self::named(self.name()) == Some(self),
    {
        assert(Self::known(self.name()));
        Self::names_are_distinct(choose|g: Self| g.name() == self.name(), self);
    }

    /// No two of these share a word, so a word names at most one field.
    pub proof fn names_are_distinct(a: Self, b: Self)
        requires
            a.name() == b.name(),
        ensures
            a == b,
    {
        reveal_strlit("parametermenuitem");
        reveal_strlit("fxparametermenuitem");
        reveal_strlit("sequencermode");
        reveal_strlit("patternmode");
        reveal_strlit("samplerecordersrc");
        reveal_strlit("samplerecorderrecordinglen");
        assert("parametermenuitem"@.len() == 17 && "parametermenuitem"@[0] == 'p');
        assert("fxparametermenuitem"@.len() == 19);
        assert("sequencermode"@.len() == 13);
        assert("patternmode"@.len() == 11);
        assert("samplerecordersrc"@.len() == 17 && "samplerecordersrc"@[0] == 's');
        assert("samplerecorderrecordinglen"@.len() == 26);
    }

    /// The word holds no colon, so it is never mistaken for an enum reference.
    pub proof fn name_is_plain(self)
        ensures
            is_plain(self.name()),
    {
        reveal_with_fuel(has_no_colon, 32);
        reveal_strlit("parametermenuitem");
        reveal_strlit("fxparametermenuitem");
        reveal_strlit("sequencermode");
        reveal_strlit("patternmode");
        reveal_strlit("samplerecordersrc");
        reveal_strlit("samplerecorderrecordinglen");
        assert(has_no_colon("parametermenuitem"@, 17));
        assert(has_no_colon("fxparametermenuitem"@, 19));
        assert(has_no_colon("sequencermode"@, 13));
        assert(has_no_colon("patternmode"@, 11));
        assert(has_no_colon("samplerecordersrc"@, 17));
        assert(has_no_colon("samplerecorderrecordinglen"@, 26));
        lemma_plain_text(self.name());
    }

    /// How the field is read, if it can be read at all.
    pub open spec fn spec_reads(self) -> Option<Shape> {
        match self {
            Self::ParameterMenuItem | Self::FxParameterMenuItem | Self::SequencerMode
            | Self::PatternMode | Self::SampleRecorderSource
            | Self::SampleRecorderRecordingLength => Some(Shape::Plain),
        }
    }

    /// How the field is read, if it can be read at all.
    #[verifier::when_used_as_spec(spec_reads)]
    pub fn reads(self) -> (r: Option<Shape>)
        ensures
            r == self.spec_reads(),
    {
        match self {
            Self::ParameterMenuItem | Self::FxParameterMenuItem | Self::SequencerMode
            | Self::PatternMode | Self::SampleRecorderSource
            | Self::SampleRecorderRecordingLength => Some(Shape::Plain),
        }
    }

    /// How the field is written, if it can be written at all.
    pub open spec fn spec_writes(self) -> Option<Shape> {
        match self {
            Self::ParameterMenuItem | Self::FxParameterMenuItem | Self::SequencerMode
            | Self::PatternMode | Self::SampleRecorderSource
            | Self::SampleRecorderRecordingLength => Some(Shape::Plain),
        }
    }

    /// How the field is written, if it can be written at all.
    #[verifier::when_used_as_spec(spec_writes)]
    pub fn writes(self) -> (r: Option<Shape>)
        ensures
            r == self.spec_writes(),
    {
        match self {
            Self::ParameterMenuItem | Self::FxParameterMenuItem | Self::SequencerMode
            | Self::PatternMode | Self::SampleRecorderSource
            | Self::SampleRecorderRecordingLength => Some(Shape::Plain),
        }
    }
}

} // verus!
