//! The fields of a pattern, of its tracks and of their trigs.

use vstd::prelude::*;
use crate::text::{has_no_colon, is_plain, lemma_plain_text, str_eq};
use crate::fields::{Shape, Takes};

verus! {

/// A numeric field of a pattern.
#[derive(Debug, Clone, Copy, PartialEq, Eq, Structural)]
pub enum PatternAction {
    IsWorkBuffer,
    Index,
    Version,
    MasterLength,
    MasterChange,
    KitNumber,
    SwingAmount,
    GlobalQuantize,
    Bpm,
}

impl PatternAction {
    /// The word by which a command names this field.
    pub open spec fn name(self) -> Seq<char> {
        match self {
            Self::IsWorkBuffer => "iswb"@,
            Self::Index => "index"@,
            Self::Version => "version"@,
            Self::MasterLength => "masterlen"@,
            Self::MasterChange => "masterchg"@,
            Self::KitNumber => "kitnumber"@,
            Self::SwingAmount => "swingamount"@,
            Self::GlobalQuantize => "globalquantize"@,
            Self::Bpm => "patternbpm"@,
        }
    }

    /// Whether a word names one of these.
    pub open spec fn known(s: Seq<char>) -> bool {
        exists|f: Self| f.name() == s
    }

    /// The word by which a command names this field.
    pub fn as_str(self) -> (r: &'static str)
        ensures
            r@ == self.name(),
    {
        match self {
            Self::IsWorkBuffer => "iswb",
            Self::Index => "index",
            Self::Version => "version",
            Self::MasterLength => "masterlen",
            Self::MasterChange => "masterchg",
            Self::KitNumber => "kitnumber",
            Self::SwingAmount => "swingamount",
            Self::GlobalQuantize => "globalquantize",
            Self::Bpm => "patternbpm",
        }
    }

    /// The field a word names, if it names one.
    pub open spec fn named(s: Seq<char>) -> Option<Self> {
        if Self::known(s) {
            Some(choose|f: Self| f.name() == s)
        } else {
            None
        }
    }

    /// Looks a word up: the field that carries it, if there is one.
    pub fn from_name(s: &str) -> (r: Option<Self>)
        ensures
            r == Self::named(s@),
    {
        let r = if str_eq(s, "iswb") {
            Some(Self::IsWorkBuffer)
        } else if str_eq(s, "index") {
            Some(Self::Index)
        } else if str_eq(s, "version") {
            Some(Self::Version)
        } else if str_eq(s, "masterlen") {
            Some(Self::MasterLength)
        } else if str_eq(s, "masterchg") {
            Some(Self::MasterChange)
        } else if str_eq(s, "kitnumber") {
            Some(Self::KitNumber)
        } else if str_eq(s, "swingamount") {
            Some(Self::SwingAmount)
        } else if str_eq(s, "globalquantize") {
            Some(Self::GlobalQuantize)
        } else if str_eq(s, "patternbpm") {
            Some(Self::Bpm)
        } else {
            None
        };
        proof {
            if let Some(f) = r {
                assert(f.name() == s@);
                Self::names_are_distinct(choose|g: Self| g.name() == s@, f);
            } else {
                assert forall|f: Self| f.name() != s@ by {}
            }
        }
        r
    }

    /// A field's own word names it and nothing else.
    pub proof fn named_by_its_name(self)
        ensures
            Self::named(self.name()) == Some(self),
    {
        assert(Self::known(self.name()));
        Self::names_are_distinct(choose|g: Self| g.name() == self.name(), self);
    }

    /// No two of these share a word, so a word names at most one field.
    pub proof fn names_are_distinct(a: Self, b: Self)
        requires
            a.name() == b.name(),
        ensures
            a == b,
    {
        reveal_strlit("iswb");
        reveal_strlit("index");
        reveal_strlit("version");
        reveal_strlit("masterlen");
        reveal_strlit("masterchg");
        reveal_strlit("kitnumber");
        reveal_strlit("swingamount");
        reveal_strlit("globalquantize");
        reveal_strlit("patternbpm");
        assert("iswb"@.len() == 4);
        assert("index"@.len() == 5);
        assert("version"@.len() == 7);
        assert("masterlen"@.len() == 9 && "masterlen"@[6] == 'l');
        assert("masterchg"@.len() == 9 && "masterchg"@[6] == 'c');
        assert("kitnumber"@.len() == 9 && "kitnumber"@[6] == 'b');
        assert("swingamount"@.len() == 11);
        assert("globalquantize"@.len() == 14);
        assert("patternbpm"@.len() == 10);
    }

    /// The word holds no colon, so it is never mistaken for an enum reference.
    pub proof fn name_is_plain(self)
        ensures
            is_plain(self.name()),
    {
        reveal_with_fuel(has_no_colon, 32);
        reveal_strlit("iswb");
        reveal_strlit("index");
        reveal_strlit("version");
        reveal_strlit("masterlen");
        reveal_strlit("masterchg");
        reveal_strlit("kitnumber");
        reveal_strlit("swingamount");
        reveal_strlit("globalquantize");
        reveal_strlit("patternbpm");
        assert(has_no_colon("iswb"@, 4));
        assert(has_no_colon("index"@, 5));
        assert(has_no_colon("version"@, 7));
        assert(has_no_colon("masterlen"@, 9));
        assert(has_no_colon("masterchg"@, 9));
        assert(has_no_colon("kitnumber"@, 9));
        assert(has_no_colon("swingamount"@, 11));
        assert(has_no_colon("globalquantize"@, 14));
        assert(has_no_colon("patternbpm"@, 10));
        lemma_plain_text(self.name());
    }

    /// How the field is read, if it can be read at all.
    pub open spec fn spec_reads(self) -> Option<Shape> {
        match self {
            Self::IsWorkBuffer | Self::Index | Self::Version | Self::MasterLength
            | Self::MasterChange | Self::KitNumber | Self::SwingAmount | Self::GlobalQuantize
            | Self::Bpm => Some(Shape::Plain),
        }
    }

    /// How the field is read, if it can be read at all.
    #[verifier::when_used_as_spec(spec_reads)]
    pub fn reads(self) -> (r: Option<Shape>)
        ensures
            r == self.spec_reads(),
    {
        match self {
            Self::IsWorkBuffer | Self::Index | Self::Version | Self::MasterLength
            | Self::MasterChange | Self::KitNumber | Self::SwingAmount | Self::GlobalQuantize
            | Self::Bpm => Some(Shape::Plain),
        }
    }

    /// What the field takes when it is written, if it can be written at all.
    pub open spec fn spec_writes(self) -> Option<Takes> {
        match self {
            Self::IsWorkBuffer | Self::Index | Self::Version => None,
            Self::MasterLength | Self::MasterChange | Self::KitNumber | Self::SwingAmount
            | Self::GlobalQuantize => Some(Takes::Unsigned),
            Self::Bpm => Some(Takes::Real),
        }
    }

    /// What the field takes when it is written, if it can be written at all.
    #[verifier::when_used_as_spec(spec_writes)]
    pub fn writes(self) -> (r: Option<Takes>)
        ensures
            r == self.spec_writes(),
    {
        match self {
            Self::IsWorkBuffer | Self::Index | Self::Version => None,
            Self::MasterLength | Self::MasterChange | Self::KitNumber | Self::SwingAmount
            | Self::GlobalQuantize => Some(Takes::Unsigned),
            Self::Bpm => Some(Takes::Real),
        }
    }
}

/// A field of a pattern that holds one of a closed set of named variants.
#[derive(Debug, Clone, Copy, PartialEq, Eq, Structural)]
pub enum PatternEnum {
    Speed,
    TimeMode,
}

impl PatternEnum {
    /// The word by which a command names this field.
    pub open spec fn name(self) -> Seq<char> {
        match self {
            Self::Speed => "speed"@,
            Self::TimeMode => "timemode"@,
        }
    }

    /// Whether a word names one of these.
    pub open spec fn known(s: Seq<char>) -> bool {
        exists|f: Self| f.name() == s
    }

    /// The word by which a command names this field.
    pub fn as_str(self) -> (r: &'static str)
        ensures
            r@ == self.name(),
    {
        match self {
            Self::Speed => "speed",
            Self::TimeMode => "timemode",
        }
    }

    /// The field a word names, if it names one.
    pub open spec fn named(s: Seq<char>) -> Option<Self> {
        if Self::known(s) {
            Some(choose|f: Self| f.name() == s)
        } else {
            None
        }
    }

    /// Looks a word up: the field that carries it, if there is one.
    pub fn from_name(s: &str) -> (r: Option<Self>)
        ensures
            r == Self::named(s@),
    {
        let r = if str_eq(s, "speed") {
            Some(Self::Speed)
        } else if str_eq(s, "timemode") {
            Some(Self::TimeMode)
        } else {
            None
        };
        proof {
            if let Some(f) = r {
                assert(f.name() == s@);
                Self::names_are_distinct(choose|g: Self| g.name() == s@, f);
            } else {
                assert forall|f: Self| f.name() != s@ by {}
            }
        }
        r
    }

    /// A field's own word names it and nothing else.
    pub proof fn named_by_its_name(self)
        ensures
            Self::named(self.name()) == Some(self),
    {
        assert(Self::known(self.name()));
        Self::names_are_distinct(choose|g: Self| g.name() == self.name(), self);
    }

    /// No two of these share a word, so a word names at most one field.
    pub proof fn names_are_distinct(a: Self, b: Self)
        requires
            a.name() == b.name(),
        ensures
            a == b,
    {
        reveal_strlit("speed");
        reveal_strlit("timemode");
        assert("speed"@.len() == 5);
        assert("timemode"@.len() == 8);
    }

    /// The word holds no colon, so it is never mistaken for an enum reference.
    pub proof fn name_is_plain(self)
        ensures
            is_plain(self.name()),
    {
        reveal_with_fuel(has_no_colon, 32);
        reveal_strlit("speed");
        reveal_strlit("timemode");
        assert(has_no_colon("speed"@, 5));
        assert(has_no_colon("timemode"@, 8));
        lemma_plain_text(self.name());
    }

    /// How the field is read, if it can be read at all.
    pub open spec fn spec_reads(self) -> Option<Shape> {
        match self {
            Self::Speed | Self::TimeMode => Some(Shape::Plain),
        }
    }

    /// How the field is read, if it can be read at all.
    #[verifier::when_used_as_spec(spec_reads)]
    pub fn reads(self) -> (r: Option<Shape>)
        ensures
            r == self.spec_reads(),
    {
        match self {
            Self::Speed | Self::TimeMode => Some(Shape::Plain),
        }
    }

    /// How the field is written, if it can be written at all.
    pub open spec fn spec_writes(self) -> Option<Shape> {
        match self {
            Self::Speed | Self::TimeMode => Some(Shape::Plain),
        }
    }

    /// How the field is written, if it can be written at all.
    #[verifier::when_used_as_spec(spec_writes)]
    pub fn writes(self) -> (r: Option<Shape>)
        ensures
            r == self.spec_writes(),
    {
        match self {
            Self::Speed | Self::TimeMode => Some(Shape::Plain),
        }
    }
}

/// A numeric field of a track.
#[derive(Debug, Clone, Copy, PartialEq, Eq, Structural)]
pub enum TrackAction {
    IsWorkBuffer,
    OwnerIndex,
    Index,
    DefTrigNote,
    DefTrigVelocity,
    DefTrigProb,
    NumberOfSteps,
    QuantizeAmount,
    SendsMidi,
    EuclideanMode,
    EuclideanPl1,
    EuclideanPl2,
    EuclideanRo1,
    EuclideanRo2,
    EuclideanTro,
}

impl TrackAction {
    /// The word by which a command names this field.
    pub open spec fn name(self) -> Seq<char> {
        match self {
            Self::IsWorkBuffer => "iswb"@,
            Self::OwnerIndex => "parentindex"@,
            Self::Index => "index"@,
            Self::DefTrigNote => "deftrignote"@,
            Self::DefTrigVelocity => "deftrigvel"@,
            Self::DefTrigProb => "deftrigprob"@,
            Self::NumberOfSteps => "steps"@,
            Self::QuantizeAmount => "quantizeamount"@,
            Self::SendsMidi => "sendsmidi"@,
            Self::EuclideanMode => "euc"@,
            Self::EuclideanPl1 => "pl1"@,
            Self::EuclideanPl2 => "pl2"@,
            Self::EuclideanRo1 => "ro1"@,
            Self::EuclideanRo2 => "ro2"@,
            Self::EuclideanTro => "tro"@,
        }
    }

    /// Whether a word names one of these.
    pub open spec fn known(s: Seq<char>) -> bool {
        exists|f: Self| f.name() == s
    }

    /// The word by which a command names this field.
    pub fn as_str(self) -> (r: &'static str)
        ensures
            r@ == self.name(),
    {
        match self {
            Self::IsWorkBuffer => "iswb",
            Self::OwnerIndex => "parentindex",
            Self::Index => "index",
            Self::DefTrigNote => "deftrignote",
            Self::DefTrigVelocity => "deftrigvel",
            Self::DefTrigProb => "deftrigprob",
            Self::NumberOfSteps => "steps",
            Self::QuantizeAmount => "quantizeamount",
            Self::SendsMidi => "sendsmidi",
            Self::EuclideanMode => "euc",
            Self::EuclideanPl1 => "pl1",
            Self::EuclideanPl2 => "pl2",
            Self::EuclideanRo1 => "ro1",
            Self::EuclideanRo2 => "ro2",
            Self::EuclideanTro => "tro",
        }
    }

    /// The field a word names, if it names one.
    pub open spec fn named(s: Seq<char>) -> Option<Self> {
        if Self::known(s) {
            Some(choose|f: Self| f.name() == s)
        } else {
            None
        }
    }

    /// Looks a word up: the field that carries it, if there is one.
    pub fn from_name(s: &str) -> (r: Option<Self>)
        ensures
            r == Self::named(s@),
    {
        let r = if str_eq(s, "iswb") {
            Some(Self::IsWorkBuffer)
        } else if str_eq(s, "parentindex") {
            Some(Self::OwnerIndex)
        } else if str_eq(s, "index") {
            Some(Self::Index)
        } else if str_eq(s, "deftrignote") {
            Some(Self::DefTrigNote)
        } else if str_eq(s, "deftrigvel") {
            Some(Self::DefTrigVelocity)
        } else if str_eq(s, "deftrigprob") {
            Some(Self::DefTrigProb)
        } else if str_eq(s, "steps") {
            Some(Self::NumberOfSteps)
        } else if str_eq(s, "quantizeamount") {
            Some(Self::QuantizeAmount)
        } else if str_eq(s, "sendsmidi") {
            Some(Self::SendsMidi)
        } else if str_eq(s, "euc") {
            Some(Self::EuclideanMode)
        } else if str_eq(s, "pl1") {
            Some(Self::EuclideanPl1)
        } else if str_eq(s, "pl2") {
            Some(Self::EuclideanPl2)
        } else if str_eq(s, "ro1") {
            Some(Self::EuclideanRo1)
        } else if str_eq(s, "ro2") {
            Some(Self::EuclideanRo2)
        } else if str_eq(s, "tro") {
            Some(Self::EuclideanTro)
        } else {
            None
        };
        proof {
            if let Some(f) = r {
                assert(f.name() == s@);
                Self::names_are_distinct(choose|g: Self| g.name() == s@, f);
            } else {
                assert forall|f: Self| f.name() != s@ by {}
            }
        }
        r
    }

    /// A field's own word names it and nothing else.
    pub proof fn named_by_its_name(self)
        ensures
            Self::named(self.name()) == Some(self),
    {
        assert(Self::known(self.name()));
        Self::names_are_distinct(choose|g: Self| g.name() == self.name(), self);
    }

    /// No two of these share a word, so a word names at most one field.
    pub proof fn names_are_distinct(a: Self, b: Self)
        requires
            a.name() == b.name(),
        ensures
            a == b,
    {
        reveal_strlit("iswb");
        reveal_strlit("parentindex");
        reveal_strlit("index");
        reveal_strlit("deftrignote");
        reveal_strlit("deftrigvel");
        reveal_strlit("deftrigprob");
        reveal_strlit("steps");
        reveal_strlit("quantizeamount");
        reveal_strlit("sendsmidi");
        reveal_strlit("euc");
        reveal_strlit("pl1");
        reveal_strlit("pl2");
        reveal_strlit("ro1");
        reveal_strlit("ro2");
        reveal_strlit("tro");
        assert("iswb"@.len() == 4);
        assert("parentindex"@.len() == 11 && "parentindex"@[8] == 'd');
        assert("index"@.len() == 5 && "index"@[0] == 'i');
        assert("deftrignote"@.len() == 11 && "deftrignote"@[8] == 'o');
        assert("deftrigvel"@.len() == 10);
        assert("deftrigprob"@.len() == 11 && "deftrigprob"@[8] == 'r');
        assert("steps"@.len() == 5 && "steps"@[0] == 's');
        assert("quantizeamount"@.len() == 14);
        assert("sendsmidi"@.len() == 9);
        assert("euc"@.len() == 3 && "euc"@[0] == 'e' && "euc"@[2] == 'c');
        assert("pl1"@.len() == 3 && "pl1"@[0] == 'p' && "pl1"@[2] == '1');
        assert("pl2"@.len() == 3 && "pl2"@[0] == 'p' && "pl2"@[2] == '2');
        assert("ro1"@.len() == 3 && "ro1"@[0] == 'r' && "ro1"@[2] == '1');
        assert("ro2"@.len() == 3 && "ro2"@[0] == 'r' && "ro2"@[2] == '2');
        assert("tro"@.len() == 3 && "tro"@[0] == 't' && "tro"@[2] == 'o');
    }

    /// The word holds no colon, so it is never mistaken for an enum reference.
    pub proof fn name_is_plain(self)
        ensures
            is_plain(self.name()),
    {
        reveal_with_fuel(has_no_colon, 32);
        reveal_strlit("iswb");
        reveal_strlit("parentindex");
        reveal_strlit("index");
        reveal_strlit("deftrignote");
        reveal_strlit("deftrigvel");
        reveal_strlit("deftrigprob");
        reveal_strlit("steps");
        reveal_strlit("quantizeamount");
        reveal_strlit("sendsmidi");
        reveal_strlit("euc");
        reveal_strlit("pl1");
        reveal_strlit("pl2");
        reveal_strlit("ro1");
        reveal_strlit("ro2");
        reveal_strlit("tro");
        assert(has_no_colon("iswb"@, 4));
        assert(has_no_colon("parentindex"@, 11));
        assert(has_no_colon("index"@, 5));
        assert(has_no_colon("deftrignote"@, 11));
        assert(has_no_colon("deftrigvel"@, 10));
        assert(has_no_colon("deftrigprob"@, 11));
        assert(has_no_colon("steps"@, 5));
        assert(has_no_colon("quantizeamount"@, 14));
        assert(has_no_colon("sendsmidi"@, 9));
        assert(has_no_colon("euc"@, 3));
        assert(has_no_colon("pl1"@, 3));
        assert(has_no_colon("pl2"@, 3));
        assert(has_no_colon("ro1"@, 3));
        assert(has_no_colon("ro2"@, 3));
        assert(has_no_colon("tro"@, 3));
        lemma_plain_text(self.name());
    }

    /// How the field is read, if it can be read at all.
    pub open spec fn spec_reads(self) -> Option<Shape> {
        match self {
            Self::IsWorkBuffer => None,
            Self::OwnerIndex | Self::Index | Self::DefTrigNote | Self::DefTrigVelocity
            | Self::DefTrigProb | Self::NumberOfSteps | Self::QuantizeAmount | Self::SendsMidi
            | Self::EuclideanMode | Self::EuclideanPl1 | Self::EuclideanPl2 | Self::EuclideanRo1
            | Self::EuclideanRo2 | Self::EuclideanTro => Some(Shape::Plain),
        }
    }

    /// How the field is read, if it can be read at all.
    #[verifier::when_used_as_spec(spec_reads)]
    pub fn reads(self) -> (r: Option<Shape>)
        ensures
            r == self.spec_reads(),
    {
        match self {
            Self::IsWorkBuffer => None,
            Self::OwnerIndex | Self::Index | Self::DefTrigNote | Self::DefTrigVelocity
            | Self::DefTrigProb | Self::NumberOfSteps | Self::QuantizeAmount | Self::SendsMidi
            | Self::EuclideanMode | Self::EuclideanPl1 | Self::EuclideanPl2 | Self::EuclideanRo1
            | Self::EuclideanRo2 | Self::EuclideanTro => Some(Shape::Plain),
        }
    }

    /// What the field takes when it is written, if it can be written at all.
    pub open spec fn spec_writes(self) -> Option<Takes> {
        match self {
            Self::IsWorkBuffer | Self::OwnerIndex | Self::Index => None,
            Self::DefTrigNote | Self::DefTrigVelocity | Self::DefTrigProb | Self::NumberOfSteps
            | Self::QuantizeAmount | Self::EuclideanPl1 | Self::EuclideanPl2
            | Self::EuclideanRo1 | Self::EuclideanRo2 | Self::EuclideanTro => Some(Takes::Unsigned),
            Self::SendsMidi | Self::EuclideanMode => Some(Takes::Flag),
        }
    }

    /// What the field takes when it is written, if it can be written at all.
    #[verifier::when_used_as_spec(spec_writes)]
    pub fn writes(self) -> (r: Option<Takes>)
        ensures
            r == self.spec_writes(),
    {
        match self {
            Self::IsWorkBuffer | Self::OwnerIndex | Self::Index => None,
            Self::DefTrigNote | Self::DefTrigVelocity | Self::DefTrigProb | Self::NumberOfSteps
            | Self::QuantizeAmount | Self::EuclideanPl1 | Self::EuclideanPl2
            | Self::EuclideanRo1 | Self::EuclideanRo2 | Self::EuclideanTro => Some(Takes::Unsigned),
            Self::SendsMidi | Self::EuclideanMode => Some(Takes::Flag),
        }
    }
}

/// A field of a track that holds a named variant.
#[derive(Debug, Clone, Copy, PartialEq, Eq, Structural)]
pub enum TrackEnum {
    RootNote,
    PadScale,
    DefaultNoteLength,
}

impl TrackEnum {
    /// The word by which a command names this field.
    pub open spec fn name(self) -> Seq<char> {
        match self {
            Self::RootNote => "rootnote"@,
            Self::PadScale => "padscale"@,
            Self::DefaultNoteLength => "defaultnotelen"@,
        }
    }

    /// Whether a word names one of these.
    pub open spec fn known(s: Seq<char>) -> bool {
        exists|f: Self| f.name() == s
    }

    /// The word by which a command names this field.
    pub fn as_str(self) -> (r: &'static str)
        ensures
            r@ == self.name(),
    {
        match self {
            Self::RootNote => "rootnote",
            Self::PadScale => "padscale",
            Self::DefaultNoteLength => "defaultnotelen",
        }
    }

    /// The field a word names, if it names one.
    pub open spec fn named(s: Seq<char>) -> Option<Self> {
        if Self::known(s) {
            Some(choose|f: Self| f.name() == s)
        } else {
            None
        }
    }

    /// Looks a word up: the field that carries it, if there is one.
    pub fn from_name(s: &str) -> (r: Option<Self>)
        ensures
            r == Self::named(s@),
    {
        let r = if str_eq(s, "rootnote") {
            Some(Self::RootNote)
        } else if str_eq(s, "padscale") {
            Some(Self::PadScale)
        } else if str_eq(s, "defaultnotelen") {
            Some(Self::DefaultNoteLength)
        } else {
            None
        };
        proof {
            if let Some(f) = r {
                assert(f.name() == s@);
                Self::names_are_distinct(choose|g: Self| g.name() == s@, f);
            } else {
                assert forall|f: Self| f.name() != s@ by {}
            }
        }
        r
    }

    /// A field's own word names it and nothing else.
    pub proof fn named_by_its_name(self)
        ensures
            Self::named(self.name()) == Some(self),
    {
        assert(Self::known(self.name()));
        Self::names_are_distinct(choose|g: Self| g.name() == self.name(), self);
    }

    /// No two of these share a word, so a word names at most one field.
    pub proof fn names_are_distinct(a: Self, b: Self)
        requires
            a.name() == b.name(),
        ensures
            a == b,
    {
        reveal_strlit("rootnote");
        reveal_strlit("padscale");
        reveal_strlit("defaultnotelen");
        assert("rootnote"@.len() == 8 && "rootnote"@[0] == 'r');
        assert("padscale"@.len() == 8 && "padscale"@[0] == 'p');
        assert("defaultnotelen"@.len() == 14);
    }

    /// The word holds no colon, so it is never mistaken for an enum reference.
    pub proof fn name_is_plain(self)
        ensures
            is_plain(self.name()),
    {
        reveal_with_fuel(has_no_colon, 32);
        reveal_strlit("rootnote");
        reveal_strlit("padscale");
        reveal_strlit("defaultnotelen");
        assert(has_no_colon("rootnote"@, 8));
        assert(has_no_colon("padscale"@, 8));
        assert(has_no_colon("defaultnotelen"@, 14));
        lemma_plain_text(self.name());
    }

    /// How the field is read, if it can be read at all.
    pub open spec fn spec_reads(self) -> Option<Shape> {
        match self {
            Self::RootNote | Self::PadScale | Self::DefaultNoteLength => Some(Shape::Plain),
        }
    }

    /// How the field is read, if it can be read at all.
    #[verifier::when_used_as_spec(spec_reads)]
    pub fn reads(self) -> (r: Option<Shape>)
        ensures
            r == self.spec_reads(),
    {
        match self {
            Self::RootNote | Self::PadScale | Self::DefaultNoteLength => Some(Shape::Plain),
        }
    }

    /// How the field is written, if it can be written at all.
    pub open spec fn spec_writes(self) -> Option<Shape> {
        match self {
            Self::RootNote | Self::PadScale | Self::DefaultNoteLength => Some(Shape::Plain),
        }
    }

    /// How the field is written, if it can be written at all.
    #[verifier::when_used_as_spec(spec_writes)]
    pub fn writes(self) -> (r: Option<Shape>)
        ensures
            r == self.spec_writes(),
    {
        match self {
            Self::RootNote | Self::PadScale | Self::DefaultNoteLength => Some(Shape::Plain),
        }
    }
}

/// A numeric field of a trig.
#[derive(Debug, Clone, Copy, PartialEq, Eq, Structural)]
pub enum TrigAction {
    Enable,
    Retrig,
    Mute,
    Accent,
    Swing,
    Slide,
    Note,
    Velocity,
    RetrigVelocityOffset,
    SoundLock,
}

impl TrigAction {
    /// The word by which a command names this field.
    pub open spec fn name(self) -> Seq<char> {
        match self {
            Self::Enable => "enable"@,
            Self::Retrig => "retrig"@,
            Self::Mute => "mute"@,
            Self::Accent => "accent"@,
            Self::Swing => "swing"@,
            Self::Slide => "slide"@,
            Self::Note => "note"@,
            Self::Velocity => "vel"@,
            Self::RetrigVelocityOffset => "retrigveloffset"@,
            Self::SoundLock => "soundlock"@,
        }
    }

    /// Whether a word names one of these.
    pub open spec fn known(s: Seq<char>) -> bool {
        exists|f: Self| f.name() == s
    }

    /// The word by which a command names this field.
    pub fn as_str(self) -> (r: &'static str)
        ensures
            r@ == self.name(),
    {
        match self {
            Self::Enable => "enable",
            Self::Retrig => "retrig",
            Self::Mute => "mute",
            Self::Accent => "accent",
            Self::Swing => "swing",
            Self::Slide => "slide",
            Self::Note => "note",
            Self::Velocity => "vel",
            Self::RetrigVelocityOffset => "retrigveloffset",
            Self::SoundLock => "soundlock",
        }
    }

    /// The field a word names, if it names one.
    pub open spec fn named(s: Seq<char>) -> Option<Self> {
        if Self::known(s) {
            Some(choose|f: Self| f.name() == s)
        } else {
            None
        }
    }

    /// Looks a word up: the field that carries it, if there is one.
    pub fn from_name(s: &str) -> (r: Option<Self>)
        ensures
            r == Self::named(s@),
    {
        let r = if str_eq(s, "enable") {
            Some(Self::Enable)
        } else if str_eq(s, "retrig") {
            Some(Self::Retrig)
        } else if str_eq(s, "mute") {
            Some(Self::Mute)
        } else if str_eq(s, "accent") {
            Some(Self::Accent)
        } else if str_eq(s, "swing") {
            Some(Self::Swing)
        } else if str_eq(s, "slide") {
            Some(Self::Slide)
        } else if str_eq(s, "note") {
            Some(Self::Note)
        } else if str_eq(s, "vel") {
            Some(Self::Velocity)
        } else if str_eq(s, "retrigveloffset") {
            Some(Self::RetrigVelocityOffset)
        } else if str_eq(s, "soundlock") {
            Some(Self::SoundLock)
        } else {
            None
        };
        proof {
            if let Some(f) = r {
                assert(f.name() == s@);
                Self::names_are_distinct(choose|g: Self| g.name() == s@, f);
            } else {
                assert forall|f: Self| f.name() != s@ by {}
            }
        }
        r
    }

    /// A field's own word names it and nothing else.
    pub proof fn named_by_its_name(self)
        ensures
            Self::named(self.name()) == Some(self),
    {
        assert(Self::known(self.name()));
        Self::names_are_distinct(choose|g: Self| g.name() == self.name(), self);
    }

    /// No two of these share a word, so a word names at most one field.
    pub proof fn names_are_distinct(a: Self, b: Self)
        requires
            a.name() == b.name(),
        ensures
            a == b,
    {
        reveal_strlit("enable");
        reveal_strlit("retrig");
        reveal_strlit("mute");
        reveal_strlit("accent");
        reveal_strlit("swing");
        reveal_strlit("slide");
        reveal_strlit("note");
        reveal_strlit("vel");
        reveal_strlit("retrigveloffset");
        reveal_strlit("soundlock");
        assert("enable"@.len() == 6 && "enable"@[0] == 'e');
        assert("retrig"@.len() == 6 && "retrig"@[0] == 'r');
        assert("mute"@.len() == 4 && "mute"@[0] == 'm');
        assert("accent"@.len() == 6 && "accent"@[0] == 'a');
        assert("swing"@.len() == 5 && "swing"@[1] == 'w');
        assert("slide"@.len() == 5 && "slide"@[1] == 'l');
        assert("note"@.len() == 4 && "note"@[0] == 'n');
        assert("vel"@.len() == 3);
        assert("retrigveloffset"@.len() == 15);
        assert("soundlock"@.len() == 9);
    }

    /// The word holds no colon, so it is never mistaken for an enum reference.
    pub proof fn name_is_plain(self)
        ensures
            is_plain(self.name()),
    {
        reveal_with_fuel(has_no_colon, 32);
        reveal_strlit("enable");
        reveal_strlit("retrig");
        reveal_strlit("mute");
        reveal_strlit("accent");
        reveal_strlit("swing");
        reveal_strlit("slide");
        reveal_strlit("note");
        reveal_strlit("vel");
        reveal_strlit("retrigveloffset");
        reveal_strlit("soundlock");
        assert(has_no_colon("enable"@, 6));
        assert(has_no_colon("retrig"@, 6));
        assert(has_no_colon("mute"@, 4));
        assert(has_no_colon("accent"@, 6));
        assert(has_no_colon("swing"@, 5));
        assert(has_no_colon("slide"@, 5));
        assert(has_no_colon("note"@, 4));
        assert(has_no_colon("vel"@, 3));
        assert(has_no_colon("retrigveloffset"@, 15));
        assert(has_no_colon("soundlock"@, 9));
        lemma_plain_text(self.name());
    }

    /// How the field is read, if it can be read at all.
    pub open spec fn spec_reads(self) -> Option<Shape> {
        match self {
            Self::Enable | Self::Retrig | Self::Mute | Self::Accent | Self::Swing | Self::Slide
            | Self::Note | Self::Velocity | Self::RetrigVelocityOffset | Self::SoundLock => Some(Shape::Plain),
        }
    }

    /// How the field is read, if it can be read at all.
    #[verifier::when_used_as_spec(spec_reads)]
    pub fn reads(self) -> (r: Option<Shape>)
        ensures
            r == self.spec_reads(),
    {
        match self {
            Self::Enable | Self::Retrig | Self::Mute | Self::Accent | Self::Swing | Self::Slide
            | Self::Note | Self::Velocity | Self::RetrigVelocityOffset | Self::SoundLock => Some(Shape::Plain),
        }
    }

    /// What the field takes when it is written, if it can be written at all.
    pub open spec fn spec_writes(self) -> Option<Takes> {
        match self {
            Self::Enable | Self::Retrig | Self::Mute | Self::Accent | Self::Swing | Self::Slide => Some(Takes::Flag),
            Self::Note | Self::Velocity | Self::SoundLock => Some(Takes::Unsigned),
            Self::RetrigVelocityOffset => Some(Takes::Signed),
        }
    }

    /// What the field takes when it is written, if it can be written at all.
    #[verifier::when_used_as_spec(spec_writes)]
    pub fn writes(self) -> (r: Option<Takes>)
        ensures
            r == self.spec_writes(),
    {
        match self {
            Self::Enable | Self::Retrig | Self::Mute | Self::Accent | Self::Swing | Self::Slide => Some(Takes::Flag),
            Self::Note | Self::Velocity | Self::SoundLock => Some(Takes::Unsigned),
            Self::RetrigVelocityOffset => Some(Takes::Signed),
        }
    }
}

/// A field of a trig that holds a named variant.
#[derive(Debug, Clone, Copy, PartialEq, Eq, Structural)]
pub enum TrigEnum {
    MicroTime,
    NoteLength,
    RetrigLength,
    RetrigRate,
    TrigCondition,
}

impl TrigEnum {
    /// The word by which a command names this field.
    pub open spec fn name(self) -> Seq<char> {
        match self {
            Self::MicroTime => "microtime"@,
            Self::NoteLength => "notelen"@,
            Self::RetrigLength => "retriglen"@,
            Self::RetrigRate => "retrigrate"@,
            Self::TrigCondition => "trigcondition"@,
        }
    }

    /// Whether a word names one of these.
    pub open spec fn known(s: Seq<char>) -> bool {
        exists|f: Self| f.name() == s
    }

    /// The word by which a command names this field.
    pub fn as_str(self) -> (r: &'static str)
        ensures
            r@ == self.name(),
    {
        match self {
            Self::MicroTime => "microtime",
            Self::NoteLength => "notelen",
            Self::RetrigLength => "retriglen",
            Self::RetrigRate => "retrigrate",
            Self::TrigCondition => "trigcondition",
        }
    }

    /// The field a word names, if it names one.
    pub open spec fn named(s: Seq<char>) -> Option<Self> {
        if Self::known(s) {
            Some(choose|f: Self| f.name() == s)
        } else {
            None
        }
    }

    /// Looks a word up: the field that carries it, if there is one.
    pub fn from_name(s: &str) -> (r: Option<Self>)
        ensures
            r == Self::named(s@),
    {
        let r = if str_eq(s, "microtime") {
            Some(Self::MicroTime)
        } else if str_eq(s, "notelen") {
            Some(Self::NoteLength)
        } else if str_eq(s, "retriglen") {
            Some(Self::RetrigLength)
        } else if str_eq(s, "retrigrate") {
            Some(Self::RetrigRate)
        } else if str_eq(s, "trigcondition") {
            Some(Self::TrigCondition)
        } else {
            None
        };
        proof {
            if let Some(f) = r {
                assert(f.name() == s@);
                Self::names_are_distinct(choose|g: Self| g.name() == s@, f);
            } else {
                assert forall|f: Self| f.name() != s@ by {}
            }
        }
        r
    }

    /// A field's own word names it and nothing else.
    pub proof fn named_by_its_name(self)
        ensures
            Self::named(self.name()) == Some(self),
    {
        assert(Self::known(self.name()));
        Self::names_are_distinct(choose|g: Self| g.name() == self.name(), self);
    }

    /// No two of these share a word, so a word names at most one field.
    pub proof fn names_are_distinct(a: Self, b: Self)
        requires
            a.name() == b.name(),
        ensures
            a == b,
    {
        reveal_strlit("microtime");
        reveal_strlit("notelen");
        reveal_strlit("retriglen");
        reveal_strlit("retrigrate");
        reveal_strlit("trigcondition");
        assert("microtime"@.len() == 9 && "microtime"@[0] == 'm');
        assert("notelen"@.len() == 7);
        assert("retriglen"@.len() == 9 && "retriglen"@[0] == 'r');
        assert("retrigrate"@.len() == 10);
        assert("trigcondition"@.len() == 13);
    }

    /// The word holds no colon, so it is never mistaken for an enum reference.
    pub proof fn name_is_plain(self)
        ensures
            is_plain(self.name()),
    {
        reveal_with_fuel(has_no_colon, 32);
        reveal_strlit("microtime");
        reveal_strlit("notelen");
        reveal_strlit("retriglen");
        reveal_strlit("retrigrate");
        reveal_strlit("trigcondition");
        assert(has_no_colon("microtime"@, 9));
        assert(has_no_colon("notelen"@, 7));
        assert(has_no_colon("retriglen"@, 9));
        assert(has_no_colon("retrigrate"@, 10));
        assert(has_no_colon("trigcondition"@, 13));
        lemma_plain_text(self.name());
    }

    /// How the field is read, if it can be read at all.
    pub open spec fn spec_reads(self) -> Option<Shape> {
        match self {
            Self::MicroTime | Self::NoteLength | Self::RetrigLength | Self::RetrigRate
            | Self::TrigCondition => Some(Shape::Plain),
        }
    }

    /// How the field is read, if it can be read at all.
    #[verifier::when_used_as_spec(spec_reads)]
    pub fn reads(self) -> (r: Option<Shape>)
        ensures
            r == self.spec_reads(),
    {
        match self {
            Self::MicroTime | Self::NoteLength | Self::RetrigLength | Self::RetrigRate
            | Self::TrigCondition => Some(Shape::Plain),
        }
    }

    /// How the field is written, if it can be written at all.
    pub open spec fn spec_writes(self) -> Option<Shape> {
        match self {
            Self::MicroTime | Self::NoteLength | Self::RetrigLength | Self::RetrigRate
            | Self::TrigCondition => Some(Shape::Plain),
        }
    }

    /// How the field is written, if it can be written at all.
    #[verifier::when_used_as_spec(spec_writes)]
    pub fn writes(self) -> (r: Option<Shape>)
        ensures
            r == self.spec_writes(),
    {
        match self {
            Self::MicroTime | Self::NoteLength | Self::RetrigLength | Self::RetrigRate
            | Self::TrigCondition => Some(Shape::Plain),
        }
    }
}

} // verus!
