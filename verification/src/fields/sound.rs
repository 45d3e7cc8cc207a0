//! The fields of a sound.

use vstd::prelude::*;
use crate::text::{has_no_colon, is_plain, lemma_plain_text, str_eq};
use crate::fields::{Shape, Takes};

verus! {

/// A numeric or text field of a sound.
#[derive(Debug, Clone, Copy, PartialEq, Eq, Structural)]
pub enum SoundAction {
    Version,
    Index,
    Name,
    IsPool,
    IsKit,
    IsWorkBuffer,
    KitNumber,
    SoundType,
    AccentLevel,
    AmpAttack,
    AmpHold,
    AmpDecay,
    AmpOverdrive,
    AmpDelaySend,
    AmpReverbSend,
    AmpPan,
    AmpVolume,
    FiltAttack,
    FiltHold,
    FiltDecay,
    FiltRelease,
    FiltCutoff,
    FiltResonance,
    FiltEnvelopeAmount,
    LfoSpeed,
    LfoFade,
    LfoStartPhaseOrSlew,
    LfoDepth,
    SampTune,
    SampFineTune,
    SampNumber,
    SampBitReduction,
    SampStart,
    SampEnd,
    SampLoopFlag,
    SampVolume,
    VelModAmt,
    AtModAmt,
    EnvResetFilter,
    VelocityToVolume,
    LegacyFxSend,
}

impl SoundAction {
    /// The word by which a command names this field.
    pub open spec fn name(self) -> Seq<char> {
        match self {
            Self::Version => "version"@,
            Self::Index => "index"@,
            Self::Name => "name"@,
            Self::IsPool => "ispool"@,
            Self::IsKit => "iskit"@,
            Self::IsWorkBuffer => "iswb"@,
            Self::KitNumber => "kitnumber"@,
            Self::SoundType => "type"@,
            Self::AccentLevel => "accentlev"@,
            Self::AmpAttack => "ampattack"@,
            Self::AmpHold => "amphold"@,
            Self::AmpDecay => "ampdecay"@,
            Self::AmpOverdrive => "ampoverdrive"@,
            Self::AmpDelaySend => "ampdelsend"@,
            Self::AmpReverbSend => "amprevsend"@,
            Self::AmpPan => "amppan"@,
            Self::AmpVolume => "amplev"@,
            Self::FiltAttack => "filtattack"@,
            Self::FiltHold => "filthold"@,
            Self::FiltDecay => "filtdecay"@,
            Self::FiltRelease => "filtrelease"@,
            Self::FiltCutoff => "filtcutoff"@,
            Self::FiltResonance => "filtres"@,
            Self::FiltEnvelopeAmount => "filtenvamt"@,
            Self::LfoSpeed => "lfospeed"@,
            Self::LfoFade => "lfofade"@,
            Self::LfoStartPhaseOrSlew => "lfostartphase"@,
            Self::LfoDepth => "lfodepth"@,
            Self::SampTune => "samptune"@,
            Self::SampFineTune => "sampfinetune"@,
            Self::SampNumber => "sampnumber"@,
            Self::SampBitReduction => "sampbitreduction"@,
            Self::SampStart => "sampstart"@,
            Self::SampEnd => "sampend"@,
            Self::SampLoopFlag => "samploopflag"@,
            Self::SampVolume => "samplev"@,
            Self::VelModAmt => "velmodamt"@,
            Self::AtModAmt => "atmodamt"@,
            Self::EnvResetFilter => "envresetfilter"@,
            Self::VelocityToVolume => "veltovol"@,
            Self::LegacyFxSend => "legacyfxsend"@,
        }
    }

    /// Whether a word names one of these.
    pub open spec fn known(s: Seq<char>) -> bool {
        exists|f: Self| f.name() == s
    }

    /// The word by which a command names this field.
    pub fn as_str(self) -> (r: &'static str)
        ensures
            r@ == self.name(),
    {
        match self {
            Self::Version => "version",
            Self::Index => "index",
            Self::Name => "name",
            Self::IsPool => "ispool",
            Self::IsKit => "iskit",
            Self::IsWorkBuffer => "iswb",
            Self::KitNumber => "kitnumber",
            Self::SoundType => "type",
            Self::AccentLevel => "accentlev",
            Self::AmpAttack => "ampattack",
            Self::AmpHold => "amphold",
            Self::AmpDecay => "ampdecay",
            Self::AmpOverdrive => "ampoverdrive",
            Self::AmpDelaySend => "ampdelsend",
            Self::AmpReverbSend => "amprevsend",
            Self::AmpPan => "amppan",
            Self::AmpVolume => "amplev",
            Self::FiltAttack => "filtattack",
            Self::FiltHold => "filthold",
            Self::FiltDecay => "filtdecay",
            Self::FiltRelease => "filtrelease",
            Self::FiltCutoff => "filtcutoff",
            Self::FiltResonance => "filtres",
            Self::FiltEnvelopeAmount => "filtenvamt",
            Self::LfoSpeed => "lfospeed",
            Self::LfoFade => "lfofade",
            Self::LfoStartPhaseOrSlew => "lfostartphase",
            Self::LfoDepth => "lfodepth",
            Self::SampTune => "samptune",
            Self::SampFineTune => "sampfinetune",
            Self::SampNumber => "sampnumber",
            Self::SampBitReduction => "sampbitreduction",
            Self::SampStart => "sampstart",
            Self::SampEnd => "sampend",
            Self::SampLoopFlag => "samploopflag",
            Self::SampVolume => "samplev",
            Self::VelModAmt => "velmodamt",
            Self::AtModAmt => "atmodamt",
            Self::EnvResetFilter => "envresetfilter",
            Self::VelocityToVolume => "veltovol",
            Self::LegacyFxSend => "legacyfxsend",
        }
    }

    /// The field a word names, if it names one.
    pub open spec fn named(s: Seq<char>) -> Option<Self> {
        if Self::known(s) {
            Some(choose|f: Self| f.name() == s)
        } else {
            None
        }
    }

    /// Looks a word up: the field that carries it, if there is one.
    pub fn from_name(s: &str) -> (r: Option<Self>)
        ensures
            r == Self::named(s@),
    {
        let r = if str_eq(s, "version") {
            Some(Self::Version)
        } else if str_eq(s, "index") {
            Some(Self::Index)
        } else if str_eq(s, "name") {
            Some(Self::Name)
        } else if str_eq(s, "ispool") {
            Some(Self::IsPool)
        } else if str_eq(s, "iskit") {
            Some(Self::IsKit)
        } else if str_eq(s, "iswb") {
            Some(Self::IsWorkBuffer)
        } else if str_eq(s, "kitnumber") {
            Some(Self::KitNumber)
        } else if str_eq(s, "type") {
            Some(Self::SoundType)
        } else if str_eq(s, "accentlev") {
            Some(Self::AccentLevel)
        } else if str_eq(s, "ampattack") {
            Some(Self::AmpAttack)
        } else if str_eq(s, "amphold") {
            Some(Self::AmpHold)
        } else if str_eq(s, "ampdecay") {
            Some(Self::AmpDecay)
        } else if str_eq(s, "ampoverdrive") {
            Some(Self::AmpOverdrive)
        } else if str_eq(s, "ampdelsend") {
            Some(Self::AmpDelaySend)
        } else if str_eq(s, "amprevsend") {
            Some(Self::AmpReverbSend)
        } else if str_eq(s, "amppan") {
            Some(Self::AmpPan)
        } else if str_eq(s, "amplev") {
            Some(Self::AmpVolume)
        } else if str_eq(s, "filtattack") {
            Some(Self::FiltAttack)
        } else if str_eq(s, "filthold") {
            Some(Self::FiltHold)
        } else if str_eq(s, "filtdecay") {
            Some(Self::FiltDecay)
        } else if str_eq(s, "filtrelease") {
            Some(Self::FiltRelease)
        } else if str_eq(s, "filtcutoff") {
            Some(Self::FiltCutoff)
        } else if str_eq(s, "filtres") {
            Some(Self::FiltResonance)
        } else if str_eq(s, "filtenvamt") {
            Some(Self::FiltEnvelopeAmount)
        } else if str_eq(s, "lfospeed") {
            Some(Self::LfoSpeed)
        } else if str_eq(s, "lfofade") {
            Some(Self::LfoFade)
        } else if str_eq(s, "lfostartphase") {
            Some(Self::LfoStartPhaseOrSlew)
        } else if str_eq(s, "lfodepth") {
            Some(Self::LfoDepth)
        } else if str_eq(s, "samptune") {
            Some(Self::SampTune)
        } else if str_eq(s, "sampfinetune") {
            Some(Self::SampFineTune)
        } else if str_eq(s, "sampnumber") {
            Some(Self::SampNumber)
        } else if str_eq(s, "sampbitreduction") {
            Some(Self::SampBitReduction)
        } else if str_eq(s, "sampstart") {
            Some(Self::SampStart)
        } else if str_eq(s, "sampend") {
            Some(Self::SampEnd)
        } else if str_eq(s, "samploopflag") {
            Some(Self::SampLoopFlag)
        } else if str_eq(s, "samplev") {
            Some(Self::SampVolume)
        } else if str_eq(s, "velmodamt") {
            Some(Self::VelModAmt)
        } else if str_eq(s, "atmodamt") {
            Some(Self::AtModAmt)
        } else if str_eq(s, "envresetfilter") {
            Some(Self::EnvResetFilter)
        } else if str_eq(s, "veltovol") {
            Some(Self::VelocityToVolume)
        } else if str_eq(s, "legacyfxsend") {
            Some(Self::LegacyFxSend)
        } else {
            None
        };
        proof {
            if let Some(f) = r {
                assert(f.name() == s@);
                Self::names_are_distinct(choose|g: Self| g.name() == s@, f);
            } else {
                assert forall|f: Self| f.name() != s@ by {}
            }
        }
        r
    }

    /// A field's own word names it and nothing else.
    pub proof fn named_by_its_name(self)
        ensures
            Self::named(self.name()) == Some(self),
    {
        assert(Self::known(self.name()));
        Self::names_are_distinct(choose|g: Self| g.name() == self.name(), self);
    }

    /// No two of these share a word, so a word names at most one field.
    pub proof fn names_are_distinct(a: Self, b: Self)
        requires
            a.name() == b.name(),
        ensures
            a == b,
    {
        reveal_strlit("version");
        reveal_strlit("index");
        reveal_strlit("name");
        reveal_strlit("ispool");
        reveal_strlit("iskit");
        reveal_strlit("iswb");
        reveal_strlit("kitnumber");
        reveal_strlit("type");
        reveal_strlit("accentlev");
        reveal_strlit("ampattack");
        reveal_strlit("amphold");
        reveal_strlit("ampdecay");
        reveal_strlit("ampoverdrive");
        reveal_strlit("ampdelsend");
        reveal_strlit("amprevsend");
        reveal_strlit("amppan");
        reveal_strlit("amplev");
        reveal_strlit("filtattack");
        reveal_strlit("filthold");
        reveal_strlit("filtdecay");
        reveal_strlit("filtrelease");
        reveal_strlit("filtcutoff");
        reveal_strlit("filtres");
        reveal_strlit("filtenvamt");
        reveal_strlit("lfospeed");
        reveal_strlit("lfofade");
        reveal_strlit("lfostartphase");
        reveal_strlit("lfodepth");
        reveal_strlit("samptune");
        reveal_strlit("sampfinetune");
        reveal_strlit("sampnumber");
        reveal_strlit("sampbitreduction");
        reveal_strlit("sampstart");
        reveal_strlit("sampend");
        reveal_strlit("samploopflag");
        reveal_strlit("samplev");
        reveal_strlit("velmodamt");
        reveal_strlit("atmodamt");
        reveal_strlit("envresetfilter");
        reveal_strlit("veltovol");
        reveal_strlit("legacyfxsend");
        assert("version"@.len() == 7 && "version"@[4] == 'i');
        assert("index"@.len() == 5 && "index"@[1] == 'n');
        assert("name"@.len() == 4 && "name"@[0] == 'n');
        assert("ispool"@.len() == 6 && "ispool"@[3] == 'o');
        assert("iskit"@.len() == 5 && "iskit"@[1] == 's');
        assert("iswb"@.len() == 4 && "iswb"@[0] == 'i');
        assert("kitnumber"@.len() == 9 && "kitnumber"@[3] == 'n');
        assert("type"@.len() == 4 && "type"@[0] == 't');
        assert("accentlev"@.len() == 9 && "accentlev"@[3] == 'e');
        assert("ampattack"@.len() == 9 && "ampattack"@[3] == 'a');
        assert("amphold"@.len() == 7 && "amphold"@[4] == 'o');
        assert("ampdecay"@.len() == 8 && "ampdecay"@[5] == 'c');
        assert("ampoverdrive"@.len() == 12 && "ampoverdrive"@[4] == 'v');
        assert("ampdelsend"@.len() == 10 && "ampdelsend"@[0] == 'a' && "ampdelsend"@[5] == 'l');
        assert("amprevsend"@.len() == 10 && "amprevsend"@[0] == 'a' && "amprevsend"@[5] == 'v');
        assert("amppan"@.len() == 6 && "amppan"@[3] == 'p');
        assert("amplev"@.len() == 6 && "amplev"@[3] == 'l');
        assert("filtattack"@.len() == 10 && "filtattack"@[0] == 'f' && "filtattack"@[5] == 't');
        assert("filthold"@.len() == 8 && "filthold"@[5] == 'o');
        assert("filtdecay"@.len() == 9 && "filtdecay"@[3] == 't');
        assert("filtrelease"@.len() == 11);
        assert("filtcutoff"@.len() == 10 && "filtcutoff"@[0] == 'f' && "filtcutoff"@[5] == 'u');
        assert("filtres"@.len() == 7 && "filtres"@[4] == 'r');
        assert("filtenvamt"@.len() == 10 && "filtenvamt"@[0] == 'f' && "filtenvamt"@[5] == 'n');
        assert("lfospeed"@.len() == 8 && "lfospeed"@[5] == 'e');
        assert("lfofade"@.len() == 7 && "lfofade"@[4] == 'a');
        assert("lfostartphase"@.len() == 13);
        assert("lfodepth"@.len() == 8 && "lfodepth"@[5] == 'p');
        assert("samptune"@.len() == 8 && "samptune"@[5] == 'u');
        assert("sampfinetune"@.len() == 12 && "sampfinetune"@[4] == 'f');
        assert("sampnumber"@.len() == 10 && "sampnumber"@[0] == 's' && "sampnumber"@[5] == 'u');
        assert("sampbitreduction"@.len() == 16);
        assert("sampstart"@.len() == 9 && "sampstart"@[3] == 'p');
        assert("sampend"@.len() == 7 && "sampend"@[4] == 'e');
        assert("samploopflag"@.len() == 12 && "samploopflag"@[4] == 'l');
        assert("samplev"@.len() == 7 && "samplev"@[4] == 'l');
        assert("velmodamt"@.len() == 9 && "velmodamt"@[3] == 'm');
        assert("atmodamt"@.len() == 8 && "atmodamt"@[5] == 'a');
        assert("envresetfilter"@.len() == 14);
        assert("veltovol"@.len() == 8 && "veltovol"@[5] == 'v');
        assert("legacyfxsend"@.len() == 12 && "legacyfxsend"@[4] == 'c');
    }

    /// The word holds no colon, so it is never mistaken for an enum reference.
    pub proof fn name_is_plain(self)
        ensures
            is_plain(self.name()),
    {
        reveal_with_fuel(has_no_colon, 32);
        reveal_strlit("version");
        reveal_strlit("index");
        reveal_strlit("name");
        reveal_strlit("ispool");
        reveal_strlit("iskit");
        reveal_strlit("iswb");
        reveal_strlit("kitnumber");
        reveal_strlit("type");
        reveal_strlit("accentlev");
        reveal_strlit("ampattack");
        reveal_strlit("amphold");
        reveal_strlit("ampdecay");
        reveal_strlit("ampoverdrive");
        reveal_strlit("ampdelsend");
        reveal_strlit("amprevsend");
        reveal_strlit("amppan");
        reveal_strlit("amplev");
        reveal_strlit("filtattack");
        reveal_strlit("filthold");
        reveal_strlit("filtdecay");
        reveal_strlit("filtrelease");
        reveal_strlit("filtcutoff");
        reveal_strlit("filtres");
        reveal_strlit("filtenvamt");
        reveal_strlit("lfospeed");
        reveal_strlit("lfofade");
        reveal_strlit("lfostartphase");
        reveal_strlit("lfodepth");
        reveal_strlit("samptune");
        reveal_strlit("sampfinetune");
        reveal_strlit("sampnumber");
        reveal_strlit("sampbitreduction");
        reveal_strlit("sampstart");
        reveal_strlit("sampend");
        reveal_strlit("samploopflag");
        reveal_strlit("samplev");
        reveal_strlit("velmodamt");
        reveal_strlit("atmodamt");
        reveal_strlit("envresetfilter");
        reveal_strlit("veltovol");
        reveal_strlit("legacyfxsend");
        assert(has_no_colon("version"@, 7));
        assert(has_no_colon("index"@, 5));
        assert(has_no_colon("name"@, 4));
        assert(has_no_colon("ispool"@, 6));
        assert(has_no_colon("iskit"@, 5));
        assert(has_no_colon("iswb"@, 4));
        assert(has_no_colon("kitnumber"@, 9));
        assert(has_no_colon("type"@, 4));
        assert(has_no_colon("accentlev"@, 9));
        assert(has_no_colon("ampattack"@, 9));
        assert(has_no_colon("amphold"@, 7));
        assert(has_no_colon("ampdecay"@, 8));
        assert(has_no_colon("ampoverdrive"@, 12));
        assert(has_no_colon("ampdelsend"@, 10));
        assert(has_no_colon("amprevsend"@, 10));
        assert(has_no_colon("amppan"@, 6));
        assert(has_no_colon("amplev"@, 6));
        assert(has_no_colon("filtattack"@, 10));
        assert(has_no_colon("filthold"@, 8));
        assert(has_no_colon("filtdecay"@, 9));
        assert(has_no_colon("filtrelease"@, 11));
        assert(has_no_colon("filtcutoff"@, 10));
        assert(has_no_colon("filtres"@, 7));
        assert(has_no_colon("filtenvamt"@, 10));
        assert(has_no_colon("lfospeed"@, 8));
        assert(has_no_colon("lfofade"@, 7));
        assert(has_no_colon("lfostartphase"@, 13));
        assert(has_no_colon("lfodepth"@, 8));
        assert(has_no_colon("samptune"@, 8));
        assert(has_no_colon("sampfinetune"@, 12));
        assert(has_no_colon("sampnumber"@, 10));
        assert(has_no_colon("sampbitreduction"@, 16));
        assert(has_no_colon("sampstart"@, 9));
        assert(has_no_colon("sampend"@, 7));
        assert(has_no_colon("samploopflag"@, 12));
        assert(has_no_colon("samplev"@, 7));
        assert(has_no_colon("velmodamt"@, 9));
        assert(has_no_colon("atmodamt"@, 8));
        assert(has_no_colon("envresetfilter"@, 14));
        assert(has_no_colon("veltovol"@, 8));
        assert(has_no_colon("legacyfxsend"@, 12));
        lemma_plain_text(self.name());
    }

    /// How the field is read, if it can be read at all.
    pub open spec fn spec_reads(self) -> Option<Shape> {
        match self {
            Self::Version | Self::Index | Self::IsPool | Self::IsKit | Self::IsWorkBuffer
            | Self::KitNumber | Self::SoundType => None,
            Self::Name | Self::AccentLevel | Self::AmpAttack | Self::AmpHold | Self::AmpDecay
            | Self::AmpOverdrive | Self::AmpDelaySend | Self::AmpReverbSend | Self::AmpPan
            | Self::AmpVolume | Self::FiltAttack | Self::FiltHold | Self::FiltDecay
            | Self::FiltRelease | Self::FiltCutoff | Self::FiltResonance
            | Self::FiltEnvelopeAmount | Self::LfoSpeed | Self::LfoFade
            | Self::LfoStartPhaseOrSlew | Self::LfoDepth | Self::SampTune | Self::SampFineTune
            | Self::SampNumber | Self::SampBitReduction | Self::SampStart | Self::SampEnd
            | Self::SampLoopFlag | Self::SampVolume | Self::EnvResetFilter
            | Self::VelocityToVolume | Self::LegacyFxSend => Some(Shape::Plain),
            Self::VelModAmt | Self::AtModAmt => Some(Shape::Slotted),
        }
    }

    /// How the field is read, if it can be read at all.
    #[verifier::when_used_as_spec(spec_reads)]
    pub fn reads(self) -> (r: Option<Shape>)
        ensures
            r == self.spec_reads(),
    {
        match self {
            Self::Version | Self::Index | Self::IsPool | Self::IsKit | Self::IsWorkBuffer
            | Self::KitNumber | Self::SoundType => None,
            Self::Name | Self::AccentLevel | Self::AmpAttack | Self::AmpHold | Self::AmpDecay
            | Self::AmpOverdrive | Self::AmpDelaySend | Self::AmpReverbSend | Self::AmpPan
            | Self::AmpVolume | Self::FiltAttack | Self::FiltHold | Self::FiltDecay
            | Self::FiltRelease | Self::FiltCutoff | Self::FiltResonance
            | Self::FiltEnvelopeAmount | Self::LfoSpeed | Self::LfoFade
            | Self::LfoStartPhaseOrSlew | Self::LfoDepth | Self::SampTune | Self::SampFineTune
            | Self::SampNumber | Self::SampBitReduction | Self::SampStart | Self::SampEnd
            | Self::SampLoopFlag | Self::SampVolume | Self::EnvResetFilter
            | Self::VelocityToVolume | Self::LegacyFxSend => Some(Shape::Plain),
            Self::VelModAmt | Self::AtModAmt => Some(Shape::Slotted),
        }
    }

    /// What the field takes when it is written, if it can be written at all.
    pub open spec fn spec_writes(self) -> Option<Takes> {
        match self {
            Self::Version | Self::Index | Self::IsPool | Self::IsKit | Self::IsWorkBuffer
            | Self::KitNumber | Self::SoundType | Self::EnvResetFilter | Self::VelocityToVolume
            | Self::LegacyFxSend => None,
            Self::Name => Some(Takes::Name),
            Self::AccentLevel | Self::AmpAttack | Self::AmpHold | Self::AmpDecay
            | Self::AmpOverdrive | Self::AmpDelaySend | Self::AmpReverbSend | Self::AmpVolume
            | Self::FiltAttack | Self::FiltHold | Self::FiltDecay | Self::FiltRelease
            | Self::FiltCutoff | Self::FiltResonance | Self::LfoStartPhaseOrSlew
            | Self::SampNumber | Self::SampBitReduction | Self::SampVolume => Some(Takes::Unsigned),
            Self::AmpPan | Self::FiltEnvelopeAmount | Self::LfoSpeed | Self::LfoFade
            | Self::SampTune | Self::SampFineTune => Some(Takes::Signed),
            Self::LfoDepth | Self::SampStart | Self::SampEnd => Some(Takes::Real),
            Self::SampLoopFlag => Some(Takes::Flag),
            Self::VelModAmt | Self::AtModAmt => Some(Takes::SlotAmount),
        }
    }

    /// What the field takes when it is written, if it can be written at all.
    #[verifier::when_used_as_spec(spec_writes)]
    pub fn writes(self) -> (r: Option<Takes>)
        ensures
            r == self.spec_writes(),
    {
        match self {
            Self::Version | Self::Index | Self::IsPool | Self::IsKit | Self::IsWorkBuffer
            | Self::KitNumber | Self::SoundType | Self::EnvResetFilter | Self::VelocityToVolume
            | Self::LegacyFxSend => None,
            Self::Name => Some(Takes::Name),
            Self::AccentLevel | Self::AmpAttack | Self::AmpHold | Self::AmpDecay
            | Self::AmpOverdrive | Self::AmpDelaySend | Self::AmpReverbSend | Self::AmpVolume
            | Self::FiltAttack | Self::FiltHold | Self::FiltDecay | Self::FiltRelease
            | Self::FiltCutoff | Self::FiltResonance | Self::LfoStartPhaseOrSlew
            | Self::SampNumber | Self::SampBitReduction | Self::SampVolume => Some(Takes::Unsigned),
            Self::AmpPan | Self::FiltEnvelopeAmount | Self::LfoSpeed | Self::LfoFade
            | Self::SampTune | Self::SampFineTune => Some(Takes::Signed),
            Self::LfoDepth | Self::SampStart | Self::SampEnd => Some(Takes::Real),
            Self::SampLoopFlag => Some(Takes::Flag),
            Self::VelModAmt | Self::AtModAmt => Some(Takes::SlotAmount),
        }
    }

    /// Whether a trig can override the field with a parameter lock.
    pub open spec fn spec_lockable(self) -> bool {
        match self {
            Self::Version | Self::Index | Self::Name | Self::IsPool | Self::IsKit
            | Self::IsWorkBuffer | Self::KitNumber | Self::SoundType | Self::AccentLevel
            | Self::VelModAmt | Self::AtModAmt | Self::EnvResetFilter | Self::VelocityToVolume
            | Self::LegacyFxSend => false,
            Self::AmpAttack | Self::AmpHold | Self::AmpDecay | Self::AmpOverdrive
            | Self::AmpDelaySend | Self::AmpReverbSend | Self::AmpPan | Self::AmpVolume
            | Self::FiltAttack | Self::FiltHold | Self::FiltDecay | Self::FiltRelease
            | Self::FiltCutoff | Self::FiltResonance | Self::FiltEnvelopeAmount | Self::LfoSpeed
            | Self::LfoFade | Self::LfoStartPhaseOrSlew | Self::LfoDepth | Self::SampTune
            | Self::SampFineTune | Self::SampNumber | Self::SampBitReduction | Self::SampStart
            | Self::SampEnd | Self::SampLoopFlag | Self::SampVolume => true,
        }
    }

    /// Whether a trig can override the field with a parameter lock.
    #[verifier::when_used_as_spec(spec_lockable)]
    pub fn lockable(self) -> (r: bool)
        ensures
            r == self.spec_lockable(),
    {
        match self {
            Self::Version | Self::Index | Self::Name | Self::IsPool | Self::IsKit
            | Self::IsWorkBuffer | Self::KitNumber | Self::SoundType | Self::AccentLevel
            | Self::VelModAmt | Self::AtModAmt | Self::EnvResetFilter | Self::VelocityToVolume
            | Self::LegacyFxSend => false,
            Self::AmpAttack | Self::AmpHold | Self::AmpDecay | Self::AmpOverdrive
            | Self::AmpDelaySend | Self::AmpReverbSend | Self::AmpPan | Self::AmpVolume
            | Self::FiltAttack | Self::FiltHold | Self::FiltDecay | Self::FiltRelease
            | Self::FiltCutoff | Self::FiltResonance | Self::FiltEnvelopeAmount | Self::LfoSpeed
            | Self::LfoFade | Self::LfoStartPhaseOrSlew | Self::LfoDepth | Self::SampTune
            | Self::SampFineTune | Self::SampNumber | Self::SampBitReduction | Self::SampStart
            | Self::SampEnd | Self::SampLoopFlag | Self::SampVolume => true,
        }
    }
}

/// A field of a sound that holds a named variant.
#[derive(Debug, Clone, Copy, PartialEq, Eq, Structural)]
pub enum SoundEnum {
    MachineParameters,
    MachineType,
    LfoDestination,
    VelocityModTarget,
    AfterTouchModTarget,
    FilterType,
    LfoMultiplier,
    LfoWaveform,
    LfoMode,
    SoundSettingsChromaticMode,
}

impl SoundEnum {
    /// The word by which a command names this field.
    pub open spec fn name(self) -> Seq<char> {
        match self {
            Self::MachineParameters => "machineparameters"@,
            Self::MachineType => "machinetype"@,
            Self::LfoDestination => "lfodest"@,
            Self::VelocityModTarget => "velmodtarget"@,
            Self::AfterTouchModTarget => "atmodtarget"@,
            Self::FilterType => "filtertype"@,
            Self::LfoMultiplier => "lfomultiplier"@,
            Self::LfoWaveform => "lfowaveform"@,
            Self::LfoMode => "lfomode"@,
            Self::SoundSettingsChromaticMode => "chromaticmode"@,
        }
    }

    /// Whether a word names one of these.
    pub open spec fn known(s: Seq<char>) -> bool {
        exists|f: Self| f.name() == s
    }

    /// The word by which a command names this field.
    pub fn as_str(self) -> (r: &'static str)
        ensures
            r@ == self.name(),
    {
        match self {
            Self::MachineParameters => "machineparameters",
            Self::MachineType => "machinetype",
            Self::LfoDestination => "lfodest",
            Self::VelocityModTarget => "velmodtarget",
            Self::AfterTouchModTarget => "atmodtarget",
            Self::FilterType => "filtertype",
            Self::LfoMultiplier => "lfomultiplier",
            Self::LfoWaveform => "lfowaveform",
            Self::LfoMode => "lfomode",
            Self::SoundSettingsChromaticMode => "chromaticmode",
        }
    }

    /// The field a word names, if it names one.
    pub open spec fn named(s: Seq<char>) -> Option<Self> {
        if Self::known(s) {
            Some(choose|f: Self| f.name() == s)
        } else {
            None
        }
    }

    /// Looks a word up: the field that carries it, if there is one.
    pub fn from_name(s: &str) -> (r: Option<Self>)
        ensures
            r == Self::named(s@),
    {
        let r = if str_eq(s, "machineparameters") {
            Some(Self::MachineParameters)
        } else if str_eq(s, "machinetype") {
            Some(Self::MachineType)
        } else if str_eq(s, "lfodest") {
            Some(Self::LfoDestination)
        } else if str_eq(s, "velmodtarget") {
            Some(Self::VelocityModTarget)
        } else if str_eq(s, "atmodtarget") {
            Some(Self::AfterTouchModTarget)
        } else if str_eq(s, "filtertype") {
            Some(Self::FilterType)
        } else if str_eq(s, "lfomultiplier") {
            Some(Self::LfoMultiplier)
        } else if str_eq(s, "lfowaveform") {
            Some(Self::LfoWaveform)
        } else if str_eq(s, "lfomode") {
            Some(Self::LfoMode)
        } else if str_eq(s, "chromaticmode") {
            Some(Self::SoundSettingsChromaticMode)
        } else {
            None
        };
        proof {
            if let Some(f) = r {
                assert(f.name() == s@);
                Self::names_are_distinct(choose|g: Self| g.name() == s@, f);
            } else {
                assert forall|f: Self| f.name() != s@ by {}
            }
        }
        r
    }

    /// A field's own word names it and nothing else.
    pub proof fn named_by_its_name(self)
        ensures
            Self::named(self.name()) == Some(self),
    {
        assert(Self::known(self.name()));
        Self::names_are_distinct(choose|g: Self| g.name() == self.name(), self);
    }

    /// No two of these share a word, so a word names at most one field.
    pub proof fn names_are_distinct(a: Self, b: Self)
        requires
            a.name() == b.name(),
        ensures
            a == b,
    {
        reveal_strlit("machineparameters");
        reveal_strlit("machinetype");
        reveal_strlit("lfodest");
        reveal_strlit("velmodtarget");
        reveal_strlit("atmodtarget");
        reveal_strlit("filtertype");
        reveal_strlit("lfomultiplier");
        reveal_strlit("lfowaveform");
        reveal_strlit("lfomode");
        reveal_strlit("chromaticmode");
        assert("machineparameters"@.len() == 17);
        assert("machinetype"@.len() == 11 && "machinetype"@[0] == 'm');
        assert("lfodest"@.len() == 7 && "lfodest"@[3] == 'd');
        assert("velmodtarget"@.len() == 12);
        assert("atmodtarget"@.len() == 11 && "atmodtarget"@[0] == 'a');
        assert("filtertype"@.len() == 10);
        assert("lfomultiplier"@.len() == 13 && "lfomultiplier"@[0] == 'l');
        assert("lfowaveform"@.len() == 11 && "lfowaveform"@[0] == 'l');
        assert("lfomode"@.len() == 7 && "lfomode"@[3] == 'm');
        assert("chromaticmode"@.len() == 13 && "chromaticmode"@[0] == 'c');
    }

    /// The word holds no colon, so it is never mistaken for an enum reference.
    pub proof fn name_is_plain(self)
        ensures
            is_plain(self.name()),
    {
        reveal_with_fuel(has_no_colon, 32);
        reveal_strlit("machineparameters");
        reveal_strlit("machinetype");
        reveal_strlit("lfodest");
        reveal_strlit("velmodtarget");
        reveal_strlit("atmodtarget");
        reveal_strlit("filtertype");
        reveal_strlit("lfomultiplier");
        reveal_strlit("lfowaveform");
        reveal_strlit("lfomode");
        reveal_strlit("chromaticmode");
        assert(has_no_colon("machineparameters"@, 17));
        assert(has_no_colon("machinetype"@, 11));
        assert(has_no_colon("lfodest"@, 7));
        assert(has_no_colon("velmodtarget"@, 12));
        assert(has_no_colon("atmodtarget"@, 11));
        assert(has_no_colon("filtertype"@, 10));
        assert(has_no_colon("lfomultiplier"@, 13));
        assert(has_no_colon("lfowaveform"@, 11));
        assert(has_no_colon("lfomode"@, 7));
        assert(has_no_colon("chromaticmode"@, 13));
        lemma_plain_text(self.name());
    }

    /// How the field is read, if it can be read at all.
    pub open spec fn spec_reads(self) -> Option<Shape> {
        match self {
            Self::MachineParameters => None,
            Self::MachineType | Self::LfoDestination | Self::FilterType | Self::LfoMultiplier
            | Self::LfoWaveform | Self::LfoMode | Self::SoundSettingsChromaticMode => Some(Shape::Plain),
            Self::VelocityModTarget | Self::AfterTouchModTarget => Some(Shape::Slotted),
        }
    }

    /// How the field is read, if it can be read at all.
    #[verifier::when_used_as_spec(spec_reads)]
    pub fn reads(self) -> (r: Option<Shape>)
        ensures
            r == self.spec_reads(),
    {
        match self {
            Self::MachineParameters => None,
            Self::MachineType | Self::LfoDestination | Self::FilterType | Self::LfoMultiplier
            | Self::LfoWaveform | Self::LfoMode | Self::SoundSettingsChromaticMode => Some(Shape::Plain),
            Self::VelocityModTarget | Self::AfterTouchModTarget => Some(Shape::Slotted),
        }
    }

    /// How the field is written, if it can be written at all.
    pub open spec fn spec_writes(self) -> Option<Shape> {
        match self {
            Self::MachineParameters => None,
            Self::MachineType | Self::LfoDestination | Self::FilterType | Self::LfoMultiplier
            | Self::LfoWaveform | Self::LfoMode | Self::SoundSettingsChromaticMode => Some(Shape::Plain),
            Self::VelocityModTarget | Self::AfterTouchModTarget => Some(Shape::Slotted),
        }
    }

    /// How the field is written, if it can be written at all.
    #[verifier::when_used_as_spec(spec_writes)]
    pub fn writes(self) -> (r: Option<Shape>)
        ensures
            r == self.spec_writes(),
    {
        match self {
            Self::MachineParameters => None,
            Self::MachineType | Self::LfoDestination | Self::FilterType | Self::LfoMultiplier
            | Self::LfoWaveform | Self::LfoMode | Self::SoundSettingsChromaticMode => Some(Shape::Plain),
            Self::VelocityModTarget | Self::AfterTouchModTarget => Some(Shape::Slotted),
        }
    }

    /// Whether a trig can override the field with a parameter lock.
    pub open spec fn spec_lockable(self) -> bool {
        match self {
            Self::MachineParameters | Self::MachineType | Self::VelocityModTarget
            | Self::AfterTouchModTarget | Self::SoundSettingsChromaticMode => false,
            Self::LfoDestination | Self::FilterType | Self::LfoMultiplier | Self::LfoWaveform
            | Self::LfoMode => true,
        }
    }

    /// Whether a trig can override the field with a parameter lock.
    #[verifier::when_used_as_spec(spec_lockable)]
    pub fn lockable(self) -> (r: bool)
        ensures
            r == self.spec_lockable(),
    {
        match self {
            Self::MachineParameters | Self::MachineType | Self::VelocityModTarget
            | Self::AfterTouchModTarget | Self::SoundSettingsChromaticMode => false,
            Self::LfoDestination | Self::FilterType | Self::LfoMultiplier | Self::LfoWaveform
            | Self::LfoMode => true,
        }
    }
}

} // verus!
