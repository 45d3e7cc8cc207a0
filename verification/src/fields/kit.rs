//! The fields of a kit and of its per-track elements.

use vstd::prelude::*;
use crate::text::{has_no_colon, is_plain, lemma_plain_text, str_eq};
use crate::fields::{Shape, Takes};

verus! {

/// A numeric or text field of a kit.
#[derive(Debug, Clone, Copy, PartialEq, Eq, Structural)]
pub enum KitAction {
    Version,
    Index,
    Name,
    ControlIn1ModAmt,
    ControlIn2ModAmt,
    FxDelayTime,
    FxDelayPingPong,
    FxDelayStereoWidth,
    FxDelayFeedback,
    FxDelayHpf,
    FxDelayLpf,
    FxDelayReverbSend,
    FxDelayVolume,
    FxReverbPreDelay,
    FxReverbDecay,
    FxReverbFreq,
    FxReverbGain,
    FxReverbHpf,
    FxReverbLpf,
    FxReverbVolume,
    FxCompThreshold,
    FxCompGain,
    FxCompMix,
    FxCompVolume,
    FxLfoSpeed,
    FxLfoFade,
    FxLfoStartPhaseOrSlew,
    FxLfoDepth,
    FxDistortionDelayOverdrive,
    FxDistortionDelayPost,
    FxDistortionReverbPost,
    FxDistortionAmount,
    FxDistortionSymmetry,
}

impl KitAction {
    /// The word by which a command names this field.
    pub open spec fn name(self) -> Seq<char> {
        match self {
            Self::Version => "version"@,
            Self::Index => "index"@,
            Self::Name => "name"@,
            Self::ControlIn1ModAmt => "ctrlinmod1amt"@,
            Self::ControlIn2ModAmt => "ctrlinmod2amt"@,
            Self::FxDelayTime => "fxdeltime"@,
            Self::FxDelayPingPong => "fxdelpingpong"@,
            Self::FxDelayStereoWidth => "fxdelstereowidth"@,
            Self::FxDelayFeedback => "fxdelfeedback"@,
            Self::FxDelayHpf => "fxdelhpf"@,
            Self::FxDelayLpf => "fxdellpf"@,
            Self::FxDelayReverbSend => "fxdelrevsend"@,
            Self::FxDelayVolume => "fxdellev"@,
            Self::FxReverbPreDelay => "fxrevpredel"@,
            Self::FxReverbDecay => "fxrevdecay"@,
            Self::FxReverbFreq => "fxrevfreq"@,
            Self::FxReverbGain => "fxrevgain"@,
            Self::FxReverbHpf => "fxrevhpf"@,
            Self::FxReverbLpf => "fxrevlpf"@,
            Self::FxReverbVolume => "fxrevlev"@,
            Self::FxCompThreshold => "fxcompthr"@,
            Self::FxCompGain => "fxcompgain"@,
            Self::FxCompMix => "fxcompmix"@,
            Self::FxCompVolume => "fxcomplev"@,
            Self::FxLfoSpeed => "fxlfospeed"@,
            Self::FxLfoFade => "fxlfofade"@,
            Self::FxLfoStartPhaseOrSlew => "fxlfostartphase"@,
            Self::FxLfoDepth => "fxlfodepth"@,
            Self::FxDistortionDelayOverdrive => "fxdistdov"@,
            Self::FxDistortionDelayPost => "fxdistdelpost"@,
            Self::FxDistortionReverbPost => "fxdistrevpost"@,
            Self::FxDistortionAmount => "fxdistamt"@,
            Self::FxDistortionSymmetry => "fxdistsym"@,
        }
    }

    /// Whether a word names one of these.
    pub open spec fn known(s: Seq<char>) -> bool {
        exists|f: Self| f.name() == s
    }

    /// The word by which a command names this field.
    pub fn as_str(self) -> (r: &'static str)
        ensures
            r@ == self.name(),
    {
        match self {
            Self::Version => "version",
            Self::Index => "index",
            Self::Name => "name",
            Self::ControlIn1ModAmt => "ctrlinmod1amt",
            Self::ControlIn2ModAmt => "ctrlinmod2amt",
            Self::FxDelayTime => "fxdeltime",
            Self::FxDelayPingPong => "fxdelpingpong",
            Self::FxDelayStereoWidth => "fxdelstereowidth",
            Self::FxDelayFeedback => "fxdelfeedback",
            Self::FxDelayHpf => "fxdelhpf",
            Self::FxDelayLpf => "fxdellpf",
            Self::FxDelayReverbSend => "fxdelrevsend",
            Self::FxDelayVolume => "fxdellev",
            Self::FxReverbPreDelay => "fxrevpredel",
            Self::FxReverbDecay => "fxrevdecay",
            Self::FxReverbFreq => "fxrevfreq",
            Self::FxReverbGain => "fxrevgain",
            Self::FxReverbHpf => "fxrevhpf",
            Self::FxReverbLpf => "fxrevlpf",
            Self::FxReverbVolume => "fxrevlev",
            Self::FxCompThreshold => "fxcompthr",
            Self::FxCompGain => "fxcompgain",
            Self::FxCompMix => "fxcompmix",
            Self::FxCompVolume => "fxcomplev",
            Self::FxLfoSpeed => "fxlfospeed",
            Self::FxLfoFade => "fxlfofade",
            Self::FxLfoStartPhaseOrSlew => "fxlfostartphase",
            Self::FxLfoDepth => "fxlfodepth",
            Self::FxDistortionDelayOverdrive => "fxdistdov",
            Self::FxDistortionDelayPost => "fxdistdelpost",
            Self::FxDistortionReverbPost => "fxdistrevpost",
            Self::FxDistortionAmount => "fxdistamt",
            Self::FxDistortionSymmetry => "fxdistsym",
        }
    }

    /// The field a word names, if it names one.
    pub open spec fn named(s: Seq<char>) -> Option<Self> {
        if Self::known(s) {
            Some(choose|f: Self| f.name() == s)
        } else {
            None
        }
    }

    /// Looks a word up: the field that carries it, if there is one.
    pub fn from_name(s: &str) -> (r: Option<Self>)
        ensures
            r == Self::named(s@),
    {
        let r = if str_eq(s, "version") {
            Some(Self::Version)
        } else if str_eq(s, "index") {
            Some(Self::Index)
        } else if str_eq(s, "name") {
            Some(Self::Name)
        } else if str_eq(s, "ctrlinmod1amt") {
            Some(Self::ControlIn1ModAmt)
        } else if str_eq(s, "ctrlinmod2amt") {
            Some(Self::ControlIn2ModAmt)
        } else if str_eq(s, "fxdeltime") {
            Some(Self::FxDelayTime)
        } else if str_eq(s, "fxdelpingpong") {
            Some(Self::FxDelayPingPong)
        } else if str_eq(s, "fxdelstereowidth") {
            Some(Self::FxDelayStereoWidth)
        } else if str_eq(s, "fxdelfeedback") {
            Some(Self::FxDelayFeedback)
        } else if str_eq(s, "fxdelhpf") {
            Some(Self::FxDelayHpf)
        } else if str_eq(s, "fxdellpf") {
            Some(Self::FxDelayLpf)
        } else if str_eq(s, "fxdelrevsend") {
            Some(Self::FxDelayReverbSend)
        } else if str_eq(s, "fxdellev") {
            Some(Self::FxDelayVolume)
        } else if str_eq(s, "fxrevpredel") {
            Some(Self::FxReverbPreDelay)
        } else if str_eq(s, "fxrevdecay") {
            Some(Self::FxReverbDecay)
        } else if str_eq(s, "fxrevfreq") {
            Some(Self::FxReverbFreq)
        } else if str_eq(s, "fxrevgain") {
            Some(Self::FxReverbGain)
        } else if str_eq(s, "fxrevhpf") {
            Some(Self::FxReverbHpf)
        } else if str_eq(s, "fxrevlpf") {
            Some(Self::FxReverbLpf)
        } else if str_eq(s, "fxrevlev") {
            Some(Self::FxReverbVolume)
        } else if str_eq(s, "fxcompthr") {
            Some(Self::FxCompThreshold)
        } else if str_eq(s, "fxcompgain") {
            Some(Self::FxCompGain)
        } else if str_eq(s, "fxcompmix") {
            Some(Self::FxCompMix)
        } else if str_eq(s, "fxcomplev") {
            Some(Self::FxCompVolume)
        } else if str_eq(s, "fxlfospeed") {
            Some(Self::FxLfoSpeed)
        } else if str_eq(s, "fxlfofade") {
            Some(Self::FxLfoFade)
        } else if str_eq(s, "fxlfostartphase") {
            Some(Self::FxLfoStartPhaseOrSlew)
        } else if str_eq(s, "fxlfodepth") {
            Some(Self::FxLfoDepth)
        } else if str_eq(s, "fxdistdov") {
            Some(Self::FxDistortionDelayOverdrive)
        } else if str_eq(s, "fxdistdelpost") {
            Some(Self::FxDistortionDelayPost)
        } else if str_eq(s, "fxdistrevpost") {
            Some(Self::FxDistortionReverbPost)
        } else if str_eq(s, "fxdistamt") {
            Some(Self::FxDistortionAmount)
        } else if str_eq(s, "fxdistsym") {
            Some(Self::FxDistortionSymmetry)
        } else {
            None
        };
        proof {
            if let Some(f) = r {
                assert(f.name() == s@);
                Self::names_are_distinct(choose|g: Self| g.name() == s@, f);
            } else {
                assert forall|f: Self| f.name() != s@ by {}
            }
        }
        r
    }

    /// A field's own word names it and nothing else.
    pub proof fn named_by_its_name(self)
        ensures
            Self::named(self.name()) == Some(self),
    {
        assert(Self::known(self.name()));
        Self::names_are_distinct(choose|g: Self| g.name() == self.name(), self);
    }

    /// No two of these share a word, so a word names at most one field.
    pub proof fn names_are_distinct(a: Self, b: Self)
        requires
            a.name() == b.name(),
        ensures
            a == b,
    {
        reveal_strlit("version");
        reveal_strlit("index");
        reveal_strlit("name");
        reveal_strlit("ctrlinmod1amt");
        reveal_strlit("ctrlinmod2amt");
        reveal_strlit("fxdeltime");
        reveal_strlit("fxdelpingpong");
        reveal_strlit("fxdelstereowidth");
        reveal_strlit("fxdelfeedback");
        reveal_strlit("fxdelhpf");
        reveal_strlit("fxdellpf");
        reveal_strlit("fxdelrevsend");
        reveal_strlit("fxdellev");
        reveal_strlit("fxrevpredel");
        reveal_strlit("fxrevdecay");
        reveal_strlit("fxrevfreq");
        reveal_strlit("fxrevgain");
        reveal_strlit("fxrevhpf");
        reveal_strlit("fxrevlpf");
        reveal_strlit("fxrevlev");
        reveal_strlit("fxcompthr");
        reveal_strlit("fxcompgain");
        reveal_strlit("fxcompmix");
        reveal_strlit("fxcomplev");
        reveal_strlit("fxlfospeed");
        reveal_strlit("fxlfofade");
        reveal_strlit("fxlfostartphase");
        reveal_strlit("fxlfodepth");
        reveal_strlit("fxdistdov");
        reveal_strlit("fxdistdelpost");
        reveal_strlit("fxdistrevpost");
        reveal_strlit("fxdistamt");
        reveal_strlit("fxdistsym");
        assert("version"@.len() == 7);
        assert("index"@.len() == 5);
        assert("name"@.len() == 4);
        assert("ctrlinmod1amt"@.len() == 13 && "ctrlinmod1amt"@[6] == 'm' && "ctrlinmod1amt"@[9] == '1');
        assert("ctrlinmod2amt"@.len() == 13 && "ctrlinmod2amt"@[6] == 'm' && "ctrlinmod2amt"@[9] == '2');
        assert("fxdeltime"@.len() == 9 && "fxdeltime"@[2] == 'd' && "fxdeltime"@[8] == 'e');
        assert("fxdelpingpong"@.len() == 13 && "fxdelpingpong"@[6] == 'i' && "fxdelpingpong"@[9] == 'p');
        assert("fxdelstereowidth"@.len() == 16);
        assert("fxdelfeedback"@.len() == 13 && "fxdelfeedback"@[6] == 'e' && "fxdelfeedback"@[9] == 'b');
        assert("fxdelhpf"@.len() == 8 && "fxdelhpf"@[2] == 'd' && "fxdelhpf"@[5] == 'h' && "fxdelhpf"@[6] == 'p');
        assert("fxdellpf"@.len() == 8 && "fxdellpf"@[2] == 'd' && "fxdellpf"@[5] == 'l' && "fxdellpf"@[6] == 'p');
        assert("fxdelrevsend"@.len() == 12);
        assert("fxdellev"@.len() == 8 && "fxdellev"@[2] == 'd' && "fxdellev"@[5] == 'l' && "fxdellev"@[6] == 'e');
        assert("fxrevpredel"@.len() == 11);
        assert("fxrevdecay"@.len() == 10 && "fxrevdecay"@[7] == 'c');
        assert("fxrevfreq"@.len() == 9 && "fxrevfreq"@[2] == 'r' && "fxrevfreq"@[8] == 'q');
        assert("fxrevgain"@.len() == 9 && "fxrevgain"@[2] == 'r' && "fxrevgain"@[8] == 'n');
        assert("fxrevhpf"@.len() == 8 && "fxrevhpf"@[2] == 'r' && "fxrevhpf"@[5] == 'h' && "fxrevhpf"@[6] == 'p');
        assert("fxrevlpf"@.len() == 8 && "fxrevlpf"@[2] == 'r' && "fxrevlpf"@[5] == 'l' && "fxrevlpf"@[6] == 'p');
        assert("fxrevlev"@.len() == 8 && "fxrevlev"@[2] == 'r' && "fxrevlev"@[5] == 'l' && "fxrevlev"@[6] == 'e');
        assert("fxcompthr"@.len() == 9 && "fxcompthr"@[2] == 'c' && "fxcompthr"@[8] == 'r');
        assert("fxcompgain"@.len() == 10 && "fxcompgain"@[7] == 'a');
        assert("fxcompmix"@.len() == 9 && "fxcompmix"@[2] == 'c' && "fxcompmix"@[8] == 'x');
        assert("fxcomplev"@.len() == 9 && "fxcomplev"@[2] == 'c' && "fxcomplev"@[8] == 'v');
        assert("fxlfospeed"@.len() == 10 && "fxlfospeed"@[7] == 'e');
        assert("fxlfofade"@.len() == 9 && "fxlfofade"@[2] == 'l' && "fxlfofade"@[8] == 'e');
        assert("fxlfostartphase"@.len() == 15);
        assert("fxlfodepth"@.len() == 10 && "fxlfodepth"@[7] == 'p');
        assert("fxdistdov"@.len() == 9 && "fxdistdov"@[2] == 'd' && "fxdistdov"@[8] == 'v');
        assert("fxdistdelpost"@.len() == 13 && "fxdistdelpost"@[6] == 'd' && "fxdistdelpost"@[9] == 'p');
        assert("fxdistrevpost"@.len() == 13 && "fxdistrevpost"@[6] == 'r' && "fxdistrevpost"@[9] == 'p');
        assert("fxdistamt"@.len() == 9 && "fxdistamt"@[2] == 'd' && "fxdistamt"@[8] == 't');
        assert("fxdistsym"@.len() == 9 && "fxdistsym"@[2] == 'd' && "fxdistsym"@[8] == 'm');
    }

    /// The word holds no colon, so it is never mistaken for an enum reference.
    pub proof fn name_is_plain(self)
        ensures
            is_plain(self.name()),
    {
        reveal_with_fuel(has_no_colon, 32);
        reveal_strlit("version");
        reveal_strlit("index");
        reveal_strlit("name");
        reveal_strlit("ctrlinmod1amt");
        reveal_strlit("ctrlinmod2amt");
        reveal_strlit("fxdeltime");
        reveal_strlit("fxdelpingpong");
        reveal_strlit("fxdelstereowidth");
        reveal_strlit("fxdelfeedback");
        reveal_strlit("fxdelhpf");
        reveal_strlit("fxdellpf");
        reveal_strlit("fxdelrevsend");
        reveal_strlit("fxdellev");
        reveal_strlit("fxrevpredel");
        reveal_strlit("fxrevdecay");
        reveal_strlit("fxrevfreq");
        reveal_strlit("fxrevgain");
        reveal_strlit("fxrevhpf");
        reveal_strlit("fxrevlpf");
        reveal_strlit("fxrevlev");
        reveal_strlit("fxcompthr");
        reveal_strlit("fxcompgain");
        reveal_strlit("fxcompmix");
        reveal_strlit("fxcomplev");
        reveal_strlit("fxlfospeed");
        reveal_strlit("fxlfofade");
        reveal_strlit("fxlfostartphase");
        reveal_strlit("fxlfodepth");
        reveal_strlit("fxdistdov");
        reveal_strlit("fxdistdelpost");
        reveal_strlit("fxdistrevpost");
        reveal_strlit("fxdistamt");
        reveal_strlit("fxdistsym");
        assert(has_no_colon("version"@, 7));
        assert(has_no_colon("index"@, 5));
        assert(has_no_colon("name"@, 4));
        assert(has_no_colon("ctrlinmod1amt"@, 13));
        assert(has_no_colon("ctrlinmod2amt"@, 13));
        assert(has_no_colon("fxdeltime"@, 9));
        assert(has_no_colon("fxdelpingpong"@, 13));
        assert(has_no_colon("fxdelstereowidth"@, 16));
        assert(has_no_colon("fxdelfeedback"@, 13));
        assert(has_no_colon("fxdelhpf"@, 8));
        assert(has_no_colon("fxdellpf"@, 8));
        assert(has_no_colon("fxdelrevsend"@, 12));
        assert(has_no_colon("fxdellev"@, 8));
        assert(has_no_colon("fxrevpredel"@, 11));
        assert(has_no_colon("fxrevdecay"@, 10));
        assert(has_no_colon("fxrevfreq"@, 9));
        assert(has_no_colon("fxrevgain"@, 9));
        assert(has_no_colon("fxrevhpf"@, 8));
        assert(has_no_colon("fxrevlpf"@, 8));
        assert(has_no_colon("fxrevlev"@, 8));
        assert(has_no_colon("fxcompthr"@, 9));
        assert(has_no_colon("fxcompgain"@, 10));
        assert(has_no_colon("fxcompmix"@, 9));
        assert(has_no_colon("fxcomplev"@, 9));
        assert(has_no_colon("fxlfospeed"@, 10));
        assert(has_no_colon("fxlfofade"@, 9));
        assert(has_no_colon("fxlfostartphase"@, 15));
        assert(has_no_colon("fxlfodepth"@, 10));
        assert(has_no_colon("fxdistdov"@, 9));
        assert(has_no_colon("fxdistdelpost"@, 13));
        assert(has_no_colon("fxdistrevpost"@, 13));
        assert(has_no_colon("fxdistamt"@, 9));
        assert(has_no_colon("fxdistsym"@, 9));
        lemma_plain_text(self.name());
    }

    /// How the field is read, if it can be read at all.
    pub open spec fn spec_reads(self) -> Option<Shape> {
        match self {
            Self::Version | Self::Index | Self::Name | Self::FxDelayTime | Self::FxDelayPingPong
            | Self::FxDelayStereoWidth | Self::FxDelayFeedback | Self::FxDelayHpf
            | Self::FxDelayLpf | Self::FxDelayReverbSend | Self::FxDelayVolume
            | Self::FxReverbPreDelay | Self::FxReverbDecay | Self::FxReverbFreq
            | Self::FxReverbGain | Self::FxReverbHpf | Self::FxReverbLpf | Self::FxReverbVolume
            | Self::FxCompThreshold | Self::FxCompGain | Self::FxCompMix | Self::FxCompVolume
            | Self::FxLfoSpeed | Self::FxLfoFade | Self::FxLfoStartPhaseOrSlew
            | Self::FxLfoDepth | Self::FxDistortionDelayOverdrive | Self::FxDistortionDelayPost
            | Self::FxDistortionReverbPost | Self::FxDistortionAmount
            | Self::FxDistortionSymmetry => Some(Shape::Plain),
            Self::ControlIn1ModAmt | Self::ControlIn2ModAmt => Some(Shape::Slotted),
        }
    }

    /// How the field is read, if it can be read at all.
    #[verifier::when_used_as_spec(spec_reads)]
    pub fn reads(self) -> (r: Option<Shape>)
        ensures
            r == self.spec_reads(),
    {
        match self {
            Self::Version | Self::Index | Self::Name | Self::FxDelayTime | Self::FxDelayPingPong
            | Self::FxDelayStereoWidth | Self::FxDelayFeedback | Self::FxDelayHpf
            | Self::FxDelayLpf | Self::FxDelayReverbSend | Self::FxDelayVolume
            | Self::FxReverbPreDelay | Self::FxReverbDecay | Self::FxReverbFreq
            | Self::FxReverbGain | Self::FxReverbHpf | Self::FxReverbLpf | Self::FxReverbVolume
            | Self::FxCompThreshold | Self::FxCompGain | Self::FxCompMix | Self::FxCompVolume
            | Self::FxLfoSpeed | Self::FxLfoFade | Self::FxLfoStartPhaseOrSlew
            | Self::FxLfoDepth | Self::FxDistortionDelayOverdrive | Self::FxDistortionDelayPost
            | Self::FxDistortionReverbPost | Self::FxDistortionAmount
            | Self::FxDistortionSymmetry => Some(Shape::Plain),
            Self::ControlIn1ModAmt | Self::ControlIn2ModAmt => Some(Shape::Slotted),
        }
    }

    /// What the field takes when it is written, if it can be written at all.
    pub open spec fn spec_writes(self) -> Option<Takes> {
        match self {
            Self::Version | Self::Index => None,
            Self::Name => Some(Takes::Name),
            Self::ControlIn1ModAmt | Self::ControlIn2ModAmt => Some(Takes::SlotAmount),
            Self::FxDelayTime | Self::FxDelayFeedback | Self::FxDelayHpf | Self::FxDelayLpf
            | Self::FxDelayReverbSend | Self::FxDelayVolume | Self::FxReverbPreDelay
            | Self::FxReverbDecay | Self::FxReverbFreq | Self::FxReverbGain | Self::FxReverbHpf
            | Self::FxReverbLpf | Self::FxReverbVolume | Self::FxCompThreshold
            | Self::FxCompGain | Self::FxCompMix | Self::FxCompVolume
            | Self::FxLfoStartPhaseOrSlew | Self::FxDistortionDelayOverdrive
            | Self::FxDistortionAmount => Some(Takes::Unsigned),
            Self::FxDelayPingPong | Self::FxDistortionDelayPost | Self::FxDistortionReverbPost => Some(Takes::Flag),
            Self::FxDelayStereoWidth | Self::FxLfoSpeed | Self::FxLfoFade
            | Self::FxDistortionSymmetry => Some(Takes::Signed),
            Self::FxLfoDepth => Some(Takes::Real),
        }
    }

    /// What the field takes when it is written, if it can be written at all.
    #[verifier::when_used_as_spec(spec_writes)]
    pub fn writes(self) -> (r: Option<Takes>)
        ensures
            r == self.spec_writes(),
    {
        match self {
            Self::Version | Self::Index => None,
            Self::Name => Some(Takes::Name),
            Self::ControlIn1ModAmt | Self::ControlIn2ModAmt => Some(Takes::SlotAmount),
            Self::FxDelayTime | Self::FxDelayFeedback | Self::FxDelayHpf | Self::FxDelayLpf
            | Self::FxDelayReverbSend | Self::FxDelayVolume | Self::FxReverbPreDelay
            | Self::FxReverbDecay | Self::FxReverbFreq | Self::FxReverbGain | Self::FxReverbHpf
            | Self::FxReverbLpf | Self::FxReverbVolume | Self::FxCompThreshold
            | Self::FxCompGain | Self::FxCompMix | Self::FxCompVolume
            | Self::FxLfoStartPhaseOrSlew | Self::FxDistortionDelayOverdrive
            | Self::FxDistortionAmount => Some(Takes::Unsigned),
            Self::FxDelayPingPong | Self::FxDistortionDelayPost | Self::FxDistortionReverbPost => Some(Takes::Flag),
            Self::FxDelayStereoWidth | Self::FxLfoSpeed | Self::FxLfoFade
            | Self::FxDistortionSymmetry => Some(Takes::Signed),
            Self::FxLfoDepth => Some(Takes::Real),
        }
    }

    /// Whether a trig can override the field with a parameter lock.
    pub open spec fn spec_lockable(self) -> bool {
        match self {
            Self::Version | Self::Index | Self::Name | Self::ControlIn1ModAmt
            | Self::ControlIn2ModAmt | Self::FxDistortionDelayOverdrive
            | Self::FxDistortionDelayPost | Self::FxDistortionReverbPost
            | Self::FxDistortionAmount | Self::FxDistortionSymmetry => false,
            Self::FxDelayTime | Self::FxDelayPingPong | Self::FxDelayStereoWidth
            | Self::FxDelayFeedback | Self::FxDelayHpf | Self::FxDelayLpf
            | Self::FxDelayReverbSend | Self::FxDelayVolume | Self::FxReverbPreDelay
            | Self::FxReverbDecay | Self::FxReverbFreq | Self::FxReverbGain | Self::FxReverbHpf
            | Self::FxReverbLpf | Self::FxReverbVolume | Self::FxCompThreshold
            | Self::FxCompGain | Self::FxCompMix | Self::FxCompVolume | Self::FxLfoSpeed
            | Self::FxLfoFade | Self::FxLfoStartPhaseOrSlew | Self::FxLfoDepth => true,
        }
    }

    /// Whether a trig can override the field with a parameter lock.
    #[verifier::when_used_as_spec(spec_lockable)]
    pub fn lockable(self) -> (r: bool)
        ensures
            r == self.spec_lockable(),
    {
        match self {
            Self::Version | Self::Index | Self::Name | Self::ControlIn1ModAmt
            | Self::ControlIn2ModAmt | Self::FxDistortionDelayOverdrive
            | Self::FxDistortionDelayPost | Self::FxDistortionReverbPost
            | Self::FxDistortionAmount | Self::FxDistortionSymmetry => false,
            Self::FxDelayTime | Self::FxDelayPingPong | Self::FxDelayStereoWidth
            | Self::FxDelayFeedback | Self::FxDelayHpf | Self::FxDelayLpf
            | Self::FxDelayReverbSend | Self::FxDelayVolume | Self::FxReverbPreDelay
            | Self::FxReverbDecay | Self::FxReverbFreq | Self::FxReverbGain | Self::FxReverbHpf
            | Self::FxReverbLpf | Self::FxReverbVolume | Self::FxCompThreshold
            | Self::FxCompGain | Self::FxCompMix | Self::FxCompVolume | Self::FxLfoSpeed
            | Self::FxLfoFade | Self::FxLfoStartPhaseOrSlew | Self::FxLfoDepth => true,
        }
    }
}

/// A field of a kit that holds a named variant.
#[derive(Debug, Clone, Copy, PartialEq, Eq, Structural)]
pub enum KitEnum {
    ControlIn1ModTarget,
    ControlIn2ModTarget,
    FxLfoDestination,
    FxDelayTimeOnTheGrid,
    FxCompAttack,
    FxCompRelease,
    FxCompRatio,
    FxCompSideChainEq,
}

impl KitEnum {
    /// The word by which a command names this field.
    pub open spec fn name(self) -> Seq<char> {
        match self {
            Self::ControlIn1ModTarget => "ctrlinmod1target"@,
            Self::ControlIn2ModTarget => "ctrlinmod2target"@,
            Self::FxLfoDestination => "fxlfodest"@,
            Self::FxDelayTimeOnTheGrid => "fxdeltimeonthegrid"@,
            Self::FxCompAttack => "fxcompattack"@,
            Self::FxCompRelease => "fxcomprelease"@,
            Self::FxCompRatio => "fxcompratio"@,
            Self::FxCompSideChainEq => "fxcompsidechaineq"@,
        }
    }

    /// Whether a word names one of these.
    pub open spec fn known(s: Seq<char>) -> bool {
        exists|f: Self| f.name() == s
    }

    /// The word by which a command names this field.
    pub fn as_str(self) -> (r: &'static str)
        ensures
            r@ == self.name(),
    {
        match self {
            Self::ControlIn1ModTarget => "ctrlinmod1target",
            Self::ControlIn2ModTarget => "ctrlinmod2target",
            Self::FxLfoDestination => "fxlfodest",
            Self::FxDelayTimeOnTheGrid => "fxdeltimeonthegrid",
            Self::FxCompAttack => "fxcompattack",
            Self::FxCompRelease => "fxcomprelease",
            Self::FxCompRatio => "fxcompratio",
            Self::FxCompSideChainEq => "fxcompsidechaineq",
        }
    }

    /// The field a word names, if it names one.
    pub open spec fn named(s: Seq<char>) -> Option<Self> {
        if Self::known(s) {
            Some(choose|f: Self| f.name() == s)
        } else {
            None
        }
    }

    /// Looks a word up: the field that carries it, if there is one.
    pub fn from_name(s: &str) -> (r: Option<Self>)
        ensures
            r == Self::named(s@),
    {
        let r = if str_eq(s, "ctrlinmod1target") {
            Some(Self::ControlIn1ModTarget)
        } else if str_eq(s, "ctrlinmod2target") {
            Some(Self::ControlIn2ModTarget)
        } else if str_eq(s, "fxlfodest") {
            Some(Self::FxLfoDestination)
        } else if str_eq(s, "fxdeltimeonthegrid") {
            Some(Self::FxDelayTimeOnTheGrid)
        } else if str_eq(s, "fxcompattack") {
            Some(Self::FxCompAttack)
        } else if str_eq(s, "fxcomprelease") {
            Some(Self::FxCompRelease)
        } else if str_eq(s, "fxcompratio") {
            Some(Self::FxCompRatio)
        } else if str_eq(s, "fxcompsidechaineq") {
            Some(Self::FxCompSideChainEq)
        } else {
            None
        };
        proof {
            if let Some(f) = r {
                assert(f.name() == s@);
                Self::names_are_distinct(choose|g: Self| g.name() == s@, f);
            } else {
                assert forall|f: Self| f.name() != s@ by {}
            }
        }
        r
    }

    /// A field's own word names it and nothing else.
    pub proof fn named_by_its_name(self)
        ensures
            Self::named(self.name()) == Some(self),
    {
        assert(Self::known(self.name()));
        Self::names_are_distinct(choose|g: Self| g.name() == self.name(), self);
    }

    /// No two of these share a word, so a word names at most one field.
    pub proof fn names_are_distinct(a: Self, b: Self)
        requires
            a.name() == b.name(),
        ensures
            a == b,
    {
        reveal_strlit("ctrlinmod1target");
        reveal_strlit("ctrlinmod2target");
        reveal_strlit("fxlfodest");
        reveal_strlit("fxdeltimeonthegrid");
        reveal_strlit("fxcompattack");
        reveal_strlit("fxcomprelease");
        reveal_strlit("fxcompratio");
        reveal_strlit("fxcompsidechaineq");
        assert("ctrlinmod1target"@.len() == 16 && "ctrlinmod1target"@[9] == '1');
        assert("ctrlinmod2target"@.len() == 16 && "ctrlinmod2target"@[9] == '2');
        assert("fxlfodest"@.len() == 9);
        assert("fxdeltimeonthegrid"@.len() == 18);
        assert("fxcompattack"@.len() == 12);
        assert("fxcomprelease"@.len() == 13);
        assert("fxcompratio"@.len() == 11);
        assert("fxcompsidechaineq"@.len() == 17);
    }

    /// The word holds no colon, so it is never mistaken for an enum reference.
    pub proof fn name_is_plain(self)
        ensures
            is_plain(self.name()),
    {
        reveal_with_fuel(has_no_colon, 32);
        reveal_strlit("ctrlinmod1target");
        reveal_strlit("ctrlinmod2target");
        reveal_strlit("fxlfodest");
        reveal_strlit("fxdeltimeonthegrid");
        reveal_strlit("fxcompattack");
        reveal_strlit("fxcomprelease");
        reveal_strlit("fxcompratio");
        reveal_strlit("fxcompsidechaineq");
        assert(has_no_colon("ctrlinmod1target"@, 16));
        assert(has_no_colon("ctrlinmod2target"@, 16));
        assert(has_no_colon("fxlfodest"@, 9));
        assert(has_no_colon("fxdeltimeonthegrid"@, 18));
        assert(has_no_colon("fxcompattack"@, 12));
        assert(has_no_colon("fxcomprelease"@, 13));
        assert(has_no_colon("fxcompratio"@, 11));
        assert(has_no_colon("fxcompsidechaineq"@, 17));
        lemma_plain_text(self.name());
    }

    /// How the field is read, if it can be read at all.
    pub open spec fn spec_reads(self) -> Option<Shape> {
        match self {
            Self::ControlIn1ModTarget | Self::ControlIn2ModTarget => Some(Shape::Slotted),
            Self::FxLfoDestination | Self::FxCompAttack | Self::FxCompRelease
            | Self::FxCompRatio | Self::FxCompSideChainEq => Some(Shape::Plain),
            Self::FxDelayTimeOnTheGrid => None,
        }
    }

    /// How the field is read, if it can be read at all.
    #[verifier::when_used_as_spec(spec_reads)]
    pub fn reads(self) -> (r: Option<Shape>)
        ensures
            r == self.spec_reads(),
    {
        match self {
            Self::ControlIn1ModTarget | Self::ControlIn2ModTarget => Some(Shape::Slotted),
            Self::FxLfoDestination | Self::FxCompAttack | Self::FxCompRelease
            | Self::FxCompRatio | Self::FxCompSideChainEq => Some(Shape::Plain),
            Self::FxDelayTimeOnTheGrid => None,
        }
    }

    /// How the field is written, if it can be written at all.
    pub open spec fn spec_writes(self) -> Option<Shape> {
        match self {
            Self::ControlIn1ModTarget | Self::ControlIn2ModTarget => Some(Shape::Slotted),
            Self::FxLfoDestination | Self::FxDelayTimeOnTheGrid | Self::FxCompAttack
            | Self::FxCompRelease | Self::FxCompRatio | Self::FxCompSideChainEq => Some(Shape::Plain),
        }
    }

    /// How the field is written, if it can be written at all.
    #[verifier::when_used_as_spec(spec_writes)]
    pub fn writes(self) -> (r: Option<Shape>)
        ensures
            r == self.spec_writes(),
    {
        match self {
            Self::ControlIn1ModTarget | Self::ControlIn2ModTarget => Some(Shape::Slotted),
            Self::FxLfoDestination | Self::FxDelayTimeOnTheGrid | Self::FxCompAttack
            | Self::FxCompRelease | Self::FxCompRatio | Self::FxCompSideChainEq => Some(Shape::Plain),
        }
    }

    /// Whether a trig can override the field with a parameter lock.
    pub open spec fn spec_lockable(self) -> bool {
        match self {
            Self::ControlIn1ModTarget | Self::ControlIn2ModTarget | Self::FxDelayTimeOnTheGrid => false,
            Self::FxLfoDestination | Self::FxCompAttack | Self::FxCompRelease
            | Self::FxCompRatio | Self::FxCompSideChainEq => true,
        }
    }

    /// Whether a trig can override the field with a parameter lock.
    #[verifier::when_used_as_spec(spec_lockable)]
    pub fn lockable(self) -> (r: bool)
        ensures
            r == self.spec_lockable(),
    {
        match self {
            Self::ControlIn1ModTarget | Self::ControlIn2ModTarget | Self::FxDelayTimeOnTheGrid => false,
            Self::FxLfoDestination | Self::FxCompAttack | Self::FxCompRelease
            | Self::FxCompRatio | Self::FxCompSideChainEq => true,
        }
    }
}

/// A collection inside a kit that is addressed by an element index: one of the
/// per-track settings, or the kit's sounds.
#[derive(Debug, Clone, Copy, PartialEq, Eq, Structural)]
pub enum KitElement {
    TrackLevel,
    TrackRetrigRate,
    TrackRetrigLength,
    TrackRetrigVelOffset,
    TrackRetrigAlwaysOn,
    Sound,
}

impl KitElement {
    /// The word by which a command names this element.
    pub open spec fn name(self) -> Seq<char> {
        match self {
            Self::TrackLevel => "tracklevel"@,
            Self::TrackRetrigRate => "trackretrigrate"@,
            Self::TrackRetrigLength => "trackretriglen"@,
            Self::TrackRetrigVelOffset => "trackretrigveloffset"@,
            Self::TrackRetrigAlwaysOn => "trackretrigalwayson"@,
            Self::Sound => "sound"@,
        }
    }

    /// Whether a word names one of these.
    pub open spec fn known(s: Seq<char>) -> bool {
        exists|f: Self| f.name() == s
    }

    /// The word by which a command names this element.
    pub fn as_str(self) -> (r: &'static str)
        ensures
            r@ == self.name(),
    {
        match self {
            Self::TrackLevel => "tracklevel",
            Self::TrackRetrigRate => "trackretrigrate",
            Self::TrackRetrigLength => "trackretriglen",
            Self::TrackRetrigVelOffset => "trackretrigveloffset",
            Self::TrackRetrigAlwaysOn => "trackretrigalwayson",
            Self::Sound => "sound",
        }
    }

    /// The element a word names, if it names one.
    pub open spec fn named(s: Seq<char>) -> Option<Self> {
        if Self::known(s) {
            Some(choose|f: Self| f.name() == s)
        } else {
            None
        }
    }

    /// Looks a word up: the element that carries it, if there is one.
    pub fn from_name(s: &str) -> (r: Option<Self>)
        ensures
            r == Self::named(s@),
    {
        let r = if str_eq(s, "tracklevel") {
            Some(Self::TrackLevel)
        } else if str_eq(s, "trackretrigrate") {
            Some(Self::TrackRetrigRate)
        } else if str_eq(s, "trackretriglen") {
            Some(Self::TrackRetrigLength)
        } else if str_eq(s, "trackretrigveloffset") {
            Some(Self::TrackRetrigVelOffset)
        } else if str_eq(s, "trackretrigalwayson") {
            Some(Self::TrackRetrigAlwaysOn)
        } else if str_eq(s, "sound") {
            Some(Self::Sound)
        } else {
            None
        };
        proof {
            if let Some(f) = r {
                assert(f.name() == s@);
                Self::names_are_distinct(choose|g: Self| g.name() == s@, f);
            } else {
                assert forall|f: Self| f.name() != s@ by {}
            }
        }
        r
    }

    /// A element's own word names it and nothing else.
    pub proof fn named_by_its_name(self)
        ensures
            Self::named(self.name()) == Some(self),
    {
        assert(Self::known(self.name()));
        Self::names_are_distinct(choose|g: Self| g.name() == self.name(), self);
    }

    /// No two of these share a word, so a word names at most one element.
    pub proof fn names_are_distinct(a: Self, b: Self)
        requires
            a.name() == b.name(),
        ensures
            a == b,
    {
        reveal_strlit("tracklevel");
        reveal_strlit("trackretrigrate");
        reveal_strlit("trackretriglen");
        reveal_strlit("trackretrigveloffset");
        reveal_strlit("trackretrigalwayson");
        reveal_strlit("sound");
        assert("tracklevel"@.len() == 10);
        assert("trackretrigrate"@.len() == 15);
        assert("trackretriglen"@.len() == 14);
        assert("trackretrigveloffset"@.len() == 20);
        assert("trackretrigalwayson"@.len() == 19);
        assert("sound"@.len() == 5);
    }

    /// The word holds no colon, so it is never mistaken for an enum reference.
    pub proof fn name_is_plain(self)
        ensures
            is_plain(self.name()),
    {
        reveal_with_fuel(has_no_colon, 32);
        reveal_strlit("tracklevel");
        reveal_strlit("trackretrigrate");
        reveal_strlit("trackretriglen");
        reveal_strlit("trackretrigveloffset");
        reveal_strlit("trackretrigalwayson");
        reveal_strlit("sound");
        assert(has_no_colon("tracklevel"@, 10));
        assert(has_no_colon("trackretrigrate"@, 15));
        assert(has_no_colon("trackretriglen"@, 14));
        assert(has_no_colon("trackretrigveloffset"@, 20));
        assert(has_no_colon("trackretrigalwayson"@, 19));
        assert(has_no_colon("sound"@, 5));
        lemma_plain_text(self.name());
    }

    /// What an entry of the element takes when it is written, for the elements whose
    /// entries are numbers.
    pub open spec fn spec_takes(self) -> Option<Takes> {
        match self {
            Self::TrackLevel => Some(Takes::Unsigned),
            Self::TrackRetrigRate | Self::TrackRetrigLength | Self::Sound => None,
            Self::TrackRetrigVelOffset => Some(Takes::Signed),
            Self::TrackRetrigAlwaysOn => Some(Takes::Flag),
        }
    }

    /// What an entry of the element takes when it is written, for the elements whose
    /// entries are numbers.
    #[verifier::when_used_as_spec(spec_takes)]
    pub fn takes(self) -> (r: Option<Takes>)
        ensures
            r == self.spec_takes(),
    {
        match self {
            Self::TrackLevel => Some(Takes::Unsigned),
            Self::TrackRetrigRate | Self::TrackRetrigLength | Self::Sound => None,
            Self::TrackRetrigVelOffset => Some(Takes::Signed),
            Self::TrackRetrigAlwaysOn => Some(Takes::Flag),
        }
    }

    /// Whether an entry of the element holds a named variant.
    pub open spec fn spec_holds_variant(self) -> bool {
        match self {
            Self::TrackLevel | Self::TrackRetrigVelOffset | Self::TrackRetrigAlwaysOn
            | Self::Sound => false,
            Self::TrackRetrigRate | Self::TrackRetrigLength => true,
        }
    }

    /// Whether an entry of the element holds a named variant.
    #[verifier::when_used_as_spec(spec_holds_variant)]
    pub fn holds_variant(self) -> (r: bool)
        ensures
            r == self.spec_holds_variant(),
    {
        match self {
            Self::TrackLevel | Self::TrackRetrigVelOffset | Self::TrackRetrigAlwaysOn
            | Self::Sound => false,
            Self::TrackRetrigRate | Self::TrackRetrigLength => true,
        }
    }
}

} // verus!
