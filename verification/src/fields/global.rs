//! The fields of a global slot.

use vstd::prelude::*;
use crate::text::{has_no_colon, is_plain, lemma_plain_text, str_eq};
use crate::fields::{Shape, Takes};

verus! {

/// A numeric field of a global slot.
#[derive(Debug, Clone, Copy, PartialEq, Eq, Structural)]
pub enum GlobalAction {
    Version,
    Index,
    IsWorkBuffer,
    KitReloadOnChange,
    QuantizeLiveRec,
    AutoTrackSwitch,
    RouteToMain,
    SendToFx,
    ClockReceive,
    ClockSend,
    TransportReceive,
    TransportSend,
    ProgramChangeReceive,
    ProgramChangeSend,
    ReceiveNotes,
    ReceiveCcNrpn,
    TurboSpeed,
    MetronomeActive,
    MetronomePreRollBars,
    MetronomeVolume,
}

impl GlobalAction {
    /// The word by which a command names this field.
    pub open spec fn name(self) -> Seq<char> {
        match self {
            Self::Version => "version"@,
            Self::Index => "index"@,
            Self::IsWorkBuffer => "iswb"@,
            Self::KitReloadOnChange => "kitreloadonchg"@,
            Self::QuantizeLiveRec => "quantizeliverec"@,
            Self::AutoTrackSwitch => "autotrackswitch"@,
            Self::RouteToMain => "routetomain"@,
            Self::SendToFx => "sendtofx"@,
            Self::ClockReceive => "clockreceive"@,
            Self::ClockSend => "clocksend"@,
            Self::TransportReceive => "transportreceive"@,
            Self::TransportSend => "transportsend"@,
            Self::ProgramChangeReceive => "pgmchangereceive"@,
            Self::ProgramChangeSend => "pgmchangesend"@,
            Self::ReceiveNotes => "receivenotes"@,
            Self::ReceiveCcNrpn => "receiveccnrpn"@,
            Self::TurboSpeed => "turbospeed"@,
            Self::MetronomeActive => "metronomeactive"@,
            Self::MetronomePreRollBars => "metronomeprerollbars"@,
            Self::MetronomeVolume => "metronomelev"@,
        }
    }

    /// Whether a word names one of these.
    pub open spec fn known(s: Seq<char>) -> bool {
        exists|f: Self| f.name() == s
    }

    /// The word by which a command names this field.
    pub fn as_str(self) -> (r: &'static str)
        ensures
            r@ == self.name(),
    {
        match self {
            Self::Version => "version",
            Self::Index => "index",
            Self::IsWorkBuffer => "iswb",
            Self::KitReloadOnChange => "kitreloadonchg",
            Self::QuantizeLiveRec => "quantizeliverec",
            Self::AutoTrackSwitch => "autotrackswitch",
            Self::RouteToMain => "routetomain",
            Self::SendToFx => "sendtofx",
            Self::ClockReceive => "clockreceive",
            Self::ClockSend => "clocksend",
            Self::TransportReceive => "transportreceive",
            Self::TransportSend => "transportsend",
            Self::ProgramChangeReceive => "pgmchangereceive",
            Self::ProgramChangeSend => "pgmchangesend",
            Self::ReceiveNotes => "receivenotes",
            Self::ReceiveCcNrpn => "receiveccnrpn",
            Self::TurboSpeed => "turbospeed",
            Self::MetronomeActive => "metronomeactive",
            Self::MetronomePreRollBars => "metronomeprerollbars",
            Self::MetronomeVolume => "metronomelev",
        }
    }

    /// The field a word names, if it names one.
    pub open spec fn named(s: Seq<char>) -> Option<Self> {
        if Self::known(s) {
            Some(choose|f: Self| f.name() == s)
        } else {
            None
        }
    }

    /// Looks a word up: the field that carries it, if there is one.
    pub fn from_name(s: &str) -> (r: Option<Self>)
        ensures
            r == Self::named(s@),
    {
        let r = if str_eq(s, "version") {
            Some(Self::Version)
        } else if str_eq(s, "index") {
            Some(Self::Index)
        } else if str_eq(s, "iswb") {
            Some(Self::IsWorkBuffer)
        } else if str_eq(s, "kitreloadonchg") {
            Some(Self::KitReloadOnChange)
        } else if str_eq(s, "quantizeliverec") {
            Some(Self::QuantizeLiveRec)
        } else if str_eq(s, "autotrackswitch") {
            Some(Self::AutoTrackSwitch)
        } else if str_eq(s, "routetomain") {
            Some(Self::RouteToMain)
        } else if str_eq(s, "sendtofx") {
            Some(Self::SendToFx)
        } else if str_eq(s, "clockreceive") {
            Some(Self::ClockReceive)
        } else if str_eq(s, "clocksend") {
            Some(Self::ClockSend)
        } else if str_eq(s, "transportreceive") {
            Some(Self::TransportReceive)
        } else if str_eq(s, "transportsend") {
            Some(Self::TransportSend)
        } else if str_eq(s, "pgmchangereceive") {
            Some(Self::ProgramChangeReceive)
        } else if str_eq(s, "pgmchangesend") {
            Some(Self::ProgramChangeSend)
        } else if str_eq(s, "receivenotes") {
            Some(Self::ReceiveNotes)
        } else if str_eq(s, "receiveccnrpn") {
            Some(Self::ReceiveCcNrpn)
        } else if str_eq(s, "turbospeed") {
            Some(Self::TurboSpeed)
        } else if str_eq(s, "metronomeactive") {
            Some(Self::MetronomeActive)
        } else if str_eq(s, "metronomeprerollbars") {
            Some(Self::MetronomePreRollBars)
        } else if str_eq(s, "metronomelev") {
            Some(Self::MetronomeVolume)
        } else {
            None
        };
        proof {
            if let Some(f) = r {
                assert(f.name() == s@);
                Self::names_are_distinct(choose|g: Self| g.name() == s@, f);
            } else {
                assert forall|f: Self| f.name() != s@ by {}
            }
        }
        r
    }

    /// A field's own word names it and nothing else.
    pub proof fn named_by_its_name(self)
        ensures
            Self::named(self.name()) == Some(self),
    {
        assert(Self::known(self.name()));
        Self::names_are_distinct(choose|g: Self| g.name() == self.name(), self);
    }

    /// No two of these share a word, so a word names at most one field.
    pub proof fn names_are_distinct(a: Self, b: Self)
        requires
            a.name() == b.name(),
        ensures
            a == b,
    {
        reveal_strlit("version");
        reveal_strlit("index");
        reveal_strlit("iswb");
        reveal_strlit("kitreloadonchg");
        reveal_strlit("quantizeliverec");
        reveal_strlit("autotrackswitch");
        reveal_strlit("routetomain");
        reveal_strlit("sendtofx");
        reveal_strlit("clockreceive");
        reveal_strlit("clocksend");
        reveal_strlit("transportreceive");
        reveal_strlit("transportsend");
        reveal_strlit("pgmchangereceive");
        reveal_strlit("pgmchangesend");
        reveal_strlit("receivenotes");
        reveal_strlit("receiveccnrpn");
        reveal_strlit("turbospeed");
        reveal_strlit("metronomeactive");
        reveal_strlit("metronomeprerollbars");
        reveal_strlit("metronomelev");
        assert("version"@.len() == 7);
        assert("index"@.len() == 5);
        assert("iswb"@.len() == 4);
        assert("kitreloadonchg"@.len() == 14);
        assert("quantizeliverec"@.len() == 15 && "quantizeliverec"@[0] == 'q');
        assert("autotrackswitch"@.len() == 15 && "autotrackswitch"@[0] == 'a');
        assert("routetomain"@.len() == 11);
        assert("sendtofx"@.len() == 8);
        assert("clockreceive"@.len() == 12 && "clockreceive"@[0] == 'c');
        assert("clocksend"@.len() == 9);
        assert("transportreceive"@.len() == 16 && "transportreceive"@[0] == 't');
        assert("transportsend"@.len() == 13 && "transportsend"@[0] == 't');
        assert("pgmchangereceive"@.len() == 16 && "pgmchangereceive"@[0] == 'p');
        assert("pgmchangesend"@.len() == 13 && "pgmchangesend"@[0] == 'p');
        assert("receivenotes"@.len() == 12 && "receivenotes"@[0] == 'r');
        assert("receiveccnrpn"@.len() == 13 && "receiveccnrpn"@[0] == 'r');
        assert("turbospeed"@.len() == 10);
        assert("metronomeactive"@.len() == 15 && "metronomeactive"@[0] == 'm');
        assert("metronomeprerollbars"@.len() == 20);
        assert("metronomelev"@.len() == 12 && "metronomelev"@[0] == 'm');
    }

    /// The word holds no colon, so it is never mistaken for an enum reference.
    pub proof fn name_is_plain(self)
        ensures
            is_plain(self.name()),
    {
        reveal_with_fuel(has_no_colon, 32);
        reveal_strlit("version");
        reveal_strlit("index");
        reveal_strlit("iswb");
        reveal_strlit("kitreloadonchg");
        reveal_strlit("quantizeliverec");
        reveal_strlit("autotrackswitch");
        reveal_strlit("routetomain");
        reveal_strlit("sendtofx");
        reveal_strlit("clockreceive");
        reveal_strlit("clocksend");
        reveal_strlit("transportreceive");
        reveal_strlit("transportsend");
        reveal_strlit("pgmchangereceive");
        reveal_strlit("pgmchangesend");
        reveal_strlit("receivenotes");
        reveal_strlit("receiveccnrpn");
        reveal_strlit("turbospeed");
        reveal_strlit("metronomeactive");
        reveal_strlit("metronomeprerollbars");
        reveal_strlit("metronomelev");
        assert(has_no_colon("version"@, 7));
        assert(has_no_colon("index"@, 5));
        assert(has_no_colon("iswb"@, 4));
        assert(has_no_colon("kitreloadonchg"@, 14));
        assert(has_no_colon("quantizeliverec"@, 15));
        assert(has_no_colon("autotrackswitch"@, 15));
        assert(has_no_colon("routetomain"@, 11));
        assert(has_no_colon("sendtofx"@, 8));
        assert(has_no_colon("clockreceive"@, 12));
        assert(has_no_colon("clocksend"@, 9));
        assert(has_no_colon("transportreceive"@, 16));
        assert(has_no_colon("transportsend"@, 13));
        assert(has_no_colon("pgmchangereceive"@, 16));
        assert(has_no_colon("pgmchangesend"@, 13));
        assert(has_no_colon("receivenotes"@, 12));
        assert(has_no_colon("receiveccnrpn"@, 13));
        assert(has_no_colon("turbospeed"@, 10));
        assert(has_no_colon("metronomeactive"@, 15));
        assert(has_no_colon("metronomeprerollbars"@, 20));
        assert(has_no_colon("metronomelev"@, 12));
        lemma_plain_text(self.name());
    }

    /// How the field is read, if it can be read at all.
    pub open spec fn spec_reads(self) -> Option<Shape> {
        match self {
            Self::Version | Self::Index | Self::IsWorkBuffer | Self::KitReloadOnChange
            | Self::QuantizeLiveRec | Self::AutoTrackSwitch | Self::ClockReceive
            | Self::ClockSend | Self::TransportReceive | Self::TransportSend
            | Self::ProgramChangeReceive | Self::ProgramChangeSend | Self::ReceiveNotes
            | Self::ReceiveCcNrpn | Self::TurboSpeed | Self::MetronomeActive
            | Self::MetronomePreRollBars | Self::MetronomeVolume => Some(Shape::Plain),
            Self::RouteToMain | Self::SendToFx => Some(Shape::Slotted),
        }
    }

    /// How the field is read, if it can be read at all.
    #[verifier::when_used_as_spec(spec_reads)]
    pub fn reads(self) -> (r: Option<Shape>)
        ensures
            r == self.spec_reads(),
    {
        match self {
            Self::Version | Self::Index | Self::IsWorkBuffer | Self::KitReloadOnChange
            | Self::QuantizeLiveRec | Self::AutoTrackSwitch | Self::ClockReceive
            | Self::ClockSend | Self::TransportReceive | Self::TransportSend
            | Self::ProgramChangeReceive | Self::ProgramChangeSend | Self::ReceiveNotes
            | Self::ReceiveCcNrpn | Self::TurboSpeed | Self::MetronomeActive
            | Self::MetronomePreRollBars | Self::MetronomeVolume => Some(Shape::Plain),
            Self::RouteToMain | Self::SendToFx => Some(Shape::Slotted),
        }
    }

    /// What the field takes when it is written, if it can be written at all.
    pub open spec fn spec_writes(self) -> Option<Takes> {
        match self {
            Self::Version | Self::Index | Self::IsWorkBuffer | Self::TurboSpeed
            | Self::MetronomeActive | Self::MetronomePreRollBars | Self::MetronomeVolume => None,
            Self::KitReloadOnChange | Self::QuantizeLiveRec | Self::AutoTrackSwitch
            | Self::ClockReceive | Self::ClockSend | Self::TransportReceive
            | Self::TransportSend | Self::ProgramChangeReceive | Self::ProgramChangeSend
            | Self::ReceiveNotes | Self::ReceiveCcNrpn => Some(Takes::Flag),
            Self::RouteToMain | Self::SendToFx => Some(Takes::Unsigned),
        }
    }

    /// What the field takes when it is written, if it can be written at all.
    #[verifier::when_used_as_spec(spec_writes)]
    pub fn writes(self) -> (r: Option<Takes>)
        ensures
            r == self.spec_writes(),
    {
        match self {
            Self::Version | Self::Index | Self::IsWorkBuffer | Self::TurboSpeed
            | Self::MetronomeActive | Self::MetronomePreRollBars | Self::MetronomeVolume => None,
            Self::KitReloadOnChange | Self::QuantizeLiveRec | Self::AutoTrackSwitch
            | Self::ClockReceive | Self::ClockSend | Self::TransportReceive
            | Self::TransportSend | Self::ProgramChangeReceive | Self::ProgramChangeSend
            | Self::ReceiveNotes | Self::ReceiveCcNrpn => Some(Takes::Flag),
            Self::RouteToMain | Self::SendToFx => Some(Takes::Unsigned),
        }
    }
}

/// A field of a global slot that holds a named variant.
#[derive(Debug, Clone, Copy, PartialEq, Eq, Structural)]
pub enum GlobalEnum {
    MetronomeTimeSignature,
    RoutingUsbInOptions,
    RoutingUsbOutOptions,
    RoutingUsbToMainDb,
    OutPortFunction,
    ThruPortFunction,
    InputFrom,
    OutputTo,
    ParamOutput,
    PadDest,
    PressureDest,
    EncoderDest,
    MuteDest,
    PortsOutputChannel,
    AutoChannel,
    TrackChannels,
    TrackFxChannel,
    ProgramChangeInChannel,
    ProgramChangeOutChannel,
    PerformanceChannel,
}

impl GlobalEnum {
    /// The word by which a command names this field.
    pub open spec fn name(self) -> Seq<char> {
        match self {
            Self::MetronomeTimeSignature => "metronometimesig"@,
            Self::RoutingUsbInOptions => "usbin"@,
            Self::RoutingUsbOutOptions => "usbout"@,
            Self::RoutingUsbToMainDb => "usbtomaindb"@,
            Self::OutPortFunction => "outportfunction"@,
            Self::ThruPortFunction => "thruportfunction"@,
            Self::InputFrom => "inputfrom"@,
            Self::OutputTo => "outputto"@,
            Self::ParamOutput => "paramoutput"@,
            Self::PadDest => "paddest"@,
            Self::PressureDest => "pressuredest"@,
            Self::EncoderDest => "encoderdest"@,
            Self::MuteDest => "mutedest"@,
            Self::PortsOutputChannel => "portsoutputchannel"@,
            Self::AutoChannel => "autochannel"@,
            Self::TrackChannels => "trackchannels"@,
            Self::TrackFxChannel => "trackfxchannel"@,
            Self::ProgramChangeInChannel => "pgmchangeinchannel"@,
            Self::ProgramChangeOutChannel => "pgmchangeoutchannel"@,
            Self::PerformanceChannel => "performancechannel"@,
        }
    }

    /// Whether a word names one of these.
    pub open spec fn known(s: Seq<char>) -> bool {
        exists|f: Self| f.name() == s
    }

    /// The word by which a command names this field.
    pub fn as_str(self) -> (r: &'static str)
        ensures
            r@ == self.name(),
    {
        match self {
            Self::MetronomeTimeSignature => "metronometimesig",
            Self::RoutingUsbInOptions => "usbin",
            Self::RoutingUsbOutOptions => "usbout",
            Self::RoutingUsbToMainDb => "usbtomaindb",
            Self::OutPortFunction => "outportfunction",
            Self::ThruPortFunction => "thruportfunction",
            Self::InputFrom => "inputfrom",
            Self::OutputTo => "outputto",
            Self::ParamOutput => "paramoutput",
            Self::PadDest => "paddest",
            Self::PressureDest => "pressuredest",
            Self::EncoderDest => "encoderdest",
            Self::MuteDest => "mutedest",
            Self::PortsOutputChannel => "portsoutputchannel",
            Self::AutoChannel => "autochannel",
            Self::TrackChannels => "trackchannels",
            Self::TrackFxChannel => "trackfxchannel",
            Self::ProgramChangeInChannel => "pgmchangeinchannel",
            Self::ProgramChangeOutChannel => "pgmchangeoutchannel",
            Self::PerformanceChannel => "performancechannel",
        }
    }

    /// The field a word names, if it names one.
    pub open spec fn named(s: Seq<char>) -> Option<Self> {
        if Self::known(s) {
            Some(choose|f: Self| f.name() == s)
        } else {
            None
        }
    }

    /// Looks a word up: the field that carries it, if there is one.
    pub fn from_name(s: &str) -> (r: Option<Self>)
        ensures
            r == Self::named(s@),
    {
        let r = if str_eq(s, "metronometimesig") {
            Some(Self::MetronomeTimeSignature)
        } else if str_eq(s, "usbin") {
            Some(Self::RoutingUsbInOptions)
        } else if str_eq(s, "usbout") {
            Some(Self::RoutingUsbOutOptions)
        } else if str_eq(s, "usbtomaindb") {
            Some(Self::RoutingUsbToMainDb)
        } else if str_eq(s, "outportfunction") {
            Some(Self::OutPortFunction)
        } else if str_eq(s, "thruportfunction") {
            Some(Self::ThruPortFunction)
        } else if str_eq(s, "inputfrom") {
            Some(Self::InputFrom)
        } else if str_eq(s, "outputto") {
            Some(Self::OutputTo)
        } else if str_eq(s, "paramoutput") {
            Some(Self::ParamOutput)
        } else if str_eq(s, "paddest") {
            Some(Self::PadDest)
        } else if str_eq(s, "pressuredest") {
            Some(Self::PressureDest)
        } else if str_eq(s, "encoderdest") {
            Some(Self::EncoderDest)
        } else if str_eq(s, "mutedest") {
            Some(Self::MuteDest)
        } else if str_eq(s, "portsoutputchannel") {
            Some(Self::PortsOutputChannel)
        } else if str_eq(s, "autochannel") {
            Some(Self::AutoChannel)
        } else if str_eq(s, "trackchannels") {
            Some(Self::TrackChannels)
        } else if str_eq(s, "trackfxchannel") {
            Some(Self::TrackFxChannel)
        } else if str_eq(s, "pgmchangeinchannel") {
            Some(Self::ProgramChangeInChannel)
        } else if str_eq(s, "pgmchangeoutchannel") {
            Some(Self::ProgramChangeOutChannel)
        } else if str_eq(s, "performancechannel") {
            Some(Self::PerformanceChannel)
        } else {
            None
        };
        proof {
            if let Some(f) = r {
                assert(f.name() == s@);
                Self::names_are_distinct(choose|g: Self| g.name() == s@, f);
            } else {
                assert forall|f: Self| f.name() != s@ by {}
            }
        }
        r
    }

    /// A field's own word names it and nothing else.
    pub proof fn named_by_its_name(self)
        ensures
            Self::named(self.name()) == Some(self),
    {
        assert(Self::known(self.name()));
        Self::names_are_distinct(choose|g: Self| g.name() == self.name(), self);
    }

    /// No two of these share a word, so a word names at most one field.
    pub proof fn names_are_distinct(a: Self, b: Self)
        requires
            a.name() == b.name(),
        ensures
            a == b,
    {
        reveal_strlit("metronometimesig");
        reveal_strlit("usbin");
        reveal_strlit("usbout");
        reveal_strlit("usbtomaindb");
        reveal_strlit("outportfunction");
        reveal_strlit("thruportfunction");
        reveal_strlit("inputfrom");
        reveal_strlit("outputto");
        reveal_strlit("paramoutput");
        reveal_strlit("paddest");
        reveal_strlit("pressuredest");
        reveal_strlit("encoderdest");
        reveal_strlit("mutedest");
        reveal_strlit("portsoutputchannel");
        reveal_strlit("autochannel");
        reveal_strlit("trackchannels");
        reveal_strlit("trackfxchannel");
        reveal_strlit("pgmchangeinchannel");
        reveal_strlit("pgmchangeoutchannel");
        reveal_strlit("performancechannel");
        assert("metronometimesig"@.len() == 16 && "metronometimesig"@[0] == 'm');
        assert("usbin"@.len() == 5);
        assert("usbout"@.len() == 6);
        assert("usbtomaindb"@.len() == 11 && "usbtomaindb"@[0] == 'u');
        assert("outportfunction"@.len() == 15);
        assert("thruportfunction"@.len() == 16 && "thruportfunction"@[0] == 't');
        assert("inputfrom"@.len() == 9);
        assert("outputto"@.len() == 8 && "outputto"@[0] == 'o');
        assert("paramoutput"@.len() == 11 && "paramoutput"@[0] == 'p');
        assert("paddest"@.len() == 7);
        assert("pressuredest"@.len() == 12);
        assert("encoderdest"@.len() == 11 && "encoderdest"@[0] == 'e');
        assert("mutedest"@.len() == 8 && "mutedest"@[0] == 'm');
        assert("portsoutputchannel"@.len() == 18 && "portsoutputchannel"@[1] == 'o');
        assert("autochannel"@.len() == 11 && "autochannel"@[0] == 'a');
        assert("trackchannels"@.len() == 13);
        assert("trackfxchannel"@.len() == 14);
        assert("pgmchangeinchannel"@.len() == 18 && "pgmchangeinchannel"@[1] == 'g');
        assert("pgmchangeoutchannel"@.len() == 19);
        assert("performancechannel"@.len() == 18 && "performancechannel"@[1] == 'e');
    }

    /// The word holds no colon, so it is never mistaken for an enum reference.
    pub proof fn name_is_plain(self)
        ensures
            is_plain(self.name()),
    {
        reveal_with_fuel(has_no_colon, 32);
        reveal_strlit("metronometimesig");
        reveal_strlit("usbin");
        reveal_strlit("usbout");
        reveal_strlit("usbtomaindb");
        reveal_strlit("outportfunction");
        reveal_strlit("thruportfunction");
        reveal_strlit("inputfrom");
        reveal_strlit("outputto");
        reveal_strlit("paramoutput");
        reveal_strlit("paddest");
        reveal_strlit("pressuredest");
        reveal_strlit("encoderdest");
        reveal_strlit("mutedest");
        reveal_strlit("portsoutputchannel");
        reveal_strlit("autochannel");
        reveal_strlit("trackchannels");
        reveal_strlit("trackfxchannel");
        reveal_strlit("pgmchangeinchannel");
        reveal_strlit("pgmchangeoutchannel");
        reveal_strlit("performancechannel");
        assert(has_no_colon("metronometimesig"@, 16));
        assert(has_no_colon("usbin"@, 5));
        assert(has_no_colon("usbout"@, 6));
        assert(has_no_colon("usbtomaindb"@, 11));
        assert(has_no_colon("outportfunction"@, 15));
        assert(has_no_colon("thruportfunction"@, 16));
        assert(has_no_colon("inputfrom"@, 9));
        assert(has_no_colon("outputto"@, 8));
        assert(has_no_colon("paramoutput"@, 11));
        assert(has_no_colon("paddest"@, 7));
        assert(has_no_colon("pressuredest"@, 12));
        assert(has_no_colon("encoderdest"@, 11));
        assert(has_no_colon("mutedest"@, 8));
        assert(has_no_colon("portsoutputchannel"@, 18));
        assert(has_no_colon("autochannel"@, 11));
        assert(has_no_colon("trackchannels"@, 13));
        assert(has_no_colon("trackfxchannel"@, 14));
        assert(has_no_colon("pgmchangeinchannel"@, 18));
        assert(has_no_colon("pgmchangeoutchannel"@, 19));
        assert(has_no_colon("performancechannel"@, 18));
        lemma_plain_text(self.name());
    }

    /// How the field is read, if it can be read at all.
    pub open spec fn spec_reads(self) -> Option<Shape> {
        match self {
            Self::MetronomeTimeSignature | Self::RoutingUsbInOptions
            | Self::RoutingUsbOutOptions | Self::RoutingUsbToMainDb | Self::OutPortFunction
            | Self::ThruPortFunction | Self::InputFrom | Self::OutputTo | Self::ParamOutput
            | Self::PadDest | Self::PressureDest | Self::EncoderDest | Self::MuteDest
            | Self::PortsOutputChannel | Self::AutoChannel | Self::TrackFxChannel
            | Self::ProgramChangeInChannel | Self::ProgramChangeOutChannel
            | Self::PerformanceChannel => Some(Shape::Plain),
            Self::TrackChannels => Some(Shape::Slotted),
        }
    }

    /// How the field is read, if it can be read at all.
    #[verifier::when_used_as_spec(spec_reads)]
    pub fn reads(self) -> (r: Option<Shape>)
        ensures
            r == self.spec_reads(),
    {
        match self {
            Self::MetronomeTimeSignature | Self::RoutingUsbInOptions
            | Self::RoutingUsbOutOptions | Self::RoutingUsbToMainDb | Self::OutPortFunction
            | Self::ThruPortFunction | Self::InputFrom | Self::OutputTo | Self::ParamOutput
            | Self::PadDest | Self::PressureDest | Self::EncoderDest | Self::MuteDest
            | Self::PortsOutputChannel | Self::AutoChannel | Self::TrackFxChannel
            | Self::ProgramChangeInChannel | Self::ProgramChangeOutChannel
            | Self::PerformanceChannel => Some(Shape::Plain),
            Self::TrackChannels => Some(Shape::Slotted),
        }
    }

    /// How the field is written, if it can be written at all.
    pub open spec fn spec_writes(self) -> Option<Shape> {
        match self {
            Self::MetronomeTimeSignature | Self::RoutingUsbInOptions
            | Self::RoutingUsbOutOptions | Self::RoutingUsbToMainDb | Self::OutPortFunction
            | Self::ThruPortFunction | Self::InputFrom | Self::OutputTo | Self::ParamOutput
            | Self::PadDest | Self::PressureDest | Self::EncoderDest | Self::MuteDest
            | Self::PortsOutputChannel | Self::AutoChannel | Self::TrackFxChannel
            | Self::ProgramChangeInChannel | Self::ProgramChangeOutChannel
            | Self::PerformanceChannel => Some(Shape::Plain),
            Self::TrackChannels => Some(Shape::Slotted),
        }
    }

    /// How the field is written, if it can be written at all.
    #[verifier::when_used_as_spec(spec_writes)]
    pub fn writes(self) -> (r: Option<Shape>)
        ensures
            r == self.spec_writes(),
    {
        match self {
            Self::MetronomeTimeSignature | Self::RoutingUsbInOptions
            | Self::RoutingUsbOutOptions | Self::RoutingUsbToMainDb | Self::OutPortFunction
            | Self::ThruPortFunction | Self::InputFrom | Self::OutputTo | Self::ParamOutput
            | Self::PadDest | Self::PressureDest | Self::EncoderDest | Self::MuteDest
            | Self::PortsOutputChannel | Self::AutoChannel | Self::TrackFxChannel
            | Self::ProgramChangeInChannel | Self::ProgramChangeOutChannel
            | Self::PerformanceChannel => Some(Shape::Plain),
            Self::TrackChannels => Some(Shape::Slotted),
        }
    }
}

} // verus!
