use rytm_object::api::access::{get_action, get_enum, make_argument, set_action, set_enum};
use rytm_object::api::kit::{get_kit_element_value, set_kit_element_value};
use rytm_object::api::plock::handle_plock_commands;
use rytm_object::api::sound::SoundSource;
use rytm_object::api::{
    command, dispatch, global, kit, pattern, respond, settings, sound, Access, Argument, Family, Field, Reading,
    Request, Response, Target,
};
use rytm_object::error::{
    number_or_set_error, EnumError, GetError, IdentifierError, ParseError, RytmObjectError, SetError,
};
use rytm_object::fields::global::{GlobalAction, GlobalEnum};
use rytm_object::fields::kit::{KitAction, KitElement, KitEnum};
use rytm_object::fields::pattern::{PatternAction, PatternEnum, TrackAction, TrackEnum, TrigAction, TrigEnum};
use rytm_object::fields::settings::{SettingsAction, SettingsEnum};
use rytm_object::fields::sound::{SoundAction, SoundEnum};
use rytm_object::fields::Takes;
use rytm_object::float::Float;
use rytm_object::parse::types::{Number, ObjectTypeSelector, ParsedValue, PlockOperation};
use rytm_object::types::CommandType;
use rytm_object::value::{RytmValue, RytmValueList};

fn sym(s: &str) -> RytmValue {
    RytmValue::Symbol(s.to_string())
}

fn num(i: isize) -> RytmValue {
    RytmValue::Int(i)
}

fn half() -> Float {
    Float::from_bits(120.5f64.to_bits())
}

fn run(values: Vec<RytmValue>, command_type: CommandType) -> Result<Request, RytmObjectError> {
    let list: RytmValueList = values.into();
    command(command_type, &list)
}

fn get(values: Vec<RytmValue>) -> Result<Request, RytmObjectError> {
    run(values, CommandType::Get)
}

fn put(values: Vec<RytmValue>) -> Result<Request, RytmObjectError> {
    run(values, CommandType::Put)
}

fn ident(s: &str) -> ParsedValue {
    ParsedValue::Identifier(s.to_string())
}

fn custom(r: Result<Request, RytmObjectError>) -> String {
    match r {
        Err(RytmObjectError::Custom(text)) => text,
        other => panic!("unexpected {:?}", other),
    }
}

fn get_format(r: Result<Request, RytmObjectError>) -> String {
    match r {
        Err(RytmObjectError::Get(GetError::InvalidFormat(text))) => text,
        other => panic!("unexpected {:?}", other),
    }
}

fn set_format(r: Result<Request, RytmObjectError>) -> String {
    match r {
        Err(RytmObjectError::Put(SetError::InvalidFormat(text))) => text,
        other => panic!("unexpected {:?}", other),
    }
}

fn unknown_identifier(r: Result<Request, RytmObjectError>) -> String {
    match r {
        Err(RytmObjectError::Identifier(IdentifierError::InvalidType(name))) => name,
        other => panic!("unexpected {:?}", other),
    }
}

fn unknown_enum(r: Result<Request, RytmObjectError>) -> String {
    match r {
        Err(RytmObjectError::Enum(EnumError::InvalidEnumType(name))) => name,
        other => panic!("unexpected {:?}", other),
    }
}

#[test]
fn pattern_field_is_read_and_answered() {
    let request = get(vec![sym("pattern"), num(1), sym("masterlen")]).unwrap();
    assert_eq!(
        request,
        Request {
            target: Target::Pattern { pattern: Some(1) },
            field: Field::PatternAction(PatternAction::MasterLength),
            access: Access::Read,
        }
    );
    let reply = respond(&request, Reading { index: 1, owner: 0, value: Some(RytmValue::Int(64)) });
    assert_eq!(reply, Response::Common { index: 1, key: sym("masterlen"), value: RytmValue::Int(64) });
}

#[test]
fn lock_is_written_and_acknowledged() {
    let request = put(vec![sym("pattern"), num(1), num(0), num(5), sym("plockset"), sym("filtertype:lp2")]).unwrap();
    assert_eq!(
        request,
        Request {
            target: Target::Trig { pattern: Some(1), track: 0, trig: 5 },
            field: Field::SoundEnum(SoundEnum::FilterType),
            access: Access::WriteLock(Argument::Text("lp2".to_string())),
        }
    );
    assert_eq!(respond(&request, Reading { index: 5, owner: 0, value: None }), Response::Done);
}

#[test]
fn index_beyond_the_range_fails_before_dispatch() {
    match get(vec![sym("pattern"), num(128), sym("name")]) {
        Err(RytmObjectError::Parse(ParseError::InvalidIndexRange { min, max, value })) => {
            assert_eq!((min, max, value), (0, 127, 128))
        }
        other => panic!("unexpected {:?}", other),
    }
}

#[test]
fn lock_operation_must_go_with_the_command() {
    let path = |word: &str| vec![sym("pattern"), num(1), num(0), num(5), sym(word), sym("amplev"), num(3)];
    assert_eq!(
        set_format(put(path("plockget"))),
        "A set command can not be followed by a plockget command. Please try plockset or plockclear or use a get command."
    );
    assert_eq!(
        get_format(get(path("plockset"))),
        "A get command can not be followed by a plockset command. Please try plockget or use a set command."
    );
    assert_eq!(
        get_format(get(path("plockclear"))),
        "A get command can not be followed by a plockclear command. Please try plockget or use a set command."
    );
    // Whatever follows: also where the field is unknown or missing.
    let trig = Target::Trig { pattern: None, track: 0, trig: 0 };
    for tokens in [vec![], vec![ident("bogus")], vec![ParsedValue::TrackIndex(1)]] {
        assert!(matches!(
            handle_plock_commands(trig, &tokens, 0, PlockOperation::Get, CommandType::Put),
            Err(RytmObjectError::Put(SetError::InvalidFormat(_)))
        ));
        assert!(matches!(
            handle_plock_commands(trig, &tokens, 0, PlockOperation::Put, CommandType::Get),
            Err(RytmObjectError::Get(GetError::InvalidFormat(_)))
        ));
        assert!(matches!(
            handle_plock_commands(trig, &tokens, 0, PlockOperation::Clear, CommandType::Get),
            Err(RytmObjectError::Get(GetError::InvalidFormat(_)))
        ));
    }
}

#[test]
fn locks_are_read_set_and_cleared() {
    let trig = Target::Trig { pattern: Some(2), track: 3, trig: 4 };
    let read = get(vec![sym("pattern"), num(2), num(3), num(4), sym("plockget"), sym("amplev")]).unwrap();
    assert_eq!(
        read,
        Request { target: trig, field: Field::SoundAction(SoundAction::AmpVolume), access: Access::ReadLock }
    );
    assert_eq!(
        respond(&read, Reading { index: 0, owner: 0, value: Some(RytmValue::Int(90)) }),
        Response::Common { index: 4, key: sym("amplev"), value: RytmValue::Int(90) }
    );
    assert_eq!(
        respond(&read, Reading { index: 0, owner: 0, value: None }),
        Response::Common { index: 4, key: sym("amplev"), value: sym("unset") }
    );

    let read_enum = get(vec![sym("pattern"), num(2), num(3), num(4), sym("plockget"), sym("fxcompratio:")]).unwrap();
    assert_eq!(
        read_enum,
        Request { target: trig, field: Field::KitEnum(KitEnum::FxCompRatio), access: Access::ReadLock }
    );

    let set = put(vec![sym("pattern"), num(2), num(3), num(4), sym("plockset"), sym("fxdelpingpong"), num(1)]).unwrap();
    assert_eq!(
        set,
        Request {
            target: trig,
            field: Field::KitAction(KitAction::FxDelayPingPong),
            access: Access::WriteLock(Argument::Flag(true)),
        }
    );
    let depth = put(vec![
        sym("pattern"),
        num(2),
        num(3),
        num(4),
        sym("plockset"),
        sym("lfodepth"),
        RytmValue::Float(half()),
    ])
    .unwrap();
    assert_eq!(
        depth,
        Request {
            target: trig,
            field: Field::SoundAction(SoundAction::LfoDepth),
            access: Access::WriteLock(Argument::Real(Number::Float(half()))),
        }
    );
    let pan = put(vec![sym("pattern"), num(2), num(3), num(4), sym("plockset"), sym("amppan"), num(-20)]).unwrap();
    assert_eq!(pan.access, Access::WriteLock(Argument::Signed(-20)));

    let clear = put(vec![sym("pattern"), num(2), num(3), num(4), sym("plockclear"), sym("samptune")]).unwrap();
    assert_eq!(
        clear,
        Request { target: trig, field: Field::SoundAction(SoundAction::SampTune), access: Access::ClearLock }
    );
    assert_eq!(respond(&clear, Reading { index: 0, owner: 0, value: None }), Response::Done);
    let clear_enum = put(vec![sym("pattern"), num(2), num(3), num(4), sym("plockclear"), sym("lfomode:x")]).unwrap();
    assert_eq!(clear_enum.field, Field::SoundEnum(SoundEnum::LfoMode));
    assert_eq!(clear_enum.access, Access::ClearLock);
}

#[test]
fn lock_errors() {
    let path = |rest: Vec<RytmValue>| {
        let mut v = vec![sym("pattern_wb"), num(0), num(0)];
        v.extend(rest);
        v
    };
    // Fields that exist but cannot be locked are refused where the command is
    // read; handed in as tokens, they are refused by the handler.
    for (word, field) in [("plockget", "name"), ("plockget", "fxdistamt"), ("plockget", "machinetype:")] {
        assert!(matches!(
            get(path(vec![sym(word), sym(field)])),
            Err(RytmObjectError::Parse(ParseError::InvalidToken(_)))
        ));
    }
    for (word, field) in [("plockclear", "velmodamt"), ("plockset", "speed:2x"), ("plockset", "masterlen")] {
        assert!(matches!(
            put(path(vec![sym(word), sym(field)])),
            Err(RytmObjectError::Parse(ParseError::InvalidToken(_)))
        ));
    }
    let trig = Target::Trig { pattern: None, track: 0, trig: 0 };
    let lock = |tokens: Vec<ParsedValue>, op: PlockOperation, command_type: CommandType| {
        handle_plock_commands(trig, &tokens, 0, op, command_type)
    };
    assert_eq!(unknown_identifier(lock(vec![ident("name")], PlockOperation::Get, CommandType::Get)), "name");
    assert_eq!(
        unknown_identifier(lock(vec![ident("fxdistamt")], PlockOperation::Get, CommandType::Get)),
        "fxdistamt"
    );
    assert_eq!(
        unknown_identifier(lock(vec![ident("velmodamt")], PlockOperation::Clear, CommandType::Put)),
        "velmodamt"
    );
    assert_eq!(
        unknown_enum(lock(
            vec![ParsedValue::Enum("machinetype".to_string(), None)],
            PlockOperation::Get,
            CommandType::Get
        )),
        "machinetype"
    );
    assert_eq!(
        unknown_enum(lock(
            vec![ParsedValue::Enum("speed".to_string(), Some("2x".to_string()))],
            PlockOperation::Put,
            CommandType::Put
        )),
        "speed"
    );
    // The value is asked for before the name is looked up.
    assert_eq!(
        custom(lock(vec![ident("masterlen")], PlockOperation::Put, CommandType::Put)),
        "Invalid format: A parameter or enum should follow a plockset action."
    );
    assert_eq!(
        custom(put(path(vec![sym("plockset"), sym("amplev")]))),
        "Invalid format: A parameter or enum should follow a plockset action."
    );
    assert_eq!(
        unknown_identifier(lock(
            vec![ident("masterlen"), ParsedValue::Parameter(Number::Int(1))],
            PlockOperation::Put,
            CommandType::Put
        )),
        "masterlen"
    );
    match put(path(vec![sym("plockset"), sym("samploopflag"), num(2)])) {
        Err(RytmObjectError::Parse(ParseError::ExpectedZeroOrOne { found, identifier })) => {
            assert_eq!(found, Number::Int(2));
            assert_eq!(identifier, "samploopflag");
        }
        other => panic!("unexpected {:?}", other),
    }
    // Tokens that no command reads into, handed in directly.
    assert_eq!(
        set_format(handle_plock_commands(
            trig,
            &vec![ParsedValue::Enum("lfomode".to_string(), None)],
            0,
            PlockOperation::Put,
            CommandType::Put
        )),
        "An identifier or an enum is expected."
    );
    assert_eq!(
        get_format(handle_plock_commands(trig, &vec![], 0, PlockOperation::Get, CommandType::Get)),
        "An identifier or an enum is expected."
    );
}

#[test]
fn pattern_track_and_trig_fields() {
    let speed = get(vec![sym("pattern_wb"), sym("speed:")]).unwrap();
    assert_eq!(
        speed,
        Request {
            target: Target::Pattern { pattern: None },
            field: Field::PatternEnum(PatternEnum::Speed),
            access: Access::Read,
        }
    );
    assert_eq!(
        respond(&speed, Reading { index: 0, owner: 0, value: Some(sym("2x")) }),
        Response::Common { index: 0, key: sym("speed"), value: sym("2x") }
    );

    let bpm = put(vec![sym("pattern"), num(7), sym("patternbpm"), RytmValue::Float(half())]).unwrap();
    assert_eq!(
        bpm,
        Request {
            target: Target::Pattern { pattern: Some(7) },
            field: Field::PatternAction(PatternAction::Bpm),
            access: Access::Write(Argument::Real(Number::Float(half()))),
        }
    );
    let length = put(vec![sym("pattern"), num(7), sym("masterlen"), RytmValue::Float(half())]).unwrap();
    assert_eq!(length.access, Access::Write(Argument::Unsigned(120)));
    let negative = put(vec![sym("pattern"), num(7), sym("masterlen"), num(-1)]).unwrap();
    assert_eq!(negative.access, Access::Write(Argument::Unsigned(usize::MAX)));

    let track = get(vec![sym("pattern"), num(7), num(12), sym("deftrignote")]).unwrap();
    assert_eq!(
        track,
        Request {
            target: Target::Track { pattern: Some(7), track: 12 },
            field: Field::TrackAction(TrackAction::DefTrigNote),
            access: Access::Read,
        }
    );
    assert_eq!(
        respond(&track, Reading { index: 12, owner: 0, value: Some(num(60)) }),
        Response::Track { pattern_index: 7, track_index: 12, key: sym("deftrignote"), value: num(60) }
    );
    let root = put(vec![sym("pattern_wb"), num(0), sym("rootnote:c")]).unwrap();
    assert_eq!(
        root,
        Request {
            target: Target::Track { pattern: None, track: 0 },
            field: Field::TrackEnum(TrackEnum::RootNote),
            access: Access::Write(Argument::Text("c".to_string())),
        }
    );
    let sends = put(vec![sym("pattern_wb"), num(0), sym("sendsmidi"), num(1)]).unwrap();
    assert_eq!(sends.access, Access::Write(Argument::Flag(true)));

    let trig = get(vec![sym("pattern_wb"), num(3), num(63), sym("note")]).unwrap();
    assert_eq!(
        trig,
        Request {
            target: Target::Trig { pattern: None, track: 3, trig: 63 },
            field: Field::TrigAction(TrigAction::Note),
            access: Access::Read,
        }
    );
    assert_eq!(
        respond(&trig, Reading { index: 63, owner: 0, value: Some(num(48)) }),
        Response::Trig { pattern_index: 0, track_index: 3, trig_index: 63, key: sym("note"), value: num(48) }
    );
    let offset = put(vec![sym("pattern_wb"), num(3), num(63), sym("retrigveloffset"), num(-5)]).unwrap();
    assert_eq!(offset.access, Access::Write(Argument::Signed(-5)));
    let condition = put(vec![sym("pattern_wb"), num(3), num(63), sym("trigcondition:fill")]).unwrap();
    assert_eq!(condition.field, Field::TrigEnum(TrigEnum::TrigCondition));
}

#[test]
fn names_of_other_objects_are_refused() {
    // A name of another family never gets past the reading of the command.
    assert!(matches!(
        get(vec![sym("pattern"), num(0), sym("name")]),
        Err(RytmObjectError::Parse(ParseError::InvalidToken(_)))
    ));
    assert!(matches!(
        get(vec![sym("settings"), sym("masterlen")]),
        Err(RytmObjectError::Parse(ParseError::InvalidToken(_)))
    ));
    // Handed in as tokens, it is refused by the handler.
    let head = ParsedValue::ObjectType(ObjectTypeSelector::Pattern(0));
    assert_eq!(unknown_identifier(pattern::handle(&vec![head.clone(), ident("name")], Some(0), CommandType::Get)), "name");
    assert_eq!(
        unknown_identifier(settings::handle(
            &vec![ParsedValue::ObjectType(ObjectTypeSelector::Settings), ident("masterlen")],
            CommandType::Get
        )),
        "masterlen"
    );
    // Within the family of patterns, each object has its own fields.
    assert_eq!(unknown_identifier(get(vec![sym("pattern"), num(0), num(0), sym("iswb")])), "iswb");
    assert_eq!(unknown_identifier(get(vec![sym("pattern"), num(0), sym("deftrignote")])), "deftrignote");
    assert_eq!(unknown_identifier(get(vec![sym("pattern"), num(0), num(0), num(0), sym("masterlen")])), "masterlen");
    assert_eq!(unknown_enum(get(vec![sym("pattern"), num(0), sym("rootnote:")])), "rootnote");
    // Fields that can be read but not written, and the other way round.
    assert_eq!(unknown_identifier(put(vec![sym("pattern"), num(0), sym("version"), num(1)])), "version");
    assert_eq!(unknown_identifier(get(vec![sym("settings"), sym("unmute"), num(1)])), "unmute");
    assert_eq!(unknown_identifier(get(vec![sym("settings"), sym("version")])), "version");
    assert_eq!(unknown_identifier(put(vec![sym("global"), num(0), sym("turbospeed"), num(1)])), "turbospeed");
    assert_eq!(unknown_identifier(put(vec![sym("sound"), num(0), sym("veltovol"), num(1)])), "veltovol");
    assert_eq!(unknown_enum(get(vec![sym("kit"), num(0), sym("fxdeltimeonthegrid:")])), "fxdeltimeonthegrid");
    assert_eq!(unknown_enum(get(vec![sym("sound"), num(0), sym("machineparameters:")])), "machineparameters");
}

#[test]
fn a_write_needs_a_number_before_the_name_is_looked_up() {
    assert_eq!(
        set_format(put(vec![sym("pattern"), num(0), sym("version")])),
        "Invalid parameter. Allowed parameters are only integers or floats."
    );
    assert_eq!(
        set_format(put(vec![sym("settings"), sym("projectbpm")])),
        "Invalid parameter. Allowed parameters are only integers or floats."
    );
    assert_eq!(
        custom(put(vec![sym("kit"), num(0), sym("version")])),
        "Allowed parameters are integers or floats or a symbol if you'd like to change the name of the kit."
    );
    assert_eq!(
        custom(put(vec![sym("sound"), num(0), sym("version")])),
        "Allowed parameters are integers or floats or a symbol if you'd like to change the name of the sound."
    );
    assert_eq!(unknown_identifier(put(vec![sym("kit"), num(0), sym("version"), num(1)])), "version");
    // Handed in as tokens, a name of another family is told apart only after the number.
    let kit_head = ParsedValue::ObjectType(ObjectTypeSelector::Kit(0));
    assert_eq!(
        custom(kit::handle(&vec![kit_head.clone(), ident("masterlen")], Some(0), CommandType::Put)),
        "Allowed parameters are integers or floats or a symbol if you'd like to change the name of the kit."
    );
    assert_eq!(
        unknown_identifier(kit::handle(
            &vec![kit_head.clone(), ident("masterlen"), ParsedValue::Parameter(Number::Int(1))],
            Some(0),
            CommandType::Put
        )),
        "masterlen"
    );
}

#[test]
fn flags_take_zero_or_one() {
    let on = put(vec![sym("global"), num(0), sym("clocksend"), num(1)]).unwrap();
    assert_eq!(
        on,
        Request {
            target: Target::Global { global: Some(0) },
            field: Field::GlobalAction(GlobalAction::ClockSend),
            access: Access::Write(Argument::Flag(true)),
        }
    );
    let off = put(vec![sym("global_wb"), sym("clocksend"), num(0)]).unwrap();
    assert_eq!(off.access, Access::Write(Argument::Flag(false)));
    assert_eq!(off.target, Target::Global { global: None });
    for bad in [num(2), num(-1), RytmValue::Float(Float::from_bits(1.0f64.to_bits()))] {
        match put(vec![sym("global"), num(0), sym("clocksend"), bad]) {
            Err(RytmObjectError::Parse(ParseError::ExpectedZeroOrOne { identifier, .. })) => {
                assert_eq!(identifier, "clocksend")
            }
            other => panic!("unexpected {:?}", other),
        }
    }
}

#[test]
fn kit_fields() {
    let name = get(vec![sym("kit"), num(10), sym("name")]).unwrap();
    assert_eq!(
        name,
        Request { target: Target::Kit { kit: Some(10) }, field: Field::KitAction(KitAction::Name), access: Access::Read }
    );
    assert_eq!(
        respond(&name, Reading { index: 10, owner: 0, value: Some(sym("MYKIT")) }),
        Response::Common { index: 10, key: sym("name"), value: sym("MYKIT") }
    );
    let amount = get(vec![sym("kit"), num(10), sym("ctrlinmod1amt"), num(3)]).unwrap();
    assert_eq!(amount.field, Field::KitAction(KitAction::ControlIn1ModAmt));
    assert_eq!(amount.access, Access::ReadSlot(3));
    assert_eq!(
        respond(&amount, Reading { index: 10, owner: 0, value: Some(num(-7)) }),
        Response::Common { index: 10, key: sym("ctrlinmod1amt"), value: num(-7) }
    );
    assert_eq!(
        custom(get(vec![sym("kit"), num(10), sym("ctrlinmod1amt")])),
        "ctrlinmod1amt should be followed by an index."
    );
    assert_eq!(
        custom(get(vec![sym("kit"), num(10), sym("ctrlinmod2amt"), num(4)])),
        "Invalid range: The index 4 is out of range for ctrlinmod2amt."
    );
    assert_eq!(
        custom(get(vec![sym("kit"), num(10), sym("ctrlinmod2amt"), num(-1)])),
        format!("Invalid range: The index {} is out of range for ctrlinmod2amt.", usize::MAX)
    );

    let write = put(vec![sym("kit_wb"), sym("ctrlinmod2amt"), num(2), num(100)]).unwrap();
    assert_eq!(
        write,
        Request {
            target: Target::Kit { kit: None },
            field: Field::KitAction(KitAction::ControlIn2ModAmt),
            access: Access::WriteSlot(2, Argument::Signed(100)),
        }
    );
    assert_eq!(
        set_format(put(vec![sym("kit_wb"), sym("ctrlinmod1amt"), num(2)])),
        "ctrlinmod1amt should be followed by an integer ctrlinmod1 index. Format: ctrlinmod1amt <ctrlinmod1 index> <amount>. Example: ctrlinmod1amt 2 100"
    );
    assert_eq!(
        custom(put(vec![sym("kit_wb"), sym("ctrlinmod1amt"), num(9), num(1)])),
        "Invalid range: The index 9 is out of range for ctrlinmod1amt."
    );

    let target = get(vec![sym("kit"), num(1), sym("ctrlinmod1target:2")]).unwrap();
    assert_eq!(target.field, Field::KitEnum(KitEnum::ControlIn1ModTarget));
    assert_eq!(target.access, Access::ReadSlot(2));
    assert_eq!(
        get_format(get(vec![sym("kit"), num(1), sym("ctrlinmod1target:")])),
        "ctrlinmod1target:<integer> is the correct format. Example: ctrlinmod1target:2"
    );
    assert_eq!(
        get_format(get(vec![sym("kit"), num(1), sym("ctrlinmod2target:x")])),
        "ctrlinmod2target:<integer> is the correct format. Example: ctrlinmod2target:2"
    );
    assert_eq!(
        custom(get(vec![sym("kit"), num(1), sym("ctrlinmod1target:4")])),
        "Invalid range: The index 4 is out of range for ctrlinmod1target."
    );
    let dest = put(vec![sym("kit"), num(1), sym("fxlfodest:x")]).unwrap();
    assert_eq!(dest.field, Field::KitEnum(KitEnum::FxLfoDestination));
    assert_eq!(dest.access, Access::Write(Argument::Text("x".to_string())));
    let grid = put(vec![sym("kit"), num(1), sym("fxdeltimeonthegrid:16th")]).unwrap();
    assert_eq!(grid.field, Field::KitEnum(KitEnum::FxDelayTimeOnTheGrid));
}

#[test]
fn names_are_written_as_texts() {
    let kit_name = Request {
        target: Target::Kit { kit: Some(1) },
        field: Field::KitAction(KitAction::Name),
        access: Access::Write(Argument::Text("HELLO".to_string())),
    };
    let tokens = vec![
        ParsedValue::ObjectType(ObjectTypeSelector::Kit(1)),
        ident("name"),
        ParsedValue::ParameterString("HELLO".to_string()),
    ];
    assert_eq!(kit::handle(&tokens, Some(1), CommandType::Put).unwrap(), kit_name);
    assert_eq!(dispatch(&tokens, CommandType::Put).unwrap(), kit_name);

    let sound_name = put(vec![sym("sound"), num(3), sym("name"), sym("kick")]).unwrap();
    assert_eq!(
        sound_name,
        Request {
            target: Target::PoolSound { sound: 3 },
            field: Field::SoundAction(SoundAction::Name),
            access: Access::Write(Argument::Text("kick".to_string())),
        }
    );
    assert_eq!(
        custom(put(vec![sym("sound"), num(3), sym("name"), sym("")])),
        "Invalid parameter: name must not be empty."
    );
    assert_eq!(
        custom(put(vec![sym("kit"), num(3), sym("name"), num(5)])),
        "Invalid parameter: name must be a symbol with maximum 15 characters long and use only ascii characters."
    );
}

#[test]
fn kit_elements_and_kit_sounds() {
    let level = get(vec![sym("kit"), num(10), sym("tracklevel"), num(0)]).unwrap();
    assert_eq!(
        level,
        Request {
            target: Target::Kit { kit: Some(10) },
            field: Field::KitElement(KitElement::TrackLevel),
            access: Access::ReadSlot(0),
        }
    );
    assert_eq!(
        respond(&level, Reading { index: 10, owner: 0, value: Some(num(99)) }),
        Response::KitElement { kit_index: 10, element_index: 0, element_type: sym("tracklevel"), value: num(99) }
    );

    let rate = put(vec![sym("kit"), num(10), sym("trackretrigrate"), num(4), sym("trackretrigrate:1/16")]).unwrap();
    assert_eq!(
        rate,
        Request {
            target: Target::Kit { kit: Some(10) },
            field: Field::KitElement(KitElement::TrackRetrigRate),
            access: Access::WriteSlot(4, Argument::Text("1/16".to_string())),
        }
    );
    assert_eq!(
        set_format(put(vec![sym("kit"), num(10), sym("trackretrigrate"), num(4), sym("trackretriglen:1/16")])),
        "trackretrigrate should have an enum parameter. E.g. trackretrigrate:1/1"
    );
    assert_eq!(
        set_format(put(vec![sym("kit"), num(10), sym("trackretriglen"), num(4), sym("fxdeltime")])),
        "trackretriglen should have an enum parameter. E.g. trackretriglen:3.63"
    );
    assert_eq!(
        set_format(put(vec![sym("kit"), num(10), sym("tracklevel"), num(4)])),
        "A parameter or enum must be provided to set a kit element."
    );
    assert_eq!(
        set_format(put(vec![sym("kit"), num(10), sym("tracklevel"), num(4), sym("fxlfodest:1x")])),
        "tracklevel should have an integer parameter."
    );

    let kit = Target::Kit { kit: Some(10) };
    let written = vec![ParsedValue::Parameter(Number::Int(100))];
    assert_eq!(
        set_kit_element_value(kit, "tracklevel", 4, &written, 0).unwrap().access,
        Access::WriteSlot(4, Argument::Unsigned(100))
    );
    assert_eq!(
        set_kit_element_value(kit, "trackretrigveloffset", 4, &written, 0).unwrap().access,
        Access::WriteSlot(4, Argument::Signed(100))
    );
    assert!(matches!(
        set_kit_element_value(kit, "trackretrigalwayson", 4, &written, 0),
        Err(RytmObjectError::Parse(ParseError::ExpectedZeroOrOne { .. }))
    ));
    assert_eq!(unknown_identifier(set_kit_element_value(kit, "sound", 4, &written, 0)), "sound");
    assert_eq!(unknown_identifier(set_kit_element_value(kit, "bogus", 4, &written, 0)), "bogus");
    assert_eq!(unknown_identifier(get_kit_element_value(kit, "sound", 1)), "sound");
    assert_eq!(unknown_identifier(get_kit_element_value(kit, "bogus", 1)), "bogus");
    assert_eq!(
        get_kit_element_value(kit, "trackretriglen", 1).unwrap().field,
        Field::KitElement(KitElement::TrackRetrigLength)
    );

    let sound = get(vec![sym("kit"), num(10), sym("sound"), num(2), sym("amplev")]).unwrap();
    assert_eq!(
        sound,
        Request {
            target: Target::KitSound { kit: Some(10), sound: 2 },
            field: Field::SoundAction(SoundAction::AmpVolume),
            access: Access::Read,
        }
    );
    assert_eq!(
        respond(&sound, Reading { index: 2, owner: 10, value: Some(num(100)) }),
        Response::KitElement { kit_index: 10, element_index: 2, element_type: sym("amplev"), value: num(100) }
    );
    let two = put(vec![sym("kit"), num(10), sym("sound"), num(0), sym("velmodamt"), num(2), num(2)]).unwrap();
    assert_eq!(
        two,
        Request {
            target: Target::KitSound { kit: Some(10), sound: 0 },
            field: Field::SoundAction(SoundAction::VelModAmt),
            access: Access::WriteSlot(2, Argument::Signed(2)),
        }
    );

    // Tokens that no command reads into, handed in directly.
    let head = ParsedValue::ObjectType(ObjectTypeSelector::Kit(10));
    assert_eq!(
        get_format(kit::handle(
            &vec![head.clone(), ParsedValue::Element("sound".to_string())],
            Some(10),
            CommandType::Get
        )),
        "a kit sound must be followed by an index."
    );
    assert_eq!(
        set_format(kit::handle(
            &vec![head.clone(), ParsedValue::Element("tracklevel".to_string())],
            Some(10),
            CommandType::Put
        )),
        "a kit element must be followed by an index."
    );
    assert_eq!(
        get_format(kit::handle(&vec![head.clone()], Some(10), CommandType::Get)),
        "An identifier or an enum is expected."
    );
}

#[test]
fn sound_fields() {
    let pan = put(vec![sym("sound"), num(5), sym("amppan"), num(-64)]).unwrap();
    assert_eq!(
        pan,
        Request {
            target: Target::PoolSound { sound: 5 },
            field: Field::SoundAction(SoundAction::AmpPan),
            access: Access::Write(Argument::Signed(-64)),
        }
    );
    let wb = get(vec![sym("sound_wb"), num(11), sym("filtertype:")]).unwrap();
    assert_eq!(
        wb,
        Request {
            target: Target::WorkBufferSound { sound: 11 },
            field: Field::SoundEnum(SoundEnum::FilterType),
            access: Access::Read,
        }
    );
    assert_eq!(
        custom(get(vec![sym("sound"), num(0), sym("velmodamt")])),
        "velmodamt should be followed by an index."
    );
    assert_eq!(
        custom(get(vec![sym("sound"), num(0), sym("atmodamt")])),
        "atmodamt should be followed by an integer index."
    );
    assert_eq!(
        set_format(put(vec![sym("sound"), num(0), sym("atmodamt"), num(1)])),
        "atmodamt should be followed by an integer atmod index. Format: atmodamt <atmod index> <amount>. Example: atmodamt 2 100"
    );
    assert_eq!(
        get_format(get(vec![sym("sound"), num(0), sym("velmodtarget:")])),
        "velmodtarget:<integer> is the correct format. Example: velmodtarget:2"
    );
    assert_eq!(get(vec![sym("sound"), num(0), sym("atmodtarget:3")]).unwrap().access, Access::ReadSlot(3));
    assert_eq!(
        custom(get(vec![sym("sound"), num(0), sym("atmodtarget:4")])),
        "Invalid range: The index 4 is out of range for atmodtarget."
    );

    // A slotted enum is written with the slot after it, which only tokens
    // handed in directly can carry.
    let tokens = vec![ParsedValue::Parameter(Number::Int(1))];
    let target = Target::PoolSound { sound: 0 };
    assert_eq!(
        set_enum(Family::Sound, target, &tokens, 0, "velmodtarget", &Some("lfophase".to_string())).unwrap(),
        Request {
            target,
            field: Field::SoundEnum(SoundEnum::VelocityModTarget),
            access: Access::WriteSlot(1, Argument::Text("lfophase".to_string())),
        }
    );
    assert_eq!(
        set_format(set_enum(Family::Sound, target, &tokens, 1, "velmodtarget", &Some("lfophase".to_string()))),
        "velmodtarget should be followed by an integer velmod index. Format: velmodtarget:<target> <velmod index>. Example: velmodtarget:lfophase 2"
    );
    assert_eq!(
        get_format(set_enum(Family::Sound, target, &tokens, 0, "velmodtarget", &None)),
        "Enum value not provided"
    );
    assert_eq!(
        set_format(set_enum(Family::Settings, Target::Settings, &tokens, 0, "patternmode", &None)),
        "Enum value not provided"
    );

    let through_kit = sound::handle(&vec![ident("amplev")], 4, SoundSource::Kit { kit: None }, CommandType::Get);
    assert_eq!(through_kit.unwrap().target, Target::KitSound { kit: None, sound: 4 });
    let direct = sound::handle(
        &vec![ParsedValue::ObjectType(ObjectTypeSelector::Sound(4)), ident("amplev")],
        4,
        SoundSource::Pool,
        CommandType::Get,
    );
    assert_eq!(direct.unwrap().target, Target::PoolSound { sound: 4 });
    let working = sound::handle(
        &vec![ParsedValue::ObjectType(ObjectTypeSelector::SoundWorkBuffer(4)), ident("amplev")],
        4,
        SoundSource::WorkBuffer,
        CommandType::Get,
    );
    assert_eq!(working.unwrap().target, Target::WorkBufferSound { sound: 4 });
}

#[test]
fn global_fields() {
    let routed = get(vec![sym("global"), num(3), sym("routetomain"), num(11)]).unwrap();
    assert_eq!(
        routed,
        Request {
            target: Target::Global { global: Some(3) },
            field: Field::GlobalAction(GlobalAction::RouteToMain),
            access: Access::ReadSlot(11),
        }
    );
    // The tree numbers these slots; dispatch hands any index on.
    assert_eq!(get(vec![sym("global"), num(3), sym("sendtofx"), num(40)]).unwrap().access, Access::ReadSlot(40));
    assert_eq!(
        get_format(get(vec![sym("global"), num(3), sym("routetomain")])),
        "routetomain should be followed by an integer track index."
    );
    assert_eq!(
        get_format(get(vec![sym("global"), num(3), sym("sendtofx")])),
        "sendtofx should be followed by a track index (integer)"
    );
    let route = put(vec![sym("global"), num(3), sym("routetomain"), num(5)]).unwrap();
    assert_eq!(route.access, Access::Write(Argument::Unsigned(5)));

    let channel = get(vec![sym("global_wb"), sym("trackchannels:7")]).unwrap();
    assert_eq!(channel.field, Field::GlobalEnum(GlobalEnum::TrackChannels));
    assert_eq!(channel.access, Access::ReadSlot(7));
    assert_eq!(
        get_format(get(vec![sym("global_wb"), sym("trackchannels:")])),
        "trackchannels: should include an integer track index. Example: trackchannels:1"
    );
    let usb = put(vec![sym("global_wb"), sym("usbin:pre")]).unwrap();
    assert_eq!(usb.field, Field::GlobalEnum(GlobalEnum::RoutingUsbInOptions));
    assert_eq!(usb.access, Access::Write(Argument::Text("pre".to_string())));
    let tokens = vec![ParsedValue::Parameter(Number::Int(2))];
    assert_eq!(
        set_enum(Family::Global, Target::Global { global: None }, &tokens, 0, "trackchannels", &Some("1".to_string()))
            .unwrap()
            .access,
        Access::WriteSlot(2, Argument::Text("1".to_string()))
    );
    assert_eq!(
        set_format(set_enum(
            Family::Global,
            Target::Global { global: None },
            &tokens,
            1,
            "trackchannels",
            &Some("1".to_string())
        )),
        "trackchannels should be followed by an integer track index. Format: trackchannels:<channel> <track index>. Example: trackchannels:1 2"
    );
}

#[test]
fn settings_fields() {
    let mode = get(vec![sym("settings"), sym("sequencermode:")]).unwrap();
    assert_eq!(
        mode,
        Request { target: Target::Settings, field: Field::SettingsEnum(SettingsEnum::SequencerMode), access: Access::Read }
    );
    assert_eq!(
        respond(&mode, Reading { index: 9, owner: 0, value: Some(sym("normal")) }),
        Response::Common { index: 0, key: sym("sequencermode"), value: sym("normal") }
    );
    let muted = get(vec![sym("settings"), sym("mute"), num(3)]).unwrap();
    assert_eq!(muted.field, Field::SettingsAction(SettingsAction::Mute));
    assert_eq!(muted.access, Access::ReadSlot(3));
    assert_eq!(
        get_format(get(vec![sym("settings"), sym("mute")])),
        "mute should be followed by an integer sound index."
    );
    let unmute = put(vec![sym("settings"), sym("unmute"), num(3)]).unwrap();
    assert_eq!(unmute.field, Field::SettingsAction(SettingsAction::Unmute));
    assert_eq!(unmute.access, Access::Write(Argument::Unsigned(3)));
    let bpm = put(vec![sym("settings"), sym("projectbpm"), num(120)]).unwrap();
    assert_eq!(bpm.access, Access::Write(Argument::Real(Number::Int(120))));
}

#[test]
fn indices_handed_in_directly_are_checked() {
    let ranged = |r: Result<Request, RytmObjectError>| match r {
        Err(RytmObjectError::Get(GetError::InvalidRange(text))) => text,
        other => panic!("unexpected {:?}", other),
    };
    let field = ident("masterlen");
    let head = ParsedValue::ObjectType(ObjectTypeSelector::Settings);
    assert_eq!(
        ranged(pattern::handle(&vec![head.clone(), field.clone()], Some(128), CommandType::Get)),
        "Pattern index 128 must be between 0 and 127."
    );
    assert_eq!(
        ranged(pattern::handle(&vec![head.clone(), ParsedValue::TrackIndex(13), field.clone()], None, CommandType::Get)),
        "Track index 13 must be between 0 and 12."
    );
    assert_eq!(
        ranged(pattern::handle(
            &vec![head.clone(), ParsedValue::TrackIndex(1), ParsedValue::TrigIndex(64), field.clone()],
            None,
            CommandType::Get
        )),
        "Trig index 64 must be between 0 and 63."
    );
    assert_eq!(
        ranged(kit::handle(&vec![head.clone(), field.clone()], Some(200), CommandType::Get)),
        "Kit index 200 must be between 0 and 127."
    );
    assert_eq!(
        ranged(kit::handle(
            &vec![head.clone(), ParsedValue::Element("sound".to_string()), ParsedValue::SoundIndex(12), field.clone()],
            None,
            CommandType::Get
        )),
        "Sound index 12 must be between 0 and 11."
    );
    assert_eq!(
        ranged(sound::handle(&vec![head.clone(), field.clone()], 12, SoundSource::Pool, CommandType::Get)),
        "Sound index 12 must be between 0 and 11."
    );
    assert_eq!(
        ranged(sound::handle(&vec![field.clone()], 0, SoundSource::Kit { kit: Some(128) }, CommandType::Get)),
        "Kit index 128 must be between 0 and 127."
    );
    assert_eq!(
        ranged(global::handle(&vec![head.clone(), field.clone()], Some(4), CommandType::Get)),
        "Global index 4 must be between 0 and 3."
    );
    assert!(settings::handle(&vec![head.clone(), ident("selectedtrack")], CommandType::Get).is_ok());
}

#[test]
fn paths_that_end_too_early() {
    let head = ParsedValue::ObjectType(ObjectTypeSelector::PatternWorkBuffer);
    assert_eq!(
        get_format(pattern::handle(&vec![head.clone()], None, CommandType::Put)),
        "A pattern index should be followed by a identifier enum or track index."
    );
    assert_eq!(
        get_format(pattern::handle(&vec![head.clone(), ParsedValue::TrackIndex(0)], None, CommandType::Put)),
        "A track index should be followed by a identifier enum or trig index."
    );
    assert_eq!(
        get_format(pattern::handle(
            &vec![head.clone(), ParsedValue::TrackIndex(0), ParsedValue::TrigIndex(0)],
            None,
            CommandType::Get
        )),
        "A trig index should be followed by an identifier enum or a plock command."
    );
    assert_eq!(
        set_format(pattern::handle(&vec![head.clone(), ParsedValue::SoundIndex(0)], None, CommandType::Put)),
        "An identifier or an enum is expected."
    );
    assert_eq!(get_format(dispatch(&vec![], CommandType::Get)), "An identifier or an enum is expected.");
    assert_eq!(
        set_format(dispatch(&vec![ident("masterlen")], CommandType::Put)),
        "An identifier or an enum is expected."
    );
}

#[test]
fn parse_errors_come_out_of_a_command_unchanged() {
    assert!(matches!(get(vec![]), Err(RytmObjectError::Parse(ParseError::QuerySelectorMissing))));
    assert!(matches!(
        get(vec![sym("pattern"), num(1), sym("bogus")]),
        Err(RytmObjectError::Parse(ParseError::InvalidToken(_)))
    ));
    assert!(matches!(
        put(vec![sym("settings"), sym("patternmode:")]),
        Err(RytmObjectError::Parse(ParseError::EnumRequiresValue(_)))
    ));
}

#[test]
fn engine_functions_directly() {
    let tokens: Vec<ParsedValue> = vec![ParsedValue::Parameter(Number::Int(70))];
    let target = Target::Pattern { pattern: None };
    assert_eq!(
        get_action(Family::Pattern, target, &tokens, 0, "kitnumber").unwrap(),
        Request { target, field: Field::PatternAction(PatternAction::KitNumber), access: Access::Read }
    );
    assert_eq!(
        set_action(Family::Pattern, target, &tokens, 0, "kitnumber").unwrap().access,
        Access::Write(Argument::Unsigned(70))
    );
    assert_eq!(
        get_enum(Family::Pattern, target, "timemode", &None).unwrap().field,
        Field::PatternEnum(PatternEnum::TimeMode)
    );
    assert_eq!(number_or_set_error(&tokens, 0).unwrap(), Number::Int(70));
    assert!(matches!(
        number_or_set_error(&tokens, 1),
        Err(RytmObjectError::Put(SetError::InvalidFormat(_)))
    ));
    assert!(matches!(
        number_or_set_error(&vec![ident("x")], 0),
        Err(RytmObjectError::Put(SetError::InvalidFormat(_)))
    ));
    assert_eq!(make_argument(Takes::Unsigned, Number::Int(3), "x").unwrap(), Argument::Unsigned(3));
    assert_eq!(make_argument(Takes::Signed, Number::Int(-3), "x").unwrap(), Argument::Signed(-3));
    assert_eq!(make_argument(Takes::Flag, Number::Int(0), "x").unwrap(), Argument::Flag(false));
    assert_eq!(make_argument(Takes::Real, Number::Int(3), "x").unwrap(), Argument::Real(Number::Int(3)));
    assert!(make_argument(Takes::Name, Number::Int(3), "x").is_err());
    assert!(make_argument(Takes::SlotAmount, Number::Int(3), "x").is_err());
}

#[test]
fn replies_as_values() {
    let common = Response::Common { index: 1, key: sym("masterlen"), value: num(64) };
    assert_eq!(common.into_values().0, vec![num(1), sym("masterlen"), num(64)]);
    let element = Response::KitElement { kit_index: 10, element_index: 2, element_type: sym("amplev"), value: num(100) };
    assert_eq!(element.into_values().0, vec![num(10), num(2), sym("amplev"), num(100)]);
    let track = Response::Track { pattern_index: 7, track_index: 12, key: sym("steps"), value: num(16) };
    assert_eq!(track.into_values().0, vec![num(7), num(12), sym("steps"), num(16)]);
    let trig = Response::Trig { pattern_index: 0, track_index: 3, trig_index: 63, key: sym("note"), value: num(48) };
    assert_eq!(trig.into_values().0, vec![num(0), num(3), num(63), sym("note"), num(48)]);
    assert!(Response::Done.into_values().0.is_empty());
    let far = Response::Common { index: usize::MAX, key: sym("x"), value: sym("unset") };
    assert_eq!(far.into_values().0, vec![num(-1), sym("x"), sym("unset")]);
}
