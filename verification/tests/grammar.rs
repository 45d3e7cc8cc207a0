use rytm_object::error::ParseError;
use rytm_object::float::Float;
use rytm_object::parse::types::{Number, ObjectTypeSelector, ParsedValue, PlockOperation};
use rytm_object::parse::{
    find_colon, is_element, is_enum, is_enum_word, is_identifier, is_plock_operation, join3, parse_command,
    parse_enum_value, parse_identifier_or_enum, parse_kit, parse_pattern, parse_plock_and_field, parse_settings,
    parse_sound, validate_index, Context, EnumParseResult,
};
use rytm_object::types::CommandType;
use rytm_object::value::{RytmValue, RytmValueList};

fn sym(s: &str) -> RytmValue {
    RytmValue::Symbol(s.to_string())
}

fn num(i: isize) -> RytmValue {
    RytmValue::Int(i)
}

fn read(values: Vec<RytmValue>, command_type: CommandType) -> Result<Vec<ParsedValue>, ParseError> {
    let list: RytmValueList = values.into();
    parse_command(&list, command_type)
}

#[test]
fn pattern_identifier_under_get() {
    assert_eq!(
        read(vec![sym("pattern"), num(1), sym("masterlen")], CommandType::Get).unwrap(),
        vec![
            ParsedValue::ObjectType(ObjectTypeSelector::Pattern(1)),
            ParsedValue::Identifier("masterlen".to_string()),
        ]
    );
}

#[test]
fn pattern_lock_under_set() {
    assert_eq!(
        read(
            vec![sym("pattern"), num(1), num(0), num(5), sym("plockset"), sym("filtertype:lp2")],
            CommandType::Put
        )
        .unwrap(),
        vec![
            ParsedValue::ObjectType(ObjectTypeSelector::Pattern(1)),
            ParsedValue::TrackIndex(0),
            ParsedValue::TrigIndex(5),
            ParsedValue::PlockOperation(PlockOperation::Put),
            ParsedValue::Enum("filtertype".to_string(), Some("lp2".to_string())),
        ]
    );
}

#[test]
fn pattern_index_beyond_the_range() {
    match read(vec![sym("pattern"), num(128), sym("name")], CommandType::Get) {
        Err(ParseError::InvalidIndexRange { min, max, value }) => assert_eq!((min, max, value), (0, 127, 128)),
        other => panic!("unexpected {:?}", other),
    }
}

#[test]
fn enum_without_variant_reads_and_does_not_write() {
    let cases: Vec<(Vec<RytmValue>, ObjectTypeSelector, &str)> = vec![
        (vec![sym("pattern"), num(3)], ObjectTypeSelector::Pattern(3), "speed"),
        (vec![sym("pattern_wb")], ObjectTypeSelector::PatternWorkBuffer, "rootnote"),
        (vec![sym("pattern_wb")], ObjectTypeSelector::PatternWorkBuffer, "notelen"),
        (vec![sym("kit"), num(1)], ObjectTypeSelector::Kit(1), "fxlfodest"),
        (vec![sym("kit_wb")], ObjectTypeSelector::KitWorkBuffer, "trackretrigrate"),
        (vec![sym("settings")], ObjectTypeSelector::Settings, "sequencermode"),
        (vec![sym("sound"), num(2)], ObjectTypeSelector::Sound(2), "lfodest"),
        (vec![sym("sound_wb"), num(2)], ObjectTypeSelector::SoundWorkBuffer(2), "machineparameters"),
        (vec![sym("global"), num(0)], ObjectTypeSelector::Global(0), "usbin"),
        (vec![sym("global_wb")], ObjectTypeSelector::GlobalWorkBuffer, "trackchannels"),
    ];
    for (object, selector, name) in cases {
        let mut values = object.clone();
        values.push(sym(&format!("{}:", name)));
        let tokens = read(values.clone(), CommandType::Get).unwrap();
        assert_eq!(
            tokens,
            vec![ParsedValue::ObjectType(selector), ParsedValue::Enum(name.to_string(), None)],
            "{}",
            name
        );
        match read(values, CommandType::Put) {
            Err(ParseError::EnumRequiresValue(n)) => assert_eq!(n, name),
            other => panic!("unexpected {:?}", other),
        }
    }
    // After a lock word.
    let lock = vec![sym("pattern_wb"), num(0), num(0), sym("plockget"), sym("filtertype:")];
    assert_eq!(
        read(lock, CommandType::Get).unwrap()[4],
        ParsedValue::Enum("filtertype".to_string(), None)
    );
    let lock = vec![sym("pattern_wb"), num(0), num(0), sym("plockset"), sym("filtertype:")];
    assert!(matches!(read(lock, CommandType::Put), Err(ParseError::EnumRequiresValue(n)) if n == "filtertype"));
}

fn refused(values: Vec<RytmValue>, command_type: CommandType, symbol: &str) {
    match read(values, command_type) {
        Err(ParseError::InvalidToken(text)) => {
            assert_eq!(text, format!("Unexpected symbol '{}'. Expected an identifier or enum.", symbol))
        }
        other => panic!("unexpected {:?} for {}", other, symbol),
    }
}

#[test]
fn a_name_of_another_family_is_refused() {
    for command_type in [CommandType::Get, CommandType::Put] {
        refused(vec![sym("settings"), sym("masterlen")], command_type, "masterlen");
        refused(vec![sym("settings"), sym("speed:2x")], command_type, "speed:2x");
        refused(vec![sym("settings"), sym("pattern")], command_type, "pattern");
        refused(vec![sym("settings"), sym("plockget")], command_type, "plockget");
        refused(vec![sym("global"), num(0), sym("projectbpm")], command_type, "projectbpm");
        refused(vec![sym("global_wb"), sym("sequencermode:")], command_type, "sequencermode:");
        refused(vec![sym("pattern"), num(0), sym("name")], command_type, "name");
        refused(vec![sym("pattern"), num(0), sym("amplev"), num(1)], command_type, "amplev");
        refused(vec![sym("pattern"), num(0), num(1), sym("filtertype:lp2")], command_type, "filtertype:lp2");
        refused(vec![sym("pattern_wb"), num(0), num(0), sym("tracklevel")], command_type, "tracklevel");
        refused(vec![sym("kit"), num(0), sym("masterlen")], command_type, "masterlen");
        refused(vec![sym("kit"), num(0), sym("amplev")], command_type, "amplev");
        refused(vec![sym("kit"), num(0), sym("lfodest:x")], command_type, "lfodest:x");
        refused(vec![sym("kit"), num(0), sym("tracklevel"), num(1), sym("speed:1x")], command_type, "speed:1x");
        refused(vec![sym("sound"), num(0), sym("fxdeltime")], command_type, "fxdeltime");
        refused(vec![sym("sound_wb"), num(0), sym("masterlen")], command_type, "masterlen");
        refused(vec![sym("kit"), num(0), sym("sound"), num(1), sym("fxdeltime")], command_type, "fxdeltime");
        refused(vec![sym("kit"), num(0), sym("sound"), num(1), sym("tracklevel")], command_type, "tracklevel");
    }
    // A kit's own fields and a kit's sound's fields are each known in their place.
    assert!(read(vec![sym("kit"), num(0), sym("fxdeltime")], CommandType::Get).is_ok());
    assert!(read(vec![sym("kit"), num(0), sym("sound"), num(1), sym("amplev")], CommandType::Get).is_ok());
    // The fields of patterns, tracks and trigs are one family.
    assert!(read(vec![sym("pattern"), num(0), sym("deftrignote")], CommandType::Get).is_ok());
    assert!(read(vec![sym("pattern"), num(0), num(1), sym("masterlen")], CommandType::Get).is_ok());
    assert!(read(vec![sym("pattern"), num(0), num(1), num(2), sym("rootnote:c")], CommandType::Get).is_ok());
}

#[test]
fn after_a_lock_word_only_lockable_fields_are_known() {
    let path = |word: &str, field: &str| vec![sym("pattern_wb"), num(0), num(0), sym(word), sym(field)];
    for word in ["plockget", "plockset", "plockclear"] {
        for command_type in [CommandType::Get, CommandType::Put] {
            for field in ["name", "masterlen", "note", "fxdistamt", "velmodamt", "accentlev", "version"] {
                refused(path(word, field), command_type, field);
            }
            for field in ["machinetype:x", "speed:2x", "ctrlinmod1target:1", "trigcondition:fill"] {
                refused(path(word, field), command_type, field);
            }
            for field in ["amplev", "fxdeltime", "fxlfodepth", "samplev", "lfomode:x", "fxcompratio:x"] {
                assert!(read(path(word, field), command_type).is_ok(), "{} {}", word, field);
            }
        }
    }
}

#[test]
fn readers_leave_the_list_as_it_was_on_an_error() {
    let head = || vec![ParsedValue::ObjectType(ObjectTypeSelector::Pattern(1))];

    // A track index beyond the tracks: nothing is added.
    let values: RytmValueList = vec![num(13), sym("deftrignote")].into();
    let mut result = head();
    assert!(matches!(
        parse_pattern(CommandType::Get, &values, 0, &mut result),
        Err(ParseError::IndexOutOfRange(_))
    ));
    assert_eq!(result, head());

    // A trig index beyond the trigs: the track index before it is not added either.
    let values: RytmValueList = vec![num(3), num(64), sym("note")].into();
    let mut result = head();
    assert!(matches!(
        parse_pattern(CommandType::Get, &values, 0, &mut result),
        Err(ParseError::IndexOutOfRange(_))
    ));
    assert_eq!(result, head());

    // An unknown field after both indices and a lock word.
    let values: RytmValueList = vec![num(3), num(5), sym("plockget"), sym("bogus")].into();
    let mut result = head();
    assert!(matches!(
        parse_pattern(CommandType::Get, &values, 0, &mut result),
        Err(ParseError::InvalidToken(_))
    ));
    assert_eq!(result, head());
    let mut result = head();
    assert!(matches!(
        parse_plock_and_field(CommandType::Get, &values, 2, &mut result),
        Err(ParseError::InvalidToken(_))
    ));
    assert_eq!(result, head());

    // An unknown symbol.
    let values: RytmValueList = vec![sym("invalididentifier")].into();
    let mut result = head();
    assert!(matches!(
        parse_identifier_or_enum(Context::Pattern, CommandType::Get, &values, 0, &mut result),
        Err(ParseError::InvalidToken(_))
    ));
    assert_eq!(result, head());

    // A name of another family after the settings.
    let values: RytmValueList = vec![sym("masterlen")].into();
    let mut result = vec![ParsedValue::ObjectType(ObjectTypeSelector::Settings)];
    assert!(matches!(
        parse_settings(CommandType::Get, &values, 0, &mut result),
        Err(ParseError::InvalidToken(_))
    ));
    assert_eq!(result, vec![ParsedValue::ObjectType(ObjectTypeSelector::Settings)]);

    // An enum without a variant under a write.
    let values: RytmValueList = vec![sym("speed:")].into();
    let mut result = head();
    assert!(matches!(
        parse_identifier_or_enum(Context::Pattern, CommandType::Put, &values, 0, &mut result),
        Err(ParseError::EnumRequiresValue(_))
    ));
    assert_eq!(result, head());
    let mut result = head();
    assert_eq!(parse_identifier_or_enum(Context::Pattern, CommandType::Get, &values, 0, &mut result).unwrap(), 1);
    let mut expected = head();
    expected.push(ParsedValue::Enum("speed".to_string(), None));
    assert_eq!(result, expected);

    // A kit element whose field is unknown, and a kit sound beyond the sounds.
    let values: RytmValueList = vec![sym("tracklevel"), num(2), sym("bogus")].into();
    let mut result = head();
    assert!(matches!(parse_kit(CommandType::Get, &values, 0, &mut result), Err(ParseError::InvalidToken(_))));
    assert_eq!(result, head());
    let values: RytmValueList = vec![sym("sound"), num(12), sym("amplev")].into();
    let mut result = head();
    assert!(matches!(parse_kit(CommandType::Get, &values, 0, &mut result), Err(ParseError::IndexOutOfRange(_))));
    assert_eq!(result, head());
    let values: RytmValueList = vec![sym("sound"), num(2), sym("name"), num(1)].into();
    let mut result = head();
    assert!(matches!(parse_kit(CommandType::Put, &values, 0, &mut result), Err(ParseError::InvalidFormat(_))));
    assert_eq!(result, head());

    // A sound's name that is no symbol.
    let values: RytmValueList = vec![sym("name"), num(1)].into();
    let mut result = head();
    assert!(matches!(parse_sound(CommandType::Put, &values, 0, &mut result), Err(ParseError::InvalidFormat(_))));
    assert_eq!(result, head());
}

#[test]
fn enum_with_variant_reads_under_both_operations() {
    for command_type in [CommandType::Get, CommandType::Put] {
        assert_eq!(
            read(vec![sym("pattern"), num(0), sym("speed:3/4x")], command_type).unwrap(),
            vec![
                ParsedValue::ObjectType(ObjectTypeSelector::Pattern(0)),
                ParsedValue::Enum("speed".to_string(), Some("3/4x".to_string())),
            ]
        );
        // Only the first colon splits.
        assert_eq!(
            read(vec![sym("settings"), sym("patternmode:a:b")], command_type).unwrap(),
            vec![
                ParsedValue::ObjectType(ObjectTypeSelector::Settings),
                ParsedValue::Enum("patternmode".to_string(), Some("a:b".to_string())),
            ]
        );
    }
}

#[test]
fn values_left_over_are_an_error() {
    assert!(matches!(
        read(vec![sym("pattern"), num(1), sym("masterlen"), num(1), num(2), num(3)], CommandType::Put),
        Err(ParseError::UnexpectedEnd)
    ));
    assert!(matches!(
        read(vec![sym("settings"), sym("sequencermode:normal"), num(2)], CommandType::Put),
        Err(ParseError::UnexpectedEnd)
    ));
    assert!(matches!(
        read(vec![sym("sound"), num(0), sym("name"), sym("hello"), sym("again")], CommandType::Put),
        Err(ParseError::UnexpectedEnd)
    ));
    assert!(matches!(
        read(vec![sym("pattern"), num(1), sym("masterlen"), sym("masterlen")], CommandType::Get),
        Err(ParseError::UnexpectedEnd)
    ));
}

#[test]
fn a_number_where_a_field_is_expected() {
    assert!(matches!(
        read(vec![sym("global"), num(1), RytmValue::Float(Float::from_bits(1.5f64.to_bits()))], CommandType::Get),
        Err(ParseError::UnexpectedEnd)
    ));
    assert!(matches!(
        read(vec![sym("kit"), num(10), sym("tracklevel"), num(0), num(100)], CommandType::Put),
        Err(ParseError::UnexpectedEnd)
    ));
    assert!(matches!(read(vec![sym("settings")], CommandType::Get), Err(ParseError::UnexpectedEnd)));
    assert!(matches!(read(vec![sym("sound"), num(1)], CommandType::Get), Err(ParseError::UnexpectedEnd)));
}

#[test]
fn selector_errors_of_a_command() {
    assert!(matches!(read(vec![], CommandType::Get), Err(ParseError::QuerySelectorMissing)));
    assert!(matches!(read(vec![sym("foo"), num(1)], CommandType::Get), Err(ParseError::InvalidSelector)));
    assert!(matches!(read(vec![num(1), sym("kit")], CommandType::Get), Err(ParseError::InvalidSelector)));
    assert!(matches!(
        read(vec![sym("kit")], CommandType::Get),
        Err(ParseError::QuerySelectorIndexMissingOrInvalid)
    ));
    assert!(matches!(
        read(vec![sym("kit"), sym("name")], CommandType::Get),
        Err(ParseError::QuerySelectorIndexMissingOrInvalid)
    ));
    assert!(matches!(
        read(vec![sym("sound_wb"), RytmValue::Float(Float::from_bits(1.0f64.to_bits()))], CommandType::Get),
        Err(ParseError::QuerySelectorIndexMissingOrInvalid)
    ));
}

#[test]
fn unknown_symbol_quotes_the_symbol() {
    match read(vec![sym("pattern"), num(1), sym("bogus")], CommandType::Get) {
        Err(ParseError::InvalidToken(text)) => {
            assert_eq!(text, "Unexpected symbol 'bogus'. Expected an identifier or enum.")
        }
        other => panic!("unexpected {:?}", other),
    }
    match read(vec![sym("pattern"), num(1), sym("bogus:thing")], CommandType::Get) {
        Err(ParseError::InvalidToken(text)) => {
            assert_eq!(text, "Unexpected symbol 'bogus:thing'. Expected an identifier or enum.")
        }
        other => panic!("unexpected {:?}", other),
    }
}

#[test]
fn enum_without_colon_is_malformed() {
    match read(vec![sym("pattern"), num(1), sym("speed")], CommandType::Get) {
        Err(ParseError::InvalidFormat(text)) => assert_eq!(
            text,
            "Invalid enum format: 'speed'. Enums may only have the format of <enum-type>: or <enum-type>:<variant>"
        ),
        other => panic!("unexpected {:?}", other),
    }
}

#[test]
fn track_and_trig_indices_are_checked() {
    match read(vec![sym("pattern"), num(1), num(13), sym("deftrignote")], CommandType::Get) {
        Err(ParseError::IndexOutOfRange(text)) => assert_eq!(
            text,
            "13 is out of range for track index. Track index must be an integer between  0 and 12."
        ),
        other => panic!("unexpected {:?}", other),
    }
    match read(vec![sym("pattern_wb"), num(0), num(64), sym("note")], CommandType::Get) {
        Err(ParseError::IndexOutOfRange(text)) => assert_eq!(
            text,
            "64 is out of range for trig index. Trig index must be an integer between  0 and 63."
        ),
        other => panic!("unexpected {:?}", other),
    }
    match read(vec![sym("pattern_wb"), num(-1), sym("note")], CommandType::Get) {
        Err(ParseError::IndexOutOfRange(text)) => assert_eq!(
            text,
            "-1 is out of range for track index. Track index must be an integer between  0 and 12."
        ),
        other => panic!("unexpected {:?}", other),
    }
    assert_eq!(
        read(vec![sym("pattern_wb"), num(12), num(63), sym("note")], CommandType::Get).unwrap(),
        vec![
            ParsedValue::ObjectType(ObjectTypeSelector::PatternWorkBuffer),
            ParsedValue::TrackIndex(12),
            ParsedValue::TrigIndex(63),
            ParsedValue::Identifier("note".to_string()),
        ]
    );
}

#[test]
fn validate_index_bounds() {
    assert!(validate_index(&0, 0, 12, "Track index").is_ok());
    assert!(validate_index(&12, 0, 12, "Track index").is_ok());
    assert!(validate_index(&-3, -3, 3, "Offset").is_ok());
    match validate_index(&-4, -3, 3, "Offset") {
        Err(ParseError::IndexOutOfRange(text)) => {
            assert_eq!(text, "-4 is out of range for offset. Offset must be an integer between  -3 and 3.")
        }
        other => panic!("unexpected {:?}", other),
    }
    match validate_index(&12, 0, 11, "Kit sound index") {
        Err(ParseError::IndexOutOfRange(text)) => assert_eq!(
            text,
            "12 is out of range for kit sound index. Kit sound index must be an integer between  0 and 11."
        ),
        other => panic!("unexpected {:?}", other),
    }
}

#[test]
fn lock_word_needs_a_field() {
    match read(vec![sym("pattern"), num(1), num(0), num(5), sym("plockget")], CommandType::Get) {
        Err(ParseError::InvalidPlockOperation(word, advice)) => {
            assert_eq!(word, "plockget");
            assert_eq!(advice, "This operation needs to be followed by an identifier or an enum.");
        }
        other => panic!("unexpected {:?}", other),
    }
}

#[test]
fn lock_operation_from_word() {
    assert_eq!(PlockOperation::from_str("plockget").unwrap(), PlockOperation::Get);
    assert_eq!(PlockOperation::from_str("plockset").unwrap(), PlockOperation::Put);
    assert_eq!(PlockOperation::from_str("plockclear").unwrap(), PlockOperation::Clear);
    assert_eq!(PlockOperation::Get.as_str(), "plockget");
    assert_eq!(PlockOperation::Put.as_str(), "plockset");
    assert_eq!(PlockOperation::Clear.as_str(), "plockclear");
    match PlockOperation::from_str("plock") {
        Err(ParseError::InvalidPlockOperation(word, advice)) => {
            assert_eq!(word, "plock");
            assert_eq!(advice, "Try using plockget, plockset or plockclear.");
        }
        other => panic!("unexpected {:?}", other),
    }
}

#[test]
fn kit_elements() {
    assert_eq!(
        read(vec![sym("kit_wb"), sym("trackretrigrate"), num(3), sym("trackretrigrate:1/16")], CommandType::Put)
            .unwrap(),
        vec![
            ParsedValue::ObjectType(ObjectTypeSelector::KitWorkBuffer),
            ParsedValue::Element("trackretrigrate".to_string()),
            ParsedValue::ElementIndex(3),
            ParsedValue::Enum("trackretrigrate".to_string(), Some("1/16".to_string())),
        ]
    );
    // The index of an element other than the sounds is taken as it is.
    assert_eq!(
        read(vec![sym("kit"), num(0), sym("tracklevel"), num(-1)], CommandType::Get).unwrap(),
        vec![
            ParsedValue::ObjectType(ObjectTypeSelector::Kit(0)),
            ParsedValue::Element("tracklevel".to_string()),
            ParsedValue::ElementIndex(usize::MAX),
        ]
    );
    match read(vec![sym("kit"), num(0), sym("tracklevel"), sym("x")], CommandType::Get) {
        Err(ParseError::ExpectedKitElementIndex(text)) => assert_eq!(
            text,
            "Expected element index after 'tracklevel': Kit elements must be followed by an integer index."
        ),
        other => panic!("unexpected {:?}", other),
    }
    assert!(matches!(
        read(vec![sym("kit"), num(0), sym("sound")], CommandType::Get),
        Err(ParseError::ExpectedKitElementIndex(_))
    ));
    match read(vec![sym("kit"), num(0), sym("sound"), num(12), sym("amplev")], CommandType::Get) {
        Err(ParseError::IndexOutOfRange(text)) => assert_eq!(
            text,
            "12 is out of range for kit sound index. Kit sound index must be an integer between  0 and 11."
        ),
        other => panic!("unexpected {:?}", other),
    }
    assert_eq!(
        read(vec![sym("kit"), num(0), sym("sound"), num(11)], CommandType::Get).unwrap(),
        vec![
            ParsedValue::ObjectType(ObjectTypeSelector::Kit(0)),
            ParsedValue::Element("sound".to_string()),
            ParsedValue::SoundIndex(11),
        ]
    );
}

#[test]
fn sound_name_takes_a_symbol_when_written() {
    match read(vec![sym("sound"), num(0), sym("name"), num(5)], CommandType::Put) {
        Err(ParseError::InvalidFormat(text)) => assert_eq!(
            text,
            "Invalid parameter 'name': name must be a symbol with maximum 15 characters long and use only ascii characters."
        ),
        other => panic!("unexpected {:?}", other),
    }
    assert!(matches!(
        read(vec![sym("sound"), num(0), sym("name")], CommandType::Put),
        Err(ParseError::InvalidFormat(_))
    ));
    assert_eq!(
        read(vec![sym("kit"), num(3), sym("sound"), num(2), sym("name"), sym("kick")], CommandType::Put).unwrap(),
        vec![
            ParsedValue::ObjectType(ObjectTypeSelector::Kit(3)),
            ParsedValue::Element("sound".to_string()),
            ParsedValue::SoundIndex(2),
            ParsedValue::Identifier("name".to_string()),
            ParsedValue::ParameterString("kick".to_string()),
        ]
    );
}

#[test]
fn identifier_takes_up_to_two_numbers() {
    let half = Float::from_bits(0.5f64.to_bits());
    assert_eq!(
        read(vec![sym("global_wb"), sym("routetomain"), num(3), RytmValue::Float(half)], CommandType::Get).unwrap(),
        vec![
            ParsedValue::ObjectType(ObjectTypeSelector::GlobalWorkBuffer),
            ParsedValue::Identifier("routetomain".to_string()),
            ParsedValue::Parameter(Number::Int(3)),
            ParsedValue::Parameter(Number::Float(half)),
        ]
    );
}

#[test]
fn parsing_the_same_values_twice_gives_the_same() {
    let cases: Vec<Vec<RytmValue>> = vec![
        vec![sym("pattern"), num(1), sym("masterlen")],
        vec![sym("pattern"), num(128), sym("name")],
        vec![sym("kit"), num(1), sym("bogus")],
        vec![],
    ];
    for values in cases {
        for command_type in [CommandType::Get, CommandType::Put] {
            let a = read(values.clone(), command_type);
            let b = read(values.clone(), command_type);
            assert_eq!(format!("{:?}", a), format!("{:?}", b));
        }
    }
}

#[test]
fn name_sets() {
    let own: Vec<(Context, Vec<&str>, Vec<&str>)> = vec![
        (Context::Pattern, vec!["version", "masterlen", "deftrignote", "tro", "note", "mute"], vec!["speed", "rootnote", "notelen"]),
        (Context::Kit, vec!["version", "name", "fxdeltime", "tracklevel", "trackretrigalwayson"], vec!["fxlfodest", "trackretrigrate", "trackretriglen"]),
        (Context::Sound, vec!["version", "name", "amplev", "velmodamt"], vec!["lfodest", "machineparameters", "lfomode"]),
        (Context::Global, vec!["version", "routetomain", "metronomelev"], vec!["usbin", "trackchannels"]),
        (Context::Settings, vec!["version", "mute", "unmute", "projectbpm"], vec!["sequencermode", "patternmode"]),
        (Context::Lock, vec!["amplev", "fxdeltime", "samplev", "fxlfodepth"], vec!["filtertype", "fxcompratio", "lfomode"]),
    ];
    for (context, identifiers, enums) in &own {
        for word in identifiers {
            assert!(is_identifier(*context, word), "{:?} {}", context, word);
            assert!(!is_enum(*context, word), "{:?} {}", context, word);
        }
        for word in enums {
            assert!(is_enum(*context, word), "{:?} {}", context, word);
            assert!(is_enum_word(*context, word), "{:?} {}", context, word);
            assert!(is_enum(*context, &format!("{}:", word)), "{:?} {}", context, word);
            assert!(is_enum(*context, &format!("{}:a:b", word)), "{:?} {}", context, word);
            assert!(!is_enum_word(*context, &format!("{}:", word)), "{:?} {}", context, word);
            assert!(!is_identifier(*context, word), "{:?} {}", context, word);
        }
        for word in ["", ":", "bogus", "Speed", "speed ", "bdacousticwaveform", "pattern", "settings", "plockget", "sound"] {
            assert!(!is_enum(*context, word), "{:?} {}", context, word);
            assert!(!is_identifier(*context, word), "{:?} {}", context, word);
        }
    }
    // What one context knows, another does not.
    assert!(!is_identifier(Context::Settings, "masterlen"));
    assert!(!is_identifier(Context::Pattern, "name"));
    assert!(!is_identifier(Context::Pattern, "amplev"));
    assert!(!is_identifier(Context::Kit, "amplev"));
    assert!(!is_identifier(Context::Sound, "fxdeltime"));
    assert!(!is_identifier(Context::Sound, "tracklevel"));
    assert!(!is_identifier(Context::Global, "mute"));
    assert!(!is_identifier(Context::Lock, "name"));
    assert!(!is_identifier(Context::Lock, "fxdistamt"));
    assert!(!is_identifier(Context::Lock, "velmodamt"));
    assert!(!is_enum(Context::Settings, "speed:"));
    assert!(!is_enum(Context::Pattern, "sequencermode:"));
    assert!(!is_enum(Context::Kit, "lfodest:"));
    assert!(!is_enum(Context::Lock, "machinetype:"));
    assert!(!is_enum(Context::Lock, "ctrlinmod1target:"));
    assert!(!is_enum(Context::Pattern, "masterlen:"));
    assert!(is_plock_operation("plockget"));
    assert!(is_plock_operation("plockset"));
    assert!(is_plock_operation("plockclear"));
    assert!(!is_plock_operation("plock"));
    for word in ["tracklevel", "trackretrigrate", "trackretriglen", "trackretrigveloffset", "trackretrigalwayson", "sound"] {
        assert!(is_element(word), "{}", word);
    }
    assert!(!is_element("kit"));
}

#[test]
fn enum_symbols_are_split_at_the_first_colon() {
    assert!(matches!(
        parse_enum_value("speed:2x"),
        EnumParseResult::Complete(name, Some(value)) if name == "speed" && value == "2x"
    ));
    assert!(matches!(
        parse_enum_value("a:b:c"),
        EnumParseResult::Complete(name, Some(value)) if name == "a" && value == "b:c"
    ));
    assert!(matches!(parse_enum_value("speed:"), EnumParseResult::RequiresValue(name) if name == "speed"));
    assert!(matches!(parse_enum_value(":"), EnumParseResult::RequiresValue(name) if name == ""));
    assert!(matches!(parse_enum_value("speed"), EnumParseResult::Invalid(s) if s == "speed"));
    assert!(matches!(parse_enum_value(""), EnumParseResult::Invalid(s) if s == ""));
    assert_eq!(find_colon("ab:cd:"), Some(2));
    assert_eq!(find_colon(":"), Some(0));
    assert_eq!(find_colon("abcd"), None);
    assert_eq!(find_colon("\u{e9}:"), Some(1));
}

#[test]
fn joining_texts() {
    assert_eq!(join3("a", "", "c"), "ac");
    assert_eq!(join3("Unexpected symbol '", "x", "'."), "Unexpected symbol 'x'.");
}
