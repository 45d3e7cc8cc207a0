use rytm_object::error::ParseError;
use rytm_object::float::Float;
use rytm_object::parse::parse_command;
use rytm_object::parse::types::{Number, ObjectTypeSelector, ParseResult, ParsedValue, PlockOperation};
use rytm_object::types::CommandType;
use rytm_object::value::{RytmValue, RytmValueList};

fn float(x: f64) -> Float {
    Float::from_bits(x.to_bits())
}

fn parse(values: RytmValueList) -> ParseResult<Vec<ParsedValue>> {
    parse_command(&values, CommandType::Get)
}

#[test]
fn test_valid_pattern_get_identifier() {
    // get pattern 1 masterlen
    let values = vec![
        RytmValue::Symbol("pattern".to_string()),
        RytmValue::Int(1),
        RytmValue::Symbol("masterlen".to_string()),
    ];
    let result = parse(values.into()).unwrap();
    assert_eq!(
        result,
        vec![
            ParsedValue::ObjectType(ObjectTypeSelector::Pattern(1)),
            ParsedValue::Identifier("masterlen".to_string()),
        ]
    );
}

#[test]
fn test_valid_pattern_get_enum() {
    // get pattern 1 speed:1x
    let values = vec![
        RytmValue::Symbol("pattern".to_string()),
        RytmValue::Int(1),
        RytmValue::Symbol("speed:1x".to_string()),
    ];
    let result = parse(values.into()).unwrap();
    assert_eq!(
        result,
        vec![
            ParsedValue::ObjectType(ObjectTypeSelector::Pattern(1)),
            ParsedValue::Enum("speed".to_string(), Some("1x".to_string())),
        ]
    );
}

#[test]
fn test_valid_pattern_track_get_identifier() {
    // get pattern 1 0 deftrignote
    let values = vec![
        RytmValue::Symbol("pattern".to_string()),
        RytmValue::Int(1),
        RytmValue::Int(0),
        RytmValue::Symbol("deftrignote".to_string()),
    ];
    let result = parse(values.into()).unwrap();
    assert_eq!(
        result,
        vec![
            ParsedValue::ObjectType(ObjectTypeSelector::Pattern(1)),
            ParsedValue::TrackIndex(0),
            ParsedValue::Identifier("deftrignote".to_string()),
        ]
    );
}

#[test]
fn test_valid_pattern_trig_get_identifier() {
    // get pattern 1 0 5 note
    let values = vec![
        RytmValue::Symbol("pattern".to_string()),
        RytmValue::Int(1),
        RytmValue::Int(0),
        RytmValue::Int(5),
        RytmValue::Symbol("note".to_string()),
    ];
    let result = parse(values.into()).unwrap();
    assert_eq!(
        result,
        vec![
            ParsedValue::ObjectType(ObjectTypeSelector::Pattern(1)),
            ParsedValue::TrackIndex(0),
            ParsedValue::TrigIndex(5),
            ParsedValue::Identifier("note".to_string()),
        ]
    );
}

#[test]
fn test_valid_pattern_trig_plockget() {
    // get pattern 1 0 5 plockget amplev
    let values = vec![
        RytmValue::Symbol("pattern".to_string()),
        RytmValue::Int(1),
        RytmValue::Int(0),
        RytmValue::Int(5),
        RytmValue::Symbol("plockget".to_string()),
        RytmValue::Symbol("amplev".to_string()),
    ];
    let result = parse(values.into()).unwrap();
    assert_eq!(
        result,
        vec![
            ParsedValue::ObjectType(ObjectTypeSelector::Pattern(1)),
            ParsedValue::TrackIndex(0),
            ParsedValue::TrigIndex(5),
            ParsedValue::PlockOperation(PlockOperation::from_str("plockget").unwrap()),
            ParsedValue::Identifier("amplev".to_string()),
        ]
    );
}

#[test]
fn test_valid_kit_get_identifier() {
    // get kit 10 name
    let values = vec![
        RytmValue::Symbol("kit".to_string()),
        RytmValue::Int(10),
        RytmValue::Symbol("name".to_string()),
    ];
    let result = parse(values.into()).unwrap();
    assert_eq!(
        result,
        vec![
            ParsedValue::ObjectType(ObjectTypeSelector::Kit(10)),
            ParsedValue::Identifier("name".to_string()),
        ]
    );
}

#[test]
fn test_valid_kit_element_get() {
    // get kit 10 tracklevel 0
    let values = vec![
        RytmValue::Symbol("kit".to_string()),
        RytmValue::Int(10),
        RytmValue::Symbol("tracklevel".to_string()),
        RytmValue::Int(0),
    ];
    let result = parse(values.into()).unwrap();
    assert_eq!(
        result,
        vec![
            ParsedValue::ObjectType(ObjectTypeSelector::Kit(10)),
            ParsedValue::Element("tracklevel".to_string()),
            ParsedValue::ElementIndex(0),
        ]
    );
}

#[test]
fn test_valid_kit_sound_get() {
    // get kit 10 sound 2 amplev
    let values = vec![
        RytmValue::Symbol("kit".to_string()),
        RytmValue::Int(10),
        RytmValue::Symbol("sound".to_string()),
        RytmValue::Int(2),
        RytmValue::Symbol("amplev".to_string()),
    ];
    let result = parse(values.into()).unwrap();
    assert_eq!(
        result,
        vec![
            ParsedValue::ObjectType(ObjectTypeSelector::Kit(10)),
            ParsedValue::Element("sound".to_string()),
            ParsedValue::SoundIndex(2),
            ParsedValue::Identifier("amplev".to_string()),
        ]
    );
}

#[test]
fn test_valid_sound_get_identifier() {
    // get sound 5 amplev
    let values = vec![
        RytmValue::Symbol("sound".to_string()),
        RytmValue::Int(5),
        RytmValue::Symbol("amplev".to_string()),
    ];
    let result = parse(values.into()).unwrap();
    assert_eq!(
        result,
        vec![
            ParsedValue::ObjectType(ObjectTypeSelector::Sound(5)),
            ParsedValue::Identifier("amplev".to_string()),
        ]
    );
}

#[test]
fn test_invalid_object_type() {
    // get invalidobject 1 name
    let values = vec![
        RytmValue::Symbol("invalidobject".to_string()),
        RytmValue::Int(1),
        RytmValue::Symbol("name".to_string()),
    ];
    let result = parse(values.into());
    assert!(result.is_err());
}

#[test]
fn test_query_selector_missing_index() {
    // get pattern name
    let values = vec![
        RytmValue::Symbol("pattern".to_string()),
        RytmValue::Symbol("name".to_string()),
    ];
    let result = parse(values.into());
    assert!(result.is_err());
    if let Err(ParseError::QuerySelectorIndexMissingOrInvalid) = result {
        // Expected error
    } else {
        panic!("Expected QuerySelectorIndexMissingOrInvalid error");
    }
}

#[test]
fn test_invalid_identifier() {
    // get pattern 1 invalididentifier
    let values = vec![
        RytmValue::Symbol("pattern".to_string()),
        RytmValue::Int(1),
        RytmValue::Symbol("invalididentifier".to_string()),
    ];
    let result = parse(values.into());
    assert!(result.is_err());
    if let Err(ParseError::InvalidToken(_)) = result {
        // Expected error
    } else {
        panic!("Expected InvalidToken error");
    }
}

#[test]
fn test_valid_settings_get_enum() {
    // get settings sequencermode:
    let values = vec![
        RytmValue::Symbol("settings".to_string()),
        RytmValue::Symbol("sequencermode:".to_string()),
    ];
    let result = parse(values.into()).unwrap();
    assert_eq!(
        result,
        vec![
            ParsedValue::ObjectType(ObjectTypeSelector::Settings),
            ParsedValue::Enum("sequencermode".to_string(), None),
        ]
    );
}

#[test]
fn test_valid_settings_get_enum_with_value() {
    // get settings sequencermode:normal
    let values = vec![
        RytmValue::Symbol("settings".to_string()),
        RytmValue::Symbol("sequencermode:normal".to_string()),
    ];
    let result = parse(values.into()).unwrap();
    assert_eq!(
        result,
        vec![
            ParsedValue::ObjectType(ObjectTypeSelector::Settings),
            ParsedValue::Enum("sequencermode".to_string(), Some("normal".to_string())),
        ]
    );
}

#[test]
fn test_valid_pattern_set_parameter() {
    // set pattern 1 masterlen 64
    let values = vec![
        RytmValue::Symbol("pattern".to_string()),
        RytmValue::Int(1),
        RytmValue::Symbol("masterlen".to_string()),
        RytmValue::Int(64),
    ];
    let result = parse(values.into()).unwrap();
    assert_eq!(
        result,
        vec![
            ParsedValue::ObjectType(ObjectTypeSelector::Pattern(1)),
            ParsedValue::Identifier("masterlen".to_string()),
            ParsedValue::Parameter(Number::Int(64)),
        ]
    );
}

#[test]
fn test_valid_sound_set_parameter_float() {
    // set sound 0 lfodepth -12.5
    let values = vec![
        RytmValue::Symbol("sound".to_string()),
        RytmValue::Int(0),
        RytmValue::Symbol("lfodepth".to_string()),
        RytmValue::Float(float(-12.5)),
    ];
    let result = parse(values.into()).unwrap();
    assert_eq!(
        result,
        vec![
            ParsedValue::ObjectType(ObjectTypeSelector::Sound(0)),
            ParsedValue::Identifier("lfodepth".to_string()),
            ParsedValue::Parameter(Number::Float(float(-12.5))),
        ]
    );
}

#[test]
fn test_invalid_track_index() {
    // get pattern 1 13 deftrignote
    let values = vec![
        RytmValue::Symbol("pattern".to_string()),
        RytmValue::Int(1),
        RytmValue::Int(13),
        RytmValue::Symbol("deftrignote".to_string()),
    ];
    let result = parse(values.into());
    assert!(result.is_err());
    if let Err(ParseError::IndexOutOfRange(_)) = result {
        // Expected error
    } else {
        panic!("Expected IndexOutOfRange error");
    }
}

#[test]
fn test_invalid_trig_index() {
    // get pattern 1 0 64 note
    let values = vec![
        RytmValue::Symbol("pattern".to_string()),
        RytmValue::Int(1),
        RytmValue::Int(0),
        RytmValue::Int(64),
        RytmValue::Symbol("note".to_string()),
    ];
    let result = parse(values.into());
    assert!(result.is_err());
    if let Err(ParseError::IndexOutOfRange(_)) = result {
        // Expected error
    } else {
        panic!("Expected IndexOutOfRange error");
    }
}

#[test]
fn test_missing_object_type() {
    // get
    let values = vec![];
    let result = parse(values.into());
    assert!(result.is_err());
    if let Err(ParseError::QuerySelectorMissing) = result {
        // Expected error
    } else {
        panic!("Expected QuerySelectorMissing error");
    }
}

#[test]
fn test_invalid_enum_format() {
    // get pattern 1 speed
    let values = vec![
        RytmValue::Symbol("pattern".to_string()),
        RytmValue::Int(1),
        RytmValue::Symbol("speed".to_string()), // Missing ':'
    ];
    let result = parse(values.into());
    assert!(result.is_err());
    if let Err(ParseError::InvalidFormat(_)) = result {
        // Expected error
    } else {
        panic!("Expected InvalidFormat error");
    }
}

#[test]
fn test_valid_pattern_min_index() {
    // get pattern 0 name
    let values = vec![
        RytmValue::Symbol("pattern".to_string()),
        RytmValue::Int(0),
        RytmValue::Symbol("name".to_string()),
    ];
    // The index is accepted. What is refused is the name: a pattern has no
    // field `name`, which belongs to kits and sounds.
    let result = parse(values.into());
    if let Err(ParseError::InvalidToken(_)) = result {
        // Expected error
    } else {
        panic!("Expected InvalidToken error");
    }

    // get pattern 0 masterlen
    let values = vec![
        RytmValue::Symbol("pattern".to_string()),
        RytmValue::Int(0),
        RytmValue::Symbol("masterlen".to_string()),
    ];
    let result = parse(values.into()).unwrap();
    assert_eq!(
        result,
        vec![
            ParsedValue::ObjectType(ObjectTypeSelector::Pattern(0)),
            ParsedValue::Identifier("masterlen".to_string()),
        ]
    );
}

#[test]
fn test_valid_pattern_max_index() {
    // get pattern 127 name
    let values = vec![
        RytmValue::Symbol("pattern".to_string()),
        RytmValue::Int(127),
        RytmValue::Symbol("name".to_string()),
    ];
    // The index is accepted. What is refused is the name: a pattern has no
    // field `name`, which belongs to kits and sounds.
    let result = parse(values.into());
    if let Err(ParseError::InvalidToken(_)) = result {
        // Expected error
    } else {
        panic!("Expected InvalidToken error");
    }

    // get pattern 127 masterlen
    let values = vec![
        RytmValue::Symbol("pattern".to_string()),
        RytmValue::Int(127),
        RytmValue::Symbol("masterlen".to_string()),
    ];
    let result = parse(values.into()).unwrap();
    assert_eq!(
        result,
        vec![
            ParsedValue::ObjectType(ObjectTypeSelector::Pattern(127)),
            ParsedValue::Identifier("masterlen".to_string()),
        ]
    );
}

#[test]
fn test_invalid_pattern_index_out_of_range() {
    // get pattern 128 name
    let values = vec![
        RytmValue::Symbol("pattern".to_string()),
        RytmValue::Int(128),
        RytmValue::Symbol("name".to_string()),
    ];
    let result = parse(values.into());
    assert!(result.is_err());

    if let Err(ParseError::InvalidIndexRange { .. }) = result {
        // Expected error
    } else {
        panic!("Expected InvalidIndexRange error");
    }
}

#[test]
fn test_valid_pattern_enum_with_track() {
    // get pattern 1 0 rootnote:c
    let values = vec![
        RytmValue::Symbol("pattern".to_string()),
        RytmValue::Int(1),
        RytmValue::Int(0),
        RytmValue::Symbol("rootnote:c".to_string()),
    ];
    let result = parse(values.into()).unwrap();
    assert_eq!(
        result,
        vec![
            ParsedValue::ObjectType(ObjectTypeSelector::Pattern(1)),
            ParsedValue::TrackIndex(0),
            ParsedValue::Enum("rootnote".to_string(), Some("c".to_string())),
        ]
    );
}

#[test]
fn test_valid_enum_without_value() {
    // get settings sequencermode:
    let values = vec![
        RytmValue::Symbol("settings".to_string()),
        RytmValue::Symbol("sequencermode:".to_string()),
    ];
    let result = parse(values.into()).unwrap();
    assert_eq!(
        result,
        vec![
            ParsedValue::ObjectType(ObjectTypeSelector::Settings),
            ParsedValue::Enum("sequencermode".to_string(), None),
        ]
    );
}

#[test]
fn test_invalid_command() {
    // foo bar baz
    let values = vec![
        RytmValue::Symbol("foo".to_string()),
        RytmValue::Symbol("bar".to_string()),
        RytmValue::Symbol("baz".to_string()),
    ];
    let result = parse(values.into());
    assert!(result.is_err());
}

#[test]
fn test_valid_sound_set_float_parameter() {
    // set sound 0 sampstart 12.34
    let values = vec![
        RytmValue::Symbol("sound".to_string()),
        RytmValue::Int(0),
        RytmValue::Symbol("sampstart".to_string()),
        RytmValue::Float(float(12.34)),
    ];
    let result = parse(values.into()).unwrap();
    assert_eq!(
        result,
        vec![
            ParsedValue::ObjectType(ObjectTypeSelector::Sound(0)),
            ParsedValue::Identifier("sampstart".to_string()),
            ParsedValue::Parameter(Number::Float(float(12.34))),
        ]
    );
}

#[test]
fn test_valid_sound_set_negative_parameter() {
    // set sound 0 sampfinetune -64
    let values = vec![
        RytmValue::Symbol("sound".to_string()),
        RytmValue::Int(0),
        RytmValue::Symbol("sampfinetune".to_string()),
        RytmValue::Int(-64),
    ];
    let result = parse(values.into()).unwrap();
    assert_eq!(
        result,
        vec![
            ParsedValue::ObjectType(ObjectTypeSelector::Sound(0)),
            ParsedValue::Identifier("sampfinetune".to_string()),
            ParsedValue::Parameter(Number::Int(-64)),
        ]
    );
}

#[test]
fn test_valid_pattern_trig_plockset_enum() {
    // set pattern 1 0 5 plockset filtertype:lp2
    let values = vec![
        RytmValue::Symbol("pattern".to_string()),
        RytmValue::Int(1),
        RytmValue::Int(0),
        RytmValue::Int(5),
        RytmValue::Symbol("plockset".to_string()),
        RytmValue::Symbol("filtertype:lp2".to_string()),
    ];
    let result = parse(values.into()).unwrap();
    assert_eq!(
        result,
        vec![
            ParsedValue::ObjectType(ObjectTypeSelector::Pattern(1)),
            ParsedValue::TrackIndex(0),
            ParsedValue::TrigIndex(5),
            ParsedValue::PlockOperation(PlockOperation::from_str("plockset").unwrap()),
            ParsedValue::Enum("filtertype".to_string(), Some("lp2".to_string())),
        ]
    );
}

#[test]
fn test_unexpected_end_of_input() {
    // get pattern 1 0
    let values = vec![
        RytmValue::Symbol("pattern".to_string()),
        RytmValue::Int(1),
        RytmValue::Int(0),
        // Missing identifier or enum
    ];
    let result = parse(values.into());
    assert!(result.is_err());
    if let Err(ParseError::UnexpectedEnd) = result {
        // Expected error
    } else {
        panic!("Expected UnexpectedEnd error");
    }
}

#[test]
fn test_set_focused_parse_requires_enum_values() {
    // set focused sequencermode
    let values = vec![
        RytmValue::Symbol("focused:".to_string()),
        RytmValue::Symbol("sequencermode".to_string()),
    ];

    let v: RytmValueList = values.into();
    let result = parse_command(&v, CommandType::Put);
    assert!(result.is_err());
}

#[test]
fn test_valid_two_parameters() {
    // set kit 10 distamount 64 127
    let values = vec![
        RytmValue::Symbol("kit".to_string()),
        RytmValue::Int(10),
        RytmValue::Symbol("sound".to_string()),
        RytmValue::Int(0),
        RytmValue::Symbol("velmodamt".to_string()),
        RytmValue::Int(2),
        RytmValue::Int(2),
    ];
    let v: RytmValueList = values.into();
    let result = parse_command(&v, CommandType::Put).unwrap();
    assert_eq!(
        result,
        vec![
            ParsedValue::ObjectType(ObjectTypeSelector::Kit(10)),
            ParsedValue::Element("sound".to_string()),
            ParsedValue::SoundIndex(0),
            ParsedValue::Identifier("velmodamt".to_string()),
            ParsedValue::Parameter(Number::Int(2)),
            ParsedValue::Parameter(Number::Int(2)),
        ]
    );
}

#[test]
fn test_sound_naming() {
    // set sound 0 name
    let values = vec![
        RytmValue::Symbol("sound".to_string()),
        RytmValue::Int(0),
        RytmValue::Symbol("name".to_string()),
        RytmValue::Symbol("hello".to_string()),
    ];
    let v: RytmValueList = values.into();
    let result = parse_command(&v, CommandType::Put).unwrap();
    assert_eq!(
        result,
        vec![
            ParsedValue::ObjectType(ObjectTypeSelector::Sound(0)),
            ParsedValue::Identifier("name".to_string()),
            ParsedValue::ParameterString("hello".to_string()),
        ]
    );

    // get sound 0 name
    let values = vec![
        RytmValue::Symbol("sound".to_string()),
        RytmValue::Int(0),
        RytmValue::Symbol("name".to_string()),
    ];
    let v: RytmValueList = values.into();
    let result = parse_command(&v, CommandType::Get).unwrap();
    assert_eq!(
        result,
        vec![
            ParsedValue::ObjectType(ObjectTypeSelector::Sound(0)),
            ParsedValue::Identifier("name".to_string()),
        ]
    );
}
