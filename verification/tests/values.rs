use rytm_object::error::{Expected, ParseError, RytmObjectError};
use rytm_object::float::Float;
use rytm_object::parse::types::{wrap, Number};
use rytm_object::save::{
    expect_our_file_types, validate_and_get_save_target_index, RytmProjectFileType, SaveTarget, SaveTargetIndex,
};
use rytm_object::text::{isize_to_string, parse_usize, str_eq, usize_to_string};
use rytm_object::types::CommandType;
use rytm_object::value::{RytmValue, RytmValueList};

fn float_of(x: f64) -> Float {
    Float::from_bits(x.to_bits())
}

#[test]
fn truncation_matches_the_machine() {
    let samples: Vec<f64> = vec![
        0.0,
        -0.0,
        0.5,
        -0.5,
        0.99,
        1.0,
        -1.0,
        1.5,
        12.34,
        -12.5,
        127.999,
        1023.0,
        4503599627370495.5,
        4503599627370496.0,
        9007199254740992.0,
        9007199254740993.0,
        -9007199254740993.0,
        1e18,
        -1e18,
        9.223372036854775e18,
        9.223372036854776e18,
        -9.223372036854776e18,
        -9.223372036854778e18,
        1e30,
        -1e30,
        f64::MAX,
        f64::MIN,
        f64::MIN_POSITIVE,
        5e-324,
        f64::INFINITY,
        f64::NEG_INFINITY,
        f64::NAN,
    ];
    for x in samples {
        assert_eq!(float_of(x).truncate(), x as isize, "truncating {}", x);
    }
}

#[test]
fn truncation_exact_values() {
    assert_eq!(float_of(12.34).truncate(), 12);
    assert_eq!(float_of(-12.5).truncate(), -12);
    assert_eq!(float_of(f64::NAN).truncate(), 0);
    assert_eq!(float_of(f64::INFINITY).truncate(), isize::MAX);
    assert_eq!(float_of(f64::NEG_INFINITY).truncate(), isize::MIN);
}

#[test]
fn float_bits_round_trip() {
    let x = float_of(-12.5);
    assert_eq!(x.to_bits(), (-12.5f64).to_bits());
    assert_eq!(f64::from_bits(x.to_bits()), -12.5);
}

#[test]
fn float_equality_follows_the_standard() {
    assert!(float_of(1.5) == float_of(1.5));
    assert!(float_of(1.5) != float_of(2.5));
    assert!(float_of(0.0) == float_of(-0.0));
    assert!(float_of(f64::NAN) != float_of(f64::NAN));
    assert!(float_of(f64::NAN).check_nan());
    assert!(!float_of(1.0).check_nan());
    assert!(float_of(-0.0).check_zero());
    assert!(!float_of(5e-324).check_zero());
}

#[test]
fn number_as_integer() {
    assert_eq!(Number::Int(-64).get_int(), -64);
    assert_eq!(Number::Float(float_of(99.9)).get_int(), 99);
    assert_eq!(Number::Float(float_of(-99.9)).get_int(), -99);
}

#[test]
fn number_as_real() {
    assert_eq!(Number::Int(3).get_float().to_bits(), 3.0f64.to_bits());
    assert_eq!(Number::Int(-64).get_float().to_bits(), (-64.0f64).to_bits());
    assert_eq!(Number::Float(float_of(2.5)).get_float().to_bits(), 2.5f64.to_bits());
    assert_eq!(Number::Float(Number::Int(120).get_float()).get_int(), 120);
}

#[test]
fn number_as_unsigned_wraps() {
    assert_eq!(Number::Int(5).get_unsigned(), 5);
    assert_eq!(Number::Int(-1).get_unsigned(), usize::MAX);
    assert_eq!(Number::Int(-1).get_unsigned(), -1isize as usize);
    assert_eq!(wrap(isize::MIN), isize::MIN as usize);
    assert_eq!(wrap(isize::MAX), isize::MAX as usize);
    assert_eq!(wrap(0), 0);
}

#[test]
fn number_as_flag() {
    assert_eq!(Number::Int(0).get_bool_from_0_or_1("mute").unwrap(), false);
    assert_eq!(Number::Int(1).get_bool_from_0_or_1("mute").unwrap(), true);
    match Number::Int(2).get_bool_from_0_or_1("mute") {
        Err(ParseError::ExpectedZeroOrOne { found, identifier }) => {
            assert_eq!(found, Number::Int(2));
            assert_eq!(identifier, "mute");
        }
        other => panic!("unexpected {:?}", other),
    }
    match Number::Float(float_of(1.0)).get_bool_from_0_or_1("mute") {
        Err(ParseError::ExpectedZeroOrOne { found, identifier }) => {
            assert_eq!(found, Number::Float(float_of(1.0)));
            assert_eq!(identifier, "mute");
        }
        other => panic!("unexpected {:?}", other),
    }
}

#[test]
fn decimal_rendering() {
    let samples: Vec<isize> = vec![0, 1, -1, 9, 10, 11, 99, 100, 127, 128, -128, 1024, 123456789, isize::MAX, isize::MIN];
    for i in samples {
        assert_eq!(isize_to_string(i), i.to_string());
    }
    let unsigned: Vec<usize> = vec![0, 7, 10, 4096, usize::MAX];
    for u in unsigned {
        assert_eq!(usize_to_string(u), u.to_string());
    }
    assert_eq!(isize_to_string(-12), "-12");
    assert_eq!(usize_to_string(305), "305");
}

#[test]
fn decimal_reading() {
    let samples = vec![
        "0", "1", "2", "3", "4", "007", "+5", "+", "", "-1", "12a", "a12", " 1", "1 ", "++1", "1+", "\u{ff14}",
        "18446744073709551615", "18446744073709551616", "184467440737095516150", "99999999999999999999x",
        "18446744073709551614",
    ];
    for s in samples {
        assert_eq!(parse_usize(s), s.parse::<usize>().ok(), "reading {:?}", s);
    }
    assert_eq!(parse_usize("2"), Some(2));
    assert_eq!(parse_usize("two"), None);
}

#[test]
fn text_equality() {
    assert!(str_eq("", ""));
    assert!(str_eq("pattern", "pattern"));
    assert!(!str_eq("pattern", "pattern_wb"));
    assert!(!str_eq("Pattern", "pattern"));
    assert!(str_eq("n\u{e9}", "n\u{e9}"));
    assert!(!str_eq("n\u{e9}", "ne"));
}

#[test]
fn command_type_from_word() {
    assert_eq!(CommandType::from_str("get").unwrap(), CommandType::Get);
    assert_eq!(CommandType::from_str("set").unwrap(), CommandType::Put);
    assert_eq!(CommandType::Get.as_str(), "get");
    assert_eq!(CommandType::Put.as_str(), "set");
    match CommandType::from_str("copy") {
        Err(ParseError::InvalidCommandType(word)) => assert_eq!(word, "copy"),
        other => panic!("unexpected {:?}", other),
    }
}

#[test]
fn value_accessors() {
    let int = RytmValue::Int(3);
    let float = RytmValue::Float(float_of(2.5));
    let symbol = RytmValue::Symbol("kit".to_string());

    assert_eq!(int.as_number().unwrap(), Number::Int(3));
    assert_eq!(float.as_number().unwrap(), Number::Float(float_of(2.5)));
    match symbol.as_number() {
        Err(RytmObjectError::TypeMismatch { expected, found }) => {
            assert_eq!(expected, Expected::Number);
            assert_eq!(found, symbol);
        }
        other => panic!("unexpected {:?}", other),
    }

    assert_eq!(symbol.as_symbol().unwrap(), "kit");
    match int.as_symbol() {
        Err(RytmObjectError::TypeMismatch { expected, found }) => {
            assert_eq!(expected, Expected::Symbol);
            assert_eq!(found, int);
        }
        other => panic!("unexpected {:?}", other),
    }

    assert!(int.expect_number().is_ok());
    assert!(float.expect_number().is_ok());
    assert!(symbol.expect_number().is_err());

    assert_eq!(RytmValue::Int(0).try_extract_bool().unwrap(), false);
    assert_eq!(RytmValue::Int(1).try_extract_bool().unwrap(), true);
    for other in [RytmValue::Int(2), RytmValue::Int(-1), float.duplicate(), symbol.duplicate()] {
        match other.try_extract_bool() {
            Err(RytmObjectError::TypeMismatch { expected, found }) => {
                assert_eq!(expected, Expected::ZeroOrOne);
                assert_eq!(found, other);
            }
            unexpected => panic!("unexpected {:?}", unexpected),
        }
    }
}

#[test]
fn value_constructors() {
    assert_eq!(RytmValue::symbol("unset"), RytmValue::Symbol("unset".to_string()));
    assert_eq!(RytmValue::from_number(Number::Int(4)), RytmValue::Int(4));
    assert_eq!(RytmValue::from_number(Number::Float(float_of(4.5))), RytmValue::Float(float_of(4.5)));
    let v = RytmValue::Symbol("a".to_string());
    assert_eq!(v.duplicate(), v);
}

#[test]
fn value_list_access() {
    let list: RytmValueList = vec![RytmValue::Int(1), RytmValue::Symbol("b".to_string())].into();
    assert_eq!(list.len(), 2);
    assert_eq!(list.first(), Some(&RytmValue::Int(1)));
    assert_eq!(list.get(1), Some(&RytmValue::Symbol("b".to_string())));
    assert_eq!(list.get(2), None);
    let empty: RytmValueList = Vec::new().into();
    assert_eq!(empty.len(), 0);
    assert_eq!(empty.first(), None);
}

#[test]
fn file_types_from_extensions() {
    assert_eq!(RytmProjectFileType::from_str("sysex"), Ok(RytmProjectFileType::Sysex));
    assert_eq!(RytmProjectFileType::from_str(".sysex"), Ok(RytmProjectFileType::Sysex));
    assert_eq!(RytmProjectFileType::from_str("rytm"), Ok(RytmProjectFileType::Rytm));
    assert_eq!(RytmProjectFileType::from_str(".rytm"), Ok(RytmProjectFileType::Rytm));
    assert_eq!(RytmProjectFileType::from_str("json"), Err(()));
    assert_eq!(RytmProjectFileType::from_str(""), Err(()));
    assert_eq!(expect_our_file_types(Some("rytm")), Ok(RytmProjectFileType::Rytm));
    let refused = "File Error: Invalid file type. Only .rytm or .sysex files are allowed.".to_string();
    assert_eq!(expect_our_file_types(Some("txt")), Err(refused.clone()));
    assert_eq!(expect_our_file_types(None), Err(refused));
}

#[test]
fn save_targets_and_their_indices() {
    assert_eq!(SaveTarget::from_str("pattern"), Ok(SaveTarget::Pattern));
    assert_eq!(SaveTarget::from_str("kit"), Ok(SaveTarget::Kit));
    assert_eq!(SaveTarget::from_str("sound"), Ok(SaveTarget::Sound));
    assert_eq!(SaveTarget::from_str("global"), Ok(SaveTarget::Global));
    assert_eq!(SaveTarget::from_str("settings"), Ok(SaveTarget::Settings));
    assert_eq!(SaveTarget::from_str(""), Ok(SaveTarget::NotProvided));
    assert_eq!(
        SaveTarget::from_str("song"),
        Err("Save Error: Invalid save target provided as the first argument song. Please try one of the following: pattern, kit, sound, global, settings. Or leave it empty.".to_string())
    );
    assert_eq!(SaveTarget::NotProvided.as_str(), "not provided");
    assert_eq!(validate_and_get_save_target_index(SaveTarget::Kit, 0, 0, 127), Ok(0));
    assert_eq!(validate_and_get_save_target_index(SaveTarget::Kit, 126, 0, 127), Ok(126));
    assert_eq!(
        validate_and_get_save_target_index(SaveTarget::Kit, 127, 0, 127),
        Err("Save Error: Index out of bounds. 127 not in range 0..127 for kit.".to_string())
    );
    assert_eq!(
        validate_and_get_save_target_index(SaveTarget::Global, -1, 0, 3),
        Err(format!("Save Error: Index out of bounds. {} not in range 0..3 for global.", usize::MAX))
    );
    assert_ne!(SaveTargetIndex::Index(1), SaveTargetIndex::NotNecessary);
    assert_ne!(SaveTargetIndex::Ignore, SaveTargetIndex::NotNecessary);
}

#[test]
fn widening_matches_the_machine() {
    let samples: Vec<isize> = vec![
        0,
        1,
        -1,
        2,
        3,
        -3,
        127,
        -128,
        4503599627370495,
        4503599627370496,
        4503599627370497,
        9007199254740991,
        9007199254740992,
        9007199254740993,
        9007199254740994,
        9007199254740995,
        9007199254740997,
        -9007199254740993,
        -9007199254740995,
        18014398509481985,
        18014398509481986,
        18014398509481987,
        36028797018963967,
        1152921504606846975,
        1152921504606846976,
        4611686018427387903,
        9223372036854775295,
        9223372036854775296,
        9223372036854775807,
        -9223372036854775807,
        isize::MIN,
        isize::MAX,
    ];
    for i in samples {
        assert_eq!(Float::from_int(i).to_bits(), (i as f64).to_bits(), "widening {}", i);
    }
    for i in -2000..2000 {
        assert_eq!(Float::from_int(i).to_bits(), (i as f64).to_bits());
        assert_eq!(Float::from_int(i).truncate(), i);
    }
    assert_eq!(Float::from_int(3).to_bits(), 3.0f64.to_bits());
}
