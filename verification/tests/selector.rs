use rytm_object::api::{query_selector, send_selector};
use rytm_object::error::{ParseError, QueryError, RytmObjectError, SendError};
use rytm_object::fields::object::ObjectType;
use rytm_object::parse::types::ObjectTypeSelector;
use rytm_object::value::{RytmValue, RytmValueList};

fn sym(s: &str) -> RytmValue {
    RytmValue::Symbol(s.to_string())
}

fn resolve(name: &str, index: isize) -> Result<ObjectTypeSelector, ParseError> {
    ObjectTypeSelector::resolve(&sym(name), Some(&RytmValue::Int(index)))
}

fn expect_range(name: &str, index: isize, low: isize, high: isize) {
    match resolve(name, index) {
        Err(ParseError::InvalidIndexRange { min, max, value }) => {
            assert_eq!((min, max, value), (low, high, index), "{} {}", name, index);
        }
        other => panic!("unexpected {:?} for {} {}", other, name, index),
    }
}

#[test]
fn every_index_of_a_range_is_accepted() {
    for i in 0..=127 {
        assert_eq!(resolve("pattern", i).unwrap(), ObjectTypeSelector::Pattern(i as usize));
        assert_eq!(resolve("kit", i).unwrap(), ObjectTypeSelector::Kit(i as usize));
    }
    for i in 0..=11 {
        assert_eq!(resolve("sound", i).unwrap(), ObjectTypeSelector::Sound(i as usize));
        assert_eq!(resolve("sound_wb", i).unwrap(), ObjectTypeSelector::SoundWorkBuffer(i as usize));
    }
    for i in 0..=3 {
        assert_eq!(resolve("global", i).unwrap(), ObjectTypeSelector::Global(i as usize));
    }
}

#[test]
fn the_neighbours_of_a_range_are_refused_with_the_bounds() {
    expect_range("pattern", -1, 0, 127);
    expect_range("pattern", 128, 0, 127);
    expect_range("kit", -1, 0, 127);
    expect_range("kit", 128, 0, 127);
    expect_range("sound", -1, 0, 11);
    expect_range("sound", 12, 0, 11);
    expect_range("sound_wb", -1, 0, 11);
    expect_range("sound_wb", 12, 0, 11);
    expect_range("global", -1, 0, 3);
    expect_range("global", 4, 0, 3);
    expect_range("pattern", isize::MIN, 0, 127);
    expect_range("pattern", isize::MAX, 0, 127);
}

#[test]
fn index_ranges_of_the_types() {
    assert_eq!(ObjectType::Pattern.index_range(), Some((0, 127)));
    assert_eq!(ObjectType::Kit.index_range(), Some((0, 127)));
    assert_eq!(ObjectType::Sound.index_range(), Some((0, 11)));
    assert_eq!(ObjectType::SoundWorkBuffer.index_range(), Some((0, 11)));
    assert_eq!(ObjectType::Global.index_range(), Some((0, 3)));
    assert_eq!(ObjectType::PatternWorkBuffer.index_range(), None);
    assert_eq!(ObjectType::KitWorkBuffer.index_range(), None);
    assert_eq!(ObjectType::GlobalWorkBuffer.index_range(), None);
    assert_eq!(ObjectType::Settings.index_range(), None);
}

#[test]
fn types_without_an_index_ignore_what_they_are_given() {
    assert_eq!(ObjectTypeSelector::resolve(&sym("pattern_wb"), None).unwrap(), ObjectTypeSelector::PatternWorkBuffer);
    assert_eq!(ObjectTypeSelector::resolve(&sym("kit_wb"), None).unwrap(), ObjectTypeSelector::KitWorkBuffer);
    assert_eq!(ObjectTypeSelector::resolve(&sym("global_wb"), None).unwrap(), ObjectTypeSelector::GlobalWorkBuffer);
    assert_eq!(ObjectTypeSelector::resolve(&sym("settings"), None).unwrap(), ObjectTypeSelector::Settings);
    assert_eq!(resolve("settings", 5).unwrap(), ObjectTypeSelector::Settings);
    assert_eq!(
        ObjectTypeSelector::resolve(&sym("settings"), Some(&sym("x"))).unwrap(),
        ObjectTypeSelector::Settings
    );
}

#[test]
fn selector_errors() {
    assert!(matches!(resolve("nothing", 1), Err(ParseError::InvalidSelector)));
    assert!(matches!(resolve("Pattern", 1), Err(ParseError::InvalidSelector)));
    assert!(matches!(
        ObjectTypeSelector::resolve(&RytmValue::Int(1), Some(&RytmValue::Int(1))),
        Err(ParseError::InvalidSelector)
    ));
    assert!(matches!(
        ObjectTypeSelector::resolve(&sym("pattern"), None),
        Err(ParseError::InvalidQueryFormat)
    ));
    assert!(matches!(
        ObjectTypeSelector::resolve(&sym("pattern"), Some(&sym("one"))),
        Err(ParseError::InvalidIndexType)
    ));
}

#[test]
fn indexable_selectors() {
    assert!(ObjectTypeSelector::Pattern(0).is_indexable());
    assert!(ObjectTypeSelector::Kit(0).is_indexable());
    assert!(ObjectTypeSelector::Sound(0).is_indexable());
    assert!(ObjectTypeSelector::SoundWorkBuffer(0).is_indexable());
    assert!(ObjectTypeSelector::Global(0).is_indexable());
    assert!(!ObjectTypeSelector::PatternWorkBuffer.is_indexable());
    assert!(!ObjectTypeSelector::KitWorkBuffer.is_indexable());
    assert!(!ObjectTypeSelector::GlobalWorkBuffer.is_indexable());
    assert!(!ObjectTypeSelector::Settings.is_indexable());

    for name in ["pattern", "kit", "sound", "sound_wb", "global"] {
        assert!(ObjectTypeSelector::is_object_type_indexable(&sym(name)), "{}", name);
    }
    for name in ["pattern_wb", "kit_wb", "global_wb", "settings", "track", ""] {
        assert!(!ObjectTypeSelector::is_object_type_indexable(&sym(name)), "{}", name);
    }
    assert!(!ObjectTypeSelector::is_object_type_indexable(&RytmValue::Int(1)));
}

#[test]
fn make_builds_the_selector_of_a_type() {
    assert_eq!(ObjectTypeSelector::make(ObjectType::Kit, 9), ObjectTypeSelector::Kit(9));
    assert_eq!(ObjectTypeSelector::make(ObjectType::Settings, 9), ObjectTypeSelector::Settings);
}

#[test]
fn query_and_send_select_an_object() {
    let q: RytmValueList = vec![sym("pattern"), RytmValue::Int(3)].into();
    assert_eq!(query_selector(&q).unwrap(), ObjectTypeSelector::Pattern(3));
    assert_eq!(send_selector(&q).unwrap(), ObjectTypeSelector::Pattern(3));

    let wb: RytmValueList = vec![sym("kit_wb")].into();
    assert_eq!(query_selector(&wb).unwrap(), ObjectTypeSelector::KitWorkBuffer);
    assert_eq!(send_selector(&wb).unwrap(), ObjectTypeSelector::KitWorkBuffer);

    let empty: RytmValueList = Vec::new().into();
    assert!(matches!(query_selector(&empty), Err(RytmObjectError::Query(QueryError::InvalidFormat))));
    assert!(matches!(send_selector(&empty), Err(RytmObjectError::Send(SendError::InvalidFormat))));

    let missing: RytmValueList = vec![sym("pattern")].into();
    assert!(matches!(
        query_selector(&missing),
        Err(RytmObjectError::Parse(ParseError::InvalidQueryFormat))
    ));
    let wrong: RytmValueList = vec![sym("pattern"), sym("x")].into();
    assert!(matches!(send_selector(&wrong), Err(RytmObjectError::Parse(ParseError::InvalidIndexType))));
    let far: RytmValueList = vec![sym("global"), RytmValue::Int(4)].into();
    assert!(matches!(
        query_selector(&far),
        Err(RytmObjectError::Parse(ParseError::InvalidIndexRange { min: 0, max: 3, value: 4 }))
    ));
}
