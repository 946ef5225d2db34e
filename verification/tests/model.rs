use chrono::{DateTime, Datelike, NaiveDate, Timelike, Utc};
use serde_json::Value;
use wire_expr::{Date, Expr, Json, MatchSet, Object, Ref, Timestamp};

fn json_from_value(value: Value) -> Json {
    match value {
        Value::Null => Json::Null,
        Value::Bool(b) => Json::Bool(b),
        Value::Number(n) => {
            if n.is_u64() {
                Json::UInt(n.as_u64().unwrap())
            } else if n.is_i64() {
                Json::Int(n.as_i64().unwrap())
            } else {
                Json::Double(n.as_f64().unwrap().to_bits())
            }
        }
        Value::String(s) => Json::String(s),
        Value::Array(items) => Json::Array(items.into_iter().map(json_from_value).collect()),
        Value::Object(entries) => Json::Object(
            entries
                .into_iter()
                .map(|(key, value)| (key, json_from_value(value)))
                .collect(),
        ),
    }
}

fn read(text: &str) -> Expr {
    let json = json_from_value(serde_json::from_str(text).unwrap());
    assert!(json.is_scalar());
    Expr::from_json(json)
}

#[test]
fn ref_paths_join_names_from_the_root() {
    assert_eq!("solo", Ref::root("solo").path());
    assert_eq!("classes/cats", Ref::class("cats").path());
    assert_eq!("indexes/cats_age", Ref::index("cats_age").path());
    assert_eq!("databases/prod", Ref::database("prod").path());
    assert_eq!("functions/double", Ref::function("double").path());
    assert_eq!(
        "classes/test/foo",
        Ref::new("foo", Ref::class("test")).path()
    );
    assert_eq!(
        "a/b/c/d",
        Ref::new("d", Ref::new("c", Ref::new("b", Ref::root("a")))).path()
    );
}

#[test]
fn ref_keeps_name_and_parent() {
    let reference = Ref::new("foo", Ref::class("test"));

    assert_eq!("foo", reference.name);
    let parent = reference.parent.as_ref().unwrap();
    assert_eq!("test", parent.name);
    assert_eq!("classes", parent.parent.as_ref().unwrap().name);
    assert!(parent.parent.as_ref().unwrap().parent.is_none());
    assert_eq!(reference.path(), reference.clone().path());
}

#[test]
fn ref_encodes_under_its_tag() {
    match Ref::index("cats_age").encode() {
        Json::Object(entries) => {
            assert_eq!(1, entries.len());
            assert_eq!("@ref", entries[0].0);
            assert!(matches!(&entries[0].1, Json::String(path) if path == "indexes/cats_age"));
        }
        other => panic!("not an object: {:?}", other),
    }
}

#[test]
fn dates_of_the_calendar_are_accepted() {
    assert!(Date::from_ymd(2001, 5, 31).is_some());
    assert!(Date::from_ymd(2000, 2, 29).is_some());
    assert!(Date::from_ymd(2004, 2, 29).is_some());
    assert!(Date::from_ymd(0, 2, 29).is_some());
    assert!(Date::from_ymd(-4, 2, 29).is_some());
    assert!(Date::from_ymd(262142, 12, 31).is_some());
    assert!(Date::from_ymd(-262143, 1, 1).is_some());
}

#[test]
fn days_that_do_not_exist_are_refused() {
    assert!(Date::from_ymd(2001, 2, 29).is_none());
    assert!(Date::from_ymd(1900, 2, 29).is_none());
    assert!(Date::from_ymd(2100, 2, 29).is_none());
    assert!(Date::from_ymd(2023, 4, 31).is_none());
    assert!(Date::from_ymd(2023, 0, 1).is_none());
    assert!(Date::from_ymd(2023, 13, 1).is_none());
    assert!(Date::from_ymd(2023, 1, 0).is_none());
    assert!(Date::from_ymd(2023, 1, 32).is_none());
    assert!(Date::from_ymd(262143, 1, 1).is_none());
    assert!(Date::from_ymd(-262144, 12, 31).is_none());
    assert!(Date::from_ymd(i32::MAX, 1, 1).is_none());
    assert!(Date::from_ymd(i32::MIN, 1, 1).is_none());
}

#[test]
fn date_validity_agrees_with_chrono() {
    let mut years: Vec<i32> = vec![
        -262145, -262144, -262143, -262142, 262141, 262142, 262143, 262144,
    ];
    years.extend(-405..=405);
    years.extend(1895..=2105);
    for year in years {
        for month in 0..=13u32 {
            for day in 0..=32u32 {
                assert_eq!(
                    NaiveDate::from_ymd_opt(year, month, day).is_some(),
                    Date::from_ymd(year, month, day).is_some(),
                    "{} {} {}",
                    year,
                    month,
                    day
                );
            }
        }
    }
}

#[test]
fn date_holds_its_parts() {
    let date = Date::from_ymd(2001, 5, 31).unwrap();

    assert_eq!(2001, date.year());
    assert_eq!(5, date.month());
    assert_eq!(31, date.day());
}

#[test]
fn date_text_has_four_year_digits() {
    assert_eq!("2001-05-31", Date::from_ymd(2001, 5, 31).unwrap().text());
    assert_eq!("0000-01-01", Date::from_ymd(0, 1, 1).unwrap().text());
    assert_eq!("0007-10-09", Date::from_ymd(7, 10, 9).unwrap().text());
    assert_eq!("0999-12-31", Date::from_ymd(999, 12, 31).unwrap().text());
    assert_eq!("9999-12-31", Date::from_ymd(9999, 12, 31).unwrap().text());
}

#[test]
fn date_text_outside_four_digits_has_a_sign() {
    assert_eq!("+10000-01-01", Date::from_ymd(10000, 1, 1).unwrap().text());
    assert_eq!("+262142-12-31", Date::from_ymd(262142, 12, 31).unwrap().text());
    assert_eq!("-0001-12-31", Date::from_ymd(-1, 12, 31).unwrap().text());
    assert_eq!("-0044-03-15", Date::from_ymd(-44, 3, 15).unwrap().text());
    assert_eq!("-9999-01-01", Date::from_ymd(-9999, 1, 1).unwrap().text());
    assert_eq!("-10000-01-01", Date::from_ymd(-10000, 1, 1).unwrap().text());
    assert_eq!("-262143-01-01", Date::from_ymd(-262143, 1, 1).unwrap().text());
}

#[test]
fn times_of_day_are_accepted() {
    let date = Date::from_ymd(2019, 5, 26).unwrap();

    assert!(Timestamp::new(date, 0, 0, 0, 0).is_some());
    assert!(Timestamp::new(date, 23, 59, 59, 999_999_999).is_some());
    assert!(Timestamp::new(date, 23, 59, 59, 1_999_999_999).is_some());
    assert!(Timestamp::new(date, 12, 30, 59, 1_000_000_000).is_some());
}

#[test]
fn times_that_do_not_exist_are_refused() {
    let date = Date::from_ymd(2019, 5, 26).unwrap();

    assert!(Timestamp::new(date, 24, 0, 0, 0).is_none());
    assert!(Timestamp::new(date, 0, 60, 0, 0).is_none());
    assert!(Timestamp::new(date, 0, 0, 60, 0).is_none());
    assert!(Timestamp::new(date, 0, 0, 0, 2_000_000_000).is_none());
    assert!(Timestamp::new(date, 0, 0, 58, 1_000_000_000).is_none());
    assert!(Timestamp::new(date, u32::MAX, u32::MAX, u32::MAX, u32::MAX).is_none());
}

#[test]
fn timestamp_holds_its_parts() {
    let date = Date::from_ymd(2019, 5, 26).unwrap();
    let instant = Timestamp::new(date, 16, 20, 7, 123).unwrap();

    assert_eq!(2019, instant.date().year());
    assert_eq!(5, instant.date().month());
    assert_eq!(26, instant.date().day());
    assert_eq!(16, instant.hour());
    assert_eq!(20, instant.minute());
    assert_eq!(7, instant.second());
    assert_eq!(123, instant.nanosecond());
}

#[test]
fn timestamp_text_is_rfc3339() {
    let date = Date::from_ymd(2019, 5, 26).unwrap();

    assert_eq!(
        "2019-05-26T16:20:00+00:00",
        Timestamp::new(date, 16, 20, 0, 0).unwrap().text()
    );
    assert_eq!(
        "2019-05-26T00:00:00+00:00",
        Timestamp::new(date, 0, 0, 0, 0).unwrap().text()
    );
    assert_eq!(
        "2019-05-26T23:59:59+00:00",
        Timestamp::new(date, 23, 59, 59, 0).unwrap().text()
    );
}

#[test]
fn timestamp_fraction_has_three_six_or_nine_digits() {
    let date = Date::from_ymd(2019, 5, 26).unwrap();

    assert_eq!(
        "2019-05-26T16:20:00.500+00:00",
        Timestamp::new(date, 16, 20, 0, 500_000_000).unwrap().text()
    );
    assert_eq!(
        "2019-05-26T16:20:00.001+00:00",
        Timestamp::new(date, 16, 20, 0, 1_000_000).unwrap().text()
    );
    assert_eq!(
        "2019-05-26T16:20:00.123456+00:00",
        Timestamp::new(date, 16, 20, 0, 123_456_000).unwrap().text()
    );
    assert_eq!(
        "2019-05-26T16:20:00.000001+00:00",
        Timestamp::new(date, 16, 20, 0, 1_000).unwrap().text()
    );
    assert_eq!(
        "2019-05-26T16:20:00.123456789+00:00",
        Timestamp::new(date, 16, 20, 0, 123_456_789).unwrap().text()
    );
    assert_eq!(
        "2019-05-26T16:20:00.000000001+00:00",
        Timestamp::new(date, 16, 20, 0, 1).unwrap().text()
    );
}

#[test]
fn leap_second_is_written_as_second_sixty() {
    let date = Date::from_ymd(2016, 12, 31).unwrap();

    assert_eq!(
        "2016-12-31T23:59:60+00:00",
        Timestamp::new(date, 23, 59, 59, 1_000_000_000).unwrap().text()
    );
    assert_eq!(
        "2016-12-31T23:59:60.500+00:00",
        Timestamp::new(date, 23, 59, 59, 1_500_000_000).unwrap().text()
    );
}

#[test]
fn timestamp_text_outside_four_year_digits() {
    let late = Date::from_ymd(262142, 12, 31).unwrap();
    let early = Date::from_ymd(-262143, 1, 1).unwrap();

    assert_eq!(
        "+262142-12-31T23:59:59.999999999+00:00",
        Timestamp::new(late, 23, 59, 59, 999_999_999).unwrap().text()
    );
    assert_eq!(
        "-262143-01-01T00:00:00+00:00",
        Timestamp::new(early, 0, 0, 0, 0).unwrap().text()
    );
}

#[test]
fn timestamp_text_reads_back_as_the_same_instant() {
    let texts = [
        "2019-05-26T16:20:00Z",
        "1969-12-31T23:59:59.999Z",
        "2000-02-29T12:00:00.000001Z",
        "0001-01-01T00:00:00Z",
    ];
    for text in texts {
        let dt: DateTime<Utc> = DateTime::parse_from_rfc3339(text).unwrap().with_timezone(&Utc);
        let date = Date::from_ymd(dt.year(), dt.month(), dt.day()).unwrap();
        let instant =
            Timestamp::new(date, dt.hour(), dt.minute(), dt.second(), dt.nanosecond()).unwrap();
        let back: DateTime<Utc> = DateTime::parse_from_rfc3339(&instant.text())
            .unwrap()
            .with_timezone(&Utc);
        assert_eq!(dt, back);
    }
}

#[test]
fn scalar_json_becomes_the_matching_value() {
    assert!(matches!(Expr::from_json(Json::Null), Expr::Null));
    assert!(matches!(Expr::from_json(Json::Bool(true)), Expr::Boolean(true)));
    assert!(matches!(Expr::from_json(Json::Int(-3)), Expr::Int(-3)));
    assert!(matches!(
        Expr::from_json(Json::Double(4.5f64.to_bits())),
        Expr::Double(bits) if f64::from_bits(bits) == 4.5
    ));
    assert!(matches!(
        Expr::from_json(Json::Float(4.5f32.to_bits())),
        Expr::Float(bits) if f32::from_bits(bits) == 4.5
    ));
    assert!(matches!(
        Expr::from_json(Json::String("cat".to_string())),
        Expr::String(s) if s == "cat"
    ));
}

#[test]
fn json_numbers_are_signed_where_they_fit() {
    assert!(matches!(Expr::from_json(Json::UInt(4)), Expr::Int(4)));
    assert!(matches!(Expr::from_json(Json::UInt(0)), Expr::Int(0)));
    assert!(matches!(
        Expr::from_json(Json::UInt(i64::MAX as u64)),
        Expr::Int(i64::MAX)
    ));
    assert!(matches!(
        Expr::from_json(Json::UInt(i64::MAX as u64 + 1)),
        Expr::UInt(9223372036854775808)
    ));
    assert!(matches!(
        Expr::from_json(Json::UInt(u64::MAX)),
        Expr::UInt(u64::MAX)
    ));
    assert!(matches!(
        Expr::from_json(Json::Int(i64::MIN)),
        Expr::Int(i64::MIN)
    ));
}

#[test]
fn parsed_json_scalars_convert() {
    assert!(matches!(read("null"), Expr::Null));
    assert!(matches!(read("false"), Expr::Boolean(false)));
    assert!(matches!(read("4"), Expr::Int(4)));
    assert!(matches!(read("-4"), Expr::Int(-4)));
    assert!(matches!(read("9223372036854775807"), Expr::Int(i64::MAX)));
    assert!(matches!(read("18446744073709551615"), Expr::UInt(u64::MAX)));
    assert!(matches!(read("4.5"), Expr::Double(bits) if f64::from_bits(bits) == 4.5));
    assert!(matches!(read("\"cat\""), Expr::String(s) if s == "cat"));
}

#[test]
fn only_arrays_and_objects_are_not_scalar() {
    assert!(Json::Null.is_scalar());
    assert!(Json::Bool(false).is_scalar());
    assert!(Json::Int(1).is_scalar());
    assert!(Json::UInt(1).is_scalar());
    assert!(Json::Double(0).is_scalar());
    assert!(Json::Float(0).is_scalar());
    assert!(Json::String(String::new()).is_scalar());
    assert!(!Json::Array(Vec::new()).is_scalar());
    assert!(!Json::Object(Vec::new()).is_scalar());
    assert!(!json_from_value(serde_json::from_str("[1,2]").unwrap()).is_scalar());
    assert!(!json_from_value(serde_json::from_str("{\"a\":1}").unwrap()).is_scalar());
}

#[test]
fn tagged_is_an_object_with_one_entry() {
    match Json::tagged("@ts", Json::Int(1)) {
        Json::Object(entries) => {
            assert_eq!(1, entries.len());
            assert_eq!("@ts", entries[0].0);
            assert!(matches!(entries[0].1, Json::Int(1)));
        }
        other => panic!("not an object: {:?}", other),
    }
}

#[test]
fn object_counts_keys_once() {
    let mut object = Object::new();
    assert_eq!(0, object.len());
    object.insert("foo", "bar");
    assert_eq!(1, object.len());
    object.insert("lol", false);
    assert_eq!(2, object.len());
    object.insert("foo", "baz");
    assert_eq!(2, object.len());
    object.insert_expr("lol", Expr::Null);
    assert_eq!(2, object.len());
    object.insert_expr("new", Expr::Null);
    assert_eq!(3, object.len());
}

#[test]
fn object_encodes_entries_in_insertion_order() {
    let mut object = Object::new();
    object.insert("zeta", 1u8);
    object.insert("alpha", -2);
    object.insert("zeta", true);

    match object.encode() {
        Json::Object(entries) => {
            assert_eq!(2, entries.len());
            assert_eq!("zeta", entries[0].0);
            assert!(matches!(entries[0].1, Json::Bool(true)));
            assert_eq!("alpha", entries[1].0);
            assert!(matches!(entries[1].1, Json::Int(-2)));
        }
        other => panic!("not an object: {:?}", other),
    }
}

#[test]
fn conversions_pick_the_variant() {
    assert!(matches!(Expr::from(-4i8), Expr::Int(-4)));
    assert!(matches!(Expr::from(-4i16), Expr::Int(-4)));
    assert!(matches!(Expr::from(-4i32), Expr::Int(-4)));
    assert!(matches!(Expr::from(-4i64), Expr::Int(-4)));
    assert!(matches!(Expr::from(-4isize), Expr::Int(-4)));
    assert!(matches!(Expr::from(4u8), Expr::UInt(4)));
    assert!(matches!(Expr::from(4u16), Expr::UInt(4)));
    assert!(matches!(Expr::from(4u32), Expr::UInt(4)));
    assert!(matches!(Expr::from(4u64), Expr::UInt(4)));
    assert!(matches!(Expr::from(4usize), Expr::UInt(4)));
    assert!(matches!(Expr::from(false), Expr::Boolean(false)));
    assert!(matches!(Expr::from("cat"), Expr::String(s) if s == "cat"));
    assert!(matches!(Expr::from(String::from("cat")), Expr::String(s) if s == "cat"));
    assert!(matches!(Expr::from(vec![1u8, 2]), Expr::Bytes(b) if b == [1, 2]));
    assert!(matches!(Expr::from(&[1u8, 2][..]), Expr::Bytes(b) if b == [1, 2]));
    assert!(matches!(Expr::from(vec![Expr::Null]), Expr::Array(items) if items.len() == 1));
    assert!(matches!(Expr::from(Object::new()), Expr::Object(o) if o.len() == 0));
    assert!(matches!(Expr::from(Ref::class("cats")), Expr::Ref(r) if r.path() == "classes/cats"));
    assert!(matches!(
        Expr::from(Date::from_ymd(2001, 5, 31).unwrap()),
        Expr::Date(d) if d.day() == 31
    ));
    assert!(matches!(
        Expr::from(Timestamp::new(Date::from_ymd(2001, 5, 31).unwrap(), 1, 2, 3, 4).unwrap()),
        Expr::Timestamp(t) if t.minute() == 2
    ));
    assert!(matches!(
        Expr::from(MatchSet::new(Ref::index("i"), Expr::Null)),
        Expr::MatchSet(set) if set.target.path() == "indexes/i"
    ));
}

#[test]
fn set_holds_target_and_terms() {
    let set = MatchSet::matching(Ref::index("cats_age"), 8);

    assert_eq!("indexes/cats_age", set.target.path());
    assert!(matches!(set.terms, Expr::Int(8)));
    let copy = set.clone();
    assert_eq!("indexes/cats_age", copy.target.path());
    assert!(matches!(copy.terms, Expr::Int(8)));
}

#[test]
fn ordinary_values_are_encodable() {
    let mut object = Object::new();
    object.insert("blob", vec![0u8; 1000]);
    let expr = Expr::from(vec![
        Expr::from(object),
        Expr::from(MatchSet::matching(Ref::index("i"), vec![5u8, 6])),
        Expr::Null,
    ]);

    assert!(expr.is_encodable());
    assert!(expr.try_encode().is_some());
}
