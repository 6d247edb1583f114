use rdf_trig::errors::RdfTrigError;
use rdf_trig::nodes::NamedNode;
use rdf_trig::nodes::{Node, NodeStore};
use rdf_trig::nodes::{
    BlankNode, BooleanLiteral, DateTimeLiteral, GYearLiteral, LiteralNode, StringLiteral,
};
use rdf_trig::traits::{WriteNQuads, WriteTriG};

fn nquads<T: WriteNQuads>(value: &T) -> String {
    let mut buf = vec![];
    value.write_nquads(&mut buf);
    String::from_utf8(buf).unwrap()
}

fn trig<T: WriteTriG>(value: &T) -> String {
    let mut buf = vec![];
    value.write_trig(&mut buf);
    String::from_utf8(buf).unwrap()
}

#[test]
fn test_bool_true_str() {
    let bool_literal = BooleanLiteral::try_from_str("true");
    assert!(bool_literal.is_ok());
    assert!(bool_literal.unwrap().0);
}

#[test]
fn test_bool_false_str_int() {
    let bool_literal = BooleanLiteral::try_from_str("0");
    assert!(bool_literal.is_ok());
    assert!(!bool_literal.unwrap().0);
}

#[test]
fn test_bool_invalid_str() {
    let bool_literal = BooleanLiteral::try_from_str("False");
    assert!(bool_literal.is_err());
}

#[test]
fn test_bool_false_u8() {
    let bool_literal = BooleanLiteral::try_from(0u8);
    assert!(bool_literal.is_ok());
    assert!(!bool_literal.unwrap().0);
}

#[test]
fn test_bool_invalid_u8() {
    let bool_literal = BooleanLiteral::try_from(69u8);
    assert!(bool_literal.is_err());
}

#[test]
fn test_bool_write_nquads() {
    let bool_literal = BooleanLiteral::from(true);

    let mut buf = vec![];
    bool_literal.write_nquads(&mut buf);

    assert_eq!(
        String::from_utf8(buf).unwrap(),
        String::from("\"true\"^^<http://www.w3.org/2001/XMLSchema#boolean>")
    );
}

#[test]
fn test_datetime_str_utc_valid() {
    assert!(DateTimeLiteral::try_from_str("1969-01-01T12:12:12Z").is_ok());
}

#[test]
fn test_datetime_str_with_tz_valid() {
    assert!(DateTimeLiteral::try_from_str("2026-03-02T09:00:00.000+01:00").is_ok());
}

#[test]
fn test_datetime_str_invalid() {
    assert!(DateTimeLiteral::try_from_str("Not a datetime").is_err());
}

#[test]
fn test_datetime_str_write_nquads() {
    let dt_str = "2020-01-01T12:00:00.000-11:00";
    let dt_literal = DateTimeLiteral::try_from_str(dt_str).unwrap();

    let mut buf = vec![];
    dt_literal.write_nquads(&mut buf);

    assert_eq!(
        String::from_utf8(buf).unwrap(),
        format!("\"{}\"^^<http://www.w3.org/2001/XMLSchema#dateTime>", dt_str)
    );
}

#[test]
fn test_gyear_from_str_valid() {
    assert!(GYearLiteral::try_from_str("1969").is_ok());
}

#[test]
fn test_gyear_from_str_invalid() {
    assert!(GYearLiteral::try_from_str("Nineteen Sixty Nine").is_err());
}

#[test]
fn test_gyear_from_native_write_nquads() {
    let year = -420;
    let gyear_literal = GYearLiteral::from(year);

    let mut buf = vec![];
    gyear_literal.write_nquads(&mut buf);

    assert_eq!(
        String::from_utf8(buf).unwrap(),
        format!("\"{}\"^^<http://www.w3.org/2001/XMLSchema#gYear>", year)
    );
}

#[test]
fn test_lang_string_valid_lang() {
    assert!(StringLiteral::new("My String", Some("fra")).is_ok());
}

#[test]
fn test_lang_string_invalid_lang() {
    assert!(StringLiteral::new("My String", Some("francais")).is_err());
}

#[test]
fn test_lang_string_valid_lang_write_nquads() {
    let value = "My String";
    let langstring_literal = StringLiteral::new(value, Some("gr")).unwrap();

    let mut buf = vec![];
    langstring_literal.write_nquads(&mut buf);
    assert_eq!(String::from_utf8(buf).unwrap(), format!("\"{}\"@gr", value));
}

#[test]
fn test_lang_string_en_write_nquads() {
    let value = "My String";
    let lang_string_literal = StringLiteral::new_en(value);

    let mut buf = vec![];
    lang_string_literal.write_nquads(&mut buf);

    assert_eq!(String::from_utf8(buf).unwrap(), format!("\"{}\"@en", value));
}

#[test]
fn test_string_write_nquads() {
    let value = "I like turtles";
    let string_literal = LiteralNode::new(&*value);

    let mut buf = vec![];
    string_literal.write_nquads(&mut buf);

    assert_eq!(String::from_utf8(buf).unwrap(), format!("\"{}\"", value));
}

#[test]
fn test_string_write_nquads_escaped() {
    let string_literal = LiteralNode::new("I\rlike\tescaped\nturtles");

    let mut buf = vec![];
    string_literal.write_nquads(&mut buf);

    assert_eq!(
        String::from_utf8(buf).unwrap(),
        format!("\"{}\"", r"I\rlike\tescaped\nturtles")
    );
}

#[test]
fn test_blank_node_write_trig() {
    let blank = BlankNode::new("myprefix");

    let mut buf = vec![];
    blank.write_trig(&mut buf);

    assert_eq!(String::from_utf8(buf).unwrap(), String::from("_:myprefix"))
}

#[test]
fn test_blank_node_write_trig_w_escape_char() {
    let blank = BlankNode::new("my_prefix");

    let mut buf = vec![];
    blank.write_trig(&mut buf);

    assert_eq!(String::from_utf8(buf).unwrap(), String::from("_:my\\_prefix"))
}

#[test]
fn boolean_accepts_every_documented_spelling() {
    assert_eq!(BooleanLiteral::try_from_str("1").unwrap(), BooleanLiteral(true));
    assert_eq!(BooleanLiteral::try_from_str("true").unwrap(), BooleanLiteral(true));
    assert_eq!(BooleanLiteral::try_from_str("0").unwrap(), BooleanLiteral(false));
    assert_eq!(BooleanLiteral::try_from_str("false").unwrap(), BooleanLiteral(false));
    assert_eq!(BooleanLiteral::try_from(1u8).unwrap(), BooleanLiteral(true));
}

#[test]
fn boolean_errors_carry_the_refused_text() {
    let err = BooleanLiteral::try_from_str("yes").unwrap_err();
    assert_eq!(err.message(), "yes is an invalid boolean");
    let err = BooleanLiteral::try_from(69u8).unwrap_err();
    assert_eq!(err.message(), "69 is an invalid boolean");
    let err = BooleanLiteral::try_from(255u8).unwrap_err();
    assert_eq!(err.message(), "255 is an invalid boolean");
}

#[test]
fn boolean_writes_canonical_text() {
    let one = BooleanLiteral::try_from_str("1").unwrap();
    assert_eq!(trig(&one), "true");
    assert_eq!(trig(&BooleanLiteral(false)), "false");
    assert_eq!(
        nquads(&BooleanLiteral(false)),
        "\"false\"^^<http://www.w3.org/2001/XMLSchema#boolean>"
    );
}

#[test]
fn datetime_without_offset_is_accepted() {
    assert!(DateTimeLiteral::try_from_str("2026-03-02T09:00:00").is_ok());
    assert!(DateTimeLiteral::try_from_str("2026-03-02T09:00:00.5").is_ok());
    assert!(DateTimeLiteral::try_from_str("2026-03-02T09:00:00Z").is_ok());
    assert!(DateTimeLiteral::try_from_str("2026-13-02T09:00:00Z").is_err());
    let err = DateTimeLiteral::try_from_str("Random string").unwrap_err();
    assert_eq!(err.message(), "Random string is an invalid dateTime");
}

#[test]
fn datetime_writes_trig_with_prefix() {
    let dt = DateTimeLiteral::try_from_str("1969-12-13T12:59:30Z").unwrap();
    assert_eq!(trig(&dt), "\"1969-12-13T12:59:30Z\"^^xsd:dateTime");
    assert_eq!(dt.value(), "1969-12-13T12:59:30Z");
}

#[test]
fn gyear_parses_like_i32() {
    assert_eq!(GYearLiteral::try_from_str("1999").unwrap().year(), 1999);
    assert_eq!(GYearLiteral::try_from_str("-0099").unwrap().year(), -99);
    assert_eq!(GYearLiteral::try_from_str("+24").unwrap().year(), 24);
    assert_eq!(GYearLiteral::try_from_str("2147483647").unwrap().year(), i32::MAX);
    assert_eq!(GYearLiteral::try_from_str("-2147483648").unwrap().year(), i32::MIN);
    assert!(GYearLiteral::try_from_str("2147483648").is_err());
    assert!(GYearLiteral::try_from_str("-2147483649").is_err());
    assert!(GYearLiteral::try_from_str("").is_err());
    assert!(GYearLiteral::try_from_str("-").is_err());
    assert!(GYearLiteral::try_from_str("+").is_err());
    assert!(GYearLiteral::try_from_str("-0069Z").is_err());
    assert!(GYearLiteral::try_from_str("19 69").is_err());
    let err = GYearLiteral::try_from_str("MCMLXIX").unwrap_err();
    assert_eq!(err.message(), "MCMLXIX is an invalid gYear");
}

#[test]
fn gyear_written_text_reads_back() {
    for year in [0, 7, -7, 69, -420, 1969, i32::MAX, i32::MIN] {
        let g = GYearLiteral::from(year);
        let text = year.to_string();
        assert_eq!(
            nquads(&g),
            format!("\"{}\"^^<http://www.w3.org/2001/XMLSchema#gYear>", text)
        );
        assert_eq!(trig(&g), format!("\"{}\"^^xsd:gYear", text));
        assert_eq!(GYearLiteral::try_from_str(&text).unwrap(), g);
    }
}

#[test]
fn language_tags_are_checked() {
    assert!(StringLiteral::new("x", Some("fr")).is_ok());
    assert!(StringLiteral::new("x", Some("é")).is_err());
    assert!(StringLiteral::new("x", Some("f")).is_err());
    assert!(StringLiteral::new("x", Some("f1")).is_err());
    assert!(StringLiteral::new("x", Some("")).is_err());
    let err = StringLiteral::new("x", Some("francais")).unwrap_err();
    assert_eq!(err.message(), "francais is an invalid language code");
    let s = StringLiteral::new("value", None).unwrap();
    assert_eq!(s.value(), "value");
    assert_eq!(s.language(), None);
    let s = StringLiteral::new("value", Some("eng")).unwrap();
    assert_eq!(s.language(), Some("eng"));
    assert_eq!(trig(&s), "\"value\"@eng");
}

#[test]
fn string_literals_escape_quotes_and_backslashes() {
    let s = StringLiteral::new_en("My resource's \"label\" \\");
    assert_eq!(
        trig(&s),
        "\"My resource\\'s \\\"label\\\" \\\\\"@en"
    );
    let s = StringLiteral::new_no_lang("L'étiquette");
    assert_eq!(nquads(&s), "\"L\\'étiquette\"");
}

#[test]
fn literal_nodes_write_their_inner_literal() {
    let b: LiteralNode = BooleanLiteral(true).into();
    assert_eq!(trig(&b), "true");
    let g: LiteralNode = GYearLiteral::from(2024).into();
    assert_eq!(trig(&g), "\"2024\"^^xsd:gYear");
    let s: LiteralNode = "plain".into();
    assert_eq!(nquads(&s), "\"plain\"");
}

#[test]
fn blank_node_escapes_local_name_characters() {
    let b = BlankNode::new("unknown~node");
    assert_eq!(nquads(&b), "_:unknown\\~node");
    assert_eq!(b.label(), "unknown~node");
}

#[test]
fn blank_node_line_breaks_are_dropped() {
    let blank = BlankNode::new("line\nbreak\r\nhere");
    assert_eq!(trig(&blank), "_:linebreakhere");
    assert_eq!(nquads(&blank), "_:linebreakhere");
}

#[test]
fn language_tags_are_two_or_three_ascii_letters() {
    assert!(StringLiteral::new("x", Some("de")).is_ok());
    assert!(StringLiteral::new("x", Some("DEU")).is_ok());
    assert!(StringLiteral::new("x", Some("d")).is_err());
    assert!(StringLiteral::new("x", Some("d1")).is_err());
    assert!(StringLiteral::new("x", Some("é")).is_err());
    assert!(StringLiteral::new("x", Some("日本")).is_err());
    assert!(StringLiteral::new("x", None).is_ok());
    match StringLiteral::new("x", Some("deutsch")) {
        Err(RdfTrigError::InvalidLanguage(l)) => assert_eq!(l, "deutsch"),
        _ => panic!("expected an invalid language"),
    }
}

#[test]
fn boolean_text_reads_back() {
    for b in [true, false] {
        let text = nquads(&BooleanLiteral(b));
        let lexical = text.split('"').nth(1).unwrap().to_string();
        assert_eq!(BooleanLiteral::try_from_str(&lexical).unwrap(), BooleanLiteral(b));
    }
    assert_eq!(trig(&BooleanLiteral(true)), "true");
}

#[test]
fn gyear_text_reads_back() {
    for year in [0, 7, -44, 1969, 2024, i32::MAX, i32::MIN] {
        let text = nquads(&GYearLiteral::from(year));
        let lexical = text.split('"').nth(1).unwrap().to_string();
        assert_eq!(GYearLiteral::try_from_str(&lexical).unwrap().year(), year);
    }
    assert_eq!(nquads(&GYearLiteral::from(-44)), "\"-44\"^^<http://www.w3.org/2001/XMLSchema#gYear>");
    assert_eq!(trig(&GYearLiteral::from(123)), "\"123\"^^xsd:gYear");
    assert!(GYearLiteral::try_from_str("2147483648").is_err());
    assert!(GYearLiteral::try_from_str("+12").is_ok());
    assert!(GYearLiteral::try_from_str("-").is_err());
}

#[test]
fn named_node_validation_and_output() {
    let node = NamedNode::new("https://例え.jp/パス?q=1#frag").unwrap();
    assert_eq!(node.iri(), "https://例え.jp/パス?q=1#frag");
    assert_eq!(nquads(&node), "<https://例え.jp/パス?q=1#frag>");
    assert_eq!(trig(&node), "<https://例え.jp/パス?q=1#frag>");
    assert_eq!(
        NamedNode::new("not an iri").unwrap_err(),
        RdfTrigError::InvalidIri("not an iri".to_string())
    );
    assert!(NamedNode::new("relative/path").is_err());
    assert!(NamedNode::new("urn:uuid:29d82556-7fac-4ab8-b1a1-a652d4b1ee36").is_ok());
}

fn time_date(year: i32, month: time::Month, day: u8) -> time::Date {
    time::Date::from_calendar_date(year, month, day).unwrap()
}

#[test]
fn test_datetime_chrono_naive() {
    let naive =
        chrono::NaiveDateTime::parse_from_str("2026-03-02T09:00:00.00000", "%Y-%m-%dT%H:%M:%S%.f")
            .unwrap();

    assert!(DateTimeLiteral::try_from(naive).is_ok());
    let literal = DateTimeLiteral::from(naive);
    assert_eq!(literal.value(), "2026-03-02T09:00:00");
    assert!(DateTimeLiteral::try_from_str(literal.value()).is_ok());
}

#[test]
fn test_datetime_time_valid_offset() {
    let offset = time::PrimitiveDateTime::new(
        time_date(2026, time::Month::March, 2),
        time::Time::from_hms_milli(9, 0, 0, 0).unwrap(),
    )
    .assume_offset(time::UtcOffset::from_hms(1, 0, 0).unwrap());
    assert!(DateTimeLiteral::try_from(offset).is_ok());
}

#[test]
fn test_datetime_time_offset_write_nquads() {
    let offset = time::PrimitiveDateTime::new(
        time_date(2020, time::Month::March, 1),
        time::Time::from_hms_milli(9, 30, 25, 0).unwrap(),
    )
    .assume_offset(time::UtcOffset::from_hms(-3, 0, 0).unwrap());
    let dt_literal = DateTimeLiteral::try_from(offset).unwrap();

    assert_eq!(
        nquads(&dt_literal),
        String::from("\"2020-03-01T09:30:25-03:00\"^^<http://www.w3.org/2001/XMLSchema#dateTime>")
    )
}

#[test]
fn test_datetime_time_valid_primitive() {
    let primitive = time::PrimitiveDateTime::new(
        time_date(2026, time::Month::January, 1),
        time::Time::from_hms_milli(9, 0, 0, 0).unwrap(),
    );
    assert!(DateTimeLiteral::try_from(primitive).is_ok());
}

#[test]
fn test_datetime_time_primitive_write_nquads() {
    let primitive = time::PrimitiveDateTime::new(
        time_date(2026, time::Month::January, 1),
        time::Time::from_hms_milli(9, 59, 59, 0).unwrap(),
    );
    let dt_literal = DateTimeLiteral::try_from(primitive).unwrap();

    assert_eq!(
        nquads(&dt_literal),
        String::from("\"2026-01-01T09:59:59\"^^<http://www.w3.org/2001/XMLSchema#dateTime>")
    )
}

#[test]
fn time_offset_with_far_year_is_refused() {
    let far = time::PrimitiveDateTime::new(
        time_date(-5, time::Month::January, 1),
        time::Time::MIDNIGHT,
    )
    .assume_utc();
    match DateTimeLiteral::try_from(far) {
        Err(RdfTrigError::InvalidDateTime(m)) => assert_eq!(m, "Invalid OffsetDateTime"),
        other => panic!("unexpected {:?}", other),
    }
}

#[test]
fn datetime_from_time_text() {
    let ok = DateTimeLiteral::from_time_text(Some("2020-03-01T09:30:25-03:00".to_string()), "x").unwrap();
    assert_eq!(ok.value(), "2020-03-01T09:30:25-03:00");
    match DateTimeLiteral::from_time_text(None, "Invalid OffsetDateTime") {
        Err(RdfTrigError::InvalidDateTime(m)) => assert_eq!(m, "Invalid OffsetDateTime"),
        other => panic!("unexpected {:?}", other),
    }
}

fn time_at(year: i32, month: time::Month, day: u8, h: u8, m: u8, s: u8, nano: u32) -> time::PrimitiveDateTime {
    time::PrimitiveDateTime::new(
        time_date(year, month, day),
        time::Time::from_hms_nano(h, m, s, nano).unwrap(),
    )
}

#[test]
fn time_primitive_text_pads_fields_and_signs_years() {
    let lit = DateTimeLiteral::try_from(time_at(5, time::Month::July, 4, 3, 2, 1, 0)).unwrap();
    assert_eq!(lit.value(), "0005-07-04T03:02:01");
    let lit = DateTimeLiteral::try_from(time_at(-44, time::Month::March, 15, 12, 0, 0, 500)).unwrap();
    assert_eq!(lit.value(), "-0044-03-15T12:00:00");
    let lit = DateTimeLiteral::try_from(time_at(9999, time::Month::December, 31, 23, 59, 59, 0)).unwrap();
    assert_eq!(lit.value(), "9999-12-31T23:59:59");
}

#[test]
fn time_offset_text_is_rfc3339() {
    let utc = time_at(2024, time::Month::February, 29, 8, 5, 9, 120_000_000).assume_utc();
    assert_eq!(DateTimeLiteral::try_from(utc).unwrap().value(), "2024-02-29T08:05:09.12Z");
    let west = time_at(2024, time::Month::February, 29, 8, 5, 9, 1)
        .assume_offset(time::UtcOffset::from_hms(-3, -30, 0).unwrap());
    assert_eq!(DateTimeLiteral::try_from(west).unwrap().value(), "2024-02-29T08:05:09.000000001-03:30");
    let east = time_at(7, time::Month::January, 1, 0, 0, 0, 0)
        .assume_offset(time::UtcOffset::from_hms(0, 45, 0).unwrap());
    assert_eq!(DateTimeLiteral::try_from(east).unwrap().value(), "0007-01-01T00:00:00+00:45");
    let with_seconds = time_at(2024, time::Month::January, 1, 0, 0, 0, 0)
        .assume_offset(time::UtcOffset::from_hms(1, 0, 30).unwrap());
    assert!(DateTimeLiteral::try_from(with_seconds).is_err());
    let far = time_at(2024, time::Month::January, 1, 0, 0, 0, 0)
        .assume_offset(time::UtcOffset::from_hms(24, 0, 0).unwrap());
    assert!(DateTimeLiteral::try_from(far).is_err());
}

#[test]
fn chrono_naive_text_pads_fields_and_signs_years() {
    let at = |y: i32, h: u32, s: u32, nano: u32| {
        chrono::NaiveDate::from_ymd_opt(y, 2, 3)
            .unwrap()
            .and_hms_nano_opt(h, 4, s, nano)
            .unwrap()
    };
    assert_eq!(DateTimeLiteral::from(at(5, 1, 6, 0)).value(), "0005-02-03T01:04:06");
    assert_eq!(DateTimeLiteral::from(at(-44, 1, 6, 7)).value(), "-0044-02-03T01:04:06");
    assert_eq!(DateTimeLiteral::from(at(12345, 23, 6, 0)).value(), "+12345-02-03T23:04:06");
    assert_eq!(DateTimeLiteral::from(at(2016, 23, 59, 1_500_000_000)).value(), "2016-02-03T23:04:60");
}

#[test]
fn node_store_interns_by_value() {
    let mut store = NodeStore::new();
    let first = store.intern_node(Node::Named(NamedNode::new("http://example.com/a").unwrap()));
    let other = store.intern_node(Node::Blank(BlankNode::new("a")));
    let again = store.intern_node(Node::Named(NamedNode::new("http://example.com/a").unwrap()));
    assert_eq!(first.0, 0);
    assert_eq!(other.0, 1);
    assert_eq!(again, first);
    assert_eq!(store.len(), 2);
    assert_eq!(
        store.query_node(first),
        &Node::Named(NamedNode::new("http://example.com/a").unwrap())
    );
}
