use mailjet_api::json::{Json, Member};
use mailjet_api::parse::DecodeError;

fn member(name: &str, value: Json) -> Member {
    Member { name: name.to_string(), value }
}

fn text(s: &str) -> Json {
    Json::Text(s.to_string())
}

#[test]
fn scalars_are_written_compactly() {
    assert_eq!(Json::Null.to_text(), "null");
    assert_eq!(Json::Bool(true).to_text(), "true");
    assert_eq!(Json::Bool(false).to_text(), "false");
    assert_eq!(Json::Int(0).to_text(), "0");
    assert_eq!(Json::Int(-17).to_text(), "-17");
    assert_eq!(Json::Real("1.5".to_string()).to_text(), "1.5");
    assert_eq!(text("abc").to_text(), "\"abc\"");
}

#[test]
fn integers_beyond_64_bits_keep_every_digit() {
    assert_eq!(
        Json::Int(i128::MAX).to_text(),
        "170141183460469231731687303715884105727"
    );
    assert_eq!(
        Json::Int(i128::MIN).to_text(),
        "-170141183460469231731687303715884105728"
    );
}

#[test]
fn strings_are_escaped() {
    assert_eq!(text("say \"hi\"").to_text(), "\"say \\\"hi\\\"\"");
    assert_eq!(text("a\\b").to_text(), "\"a\\\\b\"");
    assert_eq!(text("line\nbreak\ttab").to_text(), "\"line\\nbreak\\ttab\"");
    assert_eq!(text("\u{1}").to_text(), "\"\\u0001\"");
    assert_eq!(text("").to_text(), "\"\"");
    assert_eq!(text("é✓").to_text(), "\"é✓\"");
}

#[test]
fn member_names_are_escaped_too() {
    let j = Json::object(vec![member("a\"b", Json::Int(1))]);
    assert_eq!(j.to_text(), "{\"a\\\"b\":1}");
}

#[test]
fn arrays_and_objects_keep_their_order() {
    assert_eq!(Json::array(vec![]).to_text(), "[]");
    assert_eq!(Json::object(vec![]).to_text(), "{}");
    assert_eq!(Json::array(vec![Json::Int(1)]).to_text(), "[1]");
    assert_eq!(
        Json::array(vec![Json::Int(3), Json::Null, text("x")]).to_text(),
        "[3,null,\"x\"]"
    );
    let j = Json::object(vec![
        member("z", Json::Int(1)),
        member("a", Json::array(vec![Json::Bool(true), Json::object(vec![])])),
        member("m", Json::object(vec![member("k", text("v"))])),
    ]);
    assert_eq!(j.to_text(), "{\"z\":1,\"a\":[true,{}],\"m\":{\"k\":\"v\"}}");
}

#[test]
fn write_appends_to_what_is_there() {
    let mut out = "x=".to_string();
    Json::array(vec![Json::Int(1), Json::Int(2)]).write(&mut out);
    assert_eq!(out, "x=[1,2]");
}

#[test]
fn get_finds_a_member_by_name() {
    let j = Json::object(vec![member("a", Json::Int(1)), member("b", Json::Int(2))]);
    assert_eq!(j.get("a"), Some(&Json::Int(1)));
    assert_eq!(j.get("b"), Some(&Json::Int(2)));
    assert_eq!(j.get("c"), None);
    assert_eq!(j.get("A"), None);
}

#[test]
fn get_takes_the_last_of_two_members_of_one_name() {
    let j = Json::object(vec![member("a", Json::Int(1)), member("a", Json::Int(2))]);
    assert_eq!(j.get("a"), Some(&Json::Int(2)));
}

#[test]
fn get_finds_nothing_in_what_is_no_object() {
    assert_eq!(Json::Null.get("a"), None);
    assert_eq!(Json::array(vec![Json::Int(1)]).get("a"), None);
    assert_eq!(text("a").get("a"), None);
}

#[test]
fn duplicate_gives_an_equal_value() {
    let j = Json::object(vec![
        member("a", Json::array(vec![Json::Int(1), text("x"), Json::Real("2.5".to_string())])),
        member("b", Json::Null),
    ]);
    assert_eq!(j.duplicate(), j);
}

#[test]
fn parse_reads_each_kind_of_value() {
    assert_eq!(Json::parse("null"), Ok(Json::Null));
    assert_eq!(Json::parse("true"), Ok(Json::Bool(true)));
    assert_eq!(Json::parse("false"), Ok(Json::Bool(false)));
    assert_eq!(Json::parse("0"), Ok(Json::Int(0)));
    assert_eq!(Json::parse("-12"), Ok(Json::Int(-12)));
    assert_eq!(Json::parse("\"a\\nb\""), Ok(text("a\nb")));
    assert_eq!(Json::parse("[]"), Ok(Json::Array(vec![])));
    assert_eq!(Json::parse("{}"), Ok(Json::Object(vec![])));
}

#[test]
fn parse_keeps_integers_of_64_bits() {
    assert_eq!(Json::parse("18446744073709551615"), Ok(Json::Int(u64::MAX as i128)));
    assert_eq!(Json::parse("-9223372036854775808"), Ok(Json::Int(i64::MIN as i128)));
}

#[test]
fn parse_keeps_integers_of_128_bits() {
    assert_eq!(Json::parse("18446744073709551616"), Ok(Json::Int(18446744073709551616)));
    assert_eq!(Json::parse("-9223372036854775809"), Ok(Json::Int(-9223372036854775809)));
    assert_eq!(
        Json::parse("170141183460469231731687303715884105727"),
        Ok(Json::Int(i128::MAX))
    );
    assert_eq!(
        Json::parse("-170141183460469231731687303715884105728"),
        Ok(Json::Int(i128::MIN))
    );
    assert_eq!(Json::parse("-0"), Ok(Json::Int(0)));
}

#[test]
fn parse_keeps_integers_beyond_128_bits_as_text() {
    assert_eq!(
        Json::parse("170141183460469231731687303715884105728"),
        Ok(Json::Real("170141183460469231731687303715884105728".to_string()))
    );
    assert_eq!(
        Json::parse("-170141183460469231731687303715884105729"),
        Ok(Json::Real("-170141183460469231731687303715884105729".to_string()))
    );
}

#[test]
fn parse_keeps_the_digits_of_a_number_as_they_came() {
    assert_eq!(Json::parse("1.0"), Ok(Json::Real("1.0".to_string())));
    assert_eq!(Json::parse("0.10"), Ok(Json::Real("0.10".to_string())));
    assert_eq!(Json::parse("1e5"), Ok(Json::Real("1e+5".to_string())));
    assert_eq!(Json::parse("-2.50E-3"), Ok(Json::Real("-2.50e-3".to_string())));
    assert_eq!(Json::parse("[0.1]").unwrap().to_text(), "[0.1]");
}

#[test]
fn integers_of_128_bits_are_read_back_from_their_own_text() {
    for n in [i128::MAX, i128::MIN, 18446744073709551616, -9223372036854775809, 0, -1] {
        assert_eq!(Json::parse(&Json::Int(n).to_text()), Ok(Json::Int(n)));
    }
}

#[test]
fn parse_keeps_other_numbers_as_text() {
    assert_eq!(Json::parse("1.5"), Ok(Json::Real("1.5".to_string())));
    assert_eq!(Json::parse("-0.25"), Ok(Json::Real("-0.25".to_string())));
}

#[test]
fn parse_reads_nested_values() {
    let parsed = Json::parse(" { \"a\" : [ 1 , { \"b\" : null } ] , \"c\" : \"d\" } ");
    let expected = Json::Object(vec![
        member("a", Json::Array(vec![Json::Int(1), Json::Object(vec![member("b", Json::Null)])])),
        member("c", text("d")),
    ]);
    assert_eq!(parsed, Ok(expected));
}

#[test]
fn parse_refuses_what_is_not_json() {
    assert_eq!(Json::parse("not json"), Err(DecodeError::Syntax));
    assert_eq!(Json::parse(""), Err(DecodeError::Syntax));
    assert_eq!(Json::parse("{\"a\":}"), Err(DecodeError::Syntax));
    assert_eq!(Json::parse("[1,2"), Err(DecodeError::Syntax));
    assert_eq!(Json::parse("1 2"), Err(DecodeError::Syntax));
}

#[test]
fn text_that_was_written_is_read_back() {
    let j = Json::object(vec![
        member("a", Json::array(vec![Json::Int(-1), text("x\"y"), Json::Bool(false)])),
        member("b", Json::object(vec![member("c", Json::Null)])),
    ]);
    assert_eq!(Json::parse(&j.to_text()), Ok(j));
}

#[test]
fn text_agrees_with_serde_json() {
    let mut inner = serde_json::Map::new();
    inner.insert("k".to_string(), serde_json::Value::String("v \"q\" \\ \u{7} \u{7f} é".to_string()));
    let mut map = serde_json::Map::new();
    map.insert(
        "a".to_string(),
        serde_json::Value::Array(vec![
            serde_json::Value::from(-5i64),
            serde_json::Value::from(u64::MAX),
            serde_json::Value::Bool(true),
            serde_json::Value::Null,
        ]),
    );
    map.insert("b".to_string(), serde_json::Value::Object(inner));
    map.insert("c\n".to_string(), serde_json::Value::String(String::new()));
    let theirs = serde_json::to_string(&serde_json::Value::Object(map)).unwrap();

    let ours = Json::object(vec![
        member(
            "a",
            Json::array(vec![
                Json::Int(-5),
                Json::Int(u64::MAX as i128),
                Json::Bool(true),
                Json::Null,
            ]),
        ),
        member("b", Json::object(vec![member("k", text("v \"q\" \\ \u{7} \u{7f} é"))])),
        member("c\n", text("")),
    ]);
    assert_eq!(ours.to_text(), theirs);
    assert_eq!(Json::parse(&theirs), Ok(ours));
}

fn escape_of(c: char) -> String {
    match c {
        '"' => "\\\"".to_string(),
        '\\' => "\\\\".to_string(),
        '\u{8}' => "\\b".to_string(),
        '\t' => "\\t".to_string(),
        '\n' => "\\n".to_string(),
        '\u{c}' => "\\f".to_string(),
        '\r' => "\\r".to_string(),
        c if (c as u32) < 32 => format!("\\u00{:02x}", c as u32),
        c => c.to_string(),
    }
}

#[test]
fn every_character_up_to_the_first_beyond_ascii_is_written_by_the_rule() {
    for code in 0u32..=0x80 {
        let c = char::from_u32(code).unwrap();
        let s: String = [c, 'x', c].iter().collect();
        let expected = format!("\"{}x{}\"", escape_of(c), escape_of(c));
        assert_eq!(text(&s).to_text(), expected);
    }
}
