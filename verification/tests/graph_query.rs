use nexus::graph::query::{bolt_to_cypher_literal, BoltMap, BoltType, Query, TelemetryValue};

fn query(cypher: &str) -> Query {
    Query::new("test", cypher)
}

fn text(s: &str) -> BoltType {
    BoltType::Text(s.to_string())
}

#[test]
fn literal_string_plain() {
    assert_eq!(bolt_to_cypher_literal(&text("hello")), "'hello'");
}

#[test]
fn literal_string_escapes_quotes_and_backslashes() {
    assert_eq!(bolt_to_cypher_literal(&text("it's a \\path")), "'it\\'s a \\\\path'");
}

#[test]
fn literal_string_escapes_control_chars() {
    assert_eq!(
        bolt_to_cypher_literal(&text("line1\nline2\r\tend")),
        "'line1\\nline2\\r\\tend'"
    );
}

#[test]
fn literal_string_empty() {
    assert_eq!(bolt_to_cypher_literal(&text("")), "''");
}

#[test]
fn literal_integer() {
    assert_eq!(bolt_to_cypher_literal(&BoltType::Integer(42)), "42");
}

#[test]
fn literal_negative_integer() {
    assert_eq!(bolt_to_cypher_literal(&BoltType::Integer(-1)), "-1");
}

#[test]
fn literal_integer_bounds() {
    assert_eq!(
        bolt_to_cypher_literal(&BoltType::Integer(i64::MIN)),
        "-9223372036854775808"
    );
    assert_eq!(
        bolt_to_cypher_literal(&BoltType::Integer(i64::MAX)),
        "9223372036854775807"
    );
    assert_eq!(bolt_to_cypher_literal(&BoltType::Integer(0)), "0");
}

#[test]
fn literal_float() {
    let val = BoltType::Float((3.01_f64).to_string());
    assert_eq!(bolt_to_cypher_literal(&val), "3.01");
}

#[test]
fn literal_boolean() {
    assert_eq!(bolt_to_cypher_literal(&BoltType::Boolean(true)), "true");
    assert_eq!(bolt_to_cypher_literal(&BoltType::Boolean(false)), "false");
}

#[test]
fn literal_null() {
    assert_eq!(bolt_to_cypher_literal(&BoltType::Null), "null");
}

#[test]
fn literal_list() {
    let list = vec![BoltType::Integer(1), text("two"), BoltType::Boolean(false)];
    assert_eq!(bolt_to_cypher_literal(&BoltType::List(list)), "[1, 'two', false]");
}

#[test]
fn literal_list_empty() {
    assert_eq!(bolt_to_cypher_literal(&BoltType::List(Vec::new())), "[]");
}

#[test]
fn literal_map_single_entry() {
    let mut map = BoltMap::new();
    map.put("key", BoltType::Integer(99));
    assert_eq!(bolt_to_cypher_literal(&BoltType::Entries(map)), "{key: 99}");
}

#[test]
fn literal_nested_values() {
    let mut map = BoltMap::new();
    map.put("a", BoltType::List(vec![BoltType::Null, text("x'y")]));
    map.put("b", BoltType::Boolean(true));
    assert_eq!(
        bolt_to_cypher_literal(&BoltType::Entries(map)),
        "{a: [null, 'x\\'y'], b: true}"
    );
}

#[test]
fn putting_a_name_twice_keeps_the_last_value() {
    let mut map = BoltMap::new();
    map.put("a", BoltType::Integer(1));
    map.put("b", BoltType::Integer(2));
    map.put("a", BoltType::Integer(3));
    assert_eq!(map.value.len(), 2);
    assert!(matches!(map.get("a"), Some(BoltType::Integer(3))));
    assert!(map.get("c").is_none());
}

#[test]
fn populate_basic_substitution() {
    let q = query("MATCH (u:User {id: $id}) RETURN u").param("id", text("abc123"));
    assert_eq!(q.to_cypher_populated(), "MATCH (u:User {id: 'abc123'}) RETURN u");
}

#[test]
fn populate_multiple_params() {
    let q = query("MATCH (u:User {id: $id}) SET u.name = $name")
        .param("id", text("abc"))
        .param("name", text("Alice"));
    let result = q.to_cypher_populated();
    assert!(result.contains("'abc'"));
    assert!(result.contains("'Alice'"));
    assert!(!result.contains("$id"));
    assert!(!result.contains("$name"));
}

#[test]
fn populate_no_params() {
    let q = query("RETURN 1");
    assert_eq!(q.to_cypher_populated(), "RETURN 1");
}

#[test]
fn populate_prefix_overlap_longer_replaced_first() {
    let q = query("MATCH (u {id: $user_id, name: $user})")
        .param("user_id", text("id123"))
        .param("user", text("Alice"));
    let result = q.to_cypher_populated();
    assert_eq!(result, "MATCH (u {id: 'id123', name: 'Alice'})");
}

#[test]
fn populate_integer_and_bool_params() {
    let q = query("MATCH (p) WHERE p.age > $age AND p.active = $active RETURN p")
        .param("age", BoltType::Integer(18_i64))
        .param("active", BoltType::Boolean(true));
    let result = q.to_cypher_populated();
    assert!(result.contains("> 18"));
    assert!(result.contains("= true"));
}

#[test]
fn populate_param_not_in_cypher_is_ignored() {
    let q = query("RETURN 1").param("unused", text("value"));
    assert_eq!(q.to_cypher_populated(), "RETURN 1");
}

#[test]
fn populate_special_chars_in_value() {
    let q = query("SET u.bio = $bio").param("bio", text("it's a\nnew \"line\""));
    let result = q.to_cypher_populated();
    assert_eq!(result, "SET u.bio = 'it\\'s a\\nnew \"line\"'");
}

#[test]
fn populate_does_not_rescan_inserted_literals() {
    let q = query("RETURN $a AS a, $b AS b")
        .param("a", text("$b"))
        .param("b", text("secret"));
    assert_eq!(q.to_cypher_populated(), "RETURN '$b' AS a, 'secret' AS b");
}

#[test]
fn populate_preserves_unknown_parameters() {
    let q = query("RETURN $known, $unknown").param("known", BoltType::Integer(1_i64));
    assert_eq!(q.to_cypher_populated(), "RETURN 1, $unknown");
}

/// A name goes on over letters and digits of every script, and over `_`.
#[test]
fn populate_reads_names_of_any_script() {
    let q = query("RETURN $é1_x-$é1").param("é1", BoltType::Integer(7));
    assert_eq!(q.to_cypher_populated(), "RETURN $é1_x-7");
}

#[test]
fn populate_keeps_lone_dollars() {
    let q = query("RETURN '$', $, $x$").param("x", BoltType::Integer(1));
    assert_eq!(q.to_cypher_populated(), "RETURN '$', $, 1$");
}

#[test]
fn telemetry_attrs_are_exposed_in_insertion_order() {
    let q = Query::new("test", "RETURN 1")
        .telemetry_attr("reach", TelemetryValue::Str("wot"))
        .telemetry_attr("depth", TelemetryValue::Int(2_u8));
    assert_eq!(
        q.telemetry_attrs(),
        &[
            ("reach", TelemetryValue::Str("wot")),
            ("depth", TelemetryValue::Int(2)),
        ]
    );
}

#[test]
fn telemetry_attrs_are_not_query_params() {
    let q = Query::new("test", "MATCH (n) WHERE n.r = $reach AND n.d = $depth RETURN n")
        .telemetry_attr("reach", TelemetryValue::Str("wot"))
        .telemetry_attr("depth", TelemetryValue::Int(2_u8));

    let populated = q.to_cypher_populated();
    assert!(populated.contains("$reach"));
    assert!(populated.contains("$depth"));
}

#[test]
fn telemetry_attr_opt_adds_only_what_is_there() {
    let q = Query::new("test", "RETURN 1")
        .telemetry_attr_opt("depth", None)
        .telemetry_attr_opt("depth", Some(3));
    assert_eq!(q.telemetry_attrs(), &[("depth", TelemetryValue::Int(3))]);
}

#[test]
fn query_builder_params_batch() {
    let q = query("MATCH (u {id: $id, name: $name})").params(vec![
        ("id".to_string(), text("abc")),
        ("name".to_string(), text("Bob")),
    ]);
    let result = q.to_cypher_populated();
    assert!(result.contains("'abc'"));
    assert!(result.contains("'Bob'"));
}
