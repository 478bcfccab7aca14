use ollama_rest::json::{Json, Member};
use ollama_rest::models::json_schema::{FunctionDef, JsonSchema, Property, DEPTH_LIMIT};

fn text(s: &str) -> Json {
    Json::Text(s.to_string())
}

fn object(members: Vec<(&str, Json)>) -> Json {
    Json::Object(
        members.into_iter().map(|(name, value)| Member { name: name.to_string(), value }).collect(),
    )
}

#[test]
fn def_function_schema() {
    const FUNC_NAME: &'static str = "query_weather";
    const FUNC_DESC: &'static str = "Get current weather in a specified location.";

    const LOC_DESC: &'static str = "Keywords of the location.";

    let obj = JsonSchema::from_json(&object(vec![
        ("type", text("function")),
        (
            "function",
            object(vec![
                ("name", text(FUNC_NAME)),
                ("description", text(FUNC_DESC)),
                (
                    "parameters",
                    object(vec![
                        ("type", text("object")),
                        (
                            "properties",
                            object(vec![(
                                "location",
                                object(vec![("type", text("string")), ("description", text(LOC_DESC))]),
                            )]),
                        ),
                        ("required", Json::Array(vec![text("location")])),
                    ]),
                ),
            ]),
        ),
    ]))
    .unwrap();

    assert!(matches!(obj, JsonSchema::Function { .. }));

    if let JsonSchema::Function { function } = obj {
        assert_eq!(function.name, FUNC_NAME);

        assert!(matches!(function.description, Some(_)));
        assert_eq!(function.description.unwrap(), FUNC_DESC);

        assert!(matches!(function.parameters, Some(_)));

        if let Some(boxed_schema) = function.parameters {
            let param_schema = *boxed_schema;

            assert!(matches!(param_schema, JsonSchema::Object { .. }));
            let location_schema = param_schema.property("location");
            assert!(matches!(location_schema, Some(_)));
            if let Some(location_schema) = location_schema {
                assert!(matches!(location_schema, JsonSchema::String { .. }));
                if let JsonSchema::String { description, enumeration } = location_schema {
                    assert!(matches!(description, Some(_)));
                    if let Some(description) = description {
                        assert_eq!(description, LOC_DESC);
                    }

                    assert!(matches!(enumeration, None));
                }
            }
            if let JsonSchema::Object { properties: _, required } = param_schema {
                assert!(matches!(required, Some(_)));
                if let Some(required_fields) = required {
                    assert_eq!(required_fields.len(), 1);
                    assert_eq!(required_fields[0], "location");
                }
            }
        }
    }
}

#[test]
fn schema_from_bytes_and_back() {
    let bytes = b"{\"type\":\"function\",\"function\":{\"name\":\"f\",\"description\":null,\"parameters\":{\"type\":\"object\",\"properties\":{\"n\":{\"type\":\"integer\"},\"x\":{\"type\":\"number\",\"description\":\"a number\"},\"s\":{\"type\":\"string\",\"enum\":[\"a\",\"b\"]}},\"required\":null}}}";
    let doc = Json::parse(bytes).unwrap();
    let schema = JsonSchema::from_json(&doc).unwrap();
    let written = schema.to_json().to_bytes().unwrap();
    assert_eq!(
        String::from_utf8(written).unwrap(),
        "{\"function\":{\"description\":null,\"name\":\"f\",\"parameters\":{\"properties\":{\"n\":{\"description\":null,\"type\":\"integer\"},\"s\":{\"description\":null,\"enum\":[\"a\",\"b\"],\"type\":\"string\"},\"x\":{\"description\":\"a number\",\"type\":\"number\"}},\"required\":null,\"type\":\"object\"}},\"type\":\"function\"}"
    );
    let again = JsonSchema::from_json(&schema.to_json()).unwrap();
    assert_eq!(format!("{:?}", again), format!("{:?}", schema));
}

#[test]
fn schema_of_an_unknown_kind_is_refused() {
    assert!(JsonSchema::from_json(&object(vec![("type", text("array"))])).is_none());
    assert!(JsonSchema::from_json(&object(vec![("kind", text("string"))])).is_none());
    assert!(JsonSchema::from_json(&object(vec![("type", Json::Null)])).is_none());
    assert!(JsonSchema::from_json(&text("string")).is_none());
    assert!(JsonSchema::from_json(&object(vec![("type", text("function"))])).is_none());
    assert!(JsonSchema::from_json(&object(vec![("type", text("object"))])).is_none());
    assert!(JsonSchema::from_json(&object(vec![("type", text("object")), ("properties", Json::Null)])).is_none());
    assert!(JsonSchema::from_json(&object(vec![("type", text("integer")), ("description", Json::Bool(true))])).is_none());
    assert!(JsonSchema::from_json(&object(vec![("type", text("string")), ("enum", text("a"))])).is_none());
    assert!(JsonSchema::from_json(&object(vec![
        ("type", text("object")),
        ("properties", object(vec![("a", object(vec![("type", text("nothing"))]))])),
    ]))
    .is_none());
    assert!(matches!(
        JsonSchema::from_json(&object(vec![("type", text("integer"))])),
        Some(JsonSchema::Integer { description: None })
    ));
    assert!(matches!(
        JsonSchema::from_json(&object(vec![("type", text("number")), ("description", text("d"))])),
        Some(JsonSchema::Number { description: Some(d) }) if d == "d"
    ));
}

#[test]
fn schema_depth_is_limited() {
    let leaf = object(vec![("type", text("integer"))]);
    assert!(JsonSchema::from_json_within(&leaf, 0).is_none());
    assert!(JsonSchema::from_json_within(&leaf, 1).is_some());
    let nested = object(vec![
        ("type", text("object")),
        ("properties", object(vec![("a", object(vec![("type", text("integer"))]))])),
    ]);
    assert!(JsonSchema::from_json_within(&nested, 1).is_none());
    assert!(JsonSchema::from_json_within(&nested, 2).is_some());
    assert_eq!(DEPTH_LIMIT, 128);
    let mut deep = JsonSchema::Integer { description: None };
    for _ in 0..DEPTH_LIMIT {
        deep = JsonSchema::Object {
            properties: vec![Property { name: "p".to_string(), schema: deep }],
            required: None,
        };
    }
    assert!(JsonSchema::from_json(&deep.to_json()).is_none());
}

#[test]
fn property_lookup() {
    let schema = JsonSchema::Object {
        properties: vec![
            Property { name: "a".to_string(), schema: JsonSchema::Integer { description: None } },
            Property { name: "b".to_string(), schema: JsonSchema::Number { description: None } },
            Property { name: "a".to_string(), schema: JsonSchema::Number { description: None } },
        ],
        required: None,
    };
    assert!(matches!(schema.property("a"), Some(JsonSchema::Integer { .. })));
    assert!(matches!(schema.property("b"), Some(JsonSchema::Number { .. })));
    assert!(schema.property("c").is_none());
    assert!(JsonSchema::Integer { description: None }.property("a").is_none());
    let function = JsonSchema::Function {
        function: FunctionDef { name: "f".to_string(), description: None, parameters: None },
    };
    assert!(function.property("a").is_none());
    assert_eq!(
        String::from_utf8(function.to_json().to_bytes().unwrap()).unwrap(),
        "{\"function\":{\"description\":null,\"name\":\"f\",\"parameters\":null},\"type\":\"function\"}"
    );
}
