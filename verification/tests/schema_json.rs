use ironlab_ir::schema_json::{schema_files, JsonValue};

fn s(text: &str) -> JsonValue {
    JsonValue::String(text.to_owned())
}

fn obj(members: Vec<(&str, JsonValue)>) -> JsonValue {
    JsonValue::Object(members.into_iter().map(|(k, v)| (k.to_owned(), v)).collect())
}

fn reference(to: &str) -> JsonValue {
    obj(vec![("$ref", s(to))])
}

const DIALECT: &str = "https://json-schema.org/draft/2020-12/schema";

fn figure_schema() -> JsonValue {
    obj(vec![
        ("$schema", s(DIALECT)),
        ("title", s("Figure")),
        (
            "properties",
            obj(vec![
                ("axes", obj(vec![("type", s("array")), ("items", reference("#/$defs/Axes"))])),
                ("id", reference("#/$defs/NodeId")),
            ]),
        ),
        (
            "$defs",
            obj(vec![
                (
                    "Axes",
                    obj(vec![(
                        "properties",
                        obj(vec![("x", reference("#/$defs/Axis")), ("title", reference("#/$defs/Text"))]),
                    )]),
                ),
                ("Axis", obj(vec![("type", s("object"))])),
                ("NodeId", obj(vec![("type", s("integer"))])),
                ("Text", obj(vec![("type", s("object"))])),
            ]),
        ),
    ])
}

fn transaction_schema() -> JsonValue {
    obj(vec![
        ("$schema", s(DIALECT)),
        ("title", s("Transaction")),
        ("properties", obj(vec![("edits", obj(vec![("items", reference("#/$defs/Edit"))]))])),
        (
            "$defs",
            obj(vec![
                (
                    "Edit",
                    obj(vec![(
                        "properties",
                        obj(vec![("path", reference("#/$defs/PropertyPath")), ("node", reference("#/$defs/NodeId"))]),
                    )]),
                ),
                ("PropertyPath", obj(vec![("type", s("string"))])),
                ("NodeId", obj(vec![("type", s("integer"))])),
            ]),
        ),
    ])
}

fn definitions_only(module: &str, defs: Vec<(&str, JsonValue)>) -> JsonValue {
    obj(vec![
        ("$schema", s(DIALECT)),
        ("title", s(&format!("The definitions of the {module} module"))),
        ("$defs", obj(defs)),
    ])
}

#[test]
fn each_definition_stands_in_the_file_of_its_module() {
    let files = schema_files(figure_schema(), transaction_schema()).expect("every type has a module");
    let names: Vec<&str> = files.iter().map(|(n, _)| n.as_str()).collect();
    assert_eq!(
        names,
        ["axes.schema.json", "edit.schema.json", "figure.schema.json", "ids.schema.json", "text.schema.json"]
    );
    assert_eq!(
        files[0].1,
        definitions_only(
            "axes",
            vec![
                (
                    "Axes",
                    obj(vec![(
                        "properties",
                        obj(vec![
                            ("x", reference("#/$defs/Axis")),
                            ("title", reference("text.schema.json#/$defs/Text")),
                        ]),
                    )]),
                ),
                ("Axis", obj(vec![("type", s("object"))])),
            ]
        )
    );
    assert_eq!(
        files[1].1,
        obj(vec![
            ("$schema", s(DIALECT)),
            ("title", s("Transaction")),
            ("properties", obj(vec![("edits", obj(vec![("items", reference("#/$defs/Edit"))]))])),
            (
                "$defs",
                obj(vec![
                    (
                        "Edit",
                        obj(vec![(
                            "properties",
                            obj(vec![
                                ("path", reference("#/$defs/PropertyPath")),
                                ("node", reference("ids.schema.json#/$defs/NodeId")),
                            ]),
                        )]),
                    ),
                    ("PropertyPath", obj(vec![("type", s("string"))])),
                ]),
            ),
        ])
    );
    assert_eq!(
        files[2].1,
        obj(vec![
            ("$schema", s(DIALECT)),
            ("title", s("Figure")),
            (
                "properties",
                obj(vec![
                    ("axes", obj(vec![("type", s("array")), ("items", reference("axes.schema.json#/$defs/Axes"))])),
                    ("id", reference("ids.schema.json#/$defs/NodeId")),
                ]),
            ),
            ("$defs", obj(vec![])),
        ])
    );
    assert_eq!(files[3].1, definitions_only("ids", vec![("NodeId", obj(vec![("type", s("integer"))]))]));
    assert_eq!(files[4].1, definitions_only("text", vec![("Text", obj(vec![("type", s("object"))]))]));
}

#[test]
fn a_definition_without_a_module_is_refused() {
    let figure = obj(vec![("$defs", obj(vec![("Nowhere", obj(vec![]))]))]);
    assert_eq!(
        schema_files(figure, obj(vec![])),
        Err("the JSON Schema definition Nowhere has no module".to_owned())
    );
    let transaction = obj(vec![("items", obj(vec![("$ref", s("#/$defs/Elsewhere"))]))]);
    assert_eq!(
        schema_files(obj(vec![]), transaction),
        Err("the JSON Schema definition Elsewhere has no module".to_owned())
    );
}

#[test]
fn schemas_without_definitions_give_the_two_documents() {
    let files = schema_files(obj(vec![("title", s("Figure"))]), obj(vec![])).expect("nothing to place");
    assert_eq!(
        files,
        vec![
            ("edit.schema.json".to_owned(), obj(vec![("$defs", obj(vec![]))])),
            ("figure.schema.json".to_owned(), obj(vec![("title", s("Figure")), ("$defs", obj(vec![]))])),
        ]
    );
}
