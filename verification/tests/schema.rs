use ironlab_ir::proto_files;
use ironlab_ir::wire::module_declaring;
use ironlab_ir::wire::schema::{
    check_declarations,
    check_unique, render, reserved_name, upper_snake, EnumDef, FieldDef, FieldSpec, FileDef,
    ItemDef, Label, MessageDef, ReservedDef, ReservedItem, TypeRef, ValueDef,
};

fn field(name: &'static str, number: u32) -> FieldSpec {
    FieldSpec {
        docs: vec![],
        label: Label::Optional,
        ty: TypeRef::Scalar("uint64"),
        name,
        number,
    }
}

fn message(fields: Vec<FieldDef>, reserved: Vec<ReservedDef>) -> ItemDef {
    ItemDef::Message(MessageDef {
        name: "Sample",
        docs: vec![],
        fields,
        reserved,
    })
}

fn value(name: &'static str, number: i32) -> ValueDef {
    ValueDef {
        name,
        docs: vec![],
        number,
    }
}

fn enumeration(values: Vec<ValueDef>, reserved: Vec<ReservedDef>) -> ItemDef {
    ItemDef::Enum(EnumDef {
        name: "Mode",
        docs: vec![],
        values,
        reserved,
    })
}

fn reserve(items: Vec<ReservedItem>) -> ReservedDef {
    ReservedDef {
        docs: vec![],
        items,
    }
}

#[test]
fn duplicate_numbers_and_names_are_rejected() {
    let cases: Vec<(&str, ItemDef, &str)> = vec![
        (
            "a field number used twice",
            message(
                vec![
                    FieldDef::Field(field("a", 1)),
                    FieldDef::Field(field("b", 1)),
                ],
                vec![],
            ),
            "Sample uses number 1 for both field a and field b",
        ),
        (
            "a field name used twice",
            message(
                vec![
                    FieldDef::Field(field("a", 1)),
                    FieldDef::Field(field("a", 2)),
                ],
                vec![],
            ),
            "Sample uses name a for both field a and field a",
        ),
        (
            "a oneof variant numbered like a field",
            message(
                vec![
                    FieldDef::Field(field("a", 1)),
                    FieldDef::Oneof {
                        name: "kind",
                        docs: vec![],
                        variants: vec![field("b", 1)],
                    },
                ],
                vec![],
            ),
            "Sample uses number 1 for both field a and variant b of oneof kind",
        ),
        (
            "a oneof variant named like its oneof",
            message(
                vec![FieldDef::Oneof {
                    name: "kind",
                    docs: vec![],
                    variants: vec![field("kind", 1)],
                }],
                vec![],
            ),
            "Sample uses name kind for both oneof kind and variant kind of oneof kind",
        ),
        (
            "a field that uses a reserved number",
            message(
                vec![FieldDef::Field(field("a", 2))],
                vec![reserve(vec![ReservedItem::Number(2)])],
            ),
            "Sample uses number 2 for both field a and reserved number 2",
        ),
        (
            "a field that uses a reserved name",
            message(
                vec![FieldDef::Field(field("a", 1))],
                vec![reserve(vec![ReservedItem::Name("a")])],
            ),
            "Sample uses name a for both field a and reserved name a",
        ),
        (
            "an enum value numbered like the zero value",
            enumeration(vec![value("On", 0)], vec![]),
            "Mode uses number 0 for both value MODE_UNSPECIFIED and value MODE_ON",
        ),
        (
            "an enum value named like the zero value",
            enumeration(vec![value("Unspecified", 1)], vec![]),
            "Mode uses name MODE_UNSPECIFIED for both value MODE_UNSPECIFIED and value MODE_UNSPECIFIED",
        ),
        (
            "an enum value that uses a reserved name",
            enumeration(
                vec![value("Off", 1)],
                vec![reserve(vec![ReservedItem::Name("Off")])],
            ),
            "Mode uses name MODE_OFF for both value MODE_OFF and reserved name MODE_OFF",
        ),
        (
            "an enum value that uses a reserved number",
            enumeration(
                vec![value("On", 1)],
                vec![reserve(vec![ReservedItem::Number(1)])],
            ),
            "Mode uses number 1 for both value MODE_ON and reserved number 1",
        ),
    ];
    assert_eq!(cases.len(), 10);
    for (case, item, expected) in &cases {
        assert_eq!(check_unique(item), Err((*expected).to_owned()), "{case}");
    }
}

#[test]
fn the_declarations_of_the_package_use_every_number_and_name_once() {
    for file in ironlab_ir::wire::files() {
        for item in &file.items {
            assert_eq!(check_unique(item), Ok(()), "{}", file.path());
        }
    }
}

#[test]
fn rendering_refuses_a_duplicate() {
    let files = vec![FileDef {
        module: "ironlab_ir::wire::duplicate",
        items: vec![message(
            vec![
                FieldDef::Field(field("a", 1)),
                FieldDef::Field(field("b", 1)),
            ],
            vec![],
        )],
    }];
    assert_eq!(
        check_declarations(&files),
        Err("invalid wire declaration in ironlab/ir/v0/duplicate.proto: Sample uses number 1 for both field a and field b".to_owned())
    );
}

#[test]
fn reserved_numbers_and_names_are_rendered() {
    let files = vec![FileDef {
        module: "ironlab_ir::wire::reserving",
        items: vec![
            ItemDef::Message(MessageDef {
                name: "Sample",
                docs: vec![" A message with reserved numbers and names."],
                fields: vec![FieldDef::Field(FieldSpec {
                    docs: vec![" A field that remains."],
                    label: Label::Optional,
                    ty: TypeRef::Scalar("uint64"),
                    name: "kept",
                    number: 1,
                })],
                reserved: vec![
                    ReservedDef {
                        docs: vec![" Fields removed in an earlier version."],
                        items: vec![
                            ReservedItem::Number(2),
                            ReservedItem::Number(3),
                            ReservedItem::Name("old_name"),
                        ],
                    },
                    ReservedDef {
                        docs: vec![],
                        items: vec![ReservedItem::Name("older_name")],
                    },
                ],
            }),
            ItemDef::Enum(EnumDef {
                name: "Mode",
                docs: vec![" An enum with a reserved number and a reserved name."],
                values: vec![ValueDef {
                    name: "On",
                    docs: vec![" A value that remains."],
                    number: 1,
                }],
                reserved: vec![ReservedDef {
                    docs: vec![" A value removed in an earlier version."],
                    items: vec![ReservedItem::Number(2), ReservedItem::Name("Off")],
                }],
            }),
        ],
    }];
    assert_eq!(check_declarations(&files), Ok(()));
    let rendered = render(&files);
    assert_eq!(rendered.len(), 1);
    let (path, text) = &rendered[0];
    assert_eq!(path, "ironlab/ir/v0/reserving.proto");
    for line in [
        "  // Fields removed in an earlier version.\n  reserved 2, 3;\n  reserved \"old_name\";\n",
        "  reserved \"older_name\";\n",
        "  reserved 2;\n  reserved \"MODE_OFF\";\n",
        "  optional uint64 kept = 1;\n",
        "  MODE_UNSPECIFIED = 0;\n",
        "  MODE_ON = 1;\n",
    ] {
        assert!(text.contains(line), "{line:?} is not in:\n{text}");
    }
}

#[test]
fn upper_snake_splits_words_at_capitals() {
    assert_eq!(upper_snake("TriangleUp"), "TRIANGLE_UP");
    assert_eq!(upper_snake("LegendLocation"), "LEGEND_LOCATION");
    assert_eq!(upper_snake("X"), "X");
    assert_eq!(upper_snake(""), "");
}

#[test]
fn reserved_enum_names_take_the_enum_prefix() {
    let mode = enumeration(vec![value("On", 1)], vec![]);
    assert_eq!(reserved_name(&mode, "Off"), "MODE_OFF");
    let sample = message(vec![], vec![]);
    assert_eq!(reserved_name(&sample, "old_name"), "old_name");
}

#[test]
fn the_package_renders_one_file_per_module() {
    let files = proto_files().expect("the declarations of the package are consistent");
    let paths: Vec<&str> = files.iter().map(|(path, _)| path.as_str()).collect();
    assert_eq!(
        paths,
        [
            "ironlab/ir/v0/figure.proto",
            "ironlab/ir/v0/axes.proto",
            "ironlab/ir/v0/artist.proto",
            "ironlab/ir/v0/style.proto",
            "ironlab/ir/v0/text.proto",
            "ironlab/ir/v0/data.proto",
            "ironlab/ir/v0/link.proto",
            "ironlab/ir/v0/edit.proto",
        ]
    );
    let (_, text) = &files[4];
    assert!(text.contains("package ironlab.ir.v0;"), "{text}");
    assert!(text.contains("message Text {"), "{text}");
    assert!(text.contains("  INTERPRETER_LATEX = 1;\n"), "{text}");
}

#[test]
fn module_declaring_finds_the_file_of_a_type() {
    assert_eq!(module_declaring("Line"), Some("artist"));
    assert_eq!(module_declaring("TileLayout"), Some("figure"));
    assert_eq!(module_declaring("Interpreter"), Some("text"));
    assert_eq!(module_declaring("NoSuchType"), None);
}
