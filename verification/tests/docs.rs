use uniffi_core::docs::{
    choose_module_file, extract_doc_comment, module_files, module_names, parse_source, AttrMeta,
    DocEvent, Gathering, Member, ModuleFile, ParseStage, SourceItem,
};
use uniffi_core::{extract_documentation, Dictionary, Documentation, Function, Structure};

fn expected_complete_doc_function() -> Function {
    let mut expected_arg_descriptions = Dictionary::new();
    expected_arg_descriptions.insert(
        "argument1".to_string(),
        "this is argument description 1.".to_string(),
    );
    expected_arg_descriptions.insert(
        "argument2".to_string(),
        "this is argument description 2.".to_string(),
    );
    Function {
        description: "This is the function description.\nHere is a second line.\n".to_string(),
        arguments_descriptions: expected_arg_descriptions,
        return_description: Some(
            "This is return value description.\nHere is a second line.\n".to_string(),
        ),
    }
}

fn doc(text: &str) -> AttrMeta {
    AttrMeta::NameValue { named_doc: true, text: Some(text.to_string()) }
}

fn plain(description: &str) -> Function {
    Function {
        description: description.to_string(),
        arguments_descriptions: Dictionary::new(),
        return_description: None,
    }
}

#[test]
fn test_doc_function_parses_a_md_description() {
    let description = "This is the function description.\n\
Here is a second line.\n\
\n\
# Arguments\n\
\n\
- `argument1` - this is argument description 1.\n\
- `argument2` - this is argument description 2.\n\
\n\
# Returns\n\
\n\
This is return value description.\n\
Here is a second line.\n";

    let result = Function::from_str(description);
    assert_eq!(expected_complete_doc_function(), result);
}

#[test]
fn test_doc_function_parses_a_no_md_description() {
    let description = "This is the function description.\n\
\n\
Arguments\n\
\n\
argument1 - this is argument description 1.\n\
argument2 - this is argument description 2.\n\
\n\
Returns\n\
\n\
This is return value description.\n";

    let result = Function::from_str(description);

    assert_eq!(
        Function {
            description: description.to_string(),
            arguments_descriptions: Dictionary::new(),
            return_description: None
        },
        result
    );
}

#[test]
fn test_extract_documentation() {
    let source_code = "
        /// Person with a name.
        pub struct Person {
            inner: Mutex<simple::Person>,
        }

        impl Person {
            /// Create new person with [name].
            ///
            /// Example of multiline comment.
            pub fn new(name: String) -> Self {
                Person {
                    inner: Mutex::new(simple::Person::new(&name)),
                }
            }

            /// Set person name.
            pub fn set_name(&self, name: String) {
                self.inner.lock().unwrap().set_name(&name);
            }

            /// Get person's name.
            ///
            /// Example of multiline comment.
            pub fn get_name(&self) -> String {
                self.inner.lock().unwrap().get_name().to_string()
            }
        }

        impl Animal for Person {
            fn eat(&self, food: String) -> String {
                format!(\"{} ate {food}.\", self.get_name())
            }
        }

        /// Create hello message to a pet.
        ///
        /// # Arguments
        ///
        /// - `pet` - pet to create a message to.
        ///
        /// # Returns
        ///
        /// Hello message to a pet.
        pub fn hello(pet: Pet) -> String {
            simple::hello(pet.into())
        }

        /// Enum description.
        pub enum SomeEnum {
            /// A letter 'A'.
            A,

            /// A letter 'B'.
            B,

            /// A letter 'C'.
            C,
        }

        /// Functionality common to animals.
        pub trait Animal {
            /// Get a message about the Animal eating.
            fn eat(&self, food: String) -> String;
        }
    "
    .to_string();

    let documentation = extract_documentation(&source_code).unwrap();
    let mut structures = Dictionary::new();

    let mut methods = Dictionary::new();
    methods.insert(
        "new".to_string(),
        Function {
            description: "
                Create new person with [name].

Example of multiline comment.
            "
            .trim()
            .to_string(),
            arguments_descriptions: Dictionary::new(),
            return_description: None,
        },
    );
    methods.insert(
        "set_name".to_string(),
        Function {
            description: "Set person name.".to_string(),
            arguments_descriptions: Dictionary::new(),
            return_description: None,
        },
    );
    methods.insert(
        "get_name".to_string(),
        Function {
            description: "
                Get person's name.

Example of multiline comment.
            "
            .trim()
            .to_string(),
            arguments_descriptions: Dictionary::new(),
            return_description: None,
        },
    );
    methods.insert(
        "eat".to_string(),
        Function {
            description: "
                Get a message about the Animal eating.
            "
            .trim()
            .to_string(),
            arguments_descriptions: Dictionary::new(),
            return_description: None,
        },
    );

    structures.insert(
        "Person".to_string(),
        Structure {
            description: "Person with a name.".to_string(),
            members: Dictionary::new(),
            methods,
        },
    );

    let mut members = Dictionary::new();
    members.insert("A".to_string(), "A letter 'A'.".to_string());
    members.insert("B".to_string(), "A letter 'B'.".to_string());
    members.insert("C".to_string(), "A letter 'C'.".to_string());

    structures.insert(
        "SomeEnum".to_string(),
        Structure {
            description: "Enum description.".to_string(),
            members,
            methods: Dictionary::new(),
        },
    );

    let mut arguments_descriptions = Dictionary::new();
    arguments_descriptions.insert("pet".to_string(), "pet to create a message to.".to_string());

    let mut functions = Dictionary::new();
    functions.insert(
        "hello".to_string(),
        Function {
            description: "Create hello message to a pet.\n".to_string(),
            arguments_descriptions,
            return_description: Some("Hello message to a pet.\n".to_string()),
        },
    );

    let mut methods = Dictionary::new();
    methods.insert(
        "eat".to_string(),
        Function {
            description: "
                Get a message about the Animal eating.
            "
            .trim()
            .to_string(),
            arguments_descriptions: Dictionary::new(),
            return_description: None,
        },
    );

    structures.insert(
        "Animal".to_string(),
        Structure {
            description: "Functionality common to animals.".to_string(),
            members: Dictionary::new(),
            methods,
        },
    );

    let expected = Documentation {
        functions,
        structures,
    };

    assert_eq!(documentation, expected);
}

#[test]
fn source_that_does_not_parse_is_an_error() {
    let result = extract_documentation("pub fn broken( {");
    assert!(result.is_err());
    assert!(!result.unwrap_err().message.is_empty());
}

#[test]
fn source_without_doc_comments_has_no_documentation() {
    let documentation = extract_documentation("pub fn plain() {}\npub struct Bare;").unwrap();
    assert_eq!(
        documentation,
        Documentation { functions: Dictionary::new(), structures: Dictionary::new() }
    );
}

#[test]
fn doc_comment_is_the_trimmed_doc_lines_joined() {
    let attrs = vec![
        doc(" First line. "),
        AttrMeta::Other,
        AttrMeta::NameValue { named_doc: false, text: Some("skipped".to_string()) },
        AttrMeta::NameValue { named_doc: true, text: None },
        doc(""),
        doc("\tLast line."),
    ];
    assert_eq!(
        extract_doc_comment(&attrs),
        Some("First line.\n\nLast line.".to_string())
    );
    assert_eq!(extract_doc_comment(&vec![AttrMeta::Other]), None);
    assert_eq!(extract_doc_comment(&Vec::new()), None);
}

#[test]
fn heading_titles_are_matched_without_case() {
    let result = Function::from_str("Does it.\n\n# ARGUMENTS\n\n- `a` - first.\n\n# RETURNS\n\nIt.\n");
    let mut arguments = Dictionary::new();
    arguments.insert("a".to_string(), "first.".to_string());
    assert_eq!(
        result,
        Function {
            description: "Does it.\n".to_string(),
            arguments_descriptions: arguments,
            return_description: Some("It.\n".to_string()),
        }
    );
}

#[test]
fn later_argument_of_the_same_name_counts() {
    let result = Function::from_str("Does it.\n\n# Arguments\n\n- `a` - first.\n- `a` - second.\n");
    assert_eq!(result.arguments_descriptions.len(), 1);
    assert_eq!(
        result.arguments_descriptions.get("a"),
        Some(&"second.".to_string())
    );
    assert_eq!(result.arguments_descriptions.get("b"), None);
    assert_eq!(result.return_description, None);
    assert_eq!(result.description, "Does it.\n");
}

#[test]
fn dictionary_keeps_one_value_for_each_name() {
    let mut map: Dictionary<String> = Dictionary::new();
    assert!(map.is_empty());
    map.insert("one".to_string(), "1".to_string());
    map.insert("two".to_string(), "2".to_string());
    map.insert("one".to_string(), "uno".to_string());
    assert_eq!(map.len(), 2);
    assert!(map.contains_key("one"));
    assert!(!map.contains_key("three"));
    assert_eq!(map.get("one"), Some(&"uno".to_string()));
    assert_eq!(map.remove("one"), Some("uno".to_string()));
    assert_eq!(map.remove("one"), None);
    assert_eq!(map.len(), 1);
    let mut other: Dictionary<String> = Dictionary::new();
    other.insert("two".to_string(), "dos".to_string());
    other.insert("three".to_string(), "tres".to_string());
    map.extend(other);
    assert_eq!(
        map.into_entries(),
        vec![
            ("three".to_string(), "tres".to_string()),
            ("two".to_string(), "dos".to_string())
        ]
    );
}

#[test]
fn trait_impl_takes_its_method_docs_from_the_trait() {
    let items = vec![
        SourceItem::Impl {
            target: Some("Cat".to_string()),
            of_trait: Some("Animal".to_string()),
            methods: vec![
                Member { name: Some("eat".to_string()), attrs: vec![doc(" Ignored. ")] },
                Member { name: Some("sleep".to_string()), attrs: vec![doc(" Also ignored. ")] },
            ],
        },
        SourceItem::Struct {
            name: "Cat".to_string(),
            attrs: vec![doc(" A cat. ")],
            fields: vec![
                Member { name: Some("name".to_string()), attrs: vec![doc(" Its name. ")] },
                Member { name: None, attrs: vec![doc(" Unnamed. ")] },
                Member { name: Some("age".to_string()), attrs: vec![] },
            ],
        },
        SourceItem::Impl {
            target: Some("Cat".to_string()),
            of_trait: None,
            methods: vec![
                Member { name: Some("purr".to_string()), attrs: vec![doc(" Purrs. ")] },
                Member { name: Some("hide".to_string()), attrs: vec![] },
            ],
        },
        SourceItem::Trait {
            name: "Animal".to_string(),
            attrs: vec![doc(" An animal. ")],
            methods: vec![Member { name: Some("eat".to_string()), attrs: vec![doc(" Eats. ")] }],
        },
        SourceItem::Impl {
            target: Some("Dog".to_string()),
            of_trait: None,
            methods: vec![Member { name: Some("bark".to_string()), attrs: vec![doc(" Barks. ")] }],
        },
        SourceItem::Module { name: "zoo".to_string() },
        SourceItem::Other,
    ];
    let documentation = Documentation::from_items(&items);

    let mut cat_members = Dictionary::new();
    cat_members.insert("name".to_string(), "Its name.".to_string());
    let mut cat_methods = Dictionary::new();
    cat_methods.insert("eat".to_string(), plain("Eats."));
    cat_methods.insert("purr".to_string(), plain("Purrs."));
    let mut animal_methods = Dictionary::new();
    animal_methods.insert("eat".to_string(), plain("Eats."));
    let mut structures = Dictionary::new();
    structures.insert(
        "Cat".to_string(),
        Structure { description: "A cat.".to_string(), members: cat_members, methods: cat_methods },
    );
    structures.insert(
        "Animal".to_string(),
        Structure {
            description: "An animal.".to_string(),
            members: Dictionary::new(),
            methods: animal_methods,
        },
    );
    assert_eq!(documentation, Documentation { functions: Dictionary::new(), structures });
}

#[test]
fn trait_takes_the_place_of_a_structure_of_its_name() {
    let items = vec![
        SourceItem::Enum {
            name: "Shape".to_string(),
            attrs: vec![doc(" An enum. ")],
            variants: vec![Member { name: Some("Round".to_string()), attrs: vec![doc(" Round. ")] }],
        },
        SourceItem::Trait { name: "Shape".to_string(), attrs: vec![doc(" A trait. ")], methods: vec![] },
        SourceItem::Function { name: "area".to_string(), attrs: vec![doc(" The area. ")] },
        SourceItem::Function { name: "area".to_string(), attrs: vec![doc(" The area again. ")] },
        SourceItem::Function { name: "bare".to_string(), attrs: vec![] },
    ];
    let documentation = Documentation::from_items(&items);
    let mut structures = Dictionary::new();
    structures.insert(
        "Shape".to_string(),
        Structure {
            description: "A trait.".to_string(),
            members: Dictionary::new(),
            methods: Dictionary::new(),
        },
    );
    let mut functions = Dictionary::new();
    functions.insert("area".to_string(), plain("The area again."));
    assert_eq!(documentation, Documentation { functions, structures });
}

#[test]
fn modules_of_a_source_file() {
    let items = parse_source("mod first;\n/// Documented.\npub fn f() {}\npub mod second;\nmod inline { }")
        .unwrap();
    assert_eq!(
        module_names(&items),
        vec!["first".to_string(), "second".to_string(), "inline".to_string()]
    );
    assert_eq!(items.len(), 4);
    assert_eq!(
        items[1],
        SourceItem::Function { name: "f".to_string(), attrs: vec![doc(" Documented.")] }
    );
    assert_eq!(
        module_files("second"),
        ("second.rs".to_string(), "second/mod.rs".to_string())
    );
}

#[test]
fn items_are_read_with_their_parts() {
    let items = parse_source(
        "#[derive(Debug)]\n/// A pair.\nstruct Pair(\n    /// Left.\n    u8,\n    u8);\n\
         impl<T> Holder for Vec<T> { const N: u8 = 0; fn get(&self) {} }\n\
         impl !Send for Pair {}\n\
         impl Holder for (u8, u8) {}\n\
         #[doc = 7]\nuse std::fmt;",
    )
    .unwrap();
    assert_eq!(
        items,
        vec![
            SourceItem::Struct {
                name: "Pair".to_string(),
                attrs: vec![AttrMeta::Other, doc(" A pair.")],
                fields: vec![
                    Member { name: None, attrs: vec![doc(" Left.")] },
                    Member { name: None, attrs: vec![] },
                ],
            },
            SourceItem::Impl {
                target: Some("Vec".to_string()),
                of_trait: Some("Holder".to_string()),
                methods: vec![
                    Member { name: None, attrs: vec![] },
                    Member { name: Some("get".to_string()), attrs: vec![] },
                ],
            },
            SourceItem::Impl {
                target: Some("Pair".to_string()),
                of_trait: None,
                methods: vec![],
            },
            SourceItem::Impl {
                target: None,
                of_trait: Some("Holder".to_string()),
                methods: vec![],
            },
            SourceItem::Other,
        ]
    );
}

#[test]
fn module_is_read_from_its_flat_file_first() {
    assert_eq!(choose_module_file(true, true), Some(ModuleFile::Flat));
    assert_eq!(choose_module_file(true, false), Some(ModuleFile::Flat));
    assert_eq!(choose_module_file(false, true), Some(ModuleFile::Nested));
    assert_eq!(choose_module_file(false, false), None);
}

#[test]
fn only_headings_of_the_first_level_start_a_part() {
    let comment = "Does it.\n\n## Arguments\n\n- `a` - first.\n\n### Returns\n\nIt.\n";
    assert_eq!(Function::from_str(comment), plain(comment));

    let events = vec![
        DocEvent::Text("Does it.".to_string()),
        DocEvent::Heading(2),
        DocEvent::Text("Not a part.".to_string()),
        DocEvent::Heading(1),
        DocEvent::Text("Arguments".to_string()),
        DocEvent::Code("a".to_string()),
        DocEvent::Text(" - first.".to_string()),
        DocEvent::Other,
        DocEvent::Heading(6),
        DocEvent::Heading(1),
        DocEvent::Text("returns".to_string()),
        DocEvent::Text("It.".to_string()),
        DocEvent::Heading(1),
        DocEvent::Text("More.".to_string()),
    ];
    let mut arguments = Dictionary::new();
    arguments.insert("a".to_string(), "first.".to_string());
    assert_eq!(
        Function::from_events("ignored", &events),
        Function {
            description: "Does it.\nNot a part.\n".to_string(),
            arguments_descriptions: arguments,
            return_description: Some("It.\nMore.\n".to_string()),
        }
    );
}

#[test]
fn white_space_of_every_kind_is_trimmed() {
    let attrs = vec![
        doc("\u{3000}\u{a0}\t first \u{2028}\u{85}\r\n"),
        doc("\u{1680}\u{2000}\u{200a}\u{202f}\u{205f}second\u{2029}\u{b}\u{c}"),
        doc("\u{200b}third\u{180e}"),
        doc(" \u{feff}fourth "),
    ];
    assert_eq!(
        extract_doc_comment(&attrs),
        Some("first\nsecond\n\u{200b}third\u{180e}\n\u{feff}fourth".to_string())
    );
}

#[test]
fn literals_of_every_kind_are_parsed() {
    let with_c_string = extract_documentation("/// Documented.\nfn f() { c\"x\"; cr#\"y\"#; b\"z\"; }");
    let mut functions = Dictionary::new();
    functions.insert("f".to_string(), plain("Documented."));
    assert_eq!(
        with_c_string,
        Ok(Documentation { functions, structures: Dictionary::new() })
    );
}

#[test]
fn attribute_values_that_are_no_string_give_no_doc_line() {
    let items = parse_source(
        "#[doc = c\"x\"]\n#[doc = 7]\n#[doc = concat!(\"a\", \"b\")]\n#[doc(hidden)]\n#[doc = \" Kept. \"]\nfn f() {}",
    )
    .unwrap();
    let no_text = AttrMeta::NameValue { named_doc: true, text: None };
    assert_eq!(
        items,
        vec![SourceItem::Function {
            name: "f".to_string(),
            attrs: vec![
                no_text.clone(),
                no_text.clone(),
                no_text,
                AttrMeta::Other,
                doc(" Kept. "),
            ],
        }]
    );
    let documentation = Documentation::from_items(&items);
    assert_eq!(documentation.functions.get("f"), Some(&plain("Kept.")));
}

#[test]
fn one_run_of_text_is_kept_or_passed_over() {
    let mut gathering = Gathering::new();
    gathering.take_text("Does it.", "does it.");
    gathering.take_text("Arguments", "arguments");
    assert_eq!(gathering.description, "Does it.\nArguments\n");
    gathering.stage = ParseStage::Arguments;
    gathering.take_text("Arguments", "arguments");
    gathering.take_text("ARGUMENTS", "arguments");
    gathering.take_text("arguments", "Arguments");
    gathering.take_text("Returns", "returns");
    assert_eq!(gathering.values, vec!["arguments".to_string(), "Returns".to_string()]);
    gathering.stage = ParseStage::ReturnDescription;
    gathering.take_text("Returns", "returns");
    gathering.take_text("Arguments", "arguments");
    gathering.take_text("It.", "it.");
    assert_eq!(gathering.returned, "Arguments\nIt.\n");
    assert_eq!(gathering.description, "Does it.\nArguments\n");
    assert!(gathering.names.is_empty());

    let mut gathering = Gathering::new();
    gathering.take(&DocEvent::Heading(1));
    gathering.take(&DocEvent::Text("ArGuMeNtS".to_string()));
    gathering.take(&DocEvent::Code("a".to_string()));
    gathering.take(&DocEvent::Text("first".to_string()));
    assert_eq!(gathering.stage, ParseStage::Arguments);
    assert_eq!(gathering.names, vec!["a".to_string()]);
    assert_eq!(gathering.values, vec!["first".to_string()]);
}

#[test]
fn attribute_that_is_no_meta_item_fails_the_parse() {
    assert!(parse_source("#[foo bar]\nfn f() {}").is_err());
    assert!(parse_source("#[foo(bar baz)]\nfn f() {}").is_ok());
}
