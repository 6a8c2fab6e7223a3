use symbol_finder::error::Error;
use symbol_finder::item::{Item, ItemFn, ItemImpl, ItemMod, ItemNamed, ItemSource, Position};
use symbol_finder::symbol::{find_refs, recursive_find_refs, Parsed, Ref, SourceFile};
use syn::spanned::Spanned;

fn function(name: &str, line: usize) -> Item {
    Item::Fn(ItemFn {
        vis: None,
        sig: Some(format!("fn {}()", name)),
        sig_start: Position { line, column: 1 },
    })
}

fn structure(name: &str, line: usize) -> Item {
    Item::Struct(ItemNamed {
        vis: None,
        ident: name.to_string(),
        ident_start: Position { line, column: 8 },
    })
}

fn module(name: &str, line: usize, content: Option<Vec<Item>>) -> Item {
    Item::Mod(ItemMod {
        vis: None,
        ident: name.to_string(),
        ident_start: Position { line, column: 5 },
        content,
    })
}

fn record(line: usize, column: usize, file: &str, sig: &str) -> Ref {
    Ref { line, column, file: file.to_string(), sig: sig.to_string() }
}

fn parsed_file(path: &str, items: Vec<Item>) -> SourceFile {
    SourceFile { path: path.to_string(), parsed: Parsed::Items(items) }
}

#[test]
fn one_public_function_yields_one_record() {
    let source = "\n\n\n\npub fn add(a: i32, b: i32) -> i32 { a + b }\n";
    let parsed = syn::parse_file(source).unwrap();
    assert_eq!(parsed.items.len(), 1);
    let item = match &parsed.items[0] {
        syn::Item::Fn(f) => {
            let at = f.sig.span().start();
            Item::Fn(ItemFn {
                vis: f.vis.span().source_text(),
                sig: f.sig.span().source_text(),
                sig_start: Position::from_parser(at.line, at.column),
            })
        }
        _ => panic!("the file holds a function"),
    };
    let files = vec![parsed_file("src/math.rs", vec![item])];
    let refs = find_refs(&files).unwrap();
    assert_eq!(refs.len(), 1);
    assert_eq!(refs[0].sig, "pub fn add(a: i32, b: i32) -> i32");
    assert_eq!(refs[0].file, "src/math.rs");
    assert_eq!(refs[0].line, 5);
    // The signature starts behind the visibility, at the keyword `fn`.
    assert_eq!(refs[0].column, 5);
}

#[test]
fn places_from_the_parser_count_columns_from_one() {
    assert_eq!(Position::from_parser(5, 0), Position { line: 5, column: 1 });
    assert_eq!(Position::from_parser(1, 4), Position { line: 1, column: 5 });
    assert_eq!(Position::from_parser(0, 0), Position { line: 0, column: 1 });
    assert_eq!(
        Position::from_parser(7, usize::MAX - 1),
        Position { line: 7, column: usize::MAX }
    );
    assert_eq!(Position::from_parser(7, usize::MAX), Position { line: 7, column: usize::MAX });
}

#[test]
fn no_record_is_without_a_label() {
    let items = vec![
        Item::Fn(ItemFn {
            vis: Some(String::new()),
            sig: Some(String::new()),
            sig_start: Position { line: 1, column: 1 },
        }),
        Item::Use(ItemSource { text: Some(String::new()), start: Position { line: 2, column: 1 } }),
        Item::Const(ItemSource { text: None, start: Position { line: 3, column: 1 } }),
        Item::Impl(ItemImpl {
            trait_: Some(Some(String::new())),
            self_ty: Some(String::new()),
            self_ty_start: Position { line: 4, column: 6 },
        }),
    ];
    let refs = find_refs(&vec![parsed_file("e.rs", items)]).unwrap();
    let sigs: Vec<&str> = refs.iter().map(|r| r.sig.as_str()).collect();
    assert_eq!(
        sigs,
        vec!["MISSING SOURCE TEXT", "UNKNOWN", "UNKNOWN", "impl UNKNOWN for UNKNOWN"]
    );
    assert!(refs.iter().all(|r| !r.sig.is_empty()));
}

#[test]
fn record_is_made_from_label_position_and_file() {
    let item = structure("Bar", 12);
    let r = Ref::from((&item, "/p/foo.rs"));
    assert_eq!(r, record(12, 8, "/p/foo.rs", "struct Bar"));
}

#[test]
fn record_of_an_implementation_points_at_the_type() {
    let item = Item::Impl(ItemImpl {
        trait_: Some(Some("Clone".to_string())),
        self_ty: Some("Ref".to_string()),
        self_ty_start: Position { line: 40, column: 16 },
    });
    let r = Ref::from((&item, "a.rs"));
    assert_eq!(r, record(40, 16, "a.rs", "impl Clone for Ref"));
}

#[test]
fn record_without_source_text_carries_the_placeholder() {
    let item = Item::Const(ItemSource { text: None, start: Position { line: 0, column: 0 } });
    let r = Ref::from((&item, "a.rs"));
    assert_eq!(r.sig, "UNKNOWN");
    assert!(!r.sig.is_empty());
}

#[test]
fn inline_module_contributes_itself_then_its_body() {
    let tree = module(
        "a",
        1,
        Some(vec![
            function("f", 2),
            module("b", 3, Some(vec![structure("S", 4)])),
            structure("E", 6),
        ]),
    );
    let mut refs = Vec::new();
    recursive_find_refs(&tree, &mut refs, "lib.rs");
    recursive_find_refs(&function("g", 8), &mut refs, "lib.rs");
    let sigs: Vec<&str> = refs.iter().map(|r| r.sig.as_str()).collect();
    assert_eq!(sigs, vec!["mod a", "fn f()", "mod b", "struct S", "struct E", "fn g()"]);
    let lines: Vec<usize> = refs.iter().map(|r| r.line).collect();
    assert_eq!(lines, vec![1, 2, 3, 4, 6, 8]);
    assert!(refs.iter().all(|r| r.file == "lib.rs"));
}

#[test]
fn module_in_another_file_contributes_itself_alone() {
    let mut refs = Vec::new();
    recursive_find_refs(&module("elsewhere", 3, None), &mut refs, "lib.rs");
    assert_eq!(refs, vec![record(3, 5, "lib.rs", "mod elsewhere")]);
}

#[test]
fn empty_inline_module_contributes_itself_alone() {
    let mut refs = Vec::new();
    recursive_find_refs(&module("empty", 3, Some(Vec::new())), &mut refs, "lib.rs");
    assert_eq!(refs, vec![record(3, 5, "lib.rs", "mod empty")]);
}

#[test]
fn records_are_appended_after_those_already_there() {
    let mut refs = vec![record(1, 1, "x.rs", "fn first()")];
    recursive_find_refs(&function("second", 2), &mut refs, "y.rs");
    assert_eq!(refs, vec![record(1, 1, "x.rs", "fn first()"), record(2, 1, "y.rs", "fn second()")]);
}

#[test]
fn kinds_that_are_not_catalogued_yield_nothing_and_stop_nothing() {
    let items = vec![
        Item::ExternCrate,
        function("a", 2),
        Item::ForeignMod,
        Item::Verbatim,
        module("m", 5, Some(vec![Item::TraitAlias, function("b", 7)])),
        Item::TraitAlias,
    ];
    let refs = find_refs(&vec![parsed_file("k.rs", items)]).unwrap();
    let sigs: Vec<&str> = refs.iter().map(|r| r.sig.as_str()).collect();
    assert_eq!(sigs, vec!["fn a()", "mod m", "fn b()"]);
}

#[test]
fn catalogue_follows_the_order_of_the_files() {
    let files = vec![
        parsed_file("b.rs", vec![function("b1", 1), function("b2", 2)]),
        parsed_file("empty.rs", Vec::new()),
        parsed_file("a.rs", vec![function("a1", 1)]),
    ];
    let refs = find_refs(&files).unwrap();
    assert_eq!(
        refs,
        vec![
            record(1, 1, "b.rs", "fn b1()"),
            record(2, 1, "b.rs", "fn b2()"),
            record(1, 1, "a.rs", "fn a1()"),
        ]
    );
}

#[test]
fn no_file_gives_an_empty_catalogue() {
    assert_eq!(find_refs(&Vec::new()), Ok(Vec::new()));
}

#[test]
fn unreadable_file_fails_the_build() {
    let files = vec![
        parsed_file("a.rs", vec![function("a", 1)]),
        SourceFile {
            path: "gone.rs".to_string(),
            parsed: Parsed::Unreadable("No such file or directory".to_string()),
        },
        parsed_file("b.rs", vec![function("b", 1)]),
    ];
    assert_eq!(find_refs(&files), Err(Error::Io("No such file or directory".to_string())));
}

#[test]
fn malformed_file_fails_the_build() {
    let files = vec![SourceFile {
        path: "bad.rs".to_string(),
        parsed: Parsed::Malformed("expected identifier".to_string()),
    }];
    assert_eq!(find_refs(&files), Err(Error::Syn("expected identifier".to_string())));
}

#[test]
fn first_failure_is_the_one_reported() {
    let files = vec![
        SourceFile { path: "bad.rs".to_string(), parsed: Parsed::Malformed("first".to_string()) },
        SourceFile { path: "gone.rs".to_string(), parsed: Parsed::Unreadable("second".to_string()) },
    ];
    assert_eq!(find_refs(&files), Err(Error::Syn("first".to_string())));
}

#[test]
fn extracting_twice_gives_the_same_records() {
    let files = vec![
        parsed_file(
            "a.rs",
            vec![module("m", 1, Some(vec![function("f", 2), structure("S", 3)])), function("g", 5)],
        ),
        parsed_file("b.rs", vec![structure("T", 1)]),
    ];
    let once = find_refs(&files).unwrap();
    let twice = find_refs(&files).unwrap();
    assert_eq!(once.len(), 5);
    assert_eq!(once, twice);
}

#[test]
fn record_clone_is_equal() {
    let r = record(3, 4, "f.rs", "fn f()");
    assert_eq!(r.clone(), r);
}

#[test]
fn default_record_is_blank() {
    assert_eq!(Ref::default(), record(0, 0, "", ""));
}
