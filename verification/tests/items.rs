use symbol_finder::item::{
    IsRelevant, Item, ItemDisplay, ItemFn, ItemImpl, ItemMod, ItemNamed, ItemSource, Position,
};

fn at(line: usize, column: usize) -> Position {
    Position { line, column }
}

fn text(s: &str) -> Option<String> {
    Some(s.to_string())
}

fn named(vis: Option<&str>, ident: &str) -> ItemNamed {
    ItemNamed { vis: vis.map(|v| v.to_string()), ident: ident.to_string(), ident_start: at(1, 1) }
}

fn source(t: Option<&str>) -> ItemSource {
    ItemSource { text: t.map(|v| v.to_string()), start: at(1, 1) }
}

#[test]
fn public_function_is_labelled_with_visibility_and_signature() {
    let item = Item::Fn(ItemFn {
        vis: text("pub"),
        sig: text("fn add(a: i32, b: i32) -> i32"),
        sig_start: at(5, 1),
    });
    assert_eq!(item.display(), "pub fn add(a: i32, b: i32) -> i32");
}

#[test]
fn private_function_is_labelled_with_signature_alone() {
    let item = Item::Fn(ItemFn { vis: None, sig: text("fn helper()"), sig_start: at(2, 0) });
    assert_eq!(item.display(), "fn helper()");
}

#[test]
fn restricted_visibility_is_kept_as_written() {
    let item = Item::Fn(ItemFn {
        vis: text("pub(crate)"),
        sig: text("async fn go(&self)"),
        sig_start: at(2, 0),
    });
    assert_eq!(item.display(), "pub(crate) async fn go(&self)");
}

#[test]
fn function_without_source_text_gets_the_placeholder() {
    let bare = Item::Fn(ItemFn { vis: None, sig: None, sig_start: at(0, 0) });
    assert_eq!(bare.display(), "MISSING SOURCE TEXT");
    let public = Item::Fn(ItemFn { vis: text("pub"), sig: None, sig_start: at(0, 0) });
    assert_eq!(public.display(), "pub MISSING SOURCE TEXT");
}

#[test]
fn module_is_labelled_with_keyword_and_name() {
    let private = Item::Mod(ItemMod {
        vis: None,
        ident: "inner".to_string(),
        ident_start: at(3, 4),
        content: None,
    });
    assert_eq!(private.display(), "mod inner");
    let public = Item::Mod(ItemMod {
        vis: text("pub"),
        ident: "api".to_string(),
        ident_start: at(3, 8),
        content: Some(Vec::new()),
    });
    assert_eq!(public.display(), "pub mod api");
}

#[test]
fn named_kinds_are_labelled_with_their_keyword() {
    assert_eq!(Item::Enum(named(Some("pub"), "Error")).display(), "pub enum Error");
    assert_eq!(Item::Enum(named(None, "Kind")).display(), "enum Kind");
    assert_eq!(Item::Trait(named(Some("pub"), "IsRelevant")).display(), "pub trait IsRelevant");
    assert_eq!(Item::Trait(named(None, "Local")).display(), "trait Local");
    assert_eq!(Item::Struct(named(Some("pub"), "Ref")).display(), "pub struct Ref");
    assert_eq!(Item::Struct(named(None, "Bar")).display(), "struct Bar");
}

#[test]
fn union_is_labelled_like_the_other_named_kinds() {
    assert_eq!(Item::Union(named(Some("pub"), "Bits")).display(), "pub union Bits");
    assert_eq!(Item::Union(named(None, "Raw")).display(), "union Raw");
}

#[test]
fn verbatim_kinds_are_labelled_with_their_source() {
    assert_eq!(Item::Use(source(Some("use std::fmt;"))).display(), "use std::fmt;");
    assert_eq!(
        Item::Type(source(Some("pub type Result<T> = std::result::Result<T, Error>;"))).display(),
        "pub type Result<T> = std::result::Result<T, Error>;"
    );
    assert_eq!(Item::Const(source(Some("const N: usize = 3;"))).display(), "const N: usize = 3;");
    assert_eq!(
        Item::Static(source(Some("static mut COUNT: u8 = 0;"))).display(),
        "static mut COUNT: u8 = 0;"
    );
    assert_eq!(
        Item::Macro(source(Some("macro_rules! square { ($x:expr) => { $x * $x }; }"))).display(),
        "macro_rules! square { ($x:expr) => { $x * $x }; }"
    );
}

#[test]
fn verbatim_kinds_without_source_are_unknown() {
    assert_eq!(Item::Use(source(None)).display(), "UNKNOWN");
    assert_eq!(Item::Type(source(None)).display(), "UNKNOWN");
    assert_eq!(Item::Const(source(None)).display(), "UNKNOWN");
    assert_eq!(Item::Static(source(None)).display(), "UNKNOWN");
    assert_eq!(Item::Macro(source(None)).display(), "UNKNOWN");
}

#[test]
fn trait_implementation_names_trait_and_type() {
    let item = Item::Impl(ItemImpl {
        trait_: Some(text("Display")),
        self_ty: text("Error"),
        self_ty_start: at(16, 22),
    });
    assert_eq!(item.display(), "impl Display for Error");
}

#[test]
fn inherent_implementation_names_the_type() {
    let item =
        Item::Impl(ItemImpl { trait_: None, self_ty: text("App"), self_ty_start: at(9, 5) });
    assert_eq!(item.display(), "impl App");
}

#[test]
fn implementation_without_source_is_unknown() {
    let both = Item::Impl(ItemImpl { trait_: Some(None), self_ty: None, self_ty_start: at(0, 0) });
    assert_eq!(both.display(), "impl UNKNOWN for UNKNOWN");
    let ty = Item::Impl(ItemImpl { trait_: None, self_ty: None, self_ty_start: at(0, 0) });
    assert_eq!(ty.display(), "impl UNKNOWN");
    let tr = Item::Impl(ItemImpl {
        trait_: Some(None),
        self_ty: text("Vec<T>"),
        self_ty_start: at(0, 0),
    });
    assert_eq!(tr.display(), "impl UNKNOWN for Vec<T>");
}

#[test]
fn four_kinds_are_not_catalogued() {
    assert!(!Item::TraitAlias.is_relevant());
    assert!(!Item::Verbatim.is_relevant());
    assert!(!Item::ForeignMod.is_relevant());
    assert!(!Item::ExternCrate.is_relevant());
    assert_eq!(Item::TraitAlias.display(), "IRRELEVANT");
    assert_eq!(Item::Verbatim.display(), "IRRELEVANT");
    assert_eq!(Item::ForeignMod.display(), "IRRELEVANT");
    assert_eq!(Item::ExternCrate.display(), "IRRELEVANT");
}

#[test]
fn every_other_kind_is_catalogued() {
    let items = vec![
        Item::Fn(ItemFn { vis: None, sig: None, sig_start: at(1, 1) }),
        Item::Mod(ItemMod { vis: None, ident: "m".to_string(), ident_start: at(1, 1), content: None }),
        Item::Enum(named(None, "E")),
        Item::Trait(named(None, "T")),
        Item::Struct(named(None, "S")),
        Item::Union(named(None, "U")),
        Item::Use(source(None)),
        Item::Type(source(None)),
        Item::Const(source(None)),
        Item::Static(source(None)),
        Item::Macro(source(None)),
        Item::Impl(ItemImpl { trait_: None, self_ty: None, self_ty_start: at(1, 1) }),
    ];
    assert_eq!(items.len(), 12);
    for item in &items {
        assert!(item.is_relevant());
    }
}

#[test]
fn position_is_that_of_the_defining_token() {
    let f = Item::Fn(ItemFn { vis: text("pub"), sig: text("fn f()"), sig_start: at(7, 5) });
    assert_eq!(f.start(), at(7, 5));
    let m = Item::Mod(ItemMod {
        vis: None,
        ident: "m".to_string(),
        ident_start: at(8, 5),
        content: None,
    });
    assert_eq!(m.start(), at(8, 5));
    let s = Item::Struct(ItemNamed {
        vis: text("pub"),
        ident: "S".to_string(),
        ident_start: at(9, 12),
    });
    assert_eq!(s.start(), at(9, 12));
    let u = Item::Use(ItemSource { text: text("use a::b;"), start: at(1, 1) });
    assert_eq!(u.start(), at(1, 1));
    let i = Item::Impl(ItemImpl { trait_: None, self_ty: text("S"), self_ty_start: at(11, 6) });
    assert_eq!(i.start(), at(11, 6));
    assert_eq!(Item::Verbatim.start(), at(0, 0));
}

#[test]
fn empty_text_counts_as_missing() {
    let f = Item::Fn(ItemFn { vis: text(""), sig: text(""), sig_start: at(1, 1) });
    assert_eq!(f.display(), "MISSING SOURCE TEXT");
    let g = Item::Fn(ItemFn { vis: text(""), sig: text("fn g()"), sig_start: at(1, 1) });
    assert_eq!(g.display(), "fn g()");
    assert_eq!(Item::Struct(named(Some(""), "S")).display(), "struct S");
    assert_eq!(Item::Static(source(Some(""))).display(), "UNKNOWN");
    let i = Item::Impl(ItemImpl {
        trait_: Some(text("")),
        self_ty: text(""),
        self_ty_start: at(1, 1),
    });
    assert_eq!(i.display(), "impl UNKNOWN for UNKNOWN");
}
