//! Declarations as the finder sees them: a closed set of kinds, each holding
//! the pieces of source text and the position from which a record is made.

use vstd::prelude::*;

verus! {

/// A place in a source file. Lines and columns are both counted from one.
#[derive(Debug, Clone, Copy, PartialEq, Eq, Hash, Default, Structural)]
pub struct Position {
    pub line: usize,
    pub column: usize,
}

impl Position {
    /// The place that a parser reports which counts lines from one and
    /// columns from zero. The last column that the machine can count stays
    /// what it is.
    pub open spec fn parsed(line: usize, column: usize) -> Position {
        Position {
            line,
            column: if column < usize::MAX {
                (column + 1) as usize
            } else {
                column
            },
        }
    }

    /// Takes a place from a parser that counts lines from one and columns
    /// from zero.
    pub fn from_parser(line: usize, column: usize) -> (res: Position)
        ensures
            res == Position::parsed(line, column),
    {
        if column < usize::MAX {
            Position { line, column: column + 1 }
        } else {
            Position { line, column }
        }
    }
}

/// A function: its visibility and its signature as written, and where the
/// signature starts.
#[derive(Debug, PartialEq, Eq)]
pub struct ItemFn {
    pub vis: Option<String>,
    pub sig: Option<String>,
    pub sig_start: Position,
}

/// An enum, trait, struct or union: its visibility as written, its name, and
/// where the name starts.
#[derive(Debug, PartialEq, Eq)]
pub struct ItemNamed {
    pub vis: Option<String>,
    pub ident: String,
    pub ident_start: Position,
}

/// A module. `content` is `None` for a module whose body lives in another
/// file, and holds the declarations of an inline body otherwise.
#[derive(Debug, PartialEq, Eq)]
pub struct ItemMod {
    pub vis: Option<String>,
    pub ident: String,
    pub ident_start: Position,
    pub content: Option<Vec<Item>>,
}

/// An import, type alias, constant, static or macro: the whole declaration
/// as written, and where its defining token starts. That token is the name
/// or, for an import, the keyword; visibility and attributes come before it.
#[derive(Debug, PartialEq, Eq)]
pub struct ItemSource {
    pub text: Option<String>,
    pub start: Position,
}

/// An implementation block. `trait_` is `None` for an inherent block; for a
/// trait's block it holds the last segment of the trait's path as written.
/// `self_ty` is the implementing type as written, `self_ty_start` its place.
#[derive(Debug, PartialEq, Eq)]
pub struct ItemImpl {
    pub trait_: Option<Option<String>>,
    pub self_ty: Option<String>,
    pub self_ty_start: Position,
}

/// One declaration of a source file.
#[derive(Debug, PartialEq, Eq)]
pub enum Item {
    Fn(ItemFn),
    Mod(ItemMod),
    Enum(ItemNamed),
    Trait(ItemNamed),
    Struct(ItemNamed),
    Union(ItemNamed),
    Use(ItemSource),
    Type(ItemSource),
    Const(ItemSource),
    Static(ItemSource),
    Macro(ItemSource),
    Impl(ItemImpl),
    TraitAlias,
    Verbatim,
    ForeignMod,
    ExternCrate,
}

/// A piece of source text that may be missing, as a plain value.
pub open spec fn text_view(text: Option<String>) -> Option<Seq<char>> {
    match text {
        Some(t) => Some(t@),
        None => None,
    }
}

/// A function as a plain value.
pub struct ItemFnView {
    pub vis: Option<Seq<char>>,
    pub sig: Option<Seq<char>>,
    pub sig_start: Position,
}

impl View for ItemFn {
    type V = ItemFnView;

    open spec fn view(&self) -> ItemFnView {
        ItemFnView { vis: text_view(self.vis), sig: text_view(self.sig), sig_start: self.sig_start }
    }
}

/// An enum, trait, struct or union as a plain value.
pub struct ItemNamedView {
    pub vis: Option<Seq<char>>,
    pub ident: Seq<char>,
    pub ident_start: Position,
}

impl View for ItemNamed {
    type V = ItemNamedView;

    open spec fn view(&self) -> ItemNamedView {
        ItemNamedView {
            vis: text_view(self.vis),
            ident: self.ident@,
            ident_start: self.ident_start,
        }
    }
}

/// A module as a plain value.
pub struct ItemModView {
    pub vis: Option<Seq<char>>,
    pub ident: Seq<char>,
    pub ident_start: Position,
    pub content: Option<Seq<ItemView>>,
}

/// An import, type alias, constant, static or macro as a plain value.
pub struct ItemSourceView {
    pub text: Option<Seq<char>>,
    pub start: Position,
}

impl View for ItemSource {
    type V = ItemSourceView;

    open spec fn view(&self) -> ItemSourceView {
        ItemSourceView { text: text_view(self.text), start: self.start }
    }
}

/// An implementation block as a plain value.
pub struct ItemImplView {
    pub trait_: Option<Option<Seq<char>>>,
    pub self_ty: Option<Seq<char>>,
    pub self_ty_start: Position,
}

impl View for ItemImpl {
    type V = ItemImplView;

    open spec fn view(&self) -> ItemImplView {
        ItemImplView {
            trait_: match self.trait_ {
                Some(t) => Some(text_view(t)),
                None => None,
            },
            self_ty: text_view(self.self_ty),
            self_ty_start: self.self_ty_start,
        }
    }
}

/// A declaration as a plain value.
pub enum ItemView {
    Fn(ItemFnView),
    Mod(ItemModView),
    Enum(ItemNamedView),
    Trait(ItemNamedView),
    Struct(ItemNamedView),
    Union(ItemNamedView),
    Use(ItemSourceView),
    Type(ItemSourceView),
    Const(ItemSourceView),
    Static(ItemSourceView),
    Macro(ItemSourceView),
    Impl(ItemImplView),
    TraitAlias,
    Verbatim,
    ForeignMod,
    ExternCrate,
}

/// A declaration as a plain value, its inline body included.
pub open spec fn item_view(item: Item) -> ItemView
    decreases item, 0nat,
{
    match item {
        Item::Fn(f) => ItemView::Fn(f@),
        Item::Mod(m) => ItemView::Mod(
            ItemModView {
                vis: text_view(m.vis),
                ident: m.ident@,
                ident_start: m.ident_start,
                content: match m.content {
                    Some(c) => Some(items_view(c@, c@.len())),
                    None => None,
                },
            },
        ),
        Item::Enum(n) => ItemView::Enum(n@),
        Item::Trait(n) => ItemView::Trait(n@),
        Item::Struct(n) => ItemView::Struct(n@),
        Item::Union(n) => ItemView::Union(n@),
        Item::Use(s) => ItemView::Use(s@),
        Item::Type(s) => ItemView::Type(s@),
        Item::Const(s) => ItemView::Const(s@),
        Item::Static(s) => ItemView::Static(s@),
        Item::Macro(s) => ItemView::Macro(s@),
        Item::Impl(i) => ItemView::Impl(i@),
        Item::TraitAlias => ItemView::TraitAlias,
        Item::Verbatim => ItemView::Verbatim,
        Item::ForeignMod => ItemView::ForeignMod,
        Item::ExternCrate => ItemView::ExternCrate,
    }
}

/// The first `n` of `items` as plain values.
pub open spec fn items_view(items: Seq<Item>, n: nat) -> Seq<ItemView>
    decreases items, n,
{
    if n == 0 || n > items.len() {
        Seq::empty()
    } else {
        items_view(items, (n - 1) as nat).push(item_view(items[n - 1]))
    }
}

impl View for Item {
    type V = ItemView;

    open spec fn view(&self) -> ItemView {
        item_view(*self)
    }
}

/// Declarations as plain values, one for one.
pub open spec fn views(items: Seq<Item>) -> Seq<ItemView> {
    items_view(items, items.len())
}

/// `views` keeps length and order.
pub proof fn lemma_views(items: Seq<Item>)
    ensures
        views(items).len() == items.len(),
        forall|i: int| 0 <= i < items.len() ==> #[trigger] views(items)[i] == items[i]@,
{
    lemma_items_view(items, items.len());
}

/// The first `n` of `items` as plain values keep length and order.
proof fn lemma_items_view(items: Seq<Item>, n: nat)
    requires
        n <= items.len(),
    ensures
        items_view(items, n).len() == n,
        forall|i: int| 0 <= i < n ==> #[trigger] items_view(items, n)[i] == items[i]@,
    decreases n,
{
    if n > 0 {
        lemma_items_view(items, (n - 1) as nat);
    }
}

/// The label of a declaration whose kind is not catalogued.
pub open spec fn irrelevant_label() -> Seq<char> {
    "IRRELEVANT"@
}

/// The text that stands for a signature that the source does not give.
pub open spec fn missing_signature() -> Seq<char> {
    "MISSING SOURCE TEXT"@
}

/// The text that stands for any other piece that the source does not give.
pub open spec fn unknown_text() -> Seq<char> {
    "UNKNOWN"@
}

/// A piece of source text that is there: given, and not empty.
pub open spec fn present(text: Option<Seq<char>>) -> bool {
    text matches Some(t) && t.len() > 0
}

/// A visibility as it leads a label: the keyword and one space, or nothing
/// where no visibility is written.
pub open spec fn vis_prefix(vis: Option<Seq<char>>) -> Seq<char> {
    if present(vis) {
        vis->0 + " "@
    } else {
        Seq::empty()
    }
}

/// A piece of source text, or `fallback` where the source does not give
/// it. A text that is given but empty counts as not given.
pub open spec fn text_or(text: Option<Seq<char>>, fallback: Seq<char>) -> Seq<char> {
    if present(text) {
        text->0
    } else {
        fallback
    }
}

impl ItemFnView {
    /// Visibility, then the signature as written.
    pub open spec fn label(self) -> Seq<char> {
        vis_prefix(self.vis) + text_or(self.sig, missing_signature())
    }
}

impl ItemNamedView {
    /// Visibility, then `keyword`, then the name.
    pub open spec fn label(self, keyword: Seq<char>) -> Seq<char> {
        vis_prefix(self.vis) + keyword + " "@ + self.ident
    }
}

impl ItemModView {
    /// Visibility, then `mod`, then the name.
    pub open spec fn label(self) -> Seq<char> {
        vis_prefix(self.vis) + "mod "@ + self.ident
    }
}

impl ItemSourceView {
    /// The declaration as written.
    pub open spec fn label(self) -> Seq<char> {
        text_or(self.text, unknown_text())
    }
}

impl ItemImplView {
    /// `impl Trait for Type`, or `impl Type` for an inherent block.
    pub open spec fn label(self) -> Seq<char> {
        match self.trait_ {
            Some(t) => "impl "@ + text_or(t, unknown_text()) + " for "@ + text_or(
                self.self_ty,
                unknown_text(),
            ),
            None => "impl "@ + text_or(self.self_ty, unknown_text()),
        }
    }
}

impl ItemView {
    /// Whether the declaration belongs in the catalogue.
    pub open spec fn relevant(self) -> bool {
        !(self is TraitAlias || self is Verbatim || self is ForeignMod || self is ExternCrate)
    }

    /// The one-line label under which the declaration is listed and searched.
    pub open spec fn label(self) -> Seq<char> {
        match self {
            ItemView::Fn(f) => f.label(),
            ItemView::Mod(m) => m.label(),
            ItemView::Enum(n) => n.label("enum"@),
            ItemView::Trait(n) => n.label("trait"@),
            ItemView::Struct(n) => n.label("struct"@),
            ItemView::Union(n) => n.label("union"@),
            ItemView::Use(s) => s.label(),
            ItemView::Type(s) => s.label(),
            ItemView::Const(s) => s.label(),
            ItemView::Static(s) => s.label(),
            ItemView::Macro(s) => s.label(),
            ItemView::Impl(i) => i.label(),
            _ => irrelevant_label(),
        }
    }

    /// Where the declaration's defining token starts. For a kind that is not
    /// catalogued there is no such place, and the origin stands in.
    pub open spec fn position(self) -> Position {
        match self {
            ItemView::Fn(f) => f.sig_start,
            ItemView::Mod(m) => m.ident_start,
            ItemView::Enum(n) => n.ident_start,
            ItemView::Trait(n) => n.ident_start,
            ItemView::Struct(n) => n.ident_start,
            ItemView::Union(n) => n.ident_start,
            ItemView::Use(s) => s.start,
            ItemView::Type(s) => s.start,
            ItemView::Const(s) => s.start,
            ItemView::Static(s) => s.start,
            ItemView::Macro(s) => s.start,
            ItemView::Impl(i) => i.self_ty_start,
            _ => Position { line: 0, column: 0 },
        }
    }
}

/// A label is never empty: whatever the kind, and whatever the source
/// gives, a keyword, a placeholder or the text as written stands in it.
pub proof fn label_is_not_empty(item: ItemView)
    ensures
        item.label().len() > 0,
{
    reveal_strlit("IRRELEVANT");
    reveal_strlit("MISSING SOURCE TEXT");
    reveal_strlit("UNKNOWN");
    reveal_strlit(" ");
    reveal_strlit("mod ");
    reveal_strlit("impl ");
}

impl Item {
    /// Reads off the place that `position` names.
    pub fn start(&self) -> (res: Position)
        ensures
            res == self@.position(),
    {
        match self {
            Item::Fn(f) => f.sig_start,
            Item::Mod(m) => m.ident_start,
            Item::Enum(n) => n.ident_start,
            Item::Trait(n) => n.ident_start,
            Item::Struct(n) => n.ident_start,
            Item::Union(n) => n.ident_start,
            Item::Use(s) => s.start,
            Item::Type(s) => s.start,
            Item::Const(s) => s.start,
            Item::Static(s) => s.start,
            Item::Macro(s) => s.start,
            Item::Impl(i) => i.self_ty_start,
            _ => Position { line: 0, column: 0 },
        }
    }
}

/// Sorts declarations into those that are catalogued and those that are not.
pub trait IsRelevant {
    spec fn relevant_spec(&self) -> bool;

    fn is_relevant(&self) -> (res: bool)
        ensures
            res == self.relevant_spec(),
    ;
}

impl IsRelevant for Item {
    open spec fn relevant_spec(&self) -> bool {
        self@.relevant()
    }

    fn is_relevant(&self) -> (res: bool) {
        !matches!(self, Item::TraitAlias | Item::Verbatim | Item::ForeignMod | Item::ExternCrate)
    }
}

/// Renders a declaration as the one line under which it is listed. The
/// line is never empty.
pub trait ItemDisplay {
    spec fn display_spec(&self) -> Seq<char>;

    fn display(&self) -> (res: String)
        ensures
            res@ == self.display_spec(),
            res@.len() > 0,
    ;
}

/// A visibility as it leads a label.
fn with_vis(vis: &Option<String>) -> (res: String)
    ensures
        res@ == vis_prefix(text_view(*vis)),
{
    match vis {
        Some(v) => if v.as_str().is_empty() {
            String::new()
        } else {
            v.clone().concat(" ")
        },
        None => String::new(),
    }
}

/// A piece of source text, or `fallback` in its place.
fn or_text(text: &Option<String>, fallback: &str) -> (res: String)
    ensures
        res@ == text_or(text_view(*text), fallback@),
{
    match text {
        Some(t) => if t.as_str().is_empty() {
            fallback.to_owned()
        } else {
            t.clone()
        },
        None => fallback.to_owned(),
    }
}

/// The label of an enum, trait, struct or union.
fn named(item: &ItemNamed, keyword: &str) -> (res: String)
    ensures
        res@ == item@.label(keyword@),
{
    with_vis(&item.vis).concat(keyword).concat(" ").concat(item.ident.as_str())
}

impl ItemDisplay for Item {
    open spec fn display_spec(&self) -> Seq<char> {
        self@.label()
    }

    fn display(&self) -> (res: String) {
        proof {
            label_is_not_empty(self@);
        }
        match self {
            Item::Fn(f) => {
                let sig = or_text(&f.sig, "MISSING SOURCE TEXT");
                with_vis(&f.vis).concat(sig.as_str())
            },
            Item::Mod(m) => with_vis(&m.vis).concat("mod ").concat(m.ident.as_str()),
            Item::Enum(n) => named(n, "enum"),
            Item::Trait(n) => named(n, "trait"),
            Item::Struct(n) => named(n, "struct"),
            Item::Union(n) => named(n, "union"),
            Item::Use(s) => or_text(&s.text, "UNKNOWN"),
            Item::Type(s) => or_text(&s.text, "UNKNOWN"),
            Item::Const(s) => or_text(&s.text, "UNKNOWN"),
            Item::Static(s) => or_text(&s.text, "UNKNOWN"),
            Item::Macro(s) => or_text(&s.text, "UNKNOWN"),
            Item::Impl(i) => {
                let ty = or_text(&i.self_ty, "UNKNOWN");
                match &i.trait_ {
                    Some(t) => {
                        let tr = or_text(t, "UNKNOWN");
                        "impl ".to_owned().concat(tr.as_str()).concat(" for ").concat(ty.as_str())
                    },
                    None => "impl ".to_owned().concat(ty.as_str()),
                }
            },
            _ => "IRRELEVANT".to_owned(),
        }
    }
}

} // verus!
