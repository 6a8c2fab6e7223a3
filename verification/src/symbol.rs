//! The catalogue: one record for each declaration, in the order in which the
//! files were found and, within a file, parents before their children.

use vstd::prelude::*;

use crate::error::{Error, ErrorView};
use crate::item::{
    label_is_not_empty, lemma_views, views, IsRelevant, Item, ItemDisplay, ItemView,
};

verus! {

/// One catalogued declaration: where it stands and the label it is found by.
#[derive(Hash, Default, Eq, PartialEq, Debug)]
pub struct Ref {
    pub line: usize,
    pub column: usize,
    pub file: String,
    pub sig: String,
}

/// A record as a plain value.
pub struct RefView {
    pub line: usize,
    pub column: usize,
    pub file: Seq<char>,
    pub sig: Seq<char>,
}

impl View for Ref {
    type V = RefView;

    open spec fn view(&self) -> RefView {
        RefView { line: self.line, column: self.column, file: self.file@, sig: self.sig@ }
    }
}

impl Clone for Ref {
    fn clone(&self) -> (res: Self)
        ensures
            res == *self,
    {
        Ref { line: self.line, column: self.column, file: self.file.clone(), sig: self.sig.clone() }
    }
}

/// A catalogue as a sequence of plain values.
pub open spec fn catalogue(refs: Seq<Ref>) -> Seq<RefView> {
    refs.map_values(|r: Ref| r@)
}

/// The record of one declaration of the file `file`.
pub open spec fn record_of(item: ItemView, file: Seq<char>) -> RefView {
    RefView {
        line: item.position().line,
        column: item.position().column,
        file,
        sig: item.label(),
    }
}

/// The records that one declaration contributes: none if its kind is not
/// catalogued; else its own, followed, for a module with an inline body, by
/// those of the declarations of that body, each under the same file. No
/// other kind is looked into: the members of an implementation block are
/// not catalogued.
pub open spec fn records(item: ItemView, file: Seq<char>) -> Seq<RefView>
    decreases item, 0nat,
{
    if item.relevant() {
        seq![record_of(item, file)] + (match item {
            ItemView::Mod(m) => match m.content {
                Some(c) => records_in(c, file, c.len()),
                None => Seq::empty(),
            },
            _ => Seq::empty(),
        })
    } else {
        Seq::empty()
    }
}

/// The records of the first `n` of `items`, in order.
pub open spec fn records_in(items: Seq<ItemView>, file: Seq<char>, n: nat) -> Seq<RefView>
    decreases items, n,
{
    if n == 0 || n > items.len() {
        Seq::empty()
    } else {
        records_in(items, file, (n - 1) as nat) + records(items[n - 1], file)
    }
}

impl Ref {
    /// The record of a catalogued declaration of the file `value.1`.
    pub fn from(value: (&Item, &str)) -> (res: Ref)
        requires
            value.0@.relevant(),
        ensures
            res@ == record_of(value.0@, value.1@),
            res.sig@.len() > 0,
    {
        let (item, file) = value;
        let sig = item.display();
        let at = item.start();
        Ref { line: at.line, column: at.column, file: file.to_owned(), sig }
    }
}

/// What reading and parsing one source file gave.
#[derive(Debug, PartialEq, Eq)]
pub enum Parsed {
    /// The file's top-level declarations, in source order.
    Items(Vec<Item>),
    /// The file could not be read; the reason.
    Unreadable(String),
    /// The file is malformed; the reason.
    Malformed(String),
}

/// One source file of the project, by its path, with what parsing it gave.
#[derive(Debug, PartialEq, Eq)]
pub struct SourceFile {
    pub path: String,
    pub parsed: Parsed,
}

/// What parsing gave, as a plain value.
pub enum ParsedView {
    Items(Seq<ItemView>),
    Unreadable(Seq<char>),
    Malformed(Seq<char>),
}

impl View for Parsed {
    type V = ParsedView;

    open spec fn view(&self) -> ParsedView {
        match self {
            Parsed::Items(items) => ParsedView::Items(views(items@)),
            Parsed::Unreadable(why) => ParsedView::Unreadable(why@),
            Parsed::Malformed(why) => ParsedView::Malformed(why@),
        }
    }
}

/// A source file as a plain value.
pub struct SourceFileView {
    pub path: Seq<char>,
    pub parsed: ParsedView,
}

impl View for SourceFile {
    type V = SourceFileView;

    open spec fn view(&self) -> SourceFileView {
        SourceFileView { path: self.path@, parsed: self.parsed@ }
    }
}

/// Source files as plain values, one for one.
pub open spec fn sources(files: Seq<SourceFile>) -> Seq<SourceFileView> {
    files.map_values(|f: SourceFile| f@)
}

impl SourceFileView {
    /// The failure that this file stands for, if it could not be had.
    pub open spec fn failure(self) -> Option<ErrorView> {
        match self.parsed {
            ParsedView::Items(_) => None,
            ParsedView::Unreadable(why) => Some(ErrorView::Io(why)),
            ParsedView::Malformed(why) => Some(ErrorView::Syn(why)),
        }
    }

    /// The records of this file: those of its declarations, in order.
    pub open spec fn records(self) -> Seq<RefView> {
        match self.parsed {
            ParsedView::Items(items) => records_in(items, self.path, items.len()),
            _ => Seq::empty(),
        }
    }
}

/// The records of the first `n` of `files`, file after file.
pub open spec fn records_of_files(files: Seq<SourceFileView>, n: nat) -> Seq<RefView>
    decreases n,
{
    if n == 0 || n > files.len() {
        Seq::empty()
    } else {
        records_of_files(files, (n - 1) as nat) + files[n - 1].records()
    }
}

/// Whether `k` is the first of `files` that could not be had.
pub open spec fn first_failure(files: Seq<SourceFileView>, k: int) -> bool {
    &&& 0 <= k < files.len()
    &&& files[k].failure() is Some
    &&& forall|j: int| 0 <= j < k ==> (#[trigger] files[j]).failure() is None
}

/// The catalogue of a project whose every file could be had.
pub open spec fn catalogue_of(files: Seq<SourceFileView>) -> Seq<RefView> {
    records_of_files(files, files.len())
}

/// Extraction depends on nothing but what was parsed: two catalogues built
/// from the same sources hold the same records, in the same order, with the
/// same places and labels.
pub proof fn extraction_is_repeatable(
    files: Seq<SourceFileView>,
    first: Seq<RefView>,
    second: Seq<RefView>,
)
    requires
        first == catalogue_of(files),
        second == catalogue_of(files),
    ensures
        first.len() == second.len(),
        forall|i: int| 0 <= i < first.len() ==> first[i] == second[i],
        first == second,
{
}

/// Whether every record of a catalogue has a label.
pub open spec fn all_labelled(records: Seq<RefView>) -> bool {
    forall|i: int| 0 <= i < records.len() ==> (#[trigger] records[i]).sig.len() > 0
}

/// Every record that a declaration contributes has a label.
pub proof fn records_are_labelled(item: ItemView, file: Seq<char>)
    ensures
        all_labelled(records(item, file)),
    decreases item, 0nat,
{
    label_is_not_empty(item);
    match item {
        ItemView::Mod(m) => match m.content {
            Some(c) => records_in_are_labelled(c, file, c.len()),
            None => {},
        },
        _ => {},
    }
}

/// Every record that the first `n` of `items` contribute has a label.
pub proof fn records_in_are_labelled(items: Seq<ItemView>, file: Seq<char>, n: nat)
    ensures
        all_labelled(records_in(items, file, n)),
    decreases items, n,
{
    if n == 0 || n > items.len() {
    } else {
        records_in_are_labelled(items, file, (n - 1) as nat);
        records_are_labelled(items[n - 1], file);
    }
}

/// No record of a catalogue is without a label.
pub proof fn catalogue_is_labelled(files: Seq<SourceFileView>, n: nat)
    ensures
        all_labelled(records_of_files(files, n)),
    decreases n,
{
    if n == 0 || n > files.len() {
    } else {
        catalogue_is_labelled(files, (n - 1) as nat);
        match files[n - 1].parsed {
            ParsedView::Items(items) => {
                records_in_are_labelled(items, files[n - 1].path, items.len());
            },
            _ => {},
        }
    }
}

/// A declaration whose kind is not catalogued contributes nothing, and a
/// declaration that is catalogued comes before all that it contains.
pub proof fn parent_comes_first(item: ItemView, file: Seq<char>)
    ensures
        !item.relevant() ==> records(item, file).len() == 0,
        item.relevant() ==> records(item, file).len() > 0 && records(item, file)[0] == record_of(
            item,
            file,
        ),
        !(item is Mod) && item.relevant() ==> records(item, file) == seq![record_of(item, file)],
{
}

/// Appends to `refs` the records that `item` contributes as a declaration
/// of `file`: its own first, then those of its inline body.
pub fn recursive_find_refs(item: &Item, refs: &mut Vec<Ref>, file: &str)
    ensures
        catalogue(final(refs)@) == catalogue(old(refs)@) + records(item@, file@),
    decreases item,
{
    if !item.is_relevant() {
        return ;
    }
    refs.push(Ref::from((item, file)));
    assert(catalogue(refs@) == catalogue(old(refs)@) + seq![record_of(item@, file@)]);
    match item {
        Item::Mod(md) => {
            if let Some(content) = &md.content {
                proof {
                    lemma_views(content@);
                }
                let mut i: usize = 0;
                while i < content.len()
                    invariant
                        i <= content.len(),
                        catalogue(refs@) == catalogue(old(refs)@) + seq![
                            record_of(item@, file@),
                        ] + records_in(views(content@), file@, i as nat),
                        *item == Item::Mod(*md),
                        md.content == Some(*content),
                        views(content@).len() == content@.len(),
                        forall|j: int|
                            0 <= j < content@.len() ==> #[trigger] views(content@)[j]
                                == content@[j]@,
                    decreases content.len() - i,
                {
                    assert(decreases_to!(item => content[i as int])) by {
                        assert(decreases_to!(item => md.content->0));
                        assert(decreases_to!(*content => content[i as int]));
                    }
                    recursive_find_refs(&content[i], refs, file);
                    i += 1;
                }
            }
        },
        _ => {},
    }
}

/// Builds the catalogue of a project from its source files. The build is
/// all or nothing: the first file that could not be read or parsed fails
/// it, with that file's failure; otherwise the catalogue holds every file's
/// records, file after file, and each record has a label.
pub fn find_refs(files: &Vec<SourceFile>) -> (res: Result<Vec<Ref>, Error>)
    ensures
        match res {
            Ok(refs) => {
                &&& forall|j: int|
                    0 <= j < files@.len() ==> (#[trigger] sources(files@)[j]).failure() is None
                &&& catalogue(refs@) == catalogue_of(sources(files@))
                &&& forall|i: int| 0 <= i < refs@.len() ==> (#[trigger] refs@[i]).sig@.len() > 0
            },
            Err(e) => exists|k: int| #[trigger]
                first_failure(sources(files@), k) && Some(e@) == sources(files@)[k].failure(),
        },
{
    let mut refs: Vec<Ref> = Vec::new();
    let mut k: usize = 0;
    while k < files.len()
        invariant
            k <= files.len(),
            forall|j: int| 0 <= j < k ==> (#[trigger] sources(files@)[j]).failure() is None,
            catalogue(refs@) == records_of_files(sources(files@), k as nat),
        decreases files.len() - k,
    {
        let file = &files[k];
        assert(sources(files@)[k as int] == file@);
        match &file.parsed {
            Parsed::Items(items) => {
                proof {
                    lemma_views(items@);
                }
                let mut i: usize = 0;
                while i < items.len()
                    invariant
                        i <= items.len(),
                        k < files.len(),
                        file@ == sources(files@)[k as int],
                        file.parsed == Parsed::Items(*items),
                        views(items@).len() == items@.len(),
                        forall|j: int|
                            0 <= j < items@.len() ==> #[trigger] views(items@)[j] == items@[j]@,
                        catalogue(refs@) == records_of_files(sources(files@), k as nat)
                            + records_in(views(items@), file.path@, i as nat),
                    decreases items.len() - i,
                {
                    recursive_find_refs(&items[i], &mut refs, file.path.as_str());
                    i += 1;
                }
            },
            Parsed::Unreadable(why) => {
                assert(first_failure(sources(files@), k as int));
                return Err(Error::Io(why.clone()));
            },
            Parsed::Malformed(why) => {
                assert(first_failure(sources(files@), k as int));
                return Err(Error::Syn(why.clone()));
            },
        }
        k += 1;
    }
    proof {
        catalogue_is_labelled(sources(files@), files@.len());
        assert forall|i: int| 0 <= i < refs@.len() implies (#[trigger] refs@[i]).sig@.len()
            > 0 by {
            assert(catalogue(refs@)[i] == refs@[i]@);
        }
    }
    Ok(refs)
}

} // verus!
