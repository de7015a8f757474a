//! The remote service's JSON shapes as typed records, with their models.
//!
//! Two shapes matter. A database, as the listing endpoint returns it, names
//! its title field through a property descriptor of type `title`. A page, as
//! the creation endpoint takes it, carries the title as a list of text
//! segments under that property's key. Both sides share the segment types
//! but are otherwise kept apart.

use crate::error::{text_or_error, ErrorModel, NotionError};
use crate::property_map::PropertyMap;
use vstd::prelude::*;

verus! {

/// The reference from a page to the database that holds it.
#[derive(Clone, Debug)]
pub struct NotionParent {
    pub _type: String,
    pub database_id: String,
}

/// Model of a [`NotionParent`].
pub struct ParentModel {
    pub type_tag: Seq<char>,
    pub database_id: Seq<char>,
}

impl View for NotionParent {
    type V = ParentModel;

    open spec fn view(&self) -> ParentModel {
        ParentModel { type_tag: self._type@, database_id: self.database_id@ }
    }
}

impl DeepView for NotionParent {
    type V = ParentModel;

    open spec fn deep_view(&self) -> ParentModel {
        self@
    }
}

/// Text formatting flags of a rich-text segment.
#[derive(Clone, Copy, Debug, PartialEq, Eq)]
pub struct NotionAnnotations {
    pub bold: Option<bool>,
    pub italic: Option<bool>,
    pub strikethrough: Option<bool>,
    pub underline: Option<bool>,
    pub code: Option<bool>,
}

impl View for NotionAnnotations {
    type V = NotionAnnotations;

    open spec fn view(&self) -> NotionAnnotations {
        *self
    }
}

impl DeepView for NotionAnnotations {
    type V = NotionAnnotations;

    open spec fn deep_view(&self) -> NotionAnnotations {
        *self
    }
}

/// A link target; the service sends nothing that this tool reads.
#[derive(Clone, Copy, Debug, PartialEq, Eq)]
pub struct NotionUrl {
}

impl View for NotionUrl {
    type V = NotionUrl;

    open spec fn view(&self) -> NotionUrl {
        *self
    }
}

impl DeepView for NotionUrl {
    type V = NotionUrl;

    open spec fn deep_view(&self) -> NotionUrl {
        *self
    }
}

/// The literal text of a segment.
#[derive(Clone, Debug)]
pub struct NotionText {
    pub content: Option<String>,
}

/// Model of a [`NotionText`].
pub struct TextModel {
    pub content: Option<Seq<char>>,
}

impl View for NotionText {
    type V = TextModel;

    open spec fn view(&self) -> TextModel {
        TextModel { content: self.content.deep_view() }
    }
}

impl DeepView for NotionText {
    type V = TextModel;

    open spec fn deep_view(&self) -> TextModel {
        self@
    }
}

/// One segment of a title.
#[derive(Clone, Debug)]
pub struct NotionTitle {
    pub _type: String,
    pub text: Option<NotionText>,
}

/// Model of a [`NotionTitle`].
pub struct TitleModel {
    pub type_tag: Seq<char>,
    pub text: Option<TextModel>,
}

impl View for NotionTitle {
    type V = TitleModel;

    open spec fn view(&self) -> TitleModel {
        TitleModel { type_tag: self._type@, text: self.text.deep_view() }
    }
}

impl DeepView for NotionTitle {
    type V = TitleModel;

    open spec fn deep_view(&self) -> TitleModel {
        self@
    }
}

/// The payload of a date property; the service sends nothing that this
/// tool reads.
#[derive(Clone, Copy, Debug, PartialEq, Eq)]
pub struct NotionDatabaseDate {
}

impl View for NotionDatabaseDate {
    type V = NotionDatabaseDate;

    open spec fn view(&self) -> NotionDatabaseDate {
        *self
    }
}

impl DeepView for NotionDatabaseDate {
    type V = NotionDatabaseDate;

    open spec fn deep_view(&self) -> NotionDatabaseDate {
        *self
    }
}

/// One choice of a select or multi-select property.
#[derive(Clone, Debug)]
pub struct NotionOption {
    pub color: Option<String>,
    pub id: Option<String>,
    pub name: Option<String>,
}

/// Model of a [`NotionOption`].
pub struct OptionModel {
    pub color: Option<Seq<char>>,
    pub id: Option<Seq<char>>,
    pub name: Option<Seq<char>>,
}

impl View for NotionOption {
    type V = OptionModel;

    open spec fn view(&self) -> OptionModel {
        OptionModel {
            color: self.color.deep_view(),
            id: self.id.deep_view(),
            name: self.name.deep_view(),
        }
    }
}

impl DeepView for NotionOption {
    type V = OptionModel;

    open spec fn deep_view(&self) -> OptionModel {
        self@
    }
}

/// The payload of a select property.
#[derive(Clone, Debug)]
pub struct NotionSelect {
    pub options: Option<Vec<NotionOption>>,
}

/// Model of a [`NotionSelect`].
pub struct SelectModel {
    pub options: Option<Seq<OptionModel>>,
}

impl View for NotionSelect {
    type V = SelectModel;

    open spec fn view(&self) -> SelectModel {
        SelectModel { options: self.options.deep_view() }
    }
}

impl DeepView for NotionSelect {
    type V = SelectModel;

    open spec fn deep_view(&self) -> SelectModel {
        self@
    }
}

/// The payload of a multi-select property.
#[derive(Clone, Debug)]
pub struct NotionMultiSelect {
    pub options: Option<Vec<NotionOption>>,
}

/// Model of a [`NotionMultiSelect`].
pub struct MultiSelectModel {
    pub options: Option<Seq<OptionModel>>,
}

impl View for NotionMultiSelect {
    type V = MultiSelectModel;

    open spec fn view(&self) -> MultiSelectModel {
        MultiSelectModel { options: self.options.deep_view() }
    }
}

impl DeepView for NotionMultiSelect {
    type V = MultiSelectModel;

    open spec fn deep_view(&self) -> MultiSelectModel {
        self@
    }
}

/// One rich-text segment, of which only the plain text is read.
#[derive(Clone, Debug)]
pub struct NotionRichText {
    pub plain_text: Option<String>,
}

/// Model of a [`NotionRichText`].
pub struct RichTextModel {
    pub plain_text: Option<Seq<char>>,
}

impl View for NotionRichText {
    type V = RichTextModel;

    open spec fn view(&self) -> RichTextModel {
        RichTextModel { plain_text: self.plain_text.deep_view() }
    }
}

impl DeepView for NotionRichText {
    type V = RichTextModel;

    open spec fn deep_view(&self) -> RichTextModel {
        self@
    }
}

/// One schema field of a database, as the listing describes it. Only the
/// payload that matches the type tag is filled in.
#[derive(Clone, Debug)]
pub struct NotionDatabaseProperty {
    pub id: Option<String>,
    pub _type: String,
    pub date: Option<NotionDatabaseDate>,
    pub multi_select: Option<NotionMultiSelect>,
    pub title: Option<Vec<NotionTitle>>,
    pub text: Option<NotionText>,
    pub rich_text: Option<NotionRichText>,
}

/// Model of a [`NotionDatabaseProperty`].
pub struct DatabasePropertyModel {
    pub id: Option<Seq<char>>,
    pub type_tag: Seq<char>,
    pub date: Option<NotionDatabaseDate>,
    pub multi_select: Option<MultiSelectModel>,
    pub title: Option<Seq<TitleModel>>,
    pub text: Option<TextModel>,
    pub rich_text: Option<RichTextModel>,
}

impl View for NotionDatabaseProperty {
    type V = DatabasePropertyModel;

    open spec fn view(&self) -> DatabasePropertyModel {
        DatabasePropertyModel {
            id: self.id.deep_view(),
            type_tag: self._type@,
            date: self.date,
            multi_select: self.multi_select.deep_view(),
            title: self.title.deep_view(),
            text: self.text.deep_view(),
            rich_text: self.rich_text.deep_view(),
        }
    }
}

impl DeepView for NotionDatabaseProperty {
    type V = DatabasePropertyModel;

    open spec fn deep_view(&self) -> DatabasePropertyModel {
        self@
    }
}

/// One field value of a page that is to be created.
#[derive(Clone, Debug)]
pub struct NotionPageProperty {
    pub _type: String,
    pub title: Option<Vec<NotionTitle>>,
}

/// Model of a [`NotionPageProperty`].
pub struct PagePropertyModel {
    pub type_tag: Seq<char>,
    pub title: Option<Seq<TitleModel>>,
}

impl View for NotionPageProperty {
    type V = PagePropertyModel;

    open spec fn view(&self) -> PagePropertyModel {
        PagePropertyModel { type_tag: self._type@, title: self.title.deep_view() }
    }
}

impl DeepView for NotionPageProperty {
    type V = PagePropertyModel;

    open spec fn deep_view(&self) -> PagePropertyModel {
        self@
    }
}

/// The record that the creation endpoint takes.
#[derive(Clone, Debug)]
pub struct NotionPage {
    pub parent: NotionParent,
    pub properties: PropertyMap<NotionPageProperty>,
}

/// Model of a [`NotionPage`]: the parent and the properties in order.
pub struct PageModel {
    pub parent: ParentModel,
    pub properties: Seq<(Seq<char>, PagePropertyModel)>,
}

impl View for NotionPage {
    type V = PageModel;

    open spec fn view(&self) -> PageModel {
        PageModel { parent: self.parent@, properties: self.properties.deep_view() }
    }
}

impl DeepView for NotionPage {
    type V = PageModel;

    open spec fn deep_view(&self) -> PageModel {
        self@
    }
}

/// One database as the listing endpoint returns it.
#[derive(Clone, Debug)]
pub struct NotionDatabase {
    pub created_time: String,
    pub last_edited_time: String,
    pub object: String,
    pub id: String,
    pub title: Vec<NotionRichText>,
    pub properties: PropertyMap<NotionDatabaseProperty>,
}

/// Model of a [`NotionDatabase`].
pub struct DatabaseModel {
    pub created_time: Seq<char>,
    pub last_edited_time: Seq<char>,
    pub object: Seq<char>,
    pub id: Seq<char>,
    pub title: Seq<RichTextModel>,
    pub properties: Seq<(Seq<char>, DatabasePropertyModel)>,
}

impl View for NotionDatabase {
    type V = DatabaseModel;

    open spec fn view(&self) -> DatabaseModel {
        DatabaseModel {
            created_time: self.created_time@,
            last_edited_time: self.last_edited_time@,
            object: self.object@,
            id: self.id@,
            title: self.title.deep_view(),
            properties: self.properties.deep_view(),
        }
    }
}

impl DeepView for NotionDatabase {
    type V = DatabaseModel;

    open spec fn deep_view(&self) -> DatabaseModel {
        self@
    }
}

/// The answer of the listing endpoint: one page of databases.
#[derive(Clone, Debug)]
pub struct NotionDatabaseList {
    pub object: String,
    pub results: Vec<NotionDatabase>,
    pub next_cursor: Option<String>,
    pub has_more: bool,
}

/// Model of a [`NotionDatabaseList`].
pub struct DatabaseListModel {
    pub object: Seq<char>,
    pub results: Seq<DatabaseModel>,
    pub next_cursor: Option<Seq<char>>,
    pub has_more: bool,
}

impl View for NotionDatabaseList {
    type V = DatabaseListModel;

    open spec fn view(&self) -> DatabaseListModel {
        DatabaseListModel {
            object: self.object@,
            results: self.results.deep_view(),
            next_cursor: self.next_cursor.deep_view(),
            has_more: self.has_more,
        }
    }
}

impl DeepView for NotionDatabaseList {
    type V = DatabaseListModel;

    open spec fn deep_view(&self) -> DatabaseListModel {
        self@
    }
}

/// The type tag that marks a title property.
pub open spec fn title_tag() -> Seq<char> {
    "title"@
}

/// The title that a database is shown under: the plain text of its first
/// title segment, where it has one.
pub open spec fn display_title(database: DatabaseModel) -> Option<Seq<char>> {
    if database.title.len() > 0 {
        database.title[0].plain_text
    } else {
        None
    }
}

/// The title that a database is shown under, or the malformed schema that
/// a database without one amounts to.
pub open spec fn title_or_error(database: DatabaseModel) -> Result<Seq<char>, ErrorModel> {
    match display_title(database) {
        Some(title) => Ok(title),
        None => Err(ErrorModel::MalformedSchema),
    }
}

/// The key of the first property descriptor whose type tag is `title`; the
/// empty key where no descriptor has it.
pub open spec fn title_field_key(properties: Seq<(Seq<char>, DatabasePropertyModel)>) -> Seq<char>
    decreases properties.len(),
{
    if properties.len() == 0 {
        Seq::empty()
    } else if properties[0].1.type_tag == title_tag() {
        properties[0].0
    } else {
        title_field_key(properties.drop_first())
    }
}

/// No descriptor before position `n` is a title descriptor.
pub open spec fn no_title_before(
    properties: Seq<(Seq<char>, DatabasePropertyModel)>,
    n: int,
) -> bool {
    forall|j: int| 0 <= j < n ==> (#[trigger] properties[j]).1.type_tag != title_tag()
}

/// The title key is the key of the first title descriptor, and empty where
/// there is none.
pub proof fn lemma_title_field_key_first(
    properties: Seq<(Seq<char>, DatabasePropertyModel)>,
    n: int,
)
    requires
        0 <= n <= properties.len(),
        no_title_before(properties, n),
    ensures
        n < properties.len() && properties[n].1.type_tag == title_tag() ==> title_field_key(
            properties,
        ) == properties[n].0,
        n == properties.len() ==> title_field_key(properties) == Seq::<char>::empty(),
    decreases n,
{
    if n > 0 {
        lemma_title_field_key_first(properties.drop_first(), n - 1);
    }
}

/// The position of the first title descriptor, where there is one.
proof fn first_title_position(properties: Seq<(Seq<char>, DatabasePropertyModel)>, at: int) -> (first:
    int)
    requires
        0 <= at < properties.len(),
        properties[at].1.type_tag == title_tag(),
    ensures
        0 <= first <= at,
        properties[first].1.type_tag == title_tag(),
        no_title_before(properties, first),
    decreases at,
{
    if no_title_before(properties, at) {
        at
    } else {
        let earlier = choose|j: int|
            0 <= j < at && (#[trigger] properties[j]).1.type_tag == title_tag();
        first_title_position(properties, earlier)
    }
}

/// Where exactly one descriptor is a title descriptor, the title key is
/// that descriptor's key, wherever among the others it stands; where none
/// is, the title key is empty.
pub proof fn lemma_title_field_key_single(
    properties: Seq<(Seq<char>, DatabasePropertyModel)>,
    at: int,
)
    requires
        forall|j: int|
            0 <= j < properties.len() ==> ((#[trigger] properties[j]).1.type_tag == title_tag()
                <==> j == at),
    ensures
        0 <= at < properties.len() ==> title_field_key(properties) == properties[at].0,
        !(0 <= at < properties.len()) ==> title_field_key(properties) == Seq::<char>::empty(),
{
    if 0 <= at < properties.len() {
        lemma_title_field_key_first(properties, at);
    } else {
        lemma_title_field_key_first(properties, properties.len() as int);
    }
}

/// The order of the descriptors does not matter where one of them is the
/// title descriptor: any listing of the same entries, in whatever order,
/// gives the same title key.
pub proof fn lemma_title_field_key_any_order(
    properties: Seq<(Seq<char>, DatabasePropertyModel)>,
    reordered: Seq<(Seq<char>, DatabasePropertyModel)>,
    at: int,
)
    requires
        0 <= at < properties.len(),
        forall|j: int|
            0 <= j < properties.len() ==> ((#[trigger] properties[j]).1.type_tag == title_tag()
                <==> j == at),
        reordered.contains(properties[at]),
        forall|k: int| 0 <= k < reordered.len() ==> properties.contains(#[trigger] reordered[k]),
    ensures
        title_field_key(reordered) == title_field_key(properties),
        title_field_key(reordered) == properties[at].0,
{
    lemma_title_field_key_single(properties, at);
    let somewhere = choose|k: int| 0 <= k < reordered.len() && reordered[k] == properties[at];
    let first = first_title_position(reordered, somewhere);
    lemma_title_field_key_first(reordered, first);
    let origin = choose|j: int| 0 <= j < properties.len() && properties[j] == reordered[first];
    assert(origin == at);
}

impl NotionDatabase {
    /// The title to show for this database: the plain text of its first
    /// title segment. A database without a title segment, or whose first
    /// segment has no plain text, is malformed.
    pub fn title_text(&self) -> (title: Result<String, NotionError>)
        ensures
            text_or_error(title) == title_or_error(self@),
    {
        if self.title.len() == 0 {
            return Err(NotionError::MalformedSchema);
        }
        match &self.title[0].plain_text {
            Some(text) => Ok(text.clone()),
            None => Err(NotionError::MalformedSchema),
        }
    }

    /// The key of the property that holds a page's title: the key of the
    /// first property descriptor of type `title`. Where the database declares
    /// none the result is the empty string, which no property is expected to
    /// be keyed by.
    pub fn title_property(&self) -> (key: String)
        ensures
            key@ == title_field_key(self@.properties),
    {
        let title = "title";
        let count = self.properties.len();
        let mut i: usize = 0;
        while i < count
            invariant
                count == self.properties@.len(),
                i <= count,
                title@ == title_tag(),
                no_title_before(self@.properties, i as int),
            decreases count - i,
        {
            match self.properties.entry(i) {
                Some((key, descriptor)) => {
                    if crate::text::same_text(descriptor._type.as_str(), title) {
                        proof {
                            lemma_title_field_key_first(self@.properties, i as int);
                        }
                        return key.clone();
                    }
                },
                None => {},
            }
            i += 1;
        }
        proof {
            lemma_title_field_key_first(self@.properties, i as int);
        }
        String::new()
    }
}

} // verus!
