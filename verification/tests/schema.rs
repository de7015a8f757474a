use notion_clipper_cli::{
    NotionDatabase, NotionDatabaseProperty, NotionError, NotionRichText, PropertyMap,
};

fn descriptor(type_tag: &str) -> NotionDatabaseProperty {
    NotionDatabaseProperty {
        id: None,
        _type: type_tag.to_string(),
        date: None,
        multi_select: None,
        title: None,
        text: None,
        rich_text: None,
    }
}

fn database(titles: Vec<Option<&str>>, properties: Vec<(&str, &str)>) -> NotionDatabase {
    let mut map = PropertyMap::new();
    for (key, type_tag) in properties {
        map.insert(key.to_string(), descriptor(type_tag));
    }
    NotionDatabase {
        created_time: "2021-05-13T16:00:00.000Z".to_string(),
        last_edited_time: "2021-05-14T09:30:00.000Z".to_string(),
        object: "database".to_string(),
        id: "668d797c-76fa-4934-9b05-ad288df2d136".to_string(),
        title: titles
            .into_iter()
            .map(|text| NotionRichText { plain_text: text.map(str::to_string) })
            .collect(),
        properties: map,
    }
}

#[test]
fn title_text_is_the_first_segment() {
    let one = database(vec![Some("Groceries")], vec![]);
    assert_eq!(one.title_text(), Ok("Groceries".to_string()));
    let two = database(vec![Some("Gro"), Some("ceries")], vec![]);
    assert_eq!(two.title_text(), Ok("Gro".to_string()));
    let spaced = database(vec![Some("  To do  ")], vec![]);
    assert_eq!(spaced.title_text(), Ok("  To do  ".to_string()));
    let empty_text = database(vec![Some("")], vec![]);
    assert_eq!(empty_text.title_text(), Ok(String::new()));
}

#[test]
fn title_text_without_segments_is_malformed() {
    let none = database(vec![], vec![("Name", "title")]);
    assert_eq!(none.title_text(), Err(NotionError::MalformedSchema));
}

#[test]
fn title_text_without_plain_text_is_malformed() {
    let absent = database(vec![None], vec![]);
    assert_eq!(absent.title_text(), Err(NotionError::MalformedSchema));
    let absent_then_present = database(vec![None, Some("Groceries")], vec![]);
    assert_eq!(absent_then_present.title_text(), Err(NotionError::MalformedSchema));
}

#[test]
fn title_property_is_the_key_of_the_title_descriptor() {
    let first = database(vec![], vec![("Name", "title"), ("Due", "date"), ("Tags", "multi_select")]);
    assert_eq!(first.title_property(), "Name");
    let middle = database(vec![], vec![("Due", "date"), ("Item", "title"), ("Tags", "select")]);
    assert_eq!(middle.title_property(), "Item");
    let last = database(vec![], vec![("Due", "date"), ("Notes", "rich_text"), ("Titel", "title")]);
    assert_eq!(last.title_property(), "Titel");
}

#[test]
fn title_property_does_not_depend_on_the_order() {
    let entries = [("Due", "date"), ("Name", "title"), ("Tags", "multi_select"), ("Notes", "rich_text")];
    let orders: [[usize; 4]; 6] = [
        [0, 1, 2, 3],
        [1, 0, 2, 3],
        [3, 2, 1, 0],
        [2, 3, 0, 1],
        [0, 2, 3, 1],
        [1, 3, 2, 0],
    ];
    for order in orders {
        let reordered: Vec<(&str, &str)> = order.iter().map(|&i| entries[i]).collect();
        assert_eq!(database(vec![], reordered).title_property(), "Name");
    }
}

#[test]
fn title_property_without_title_descriptor_is_empty() {
    let none = database(vec![Some("Groceries")], vec![("Due", "date"), ("Tags", "select")]);
    assert_eq!(none.title_property(), "");
    let no_properties = database(vec![Some("Groceries")], vec![]);
    assert_eq!(no_properties.title_property(), "");
}

#[test]
fn title_property_reads_the_type_tag_exactly() {
    let near = database(vec![], vec![("A", "Title"), ("B", "title "), ("C", "titles"), ("D", "")]);
    assert_eq!(near.title_property(), "");
    let named_title = database(vec![], vec![("title", "date"), ("Name", "title")]);
    assert_eq!(named_title.title_property(), "Name");
}

#[test]
fn title_property_takes_the_first_of_several() {
    let several = database(vec![], vec![("Due", "date"), ("One", "title"), ("Two", "title")]);
    assert_eq!(several.title_property(), "One");
}
