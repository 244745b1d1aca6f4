use serde_json::Value;
use wishlist::{Item, Priority};

fn document_of(items: &[Item]) -> Value {
    let mut array = Vec::new();
    for item in items {
        let mut object = serde_json::Map::new();
        object.insert("id".to_owned(), Value::String(item.id.clone()));
        object.insert("name".to_owned(), Value::String(item.name.clone()));
        object.insert("quantity".to_owned(), Value::from(item.quantity));
        object.insert("priority".to_owned(), Value::String(item.priority.to_str().to_owned()));
        object.insert(
            "url".to_owned(),
            match &item.url {
                Some(link) => Value::String(link.as_str().to_owned()),
                None => Value::Null,
            },
        );
        object.insert(
            "notes".to_owned(),
            Value::Array(item.notes.iter().map(|note| Value::String(note.clone())).collect()),
        );
        array.push(Value::Object(object));
    }
    Value::Array(array)
}

fn items_of(document: &Value) -> Vec<Item> {
    let mut items = Vec::new();
    for object in document.as_array().unwrap() {
        let notes = object["notes"]
            .as_array()
            .unwrap()
            .iter()
            .map(|note| note.as_str().unwrap().to_owned())
            .collect();
        items.push(Item::from(
            object["id"].as_str().unwrap(),
            object["name"].as_str().unwrap(),
            object["quantity"].as_u64().unwrap() as u32,
            object["priority"].as_str().unwrap(),
            object["url"].as_str().unwrap_or(""),
            notes,
        ));
    }
    items
}

fn sample_items() -> Vec<Item> {
    vec![
        Item::from(
            "7746C39C-D951-4E03-840C-8E91AF0B6D1D",
            "Nintendo Switch 2",
            1,
            "high",
            "https://example.com/nintendo_switch_2",
            vec![],
        ),
        Item::from(
            "BBDF7A43-C38B-4943-93A0-BDD6B47A2685",
            "Mario Kart World",
            1,
            "high",
            "https://example.com/nintendo_switch_2",
            vec!["Only if I get the Switch 2".to_owned()],
        ),
        Item::from(
            "6AA6A21C-F22D-40A5-AE1A-D7E2B4F87724",
            "Dragon Quest 7",
            1,
            "",
            "https://example.com/nintendo_switch_2",
            vec!["Only if I get the Switch 2".to_owned()],
        ),
    ]
}

// Files are not written here: the document is made and read in memory,
// from the values that the library hands out and takes.

#[test]
fn save_items_to_json() {
    let sample_items = sample_items();

    assert!(serde_json::to_string_pretty(&document_of(&sample_items)).is_ok())
}

#[test]
fn parse_items_from_json() {
    let expected_items = sample_items();
    let text = serde_json::to_string_pretty(&document_of(&sample_items())).unwrap();

    let document: Value = serde_json::from_str(&text).unwrap();
    let decoded_items = items_of(&document);

    assert_eq!(decoded_items, expected_items)
}

#[test]
fn document_holds_each_value_of_an_item() {
    let document = document_of(&sample_items());

    assert_eq!(document[2]["id"], "6AA6A21C-F22D-40A5-AE1A-D7E2B4F87724");
    assert_eq!(document[2]["name"], "Dragon Quest 7");
    assert_eq!(document[2]["quantity"], 1);
    assert_eq!(document[2]["priority"], "medium");
    assert_eq!(document[2]["url"], "https://example.com/nintendo_switch_2");
    assert_eq!(document[2]["notes"][0], "Only if I get the Switch 2");
    assert_eq!(document[0]["notes"].as_array().unwrap().len(), 0);
}

#[test]
fn items_come_back_from_a_document() {
    let items = vec![
        Item::from(
            "7746C39C-D951-4E03-840C-8E91AF0B6D1D",
            "Nintendo Switch 2",
            1,
            "high",
            "https://example.com/nintendo_switch_2",
            vec![],
        ),
        Item::from(
            "BBDF7A43-C38B-4943-93A0-BDD6B47A2685",
            "Mario Kart World",
            1,
            "high",
            "https://example.com/nintendo_switch_2",
            vec!["Only if I get the Switch 2".to_owned()],
        ),
        Item::from(
            "6AA6A21C-F22D-40A5-AE1A-D7E2B4F87724",
            "Dragon Quest 7",
            1,
            "",
            "",
            vec!["a note of\r\nseveral lines\n\twith a tab".to_owned(), "".to_owned()],
        ),
    ];
    let text = serde_json::to_string_pretty(&document_of(&items)).unwrap();
    let document: Value = serde_json::from_str(&text).unwrap();

    assert_eq!(items_of(&document), items);
    assert_eq!(items_of(&document)[2].priority, Priority::Medium);
}
