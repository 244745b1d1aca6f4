use wishlist::{Item, ItemBuilder, ItemParsingError, Link, Priority};

fn has_generated_shape(id: &str) -> bool {
    let chars: Vec<char> = id.chars().collect();
    chars.len() == 36
        && chars.iter().enumerate().all(|(i, c)| {
            if i == 8 || i == 13 || i == 18 || i == 23 {
                *c == '-'
            } else {
                matches!(*c, '0'..='9' | 'A'..='F')
            }
        })
}

#[test]
fn item_of_nothing_has_the_defaults() {
    let item = Item::new();

    assert!(!item.id.is_empty());
    assert!(has_generated_shape(&item.id));
    assert_eq!(item.name, "");
    assert_eq!(item.quantity, 1);
    assert_eq!(item.priority, Priority::Medium);
    assert_eq!(item.url, None);
    assert_eq!(item.notes, Vec::<String>::new());
}

#[test]
fn empty_builder_builds_the_defaults() {
    let item = Item::builder().build();

    assert!(has_generated_shape(&item.id));
    assert_eq!(item.name, "");
    assert_eq!(item.quantity, 1);
    assert_eq!(item.priority, Priority::Medium);
    assert_eq!(item.url, None);
    assert!(item.notes.is_empty());

    let other = ItemBuilder::new().build();
    assert_eq!(other.name, "");
    assert_eq!(other.quantity, 1);
}

#[test]
fn generated_ids_differ() {
    let first = Item::new();
    let second = Item::new();

    assert_ne!(first.id, second.id);

    let builder = Item::builder();
    assert_ne!(builder.build().id, builder.build().id);
}

#[test]
fn empty_id_is_as_good_as_none() {
    let item = Item::builder().set_id("").set_name("x").build();

    assert!(has_generated_shape(&item.id));
    assert_eq!(item.name, "x");

    let mut with = Item::builder();
    with.set_name("x").set_id("");
    let mut without = Item::builder();
    without.set_name("x");
    assert_eq!(
        with.build_with_id("F".to_owned()),
        without.build_with_id("F".to_owned())
    );
}

#[test]
fn empty_id_keeps_an_earlier_id() {
    let item = Item::builder().set_id("first").set_id("").build();

    assert_eq!(item.id, "first");
}

#[test]
fn given_id_is_used_verbatim() {
    for id in ["10", " ", "not-a-uuid", "\u{e9}\u{1f600}", "with\ttab"] {
        assert_eq!(Item::builder().set_id(id).build().id, id);
        assert_eq!(Item::from(id, "", 1, "", "", vec![]).id, id);
    }
    assert_eq!(Item::builder().set_id("a").set_id("b").build().id, "b");
}

#[test]
fn builder_takes_each_value() {
    let item = Item::builder()
        .set_id("42")
        .set_name("Nintendo Switch 2")
        .set_quantity(3)
        .set_priority("Highest")
        .set_url("https://example.com/nintendo-switch-2")
        .add_note("first")
        .add_note("second")
        .build();

    assert_eq!(item.id, "42");
    assert_eq!(item.name, "Nintendo Switch 2");
    assert_eq!(item.quantity, 3);
    assert_eq!(item.priority, Priority::Highest);
    assert_eq!(item.url.unwrap().as_str(), "https://example.com/nintendo-switch-2");
    assert_eq!(item.notes, vec!["first".to_owned(), "second".to_owned()]);
}

#[test]
fn builder_builds_again() {
    let mut builder = Item::builder();
    builder.set_id("1").set_name("one").add_note("n");
    let first = builder.build();
    let second = builder.build();
    assert_eq!(first, second);

    builder.set_quantity(9).add_note("m");
    let third = builder.build();
    assert_eq!(first.quantity, 1);
    assert_eq!(first.notes, vec!["n".to_owned()]);
    assert_eq!(third.quantity, 9);
    assert_eq!(third.notes, vec!["n".to_owned(), "m".to_owned()]);
}

#[test]
fn build_with_id_takes_the_fallback_only_without_an_id() {
    let mut builder = Item::builder();
    builder.set_name("x");
    assert_eq!(builder.build_with_id("fallback".to_owned()).id, "fallback");

    builder.set_id("own");
    assert_eq!(builder.build_with_id("fallback".to_owned()).id, "own");

    let mut odd = Item::builder();
    odd.id = Some(String::new());
    assert_eq!(odd.build_with_id("fallback".to_owned()).id, "fallback");
    assert!(has_generated_shape(&odd.build().id));
}

#[test]
fn unreadable_priority_is_medium() {
    assert_eq!(Item::builder().set_priority("urgent").build().priority, Priority::Medium);
    assert_eq!(Item::builder().set_priority("").build().priority, Priority::Medium);
    assert_eq!(Item::builder().set_priority("LOW").build().priority, Priority::Low);
    // the last call decides, also where it reads nothing
    assert_eq!(
        Item::builder().set_priority("high").set_priority("urgent").build().priority,
        Priority::Medium
    );
}

#[test]
fn unreadable_url_is_left_out() {
    for text in ["", "not a url", "example.com", "/relative/path", "http://", "://x", "1http://x"] {
        assert_eq!(Item::builder().set_url(text).build().url, None);
        assert_eq!(Link::parse(text), None);
    }
    // the last call decides, also where it reads nothing
    assert_eq!(
        Item::builder().set_url("https://example.com").set_url("nope").build().url,
        None
    );
}

#[test]
fn url_is_held_as_the_parser_serializes_it() {
    let link = Link::parse("https://example.com").unwrap();
    assert_eq!(link.as_str(), "https://example.com/");

    for text in [
        "https://example.com",
        "HTTP://EXAMPLE.COM/a b",
        " https://example.com/x/../y ",
        "mailto:someone@example.com",
        "https://example.com/nintendo_switch_2",
        "ftp://user:pw@host:21/file?q=1#frag",
    ] {
        let expected = url::Url::parse(text).unwrap();
        assert_eq!(Link::parse(text).unwrap().as_str(), expected.as_str());
    }
}

#[test]
fn url_reading_agrees_with_the_parser() {
    for text in ["", "x", "a:b", "http:/x", "https://[::1]/", "https://exa mple.com", "file:///tmp"] {
        let expected = url::Url::parse(text).ok().map(|url| url.as_str().to_owned());
        let found = Link::parse(text).map(|link| link.as_str().to_owned());
        assert_eq!(found, expected);
    }
}

#[test]
fn links_compare_and_copy_by_their_text() {
    let link = Link::parse("https://example.com/a").unwrap();
    assert_eq!(link.clone(), link);
    assert_eq!(Link::parse("HTTPS://EXAMPLE.COM/a").unwrap(), link);
    assert_ne!(Link::parse("https://example.com/b").unwrap(), link);
}

#[test]
fn convenience_constructor_is_the_builder() {
    let notes = vec!["one".to_owned(), "two".to_owned()];
    let made = Item::from("7", "Seven", 7, "low", "https://example.com/7", notes);
    let built = Item::builder()
        .set_id("7")
        .set_name("Seven")
        .set_quantity(7)
        .set_priority("low")
        .set_url("https://example.com/7")
        .add_note("one")
        .add_note("two")
        .build();

    assert_eq!(made, built);
    assert!(has_generated_shape(&Item::from("", "Seven", 7, "low", "", vec![]).id));
}

#[test]
fn item_is_written_with_its_notes() {
    let item = Item::from(
        "10",
        "Nintendo Switch",
        2,
        "Highest",
        "https://example.com",
        vec!["first note".to_owned(), "second\r\nnote".to_owned()],
    );

    assert_eq!(
        item.to_string(),
        "10\tNintendo Switch\t2\thighest\thttps://example.com/\r\n\r\n-----\r\nfirst note\r\n\r\nsecond\r\nnote\r\n\r\n"
    );
}

#[test]
fn item_is_written_without_address_or_notes() {
    let item = Item::from("10", "", 0, "", "", vec![]);

    assert_eq!(item.to_string(), "10\t\t0\tmedium\t\r\n\r\n-----\r\n");
}

#[test]
fn reading_a_written_item_loses_the_notes() {
    let item = Item::from("10", "Switch", 4, "low", "https://example.com/", vec!["a note".to_owned()]);
    let text = item.to_string();
    let record = text.split("\r\n").next().unwrap();
    let read = Item::from_str(record).unwrap();

    assert_eq!(read, Item::from("10", "Switch", 4, "low", "https://example.com/", vec![]));
    assert!(read.notes.is_empty());
    // the text as a whole, with its tail, is one record still: the tail
    // is part of the fifth field, and the URL parser reads over its line
    // breaks
    let whole = Item::from_str(&text).unwrap();
    assert_eq!(whole.url.unwrap().as_str(), "https://example.com/-----a%20note");
    assert!(whole.notes.is_empty());
}

#[test]
fn record_with_the_wrong_number_of_fields_is_refused() {
    assert_eq!(Item::from_str("").err().unwrap(), ItemParsingError::TooFewFields(1));
    assert_eq!(Item::from_str("\t\t\t").err().unwrap(), ItemParsingError::TooFewFields(4));
    assert_eq!(Item::from_str("\t\t\t\t\t").err().unwrap(), ItemParsingError::TooManyFields(6));
    assert_eq!(
        Item::from_str("a\tb\tc\td\te\tf\tg\th").err().unwrap(),
        ItemParsingError::TooManyFields(8)
    );
    assert!(Item::from_str("\t\t\t\t").is_ok());
}

#[test]
fn record_of_empty_fields_is_all_defaults() {
    let item = Item::from_str("\t\t\t\t").unwrap();

    assert!(has_generated_shape(&item.id));
    assert_eq!(item.name, "");
    assert_eq!(item.quantity, 1);
    assert_eq!(item.priority, Priority::Medium);
    assert_eq!(item.url, None);
    assert!(item.notes.is_empty());
}

#[test]
fn unreadable_quantity_is_one() {
    for field in ["", "many", "-3", "1.5", " 2", "4294967296", "2 "] {
        let record = format!("10\tname\t{}\tlow\t", field);
        assert_eq!(Item::from_str(&record).unwrap().quantity, 1);
    }
    assert_eq!(Item::from_str("10\tname\t0\tlow\t").unwrap().quantity, 0);
    assert_eq!(Item::from_str("10\tname\t+3\tlow\t").unwrap().quantity, 3);
    assert_eq!(Item::from_str("10\tname\t4294967295\tlow\t").unwrap().quantity, u32::MAX);
}

#[test]
fn record_fields_are_read_permissively() {
    let item = Item::from_str("10\tNintendo Switch\t1\tHIGH\tnot a url").unwrap();
    assert_eq!(item.priority, Priority::High);
    assert_eq!(item.url, None);

    let item = Item::from_str("10\tNintendo Switch\t1\tsoon\thttps://example.com").unwrap();
    assert_eq!(item.priority, Priority::Medium);
    assert_eq!(item.url.unwrap().as_str(), "https://example.com/");

    let item = Item::from_str("10\tNintendo Switch\t1\thigh\t").unwrap();
    assert_eq!(item.url, None);
}

#[test]
fn written_record_is_read_back() {
    let items = [
        Item::from("1", "plain", 1, "low", "", vec![]),
        Item::from("2", "", 0, "highest", "https://example.com/a?b=c#d", vec![]),
        Item::from("3", " spaced name ", u32::MAX, "medium", "mailto:a@example.com", vec![]),
        Item::from("4", "\u{e9}\u{1f600}", 77, "high", "https://example.com/%20", vec![]),
    ];
    for item in items {
        let text = item.to_string();
        let record = text.split("\r\n").next().unwrap();
        assert_eq!(Item::from_str(record).unwrap(), item);
    }
}

#[test]
fn item_rebuilt_from_its_values_is_the_same() {
    for item in [
        Item::from("1", "plain", 1, "low", "", vec!["n1".to_owned(), "n2\nn3".to_owned()]),
        Item::from("2", "t\tb", 0, "highest", "https://example.com/a?b=c#d", vec![]),
    ] {
        let url = match &item.url {
            Some(link) => link.as_str().to_owned(),
            None => String::new(),
        };
        let again = Item::from(
            &item.id,
            &item.name,
            item.quantity,
            item.priority.to_str(),
            &url,
            item.notes.clone(),
        );
        assert_eq!(again, item);
    }
}
