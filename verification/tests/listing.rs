use nova_config::listing::{listing, Row};
use nova_config::record::Config;
use nova_config::store::Store;
use nova_config::table::{decimal, holds_escape, table};

fn text(value: &str) -> String {
    value.to_string()
}

fn cell(table: &prettytable::Table, row: usize, column: usize) -> String {
    table.get_row(row).unwrap().get_cell(column).unwrap().get_content()
}

#[test]
fn decimal_writes_single_digits() {
    let digits = ["0", "1", "2", "3", "4", "5", "6", "7", "8", "9"];
    for (number, digit) in digits.iter().enumerate() {
        assert_eq!(decimal(number), *digit);
    }
}

#[test]
fn decimal_writes_several_digits_without_leading_zeros() {
    assert_eq!(decimal(10), "10");
    assert_eq!(decimal(42), "42");
    assert_eq!(decimal(1000), "1000");
    assert_eq!(decimal(9081726354), "9081726354");
    assert_eq!(decimal(usize::MAX), usize::MAX.to_string());
}

#[test]
fn table_of_no_rows_has_only_the_heading() {
    let shown = table(&Vec::new()).unwrap();
    assert_eq!(shown.len(), 0);
    assert_eq!(
        shown.to_string().replace("\r\n", "\n"),
        "+-----------+----------+----------------+\n\
         | Shorthand | Filename | Content Length |\n\
         +===========+==========+================+\n\
         +-----------+----------+----------------+\n"
    );
}

#[test]
fn table_has_one_row_per_line_in_order() {
    let rows = vec![
        Row { shorthand: text("a"), filename: text("a.conf"), content_length: 5 },
        Row { shorthand: text("bb"), filename: text("b.conf"), content_length: 1234 },
    ];
    let shown = table(&rows).unwrap();
    assert_eq!(shown.len(), 2);
    assert_eq!(cell(&shown, 0, 0), "a");
    assert_eq!(cell(&shown, 0, 1), "a.conf");
    assert_eq!(cell(&shown, 0, 2), "5");
    assert_eq!(cell(&shown, 1, 0), "bb");
    assert_eq!(cell(&shown, 1, 1), "b.conf");
    assert_eq!(cell(&shown, 1, 2), "1234");
    assert_eq!(shown.get_row(0).unwrap().len(), 3);
}

#[test]
fn table_renders_the_listing_of_a_store() {
    let mut store = Store::new();
    store.insert(Config::new(text("a.conf"), text("a"), text("alpha"))).unwrap();
    store.insert(Config::new(text("b.conf"), text("b"), String::new())).unwrap();
    let shown = table(&listing(&store)).unwrap();
    assert_eq!(
        shown.to_string().replace("\r\n", "\n"),
        "+-----------+----------+----------------+\n\
         | Shorthand | Filename | Content Length |\n\
         +===========+==========+================+\n\
         | a         | a.conf   | 5              |\n\
         +-----------+----------+----------------+\n\
         | b         | b.conf   | 0              |\n\
         +-----------+----------+----------------+\n"
    );
}

#[test]
fn holds_escape_finds_the_escape_character_anywhere() {
    assert!(!holds_escape(&String::new()));
    assert!(!holds_escape(&text("a.conf")));
    assert!(!holds_escape(&text("[0m h\u{e9}llo \u{2713}")));
    assert!(holds_escape(&text("\u{1b}")));
    assert!(holds_escape(&text("\u{1b}[31mred\u{1b}[0m")));
    assert!(holds_escape(&text("h\u{e9}llo \u{2713}\u{1b}")));
}

#[test]
fn table_refuses_a_key_with_an_escape_character() {
    let ligatures = "\u{1b}[\u{a4f8}\u{a4fc}\u{a4f8}\u{a4fc}";
    let rows = vec![
        Row { shorthand: text("a"), filename: text("a.conf"), content_length: 5 },
        Row { shorthand: text(ligatures), filename: text("b.conf"), content_length: 1 },
        Row { shorthand: text("c"), filename: text("\u{1b}[31mc.conf"), content_length: 2 },
    ];
    assert_eq!(table(&rows).err(), Some(1));
}

#[test]
fn table_refuses_a_filename_with_an_escape_character() {
    let lam_alef = "\u{1b}[\u{644}\u{627}\u{644}\u{627}";
    let rows = vec![Row { shorthand: text("a"), filename: text(lam_alef), content_length: 0 }];
    assert_eq!(table(&rows).err(), Some(0));
}

#[test]
fn table_shows_wide_and_combined_characters_without_an_escape() {
    let rows = vec![Row {
        shorthand: text("[\u{a4f8}\u{a4fc}m"),
        filename: text("\u{644}\u{627}.conf"),
        content_length: 7,
    }];
    let shown = table(&rows).unwrap();
    assert_eq!(cell(&shown, 0, 0), "[\u{a4f8}\u{a4fc}m");
    assert_eq!(cell(&shown, 0, 1), "\u{644}\u{627}.conf");
    assert_eq!(cell(&shown, 0, 2), "7");
}
