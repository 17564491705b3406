use hid_report::{parse, pretty_print, ReportItem};

#[test]
fn pretty_print_lays_out_the_descriptor() {
    let bytes = [
        0x05, 0x0C, 0x09, 0x01, 0xA1, 0x01, 0x85, 0x02, 0x19, 0x00, 0x2A, 0x3C, 0x02, 0x15, 0x00,
        0x26, 0x3C, 0x02, 0x95, 0x01, 0x75, 0x10, 0x81, 0x00, 0xC0,
    ];
    let items = parse(&bytes);
    let expected = [
        "0x05, 0x0C        // Usage Page (Consumer)",
        "0x09, 0x01        // Usage (1)",
        "0xA1, 0x01        //   Collection (Application)",
        "0x85, 0x02        //   Report ID (2)",
        "0x19, 0x00        //   Usage Minimum (0)",
        "0x2A, 0x3C, 0x02  //   Usage Maximum (572)",
        "0x15, 0x00        //   Logical Minimum (0)",
        "0x26, 0x3C, 0x02  //   Logical Maximum (572)",
        "0x95, 0x01        //   Report Count (1)",
        "0x75, 0x10        //   Report Size (16)",
        "0x81, 0x00        //   Input (Data, Array, Absolute, No Wrap, Linear, Preferred State, No Null Position)",
        "0xC0              // End Collection",
    ]
    .join("\n");
    let text = pretty_print(&items);
    assert_eq!(text, expected);
    for line in text.lines() {
        assert_eq!(line.find("//"), Some(18));
    }
}

#[test]
fn pretty_print_of_nothing_is_empty() {
    assert_eq!(pretty_print(&[]), "");
}

#[test]
fn pretty_print_of_one_item_has_no_line_feed() {
    let items = parse(&[0xC0]);
    assert_eq!(pretty_print(&items), "0xC0  // End Collection");
    let items = parse(&[0x95, 0x06]);
    assert_eq!(pretty_print(&items), "0x95, 0x06  // Report Count (6)");
}

#[test]
fn column_is_six_characters_for_each_byte_of_the_longest_item() {
    let items = parse(&[0xC0, 0x17, 0x01, 0x00, 0x00, 0x80, 0x75, 0x08]);
    let expected = [
        "0xC0                          // End Collection",
        "0x17, 0x01, 0x00, 0x00, 0x80  // Logical Minimum (-2147483647)",
        "0x75, 0x08                    // Report Size (8)",
    ]
    .join("\n");
    assert_eq!(pretty_print(&items), expected);
}

#[test]
fn bytes_are_shown_in_upper_case_hexadecimal() {
    let items = parse(&[0xFF, 0x0a, 0xbc, 0xde, 0xf9]);
    assert_eq!(pretty_print(&items), "0xFF, 0x0A, 0xBC, 0xDE, 0xF9  // Reserved");
}

#[test]
fn collection_is_moved_in_and_its_end_is_not() {
    let items = parse(&[0xA1, 0x01, 0xC0]);
    assert_eq!(pretty_print(&items), "0xA1, 0x01  //   Collection (Application)\n0xC0        // End Collection");
}

#[test]
fn depth_returns_to_where_it_was_behind_a_closed_collection() {
    let items = parse(&[0x75, 0x08, 0xA1, 0x01, 0xC0, 0x75, 0x08]);
    let text = pretty_print(&items);
    let lines: Vec<&str> = text.lines().collect();
    assert_eq!(lines[0], "0x75, 0x08  // Report Size (8)");
    assert_eq!(lines[1], "0xA1, 0x01  //   Collection (Application)");
    assert_eq!(lines[2], "0xC0        // End Collection");
    assert_eq!(lines[3], lines[0]);
}

#[test]
fn nested_collections_move_in_two_spaces_each() {
    let items = parse(&[0xA1, 0x01, 0xA1, 0x00, 0x95, 0x01, 0xC0, 0x95, 0x02, 0xC0, 0x95, 0x03]);
    let expected = [
        "0xA1, 0x01  //   Collection (Application)",
        "0xA1, 0x00  //     Collection (Physical)",
        "0x95, 0x01  //     Report Count (1)",
        "0xC0        //   End Collection",
        "0x95, 0x02  //   Report Count (2)",
        "0xC0        // End Collection",
        "0x95, 0x03  // Report Count (3)",
    ]
    .join("\n");
    assert_eq!(pretty_print(&items), expected);
}

#[test]
fn push_and_pop_move_like_collections() {
    let items = parse(&[0xA4, 0x75, 0x08, 0xB4, 0x75, 0x08]);
    let expected = [
        "0xA4        //   Push",
        "0x75, 0x08  //   Report Size (8)",
        "0xB4        // Pop",
        "0x75, 0x08  // Report Size (8)",
    ]
    .join("\n");
    assert_eq!(pretty_print(&items), expected);
}

#[test]
fn depth_does_not_go_below_zero() {
    let items = parse(&[0xC0, 0xB4, 0xC0, 0xA1, 0x01, 0x95, 0x01]);
    let expected = [
        "0xC0        // End Collection",
        "0xB4        // Pop",
        "0xC0        // End Collection",
        "0xA1, 0x01  //   Collection (Application)",
        "0x95, 0x01  //   Report Count (1)",
    ]
    .join("\n");
    assert_eq!(pretty_print(&items), expected);
}

#[test]
fn pretty_print_takes_items_made_by_hand() {
    let items = vec![ReportItem::new(&[0x55, 0x0E]).unwrap(), ReportItem::new(&[0x65, 0x11]).unwrap()];
    let expected = [
        "0x55, 0x0E  // Unit Exponent -2",
        "0x65, 0x11  // Unit(System: SI Linear, Length: Centimeter)",
    ]
    .join("\n");
    assert_eq!(pretty_print(&items), expected);
}
