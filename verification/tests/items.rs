use hid_report::{
    Collection, Delimiter, DesignatorIndex, DesignatorMaximum, DesignatorMinimum, EndCollection,
    Feature, HidError, Input, LogicalMaximum, LogicalMinimum, Output, PhysicalMaximum,
    PhysicalMinimum, Pop, Push, ReportCount, ReportId, ReportItem, ReportSize, Reserved,
    StringIndex, StringMaximum, StringMinimum, Unit, UnitExponent, Usage, UsageMaximum,
    UsageMinimum, UsagePage,
};

fn variant_name(item: &ReportItem) -> &'static str {
    match item {
        ReportItem::Input(_) => "Input",
        ReportItem::Output(_) => "Output",
        ReportItem::Feature(_) => "Feature",
        ReportItem::Collection(_) => "Collection",
        ReportItem::EndCollection(_) => "EndCollection",
        ReportItem::UsagePage(_) => "UsagePage",
        ReportItem::LogicalMinimum(_) => "LogicalMinimum",
        ReportItem::LogicalMaximum(_) => "LogicalMaximum",
        ReportItem::PhysicalMinimum(_) => "PhysicalMinimum",
        ReportItem::PhysicalMaximum(_) => "PhysicalMaximum",
        ReportItem::UnitExponent(_) => "UnitExponent",
        ReportItem::Unit(_) => "Unit",
        ReportItem::ReportSize(_) => "ReportSize",
        ReportItem::ReportId(_) => "ReportId",
        ReportItem::ReportCount(_) => "ReportCount",
        ReportItem::Push(_) => "Push",
        ReportItem::Pop(_) => "Pop",
        ReportItem::Usage(_) => "Usage",
        ReportItem::UsageMinimum(_) => "UsageMinimum",
        ReportItem::UsageMaximum(_) => "UsageMaximum",
        ReportItem::DesignatorIndex(_) => "DesignatorIndex",
        ReportItem::DesignatorMinimum(_) => "DesignatorMinimum",
        ReportItem::DesignatorMaximum(_) => "DesignatorMaximum",
        ReportItem::StringIndex(_) => "StringIndex",
        ReportItem::StringMinimum(_) => "StringMinimum",
        ReportItem::StringMaximum(_) => "StringMaximum",
        ReportItem::Delimiter(_) => "Delimiter",
        ReportItem::Reserved(_) => "Reserved",
    }
}

fn catalog() -> Vec<(u8, &'static str)> {
    vec![
        (0b1000_0000, "Input"),
        (0b1001_0000, "Output"),
        (0b1011_0000, "Feature"),
        (0b1010_0000, "Collection"),
        (0b1100_0000, "EndCollection"),
        (0b0000_0100, "UsagePage"),
        (0b0001_0100, "LogicalMinimum"),
        (0b0010_0100, "LogicalMaximum"),
        (0b0011_0100, "PhysicalMinimum"),
        (0b0100_0100, "PhysicalMaximum"),
        (0b0101_0100, "UnitExponent"),
        (0b0110_0100, "Unit"),
        (0b0111_0100, "ReportSize"),
        (0b1000_0100, "ReportId"),
        (0b1001_0100, "ReportCount"),
        (0b1010_0100, "Push"),
        (0b1011_0100, "Pop"),
        (0b0000_1000, "Usage"),
        (0b0001_1000, "UsageMinimum"),
        (0b0010_1000, "UsageMaximum"),
        (0b0011_1000, "DesignatorIndex"),
        (0b0100_1000, "DesignatorMinimum"),
        (0b0101_1000, "DesignatorMaximum"),
        (0b0111_1000, "StringIndex"),
        (0b1000_1000, "StringMinimum"),
        (0b1001_1000, "StringMaximum"),
        (0b1010_1000, "Delimiter"),
    ]
}

fn frame_for(prefix: u8) -> Vec<u8> {
    let size = [0usize, 1, 2, 4][(prefix & 0b11) as usize];
    let mut raw = vec![prefix];
    raw.resize(size + 1, 0x01);
    raw
}

#[test]
fn new_recognizes_logical_maximum() {
    let raw = [0x26, 0x3c, 0x02];
    let item = ReportItem::new(&raw).unwrap();
    assert!(matches!(item, ReportItem::LogicalMaximum(_)));
    assert_eq!(item.to_string(), "Logical Maximum (572)");
}

#[test]
fn every_prefix_classifies_to_one_kind() {
    let catalog = catalog();
    assert_eq!(catalog.len(), 27);
    for prefix in 0..=255u8 {
        let raw = frame_for(prefix);
        let item = ReportItem::new(&raw).unwrap();
        let key = prefix & 0b1111_1100;
        let entries: Vec<&(u8, &'static str)> =
            catalog.iter().filter(|entry| entry.0 == key).collect();
        assert!(entries.len() <= 1);
        let expected = if entries.len() == 1 { entries[0].1 } else { "Reserved" };
        assert_eq!(variant_name(&item), expected, "prefix {:#04X}", prefix);
        assert_eq!(item.as_ref(), &raw[..]);
        assert_eq!(item.prefix(), prefix);
        assert_eq!(item.data(), &raw[1..]);
    }
}

#[test]
fn strict_differs_from_lenient_only_on_reserved() {
    for prefix in 0..=255u8 {
        let raw = frame_for(prefix);
        let lenient = ReportItem::new(&raw).unwrap();
        let strict = ReportItem::new_strict(&raw);
        match lenient {
            ReportItem::Reserved(reserved) => {
                assert_eq!(strict, Err(HidError::ReservedItem(reserved)));
            }
            item => assert_eq!(strict, Ok(item)),
        }
        assert_eq!(ReportItem::new_unchecked(&raw), lenient);
        assert_eq!(ReportItem::new_strict_unchecked(&raw), strict);
    }
}

#[test]
fn unknown_prefix_is_reserved_or_an_error() {
    let raw = [0b1111_1100];
    let lenient = ReportItem::new(&raw).unwrap();
    assert!(matches!(lenient, ReportItem::Reserved(_)));
    assert_eq!(lenient.to_string(), "Reserved");
    match ReportItem::new_strict(&raw) {
        Err(HidError::ReservedItem(reserved)) => assert_eq!(reserved.as_ref(), &raw),
        other => panic!("unexpected {:?}", other),
    }
}

#[test]
fn long_item_prefix_is_read_as_a_short_item() {
    let item = ReportItem::new(&[0xFE, 0x03, 0x10]).unwrap();
    assert!(matches!(item, ReportItem::Reserved(_)));
    assert_eq!(item.data(), &[0x03, 0x10]);
}

#[test]
fn new_reports_empty_input() {
    assert_eq!(ReportItem::new(&[]), Err(HidError::EmptyRawInput));
    assert_eq!(ReportItem::new_strict(&[]), Err(HidError::EmptyRawInput));
}

#[test]
fn new_reports_size_mismatch() {
    let expected = Err(HidError::DataSizeNotMatch { expected: 2, provided: 1 });
    assert_eq!(ReportItem::new(&[0x26, 0x3c]), expected);
    assert_eq!(ReportItem::new_strict(&[0x26, 0x3c]), expected);
    let expected = Err(HidError::DataSizeNotMatch { expected: 0, provided: 2 });
    assert_eq!(ReportItem::new(&[0xFC, 1, 2]), expected);
    assert_eq!(ReportItem::new_strict(&[0xFC, 1, 2]), expected);
}

#[test]
fn kind_constructor_checks_the_prefix() {
    assert_eq!(Input::new(&[0x91, 0x02]), Err(HidError::PrefixNotMatch));
    assert_eq!(UsagePage::new(&[0x09, 0x01]), Err(HidError::PrefixNotMatch));
    assert_eq!(Usage::new(&[0x05, 0x01]), Err(HidError::PrefixNotMatch));
    assert_eq!(Input::new(&[0x91]), Err(HidError::PrefixNotMatch));
    assert_eq!(Input::new(&[]), Err(HidError::EmptyRawInput));
    assert_eq!(Usage::new(&[]), Err(HidError::EmptyRawInput));
    assert_eq!(
        Input::new(&[0x82, 0x02]),
        Err(HidError::DataSizeNotMatch { expected: 2, provided: 1 })
    );
    assert_eq!(
        Usage::new(&[0x0B, 0x02]),
        Err(HidError::DataSizeNotMatch { expected: 4, provided: 1 })
    );
    assert_eq!(Input::new(&[0x81, 0x02]).unwrap().as_ref(), &[0x81, 0x02]);
    assert_eq!(Usage::new(&[0x09, 0x02]).unwrap().as_ref(), &[0x09, 0x02]);
}

#[test]
fn kind_constants_are_the_catalog_keys() {
    assert_eq!(Input::PREFIX, 0b1000_0000);
    assert_eq!(Output::PREFIX, 0b1001_0000);
    assert_eq!(Feature::PREFIX, 0b1011_0000);
    assert_eq!(Collection::PREFIX, 0b1010_0000);
    assert_eq!(EndCollection::PREFIX, 0b1100_0000);
    assert_eq!(UsagePage::PREFIX, 0b0000_0100);
    assert_eq!(LogicalMinimum::PREFIX, 0b0001_0100);
    assert_eq!(LogicalMaximum::PREFIX, 0b0010_0100);
    assert_eq!(PhysicalMinimum::PREFIX, 0b0011_0100);
    assert_eq!(PhysicalMaximum::PREFIX, 0b0100_0100);
    assert_eq!(UnitExponent::PREFIX, 0b0101_0100);
    assert_eq!(Unit::PREFIX, 0b0110_0100);
    assert_eq!(ReportSize::PREFIX, 0b0111_0100);
    assert_eq!(ReportId::PREFIX, 0b1000_0100);
    assert_eq!(ReportCount::PREFIX, 0b1001_0100);
    assert_eq!(Push::PREFIX, 0b1010_0100);
    assert_eq!(Pop::PREFIX, 0b1011_0100);
    assert_eq!(Usage::PREFIX, 0b0000_1000);
    assert_eq!(UsageMinimum::PREFIX, 0b0001_1000);
    assert_eq!(UsageMaximum::PREFIX, 0b0010_1000);
    assert_eq!(DesignatorIndex::PREFIX, 0b0011_1000);
    assert_eq!(DesignatorMinimum::PREFIX, 0b0100_1000);
    assert_eq!(DesignatorMaximum::PREFIX, 0b0101_1000);
    assert_eq!(StringIndex::PREFIX, 0b0111_1000);
    assert_eq!(StringMinimum::PREFIX, 0b1000_1000);
    assert_eq!(StringMaximum::PREFIX, 0b1001_1000);
    assert_eq!(Delimiter::PREFIX, 0b1010_1000);
}

#[test]
fn default_item_is_the_bare_prefix() {
    assert_eq!(Input::default().as_ref(), &[0x80]);
    assert_eq!(ReportCount::default().as_ref(), &[0x94]);
    assert_eq!(Usage::default().as_ref(), &[0x08]);
    assert_eq!(Usage::default().usage_page(), None);
    assert_eq!(Pop::default().data(), &[] as &[u8]);
}

#[test]
fn new_with_sets_the_size_bits() {
    assert_eq!(ReportCount::new_with(&[]).unwrap().as_ref(), &[0x94]);
    assert_eq!(ReportCount::new_with(&[6]).unwrap().as_ref(), &[0x95, 6]);
    assert_eq!(ReportCount::new_with(&[6, 1]).unwrap().as_ref(), &[0x96, 6, 1]);
    assert_eq!(ReportCount::new_with(&[6, 1, 2, 3]).unwrap().as_ref(), &[0x97, 6, 1, 2, 3]);
    assert_eq!(ReportCount::new_with(&[6, 1, 2]), Err(HidError::InvalidDataSize));
    assert_eq!(ReportCount::new_with(&[0; 5]), Err(HidError::InvalidDataSize));
    assert_eq!(UsageMaximum::new_with(&[0x3C, 0x02]).unwrap().as_ref(), &[0x2A, 0x3C, 0x02]);
    assert_eq!(UsageMaximum::new_with(&[1, 2, 3]), Err(HidError::InvalidDataSize));
}

#[test]
fn kind_items_set_and_get_data() {
    let mut item = LogicalMaximum::new(&[0x25, 0x7F]).unwrap();
    assert_eq!(item.prefix(), 0x25);
    assert_eq!(item.data(), &[0x7F]);
    item.set_data(&[0xFF, 0x00]).unwrap();
    assert_eq!(item.as_ref(), &[0x26, 0xFF, 0x00]);
    assert_eq!(item.data(), &[0xFF, 0x00]);
    assert_eq!(item.to_string(), "Logical Maximum (255)");
    assert_eq!(item.set_data(&[1, 2, 3]).err(), Some(HidError::InvalidDataSize));
    assert_eq!(item.as_ref(), &[0x26, 0xFF, 0x00]);
    item.data_mut()[1] = 0x80;
    assert_eq!(item.to_string(), "Logical Maximum (-32513)");
    assert_eq!(item, LogicalMaximum::new(&[0x26, 0xFF, 0x80]).unwrap());
}

#[test]
fn usage_items_keep_their_page_when_edited() {
    let page = UsagePage::new(&[0x05, 0x0C]).unwrap();
    let mut usage = Usage::new(&[0x09, 0x01]).unwrap();
    assert_eq!(usage.usage_page(), None);
    usage.set_usage_page(page);
    assert_eq!(usage.usage_page(), Some(page));
    assert_eq!(usage.as_ref(), &[0x09, 0x01]);
    usage.set_data(&[0x02, 0x03]).unwrap();
    assert_eq!(usage.as_ref(), &[0x0A, 0x02, 0x03]);
    assert_eq!(usage.usage_page(), Some(page));
    usage.data_mut()[0] = 0x04;
    assert_eq!(usage.data(), &[0x04, 0x03]);
    assert_eq!(usage.prefix(), 0x0A);
    assert_eq!(usage.usage_page(), Some(page));
    assert_ne!(usage, Usage::new(&[0x0A, 0x04, 0x03]).unwrap());
    let mut other = Usage::new_unchecked(&[0x0A, 0x04, 0x03]);
    other.set_usage_page(UsagePage::new(&[0x05, 0x0C]).unwrap());
    assert_eq!(usage, other);
    other.set_usage_page(UsagePage::new(&[0x05, 0x0D]).unwrap());
    assert_ne!(usage, other);
}

#[test]
fn report_item_hands_out_prefix_and_data() {
    let item = ReportItem::new(&[0x27, 1, 2, 3, 4]).unwrap();
    assert_eq!(item.prefix(), 0x27);
    assert_eq!(item.data(), &[1, 2, 3, 4]);
    assert_eq!(item.as_ref(), &[0x27, 1, 2, 3, 4]);
    let bare = ReportItem::new(&[0xC0]).unwrap();
    assert_eq!(bare.prefix(), 0xC0);
    assert_eq!(bare.data(), &[] as &[u8]);
    assert_eq!(ReportItem::Reserved(Reserved::new(&[0x80]).unwrap()).prefix(), 0x80);
}

#[test]
fn items_are_equal_when_kind_bytes_and_page_are() {
    let mut long = LogicalMaximum::new(&[0x27, 1, 2, 3, 4]).unwrap();
    long.set_data(&[1]).unwrap();
    assert_eq!(ReportItem::LogicalMaximum(long), ReportItem::new(&[0x25, 1]).unwrap());
    assert_ne!(ReportItem::LogicalMaximum(long), ReportItem::new(&[0x25, 2]).unwrap());
    assert_ne!(
        ReportItem::Reserved(Reserved::new(&[0x25, 1]).unwrap()),
        ReportItem::new(&[0x25, 1]).unwrap()
    );
    let bare = Usage::new(&[0x09, 0x01]).unwrap();
    let mut paged = bare;
    paged.set_usage_page(UsagePage::new(&[0x05, 0x0C]).unwrap());
    assert_ne!(ReportItem::Usage(bare), ReportItem::Usage(paged));
    assert_eq!(ReportItem::Usage(paged), ReportItem::Usage(paged));
}

#[test]
fn errors_are_equal_when_they_say_the_same() {
    assert_eq!(
        HidError::DataSizeNotMatch { expected: 1, provided: 2 },
        HidError::DataSizeNotMatch { expected: 1, provided: 2 }
    );
    assert_ne!(
        HidError::DataSizeNotMatch { expected: 1, provided: 2 },
        HidError::DataSizeNotMatch { expected: 1, provided: 3 }
    );
    assert_ne!(
        HidError::DataSizeNotMatch { expected: 2, provided: 2 },
        HidError::DataSizeNotMatch { expected: 1, provided: 2 }
    );
    assert_eq!(HidError::InvalidDataSize, HidError::InvalidDataSize);
    assert_eq!(HidError::PrefixNotMatch, HidError::PrefixNotMatch);
    assert_eq!(HidError::EmptyRawInput, HidError::EmptyRawInput);
    assert_ne!(HidError::EmptyRawInput, HidError::PrefixNotMatch);
    assert_ne!(HidError::InvalidDataSize, HidError::EmptyRawInput);
    let mut reserved = Reserved::new(&[0xFE, 1, 2]).unwrap();
    reserved.set_data(&[]).unwrap();
    assert_eq!(
        HidError::ReservedItem(reserved),
        HidError::ReservedItem(Reserved::new(&[0xFC]).unwrap())
    );
    assert_ne!(
        HidError::ReservedItem(reserved),
        HidError::ReservedItem(Reserved::new(&[0xFD, 0]).unwrap())
    );
    assert_ne!(HidError::ReservedItem(reserved), HidError::InvalidDataSize);
}
