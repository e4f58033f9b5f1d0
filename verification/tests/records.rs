use birthday_bot::fault::FieldFault;
use birthday_bot::records::{
    decode_rows, Birthday, lookup_attribute, read_string_field, read_u64_field, read_u8_field, Attribute,
    AttributeValue, BirthdayRecord, BirthdaysDBClient, RecordError, RecordField,
};

fn number(name: &str, text: &str) -> Attribute {
    Attribute { name: name.to_string(), value: AttributeValue::N(text.to_string()) }
}

fn string(name: &str, text: &str) -> Attribute {
    Attribute { name: name.to_string(), value: AttributeValue::S(text.to_string()) }
}

fn row(id: &str, name: &str, month: &str, day: &str) -> Vec<Attribute> {
    vec![
        number("user_id", id),
        string("fullname", name),
        number("month_num", month),
        number("day_num", day),
    ]
}

fn record(id: u64, name: &str, month: u8, day: u8) -> BirthdayRecord {
    BirthdayRecord::new(id, name.to_string(), month, day).unwrap()
}

fn fault(field: RecordField, fault: FieldFault) -> RecordError {
    RecordError { field, fault }
}

#[test]
fn record_keeps_its_values() {
    let r = record(7, "Alex Doe", 6, 15);
    assert_eq!(r.identity(), 7);
    assert_eq!(r.full_name(), "Alex Doe");
    assert_eq!(r.month_num(), 6);
    assert_eq!(r.day_num(), 15);
    assert_eq!(r.duplicate(), r);
}

#[test]
fn record_takes_the_whole_range_of_months_and_days() {
    assert!(BirthdayRecord::new(1, String::new(), 1, 1).is_ok());
    assert!(BirthdayRecord::new(1, String::new(), 12, 31).is_ok());
    assert!(BirthdayRecord::new(u64::MAX, String::new(), 2, 30).is_ok());
}

#[test]
fn record_rejects_a_month_out_of_range() {
    for month in [0u8, 13, 255] {
        assert_eq!(
            BirthdayRecord::new(1, "A".to_string(), month, 10),
            Err(fault(RecordField::MonthNum, FieldFault::OutOfRange))
        );
    }
}

#[test]
fn record_rejects_a_day_out_of_range() {
    for day in [0u8, 32, 255] {
        assert_eq!(
            BirthdayRecord::new(1, "A".to_string(), 4, day),
            Err(fault(RecordField::DayNum, FieldFault::OutOfRange))
        );
    }
}

#[test]
fn record_reports_the_month_before_the_day() {
    assert_eq!(
        BirthdayRecord::new(1, "A".to_string(), 0, 0),
        Err(fault(RecordField::MonthNum, FieldFault::OutOfRange))
    );
}

#[test]
fn lookup_attribute_finds_the_first_of_a_name() {
    let item = vec![number("a", "1"), string("b", "x"), number("a", "2")];
    assert_eq!(lookup_attribute(&item, "a"), Some(&AttributeValue::N("1".to_string())));
    assert_eq!(lookup_attribute(&item, "b"), Some(&AttributeValue::S("x".to_string())));
    assert_eq!(lookup_attribute(&item, "c"), None);
    assert_eq!(lookup_attribute(&item, "A"), None);
    assert_eq!(lookup_attribute(&Vec::new(), "a"), None);
}

#[test]
fn fields_are_read_by_type() {
    let item = vec![
        number("n", "42"),
        string("s", "text"),
        Attribute { name: "o".to_string(), value: AttributeValue::Other },
    ];
    assert_eq!(read_u64_field(&item, "n"), Ok(42));
    assert_eq!(read_u8_field(&item, "n"), Ok(42));
    assert_eq!(read_string_field(&item, "s"), Ok("text".to_string()));
    assert_eq!(read_string_field(&item, "n"), Err(FieldFault::WrongType));
    assert_eq!(read_string_field(&item, "o"), Err(FieldFault::WrongType));
    assert_eq!(read_string_field(&item, "x"), Err(FieldFault::Absent));
    assert_eq!(read_u64_field(&item, "s"), Err(FieldFault::WrongType));
    assert_eq!(read_u64_field(&item, "o"), Err(FieldFault::WrongType));
    assert_eq!(read_u64_field(&item, "x"), Err(FieldFault::Absent));
    assert_eq!(read_u8_field(&item, "s"), Err(FieldFault::WrongType));
    assert_eq!(read_u8_field(&item, "x"), Err(FieldFault::Absent));
}

#[test]
fn numbers_that_cannot_be_read_are_unparsable() {
    let item = vec![number("a", "12x"), number("b", ""), number("c", "300"), number("d", "-1")];
    assert_eq!(read_u64_field(&item, "a"), Err(FieldFault::Unparsable));
    assert_eq!(read_u64_field(&item, "b"), Err(FieldFault::Unparsable));
    assert_eq!(read_u64_field(&item, "c"), Ok(300));
    assert_eq!(read_u8_field(&item, "c"), Err(FieldFault::Unparsable));
    assert_eq!(read_u64_field(&item, "d"), Err(FieldFault::Unparsable));
}

#[test]
fn row_decodes_to_a_record() {
    assert_eq!(BirthdayRecord::from_item(&row("1", "Alex", "6", "15")), Ok(record(1, "Alex", 6, 15)));
    assert_eq!(
        BirthdayRecord::from_item(&row("18446744073709551615", "", "12", "31")),
        Ok(record(u64::MAX, "", 12, 31))
    );
}

#[test]
fn row_decodes_whatever_the_order_of_its_attributes() {
    let item = vec![
        number("day_num", "15"),
        string("nickname", "Al"),
        number("month_num", "06"),
        string("fullname", "Alex"),
        number("user_id", "1"),
    ];
    assert_eq!(BirthdayRecord::from_item(&item), Ok(record(1, "Alex", 6, 15)));
}

#[test]
fn row_without_a_field_is_malformed() {
    let full = row("1", "Alex", "6", "15");
    let fields = [
        ("user_id", RecordField::UserId),
        ("fullname", RecordField::FullName),
        ("month_num", RecordField::MonthNum),
        ("day_num", RecordField::DayNum),
    ];
    for (name, field) in fields {
        let item: Vec<Attribute> = row("1", "Alex", "6", "15")
            .into_iter()
            .filter(|a| a.name != name)
            .collect();
        assert_eq!(item.len(), full.len() - 1);
        assert_eq!(BirthdayRecord::from_item(&item), Err(fault(field, FieldFault::Absent)));
    }
    assert_eq!(
        BirthdayRecord::from_item(&Vec::new()),
        Err(fault(RecordField::UserId, FieldFault::Absent))
    );
}

#[test]
fn row_with_a_field_of_the_wrong_type_is_malformed() {
    let mut item = row("1", "Alex", "6", "15");
    item[0] = string("user_id", "1");
    assert_eq!(
        BirthdayRecord::from_item(&item),
        Err(fault(RecordField::UserId, FieldFault::WrongType))
    );
    let mut item = row("1", "Alex", "6", "15");
    item[1] = number("fullname", "5");
    assert_eq!(
        BirthdayRecord::from_item(&item),
        Err(fault(RecordField::FullName, FieldFault::WrongType))
    );
    let mut item = row("1", "Alex", "6", "15");
    item[2] = string("month_num", "6");
    assert_eq!(
        BirthdayRecord::from_item(&item),
        Err(fault(RecordField::MonthNum, FieldFault::WrongType))
    );
    let mut item = row("1", "Alex", "6", "15");
    item[3] = Attribute { name: "day_num".to_string(), value: AttributeValue::Other };
    assert_eq!(
        BirthdayRecord::from_item(&item),
        Err(fault(RecordField::DayNum, FieldFault::WrongType))
    );
}

#[test]
fn row_with_an_unreadable_number_is_malformed() {
    assert_eq!(
        BirthdayRecord::from_item(&row("one", "Alex", "6", "15")),
        Err(fault(RecordField::UserId, FieldFault::Unparsable))
    );
    assert_eq!(
        BirthdayRecord::from_item(&row("1", "Alex", "June", "15")),
        Err(fault(RecordField::MonthNum, FieldFault::Unparsable))
    );
    assert_eq!(
        BirthdayRecord::from_item(&row("1", "Alex", "6", "256")),
        Err(fault(RecordField::DayNum, FieldFault::Unparsable))
    );
}

#[test]
fn row_with_month_or_day_out_of_range_is_malformed() {
    assert_eq!(
        BirthdayRecord::from_item(&row("1", "Alex", "13", "15")),
        Err(fault(RecordField::MonthNum, FieldFault::OutOfRange))
    );
    assert_eq!(
        BirthdayRecord::from_item(&row("1", "Alex", "0", "15")),
        Err(fault(RecordField::MonthNum, FieldFault::OutOfRange))
    );
    assert_eq!(
        BirthdayRecord::from_item(&row("1", "Alex", "6", "32")),
        Err(fault(RecordField::DayNum, FieldFault::OutOfRange))
    );
    assert_eq!(
        BirthdayRecord::from_item(&row("1", "Alex", "6", "0")),
        Err(fault(RecordField::DayNum, FieldFault::OutOfRange))
    );
}

#[test]
fn row_reports_its_first_fault() {
    assert_eq!(
        BirthdayRecord::from_item(&row("x", "Alex", "y", "z")),
        Err(fault(RecordField::UserId, FieldFault::Unparsable))
    );
    assert_eq!(
        BirthdayRecord::from_item(&row("1", "Alex", "13", "z")),
        Err(fault(RecordField::DayNum, FieldFault::Unparsable))
    );
}

#[test]
fn rows_are_decoded_each_by_itself() {
    let rows = vec![
        row("1", "Alex", "6", "15"),
        row("x", "Bad", "6", "15"),
        row("2", "Sam", "6", "15"),
        row("3", "Kim", "6", "40"),
    ];
    let (records, faults) = decode_rows(&rows);
    assert_eq!(records, vec![record(1, "Alex", 6, 15), record(2, "Sam", 6, 15)]);
    assert_eq!(
        faults,
        vec![
            fault(RecordField::UserId, FieldFault::Unparsable),
            fault(RecordField::DayNum, FieldFault::OutOfRange),
        ]
    );
    assert_eq!(decode_rows(&Vec::new()), (Vec::new(), Vec::new()));
}

fn table() -> BirthdaysDBClient {
    BirthdaysDBClient::new(vec![
        record(1, "Alex", 6, 15),
        record(2, "Sam", 12, 24),
        record(3, "Kim", 6, 15),
        record(4, "Pat", 6, 16),
        record(5, "Lee", 5, 15),
    ])
}

#[test]
fn todays_birthdays_are_empty_when_none_matches() {
    assert_eq!(table().get_todays_birthdays(1, 1), Vec::new());
    assert_eq!(table().get_todays_birthdays(15, 6), Vec::new());
    assert_eq!(table().get_todays_birthdays(6, 14), Vec::new());
    assert_eq!(table().get_todays_birthdays(6 + 256, 15), Vec::new());
    assert_eq!(BirthdaysDBClient::new(Vec::new()).get_todays_birthdays(6, 15), Vec::new());
}

#[test]
fn todays_birthdays_are_all_that_match() {
    assert_eq!(
        table().get_todays_birthdays(6, 15),
        vec![record(1, "Alex", 6, 15), record(3, "Kim", 6, 15)]
    );
    assert_eq!(table().get_todays_birthdays(12, 24), vec![record(2, "Sam", 12, 24)]);
    assert_eq!(table().get_todays_birthdays(6, 16), vec![record(4, "Pat", 6, 16)]);
    assert_eq!(table().get_todays_birthdays(5, 15), vec![record(5, "Lee", 5, 15)]);
}

#[test]
fn birthday_by_user_id_finds_the_record() {
    assert_eq!(table().get_birthday_by_user_id(1), Some(record(1, "Alex", 6, 15)));
    assert_eq!(table().get_birthday_by_user_id(4), Some(record(4, "Pat", 6, 16)));
    assert_eq!(table().get_birthday_by_user_id(5), Some(record(5, "Lee", 5, 15)));
}

#[test]
fn birthday_by_user_id_is_absent_for_an_unknown_identity() {
    assert_eq!(table().get_birthday_by_user_id(0), None);
    assert_eq!(table().get_birthday_by_user_id(6), None);
    assert_eq!(BirthdaysDBClient::new(Vec::new()).get_birthday_by_user_id(1), None);
}

#[test]
fn birthday_by_user_id_takes_the_first_of_several() {
    let table = BirthdaysDBClient::new(vec![
        record(9, "First", 1, 2),
        record(9, "Second", 3, 4),
    ]);
    assert_eq!(table.get_birthday_by_user_id(9), Some(record(9, "First", 1, 2)));
}

#[test]
fn query_by_date_reads_the_month_day_index() {
    let query = BirthdaysDBClient::todays_birthdays_query(6, 15);
    assert_eq!(query.index_name, Some("month-day-index".to_string()));
    assert_eq!(query.key_condition_expression, "#mon = :monnum and #day = :daynum");
    assert_eq!(
        query.attribute_names,
        vec![
            ("#mon".to_string(), "month_num".to_string()),
            ("#day".to_string(), "day_num".to_string()),
        ]
    );
    assert_eq!(
        query.attribute_values,
        vec![
            (":monnum".to_string(), AttributeValue::N("6".to_string())),
            (":daynum".to_string(), AttributeValue::N("15".to_string())),
        ]
    );
}

#[test]
fn query_by_identity_reads_the_primary_key() {
    let query = BirthdaysDBClient::birthday_by_user_id_query(9876543210);
    assert_eq!(query.index_name, None);
    assert_eq!(query.key_condition_expression, "#userid = :userid");
    assert_eq!(query.attribute_names, vec![("#userid".to_string(), "user_id".to_string())]);
    assert_eq!(
        query.attribute_values,
        vec![(":userid".to_string(), AttributeValue::N("9876543210".to_string()))]
    );
}

#[test]
fn birthday_keeps_month_and_day() {
    let b = Birthday::new(2, 29).unwrap();
    assert_eq!((b.month_num(), b.day_num()), (2, 29));
    assert_eq!(record(1, "A", 2, 29).birthday(), b);
    assert!(Birthday::new(1, 1).is_ok());
    assert!(Birthday::new(12, 31).is_ok());
}

#[test]
fn birthday_rejects_numbers_out_of_range() {
    assert_eq!(Birthday::new(0, 5), Err(fault(RecordField::MonthNum, FieldFault::OutOfRange)));
    assert_eq!(Birthday::new(13, 5), Err(fault(RecordField::MonthNum, FieldFault::OutOfRange)));
    assert_eq!(Birthday::new(5, 0), Err(fault(RecordField::DayNum, FieldFault::OutOfRange)));
    assert_eq!(Birthday::new(5, 32), Err(fault(RecordField::DayNum, FieldFault::OutOfRange)));
    assert_eq!(Birthday::new(0, 0), Err(fault(RecordField::MonthNum, FieldFault::OutOfRange)));
}

#[test]
fn birthday_is_read_from_month_and_day_alone() {
    let item = vec![number("month_num", "2"), number("day_num", "12")];
    assert_eq!(Birthday::from_item(&item), Ok(Birthday::new(2, 12).unwrap()));
    assert_eq!(
        Birthday::from_item(&row("x", "", "11", "30")),
        Ok(Birthday::new(11, 30).unwrap())
    );
    assert_eq!(
        Birthday::from_item(&vec![number("day_num", "12")]),
        Err(fault(RecordField::MonthNum, FieldFault::Absent))
    );
    assert_eq!(
        Birthday::from_item(&vec![number("month_num", "2"), string("day_num", "12")]),
        Err(fault(RecordField::DayNum, FieldFault::WrongType))
    );
    assert_eq!(
        Birthday::from_item(&vec![number("month_num", "256"), number("day_num", "12")]),
        Err(fault(RecordField::MonthNum, FieldFault::Unparsable))
    );
}
