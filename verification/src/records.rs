//! Birthday records: how a stored row is decoded, and the two ways in which
//! the table is read, by calendar date and by identity.

use crate::dates::{is_day, is_month};
use crate::fault::FieldFault;
use crate::text::{decimal_string, decimal_text, parse_u64, parse_u8, parse_unsigned, same_text};
use vstd::prelude::*;
use vstd::string::*;

verus! {

/// The value of one attribute of a stored row. Numbers travel as text.
#[derive(Debug, PartialEq, Eq)]
pub enum AttributeValue {
    /// A string.
    S(String),
    /// A number, in its decimal notation.
    N(String),
    /// A value of any other type.
    Other,
}

pub enum AttributeValueView {
    S(Seq<char>),
    N(Seq<char>),
    Other,
}

impl View for AttributeValue {
    type V = AttributeValueView;

    open spec fn view(&self) -> AttributeValueView {
        match self {
            AttributeValue::S(s) => AttributeValueView::S(s@),
            AttributeValue::N(n) => AttributeValueView::N(n@),
            AttributeValue::Other => AttributeValueView::Other,
        }
    }
}

/// One named attribute of a stored row.
#[derive(Debug, PartialEq, Eq)]
pub struct Attribute {
    pub name: String,
    pub value: AttributeValue,
}

pub struct AttributeView {
    pub name: Seq<char>,
    pub value: AttributeValueView,
}

impl View for Attribute {
    type V = AttributeView;

    open spec fn view(&self) -> AttributeView {
        AttributeView { name: self.name@, value: self.value@ }
    }
}

/// The views of the attributes of a row, in order.
pub open spec fn item_view(item: Seq<Attribute>) -> Seq<AttributeView> {
    item.map_values(|a: Attribute| a@)
}

/// The fields of a birthday record.
#[derive(Clone, Copy, Debug, PartialEq, Eq, Structural)]
pub enum RecordField {
    UserId,
    FullName,
    MonthNum,
    DayNum,
}

/// A malformed record: the first field that could not be used, and why.
#[derive(Clone, Copy, Debug, PartialEq, Eq, Structural)]
pub struct RecordError {
    pub field: RecordField,
    pub fault: FieldFault,
}

/// The value of the first attribute named `name` at or after index `from`.
pub open spec fn find_attribute(item: Seq<AttributeView>, name: Seq<char>, from: int) -> Option<
    AttributeValueView,
>
    decreases item.len() - from,
{
    if 0 <= from < item.len() {
        if item[from].name == name {
            Some(item[from].value)
        } else {
            find_attribute(item, name, from + 1)
        }
    } else {
        None
    }
}

/// No two attributes of the row have the same name, as in the rows that a
/// store returns.
pub open spec fn distinct_names(item: Seq<AttributeView>) -> bool {
    forall|i: int, j: int|
        0 <= i < j < item.len() ==> (#[trigger] item[i]).name != (#[trigger] item[j]).name
}

/// What is found under a name is the value of an attribute of that name, the
/// first in the row, and nothing is found exactly when the row has no such
/// attribute. In a row of distinct names that attribute is the only one of
/// its name.
pub proof fn lemma_find_attribute(item: Seq<AttributeView>, name: Seq<char>, from: int)
    requires
        0 <= from <= item.len(),
    ensures
        match find_attribute(item, name, from) {
            Some(value) => exists|i: int|
                {
                    &&& from <= i < item.len()
                    &&& (#[trigger] item[i]).name == name
                    &&& item[i].value == value
                    &&& forall|j: int| from <= j < i ==> (#[trigger] item[j]).name != name
                    &&& distinct_names(item) ==> forall|j: int|
                        0 <= j < item.len() && (#[trigger] item[j]).name == name ==> j == i
                },
            None => forall|i: int| from <= i < item.len() ==> (#[trigger] item[i]).name != name,
        },
    decreases item.len() - from,
{
    if from < item.len() && item[from].name != name {
        lemma_find_attribute(item, name, from + 1);
    }
}

/// The text of the string attribute `name` of a row.
pub open spec fn string_field(item: Seq<AttributeView>, name: Seq<char>) -> Result<
    Seq<char>,
    FieldFault,
> {
    match find_attribute(item, name, 0) {
        None => Err(FieldFault::Absent),
        Some(AttributeValueView::S(s)) => Ok(s),
        Some(_) => Err(FieldFault::WrongType),
    }
}

/// The value of the number attribute `name` of a row, which may be at most
/// `max`.
pub open spec fn number_field(item: Seq<AttributeView>, name: Seq<char>, max: nat) -> Result<
    nat,
    FieldFault,
> {
    match find_attribute(item, name, 0) {
        None => Err(FieldFault::Absent),
        Some(AttributeValueView::N(n)) => match parse_unsigned(n, max) {
            Some(v) => Ok(v),
            None => Err(FieldFault::Unparsable),
        },
        Some(_) => Err(FieldFault::WrongType),
    }
}

/// One person's birthday. The month is one of 1 to 12 and the day one of 1 to
/// 31; that the day exists in that month is not checked.
#[derive(Debug, PartialEq, Eq)]
pub struct BirthdayRecord {
    identity: u64,
    full_name: String,
    month_num: u8,
    day_num: u8,
}

pub struct BirthdayRecordView {
    pub identity: u64,
    pub full_name: Seq<char>,
    pub month_num: u8,
    pub day_num: u8,
}

impl BirthdayRecordView {
    /// The month and the day are in range.
    pub open spec fn well_formed(self) -> bool {
        is_month(self.month_num as int) && is_day(self.day_num as int)
    }

    /// The birthday falls on the given month and day.
    pub open spec fn falls_on(self, month: u32, day: u32) -> bool {
        self.month_num == month && self.day_num == day
    }
}

impl View for BirthdayRecord {
    type V = BirthdayRecordView;

    closed spec fn view(&self) -> BirthdayRecordView {
        BirthdayRecordView {
            identity: self.identity,
            full_name: self.full_name@,
            month_num: self.month_num,
            day_num: self.day_num,
        }
    }
}

/// The record that a row decodes to, or its first fault. The fields are read
/// in the order `user_id`, `fullname`, `month_num`, `day_num`, and the ranges
/// of month and day are checked last.
pub open spec fn decode_record(item: Seq<AttributeView>) -> Result<
    BirthdayRecordView,
    RecordError,
> {
    let identity = number_field(item, "user_id"@, u64::MAX as nat);
    let full_name = string_field(item, "fullname"@);
    let month_num = number_field(item, "month_num"@, u8::MAX as nat);
    let day_num = number_field(item, "day_num"@, u8::MAX as nat);
    if identity is Err {
        Err(RecordError { field: RecordField::UserId, fault: identity->Err_0 })
    } else if full_name is Err {
        Err(RecordError { field: RecordField::FullName, fault: full_name->Err_0 })
    } else if month_num is Err {
        Err(RecordError { field: RecordField::MonthNum, fault: month_num->Err_0 })
    } else if day_num is Err {
        Err(RecordError { field: RecordField::DayNum, fault: day_num->Err_0 })
    } else if !is_month(month_num->Ok_0 as int) {
        Err(RecordError { field: RecordField::MonthNum, fault: FieldFault::OutOfRange })
    } else if !is_day(day_num->Ok_0 as int) {
        Err(RecordError { field: RecordField::DayNum, fault: FieldFault::OutOfRange })
    } else {
        Ok(
            BirthdayRecordView {
                identity: identity->Ok_0 as u64,
                full_name: full_name->Ok_0,
                month_num: month_num->Ok_0 as u8,
                day_num: day_num->Ok_0 as u8,
            },
        )
    }
}

/// The month and the day of a birthday: a month of 1 to 12 and a day of 1 to
/// 31; that the day exists in that month is not checked.
#[derive(Debug, PartialEq, Eq)]
pub struct Birthday {
    month_num: u8,
    day_num: u8,
}

pub struct BirthdayView {
    pub month_num: u8,
    pub day_num: u8,
}

impl View for Birthday {
    type V = BirthdayView;

    closed spec fn view(&self) -> BirthdayView {
        BirthdayView { month_num: self.month_num, day_num: self.day_num }
    }
}

/// The birthday that a row states, or the first fault of the two fields that
/// state it; no other attribute of the row is read. `month_num` is read
/// first, then `day_num`, each of which may be absent, of the wrong type or
/// unparsable; once both are read, the month and then the day may be out of
/// range.
pub open spec fn decode_birthday(item: Seq<AttributeView>) -> Result<BirthdayView, RecordError> {
    let month_num = number_field(item, "month_num"@, u8::MAX as nat);
    let day_num = number_field(item, "day_num"@, u8::MAX as nat);
    if month_num is Err {
        Err(RecordError { field: RecordField::MonthNum, fault: month_num->Err_0 })
    } else if day_num is Err {
        Err(RecordError { field: RecordField::DayNum, fault: day_num->Err_0 })
    } else if !is_month(month_num->Ok_0 as int) {
        Err(RecordError { field: RecordField::MonthNum, fault: FieldFault::OutOfRange })
    } else if !is_day(day_num->Ok_0 as int) {
        Err(RecordError { field: RecordField::DayNum, fault: FieldFault::OutOfRange })
    } else {
        Ok(BirthdayView { month_num: month_num->Ok_0 as u8, day_num: day_num->Ok_0 as u8 })
    }
}

/// A row states a birthday exactly when its `month_num` and `day_num` are
/// numbers in range, whatever else the row holds or lacks; and a row that
/// decodes as a whole record states the birthday of that record.
pub proof fn lemma_decode_birthday(item: Seq<AttributeView>)
    ensures
        decode_birthday(item) is Ok <==> {
            &&& number_field(item, "month_num"@, u8::MAX as nat) matches Ok(m) && is_month(m as int)
            &&& number_field(item, "day_num"@, u8::MAX as nat) matches Ok(d) && is_day(d as int)
        },
        decode_record(item) matches Ok(record) ==> decode_birthday(item) == Ok::<
            BirthdayView,
            RecordError,
        >(BirthdayView { month_num: record.month_num, day_num: record.day_num }),
{
}

/// The first attribute of `item` named `name`.
pub fn lookup_attribute<'a>(item: &'a Vec<Attribute>, name: &str) -> (found: Option<
    &'a AttributeValue,
>)
    ensures
        found matches Some(v) ==> find_attribute(item_view(item@), name@, 0) == Some(v@),
        found is None ==> find_attribute(item_view(item@), name@, 0) is None,
{
    let ghost views = item_view(item@);
    let mut i: usize = 0;
    while i < item.len()
        invariant
            i <= item@.len(),
            views == item_view(item@),
            find_attribute(views, name@, 0) == find_attribute(views, name@, i as int),
        decreases item@.len() - i,
    {
        assert(views[i as int] == item@[i as int]@);
        if same_text(item[i].name.as_str(), name) {
            return Some(&item[i].value);
        }
        i += 1;
    }
    None
}

/// Reads the string attribute `name` of a row.
pub fn read_string_field(item: &Vec<Attribute>, name: &str) -> (r: Result<String, FieldFault>)
    ensures
        r matches Ok(s) ==> string_field(item_view(item@), name@) == Ok::<Seq<char>, FieldFault>(
            s@,
        ),
        r matches Err(e) ==> string_field(item_view(item@), name@) == Err::<Seq<char>, FieldFault>(
            e,
        ),
{
    match lookup_attribute(item, name) {
        None => Err(FieldFault::Absent),
        Some(AttributeValue::S(s)) => Ok(s.clone()),
        Some(_) => Err(FieldFault::WrongType),
    }
}

/// Reads the number attribute `name` of a row as an identity.
pub fn read_u64_field(item: &Vec<Attribute>, name: &str) -> (r: Result<u64, FieldFault>)
    ensures
        r matches Ok(n) ==> number_field(item_view(item@), name@, u64::MAX as nat) == Ok::<
            nat,
            FieldFault,
        >(n as nat),
        r matches Err(e) ==> number_field(item_view(item@), name@, u64::MAX as nat) == Err::<
            nat,
            FieldFault,
        >(e),
{
    match lookup_attribute(item, name) {
        None => Err(FieldFault::Absent),
        Some(AttributeValue::N(n)) => match parse_u64(n.as_str()) {
            Some(v) => Ok(v),
            None => Err(FieldFault::Unparsable),
        },
        Some(_) => Err(FieldFault::WrongType),
    }
}

/// Reads the number attribute `name` of a row as a month or day number.
pub fn read_u8_field(item: &Vec<Attribute>, name: &str) -> (r: Result<u8, FieldFault>)
    ensures
        r matches Ok(n) ==> number_field(item_view(item@), name@, u8::MAX as nat) == Ok::<
            nat,
            FieldFault,
        >(n as nat),
        r matches Err(e) ==> number_field(item_view(item@), name@, u8::MAX as nat) == Err::<
            nat,
            FieldFault,
        >(e),
{
    match lookup_attribute(item, name) {
        None => Err(FieldFault::Absent),
        Some(AttributeValue::N(n)) => match parse_u8(n.as_str()) {
            Some(v) => Ok(v),
            None => Err(FieldFault::Unparsable),
        },
        Some(_) => Err(FieldFault::WrongType),
    }
}

impl Birthday {
    #[verifier::type_invariant]
    spec fn in_range(self) -> bool {
        is_month(self.month_num as int) && is_day(self.day_num as int)
    }

    /// The birthday of the given month and day, or the number that is out of
    /// range: the month is tested before the day.
    pub fn new(month_num: u8, day_num: u8) -> (r: Result<Birthday, RecordError>)
        ensures
            !is_month(month_num as int) ==> r == Err::<Birthday, RecordError>(
                RecordError { field: RecordField::MonthNum, fault: FieldFault::OutOfRange },
            ),
            is_month(month_num as int) && !is_day(day_num as int) ==> r == Err::<
                Birthday,
                RecordError,
            >(RecordError { field: RecordField::DayNum, fault: FieldFault::OutOfRange }),
            is_month(month_num as int) && is_day(day_num as int) ==> (r matches Ok(birthday)
                && birthday@ == BirthdayView { month_num, day_num }),
    {
        if !(1 <= month_num && month_num <= 12) {
            Err(RecordError { field: RecordField::MonthNum, fault: FieldFault::OutOfRange })
        } else if !(1 <= day_num && day_num <= 31) {
            Err(RecordError { field: RecordField::DayNum, fault: FieldFault::OutOfRange })
        } else {
            Ok(Birthday { month_num, day_num })
        }
    }

    /// Reads the birthday that a stored row states, from its attributes
    /// `month_num` and `day_num` alone.
    pub fn from_item(item: &Vec<Attribute>) -> (r: Result<Birthday, RecordError>)
        ensures
            r matches Ok(birthday) ==> decode_birthday(item_view(item@)) == Ok::<
                BirthdayView,
                RecordError,
            >(birthday@),
            r matches Err(e) ==> decode_birthday(item_view(item@)) == Err::<
                BirthdayView,
                RecordError,
            >(e),
    {
        let month_num = match read_u8_field(item, "month_num") {
            Ok(v) => v,
            Err(fault) => { return Err(RecordError { field: RecordField::MonthNum, fault }); },
        };
        let day_num = match read_u8_field(item, "day_num") {
            Ok(v) => v,
            Err(fault) => { return Err(RecordError { field: RecordField::DayNum, fault }); },
        };
        Birthday::new(month_num, day_num)
    }

    pub fn month_num(&self) -> (month_num: u8)
        ensures
            month_num == self@.month_num,
            is_month(month_num as int),
    {
        proof {
            use_type_invariant(self);
        }
        self.month_num
    }

    pub fn day_num(&self) -> (day_num: u8)
        ensures
            day_num == self@.day_num,
            is_day(day_num as int),
    {
        proof {
            use_type_invariant(self);
        }
        self.day_num
    }
}

impl BirthdayRecord {
    #[verifier::type_invariant]
    spec fn in_range(self) -> bool {
        is_month(self.month_num as int) && is_day(self.day_num as int)
    }

    /// A record of the given values, or the field that is out of range: the
    /// month is tested before the day.
    pub fn new(identity: u64, full_name: String, month_num: u8, day_num: u8) -> (r: Result<
        BirthdayRecord,
        RecordError,
    >)
        ensures
            !is_month(month_num as int) ==> r == Err::<BirthdayRecord, RecordError>(
                RecordError { field: RecordField::MonthNum, fault: FieldFault::OutOfRange },
            ),
            is_month(month_num as int) && !is_day(day_num as int) ==> r == Err::<
                BirthdayRecord,
                RecordError,
            >(RecordError { field: RecordField::DayNum, fault: FieldFault::OutOfRange }),
            is_month(month_num as int) && is_day(day_num as int) ==> (r matches Ok(record)
                && record@ == BirthdayRecordView {
                identity,
                full_name: full_name@,
                month_num,
                day_num,
            }),
    {
        if !(1 <= month_num && month_num <= 12) {
            Err(RecordError { field: RecordField::MonthNum, fault: FieldFault::OutOfRange })
        } else if !(1 <= day_num && day_num <= 31) {
            Err(RecordError { field: RecordField::DayNum, fault: FieldFault::OutOfRange })
        } else {
            Ok(BirthdayRecord { identity, full_name, month_num, day_num })
        }
    }

    /// Decodes a stored row. The attributes `user_id`, `month_num` and
    /// `day_num` are numbers and `fullname` is a string.
    pub fn from_item(item: &Vec<Attribute>) -> (r: Result<BirthdayRecord, RecordError>)
        ensures
            r matches Ok(record) ==> decode_record(item_view(item@)) == Ok::<
                BirthdayRecordView,
                RecordError,
            >(record@),
            r matches Err(e) ==> decode_record(item_view(item@)) == Err::<
                BirthdayRecordView,
                RecordError,
            >(e),
    {
        let identity = match read_u64_field(item, "user_id") {
            Ok(v) => v,
            Err(fault) => { return Err(RecordError { field: RecordField::UserId, fault }); },
        };
        let full_name = match read_string_field(item, "fullname") {
            Ok(v) => v,
            Err(fault) => { return Err(RecordError { field: RecordField::FullName, fault }); },
        };
        let month_num = match read_u8_field(item, "month_num") {
            Ok(v) => v,
            Err(fault) => { return Err(RecordError { field: RecordField::MonthNum, fault }); },
        };
        let day_num = match read_u8_field(item, "day_num") {
            Ok(v) => v,
            Err(fault) => { return Err(RecordError { field: RecordField::DayNum, fault }); },
        };
        BirthdayRecord::new(identity, full_name, month_num, day_num)
    }

    pub fn identity(&self) -> (identity: u64)
        ensures
            identity == self@.identity,
    {
        self.identity
    }

    pub fn full_name(&self) -> (full_name: &String)
        ensures
            full_name@ == self@.full_name,
    {
        &self.full_name
    }

    pub fn month_num(&self) -> (month_num: u8)
        ensures
            month_num == self@.month_num,
            is_month(month_num as int),
    {
        proof {
            use_type_invariant(self);
        }
        self.month_num
    }

    pub fn day_num(&self) -> (day_num: u8)
        ensures
            day_num == self@.day_num,
            is_day(day_num as int),
    {
        proof {
            use_type_invariant(self);
        }
        self.day_num
    }

    /// The month and the day of the record.
    pub fn birthday(&self) -> (birthday: Birthday)
        ensures
            birthday@ == (BirthdayView {
                month_num: self@.month_num,
                day_num: self@.day_num,
            }),
    {
        proof {
            use_type_invariant(self);
        }
        Birthday { month_num: self.month_num, day_num: self.day_num }
    }

    /// A record with the same values.
    pub fn duplicate(&self) -> (copy: BirthdayRecord)
        ensures
            copy@ == self@,
    {
        proof {
            use_type_invariant(self);
        }
        BirthdayRecord {
            identity: self.identity,
            full_name: self.full_name.clone(),
            month_num: self.month_num,
            day_num: self.day_num,
        }
    }
}

/// The views of the records, in order.
pub open spec fn record_views(records: Seq<BirthdayRecord>) -> Seq<BirthdayRecordView> {
    records.map_values(|r: BirthdayRecord| r@)
}

/// The records whose birthday falls on the given month and day, in the order
/// in which they are stored.
pub open spec fn on_date(records: Seq<BirthdayRecordView>, month: u32, day: u32) -> Seq<
    BirthdayRecordView,
> {
    records.filter(|r: BirthdayRecordView| r.falls_on(month, day))
}

/// The first record at or after index `from` that has the given identity.
pub open spec fn first_with_identity(
    records: Seq<BirthdayRecordView>,
    identity: u64,
    from: int,
) -> Option<BirthdayRecordView>
    decreases records.len() - from,
{
    if 0 <= from < records.len() {
        if records[from].identity == identity {
            Some(records[from])
        } else {
            first_with_identity(records, identity, from + 1)
        }
    } else {
        None
    }
}

/// No two records have the same identity.
pub open spec fn distinct_identities(records: Seq<BirthdayRecordView>) -> bool {
    forall|i: int, j: int|
        0 <= i < j < records.len() ==> #[trigger] records[i].identity
            != #[trigger] records[j].identity
}

/// A lookup by date returns every stored record whose month and day are the
/// given ones and no other record; it is empty exactly when no record matches.
pub proof fn lemma_on_date_exact(records: Seq<BirthdayRecordView>, month: u32, day: u32)
    ensures
        forall|i: int|
            0 <= i < records.len() && (#[trigger] records[i]).falls_on(month, day) ==> on_date(
                records,
                month,
                day,
            ).contains(records[i]),
        forall|k: int|
            0 <= k < on_date(records, month, day).len() ==> {
                &&& (#[trigger] on_date(records, month, day)[k]).falls_on(month, day)
                &&& records.contains(on_date(records, month, day)[k])
            },
        on_date(records, month, day).len() == 0 <==> forall|i: int|
            0 <= i < records.len() ==> !(#[trigger] records[i]).falls_on(month, day),
{
    let pred = |r: BirthdayRecordView| r.falls_on(month, day);
    let found = records.filter(pred);
    assert(found == on_date(records, month, day));
    assert forall|i: int| 0 <= i < records.len() && (#[trigger] records[i]).falls_on(
        month,
        day,
    ) implies found.contains(records[i]) by {
        records.lemma_filter_contains(pred, i);
    }
    assert forall|k: int| 0 <= k < found.len() implies (#[trigger] found[k]).falls_on(month, day)
        && records.contains(found[k]) by {
        records.lemma_filter_pred(pred, k);
        assert(found.contains(found[k]));
        records.lemma_filter_contains_rev(pred, found[k]);
    }
    if found.len() > 0 {
        assert(records.contains(found[0]));
        let i = choose|i: int| 0 <= i < records.len() && records[i] == found[0];
        assert(records[i].falls_on(month, day));
    }
}

/// A lookup by identity returns a stored record of that identity, the first
/// in stored order, and returns none exactly when no record has it. Where the
/// identities are distinct, that record is the only one.
pub proof fn lemma_first_with_identity(records: Seq<BirthdayRecordView>, identity: u64, from: int)
    requires
        0 <= from <= records.len(),
    ensures
        match first_with_identity(records, identity, from) {
            Some(found) => exists|i: int|
                {
                    &&& from <= i < records.len()
                    &&& #[trigger] records[i] == found
                    &&& found.identity == identity
                    &&& forall|j: int| from <= j < i ==> (#[trigger] records[j]).identity != identity
                    &&& distinct_identities(records) ==> forall|j: int|
                        0 <= j < records.len() && (#[trigger] records[j]).identity == identity
                            ==> j == i
                },
            None => forall|i: int|
                from <= i < records.len() ==> (#[trigger] records[i]).identity != identity,
        },
    decreases records.len() - from,
{
    if from < records.len() && records[from].identity != identity {
        lemma_first_with_identity(records, identity, from + 1);
    }
}

/// What a lookup in the birthday table asks of the store that keeps it.
#[derive(Debug, PartialEq, Eq)]
pub struct KeyQuery {
    /// The secondary index to read, or `None` for the primary key.
    pub index_name: Option<String>,
    /// The condition on the key, over the placeholders below.
    pub key_condition_expression: String,
    /// Each name placeholder with the attribute that it stands for.
    pub attribute_names: Vec<(String, String)>,
    /// Each value placeholder with the value that it stands for.
    pub attribute_values: Vec<(String, AttributeValue)>,
}

/// The birthday table as this core reads it: rows that a store has handed
/// over, read by calendar date or by identity.
#[derive(Debug, PartialEq, Eq)]
pub struct BirthdaysDBClient {
    records: Vec<BirthdayRecord>,
}

impl View for BirthdaysDBClient {
    type V = Seq<BirthdayRecordView>;

    closed spec fn view(&self) -> Seq<BirthdayRecordView> {
        record_views(self.records@)
    }
}

impl BirthdaysDBClient {
    /// A table of the given records, in the given order.
    pub fn new(records: Vec<BirthdayRecord>) -> (client: BirthdaysDBClient)
        ensures
            client@ == record_views(records@),
    {
        BirthdaysDBClient { records }
    }

    /// Every record whose birthday falls on the given month and day, in
    /// stored order; empty when there is none.
    pub fn get_todays_birthdays(&self, month: u32, day: u32) -> (found: Vec<BirthdayRecord>)
        ensures
            record_views(found@) == on_date(self@, month, day),
    {
        let ghost all = record_views(self.records@);
        let mut found: Vec<BirthdayRecord> = Vec::new();
        let mut i: usize = 0;
        proof {
            reveal(Seq::filter);
            assert(all.take(0) =~= Seq::<BirthdayRecordView>::empty());
            assert(record_views(found@) =~= on_date(all.take(0), month, day));
        }
        while i < self.records.len()
            invariant
                i <= self.records@.len(),
                all == record_views(self.records@),
                record_views(found@) == on_date(all.take(i as int), month, day),
            decreases self.records@.len() - i,
        {
            let record = &self.records[i];
            let ghost before = record_views(found@);
            proof {
                reveal(Seq::filter);
                assert(all.take(i as int + 1).drop_last() =~= all.take(i as int));
                assert(all.take(i as int + 1).last() == record@);
            }
            if record.month_num() as u32 == month && record.day_num() as u32 == day {
                found.push(record.duplicate());
                assert(record_views(found@) =~= before.push(record@));
            }
            i += 1;
        }
        assert(all.take(i as int) =~= all);
        found
    }

    /// The record of the given identity: the first in stored order where
    /// several have it, `None` where none has it.
    pub fn get_birthday_by_user_id(&self, user_id: u64) -> (found: Option<BirthdayRecord>)
        ensures
            found matches Some(record) ==> first_with_identity(self@, user_id, 0) == Some(record@),
            found is None ==> first_with_identity(self@, user_id, 0) is None,
    {
        let ghost all = record_views(self.records@);
        let mut i: usize = 0;
        while i < self.records.len()
            invariant
                i <= self.records@.len(),
                all == record_views(self.records@),
                first_with_identity(all, user_id, 0) == first_with_identity(all, user_id, i as int),
            decreases self.records@.len() - i,
        {
            let record = &self.records[i];
            assert(all[i as int] == record@);
            if record.identity() == user_id {
                return Some(record.duplicate());
            }
            i += 1;
        }
        None
    }

    /// The query for the rows of one calendar date: both keys of the index
    /// `month-day-index` are to equal the given numbers.
    pub fn todays_birthdays_query(month: u32, day: u32) -> (query: KeyQuery)
        ensures
            query.index_name matches Some(name) && name@ == "month-day-index"@,
            query.key_condition_expression@ == "#mon = :monnum and #day = :daynum"@,
            query.attribute_names@.len() == 2,
            query.attribute_names@[0].0@ == "#mon"@,
            query.attribute_names@[0].1@ == "month_num"@,
            query.attribute_names@[1].0@ == "#day"@,
            query.attribute_names@[1].1@ == "day_num"@,
            query.attribute_values@.len() == 2,
            query.attribute_values@[0].0@ == ":monnum"@,
            query.attribute_values@[0].1@ == AttributeValueView::N(decimal_text(month as nat)),
            query.attribute_values@[1].0@ == ":daynum"@,
            query.attribute_values@[1].1@ == AttributeValueView::N(decimal_text(day as nat)),
    {
        let mut attribute_names: Vec<(String, String)> = Vec::new();
        attribute_names.push((String::from_str("#mon"), String::from_str("month_num")));
        attribute_names.push((String::from_str("#day"), String::from_str("day_num")));
        let mut attribute_values: Vec<(String, AttributeValue)> = Vec::new();
        attribute_values.push(
            (String::from_str(":monnum"), AttributeValue::N(decimal_string(month as u64))),
        );
        attribute_values.push(
            (String::from_str(":daynum"), AttributeValue::N(decimal_string(day as u64))),
        );
        KeyQuery {
            index_name: Some(String::from_str("month-day-index")),
            key_condition_expression: String::from_str("#mon = :monnum and #day = :daynum"),
            attribute_names,
            attribute_values,
        }
    }

    /// The query for the row of one identity: the primary key `user_id` is to
    /// equal the given number.
    pub fn birthday_by_user_id_query(user_id: u64) -> (query: KeyQuery)
        ensures
            query.index_name is None,
            query.key_condition_expression@ == "#userid = :userid"@,
            query.attribute_names@.len() == 1,
            query.attribute_names@[0].0@ == "#userid"@,
            query.attribute_names@[0].1@ == "user_id"@,
            query.attribute_values@.len() == 1,
            query.attribute_values@[0].0@ == ":userid"@,
            query.attribute_values@[0].1@ == AttributeValueView::N(decimal_text(user_id as nat)),
    {
        let mut attribute_names: Vec<(String, String)> = Vec::new();
        attribute_names.push((String::from_str("#userid"), String::from_str("user_id")));
        let mut attribute_values: Vec<(String, AttributeValue)> = Vec::new();
        attribute_values.push(
            (String::from_str(":userid"), AttributeValue::N(decimal_string(user_id))),
        );
        KeyQuery {
            index_name: None,
            key_condition_expression: String::from_str("#userid = :userid"),
            attribute_names,
            attribute_values,
        }
    }
}

/// The views of the rows, in order.
pub open spec fn row_views(rows: Seq<Vec<Attribute>>) -> Seq<Seq<AttributeView>> {
    rows.map_values(|row: Vec<Attribute>| item_view(row@))
}

/// The records that the well-formed rows decode to, in the order of the rows.
pub open spec fn decoded_rows(rows: Seq<Seq<AttributeView>>) -> Seq<BirthdayRecordView> {
    rows.filter_map(
        |row: Seq<AttributeView>|
            match decode_record(row) {
                Ok(record) => Some(record),
                Err(_) => None,
            },
    )
}

/// The faults of the malformed rows, in the order of the rows.
pub open spec fn row_faults(rows: Seq<Seq<AttributeView>>) -> Seq<RecordError> {
    rows.filter_map(
        |row: Seq<AttributeView>|
            match decode_record(row) {
                Ok(_) => None,
                Err(e) => Some(e),
            },
    )
}

/// Decodes the rows that a store returned, each by itself: a malformed row
/// is reported and does not stand in the way of the others.
pub fn decode_rows(rows: &Vec<Vec<Attribute>>) -> (decoded: (Vec<BirthdayRecord>, Vec<RecordError>))
    ensures
        record_views(decoded.0@) == decoded_rows(row_views(rows@)),
        decoded.1@ == row_faults(row_views(rows@)),
{
    let ghost all = row_views(rows@);
    let mut records: Vec<BirthdayRecord> = Vec::new();
    let mut faults: Vec<RecordError> = Vec::new();
    let mut i: usize = 0;
    proof {
        assert(all.take(0) =~= Seq::<Seq<AttributeView>>::empty());
        assert(record_views(records@) =~= decoded_rows(all.take(0)));
        assert(faults@ =~= row_faults(all.take(0)));
    }
    while i < rows.len()
        invariant
            i <= rows@.len(),
            all == row_views(rows@),
            record_views(records@) == decoded_rows(all.take(i as int)),
            faults@ == row_faults(all.take(i as int)),
        decreases rows@.len() - i,
    {
        let ghost records_before = record_views(records@);
        let ghost faults_before = faults@;
        proof {
            assert(all.take(i as int + 1).drop_last() =~= all.take(i as int));
            assert(all.take(i as int + 1).last() == item_view(rows@[i as int]@));
        }
        match BirthdayRecord::from_item(&rows[i]) {
            Ok(record) => {
                let ghost view = record@;
                records.push(record);
                assert(record_views(records@) =~= records_before + seq![view]);
            },
            Err(e) => {
                faults.push(e);
                assert(faults@ =~= faults_before + seq![e]);
            },
        }
        i += 1;
    }
    assert(all.take(i as int) =~= all);
    (records, faults)
}

} // verus!
