//! Display strings for calendar dates: the English month name and the day with
//! its ordinal suffix.

use crate::text::{decimal_string, decimal_text};
use vstd::prelude::*;
use vstd::string::*;

verus! {

/// Why a date could not be formatted.
#[derive(Clone, Copy, Debug, PartialEq, Eq, Structural)]
pub enum DateError {
    /// The month number is not one of 1 to 12.
    OutOfRange,
}

/// Whether `month_num` numbers a month of the calendar.
pub open spec fn is_month(month_num: int) -> bool {
    1 <= month_num <= 12
}

/// Whether `day_num` numbers a day of some month.
pub open spec fn is_day(day_num: int) -> bool {
    1 <= day_num <= 31
}

/// The full English name of month `month_num`, January being 1.
pub open spec fn month_name(month_num: int) -> Seq<char>
    recommends
        is_month(month_num),
{
    if month_num == 1 {
        "January"@
    } else if month_num == 2 {
        "February"@
    } else if month_num == 3 {
        "March"@
    } else if month_num == 4 {
        "April"@
    } else if month_num == 5 {
        "May"@
    } else if month_num == 6 {
        "June"@
    } else if month_num == 7 {
        "July"@
    } else if month_num == 8 {
        "August"@
    } else if month_num == 9 {
        "September"@
    } else if month_num == 10 {
        "October"@
    } else if month_num == 11 {
        "November"@
    } else {
        "December"@
    }
}

/// What asking for the name of month `month_num` gives: the name for the
/// numbers 1 to 12, and `OutOfRange` for every other number.
pub open spec fn checked_month_name(month_num: int) -> Result<Seq<char>, DateError> {
    if is_month(month_num) {
        Ok(month_name(month_num))
    } else {
        Err(DateError::OutOfRange)
    }
}

/// The name of a month is had exactly for the numbers 1 to 12, each of which
/// has the English name of its month; for any other number the request
/// fails as out of range and yields no name.
pub proof fn lemma_month_name_exactly_in_range(month_num: int)
    ensures
        checked_month_name(month_num) is Ok <==> 1 <= month_num <= 12,
        checked_month_name(month_num) is Err <==> month_num < 1 || month_num > 12,
        checked_month_name(month_num) matches Err(e) ==> e == DateError::OutOfRange,
        checked_month_name(1) == Ok::<Seq<char>, DateError>("January"@),
        checked_month_name(2) == Ok::<Seq<char>, DateError>("February"@),
        checked_month_name(3) == Ok::<Seq<char>, DateError>("March"@),
        checked_month_name(4) == Ok::<Seq<char>, DateError>("April"@),
        checked_month_name(5) == Ok::<Seq<char>, DateError>("May"@),
        checked_month_name(6) == Ok::<Seq<char>, DateError>("June"@),
        checked_month_name(7) == Ok::<Seq<char>, DateError>("July"@),
        checked_month_name(8) == Ok::<Seq<char>, DateError>("August"@),
        checked_month_name(9) == Ok::<Seq<char>, DateError>("September"@),
        checked_month_name(10) == Ok::<Seq<char>, DateError>("October"@),
        checked_month_name(11) == Ok::<Seq<char>, DateError>("November"@),
        checked_month_name(12) == Ok::<Seq<char>, DateError>("December"@),
{
}

/// The English ordinal suffix of `day_num`: "th" from 11 to 19, else "st",
/// "nd" or "rd" after a last digit of 1, 2 or 3, and "th" after any other.
pub open spec fn ordinal_suffix(day_num: int) -> Seq<char> {
    if 10 < day_num < 20 {
        "th"@
    } else if day_num % 10 == 1 {
        "st"@
    } else if day_num % 10 == 2 {
        "nd"@
    } else if day_num % 10 == 3 {
        "rd"@
    } else {
        "th"@
    }
}

/// `day_num` in decimal, followed by its ordinal suffix.
pub open spec fn ordinal_text(day_num: nat) -> Seq<char> {
    decimal_text(day_num) + ordinal_suffix(day_num as int)
}

/// The name of the month `month_num`, one of 1 to 12.
pub(crate) fn month_name_text(month_num: u8) -> (name: &'static str)
    requires
        1 <= month_num <= 12,
    ensures
        name@ == month_name(month_num as int),
{
    if month_num == 1 {
        "January"
    } else if month_num == 2 {
        "February"
    } else if month_num == 3 {
        "March"
    } else if month_num == 4 {
        "April"
    } else if month_num == 5 {
        "May"
    } else if month_num == 6 {
        "June"
    } else if month_num == 7 {
        "July"
    } else if month_num == 8 {
        "August"
    } else if month_num == 9 {
        "September"
    } else if month_num == 10 {
        "October"
    } else if month_num == 11 {
        "November"
    } else {
        "December"
    }
}

/// The name of month `month_num`. It fails, as `OutOfRange` and without a
/// name, exactly for the numbers outside 1 to 12.
pub fn month_num_to_str(month_num: u8) -> (r: Result<String, DateError>)
    ensures
        r is Err <==> month_num < 1 || month_num > 12,
        r matches Ok(name) ==> 1 <= month_num <= 12 && name@ == month_name(month_num as int),
        r matches Err(e) ==> e == DateError::OutOfRange,
        r matches Ok(name) ==> checked_month_name(month_num as int) == Ok::<
            Seq<char>,
            DateError,
        >(name@),
        r matches Err(e) ==> checked_month_name(month_num as int) == Err::<Seq<char>, DateError>(
            e,
        ),
{
    if 1 <= month_num && month_num <= 12 {
        Ok(String::from_str(month_name_text(month_num)))
    } else {
        Err(DateError::OutOfRange)
    }
}

/// `day_num` with its English ordinal suffix: "1st", "2nd", "3rd", "4th",
/// "11th", "21st".
pub fn day_num_to_ordinal(day_num: u8) -> (ordinal: String)
    ensures
        ordinal@ == ordinal_text(day_num as nat),
{
    let ones_place: u8 = day_num % 10;
    let suffix = if 20 > day_num && day_num > 10 {
        "th"
    } else if ones_place == 1 {
        "st"
    } else if ones_place == 2 {
        "nd"
    } else if ones_place == 3 {
        "rd"
    } else {
        "th"
    };
    let mut ordinal = decimal_string(day_num as u64);
    ordinal.append(suffix);
    ordinal
}

} // verus!
