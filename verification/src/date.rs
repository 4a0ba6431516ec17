//! Calendar timestamps assembled from captured date parts.
//!
//! The required groups are year, month and day; hour, minute and second each
//! default to zero when absent. A missing required group, an unparseable
//! group and an impossible calendar combination are three distinct errors.

use vstd::prelude::*;
use vstd::arithmetic::div_mod::lemma_mod_multiples_vanish;
use crate::num::spec_int_val;
use crate::num::spec_int_valid;
use crate::num::spec_uint_val;
use crate::num::spec_uint_valid;
use crate::num::parse_i32_str;
use crate::num::parse_u32_str;
use crate::InvoiceParseError;
use crate::ParseErrorModel;

verus! {

/// A calendar timestamp with its validity invariant stated by
/// `spec_valid_date`.
#[derive(Clone, Copy, PartialEq, Eq, Structural, Debug)]
pub struct InvoiceDateTime {
    pub year: i32,
    pub month: u8,
    pub day: u8,
    pub hour: u8,
    pub minute: u8,
    pub second: u8,
}

pub open spec fn spec_is_leap_year(y: int) -> bool {
    (y % 4 == 0 && y % 100 != 0) || y % 400 == 0
}

pub open spec fn spec_days_in_month(y: int, m: int) -> int {
    if m == 2 {
        if spec_is_leap_year(y) {
            29
        } else {
            28
        }
    } else if m == 4 || m == 6 || m == 9 || m == 11 {
        30
    } else {
        31
    }
}

/// Whether the fields denote a real timestamp of the supported year range.
pub open spec fn spec_valid_date(dt: InvoiceDateTime) -> bool {
    &&& -9999 <= dt.year <= 9999
    &&& 1 <= dt.month <= 12
    &&& 1 <= dt.day <= spec_days_in_month(dt.year as int, dt.month as int)
    &&& dt.hour < 24
    &&& dt.minute < 60
    &&& dt.second < 60
}

impl InvoiceDateTime {
    /// Builds a timestamp after checking that it denotes a real calendar
    /// date and time.
    pub fn new(year: i32, month: u32, day: u32, hour: u32, minute: u32, second: u32) -> (r: Result<
        InvoiceDateTime,
        InvoiceParseError,
    >)
        ensures
            (r matches Ok(dt) ==> {
                &&& dt.year == year && dt.month == month && dt.day == day
                &&& dt.hour == hour && dt.minute == minute && dt.second == second
                &&& spec_valid_date(dt)
            }),
            (r matches Err(e) ==> e@ == ParseErrorModel::InvalidCalendarDate),
            (r is Ok) == Self::spec_fields_valid(year, month, day, hour, minute, second),
    {
        if year < -9999 || year > 9999 || month < 1 || month > 12 || day < 1 || hour >= 24
            || minute >= 60 || second >= 60 {
            return Err(InvoiceParseError::InvalidCalendarDate);
        }
        let dim = days_in_month(year, month as u8);
        if day > dim as u32 {
            return Err(InvoiceParseError::InvalidCalendarDate);
        }
        Ok(
            InvoiceDateTime {
                year,
                month: month as u8,
                day: day as u8,
                hour: hour as u8,
                minute: minute as u8,
                second: second as u8,
            },
        )
    }

    /// Whether the raw field values pass the calendar check.
    pub open spec fn spec_fields_valid(
        year: i32,
        month: u32,
        day: u32,
        hour: u32,
        minute: u32,
        second: u32,
    ) -> bool {
        &&& -9999 <= year <= 9999
        &&& 1 <= month <= 12
        &&& 1 <= day <= spec_days_in_month(year as int, month as int)
        &&& hour < 24 && minute < 60 && second < 60
    }
}

/// The number of days of a month.
pub fn days_in_month(year: i32, month: u8) -> (r: u8)
    requires
        -9999 <= year <= 9999,
    ensures
        r == spec_days_in_month(year as int, month as int),
{
    if month == 2 {
        // shifting by 10000, a multiple of 400, keeps the leap-year pattern
        // and stays in unsigned range
        let yy: u32 = (year + 10000) as u32;
        proof {
            lemma_mod_multiples_vanish(2500, year as int, 4);
            lemma_mod_multiples_vanish(100, year as int, 100);
            lemma_mod_multiples_vanish(25, year as int, 400);
        }
        let leap = (yy % 4 == 0 && yy % 100 != 0) || yy % 400 == 0;
        if leap {
            29
        } else {
            28
        }
    } else if month == 4 || month == 6 || month == 9 || month == 11 {
        30
    } else {
        31
    }
}

/// The captured date parts handed to assembly.
pub struct DateGroups {
    pub year: Option<Seq<char>>,
    pub month: Option<Seq<char>>,
    pub day: Option<Seq<char>>,
    pub hour: Option<Seq<char>>,
    pub minute: Option<Seq<char>>,
    pub second: Option<Seq<char>>,
}

/// A required group: absent is a missing date field, unparseable is a number
/// format error.
pub open spec fn spec_req_uint(o: Option<Seq<char>>, name: Seq<char>) -> Result<
    int,
    ParseErrorModel,
> {
    match o {
        Option::None => Result::Err(ParseErrorModel::DateFieldMissing(name)),
        Option::Some(s) => if spec_uint_valid(s) && spec_uint_val(s) <= u32::MAX {
            Result::Ok(spec_uint_val(s) as int)
        } else {
            Result::Err(ParseErrorModel::NumberFormat(s))
        },
    }
}

/// An optional group: absent means zero.
pub open spec fn spec_opt_uint(o: Option<Seq<char>>) -> Result<int, ParseErrorModel> {
    match o {
        Option::None => Result::Ok(0),
        Option::Some(s) => if spec_uint_valid(s) && spec_uint_val(s) <= u32::MAX {
            Result::Ok(spec_uint_val(s) as int)
        } else {
            Result::Err(ParseErrorModel::NumberFormat(s))
        },
    }
}

pub open spec fn spec_req_year(o: Option<Seq<char>>) -> Result<int, ParseErrorModel> {
    match o {
        Option::None => Result::Err(ParseErrorModel::DateFieldMissing("year"@)),
        Option::Some(s) => if spec_int_valid(s) && i32::MIN <= spec_int_val(s) <= i32::MAX {
            Result::Ok(spec_int_val(s))
        } else {
            Result::Err(ParseErrorModel::NumberFormat(s))
        },
    }
}

/// What date assembly yields for the given groups: the timestamp, or the
/// first error in the order year, month, day, hour, minute, second, calendar
/// check.
pub open spec fn spec_assemble_date(g: DateGroups) -> Result<InvoiceDateTime, ParseErrorModel> {
    match spec_req_year(g.year) {
        Result::Err(e) => Result::Err(e),
        Result::Ok(y) => match spec_req_uint(g.month, "month"@) {
            Result::Err(e) => Result::Err(e),
            Result::Ok(m) => match spec_req_uint(g.day, "day"@) {
                Result::Err(e) => Result::Err(e),
                Result::Ok(d) => match spec_opt_uint(g.hour) {
                    Result::Err(e) => Result::Err(e),
                    Result::Ok(h) => match spec_opt_uint(g.minute) {
                        Result::Err(e) => Result::Err(e),
                        Result::Ok(mi) => match spec_opt_uint(g.second) {
                            Result::Err(e) => Result::Err(e),
                            Result::Ok(sec) => if InvoiceDateTime::spec_fields_valid(
                                y as i32,
                                m as u32,
                                d as u32,
                                h as u32,
                                mi as u32,
                                sec as u32,
                            ) {
                                Result::Ok(
                                    InvoiceDateTime {
                                        year: y as i32,
                                        month: m as u8,
                                        day: d as u8,
                                        hour: h as u8,
                                        minute: mi as u8,
                                        second: sec as u8,
                                    },
                                )
                            } else {
                                Result::Err(ParseErrorModel::InvalidCalendarDate)
                            },
                        },
                    },
                },
            },
        },
    }
}

/// The deep view of the six optional capture strings.
pub open spec fn spec_date_groups(
    year: &Option<String>,
    month: &Option<String>,
    day: &Option<String>,
    hour: &Option<String>,
    minute: &Option<String>,
    second: &Option<String>,
) -> DateGroups {
    DateGroups {
        year: year.deep_view(),
        month: month.deep_view(),
        day: day.deep_view(),
        hour: hour.deep_view(),
        minute: minute.deep_view(),
        second: second.deep_view(),
    }
}

fn req_uint(o: &Option<String>, name: &str) -> (r: Result<u32, InvoiceParseError>)
    ensures
        (match r {
            Ok(v) => spec_req_uint(o.deep_view(), name@) == Result::<int, ParseErrorModel>::Ok(
                v as int,
            ),
            Err(e) => spec_req_uint(o.deep_view(), name@) == Result::<
                int,
                ParseErrorModel,
            >::Err(e@),
        }),
{
    match o {
        Option::None => Err(InvoiceParseError::DateFieldMissing(name.to_owned())),
        Option::Some(s) => match parse_u32_str(s.as_str()) {
            Option::Some(v) => Ok(v),
            Option::None => Err(InvoiceParseError::NumberFormat(s.clone())),
        },
    }
}

fn opt_uint(o: &Option<String>) -> (r: Result<u32, InvoiceParseError>)
    ensures
        (match r {
            Ok(v) => spec_opt_uint(o.deep_view()) == Result::<int, ParseErrorModel>::Ok(v as int),
            Err(e) => spec_opt_uint(o.deep_view()) == Result::<int, ParseErrorModel>::Err(e@),
        }),
{
    match o {
        Option::None => Ok(0),
        Option::Some(s) => match parse_u32_str(s.as_str()) {
            Option::Some(v) => Ok(v),
            Option::None => Err(InvoiceParseError::NumberFormat(s.clone())),
        },
    }
}

/// Assembles a calendar timestamp from captured date parts: year, month and
/// day are required, the time parts default to zero.
pub fn assemble_date(
    year: &Option<String>,
    month: &Option<String>,
    day: &Option<String>,
    hour: &Option<String>,
    minute: &Option<String>,
    second: &Option<String>,
) -> (r: Result<InvoiceDateTime, InvoiceParseError>)
    ensures
        (match r {
            Ok(dt) => spec_assemble_date(spec_date_groups(year, month, day, hour, minute, second))
                == Result::<InvoiceDateTime, ParseErrorModel>::Ok(dt) && spec_valid_date(dt),
            Err(e) => spec_assemble_date(spec_date_groups(year, month, day, hour, minute, second))
                == Result::<InvoiceDateTime, ParseErrorModel>::Err(e@),
        }),
{
    let y: i32 = match year {
        Option::None => {
            return Err(InvoiceParseError::DateFieldMissing("year".to_owned()));
        },
        Option::Some(s) => match parse_i32_str(s.as_str()) {
            Option::Some(v) => v,
            Option::None => {
                return Err(InvoiceParseError::NumberFormat(s.clone()));
            },
        },
    };
    let m: u32 = match req_uint(month, "month") {
        Ok(v) => v,
        Err(e) => {
            return Err(e);
        },
    };
    let d: u32 = match req_uint(day, "day") {
        Ok(v) => v,
        Err(e) => {
            return Err(e);
        },
    };
    let h: u32 = match opt_uint(hour) {
        Ok(v) => v,
        Err(e) => {
            return Err(e);
        },
    };
    let mi: u32 = match opt_uint(minute) {
        Ok(v) => v,
        Err(e) => {
            return Err(e);
        },
    };
    let sec: u32 = match opt_uint(second) {
        Ok(v) => v,
        Err(e) => {
            return Err(e);
        },
    };
    InvoiceDateTime::new(y, m, d, h, mi, sec)
}

} // verus!
