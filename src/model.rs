use vstd::prelude::*;

verus! {

/// A calendar date in the proleptic Gregorian calendar.
#[derive(Clone, Copy, Debug, PartialEq, Eq, Structural)]
pub struct Date {
    pub year: i32,
    pub month: u8,
    pub day: u8,
}

pub open spec fn is_leap_year(year: int) -> bool {
    (year % 4 == 0 && year % 100 != 0) || year % 400 == 0
}

pub open spec fn days_in_month(year: int, month: int) -> int {
    if month == 2 {
        if is_leap_year(year) { 29 } else { 28 }
    } else if month == 4 || month == 6 || month == 9 || month == 11 {
        30
    } else {
        31
    }
}

pub open spec fn is_valid_date(year: int, month: int, day: int) -> bool {
    1 <= month <= 12 && 1 <= day <= days_in_month(year, month)
}

impl Date {
    pub open spec fn wf(&self) -> bool {
        is_valid_date(self.year as int, self.month as int, self.day as int)
    }

    /// The date with the given year, month (1 to 12) and day of month, if it exists.
    pub fn from_ymd(year: i32, month: u8, day: u8) -> (r: Option<Date>)
        ensures
            r is Some <==> is_valid_date(year as int, month as int, day as int),
            r matches Some(d) ==> d.year == year && d.month == month && d.day == day,
    {
        if month < 1 || month > 12 || day < 1 {
            return None;
        }
        let leap = (year % 4 == 0 && year % 100 != 0) || year % 400 == 0;
        let last: u8 = if month == 2 {
            if leap { 29 } else { 28 }
        } else if month == 4 || month == 6 || month == 9 || month == 11 {
            30
        } else {
            31
        };
        if day > last {
            None
        } else {
            Some(Date { year, month, day })
        }
    }
}

/// A product category. It owns the products whose `category_id` is its `category_id`.
#[derive(Debug)]
pub struct Category {
    pub category_id: i16,
    pub category_name: String,
    pub description: String,
}

/// A product, with the category that owns it. The unit price is held in
/// hundredths of the currency unit.
#[derive(Debug)]
pub struct Product {
    pub product_id: i16,
    pub product_name: String,
    pub quantity_per_unit: String,
    pub unit_price_cents: i64,
    pub reorder_level: i16,
    pub category_id: i16,
}

/// A customer, identified by a short text code.
#[derive(Debug)]
pub struct Customer {
    pub customer_id: String,
    pub company_name: String,
    pub city: String,
    pub country: String,
}

/// An order. No shipped date means the order has not been shipped yet.
#[derive(Debug)]
pub struct Order {
    pub order_id: i16,
    pub order_date: Date,
    pub shipped_date: Option<Date>,
}

/// A line item of an order; the product name is resolved from the product at
/// read time. The unit price at the time of the order is held in hundredths.
#[derive(Debug)]
pub struct OrderDetail {
    pub product_name: String,
    pub quantity: i16,
    pub unit_price_cents: i64,
}

} // verus!
