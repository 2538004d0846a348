//! One step function per resource. A resource with a numeric path parameter
//! first reads it (`*_request`), so that malformed input is answered before
//! any identifier exists to query with; the caller runs the resource's query
//! (see `gateway`) and hands the outcome to the resource's handler, which
//! composes the page.
use vstd::prelude::*;
use vstd::string::*;
use crate::clock::{zone_clock, zone_known, ZoneClockError, INSTANT_LIMIT};
use crate::gateway::{
    details_of_order, orders_of_customer, products_in_category, scope_order_details, scope_orders,
    scope_products, OrderDetailRow, OrderRow,
};
use crate::model::{Category, Customer, Product};
use crate::params::{parse_small_int, small_int_of};
use crate::views::{
    is_bad_request_page, is_store_failure_page, render_or_error, CatProductsTemplate,
    CategoriesTemplate, CustomerOrdersTemplate, CustomersTemplate, ErrorTemplate,
    OrderDetailsTemplate, Page, ProductsTemplate, RootTemplate, StoreError, ZoneClockTemplate,
    ZoneSelectTemplate,
};

verus! {

pub const MALFORMED_ID_MSG: &'static str =
    "malformed identifier: expected an integer from -32768 to 32767";

pub const MISSING_ZONE_MSG: &'static str = "missing form field: zone";

pub const UNKNOWN_ZONE_MSG: &'static str = "unknown time zone: ";

pub const INSTANT_OUT_OF_RANGE_MSG: &'static str = "the current instant cannot be represented";

/// The zone selected when the zone selector is first shown.
pub const DEFAULT_ZONE: &'static str = "UTC";

pub fn root_handler() -> (r: Page)
    ensures
        r is Root,
{
    Page::Root(RootTemplate {})
}

pub fn categories_handler(fetched: Result<Vec<Category>, StoreError>) -> (r: Page)
    ensures
        fetched matches Ok(v) ==> r matches Page::Categories(t) && t.categories@ == v@,
        fetched matches Err(e) ==> is_store_failure_page(r, e),
{
    render_or_error(
        fetched,
        (|v: Vec<Category>| -> (p: Page)
            ensures
                p matches Page::Categories(t) && t.categories@ == v@,
            { Page::Categories(CategoriesTemplate { categories: v }) }),
    )
}

pub fn products_handler(fetched: Result<Vec<Product>, StoreError>) -> (r: Page)
    ensures
        fetched matches Ok(v) ==> r matches Page::Products(t) && t.products@ == v@,
        fetched matches Err(e) ==> is_store_failure_page(r, e),
{
    render_or_error(
        fetched,
        (|v: Vec<Product>| -> (p: Page)
            ensures
                p matches Page::Products(t) && t.products@ == v@,
            { Page::Products(ProductsTemplate { products: v }) }),
    )
}

pub fn customers_handler(fetched: Result<Vec<Customer>, StoreError>) -> (r: Page)
    ensures
        fetched matches Ok(v) ==> r matches Page::Customers(t) && t.customers@ == v@,
        fetched matches Err(e) ==> is_store_failure_page(r, e),
{
    render_or_error(
        fetched,
        (|v: Vec<Customer>| -> (p: Page)
            ensures
                p matches Page::Customers(t) && t.customers@ == v@,
            { Page::Customers(CustomersTemplate { customers: v }) }),
    )
}

fn malformed_id_page() -> (r: Page)
    ensures
        is_bad_request_page(r, MALFORMED_ID_MSG@),
{
    Page::BadRequest(ErrorTemplate { errmsg: MALFORMED_ID_MSG.to_owned() })
}

/// Reads the category identifier of the path. Malformed input is answered
/// with a client error, and no query is made for it.
pub fn category_products_request(raw_id: &str) -> (r: Result<i16, Page>)
    ensures
        small_int_of(raw_id@) matches Some(id) ==> r == Ok::<i16, Page>(id),
        small_int_of(raw_id@) is None ==> (r matches Err(p) && is_bad_request_page(
            p,
            MALFORMED_ID_MSG@,
        )),
{
    match parse_small_int(raw_id) {
        Some(id) => Ok(id),
        None => Err(malformed_id_page()),
    }
}

/// The products of category `category_id` among the fetched rows.
pub fn category_products_handler(category_id: i16, fetched: Result<Vec<Product>, StoreError>) -> (r: Page)
    ensures
        fetched matches Ok(rows) ==> r matches Page::CatProducts(t)
            && t.products@ == products_in_category(rows@, category_id),
        fetched matches Err(e) ==> is_store_failure_page(r, e),
{
    render_or_error(
        fetched,
        (|rows: Vec<Product>| -> (p: Page)
            ensures
                p matches Page::CatProducts(t) && t.products@ == products_in_category(rows@, category_id),
            { Page::CatProducts(CatProductsTemplate { products: scope_products(category_id, rows) }) }),
    )
}

/// The orders of customer `customer_id` among the fetched rows.
pub fn customer_orders_handler(customer_id: &str, fetched: Result<Vec<OrderRow>, StoreError>) -> (r: Page)
    ensures
        fetched matches Ok(rows) ==> r matches Page::CustomerOrders(t)
            && t.orders@ == orders_of_customer(rows@, customer_id@),
        fetched matches Err(e) ==> is_store_failure_page(r, e),
{
    render_or_error(
        fetched,
        (|rows: Vec<OrderRow>| -> (p: Page)
            ensures
                p matches Page::CustomerOrders(t) && t.orders@ == orders_of_customer(rows@, customer_id@),
            { Page::CustomerOrders(CustomerOrdersTemplate { orders: scope_orders(customer_id, rows) }) }),
    )
}

/// Reads the order identifier of the path. Malformed input is answered with
/// a client error, and no query is made for it.
pub fn order_details_request(raw_id: &str) -> (r: Result<i16, Page>)
    ensures
        small_int_of(raw_id@) matches Some(id) ==> r == Ok::<i16, Page>(id),
        small_int_of(raw_id@) is None ==> (r matches Err(p) && is_bad_request_page(
            p,
            MALFORMED_ID_MSG@,
        )),
{
    match parse_small_int(raw_id) {
        Some(id) => Ok(id),
        None => Err(malformed_id_page()),
    }
}

/// The line items of order `order_id` among the fetched rows.
pub fn order_details_handler(order_id: i16, fetched: Result<Vec<OrderDetailRow>, StoreError>) -> (r: Page)
    ensures
        fetched matches Ok(rows) ==> r matches Page::OrderDetails(t)
            && t.orderdetails@ == details_of_order(rows@, order_id),
        fetched matches Err(e) ==> is_store_failure_page(r, e),
{
    render_or_error(
        fetched,
        (|rows: Vec<OrderDetailRow>| -> (p: Page)
            ensures
                p matches Page::OrderDetails(t) && t.orderdetails@ == details_of_order(rows@, order_id),
            { Page::OrderDetails(OrderDetailsTemplate { orderdetails: scope_order_details(order_id, rows) }) }),
    )
}

/// The zone selector, with the default zone selected.
pub fn zonetimes_handler() -> (r: Page)
    ensures
        r matches Page::ZoneSelect(t) && t.default_zone@ == DEFAULT_ZONE@,
{
    Page::ZoneSelect(ZoneSelectTemplate { default_zone: DEFAULT_ZONE.to_owned() })
}

/// The clock face of the submitted zone at `instant_secs`, the one instant
/// that the whole computation uses.
pub fn zonetime_handler(zone: Option<&str>, instant_secs: i64) -> (r: Page)
    ensures
        zone is None ==> is_bad_request_page(r, MISSING_ZONE_MSG@),
        zone matches Some(z) ==> (!zone_known(z@) ==> is_bad_request_page(r, UNKNOWN_ZONE_MSG@ + z@)),
        zone matches Some(z) ==> (zone_known(z@) ==> (r is ZoneClock || is_bad_request_page(
            r,
            INSTANT_OUT_OF_RANGE_MSG@,
        ))),
        zone matches Some(z) ==> (zone_known(z@) && -INSTANT_LIMIT <= instant_secs <= INSTANT_LIMIT
            ==> r is ZoneClock),
        zone matches Some(z) ==> (r matches Page::ZoneClock(t) ==> t.face.shows_wall_clock(
            z@,
            instant_secs as int,
        )),
{
    match zone {
        None => Page::BadRequest(ErrorTemplate { errmsg: MISSING_ZONE_MSG.to_owned() }),
        Some(z) => match zone_clock(z, instant_secs) {
            Ok(face) => Page::ZoneClock(ZoneClockTemplate { face }),
            Err(ZoneClockError::InvalidZone) => {
                let mut msg = UNKNOWN_ZONE_MSG.to_owned();
                msg.append(z);
                Page::BadRequest(ErrorTemplate { errmsg: msg })
            },
            Err(ZoneClockError::InstantOutOfRange) => Page::BadRequest(
                ErrorTemplate { errmsg: INSTANT_OUT_OF_RANGE_MSG.to_owned() },
            ),
        },
    }
}

} // verus!
