//! The rendering contexts of each view, and the one composition that every
//! resource shares: a fetched collection becomes its view, a store failure
//! becomes the uniform error view.
use vstd::prelude::*;
use crate::clock::ClockFace;
use crate::model::{Category, Customer, Order, OrderDetail, Product};

verus! {

/// The store could not be reached, or the query failed.
#[derive(Debug)]
pub struct StoreError {
    pub message: String,
}

#[derive(Debug)]
pub struct ErrorTemplate {
    pub errmsg: String,
}

#[derive(Debug)]
pub struct RootTemplate {}

#[derive(Debug)]
pub struct CategoriesTemplate {
    pub categories: Vec<Category>,
}

#[derive(Debug)]
pub struct CatProductsTemplate {
    pub products: Vec<Product>,
}

#[derive(Debug)]
pub struct ProductsTemplate {
    pub products: Vec<Product>,
}

#[derive(Debug)]
pub struct CustomersTemplate {
    pub customers: Vec<Customer>,
}

#[derive(Debug)]
pub struct CustomerOrdersTemplate {
    pub orders: Vec<Order>,
}

#[derive(Debug)]
pub struct OrderDetailsTemplate {
    pub orderdetails: Vec<OrderDetail>,
}

#[derive(Debug)]
pub struct ZoneSelectTemplate {
    pub default_zone: String,
}

#[derive(Debug)]
pub struct ZoneClockTemplate {
    pub face: ClockFace,
}

/// The page a request ends in: a view with its context. `StoreFailure` is the
/// uniform error view of a failed fetch; `BadRequest` answers input that the
/// client got wrong.
#[derive(Debug)]
pub enum Page {
    Root(RootTemplate),
    Categories(CategoriesTemplate),
    CatProducts(CatProductsTemplate),
    Products(ProductsTemplate),
    Customers(CustomersTemplate),
    CustomerOrders(CustomerOrdersTemplate),
    OrderDetails(OrderDetailsTemplate),
    ZoneSelect(ZoneSelectTemplate),
    ZoneClock(ZoneClockTemplate),
    StoreFailure(ErrorTemplate),
    BadRequest(ErrorTemplate),
}

/// The uniform error view, carrying the failure's message.
pub open spec fn is_store_failure_page(p: Page, e: StoreError) -> bool {
    p matches Page::StoreFailure(t) && t.errmsg@ == e.message@
}

pub open spec fn is_bad_request_page(p: Page, msg: Seq<char>) -> bool {
    p matches Page::BadRequest(t) && t.errmsg@ == msg
}

/// Renders a fetched value with `view`, or the uniform error view when the
/// fetch failed.
pub fn render_or_error<T, F: FnOnce(T) -> Page>(fetched: Result<T, StoreError>, view: F) -> (r: Page)
    requires
        fetched matches Ok(v) ==> view.requires((v,)),
    ensures
        fetched matches Ok(v) ==> view.ensures((v,), r),
        fetched matches Err(e) ==> is_store_failure_page(r, e),
{
    match fetched {
        Ok(v) => view(v),
        Err(e) => Page::StoreFailure(ErrorTemplate { errmsg: e.message }),
    }
}

} // verus!
