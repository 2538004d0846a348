//! The entity store side of each resource: the parameterized query that
//! fetches it, and the step that turns the fetched rows into the collection
//! scoped to the requested parent entity.
use vstd::prelude::*;
use crate::model::{Category, Order, OrderDetail, Product};

verus! {

pub const CATEGORIES_SQL: &'static str =
    "SELECT category_id, category_name, description FROM categories";

pub const PRODUCTS_SQL: &'static str =
    "SELECT product_id, product_name, quantity_per_unit, unit_price, reorder_level, pr_category_id AS category_id FROM products";

pub const PRODUCTS_BY_CATEGORY_SQL: &'static str =
    "SELECT product_id, product_name, quantity_per_unit, unit_price, reorder_level, pr_category_id AS category_id FROM products WHERE pr_category_id = $1";

pub const CUSTOMERS_SQL: &'static str =
    "SELECT customer_id, company_name, city, country FROM customers";

pub const CUSTOMER_ORDERS_SQL: &'static str =
    "SELECT ord_customer_id AS customer_id, order_id, order_date, shipped_date FROM orders WHERE ord_customer_id = $1";

pub const ORDER_DETAILS_SQL: &'static str =
    "SELECT od_order_id AS order_id, product_name, quantity, od_unit_price AS unit_price FROM order_details JOIN products ON product_id = od_product_id WHERE od_order_id = $1";

/// A value bound to a query placeholder, never written into the query text.
#[derive(Debug)]
pub enum SqlParam {
    SmallInt(i16),
    Text(String),
}

/// A query for the relational store: fixed text, with `$1`, `$2`, ... bound
/// to `params` in order.
#[derive(Debug)]
pub struct Query {
    pub sql: String,
    pub params: Vec<SqlParam>,
}

/// An order row as the store returns it, with the customer that owns it.
#[derive(Debug)]
pub struct OrderRow {
    pub customer_id: String,
    pub order: Order,
}

/// An order line row as the store returns it, with the order that owns it.
#[derive(Debug)]
pub struct OrderDetailRow {
    pub order_id: i16,
    pub detail: OrderDetail,
}

fn fixed_query(sql: &str) -> (r: Query)
    ensures
        r.sql@ == sql@,
        r.params@.len() == 0,
{
    Query { sql: sql.to_owned(), params: Vec::new() }
}

/// All categories, in the order the store gives them.
pub fn categories_query() -> (r: Query)
    ensures
        r.sql@ == CATEGORIES_SQL@,
        r.params@.len() == 0,
{
    fixed_query(CATEGORIES_SQL)
}

/// All products, unscoped.
pub fn products_query() -> (r: Query)
    ensures
        r.sql@ == PRODUCTS_SQL@,
        r.params@.len() == 0,
{
    fixed_query(PRODUCTS_SQL)
}

/// All customers.
pub fn customers_query() -> (r: Query)
    ensures
        r.sql@ == CUSTOMERS_SQL@,
        r.params@.len() == 0,
{
    fixed_query(CUSTOMERS_SQL)
}

/// The products of one category; the identifier is bound, not interpolated.
pub fn products_by_category_query(category_id: i16) -> (r: Query)
    ensures
        r.sql@ == PRODUCTS_BY_CATEGORY_SQL@,
        r.params@ == seq![SqlParam::SmallInt(category_id)],
{
    let mut params: Vec<SqlParam> = Vec::new();
    params.push(SqlParam::SmallInt(category_id));
    Query { sql: PRODUCTS_BY_CATEGORY_SQL.to_owned(), params }
}

/// The orders of one customer; the identifier is bound, not interpolated.
pub fn customer_orders_query(customer_id: &str) -> (r: Query)
    ensures
        r.sql@ == CUSTOMER_ORDERS_SQL@,
        r.params@.len() == 1,
        r.params@[0] matches SqlParam::Text(t) && t@ == customer_id@,
{
    let mut params: Vec<SqlParam> = Vec::new();
    params.push(SqlParam::Text(customer_id.to_owned()));
    Query { sql: CUSTOMER_ORDERS_SQL.to_owned(), params }
}

/// The line items of one order; the identifier is bound, not interpolated.
pub fn order_details_query(order_id: i16) -> (r: Query)
    ensures
        r.sql@ == ORDER_DETAILS_SQL@,
        r.params@ == seq![SqlParam::SmallInt(order_id)],
{
    let mut params: Vec<SqlParam> = Vec::new();
    params.push(SqlParam::SmallInt(order_id));
    Query { sql: ORDER_DETAILS_SQL.to_owned(), params }
}

/// The products among `rows` that belong to category `category_id`, in order.
pub open spec fn products_in_category(rows: Seq<Product>, category_id: i16) -> Seq<Product>
    decreases rows.len(),
{
    if rows.len() == 0 {
        Seq::empty()
    } else {
        let kept = products_in_category(rows.drop_last(), category_id);
        if rows.last().category_id == category_id {
            kept.push(rows.last())
        } else {
            kept
        }
    }
}

/// The orders among `rows` owned by the customer `customer_id`, in order.
pub open spec fn orders_of_customer(rows: Seq<OrderRow>, customer_id: Seq<char>) -> Seq<Order>
    decreases rows.len(),
{
    if rows.len() == 0 {
        Seq::empty()
    } else {
        let kept = orders_of_customer(rows.drop_last(), customer_id);
        if rows.last().customer_id@ == customer_id {
            kept.push(rows.last().order)
        } else {
            kept
        }
    }
}

/// The line items among `rows` that belong to order `order_id`, in order.
pub open spec fn details_of_order(rows: Seq<OrderDetailRow>, order_id: i16) -> Seq<OrderDetail>
    decreases rows.len(),
{
    if rows.len() == 0 {
        Seq::empty()
    } else {
        let kept = details_of_order(rows.drop_last(), order_id);
        if rows.last().order_id == order_id {
            kept.push(rows.last().detail)
        } else {
            kept
        }
    }
}

/// Keeps the fetched products that belong to `category_id`, so that no
/// product of another category reaches the page.
pub fn scope_products(category_id: i16, rows: Vec<Product>) -> (r: Vec<Product>)
    ensures
        r@ == products_in_category(rows@, category_id),
{
    let ghost all = rows@;
    let mut rest = rows;
    let mut kept: Vec<Product> = Vec::new();
    let mut k: usize = 0;
    let n = rest.len();
    while rest.len() > 0
        invariant
            n == all.len(),
            k + rest@.len() == n,
            rest@ == all.subrange(k as int, n as int),
            kept@ == products_in_category(all.subrange(0, k as int), category_id),
        decreases rest@.len(),
    {
        let ghost prefix = all.subrange(0, k + 1);
        let p = rest.remove(0);
        proof {
            assert(prefix.drop_last() =~= all.subrange(0, k as int));
            assert(prefix.last() == p);
            assert(rest@ =~= all.subrange(k + 1, n as int));
        }
        if p.category_id == category_id {
            kept.push(p);
        }
        k = k + 1;
    }
    assert(all.subrange(0, n as int) =~= all);
    kept
}

/// Keeps the fetched orders owned by `customer_id`.
pub fn scope_orders(customer_id: &str, rows: Vec<OrderRow>) -> (r: Vec<Order>)
    ensures
        r@ == orders_of_customer(rows@, customer_id@),
{
    let ghost all = rows@;
    let owner = customer_id.to_owned();
    let mut rest = rows;
    let mut kept: Vec<Order> = Vec::new();
    let mut k: usize = 0;
    let n = rest.len();
    while rest.len() > 0
        invariant
            n == all.len(),
            owner@ == customer_id@,
            k + rest@.len() == n,
            rest@ == all.subrange(k as int, n as int),
            kept@ == orders_of_customer(all.subrange(0, k as int), customer_id@),
        decreases rest@.len(),
    {
        let ghost prefix = all.subrange(0, k + 1);
        let row = rest.remove(0);
        proof {
            assert(prefix.drop_last() =~= all.subrange(0, k as int));
            assert(prefix.last() == row);
            assert(rest@ =~= all.subrange(k + 1, n as int));
        }
        if row.customer_id == owner {
            kept.push(row.order);
        }
        k = k + 1;
    }
    assert(all.subrange(0, n as int) =~= all);
    kept
}

/// Keeps the fetched line items that belong to `order_id`.
pub fn scope_order_details(order_id: i16, rows: Vec<OrderDetailRow>) -> (r: Vec<OrderDetail>)
    ensures
        r@ == details_of_order(rows@, order_id),
{
    let ghost all = rows@;
    let mut rest = rows;
    let mut kept: Vec<OrderDetail> = Vec::new();
    let mut k: usize = 0;
    let n = rest.len();
    while rest.len() > 0
        invariant
            n == all.len(),
            k + rest@.len() == n,
            rest@ == all.subrange(k as int, n as int),
            kept@ == details_of_order(all.subrange(0, k as int), order_id),
        decreases rest@.len(),
    {
        let ghost prefix = all.subrange(0, k + 1);
        let row = rest.remove(0);
        proof {
            assert(prefix.drop_last() =~= all.subrange(0, k as int));
            assert(prefix.last() == row);
            assert(rest@ =~= all.subrange(k + 1, n as int));
        }
        if row.order_id == order_id {
            kept.push(row.detail);
        }
        k = k + 1;
    }
    assert(all.subrange(0, n as int) =~= all);
    kept
}

/// A category that owns none of the fetched products gets an empty product
/// list: no product, and no error.
pub proof fn lemma_category_without_products_is_empty(rows: Seq<Product>, category_id: i16)
    requires
        forall|i: int| 0 <= i < rows.len() ==> #[trigger] rows[i].category_id != category_id,
    ensures
        products_in_category(rows, category_id) == Seq::<Product>::empty(),
    decreases rows.len(),
{
    if rows.len() > 0 {
        let rest = rows.drop_last();
        assert forall|i: int| 0 <= i < rest.len() implies #[trigger] rest[i].category_id != category_id by {
            assert(rest[i] == rows[i]);
        }
        lemma_category_without_products_is_empty(rest, category_id);
        assert(rows[rows.len() - 1].category_id != category_id);
    }
}

/// An order that owns none of the fetched line items gets an empty list of
/// line items: no item, and no error.
pub proof fn lemma_order_without_details_is_empty(rows: Seq<OrderDetailRow>, order_id: i16)
    requires
        forall|i: int| 0 <= i < rows.len() ==> #[trigger] rows[i].order_id != order_id,
    ensures
        details_of_order(rows, order_id) == Seq::<OrderDetail>::empty(),
    decreases rows.len(),
{
    if rows.len() > 0 {
        let rest = rows.drop_last();
        assert forall|i: int| 0 <= i < rest.len() implies #[trigger] rest[i].order_id != order_id by {
            assert(rest[i] == rows[i]);
        }
        lemma_order_without_details_is_empty(rest, order_id);
        assert(rows[rows.len() - 1].order_id != order_id);
    }
}

/// Scoping the fetched products by a category yields only products whose
/// category is that category: nothing leaks in from another category, and
/// every product of that category is kept.
pub proof fn lemma_products_scoped_to_category(category: Category, rows: Seq<Product>)
    ensures
        forall|i: int|
            0 <= i < products_in_category(rows, category.category_id).len()
                ==> #[trigger] products_in_category(rows, category.category_id)[i].category_id
                == category.category_id,
        forall|j: int|
            0 <= j < rows.len() && rows[j].category_id == category.category_id
                ==> products_in_category(rows, category.category_id).contains(#[trigger] rows[j]),
        forall|i: int|
            0 <= i < products_in_category(rows, category.category_id).len() ==> rows.contains(
                #[trigger] products_in_category(rows, category.category_id)[i],
            ),
    decreases rows.len(),
{
    if rows.len() > 0 {
        let c = category.category_id;
        let rest = rows.drop_last();
        lemma_products_scoped_to_category(category, rest);
        let kept = products_in_category(rest, c);
        assert forall|i: int| 0 <= i < products_in_category(rows, c).len() implies rows.contains(
            #[trigger] products_in_category(rows, c)[i],
        ) by {
            if i < kept.len() {
                let j = choose|j: int| 0 <= j < rest.len() && rest[j] == kept[i];
                assert(rows[j] == rest[j]);
            } else {
                assert(rows[rows.len() - 1] == products_in_category(rows, c)[i]);
            }
        }
        assert forall|j: int| 0 <= j < rows.len() && rows[j].category_id == c
            implies products_in_category(rows, c).contains(#[trigger] rows[j]) by {
            if j < rows.len() - 1 {
                assert(rest[j] == rows[j]);
                let k = choose|k: int| 0 <= k < kept.len() && kept[k] == rest[j];
                if rows.last().category_id == c {
                    assert(products_in_category(rows, c)[k] == rows[j]);
                }
            } else {
                assert(products_in_category(rows, c)[kept.len() as int] == rows[j]);
            }
        }
    }
}

/// Where every product of the fetched rows belongs to one category only,
/// the products scoped to two different categories share no product id.
pub proof fn lemma_category_scopes_are_disjoint(rows: Seq<Product>, first: Category, second: Category)
    requires
        first.category_id != second.category_id,
        forall|i: int, j: int|
            0 <= i < rows.len() && 0 <= j < rows.len() && #[trigger] rows[i].product_id
                == #[trigger] rows[j].product_id ==> rows[i].category_id == rows[j].category_id,
    ensures
        forall|i: int, j: int|
            0 <= i < products_in_category(rows, first.category_id).len() && 0 <= j
                < products_in_category(rows, second.category_id).len()
                ==> #[trigger] products_in_category(rows, first.category_id)[i].product_id
                != #[trigger] products_in_category(rows, second.category_id)[j].product_id,
{
    lemma_products_scoped_to_category(first, rows);
    lemma_products_scoped_to_category(second, rows);
    let a = products_in_category(rows, first.category_id);
    let b = products_in_category(rows, second.category_id);
    assert forall|i: int, j: int| 0 <= i < a.len() && 0 <= j < b.len() implies #[trigger] a[i].product_id
        != #[trigger] b[j].product_id by {
        assert(rows.contains(a[i]));
        assert(rows.contains(b[j]));
        let k = choose|k: int| 0 <= k < rows.len() && rows[k] == a[i];
        let l = choose|l: int| 0 <= l < rows.len() && rows[l] == b[j];
        assert(a[i].category_id == first.category_id);
        assert(b[j].category_id == second.category_id);
        if a[i].product_id == b[j].product_id {
            assert(rows[k].product_id == rows[l].product_id);
        }
    }
}

} // verus!
