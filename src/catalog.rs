//! The product catalog: the rows of the `shop_items` table, the statements
//! that read and write it, and what each endpoint answers from the store's
//! outcome. The store itself is reached by the application.

use vstd::prelude::*;
use crate::auth::LoginResponse;

verus! {

/// The statement that reads every product, newest first.
pub const LIST_PRODUCTS_SQL: &'static str = "SELECT id, name, price, image_url FROM shop_items ORDER BY id DESC";

/// The statement that inserts one product; its three parameters are bound
/// positionally as name, price and image reference.
pub const INSERT_PRODUCT_SQL: &'static str = "INSERT INTO shop_items (name, price, image_url) VALUES ($1, $2, $3)";

/// A stored product. The price is carried as the bit pattern of its IEEE 754
/// double, so that it comes back exactly as it was written.
#[derive(Clone, Debug, PartialEq, Eq)]
pub struct Product {
    pub id: i32,
    pub name: String,
    pub price_bits: u64,
    pub image_url: String,
}

/// A product as submitted, before the store has given it an identifier.
#[derive(Clone, Debug, PartialEq, Eq)]
pub struct NewProduct {
    pub name: String,
    pub price_bits: u64,
    pub image_url: String,
}

/// The confirmation for a stored product.
pub open spec fn saved_message(name: Seq<char>) -> Seq<char> {
    name + " saved to Columbia inventory!"@
}

/// The failure message for a write the store refused.
pub open spec fn store_error_message(error: Seq<char>) -> Seq<char> {
    "Database error: "@ + error
}

/// What the product listing answers: the rows the store returned, or no
/// rows at all when the store failed.
pub open spec fn listing_of(outcome: Result<Seq<Product>, Seq<char>>) -> Seq<Product> {
    match outcome {
        Ok(rows) => rows,
        Err(_) => Seq::empty(),
    }
}

/// What a product submission answers, from the store's outcome for the insert.
pub open spec fn addition_outcome(name: Seq<char>, outcome: Result<(), Seq<char>>) -> (
    bool,
    Seq<char>,
) {
    match outcome {
        Ok(_) => (true, saved_message(name)),
        Err(e) => (false, store_error_message(e)),
    }
}

/// The store's answer to the listing query, as sequences.
pub open spec fn rows_view(outcome: &Result<Vec<Product>, String>) -> Result<Seq<Product>, Seq<char>> {
    match outcome {
        Ok(rows) => Ok(rows@),
        Err(e) => Err(e@),
    }
}

/// The store's answer to the insert, as success or error text.
pub open spec fn insert_view(outcome: &Result<u64, String>) -> Result<(), Seq<char>> {
    match outcome {
        Ok(_) => Ok(()),
        Err(e) => Err(e@),
    }
}

/// The product listing: a failed read degrades to an empty catalog.
pub fn listing_or_empty(outcome: Result<Vec<Product>, String>) -> (r: Vec<Product>)
    ensures
        r@ == listing_of(rows_view(&outcome)),
{
    match outcome {
        Ok(rows) => rows,
        Err(_) => Vec::new(),
    }
}

/// The answer to a product submission, given the store's outcome for the
/// insert (the number of rows written, or the store's error text).
pub fn addition_response(product: &NewProduct, outcome: &Result<u64, String>) -> (r: LoginResponse)
    ensures
        (r.success, r.message@) == addition_outcome(product.name@, insert_view(outcome)),
{
    match outcome {
        Ok(_) => {
            let mut message = product.name.clone();
            message.append(" saved to Columbia inventory!");
            LoginResponse { success: true, message }
        },
        Err(e) => {
            let mut message = String::from_str("Database error: ");
            message.append(e.as_str());
            LoginResponse { success: false, message }
        },
    }
}

/// With the store unreachable, the listing is empty rather than an error,
/// while a submission is answered with a failure.
pub proof fn lemma_unreachable_store(read_error: Seq<char>, write_error: Seq<char>, name: Seq<char>)
    ensures
        listing_of(Err(read_error)) == Seq::<Product>::empty(),
        !addition_outcome(name, Err(write_error)).0,
{
}

} // verus!
