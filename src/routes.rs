//! The route table: which endpoint answers each method and path, and which
//! endpoints need the store.

use vstd::prelude::*;

verus! {

/// The request methods the service routes on.
#[derive(Clone, Copy, Debug, PartialEq, Eq, Structural)]
pub enum HttpMethod {
    Get,
    Post,
}

/// The service's endpoints.
#[derive(Clone, Copy, Debug, PartialEq, Eq, Structural)]
pub enum Endpoint {
    Root,
    Status,
    Login,
    Stats,
    ListProducts,
    AddProduct,
}

/// The method an endpoint answers.
pub open spec fn route_method(e: Endpoint) -> HttpMethod {
    match e {
        Endpoint::Login | Endpoint::AddProduct => HttpMethod::Post,
        _ => HttpMethod::Get,
    }
}

/// The path an endpoint is mounted at.
pub open spec fn route_path(e: Endpoint) -> Seq<char> {
    match e {
        Endpoint::Root => "/"@,
        Endpoint::Status => "/api/status"@,
        Endpoint::Login => "/api/login"@,
        Endpoint::Stats => "/api/stats"@,
        Endpoint::ListProducts => "/api/products"@,
        Endpoint::AddProduct => "/api/admin/add-product"@,
    }
}

/// Whether an endpoint reads or writes the store.
pub open spec fn needs_store(e: Endpoint) -> bool {
    e == Endpoint::ListProducts || e == Endpoint::AddProduct
}

/// An endpoint answers a request with this method and path.
pub open spec fn answers(e: Endpoint, method: HttpMethod, path: Seq<char>) -> bool {
    route_method(e) == method && route_path(e) == path
}

/// Every endpoint, in the order they are mounted.
pub open spec fn all_endpoints() -> Seq<Endpoint> {
    seq![
        Endpoint::Root,
        Endpoint::Status,
        Endpoint::Login,
        Endpoint::Stats,
        Endpoint::ListProducts,
        Endpoint::AddProduct,
    ]
}

impl Endpoint {
    pub fn method(&self) -> (r: HttpMethod)
        ensures
            r == route_method(*self),
    {
        match self {
            Endpoint::Login | Endpoint::AddProduct => HttpMethod::Post,
            _ => HttpMethod::Get,
        }
    }

    pub fn path(&self) -> (r: String)
        ensures
            r@ == route_path(*self),
    {
        match self {
            Endpoint::Root => String::from_str("/"),
            Endpoint::Status => String::from_str("/api/status"),
            Endpoint::Login => String::from_str("/api/login"),
            Endpoint::Stats => String::from_str("/api/stats"),
            Endpoint::ListProducts => String::from_str("/api/products"),
            Endpoint::AddProduct => String::from_str("/api/admin/add-product"),
        }
    }

    pub fn uses_store(&self) -> (r: bool)
        ensures
            r == needs_store(*self),
    {
        match self {
            Endpoint::ListProducts | Endpoint::AddProduct => true,
            _ => false,
        }
    }
}

/// Every endpoint, in the order they are mounted.
pub fn routes() -> (r: Vec<Endpoint>)
    ensures
        r@ == all_endpoints(),
{
    let r = vec![
        Endpoint::Root,
        Endpoint::Status,
        Endpoint::Login,
        Endpoint::Stats,
        Endpoint::ListProducts,
        Endpoint::AddProduct,
    ];
    assert(r@ =~= all_endpoints());
    r
}

/// The endpoint that answers a request, if any does.
pub fn endpoint_for(method: HttpMethod, path: &str) -> (r: Option<Endpoint>)
    ensures
        r matches Some(e) ==> answers(e, method, path@),
        r is None ==> forall|e: Endpoint| !answers(e, method, path@),
{
    let table = routes();
    let wanted = String::from_str(path);
    let mut i: usize = 0;
    while i < table.len()
        invariant
            table@ == all_endpoints(),
            wanted@ == path@,
            0 <= i <= table.len(),
            forall|j: int| 0 <= j < i ==> !answers(#[trigger] table@[j], method, path@),
        decreases table.len() - i,
    {
        let e = table[i];
        if e.method() == method && e.path() == wanted {
            return Some(e);
        }
        i = i + 1;
    }
    assert forall|e: Endpoint| !answers(e, method, path@) by {
        let k: int = match e {
            Endpoint::Root => 0,
            Endpoint::Status => 1,
            Endpoint::Login => 2,
            Endpoint::Stats => 3,
            Endpoint::ListProducts => 4,
            Endpoint::AddProduct => 5,
        };
        assert(table@[k] == e);
    }
    None
}

/// The root and status endpoints answer without the store, so they are
/// served whether or not one is configured.
pub proof fn lemma_static_endpoints_need_no_store(method: HttpMethod, path: Seq<char>, e: Endpoint)
    requires
        answers(e, method, path),
        e == Endpoint::Root || e == Endpoint::Status,
    ensures
        !needs_store(e),
{
}

} // verus!
