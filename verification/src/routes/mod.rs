//! Which flow serves which request.

pub mod models;

use vstd::prelude::*;

verus! {

#[derive(Debug, Clone, Copy, PartialEq, Eq, Structural)]
pub enum Method {
    Get,
    Post,
}

/// The flows, by the names of the functions that take their steps.
#[derive(Debug, Clone, Copy, PartialEq, Eq, Structural)]
pub enum Handler {
    GetAllProducts,
    GetProductById,
    SearchProduct,
    CreateCart,
    AddToCart,
    GetCartItems,
    CleanCart,
    RemoveProductFromCart,
    CreateCheckout,
    SignUp,
    LogIn,
}

/// One line of the routing table.
#[derive(Debug, Clone, Copy, PartialEq, Eq)]
pub struct Route {
    pub path: &'static str,
    pub method: Method,
    pub handler: Handler,
}

pub struct RouteView {
    pub path: Seq<char>,
    pub method: Method,
    pub handler: Handler,
}

impl View for Route {
    type V = RouteView;

    open spec fn view(&self) -> RouteView {
        RouteView { path: self.path@, method: self.method, handler: self.handler }
    }
}

/// The routing table, in the order in which the routes are registered.
pub open spec fn routing_table() -> Seq<RouteView> {
    seq![
        RouteView { path: "/product/all"@, method: Method::Get, handler: Handler::GetAllProducts },
        RouteView { path: "/product/{id}"@, method: Method::Get, handler: Handler::GetProductById },
        RouteView { path: "/search"@, method: Method::Get, handler: Handler::SearchProduct },
        RouteView { path: "/create_cart"@, method: Method::Get, handler: Handler::CreateCart },
        RouteView { path: "/addToCart"@, method: Method::Post, handler: Handler::AddToCart },
        RouteView { path: "/myCart"@, method: Method::Get, handler: Handler::GetCartItems },
        RouteView { path: "/flushCart"@, method: Method::Get, handler: Handler::CleanCart },
        RouteView {
            path: "/removeItem-cart"@,
            method: Method::Get,
            handler: Handler::RemoveProductFromCart,
        },
        RouteView { path: "/checkout"@, method: Method::Get, handler: Handler::CreateCheckout },
        RouteView { path: "/signUp"@, method: Method::Post, handler: Handler::SignUp },
        RouteView { path: "/logIn"@, method: Method::Post, handler: Handler::LogIn },
    ]
}

/// Whether a flow is open only to callers whom the bearer guard admitted:
/// the cart flows and checkout are, the catalogue and the account flows
/// are not.
pub open spec fn guarded(handler: Handler) -> bool {
    match handler {
        Handler::CreateCart
        | Handler::AddToCart
        | Handler::GetCartItems
        | Handler::CleanCart
        | Handler::RemoveProductFromCart
        | Handler::CreateCheckout => true,
        Handler::GetAllProducts
        | Handler::GetProductById
        | Handler::SearchProduct
        | Handler::SignUp
        | Handler::LogIn => false,
    }
}

impl Handler {
    pub fn needs_caller(&self) -> (needed: bool)
        ensures
            needed == guarded(*self),
    {
        match self {
            Handler::CreateCart
            | Handler::AddToCart
            | Handler::GetCartItems
            | Handler::CleanCart
            | Handler::RemoveProductFromCart
            | Handler::CreateCheckout => true,
            Handler::GetAllProducts
            | Handler::GetProductById
            | Handler::SearchProduct
            | Handler::SignUp
            | Handler::LogIn => false,
        }
    }
}

/// The routing table.
pub fn config() -> (routes: Vec<Route>)
    ensures
        routes@.len() == routing_table().len(),
        forall|i: int| 0 <= i < routes@.len() ==> (#[trigger] routes@[i])@ == routing_table()[i],
{
    let mut routes: Vec<Route> = Vec::new();
    routes.push(
        Route { path: "/product/all", method: Method::Get, handler: Handler::GetAllProducts },
    );
    routes.push(
        Route { path: "/product/{id}", method: Method::Get, handler: Handler::GetProductById },
    );
    routes.push(Route { path: "/search", method: Method::Get, handler: Handler::SearchProduct });
    routes.push(Route { path: "/create_cart", method: Method::Get, handler: Handler::CreateCart });
    routes.push(Route { path: "/addToCart", method: Method::Post, handler: Handler::AddToCart });
    routes.push(Route { path: "/myCart", method: Method::Get, handler: Handler::GetCartItems });
    routes.push(Route { path: "/flushCart", method: Method::Get, handler: Handler::CleanCart });
    routes.push(
        Route {
            path: "/removeItem-cart",
            method: Method::Get,
            handler: Handler::RemoveProductFromCart,
        },
    );
    routes.push(Route { path: "/checkout", method: Method::Get, handler: Handler::CreateCheckout });
    routes.push(Route { path: "/signUp", method: Method::Post, handler: Handler::SignUp });
    routes.push(Route { path: "/logIn", method: Method::Post, handler: Handler::LogIn });
    routes
}

} // verus!
