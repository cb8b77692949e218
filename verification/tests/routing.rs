use storefront::routes::models::{
    ApiResponse, Body, HttpReply, Payload, BAD_REQUEST, CONFLICT, INTERNAL_SERVER_ERROR,
    NOT_FOUND, OK, UNAUTHORIZED,
};
use storefront::routes::{config, Handler, Method, Route};

#[test]
fn the_table_routes_every_flow() {
    let expected = vec![
        Route { path: "/product/all", method: Method::Get, handler: Handler::GetAllProducts },
        Route { path: "/product/{id}", method: Method::Get, handler: Handler::GetProductById },
        Route { path: "/search", method: Method::Get, handler: Handler::SearchProduct },
        Route { path: "/create_cart", method: Method::Get, handler: Handler::CreateCart },
        Route { path: "/addToCart", method: Method::Post, handler: Handler::AddToCart },
        Route { path: "/myCart", method: Method::Get, handler: Handler::GetCartItems },
        Route { path: "/flushCart", method: Method::Get, handler: Handler::CleanCart },
        Route {
            path: "/removeItem-cart",
            method: Method::Get,
            handler: Handler::RemoveProductFromCart,
        },
        Route { path: "/checkout", method: Method::Get, handler: Handler::CreateCheckout },
        Route { path: "/signUp", method: Method::Post, handler: Handler::SignUp },
        Route { path: "/logIn", method: Method::Post, handler: Handler::LogIn },
    ];
    assert_eq!(config(), expected);
}

#[test]
fn the_cart_and_checkout_need_a_caller() {
    for handler in [
        Handler::CreateCart,
        Handler::AddToCart,
        Handler::GetCartItems,
        Handler::CleanCart,
        Handler::RemoveProductFromCart,
        Handler::CreateCheckout,
    ] {
        assert!(handler.needs_caller());
    }
    for handler in [
        Handler::GetAllProducts,
        Handler::GetProductById,
        Handler::SearchProduct,
        Handler::SignUp,
        Handler::LogIn,
    ] {
        assert!(!handler.needs_caller());
    }
}

#[test]
fn the_status_codes_are_the_usual_ones() {
    assert_eq!(
        [OK, BAD_REQUEST, UNAUTHORIZED, NOT_FOUND, CONFLICT, INTERNAL_SERVER_ERROR],
        [200, 400, 401, 404, 409, 500]
    );
}

#[test]
fn replies_are_built_as_given() {
    assert_eq!(
        HttpReply::text(404, "gone".to_string()),
        HttpReply { status: 404, body: Body::Text("gone".to_string()) }
    );
    assert_eq!(
        HttpReply::failure(500, "Error: ", "disk full"),
        HttpReply { status: 500, body: Body::Text("Error: disk full".to_string()) }
    );
    assert_eq!(
        HttpReply::json(200, "Success", "fine", Payload::Empty),
        HttpReply {
            status: 200,
            body: Body::Json(ApiResponse {
                status: "Success".to_string(),
                msg: "fine".to_string(),
                data: Payload::Empty,
            }),
        }
    );
}
