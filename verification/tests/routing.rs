use hello_rocket::{dispatch, index, App, Method, Route};

#[test]
fn index_returns_constant() {
    assert_eq!(index(), "Hello, world from Rocket!");
}

#[test]
fn index_is_deterministic() {
    let first = index();
    for _ in 0..100 {
        assert_eq!(index(), first);
    }
}

#[test]
fn rocket_registers_single_route() {
    let app = hello_rocket::rocket();
    assert_eq!(app.routes.len(), 1);
    assert_eq!(app.routes[0].method, Method::Get);
    assert_eq!(app.routes[0].path, "/");
}

#[test]
fn build_starts_empty_and_mount_appends() {
    let mut app = App::build();
    assert_eq!(app.routes.len(), 0);
    app.mount(Route { method: Method::Get, path: String::from("/") });
    assert_eq!(app.routes.len(), 1);
    assert_eq!(app.routes[0].method, Method::Get);
    assert_eq!(app.routes[0].path, "/");
}

#[test]
fn get_root_returns_greeting() {
    let app = hello_rocket::rocket();
    let r = dispatch(&app, Method::Get, &String::from("/"));
    assert_eq!(r.status, 200);
    assert_eq!(r.body, "Hello, world from Rocket!");
}

#[test]
fn get_missing_is_not_found() {
    let app = hello_rocket::rocket();
    let r = dispatch(&app, Method::Get, &String::from("/missing"));
    assert_ne!(r.status, 200);
    assert_eq!(r.status, 404);
}

#[test]
fn post_root_is_not_found() {
    let app = hello_rocket::rocket();
    let r = dispatch(&app, Method::Post, &String::from("/"));
    assert_ne!(r.status, 200);
    assert_eq!(r.status, 404);
}

#[test]
fn other_methods_on_root_are_not_found() {
    let app = hello_rocket::rocket();
    let methods = vec![Method::Put, Method::Delete, Method::Head, Method::Patch, Method::Options];
    for m in methods {
        let r = dispatch(&app, m, &String::from("/"));
        assert_eq!(r.status, 404);
        assert_eq!(r.body, "");
    }
}

#[test]
fn repeated_dispatch_is_identical() {
    let app = hello_rocket::rocket();
    let first = dispatch(&app, Method::Get, &String::from("/"));
    for _ in 0..50 {
        let r = dispatch(&app, Method::Get, &String::from("/"));
        assert_eq!(r.status, first.status);
        assert_eq!(r.body, first.body);
    }
}

#[test]
fn find_route_locates_the_root_route() {
    let app = hello_rocket::rocket();
    assert_eq!(app.find_route(Method::Get, &String::from("/")), Some(0));
    assert_eq!(app.find_route(Method::Get, &String::from("/missing")), None);
    assert_eq!(app.find_route(Method::Post, &String::from("/")), None);
}
