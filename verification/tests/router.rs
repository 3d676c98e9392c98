/// The router is assembled by the server binary in `app/`; the library's
/// side of it is that its handlers' modules build and link.
#[test]
fn app_router_constructs() {
    let _ = rust_web_template::pages::not_found();
}
