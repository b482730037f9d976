use curio::structs::Request;

#[test]
fn tests_test_request_builder() {
    let mut request =
        Request::get("https://raw.githubusercontent.com/fatalcenturion/Curio/master/README.md")
            .unwrap();
    request.set_header("header", "true");
    println!("{:#?}", request);
    assert_eq!(request.header_count, 1);
}

#[test]
fn request_builder_test_request_builder() {
    let mut request =
        Request::get("https://raw.githubusercontent.com/fatalcenturion/Curio/master/README.md")
            .unwrap();
    request.set_header("header", "true");
    println!("{:#?}", request);
    assert_eq!(request.header_count, 1);
}
