use openfoodfacts_viewer::fetch::{
    DETAIL_URL_PREFIX, DETAIL_URL_SUFFIX, SEARCH_URL_PREFIX, SEARCH_URL_SUFFIX,
};
use openfoodfacts_viewer::{FetchError, FetchRequest, Message, Product, ProductDetails};

#[test]
fn search_url_holds_the_term() {
    let request = FetchRequest::Search(String::from("chocolate"));
    assert_eq!(
        request.url(),
        "https://world.openfoodfacts.org/cgi/search.pl?search_terms=chocolate&search_simple=1&json=1"
    );
}

#[test]
fn search_url_with_empty_term() {
    let request = FetchRequest::Search(String::new());
    assert_eq!(
        request.url(),
        "https://world.openfoodfacts.org/cgi/search.pl?search_terms=&search_simple=1&json=1"
    );
}

#[test]
fn search_url_does_not_escape_the_term() {
    let request = FetchRequest::Search(String::from("dark chocolate & nuts"));
    assert_eq!(
        request.url(),
        format!("{}dark chocolate & nuts{}", SEARCH_URL_PREFIX, SEARCH_URL_SUFFIX)
    );
}

#[test]
fn detail_url_holds_the_code() {
    let request = FetchRequest::Detail(String::from("3017620422003"));
    assert_eq!(
        request.url(),
        "https://world.openfoodfacts.org/api/v0/product/3017620422003.json"
    );
    assert_eq!(
        request.url(),
        format!("{}3017620422003{}", DETAIL_URL_PREFIX, DETAIL_URL_SUFFIX)
    );
}

#[test]
fn detail_url_for_the_unknown_code() {
    let entry = Product { code: None, name: None };
    let request = FetchRequest::Detail(entry.request_code());
    assert_eq!(request.url(), "https://world.openfoodfacts.org/api/v0/product/unknown.json");
}

#[test]
fn successful_search_becomes_search_results() {
    let products = vec![
        Product { code: Some(String::from("1")), name: Some(String::from("Dark Chocolate")) },
        Product { code: None, name: None },
    ];
    assert_eq!(Message::from_search(Ok(products.clone())), Message::SearchResults(products));
    assert_eq!(Message::from_search(Ok(Vec::new())), Message::SearchResults(Vec::new()));
}

#[test]
fn failed_search_becomes_an_error_with_its_text() {
    assert_eq!(
        Message::from_search(Err(FetchError::Transport(String::from("connection refused")))),
        Message::Error(String::from("Failed to get response: connection refused"))
    );
    assert_eq!(
        Message::from_search(Err(FetchError::Decode(String::from("expected value")))),
        Message::Error(String::from("Failed to parse response: expected value"))
    );
}

#[test]
fn successful_detail_lookup_becomes_product_details() {
    let record = ProductDetails {
        code: String::from("123"),
        name: Some(String::from("Jam")),
        ingredients_text: Some(String::from("fruit, sugar")),
        brand: None,
    };
    assert_eq!(Message::from_detail(Ok(record.clone())), Message::ProductDetails(record));
}

#[test]
fn failed_detail_lookup_becomes_an_error_with_its_text() {
    assert_eq!(
        Message::from_detail(Err(FetchError::Transport(String::from("timed out")))),
        Message::Error(String::from("Details request failed: timed out"))
    );
    assert_eq!(
        Message::from_detail(Err(FetchError::Decode(String::from("missing field `code`")))),
        Message::Error(String::from("Failed to parse details: missing field `code`"))
    );
}

#[test]
fn failure_with_empty_text_keeps_the_lead_in() {
    assert_eq!(
        Message::from_search(Err(FetchError::Transport(String::new()))),
        Message::Error(String::from("Failed to get response: "))
    );
}
