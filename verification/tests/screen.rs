use openfoodfacts_viewer::screen::display_name;
use openfoodfacts_viewer::{Controller, DetailPanel, Message, Product, ProductDetails, Screen};

fn entry(name: Option<&str>) -> Product {
    Product { code: Some(String::from("1")), name: name.map(String::from) }
}

fn record(name: Option<&str>, ingredients: Option<&str>) -> ProductDetails {
    ProductDetails {
        code: String::from("1"),
        name: name.map(String::from),
        ingredients_text: ingredients.map(String::from),
        brand: Some(String::from("Acme")),
    }
}

#[test]
fn display_name_falls_back_for_a_missing_name() {
    assert_eq!(display_name(&Some(String::from("Jam"))), "Jam");
    assert_eq!(display_name(&Some(String::new())), "");
    assert_eq!(display_name(&None), "Unnamed product");
}

#[test]
fn panel_shows_name_and_ingredients() {
    let panel = record(Some("Jam"), Some("fruit, sugar")).panel();
    assert_eq!(
        panel,
        DetailPanel {
            heading: String::from("Jam"),
            ingredients: String::from("Ingredients: fruit, sugar"),
        }
    );
}

#[test]
fn panel_falls_back_for_missing_fields() {
    let panel = record(None, None).panel();
    assert_eq!(
        panel,
        DetailPanel {
            heading: String::from("Unnamed product"),
            ingredients: String::from("Ingredients: N/A"),
        }
    );
}

#[test]
fn fresh_controller_shows_an_empty_result_list() {
    assert_eq!(Controller::new().screen(), Screen::SearchResults(Vec::new()));
}

#[test]
fn screen_lists_one_label_per_result_in_order() {
    let mut controller = Controller::new();
    controller.poll_messages(vec![Message::SearchResults(vec![
        entry(Some("Dark Chocolate")),
        entry(None),
        entry(Some("Milk")),
    ])]);
    assert_eq!(
        controller.screen(),
        Screen::SearchResults(vec![
            String::from("Dark Chocolate"),
            String::from("Unnamed product"),
            String::from("Milk"),
        ])
    );
}

#[test]
fn screen_shows_loading_while_waiting() {
    let mut controller = Controller::new();
    controller.poll_messages(vec![Message::SearchResults(vec![entry(Some("Milk"))])]);
    controller.on_search_submitted(String::from("tea"));
    assert_eq!(controller.screen(), Screen::Loading);
    controller.on_product_selected(&entry(Some("Milk")));
    assert_eq!(controller.screen(), Screen::Loading);
}

#[test]
fn screen_shows_a_failure_in_place_of_the_body() {
    let mut controller = Controller::new();
    controller.poll_messages(vec![
        Message::SearchResults(vec![entry(Some("Milk"))]),
        Message::Error(String::from("transport failure")),
    ]);
    assert_eq!(controller.screen(), Screen::Error(String::from("Error: transport failure")));
    // The list behind the failure is kept and comes back with the next search.
    controller.on_search_submitted(String::from("milk"));
    controller.poll_messages(vec![Message::SearchResults(vec![entry(Some("Milk"))])]);
    assert_eq!(controller.screen(), Screen::SearchResults(vec![String::from("Milk")]));
}

#[test]
fn screen_shows_the_panel_of_the_selected_product() {
    let mut controller = Controller::new();
    controller.on_product_selected(&entry(Some("Jam")));
    controller.poll_messages(vec![Message::ProductDetails(record(Some("Jam"), None))]);
    assert_eq!(
        controller.screen(),
        Screen::ProductDetails(Some(DetailPanel {
            heading: String::from("Jam"),
            ingredients: String::from("Ingredients: N/A"),
        }))
    );
}

#[test]
fn screen_shows_an_empty_panel_when_no_record_arrived() {
    let mut controller = Controller::new();
    controller.on_product_selected(&entry(Some("Jam")));
    controller.poll_messages(vec![Message::SearchResults(Vec::new())]);
    assert_eq!(controller.screen(), Screen::ProductDetails(None));
    controller.on_back_requested();
    assert_eq!(controller.screen(), Screen::SearchResults(Vec::new()));
}
