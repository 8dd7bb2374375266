use stock_server::command::record_text;
use stock_server::operation::Operation;
use stock_server::stock::Stock;

fn sample_stock() -> Stock {
    Stock {
        symbol: String::from("AAPL"),
        name: String::from("Apple"),
        price_bits: 123.4f32.to_bits(),
        market: 1,
    }
}

#[test]
fn test_str_to_operation_list_available() {
    let raw = "list_available".to_owned();
    let operation = Operation::from_line(&raw, None);
    assert_eq!(Operation::ListAvailable, operation);
}

#[test]
fn test_str_to_operation_error() {
    let raw = "fail".to_owned();
    let operation = Operation::from_line(&raw, None);
    assert_eq!(Operation::Error, operation);
}

#[test]
fn zero_argument_keywords() {
    assert_eq!(Operation::from_line("get_portfolio", None), Operation::GetPortfolio);
    assert_eq!(Operation::from_line("list_stored", None), Operation::GetPortfolio);
    assert_eq!(Operation::from_line("update_prices", None), Operation::UpdatePrices);
    assert_eq!(Operation::from_line("help", None), Operation::Help);
    assert_eq!(Operation::from_line("?", None), Operation::Help);
}

#[test]
fn zero_argument_keywords_match_exactly() {
    assert_eq!(Operation::from_line("help ", None), Operation::Error);
    assert_eq!(Operation::from_line(" help", None), Operation::Error);
    assert_eq!(Operation::from_line("HELP", None), Operation::Error);
    assert_eq!(Operation::from_line("", None), Operation::Error);
}

#[test]
fn delete_stock_takes_one_symbol() {
    assert_eq!(
        Operation::from_line("delete_stock AAPL", None),
        Operation::DeleteStock(String::from("AAPL"))
    );
    assert_eq!(
        Operation::from_line("delete_stock \t BTC  ", None),
        Operation::DeleteStock(String::from("BTC"))
    );
}

#[test]
fn delete_stock_without_exactly_one_symbol_is_error() {
    assert_eq!(Operation::from_line("delete_stock", None), Operation::Error);
    assert_eq!(Operation::from_line("delete_stock ", None), Operation::Error);
    assert_eq!(Operation::from_line("delete_stock A B", None), Operation::Error);
    assert_eq!(Operation::from_line("delete_stockAAPL", None), Operation::Error);
}

#[test]
fn add_stock_record_text_joins_words() {
    let line = "add_stock {\"symbol\":   \"AAPL\",\t\"market\": 1}";
    assert_eq!(
        record_text(line),
        Some(String::from("{\"symbol\": \"AAPL\", \"market\": 1}"))
    );
    assert_eq!(record_text("add_stock"), None);
    assert_eq!(record_text("help"), None);
    assert_eq!(record_text("delete_stock X"), None);
}

#[test]
fn add_stock_uses_decoded_record() {
    let line = "add_stock {\"symbol\":\"AAPL\"}";
    assert_eq!(
        Operation::from_line(line, Some(sample_stock())),
        Operation::AddStock(sample_stock())
    );
    assert_eq!(Operation::from_line(line, None), Operation::Error);
    assert_eq!(Operation::from_line("add_stock", Some(sample_stock())), Operation::Error);
}

#[test]
fn record_is_ignored_for_other_lines() {
    assert_eq!(Operation::from_line("help", Some(sample_stock())), Operation::Help);
}

#[test]
fn keywords_of_operations() {
    assert_eq!(Operation::GetPortfolio.to_string(), "get_portfolio");
    assert_eq!(Operation::ListAvailable.to_string(), "list_available");
    assert_eq!(Operation::UpdatePrices.to_string(), "update_prices");
    assert_eq!(Operation::AddStock(sample_stock()).to_string(), "add_stock");
    assert_eq!(Operation::DeleteStock(String::from("X")).to_string(), "delete_stock");
    assert_eq!(Operation::Help.to_string(), "help");
    assert_eq!(Operation::Error.to_string(), "error");
}
