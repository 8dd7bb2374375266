use stock_server::error::PersistanceError;
use stock_server::job::Job;
use stock_server::persistance::{Asset, StockMarket, StockRepository};
use stock_server::reply::outcome_reply;
use stock_server::stock::get_available_markets;
use stock_server::wire::ByteOperations;

fn get_asset_mock() -> Asset {
    Asset::new(String::from("BTC"), 8000.0f32.to_bits(), 7990.0f32.to_bits(), StockMarket::CRYPTO)
}

#[test]
fn test_add() {
    let mut persistance = StockRepository::new();

    let mock_asset = get_asset_mock();

    persistance.add(mock_asset.duplicate());
    let entries = persistance.get_entries();

    assert!(entries.iter().any(|&x| x == &mock_asset));
}

#[test]
fn test_update() {
    let mut persistance = StockRepository::new();

    let mut mock_asset = get_asset_mock();

    persistance.add(mock_asset.duplicate());

    let new_price = 12332.3f32;
    mock_asset.set_price(new_price.to_bits());
    assert!(persistance.update(&mock_asset).is_ok());

    let entries = persistance.get_entries();

    assert!(
        f32::from_bits(
            entries
                .iter()
                .find(|&&x| x.symbol() == mock_asset.symbol())
                .unwrap()
                .price_bits()
        ) == new_price
    );
}

#[test]
fn test_delete() {
    let mut persistance = StockRepository::new();

    let mock_asset = get_asset_mock();

    persistance.add(mock_asset.duplicate());

    assert!(persistance.delete(mock_asset.symbol()).is_ok());
}

#[test]
fn new_repository_holds_two_seeds() {
    let repo = StockRepository::new();
    let entries = repo.get_entries();
    assert_eq!(entries.len(), 2);
    let aapl = entries.iter().find(|a| a.symbol() == "AAPL").unwrap();
    assert_eq!(f32::from_bits(aapl.price_bits()), 123.4f32);
    assert!(entries.iter().any(|a| a.symbol() == "BTC"));
}

#[test]
fn add_replaces_same_symbol() {
    let mut repo = StockRepository::new();
    repo.add(Asset::new(String::from("BTC"), 1, 2, StockMarket::CRYPTO));
    let entries = repo.get_entries();
    assert_eq!(entries.len(), 2);
    let btc = entries.iter().find(|a| a.symbol() == "BTC").unwrap();
    assert_eq!(btc.price_bits(), 1);
}

#[test]
fn add_then_list_shows_new_asset() {
    let mut repo = StockRepository::new();
    let fresh = Asset::new(String::from("MSFT"), 5, 6, StockMarket::NASDAQ);
    repo.add(fresh.duplicate());
    let entries = repo.get_entries();
    assert_eq!(entries.len(), 3);
    assert!(entries.iter().any(|&x| x == &fresh));
}

#[test]
fn update_of_missing_symbol_fails() {
    let mut repo = StockRepository::new();
    let ghost = Asset::new(String::from("NOPE"), 1, 1, StockMarket::IBEX35);
    assert_eq!(repo.update(&ghost), Err(PersistanceError::KeyNotFoundError));
    assert_eq!(repo.get_entries().len(), 2);
}

#[test]
fn delete_of_missing_symbol_replies_false() {
    let mut repo = StockRepository::new();
    let outcome = repo.delete("NOPE");
    assert_eq!(outcome, Err(PersistanceError::KeyNotFoundError));
    assert_eq!(repo.get_entries().len(), 2);
    let reply = outcome_reply(11, &outcome);
    assert_eq!(
        Job::from_bytes(&reply).unwrap().payload,
        b"{\"response\":\"false\"}".to_vec()
    );
}

#[test]
fn delete_removes_entry() {
    let mut repo = StockRepository::new();
    assert!(repo.delete("AAPL").is_ok());
    let entries = repo.get_entries();
    assert_eq!(entries.len(), 1);
    assert!(entries.iter().all(|a| a.symbol() != "AAPL"));
    assert_eq!(repo.delete("AAPL"), Err(PersistanceError::KeyNotFoundError));
}

#[test]
fn error_messages() {
    assert_eq!(PersistanceError::KeyNotFoundError.to_string(), "Key not found!");
    assert_eq!(
        PersistanceError::EntryHasDependencies.to_string(),
        "Some items depend on this item!"
    );
    assert_eq!(PersistanceError::CouldNotDelete(String::from("busy")).to_string(), "busy");
}

#[test]
fn available_markets_catalogue() {
    let markets = get_available_markets().unwrap();
    let pairs: Vec<(u16, String)> = markets.iter().map(|m| (m.id, m.symbol.clone())).collect();
    assert_eq!(
        pairs,
        vec![
            (0, String::from("NASDAQ")),
            (1, String::from("DOWN_JONES")),
            (2, String::from("IBEX35")),
            (3, String::from("CRYPTO")),
        ]
    );
}
