use stock_server::job::Job;
use stock_server::operation::Operation;
use stock_server::stock::Stock;
use stock_server::wire::ByteOperations;

fn all_operations() -> Vec<Operation> {
    vec![
        Operation::GetPortfolio,
        Operation::ListAvailable,
        Operation::UpdatePrices,
        Operation::DeleteStock(String::from("AAPL")),
        Operation::DeleteStock(String::from("ÑANDÚ €")),
        Operation::AddStock(Stock {
            symbol: String::from("BTC"),
            name: String::from("Bitcoin"),
            price_bits: 8000.0f32.to_bits(),
            market: 3,
        }),
        Operation::Help,
        Operation::Error,
    ]
}

#[test]
fn operation_round_trip() {
    for op in all_operations() {
        let bytes = op.to_bytes();
        assert_eq!(Operation::from_bytes(&bytes), Some(op));
    }
}

#[test]
fn operation_bytes_are_tag_then_fields() {
    assert_eq!(Operation::Help.to_bytes(), vec![5, 0, 0, 0]);
    assert_eq!(Operation::GetPortfolio.to_bytes(), vec![0, 0, 0, 0]);
    assert_eq!(
        Operation::DeleteStock(String::from("AB")).to_bytes(),
        vec![3, 0, 0, 0, 2, 0, 0, 0, 0, 0, 0, 0, b'A', b'B']
    );
    let stock = Operation::AddStock(Stock {
        symbol: String::from("X"),
        name: String::from(""),
        price_bits: 0x01020304,
        market: 0x0506,
    });
    assert_eq!(
        stock.to_bytes(),
        vec![
            4, 0, 0, 0, 1, 0, 0, 0, 0, 0, 0, 0, b'X', 0, 0, 0, 0, 0, 0, 0, 0, 4, 3, 2, 1, 6, 5
        ]
    );
}

#[test]
fn malformed_operation_bytes_are_refused() {
    assert_eq!(Operation::from_bytes(&vec![]), None);
    assert_eq!(Operation::from_bytes(&vec![5, 0, 0]), None);
    assert_eq!(Operation::from_bytes(&vec![7, 0, 0, 0]), None);
    assert_eq!(Operation::from_bytes(&vec![5, 0, 0, 0, 0]), None);
    assert_eq!(Operation::from_bytes(&vec![3, 0, 0, 0, 2, 0, 0, 0, 0, 0, 0, 0, b'A']), None);
    assert_eq!(
        Operation::from_bytes(&vec![3, 0, 0, 0, 1, 0, 0, 0, 0, 0, 0, 0, 0xff]),
        None
    );
}

#[test]
fn job_envelope_layout() {
    let bytes = Job::envelope(7, &vec![1, 2]);
    assert_eq!(bytes, vec![7, 0, 0, 0, 2, 0, 0, 0, 0, 0, 0, 0, 1, 2]);
    let job = Job { id: 258, payload: vec![9] };
    assert_eq!(job.to_bytes(), vec![2, 1, 0, 0, 1, 0, 0, 0, 0, 0, 0, 0, 9]);
}

#[test]
fn job_round_trip() {
    let job = Job { id: 42, payload: vec![0, 255, 10] };
    let bytes = job.to_bytes();
    assert_eq!(Job::from_bytes(&bytes), Some(Job { id: 42, payload: vec![0, 255, 10] }));
}

#[test]
fn short_job_bytes_are_refused() {
    assert_eq!(Job::from_bytes(&vec![1, 0, 0, 0]), None);
    assert_eq!(Job::from_bytes(&vec![1, 0, 0, 0, 3, 0, 0, 0, 0, 0, 0, 0, 1, 2]), None);
}
