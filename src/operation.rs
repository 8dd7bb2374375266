//! The typed form of a client command.

use vstd::prelude::*;
use crate::stock::{Stock, StockModel};

verus! {

/// One decoded client command.
#[derive(Debug, PartialEq)]
pub enum Operation {
    GetPortfolio,
    ListAvailable,
    UpdatePrices,
    DeleteStock(String),
    AddStock(Stock),
    Help,
    Error,
}

/// What an `Operation` holds, as plain values.
pub enum OperationModel {
    GetPortfolio,
    ListAvailable,
    UpdatePrices,
    DeleteStock(Seq<char>),
    AddStock(StockModel),
    Help,
    Error,
}

impl View for Operation {
    type V = OperationModel;

    open spec fn view(&self) -> OperationModel {
        match self {
            Operation::GetPortfolio => OperationModel::GetPortfolio,
            Operation::ListAvailable => OperationModel::ListAvailable,
            Operation::UpdatePrices => OperationModel::UpdatePrices,
            Operation::DeleteStock(s) => OperationModel::DeleteStock(s@),
            Operation::AddStock(st) => OperationModel::AddStock(st@),
            Operation::Help => OperationModel::Help,
            Operation::Error => OperationModel::Error,
        }
    }
}

/// The command keyword that names each kind of operation.
pub open spec fn keyword(op: OperationModel) -> Seq<char> {
    match op {
        OperationModel::GetPortfolio => "get_portfolio"@,
        OperationModel::ListAvailable => "list_available"@,
        OperationModel::UpdatePrices => "update_prices"@,
        OperationModel::AddStock(_) => "add_stock"@,
        OperationModel::DeleteStock(_) => "delete_stock"@,
        OperationModel::Help => "help"@,
        OperationModel::Error => "error"@,
    }
}

impl Operation {
    /// The keyword of this operation (`"help"` for `Help`, and so on).
    pub fn to_string(&self) -> (r: String)
        ensures
            r@ == keyword(self@),
    {
        match self {
            Operation::GetPortfolio => String::from_str("get_portfolio"),
            Operation::ListAvailable => String::from_str("list_available"),
            Operation::UpdatePrices => String::from_str("update_prices"),
            Operation::AddStock(_) => String::from_str("add_stock"),
            Operation::DeleteStock(_) => String::from_str("delete_stock"),
            Operation::Help => String::from_str("help"),
            Operation::Error => String::from_str("error"),
        }
    }

    /// Whether this is the `Error` operation.
    pub fn is_error(&self) -> (r: bool)
        ensures
            r == (self@ is Error),
    {
        match self {
            Operation::Error => true,
            _ => false,
        }
    }
}

} // verus!
