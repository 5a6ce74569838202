use musig_trade::store::{TradeModelMemoryStore, TradeModelStore};
use musig_trade::trade::TradeModel;
use musig_trade::Role;

#[test]
fn store_gives_back_what_was_added() {
    let mut store = TradeModelMemoryStore::new();
    assert_eq!(store.len(), 0);
    assert!(store.get_trade_model("a").is_none());
    store.add_trade_model(TradeModel::new("a".to_owned(), Role::BuyerAsMaker));
    store.add_trade_model(TradeModel::new("b".to_owned(), Role::SellerAsTaker));
    assert_eq!(store.len(), 2);
    assert_eq!(store.get_trade_model("a").unwrap().my_role, Role::BuyerAsMaker);
    assert_eq!(store.get_trade_model("b").unwrap().my_role, Role::SellerAsTaker);
    assert_eq!(store.get_trade_model("b").unwrap().trade_id, "b");
    assert!(store.get_trade_model("c").is_none());
    assert!(store.get_trade_model("").is_none());
}

#[test]
fn adding_a_trade_of_the_same_id_replaces_it() {
    let mut store = TradeModelMemoryStore::new();
    store.add_trade_model(TradeModel::new("a".to_owned(), Role::BuyerAsMaker));
    store.add_trade_model(TradeModel::new("b".to_owned(), Role::SellerAsTaker));
    store.add_trade_model(TradeModel::new("a".to_owned(), Role::SellerAsMaker));
    assert_eq!(store.len(), 2);
    assert_eq!(store.get_trade_model("a").unwrap().my_role, Role::SellerAsMaker);
    assert_eq!(store.get_trade_model("b").unwrap().my_role, Role::SellerAsTaker);
}

#[test]
fn taking_a_trade_removes_it() {
    let mut store = TradeModelMemoryStore::new();
    store.add_trade_model(TradeModel::new("a".to_owned(), Role::BuyerAsMaker));
    store.add_trade_model(TradeModel::new("b".to_owned(), Role::SellerAsTaker));
    store.add_trade_model(TradeModel::new("c".to_owned(), Role::BuyerAsTaker));
    assert!(store.take_trade_model("d").is_none());
    assert_eq!(store.len(), 3);
    let taken = store.take_trade_model("b").unwrap();
    assert_eq!(taken.trade_id, "b");
    assert_eq!(taken.my_role, Role::SellerAsTaker);
    assert_eq!(store.len(), 2);
    assert!(store.get_trade_model("b").is_none());
    assert!(store.take_trade_model("b").is_none());
    assert_eq!(store.get_trade_model("a").unwrap().my_role, Role::BuyerAsMaker);
    assert_eq!(store.get_trade_model("c").unwrap().my_role, Role::BuyerAsTaker);
}
