use orderflow::ConsoleSender;
use orderflow::InMemoryOrderRepository;
use orderflow::LineItem;
use orderflow::MockPaymentGateway;
use orderflow::Money;
use orderflow::Order;
use orderflow::OrderId;
use orderflow::OrderRepository;
use orderflow::PaymentGateway;
use orderflow::PostgresOrderRepository;
use orderflow::Sender;
use orderflow::SendGridSender;
use orderflow::StripePaymentGateway;

fn test_order() -> Order {
    Order::new(
        OrderId(1),
        vec![LineItem {
            name: "Test".to_string(),
            price: Money(100),
        }],
    )
    .unwrap()
}

#[test]
fn console_sender_succeeds() {
    let sender = ConsoleSender;
    let order = test_order();

    let result = sender.send(&order);

    assert!(result.is_ok());
}

#[test]
fn sendgrid_sender_succeeds() {
    let sender = SendGridSender;
    let order = test_order();

    let result = sender.send(&order);

    assert!(result.is_ok());
}

#[test]
fn mock_charge_succeeds() {
    let gateway = MockPaymentGateway;
    let result = gateway.charge(Money(1000));

    assert!(result.is_ok());
}

#[test]
fn stripe_charge_succeeds() {
    let gateway = StripePaymentGateway;
    let result = gateway.charge(Money(5000));

    assert!(result.is_ok());
}

#[test]
fn save_and_find_order() {
    let mut repo = InMemoryOrderRepository::new();
    let order = test_order();

    repo.save(&order).unwrap();
    let found = repo.find(OrderId(1)).unwrap();

    assert!(found.is_some());
    assert_eq!(found.unwrap().id, OrderId(1));
}

#[test]
fn find_nonexistent_returns_none() {
    let repo = InMemoryOrderRepository::new();
    let found = repo.find(OrderId(999)).unwrap();

    assert!(found.is_none());
}

#[test]
fn postgres_save_and_find() {
    let mut repo = PostgresOrderRepository::new();
    let order = test_order();

    repo.save(&order).unwrap();
    let found = repo.find(OrderId(1)).unwrap();

    assert!(found.is_some());
}

#[test]
fn save_overwrites_same_identifier() {
    let mut repo = InMemoryOrderRepository::new();
    let first = test_order();
    let second = Order::new(
        OrderId(1),
        vec![LineItem {
            name: "Replacement".to_string(),
            price: Money(250),
        }],
    )
    .unwrap();

    repo.save(&first).unwrap();
    repo.save(&second).unwrap();
    let found = repo.find(OrderId(1)).unwrap().unwrap();

    assert_eq!(found.total, Money(250));
    assert_eq!(found.items[0].name, "Replacement");
}
