//! An order-placement use case decoupled from its infrastructure through
//! three capability ports: persistence, payment charging and customer
//! notification. The domain entities, the port contracts and the
//! orchestration service are verified; the bundled adapters are pure
//! in-memory stand-ins that satisfy the same contracts.

pub mod application;
pub mod decimal;
pub mod domain;
pub mod notification;
pub mod payment;
pub mod repository;

pub use application::OrderService;
pub use domain::LineItem;
pub use domain::Money;
pub use domain::Order;
pub use domain::OrderError;
pub use domain::OrderId;
pub use domain::OrderRepository;
pub use domain::PaymentGateway;
pub use domain::Sender;
pub use notification::ConsoleSender;
pub use notification::SendGridSender;
pub use payment::MockPaymentGateway;
pub use payment::StripePaymentGateway;
pub use repository::InMemoryOrderRepository;
pub use repository::PostgresOrderRepository;
