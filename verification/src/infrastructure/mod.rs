pub mod dynamodb;

pub use dynamodb::DynamoDbRepository;
