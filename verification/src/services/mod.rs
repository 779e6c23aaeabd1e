pub mod http_client;
pub mod sensing_client;
