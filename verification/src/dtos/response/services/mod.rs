pub mod sensing_client;
