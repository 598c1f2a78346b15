pub mod server_message;
