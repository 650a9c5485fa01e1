pub mod text;
pub mod layout;
pub mod protocol;
pub mod json;
pub mod tools;
pub mod guard;
pub mod edit;
pub mod file_tools;
pub mod order;
pub mod search;
pub mod session;
pub mod app;
pub mod dashboard;
pub mod ids;
pub mod store;
pub mod sandbox;
pub mod bridge;
pub mod server;
pub mod weather;
pub mod client_flow;
pub mod author_flow;
pub mod sse;
pub mod chat_view;
pub mod cli_loop;
pub mod pages;
pub mod config;
