pub mod ws_handler;
