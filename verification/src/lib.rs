pub mod arg_parser;
pub mod color_gen;
pub mod color_holder;
pub mod gui;
pub mod string_padder;
pub mod parser;
pub mod twitch_chat;
pub mod twitch_client;
