//! A verified global-hotkey engine: a parser for compact key-binding
//! strings, a tokenizer and recursive-descent parser for a small
//! `scope::function(args)` command language, a schema-driven resolver from
//! parsed commands to typed commands, and the state machine that matches
//! live key events against a reloadable binding table.

pub mod app_tokenizer;
pub mod animation;
pub mod bytes;
pub mod func_lexer;
pub mod hotstate;
pub mod http;
pub mod dispatch;
pub mod kee_manager;
pub mod keeparser;
pub mod kee_windows;
pub mod keys;
pub mod keytable;
pub mod lexer;
pub mod process;
pub mod resolver;
pub mod smartobject;
pub mod store;
pub mod textures;
pub mod textutil;
pub mod token;
pub mod winconf;
pub mod youtube;
