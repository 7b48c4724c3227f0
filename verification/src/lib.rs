//! Server-side core of a two-board "tandem" chess variant: per-board game
//! state with spare-piece inventories and clocks, the cross-board move rules,
//! the textual move protocol, and the bounded per-client message queue.
//!
//! Single-board chess legality, FEN rendering and mate detection are supplied
//! by the `chess` crate, consumed as an opaque oracle through the trusted
//! declarations in [`oracle`].

pub mod chess_game;
pub mod message_queue;
pub mod oracle;
pub mod tandem_game;
pub mod text;
pub mod types;
