//! Core of a terminal chess front end: a move codec speaking the engine's
//! four/five-character notation, the text protocol spoken with the engine
//! process, the board-side game state machine, and the orchestration rules
//! that tie them together. Rendering, keyboard capture and the engine
//! process itself live outside this crate.

pub mod board;
pub mod codec;
pub mod game;
pub mod orchestrator;
pub mod protocol;
pub mod rules;

pub use board::Color;
pub use board::GameOutcome;
pub use board::Move;
pub use board::Piece;
pub use board::Square;
pub use game::ChessGame;
pub use protocol::EngineProtocol;
