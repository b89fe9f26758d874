//! In-memory blockchain fixtures for a Lightning watchtower's tests: a
//! simulated chain with tunable misbehavior (missing blocks, disabled or
//! malformed headers, forks), plus deterministic and random fixture
//! generators for transactions and appointments.

mod appointment;
mod block;
mod bytes;
mod chain;
mod headers;
mod tx;
mod work;

pub use appointment::{
    encrypt, generate_dummy_appointment, hex_decode, penalty_tx_bytes, Appointment,
    ExtendedAppointment,
};
pub use block::{Block, Header, Network};
pub use chain::Blockchain;
pub use headers::{BlockHeaderData, CacheEntry, ErrorKind, HeaderCache, SourceError, ValidatedHeader};
pub use tx::{get_random_tx, OutPoint, Transaction, TxIn, TxOut};
pub use work::ChainWork;
