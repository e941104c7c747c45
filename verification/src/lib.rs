//! Driver core for the handheld console's multiboot upload: the serial
//! handshake that walks 1 to 3 connected clients from cold connection to
//! the firmware-mediated boot of a payload image.
//!
//! The library owns the protocol: word encoding, the handshake state
//! machine with its retry budgets and per-client checks, and the values
//! the firmware's multiboot service is finally called with.  The two
//! outside effects, the memory-mapped serial exchange and the firmware
//! call itself, are the caller's: the machine hands out one step at a
//! time (a word to exchange, or the firmware call), and is fed what came
//! back.

pub mod exchange;
pub mod params;
pub mod session;
pub mod driver;

pub use exchange::ExchangeUnit;
pub use params::MultibootParameter;
pub use params::MultibootTransferMode;
