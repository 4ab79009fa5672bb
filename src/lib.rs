//! A harvester of Meshtastic telemetry: it decodes the packets that gateways publish on a
//! message bus, decrypts those sent with the default channel key, classifies them by
//! application port and extracts the positions and device metrics to be stored.
pub mod wire;
pub mod meshtastic;
pub mod cipher;
pub mod backoff;
pub mod utils;
pub mod publish;
