//! Core logic of a BLE peripheral: the interrupt priority guard, the GATT
//! attribute store, the periodic notifier, the connection event server, the
//! peripheral lifecycle controller and the advertising payloads.
pub mod priority;
pub mod registry;
pub mod events;
pub mod notifier;
pub mod lifecycle;
pub mod advertising;
