//! Client side of the Widevine license exchange: a session builds a signed
//! license request from a PSSH box and device credentials, and later turns the
//! signed license response into content keys.
//!
//! - [`session`] holds the exchange itself: [`Session`] and the device
//!   credentials, [`LicenseDecryptionModule`].
//! - [`request`], [`response`], [`kdf`] and [`pssh`] hold its steps, and
//!   [`bundled`] what the bundled service certificate reads as.
//! - [`wire`], [`lookup`] and [`fieldset`] read and write the wire format of the
//!   messages; [`signed_message`], [`certificate`], [`license_request`] and
//!   [`license`] are the messages.
//! - [`crypto`] and [`platform`] are the doors to the crypto provider and the
//!   platform; what they promise is not proved.
//! - [`service`], [`text`] and [`error`] say what failed, also for the
//!   transport that carries the exchange.

pub mod bundled;
pub mod certificate;
pub mod constants;
pub mod crypto;
pub mod error;
pub mod fieldset;
pub mod kdf;
pub mod license;
pub mod license_request;
pub mod lookup;
pub mod platform;
pub mod pssh;
pub mod request;
pub mod response;
pub mod service;
pub mod session;
pub mod signed_message;
pub mod text;
pub mod wire;

pub use crate::constants::{
    COMMON_SERVICE_CERTIFICATE, SERVICE_CERTIFICATE_CHALLENGE, WIDEVINE_ROOT_PUBLIC_KEY,
    WIDEVINE_SYSTEM_ID,
};
pub use crate::response::KeyContainer;
pub use crate::session::{LicenseDecryptionModule, Session};
