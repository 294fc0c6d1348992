//! PLUME: a deterministic nullifier signature over the secp256k1 group.
//!
//! A signature authenticates a message under a public key and carries a
//! nullifier, a curve point fixed by the secret key and the message alone.

pub mod bytes;
pub mod hashing;
pub mod laws;
pub mod plume;
pub mod point;
pub mod scalar;
pub mod transcript;

pub use hashing::compute_h;
pub use hashing::HashToCurveError;
pub use plume::compute_s;
pub use plume::Parameters;
pub use plume::PlumeSignature;
pub use point::affine_to_bytes;
pub use point::Point;
pub use scalar::Scalar;
pub use transcript::compute_c;
pub use transcript::compute_c_v1;
pub use transcript::compute_c_v2;
pub use transcript::transcript_v1;
pub use transcript::transcript_v2;
pub use transcript::PlumeVersion;
