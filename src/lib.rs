//! Verified core of a pulsar-based navigation estimator: the photon-arrival
//! assembly of the timing simulator, the line syntax of pulsar parameter
//! files, and the shape rule and errors of the filter update.
pub mod filter;
pub mod par;
pub mod photons;
