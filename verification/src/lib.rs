//! Observe values emitted by a component without replacing it with a mock.
//!
//! A producer owns an [`OutputSubject`][non_threadsafe::OutputSubject]; test
//! code asks it for [`OutputTracker`][non_threadsafe::OutputTracker]s. Every
//! value the producer emits is appended to the private log of each tracker
//! that is still registered, in emission order. A tracker can read its log as
//! often as needed, clear it, or stop receiving further emissions.
//!
//! The same interface exists in two variants with identical shape: a
//! single-threaded one built on single-occupancy cells that fail fast on
//! reentrant access ([`non_threadsafe`]) and a cross-thread one built on
//! reader-writer locks ([`threadsafe`]).
//!
//! The registry and log machinery shared by both variants lives in
//! [`inner_subject`] and [`inner_tracker`], where its behaviour is stated and
//! proved: emission order is preserved, registered handles stay distinct,
//! removal takes exactly the first matching entry, and clearing or removing
//! one tracker never disturbs another.

pub mod inner_subject;
pub mod inner_tracker;
pub mod non_threadsafe;
pub mod threadsafe;
pub mod tracker_handle;
