//! Packages a compiled binary into an Apple application bundle and, for iOS,
//! into an installable `.ipa` archive.
//!
//! The library holds the decisions of a build: which targets to compile,
//! which tool invocations to run and in which order, what the generated
//! `Info.plist` says, and where every file of a bundle goes. Running the
//! planned steps is left to the caller.
pub mod context;
pub mod targets;
pub mod settings;
pub mod paths;
pub mod plist;
pub mod text;
pub mod swift;
pub mod plan;
pub mod sign;
pub mod tree;
