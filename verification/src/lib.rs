//! Locator and launch glue for the Angular language server.
//!
//! The library holds the decision logic of an editor extension that finds or
//! installs the `@angular/language-server` package, builds the command line
//! that launches it, and renders completion labels with highlight hints.
//! Host-side work (filesystem checks, package-manager calls, status
//! reporting) is driven from outside; the decisions taken between those
//! calls are verified here.

pub mod command;
pub mod labels;
pub mod resolver;
