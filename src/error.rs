use vstd::prelude::*;

verus! {

/// Everything that can go wrong while planning a project.
#[derive(Debug)]
pub enum Error {
    /// Unable to retrieve the home directory.
    HomeDir,
    /// The project path names an existing file, not a directory.
    NoDirectory,
    /// The path holds text that is not valid UTF-8.
    Utf8Check,
    /// The project name is empty, not plain ASCII, or names no directory.
    InvalidName,
    /// No license identifier was given.
    NoLicense,
    /// The license identifier is not a known SPDX identifier.
    InvalidLicense(::license::ParseError),
    /// The template engine refused a template or failed to render it; the
    /// engine's message.
    Minijinja(String),
}

} // verus!
