//! Waits for a hosting platform's pull request to catch up with a local
//! branch. The library holds the decisions the tool makes: reading the
//! version-control tool's output, extracting commit hashes from the
//! hosting tool's JSON response, and judging one polling round. The
//! binary around it does the subprocess calls and the retry timing.

pub mod git;
pub mod json;
pub mod poll;
pub mod text;
