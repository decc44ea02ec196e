//! Scores and their staves.

use vstd::prelude::*;

use crate::notation::symbol::Symbol;

verus! {

/// Descriptive information of a score.
#[derive(Debug, Clone)]
pub struct ScoreInfo {
    pub name: Option<String>,
    pub author: Option<String>,
    pub transcriber: Option<String>,
}

impl Default for ScoreInfo {
    fn default() -> (r: Self)
        ensures
            r.name is None,
            r.author is None,
            r.transcriber is None,
    {
        ScoreInfo { name: None, author: None, transcriber: None }
    }
}

/// An ordered sequence of symbols on one staff.
#[derive(Debug, Clone)]
pub struct Stave {
    pub symbols: Vec<Symbol>,
}

impl Default for Stave {
    fn default() -> (r: Self)
        ensures
            r.symbols@.len() == 0,
    {
        Stave { symbols: Vec::new() }
    }
}

/// A score: staves and metadata.
#[derive(Debug, Clone)]
pub struct Score {
    pub staves: Vec<Stave>,
    pub info: ScoreInfo,
    pub tempo: u32,
}

impl Default for Score {
    fn default() -> (r: Self)
        ensures
            r.staves@.len() == 0,
            r.tempo == 90,
    {
        Score { staves: Vec::new(), info: ScoreInfo::default(), tempo: 90 }
    }
}

} // verus!
