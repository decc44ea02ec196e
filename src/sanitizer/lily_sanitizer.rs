//! Line breaks for LilyPond staves.

use vstd::prelude::*;

use crate::error::AppError;
use crate::lily::{LilyStave, LilySymbol, LilyTime, Lilypond};
use crate::sanitizer::Sanitizer;

verus! {

/// Counters of the current line: notes, full bars, and the length of the
/// bar in progress in 128th notes.
pub struct LineState {
    pub notes: nat,
    pub bars: nat,
    pub bar_len: nat,
}

/// The first time signature of the stave, if any.
pub open spec fn first_time(syms: Seq<LilySymbol>, i: int) -> Option<LilyTime>
    decreases syms.len() - i,
{
    if i < 0 || i >= syms.len() {
        None
    } else {
        match syms[i] {
            LilySymbol::Time(t) => Some(t),
            _ => first_time(syms, i + 1),
        }
    }
}

/// The counters after a symbol, and whether a line break follows it: a note
/// counts, fills the bar, completes it when the bar length is reached, and
/// ends the line when the line holds enough notes or bars.
pub open spec fn line_step(st: LineState, sym: LilySymbol, total: nat, max_notes: nat, max_bars: nat) -> (
    LineState,
    bool,
) {
    match sym {
        LilySymbol::Note(n) => {
            let notes = st.notes + 1;
            let cur = st.bar_len + n.length.in_128ths();
            let bars = if cur >= total {
                st.bars + 1
            } else {
                st.bars
            };
            let rest = if cur >= total {
                (cur - total) as nat
            } else {
                cur
            };
            if notes >= max_notes || bars >= max_bars {
                (LineState { notes: 0, bars: 0, bar_len: rest }, true)
            } else {
                (LineState { notes, bars, bar_len: rest }, false)
            }
        },
        _ => (st, false),
    }
}

/// The counters after the first `n` symbols.
pub open spec fn line_state(syms: Seq<LilySymbol>, total: nat, max_notes: nat, max_bars: nat, n: int) -> LineState
    decreases n,
{
    if n <= 0 || n > syms.len() {
        LineState { notes: 0, bars: 0, bar_len: 0 }
    } else {
        line_step(line_state(syms, total, max_notes, max_bars, n - 1), syms[n - 1], total, max_notes, max_bars).0
    }
}

/// The first `n` symbols with a break after each that ends a line.
pub open spec fn with_breaks(syms: Seq<LilySymbol>, total: nat, max_notes: nat, max_bars: nat, n: int) -> Seq<
    LilySymbol,
>
    decreases n,
{
    if n <= 0 || n > syms.len() {
        Seq::empty()
    } else {
        let before = with_breaks(syms, total, max_notes, max_bars, n - 1);
        let brk = line_step(
            line_state(syms, total, max_notes, max_bars, n - 1),
            syms[n - 1],
            total,
            max_notes,
            max_bars,
        ).1;
        if brk {
            before.push(syms[n - 1]).push(LilySymbol::Break)
        } else {
            before.push(syms[n - 1])
        }
    }
}

/// The bar length of a time signature in 128th notes.
pub open spec fn bar_length(t: LilyTime) -> nat {
    t.nom as nat * t.denom.in_128ths()
}

/// Breaks lines of LilyPond staves after a number of notes or bars.
#[derive(Debug, Clone, Copy)]
pub struct LilySanitizer {
    pub max_line_notes: u8,
    pub max_line_bars: u8,
}

impl Default for LilySanitizer {
    fn default() -> (r: Self)
        ensures
            r.max_line_notes == 45,
            r.max_line_bars == 7,
    {
        LilySanitizer { max_line_notes: 45, max_line_bars: 7 }
    }
}

impl LilySanitizer {
    /// The stave with its line breaks.
    pub open spec fn broken(&self, syms: Seq<LilySymbol>) -> Seq<LilySymbol> {
        with_breaks(
            syms,
            bar_length(first_time(syms, 0)->0),
            self.max_line_notes as nat,
            self.max_line_bars as nat,
            syms.len() as int,
        )
    }

    /// The first time signature of the stave.
    pub fn find_time_sig(&self, stave: &LilyStave) -> (r: Option<LilyTime>)
        ensures
            r == first_time(stave.symbols@, 0),
    {
        let mut i: usize = 0;
        while i < stave.symbols.len()
            invariant
                i <= stave.symbols@.len(),
                first_time(stave.symbols@, 0) == first_time(stave.symbols@, i as int),
            decreases stave.symbols@.len() - i,
        {
            if let LilySymbol::Time(t) = stave.symbols[i] {
                return Some(t);
            }
            i = i + 1;
        }
        None
    }

    /// Insert line breaks into the stave; fails, leaving it as it is, when it
    /// has no time signature.
    pub fn sanitize_stave(&self, stave: &mut LilyStave) -> (r: Result<(), AppError>)
        ensures
            match r {
                Ok(()) => first_time(old(stave).symbols@, 0) is Some && final(stave).symbols@
                    == self.broken(old(stave).symbols@),
                Err(e) => first_time(old(stave).symbols@, 0) is None && e
                    == AppError::MissingTimeSignature && *final(stave) == *old(stave),
            },
    {
        let time = match self.find_time_sig(stave) {
            Some(t) => t,
            None => {
                return Err(AppError::MissingTimeSignature);
            },
        };
        let v128 = time.denom.value_128();
        assert(time.nom as nat * v128 <= 255 * 128) by (nonlinear_arith)
            requires
                time.nom <= 255,
                v128 <= 128,
        ;
        let total: u128 = time.nom as u128 * v128 as u128;
        let ghost syms = stave.symbols@;
        let ghost tl = total as nat;
        let ghost mn = self.max_line_notes as nat;
        let ghost mb = self.max_line_bars as nat;
        let mut line_notes: u16 = 0;
        let mut line_bars: u16 = 0;
        let mut bar_len: u128 = 0;
        let mut out: Vec<LilySymbol> = Vec::new();
        let n = stave.symbols.len();
        let mut i: usize = 0;
        while i < n
            invariant
                n == syms.len(),
                stave.symbols@ == syms,
                i <= n,
                tl == total,
                mn == self.max_line_notes,
                mb == self.max_line_bars,
                line_state(syms, tl, mn, mb, i as int) == (LineState {
                    notes: line_notes as nat,
                    bars: line_bars as nat,
                    bar_len: bar_len as nat,
                }),
                out@ == with_breaks(syms, tl, mn, mb, i as int),
                line_notes <= 255,
                line_bars <= 255,
                bar_len <= 128 * i,
            decreases n - i,
        {
            let sym = stave.symbols[i];
            let ghost st = line_state(syms, tl, mn, mb, i as int);
            let ghost stepped = line_step(st, sym, tl, mn, mb);
            assert(line_state(syms, tl, mn, mb, i + 1) == stepped.0);
            let ghost before = out@;
            out.push(sym);
            if let LilySymbol::Note(note) = sym {
                line_notes = line_notes + 1;
                bar_len = bar_len + note.length.value_128() as u128;
                if bar_len >= total {
                    line_bars = line_bars + 1;
                    bar_len = bar_len - total;
                }
                if line_notes >= self.max_line_notes as u16 || line_bars >= self.max_line_bars as u16 {
                    out.push(LilySymbol::Break);
                    line_notes = 0;
                    line_bars = 0;
                }
            }
            assert(line_state(syms, tl, mn, mb, i + 1) == (LineState {
                notes: line_notes as nat,
                bars: line_bars as nat,
                bar_len: bar_len as nat,
            }));
            assert(out@ == with_breaks(syms, tl, mn, mb, i + 1));
            i = i + 1;
        }
        stave.symbols = out;
        Ok(())
    }
}

/// The error of the first stave without a time signature, from position `i`.
pub open spec fn lily_failure(staves: Seq<LilyStave>, i: int) -> Option<AppError>
    decreases staves.len() - i,
{
    if i < 0 || i >= staves.len() {
        None
    } else if first_time(staves[i].symbols@, 0) is None {
        Some(AppError::MissingTimeSignature)
    } else {
        lily_failure(staves, i + 1)
    }
}

impl Sanitizer<Lilypond> for LilySanitizer {
    open spec fn sanitizes(&self, old: Lilypond, new: Lilypond) -> bool {
        &&& new.version == old.version
        &&& new.language == old.language
        &&& new.staves@.len() == old.staves@.len()
        &&& forall|i: int|
            0 <= i < old.staves@.len() ==> (#[trigger] new.staves@[i]).symbols@ == self.broken(
                old.staves@[i].symbols@,
            )
    }

    open spec fn failure(&self, t: Lilypond) -> Option<AppError> {
        lily_failure(t.staves@, 0)
    }

    fn sanitize(&self, score: &mut Lilypond) -> (r: Result<(), AppError>) {
        let mut i: usize = 0;
        while i < score.staves.len()
            invariant
                i <= score.staves@.len(),
                lily_failure(score.staves@, 0) == lily_failure(score.staves@, i as int),
                forall|j: int| 0 <= j < i ==> first_time(#[trigger] score.staves@[j].symbols@, 0) is Some,
            decreases score.staves@.len() - i,
        {
            if self.find_time_sig(&score.staves[i]).is_none() {
                return Err(AppError::MissingTimeSignature);
            }
            i = i + 1;
        }
        let ghost old_score = *score;
        let mut i: usize = 0;
        while i < score.staves.len()
            invariant
                i <= score.staves@.len(),
                score.staves@.len() == old_score.staves@.len(),
                score.version == old_score.version,
                score.language == old_score.language,
                forall|j: int|
                    0 <= j < old_score.staves@.len() ==> first_time(
                        #[trigger] old_score.staves@[j].symbols@,
                        0,
                    ) is Some,
                forall|j: int|
                    0 <= j < i ==> (#[trigger] score.staves@[j]).symbols@ == self.broken(
                        old_score.staves@[j].symbols@,
                    ),
                forall|j: int| i <= j < old_score.staves@.len() ==> score.staves@[j] == old_score.staves@[j],
            decreases old_score.staves@.len() - i,
        {
            let _ = self.sanitize_stave(&mut score.staves[i]);
            i = i + 1;
        }
        Ok(())
    }
}

} // verus!
