//! Audio sources requested by the hub, written `MODE:FREQ_MHZ` (for example
//! `FM:101.1` or `AM:1.080`), and the decision to retune for one.

use vstd::prelude::*;
use crate::rates::MAX_TUNE_OFFSET_HZ;
use crate::text::{lemma_uppercase_idempotent, to_ascii_uppercase, uppercase_equals};

verus! {

/// Demodulation mode of a listener.
#[derive(Debug, Clone, Copy, PartialEq, Eq, Structural)]
pub enum Mode {
    /// Wideband FM with 75 µs de-emphasis.
    Fm,
    /// AM envelope with slow DC tracking.
    Am,
}

/// The mode a mode name stands for: `FM` or `WFM` for FM, `AM` for AM,
/// without regard to ASCII case.
pub open spec fn mode_of(name: Seq<char>) -> Option<Mode> {
    let u = to_ascii_uppercase(name);
    if u == "FM"@ || u == "WFM"@ {
        Some(Mode::Fm)
    } else if u == "AM"@ {
        Some(Mode::Am)
    } else {
        None
    }
}

/// `i` is the position of the first `:` in `s`.
pub open spec fn is_first_colon(s: Seq<char>, i: int) -> bool {
    &&& 0 <= i < s.len()
    &&& s[i] == ':'
    &&& forall|j: int| 0 <= j < i ==> s[j] != ':'
}

/// What a source splits into: the mode named before the first `:`, and the
/// text after it (the frequency in MHz). `None` when there is no `:` or the
/// mode is not known.
pub open spec fn split_source_spec(s: Seq<char>) -> Option<(Mode, Seq<char>)> {
    if exists|i: int| is_first_colon(s, i) {
        let i = choose|i: int| is_first_colon(s, i);
        match mode_of(s.take(i)) {
            Some(m) => Some((m, s.skip(i + 1))),
            None => None,
        }
    } else {
        None
    }
}

proof fn lemma_first_colon_unique(s: Seq<char>, i: int, k: int)
    requires
        is_first_colon(s, i),
        is_first_colon(s, k),
    ensures
        i == k,
{
    if i < k {
        assert(s[i] != ':');
    } else if k < i {
        assert(s[k] != ':');
    }
}

fn mode_from_name(name: &str) -> (r: Option<Mode>)
    ensures
        r == mode_of(name@),
{
    if uppercase_equals(name, "FM") || uppercase_equals(name, "WFM") {
        Some(Mode::Fm)
    } else if uppercase_equals(name, "AM") {
        Some(Mode::Am)
    } else {
        None
    }
}

/// Splits a source at its first `:` into its mode and its frequency text.
pub fn split_source(s: &str) -> (r: Option<(Mode, &str)>)
    ensures
        match r {
            Some((m, f)) => split_source_spec(s@) == Some((m, f@)),
            None => split_source_spec(s@) is None,
        },
{
    let n = s.unicode_len();
    let mut i: usize = 0;
    while i < n
        invariant
            n == s@.len(),
            i <= n,
            forall|j: int| 0 <= j < i ==> s@[j] != ':',
        decreases n - i,
    {
        if s.get_char(i) == ':' {
            proof {
                assert(is_first_colon(s@, i as int));
                let k = choose|k: int| is_first_colon(s@, k);
                lemma_first_colon_unique(s@, i as int, k);
            }
            let head = s.substring_char(0, i);
            let tail = s.substring_char(i + 1, n);
            assert(head@ =~= s@.take(i as int));
            assert(tail@ =~= s@.skip(i + 1));
            return match mode_from_name(head) {
                Some(m) => Some((m, tail)),
                None => None,
            };
        }
        i = i + 1;
    }
    assert(!exists|k: int| is_first_colon(s@, k));
    None
}

/// Whether a listener on `freq_hz` lies beyond the usable band around
/// `center_hz`, so that the hardware must be retuned (or, where retuning is
/// not offered, the request refused).
pub open spec fn out_of_band(freq_hz: u32, center_hz: u32) -> bool {
    let d = freq_hz - center_hz;
    (if d < 0 { -d } else { d }) > MAX_TUNE_OFFSET_HZ
}

/// Whether `freq_hz` is farther than the usable half band from `center_hz`.
pub fn needs_retune(freq_hz: u32, center_hz: u32) -> (r: bool)
    ensures
        r == out_of_band(freq_hz, center_hz),
{
    let offset: i64 = freq_hz as i64 - center_hz as i64;
    let dist: i64 = if offset < 0 { -offset } else { offset };
    dist > MAX_TUNE_OFFSET_HZ as i64
}

/// Mode names are matched without regard to ASCII case: a name means what
/// its upper-case folding means, whatever the name. `FM` and `WFM` name FM,
/// `AM` names AM, so `fm`, `Fm`, `wfm`, `am` and every other casing do too.
pub proof fn law_mode_ignores_case(name: Seq<char>)
    ensures
        mode_of(name) == mode_of(to_ascii_uppercase(name)),
        mode_of("FM"@) == Some(Mode::Fm),
        mode_of("WFM"@) == Some(Mode::Fm),
        mode_of("AM"@) == Some(Mode::Am),
{
    lemma_uppercase_idempotent(name);
    reveal_strlit("FM");
    reveal_strlit("WFM");
    reveal_strlit("AM");
    assert(to_ascii_uppercase("FM"@) =~= "FM"@);
    assert(to_ascii_uppercase("WFM"@) =~= "WFM"@);
    assert(to_ascii_uppercase("AM"@) =~= "AM"@);
    assert("AM"@[0] != "FM"@[0]);
    assert("AM"@.len() != "WFM"@.len());
}

/// A request whose text before the first `:` folds to a known mode name
/// splits into that mode and the text after the colon, whatever the case of
/// the mode name.
pub proof fn law_split_source_ignores_mode_case(s: Seq<char>, i: int)
    requires
        is_first_colon(s, i),
    ensures
        split_source_spec(s) == match mode_of(to_ascii_uppercase(s.take(i))) {
            Some(m) => Some((m, s.skip(i + 1))),
            None => None::<(Mode, Seq<char>)>,
        },
{
    law_mode_ignores_case(s.take(i));
    let k = choose|k: int| is_first_colon(s, k);
    lemma_first_colon_unique(s, i, k);
}

} // verus!
