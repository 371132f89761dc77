//! The choice of per-listener DSP pipeline, made once at startup.

use vstd::prelude::*;
use crate::text::{lemma_lowercase_idempotent, lowercase_equals, to_ascii_lowercase};

verus! {

/// Selects which per-listener DSP pipeline an audio request runs.
///
/// Both pipelines are always available; the choice is made at startup via
/// `--dsp-backend` (env `SDR_DSP_BACKEND`). Hardware acquisition is identical for both.
#[derive(Debug, Clone, Copy, PartialEq, Eq, Structural)]
pub enum DspBackend {
    /// Hand-rolled DSP loop.
    Legacy,
    /// FutureSDR flowgraph.
    FutureSdr,
}

/// The name that `as_str` gives each backend.
pub open spec fn backend_name(b: DspBackend) -> Seq<char> {
    match b {
        DspBackend::Legacy => "legacy"@,
        DspBackend::FutureSdr => "futuresdr"@,
    }
}

/// What `parse` makes of a name: matched without regard to ASCII case against
/// `legacy`, and `futuresdr`, `future-sdr` or `fsdr`.
pub open spec fn parse_backend(s: Seq<char>) -> Option<DspBackend> {
    let l = to_ascii_lowercase(s);
    if l == "legacy"@ {
        Some(DspBackend::Legacy)
    } else if l == "futuresdr"@ || l == "future-sdr"@ || l == "fsdr"@ {
        Some(DspBackend::FutureSdr)
    } else {
        None
    }
}

impl Default for DspBackend {
    fn default() -> (r: Self)
        ensures
            r == DspBackend::Legacy,
    {
        DspBackend::Legacy
    }
}

impl DspBackend {
    /// Parses a backend name, ignoring ASCII case.
    pub fn parse(s: &str) -> (r: Option<Self>)
        ensures
            r == parse_backend(s@),
    {
        if lowercase_equals(s, "legacy") {
            Some(DspBackend::Legacy)
        } else if lowercase_equals(s, "futuresdr") || lowercase_equals(s, "future-sdr")
            || lowercase_equals(s, "fsdr") {
            Some(DspBackend::FutureSdr)
        } else {
            None
        }
    }

    /// The canonical lower-case name of the backend.
    pub fn as_str(self) -> (r: &'static str)
        ensures
            r@ == backend_name(self),
    {
        match self {
            DspBackend::Legacy => "legacy",
            DspBackend::FutureSdr => "futuresdr",
        }
    }
}

/// A backend's canonical name parses back to that backend.
pub proof fn law_backend_name_roundtrip(b: DspBackend)
    ensures
        parse_backend(backend_name(b)) == Some(b),
{
    reveal_strlit("legacy");
    reveal_strlit("futuresdr");
    reveal_strlit("future-sdr");
    reveal_strlit("fsdr");
    let n = backend_name(b);
    assert(to_ascii_lowercase(n) =~= n);
    assert("legacy"@.len() != "futuresdr"@.len());
}

/// Backend names are matched without regard to ASCII case: a name parses as
/// its lower-case folding does, whatever the name. Each documented name and
/// alias (`legacy`; `futuresdr`, `future-sdr`, `fsdr`) selects its backend,
/// so every spelling of them in any case does too.
pub proof fn law_backend_parse_ignores_case(s: Seq<char>)
    ensures
        parse_backend(s) == parse_backend(to_ascii_lowercase(s)),
        parse_backend("legacy"@) == Some(DspBackend::Legacy),
        parse_backend("futuresdr"@) == Some(DspBackend::FutureSdr),
        parse_backend("future-sdr"@) == Some(DspBackend::FutureSdr),
        parse_backend("fsdr"@) == Some(DspBackend::FutureSdr),
{
    lemma_lowercase_idempotent(s);
    reveal_strlit("legacy");
    reveal_strlit("futuresdr");
    reveal_strlit("future-sdr");
    reveal_strlit("fsdr");
    assert(to_ascii_lowercase("legacy"@) =~= "legacy"@);
    assert(to_ascii_lowercase("futuresdr"@) =~= "futuresdr"@);
    assert(to_ascii_lowercase("future-sdr"@) =~= "future-sdr"@);
    assert(to_ascii_lowercase("fsdr"@) =~= "fsdr"@);
}

} // verus!
